use ringoro::config::{default_port, Config};
use ringoro::image::{BinImage, ResizedBin, TextImage};
use ringoro::result::{Error, HexError};

fn config(host: &str, port: u16, key: &str) -> Config {
    Config {
        host: String::from(host),
        port,
        db_uri: String::from("mongodb://localhost"),
        db_database: String::from("ringoro"),
        redis_address: String::from("localhost:6379"),
        session_key: String::from(key),
        twitter_consumer_key: String::from("k"),
        twitter_consumer_secret: String::from("s"),
        twitter_redirect_url: String::from("http://localhost/cb"),
    }
}

#[test]
fn bind_name_joins_host_and_port() {
    assert_eq!("127.0.0.1:8080", config("127.0.0.1", 8080, "").bind_name());
    assert_eq!("example.org:0", config("example.org", 0, "").bind_name());
    assert_eq!("h:65535", config("h", 65535, "").bind_name());
    assert_eq!("h:9", config("h", 9, "").bind_name());
}

#[test]
fn default_port_is_8080() {
    assert_eq!(8080, default_port());
}

#[test]
fn session_key_decodes_hex() {
    assert_eq!(vec![0x01, 0xab, 0xFF], config("h", 1, "01abFF").session_key_bin().unwrap());
    assert_eq!(Vec::<u8>::new(), config("h", 1, "").session_key_bin().unwrap());
}

#[test]
fn session_key_of_odd_length_is_refused() {
    let r = config("h", 1, "abc").session_key_bin();
    assert!(matches!(r, Err(Error::Decode(HexError::OddLength))));
}

#[test]
fn session_key_with_bad_digit_is_refused() {
    let r = config("h", 1, "0g12").session_key_bin();
    match r {
        Err(Error::Decode(HexError::InvalidCharacter { c, index })) => {
            assert_eq!('g', c);
            assert_eq!(1, index);
        }
        _ => panic!("expected an invalid character"),
    }
    assert_eq!(
        "Invalid character at position 1",
        config("h", 1, "0g12").session_key_bin().unwrap_err().message()
    );
}

#[test]
fn image_getters_return_their_fields() {
    let orig = BinImage::new(vec![1, 2, 3], String::from("image/png"));
    let large = BinImage::new(vec![4], String::from("image/png"));
    let small = BinImage::new(vec![5], String::from("image/png"));
    let r = ResizedBin::new(orig, large, small);
    assert_eq!(&vec![1, 2, 3], r.orig().data());
    assert_eq!(&vec![4], r.large().data());
    assert_eq!(&vec![5], r.small().data());
    assert_eq!("image/png", r.small().type_());
    let t = TextImage::new(String::from("<svg/>"), String::from("image/svg+xml"));
    assert_eq!("<svg/>", t.data());
    assert_eq!("image/svg+xml", t.type_());
}
