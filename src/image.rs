//! Images as the service stores and serves them.
use vstd::prelude::*;

verus! {

/// An uploaded image: binary data, or text (SVG).
pub enum ImageInput {
    Bin(Vec<u8>),
    Text(String),
}

/// A binary image and its media type.
pub struct BinImage {
    data: Vec<u8>,
    type_: String,
}

impl BinImage {
    pub closed spec fn content(&self) -> Seq<u8> {
        self.data@
    }

    pub closed spec fn media_type(&self) -> Seq<char> {
        self.type_@
    }

    pub fn new(data: Vec<u8>, type_: String) -> (r: Self)
        ensures
            r.content() == data@,
            r.media_type() == type_@,
    {
        BinImage { data, type_ }
    }

    pub fn data(&self) -> (r: &Vec<u8>)
        ensures
            r@ == self.content(),
    {
        &self.data
    }

    pub fn type_(&self) -> (r: &String)
        ensures
            r@ == self.media_type(),
    {
        &self.type_
    }
}

/// A text image and its media type.
pub struct TextImage {
    data: String,
    type_: String,
}

impl TextImage {
    pub closed spec fn content(&self) -> Seq<char> {
        self.data@
    }

    pub closed spec fn media_type(&self) -> Seq<char> {
        self.type_@
    }

    pub fn new(data: String, type_: String) -> (r: Self)
        ensures
            r.content() == data@,
            r.media_type() == type_@,
    {
        TextImage { data, type_ }
    }

    pub fn data(&self) -> (r: &String)
        ensures
            r@ == self.content(),
    {
        &self.data
    }

    pub fn type_(&self) -> (r: &String)
        ensures
            r@ == self.media_type(),
    {
        &self.type_
    }
}

/// A binary image in three sizes: as uploaded, large and small.
pub struct ResizedBin {
    orig: BinImage,
    large: BinImage,
    small: BinImage,
}

impl ResizedBin {
    pub closed spec fn spec_orig(&self) -> BinImage {
        self.orig
    }

    pub closed spec fn spec_large(&self) -> BinImage {
        self.large
    }

    pub closed spec fn spec_small(&self) -> BinImage {
        self.small
    }

    pub fn new(orig: BinImage, large: BinImage, small: BinImage) -> (r: Self)
        ensures
            r.spec_orig() == orig,
            r.spec_large() == large,
            r.spec_small() == small,
    {
        ResizedBin { orig, large, small }
    }

    pub fn orig(&self) -> (r: &BinImage)
        ensures
            *r == self.spec_orig(),
    {
        &self.orig
    }

    pub fn large(&self) -> (r: &BinImage)
        ensures
            *r == self.spec_large(),
    {
        &self.large
    }

    pub fn small(&self) -> (r: &BinImage)
        ensures
            *r == self.spec_small(),
    {
        &self.small
    }
}

/// An image prepared for serving.
pub enum ResizedImage {
    Bin(ResizedBin),
    Text(TextImage),
}

/// An image as stored.
pub struct RawImage {
    pub data: Vec<u8>,
    pub type_: String,
}

/// The collection that holds stored images.
pub struct RawImageCfg {}

impl RawImageCfg {
    pub fn collection_name() -> (r: &'static str)
        ensures
            r == "RawImage",
    {
        "RawImage"
    }
}

/// The collection that holds temporary images.
pub struct TempImgCfg {}

impl TempImgCfg {
    pub fn collection_name() -> (r: &'static str)
        ensures
            r == "TempImg",
    {
        "TempImg"
    }
}

/// An uploaded temporary image: its media type and its data as text.
pub struct TempImgInput {
    pub type_: String,
    pub data: String,
}

} // verus!
