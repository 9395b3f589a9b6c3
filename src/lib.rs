//! A pipeline engine for request handling: stages that run on an input and
//! a shared context, their short-circuiting composition, the four-stage
//! pipeline (hook, converter, core stage, output converter), and a CRUD
//! facade of five such pipelines, with the user service built on it.

pub mod behavior;
pub mod callable;
pub mod config;
pub mod image;
pub mod laws;
pub mod result;
pub mod service;
pub mod store;
pub mod text;
pub mod users;
