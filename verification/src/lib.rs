pub mod bytes;
pub mod config;
pub mod headers;
pub mod json;
pub mod models;
pub mod numfmt;
pub mod proxy;
