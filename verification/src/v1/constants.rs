//! Fixed values.

pub mod request;
