//! The first request interface.

pub mod request;
