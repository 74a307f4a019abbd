//! The data model of requests and responses.

pub mod content_types;
pub mod generation_types;
pub mod model;
pub mod request_types;
pub mod requests;
pub mod response_type;
pub mod responses;
pub mod safety_types;
pub mod schema;
pub mod server;
