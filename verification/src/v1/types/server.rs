//! What the server keeps for the client.

pub mod caching;
