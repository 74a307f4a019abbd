//! First version of the API surface.

pub mod constants;
pub mod convert;
pub mod errors;
pub mod fields;
pub mod genai;
pub mod generative_models;
pub mod json;
pub mod lists;
pub mod methods;
pub mod models;
pub mod stream;
pub mod text;
pub mod traits;
pub mod trusted;
pub mod types;
