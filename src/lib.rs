use vstd::prelude::*;

pub mod generator;
pub mod model;
pub mod payload;
pub mod response;
pub mod text;
pub mod types;

pub use types::{GeminiRequest, MimeType};
