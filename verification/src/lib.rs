//! Backend core of a desktop image-generation application: request
//! validation, the line protocol spoken with the inference process, the
//! placeholder image written when that process fails, and the progress
//! state shared with polling callers.

pub mod checksum;
pub mod coordinator;
pub mod error;
pub mod json;
pub mod locator;
pub mod models;
pub mod png;
pub mod progress;
pub mod protocol;
pub mod request;
pub mod settings;
pub mod text;

pub use crate::error::DiffusionError;
pub use crate::progress::GenerationProgress;
pub use crate::protocol::ImageGenerationResponse;
pub use crate::request::ImageGenerationRequest;
pub use crate::settings::AppSettings;
