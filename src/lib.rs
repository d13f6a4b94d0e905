//! An ephemeral keyed blob store: uploads are admitted under an access token,
//! stored under a short random identifier and served until they expire.
//!
//! `Engine` holds the metadata records and the content objects side by side;
//! its operations are stated over the model in `model`, and `laws` proves how
//! they fit together.
pub mod admission;
pub mod content;
pub mod cors;
pub mod engine;
pub mod id;
pub mod laws;
pub mod model;
pub mod store;

pub use admission::{is_token_valid, Token};
pub use content::classify;
pub use cors::CORS;
pub use engine::Engine;
pub use id::{FileId, ImageId};
pub use model::{Config, EngineError, Visibility};
pub use store::{BlobRecord, FileData, ImageData};
