//! Builds RFC 2397 data URIs (`data:<media type>;base64,<payload>`) from a
//! file's resolved path and its bytes, and decides how a failed embedding is
//! reported.

pub mod embed;
pub mod encode;
pub mod error;
pub mod media;
pub mod resolve;
pub mod uri;

pub use embed::{embed, embed_or_report, include_data_uri, load, validate_invocation, Argument};
pub use error::{diagnostic, EmbedError};
pub use resolve::{resolve, Resolution};
