//! Core of a small static-blog publisher: backend and format selection,
//! credential discovery, the per-backend lifecycle, configuration values,
//! wrapper-template filling and prompt formatting.
pub mod text;
pub mod backend;
pub mod error;
pub mod credentials;
pub mod lifecycle;
pub mod s3;
pub mod format;
pub mod conf;
pub mod io;
pub mod prompt;
pub mod prompt_builder;
pub mod post;
pub mod registry;
