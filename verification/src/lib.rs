//! Core logic of a bundle-producing build tool: resolution of signing
//! credentials from environment overrides, project configuration and a
//! development fallback, and the staged pipeline that turns an installable
//! package into a signed distributable bundle.
//!
//! Every path, tool command line and decision the pipeline takes is computed
//! here with a proved contract; a thin unverified driver performs the
//! filesystem work and process launches that the plan calls for.

pub mod error;
pub mod keystore;
pub mod manifest;
pub mod pipeline;
pub mod staging;
pub mod text;

pub use text::path_join;
pub use text::u32_to_string;
