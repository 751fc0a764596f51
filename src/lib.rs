//! Resolution, verification and location of released `ylem` compiler binaries.

pub mod error;
pub mod platform;
pub mod version;
pub mod hex_string;
pub mod releases;
pub mod compiler;
