use vstd::prelude::*;

use crate::platform::Platform;

verus! {

/// Errors reported by the library.
#[derive(Clone, Debug, PartialEq, Eq)]
pub enum YvmError {
    /// The text does not name one of the supported platforms.
    UnknownPlatform(String),
    /// The platform is known but has no catalog source or download location.
    UnsupportedPlatform(Platform),
    /// The catalog that serves the platform could not be loaded.
    CatalogUnavailable(Platform),
    /// The download location could not be built into a URL.
    InvalidUrl,
    /// A checksum is not valid hexadecimal text.
    InvalidChecksum,
}

} // verus!
