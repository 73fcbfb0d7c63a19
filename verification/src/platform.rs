//! The platform detector.

use vstd::prelude::*;
use vstd::string::*;

verus! {

/// The operating systems the bootstrap knows how to set up.
#[derive(Clone, Copy, Debug, PartialEq, Eq, Structural)]
pub enum Platform {
    Darwin,
    Linux,
}

/// The platform that an operating-system identifier stands for, if any.
pub open spec fn platform_of(os: Seq<char>) -> Option<Platform> {
    if os == "macos"@ {
        Some(Platform::Darwin)
    } else if os == "linux"@ {
        Some(Platform::Linux)
    } else {
        None
    }
}

/// Maps an operating-system identifier to a supported platform.
///
/// Only `"macos"` and `"linux"` are recognised; every other identifier
/// yields `None`, which callers must treat as fatal.
pub fn detect_platform(os: &str) -> (platform: Option<Platform>)
    ensures
        platform == platform_of(os@),
{
    let os = String::from_str(os);
    if os == String::from_str("macos") {
        Some(Platform::Darwin)
    } else if os == String::from_str("linux") {
        Some(Platform::Linux)
    } else {
        None
    }
}

} // verus!
