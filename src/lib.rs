//! Trackpad haptic feedback for a desktop application shell.
//!
//! The library decides everything that does not touch the operating system:
//! which platforms carry the capability, how the numeric codes sent by a
//! frontend map to patterns and timings, how an omitted timing is resolved,
//! and which native values the feedback performer is finally handed.
use vstd::prelude::*;

pub mod commands;
pub mod haptics;

verus! {

/// The family of operating system the library is built for.
#[derive(Clone, Copy, Debug, PartialEq, Eq, Structural)]
pub enum Platform {
    MacOs,
    Other,
}

/// Haptic feedback exists on macOS alone.
pub open spec fn supported(platform: Platform) -> bool {
    platform == Platform::MacOs
}

/// The one failure a command can report.
#[derive(Clone, Copy, Debug, PartialEq, Eq, Structural)]
pub enum HapticsError {
    /// Feedback was asked for on a platform that has none.
    UnsupportedPlatform,
}

/// The text reported for `HapticsError::UnsupportedPlatform`.
pub open spec fn unsupported_message() -> Seq<char> {
    "Haptic feedback is only supported on macOS."@
}

impl HapticsError {
    /// The human-readable description handed back to a frontend.
    pub fn message(&self) -> (r: String)
        ensures
            r@ == unsupported_message(),
    {
        match self {
            HapticsError::UnsupportedPlatform => "Haptic feedback is only supported on macOS.".to_owned(),
        }
    }
}

/// Whether haptic feedback is available on `platform`. A `true` answer means
/// the native call will not be refused; whether a pulse is felt still depends
/// on the hardware, on trackpad contact and on the user's settings.
pub fn is_supported(platform: Platform) -> (r: bool)
    ensures
        r == supported(platform),
{
    match platform {
        Platform::MacOs => true,
        Platform::Other => false,
    }
}

} // verus!
