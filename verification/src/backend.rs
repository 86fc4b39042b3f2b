//! Platform backend selection.
//!
//! At build configuration time the host operating system determines which
//! native display API the display connection targets. Selection is total and
//! pure: every supported platform maps to exactly one backend variant.

use vstd::prelude::*;

verus! {

/// The host operating system, resolved once at build configuration time.
#[derive(Clone, Copy, Debug, PartialEq, Eq, Structural)]
pub enum TargetOs {
    Windows,
    MacOs,
    /// Every platform that is neither Windows nor macOS.
    Other,
}

/// The closed enumeration of display backends a platform can target.
/// The Windows backend additionally rides on the window's native handle,
/// which is opaque to this library and supplied by the unverified shell.
#[derive(Clone, Copy, Debug, PartialEq, Eq, Structural)]
pub enum Backend {
    /// Windows-native binding, bound to the window's native display handle.
    Wgl,
    /// macOS-native binding.
    Cgl,
    /// Default cross-platform binding for all other targets.
    Egl,
}

/// What backend a given operating system selects.
pub open spec fn spec_select_backend(os: TargetOs) -> Backend {
    match os {
        TargetOs::Windows => Backend::Wgl,
        TargetOs::MacOs => Backend::Cgl,
        TargetOs::Other => Backend::Egl,
    }
}

/// Chooses the display backend for the host operating system.
///
/// Selection is exhaustive over the supported platforms and has no error
/// path: Windows gets the Windows-native binding, macOS the macOS-native
/// one, and every other platform the default cross-platform binding.
pub fn select_backend(os: TargetOs) -> (r: Backend)
    ensures
        r == spec_select_backend(os),
{
    match os {
        TargetOs::Windows => Backend::Wgl,
        TargetOs::MacOs => Backend::Cgl,
        TargetOs::Other => Backend::Egl,
    }
}

} // verus!
