//! The session indicator shown to the presentation layer.

use vstd::prelude::*;

verus! {

/// Whether the local client has been discovered and connected. The flag is
/// flipped only after a successful discovery and connect, never
/// optimistically.
#[derive(Debug, Clone, Copy, PartialEq, Eq, Structural)]
pub struct AppStatus {
    pub lcu_loaded: bool,
}

impl AppStatus {
    pub fn default() -> (r: Self)
        ensures
            !r.lcu_loaded,
    {
        AppStatus { lcu_loaded: false }
    }
}

} // verus!
