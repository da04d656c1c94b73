//! The operating systems the engine tells apart.

use vstd::prelude::*;

verus! {

/// The host platform, as found at run time.
#[derive(Clone, Copy, Debug, PartialEq, Eq)]
pub enum Platform {
    Linux,
    MacOs,
    Windows,
    Other,
}

} // verus!
