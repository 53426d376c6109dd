//! What the hint asks of the operating system, and what can come back.
//!
//! The capability is optional: the system library may be absent, and where
//! it is present it may not export the entry point. Both are looked up by
//! name while the process runs.

use vstd::prelude::*;
use crate::preference::GpuPreference;

verus! {

/// The file name of the system graphics library that may hold the entry
/// point.
pub const MODULE_NAME: &'static str = "gdi32.dll";

/// The exact name under which the library exports the entry point.
pub const ENTRY_POINT_NAME: &'static str = "SetProcessDefaultGpuPreference";

/// One piece of foreign work that the host performs for the hint.
#[derive(Clone, Copy, Debug, PartialEq, Eq, Structural)]
pub enum Request {
    /// Acquire a handle to the module named [`MODULE_NAME`].
    LoadModule,
    /// Look up [`ENTRY_POINT_NAME`] in the module that was acquired.
    ResolveSymbol,
    /// Call the entry point that was resolved, with this preference.
    Invoke(GpuPreference),
}

/// What the host reports after it has performed a [`Request`].
#[derive(Clone, Copy, Debug, PartialEq, Eq, Structural)]
pub enum Reply {
    /// The module or the symbol that was asked for is there.
    Found,
    /// The module or the symbol that was asked for is not there.
    Missing,
    /// The entry point was called and handed back this integer, which the
    /// system means as a boolean.
    Returned(i32),
}

impl Request {
    /// Whether `reply` is of the kind that performing this request gives.
    pub open spec fn admits(self, reply: Reply) -> bool {
        match self {
            Request::LoadModule | Request::ResolveSymbol => reply is Found || reply is Missing,
            Request::Invoke(_) => reply is Returned,
        }
    }
}

} // verus!
