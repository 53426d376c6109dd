//! The preference value handed to the operating system.

use vstd::prelude::*;

verus! {

/// The class of graphics adapter that the process asks for.
#[derive(Clone, Copy, Debug, PartialEq, Eq, Structural)]
pub enum GpuPreference {
    /// The discrete, high-performance adapter.
    HighPerformance,
}

impl GpuPreference {
    /// The integer by which the operating system knows this preference.
    /// It is fixed by the system's interface and is no free choice.
    pub open spec fn code(self) -> i32 {
        match self {
            GpuPreference::HighPerformance => 2i32,
        }
    }

    /// The value to pass to the system's entry point.
    pub fn wire_code(self) -> (code: i32)
        ensures
            code == self.code(),
    {
        match self {
            GpuPreference::HighPerformance => 2,
        }
    }
}

} // verus!
