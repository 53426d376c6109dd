//! The advisory lines that the hint can leave on the error stream.

use vstd::prelude::*;
use crate::capability::{ENTRY_POINT_NAME, MODULE_NAME};

verus! {

/// The tag that opens every line, naming the subsystem that speaks.
pub const TAG: &'static str = "[GPU]";

/// The three ways in which the hint can come to nothing. None of them is
/// an error of the program.
#[derive(Clone, Copy, Debug, PartialEq, Eq, Structural)]
pub enum Diagnostic {
    /// The system library could not be acquired.
    ModuleUnavailable,
    /// The library does not export the entry point.
    SymbolUnavailable,
    /// The entry point was called and reported failure.
    InvocationFailed,
}

impl Diagnostic {
    /// The line for this diagnostic, as a sequence of characters.
    pub open spec fn text(self) -> Seq<char> {
        match self {
            Diagnostic::ModuleUnavailable =>
                "[GPU] gdi32.dll not available; skipping GPU preference hint."@,
            Diagnostic::SymbolUnavailable =>
                "[GPU] SetProcessDefaultGpuPreference not exported; skipping hint."@,
            Diagnostic::InvocationFailed =>
                "[GPU] Failed to hint high-performance GPU preference (continuing anyway)."@,
        }
    }

    /// The line to write for this diagnostic, without a line ending.
    pub fn message(self) -> (line: &'static str)
        ensures
            line@ == self.text(),
    {
        match self {
            Diagnostic::ModuleUnavailable =>
                "[GPU] gdi32.dll not available; skipping GPU preference hint.",
            Diagnostic::SymbolUnavailable =>
                "[GPU] SetProcessDefaultGpuPreference not exported; skipping hint.",
            Diagnostic::InvocationFailed =>
                "[GPU] Failed to hint high-performance GPU preference (continuing anyway).",
        }
    }
}

/// Every line opens with the tag and a space.
pub proof fn message_opens_with_tag(diagnostic: Diagnostic)
    ensures
        (TAG@ + seq![' ']).is_prefix_of(diagnostic.text()),
{
    reveal_strlit("[GPU]");
    reveal_strlit("[GPU] gdi32.dll not available; skipping GPU preference hint.");
    reveal_strlit("[GPU] SetProcessDefaultGpuPreference not exported; skipping hint.");
    reveal_strlit("[GPU] Failed to hint high-performance GPU preference (continuing anyway).");
    let tag = TAG@ + seq![' '];
    assert(tag.len() == 6);
    assert(tag =~= diagnostic.text().subrange(0, 6));
}

/// No two diagnostics share a line: a reader of the stream can tell which
/// of the three happened.
pub proof fn messages_are_distinct(a: Diagnostic, b: Diagnostic)
    requires
        a.text() == b.text(),
    ensures
        a == b,
{
    reveal_strlit("[GPU] gdi32.dll not available; skipping GPU preference hint.");
    reveal_strlit("[GPU] SetProcessDefaultGpuPreference not exported; skipping hint.");
    reveal_strlit("[GPU] Failed to hint high-performance GPU preference (continuing anyway).");
    assert(Diagnostic::ModuleUnavailable.text()[6] == 'g');
    assert(Diagnostic::SymbolUnavailable.text()[6] == 'S');
    assert(Diagnostic::InvocationFailed.text()[6] == 'F');
}

/// The line for a failed resolution names, right after the tag, what
/// could not be found: the module or the entry point, as it was asked for.
pub proof fn message_names_what_is_missing()
    ensures
        Diagnostic::ModuleUnavailable.text().subrange(6, 6 + MODULE_NAME@.len() as int)
            == MODULE_NAME@,
        Diagnostic::SymbolUnavailable.text().subrange(6, 6 + ENTRY_POINT_NAME@.len() as int)
            == ENTRY_POINT_NAME@,
{
    reveal_strlit("gdi32.dll");
    reveal_strlit("SetProcessDefaultGpuPreference");
    reveal_strlit("[GPU] gdi32.dll not available; skipping GPU preference hint.");
    reveal_strlit("[GPU] SetProcessDefaultGpuPreference not exported; skipping hint.");
    assert(Diagnostic::ModuleUnavailable.text().subrange(6, 15) =~= MODULE_NAME@);
    assert(Diagnostic::SymbolUnavailable.text().subrange(6, 36) =~= ENTRY_POINT_NAME@);
}

} // verus!
