//! The order of process startup: the hint, where the platform offers it,
//! and then the application.

use vstd::prelude::*;

verus! {

/// Whether the program was built for the operating system whose graphics
/// library can hold the entry point.
#[derive(Clone, Copy, Debug, PartialEq, Eq, Structural)]
pub enum Platform {
    /// The one system on which the hint exists.
    Supported,
    /// Any other system: there the hint is no part of the program.
    Unsupported,
}

/// One stage of startup.
#[derive(Clone, Copy, Debug, PartialEq, Eq, Structural)]
pub enum Stage {
    /// Ask for the high-performance adapter. Nothing that happens in this
    /// stage keeps the next one from running.
    Hint,
    /// Hand control to the application, which returns only when it exits.
    RunApplication,
}

/// The stages of startup on `platform`, in the order in which they run.
pub open spec fn plan(platform: Platform) -> Seq<Stage> {
    match platform {
        Platform::Supported => seq![Stage::Hint, Stage::RunApplication],
        Platform::Unsupported => seq![Stage::RunApplication],
    }
}

/// The stages that the program entry point runs, first to last.
pub fn startup_plan(platform: Platform) -> (stages: Vec<Stage>)
    ensures
        stages@ == plan(platform),
{
    let mut stages: Vec<Stage> = Vec::new();
    match platform {
        Platform::Supported => {
            stages.push(Stage::Hint);
        },
        Platform::Unsupported => {},
    }
    stages.push(Stage::RunApplication);
    assert(stages@ =~= plan(platform));
    stages
}

/// On every platform the application is run exactly once and as the last
/// stage; the hint comes before it, and only where the platform offers it.
pub proof fn application_runs_last_and_once(platform: Platform)
    ensures
        plan(platform).len() >= 1,
        plan(platform).last() == Stage::RunApplication,
        forall|i: int|
            0 <= i < plan(platform).len() - 1 ==> plan(platform)[i] == Stage::Hint,
        plan(platform).contains(Stage::Hint) <==> platform == Platform::Supported,
{
    if platform == Platform::Supported {
        assert(plan(platform)[0] == Stage::Hint);
    }
}

} // verus!
