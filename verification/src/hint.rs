//! The hint as a state machine.
//!
//! The machine never touches the operating system. In each state it names
//! the one request that is pending; the host performs it and reports the
//! reply; the machine moves on. A resolution that fails abandons the hint,
//! and nothing is tried a second time:
//!
//! ```text
//! Unattempted -> ModuleResolved -> SymbolResolved -> Invoked
//!      |               |
//!      +---------------+--> Abandoned
//! ```

use vstd::prelude::*;
use crate::capability::{Reply, Request};
use crate::diagnostic::Diagnostic;
use crate::preference::GpuPreference;

verus! {

/// How far one attempt at the hint has come.
#[derive(Clone, Copy, Debug, PartialEq, Eq, Structural)]
pub enum HintState {
    /// Nothing has been asked of the system yet.
    Unattempted,
    /// The system library is at hand.
    ModuleResolved,
    /// The entry point is at hand.
    SymbolResolved,
    /// The entry point was called; the attempt is over.
    Invoked,
    /// A resolution failed; the attempt is over.
    Abandoned,
}

/// The result of one step: the state that follows and, if the step
/// failed, the line to leave on the error stream.
#[derive(Clone, Copy, Debug, PartialEq, Eq, Structural)]
pub struct Transition {
    pub next: HintState,
    pub diagnostic: Option<Diagnostic>,
}

impl HintState {
    /// Whether the attempt is over in this state.
    pub open spec fn is_terminal(self) -> bool {
        self is Invoked || self is Abandoned
    }

    /// The number of steps that lie behind this state, at most three.
    pub open spec fn progress(self) -> nat {
        match self {
            HintState::Unattempted => 0,
            HintState::ModuleResolved => 1,
            HintState::SymbolResolved => 2,
            HintState::Invoked | HintState::Abandoned => 3,
        }
    }

    /// The request that is pending in this state, if the attempt is not
    /// over.
    pub open spec fn pending_request(self) -> Option<Request> {
        match self {
            HintState::Unattempted => Some(Request::LoadModule),
            HintState::ModuleResolved => Some(Request::ResolveSymbol),
            HintState::SymbolResolved => Some(Request::Invoke(GpuPreference::HighPerformance)),
            HintState::Invoked | HintState::Abandoned => None,
        }
    }

    /// The step that `reply` causes in this state. A reply of a kind that
    /// the pending request cannot give, or any reply once the attempt is
    /// over, changes nothing and reports nothing.
    pub open spec fn after(self, reply: Reply) -> Transition {
        match (self, reply) {
            (HintState::Unattempted, Reply::Found) => Transition {
                next: HintState::ModuleResolved,
                diagnostic: None,
            },
            (HintState::Unattempted, Reply::Missing) => Transition {
                next: HintState::Abandoned,
                diagnostic: Some(Diagnostic::ModuleUnavailable),
            },
            (HintState::ModuleResolved, Reply::Found) => Transition {
                next: HintState::SymbolResolved,
                diagnostic: None,
            },
            (HintState::ModuleResolved, Reply::Missing) => Transition {
                next: HintState::Abandoned,
                diagnostic: Some(Diagnostic::SymbolUnavailable),
            },
            (HintState::SymbolResolved, Reply::Returned(raw)) => Transition {
                next: HintState::Invoked,
                diagnostic: if raw != 0 {
                    None
                } else {
                    Some(Diagnostic::InvocationFailed)
                },
            },
            _ => Transition { next: self, diagnostic: None },
        }
    }

    /// The state in which every attempt begins.
    pub fn new() -> (state: HintState)
        ensures
            state == HintState::Unattempted,
    {
        HintState::Unattempted
    }

    /// What the host has to do next, or `None` when the attempt is over.
    pub fn pending(self) -> (request: Option<Request>)
        ensures
            request == self.pending_request(),
    {
        match self {
            HintState::Unattempted => Some(Request::LoadModule),
            HintState::ModuleResolved => Some(Request::ResolveSymbol),
            HintState::SymbolResolved => Some(Request::Invoke(GpuPreference::HighPerformance)),
            HintState::Invoked | HintState::Abandoned => None,
        }
    }

    /// Takes the reply to the pending request and moves on.
    pub fn advance(self, reply: Reply) -> (step: Transition)
        ensures
            step == self.after(reply),
    {
        match (self, reply) {
            (HintState::Unattempted, Reply::Found) => Transition {
                next: HintState::ModuleResolved,
                diagnostic: None,
            },
            (HintState::Unattempted, Reply::Missing) => Transition {
                next: HintState::Abandoned,
                diagnostic: Some(Diagnostic::ModuleUnavailable),
            },
            (HintState::ModuleResolved, Reply::Found) => Transition {
                next: HintState::SymbolResolved,
                diagnostic: None,
            },
            (HintState::ModuleResolved, Reply::Missing) => Transition {
                next: HintState::Abandoned,
                diagnostic: Some(Diagnostic::SymbolUnavailable),
            },
            (HintState::SymbolResolved, Reply::Returned(raw)) => {
                let diagnostic = if raw != 0 {
                    None
                } else {
                    Some(Diagnostic::InvocationFailed)
                };
                Transition { next: HintState::Invoked, diagnostic }
            },
            _ => Transition { next: self, diagnostic: None },
        }
    }
}

/// No step leads backward, and a reply that the pending request admits
/// leads strictly forward.
pub proof fn steps_never_lead_backward(state: HintState, reply: Reply)
    ensures
        state.progress() <= state.after(reply).next.progress() <= 3,
        state.pending_request() matches Some(request) && request.admits(reply)
            ==> state.progress() < state.after(reply).next.progress(),
{
}

/// Once the attempt is over nothing moves it and nothing more is reported:
/// no state is visited twice, and no failure is retried.
pub proof fn finished_attempt_stays_finished(state: HintState, reply: Reply)
    requires
        state.is_terminal(),
    ensures
        state.pending_request() is None,
        state.after(reply) == (Transition { next: state, diagnostic: None }),
{
}

/// A diagnostic is reported only on the step that ends the attempt, so one
/// attempt reports at most one.
pub proof fn diagnostic_ends_the_attempt(state: HintState, reply: Reply)
    requires
        state.after(reply).diagnostic is Some,
    ensures
        !state.is_terminal(),
        state.after(reply).next.is_terminal(),
{
}

} // verus!
