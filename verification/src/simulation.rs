//! The hint and the startup sequence, run against a described environment.
//!
//! An [`Environment`] says what the operating system would answer. Running
//! the state machine against it gives the trace of everything a host would
//! have done: the requests performed, the diagnostics written, the launch
//! of the application. The traces are stated in closed form, and what must
//! hold of every startup is proved of them.

use vstd::prelude::*;
use crate::capability::{Reply, Request};
use crate::diagnostic::Diagnostic;
use crate::hint::HintState;
use crate::preference::GpuPreference;
use crate::startup::{plan, startup_plan, Platform, Stage};

verus! {

/// What the operating system would answer to each request.
#[derive(Clone, Copy, Debug, PartialEq, Eq, Structural)]
pub struct Environment {
    /// Whether the system graphics library can be acquired.
    pub module_present: bool,
    /// Whether the library exports the entry point.
    pub symbol_exported: bool,
    /// The integer that the entry point hands back when it is called.
    pub call_result: i32,
}

/// One observable thing that a host does during startup.
#[derive(Clone, Copy, Debug, PartialEq, Eq, Structural)]
pub enum Effect {
    /// The request was performed against the operating system.
    Performed(Request),
    /// The diagnostic was written to the error stream.
    Reported(Diagnostic),
    /// Control was handed to the application.
    Launched,
}

/// One finished attempt at the hint.
#[derive(Debug, PartialEq, Eq)]
pub struct HintRun {
    /// The state in which the attempt ended.
    pub outcome: HintState,
    /// Everything that was done, in order.
    pub effects: Vec<Effect>,
}

impl Environment {
    /// The reply that this environment gives to `request`.
    pub open spec fn reply_to(self, request: Request) -> Reply {
        match request {
            Request::LoadModule => if self.module_present {
                Reply::Found
            } else {
                Reply::Missing
            },
            Request::ResolveSymbol => if self.symbol_exported {
                Reply::Found
            } else {
                Reply::Missing
            },
            Request::Invoke(_) => Reply::Returned(self.call_result),
        }
    }

    /// Performs `request` the way this environment would.
    pub fn answer(&self, request: Request) -> (reply: Reply)
        ensures
            reply == self.reply_to(request),
            request.admits(reply),
    {
        match request {
            Request::LoadModule => if self.module_present {
                Reply::Found
            } else {
                Reply::Missing
            },
            Request::ResolveSymbol => if self.symbol_exported {
                Reply::Found
            } else {
                Reply::Missing
            },
            Request::Invoke(_) => Reply::Returned(self.call_result),
        }
    }
}

/// The state in which an attempt at the hint ends in `env`: the entry
/// point is called exactly when both resolutions succeed.
pub open spec fn hint_outcome(env: Environment) -> HintState {
    if env.module_present && env.symbol_exported {
        HintState::Invoked
    } else {
        HintState::Abandoned
    }
}

/// The trace of one attempt at the hint in `env`: the resolutions are
/// tried in order, the first failure is reported and ends the attempt,
/// and a call that hands back zero is reported after it was made.
pub open spec fn hint_effects(env: Environment) -> Seq<Effect> {
    let load = Effect::Performed(Request::LoadModule);
    let resolve = Effect::Performed(Request::ResolveSymbol);
    let invoke = Effect::Performed(Request::Invoke(GpuPreference::HighPerformance));
    if !env.module_present {
        seq![load, Effect::Reported(Diagnostic::ModuleUnavailable)]
    } else if !env.symbol_exported {
        seq![load, resolve, Effect::Reported(Diagnostic::SymbolUnavailable)]
    } else if env.call_result == 0 {
        seq![load, resolve, invoke, Effect::Reported(Diagnostic::InvocationFailed)]
    } else {
        seq![load, resolve, invoke]
    }
}

/// The trace of a whole startup on `platform` in `env`.
pub open spec fn startup_effects(platform: Platform, env: Environment) -> Seq<Effect> {
    match platform {
        Platform::Supported => hint_effects(env).push(Effect::Launched),
        Platform::Unsupported => seq![Effect::Launched],
    }
}

/// The diagnostics that `trace` reports, in order.
pub open spec fn diagnostics_in(trace: Seq<Effect>) -> Seq<Diagnostic>
    decreases trace.len(),
{
    if trace.len() == 0 {
        seq![]
    } else {
        let before = diagnostics_in(trace.drop_last());
        match trace.last() {
            Effect::Reported(diagnostic) => before.push(diagnostic),
            _ => before,
        }
    }
}

/// The preferences with which `trace` calls the entry point, in order.
pub open spec fn foreign_calls_in(trace: Seq<Effect>) -> Seq<GpuPreference>
    decreases trace.len(),
{
    if trace.len() == 0 {
        seq![]
    } else {
        let before = foreign_calls_in(trace.drop_last());
        match trace.last() {
            Effect::Performed(Request::Invoke(preference)) => before.push(preference),
            _ => before,
        }
    }
}

/// How often `trace` hands control to the application.
pub open spec fn launches_in(trace: Seq<Effect>) -> nat
    decreases trace.len(),
{
    if trace.len() == 0 {
        0
    } else {
        let before = launches_in(trace.drop_last());
        match trace.last() {
            Effect::Launched => before + 1,
            _ => before,
        }
    }
}

/// `trace` run `times` times in a row.
pub open spec fn repeated(trace: Seq<Effect>, times: nat) -> Seq<Effect>
    decreases times,
{
    if times == 0 {
        seq![]
    } else {
        repeated(trace, (times - 1) as nat) + trace
    }
}

/// The preference that the process has asked for by the end of `trace`:
/// that of its latest call of the entry point, if it made any.
pub open spec fn preference_requested(trace: Seq<Effect>) -> Option<GpuPreference> {
    let calls = foreign_calls_in(trace);
    if calls.len() == 0 {
        None
    } else {
        Some(calls.last())
    }
}

/// Runs one attempt at the hint: asks the state machine for the pending
/// request, lets `env` answer it, and goes on until the attempt is over.
pub fn run_hint(env: &Environment) -> (run: HintRun)
    ensures
        run.outcome == hint_outcome(*env),
        run.effects@ == hint_effects(*env),
{
    let mut state = HintState::new();
    let mut effects: Vec<Effect> = Vec::new();
    loop
        invariant
            state == HintState::Unattempted ==> effects@ =~= seq![],
            state == HintState::ModuleResolved ==> env.module_present && effects@ =~= seq![
                Effect::Performed(Request::LoadModule),
            ],
            state == HintState::SymbolResolved ==> env.module_present && env.symbol_exported
                && effects@ =~= seq![
                Effect::Performed(Request::LoadModule),
                Effect::Performed(Request::ResolveSymbol),
            ],
            state.is_terminal() ==> state == hint_outcome(*env) && effects@ =~= hint_effects(
                *env,
            ),
        ensures
            state.is_terminal(),
        decreases 3 - state.progress(),
    {
        match state.pending() {
            None => {
                break ;
            },
            Some(request) => {
                effects.push(Effect::Performed(request));
                let step = state.advance(env.answer(request));
                match step.diagnostic {
                    Some(diagnostic) => {
                        effects.push(Effect::Reported(diagnostic));
                    },
                    None => {},
                }
                state = step.next;
            },
        }
    }
    HintRun { outcome: state, effects }
}

/// Runs the whole startup on `platform`: each stage of the plan in turn,
/// the hint against `env`.
pub fn run_startup(platform: Platform, env: &Environment) -> (effects: Vec<Effect>)
    ensures
        effects@ == startup_effects(platform, *env),
{
    let stages = startup_plan(platform);
    let mut effects: Vec<Effect> = Vec::new();
    let mut done: usize = 0;
    while done < stages.len()
        invariant
            stages@ == plan(platform),
            done <= stages.len(),
            platform == Platform::Supported && done == 0 ==> effects@ =~= seq![],
            platform == Platform::Supported && done == 1 ==> effects@ =~= hint_effects(*env),
            platform == Platform::Unsupported && done == 0 ==> effects@ =~= seq![],
            done == stages.len() ==> effects@ =~= startup_effects(platform, *env),
        decreases stages.len() - done,
    {
        match stages[done] {
            Stage::Hint => {
                let mut run = run_hint(env);
                effects.append(&mut run.effects);
            },
            Stage::RunApplication => {
                effects.push(Effect::Launched);
            },
        }
        done = done + 1;
    }
    effects
}

/// What one more effect at the end of a trace adds to what is read from it.
pub proof fn effect_extends_trace(trace: Seq<Effect>, effect: Effect)
    ensures
        diagnostics_in(trace.push(effect)) == match effect {
            Effect::Reported(diagnostic) => diagnostics_in(trace).push(diagnostic),
            _ => diagnostics_in(trace),
        },
        foreign_calls_in(trace.push(effect)) == match effect {
            Effect::Performed(Request::Invoke(preference)) => foreign_calls_in(trace).push(
                preference,
            ),
            _ => foreign_calls_in(trace),
        },
        launches_in(trace.push(effect)) == match effect {
            Effect::Launched => launches_in(trace) + 1,
            _ => launches_in(trace),
        },
{
    assert(trace.push(effect).drop_last() =~= trace);
}

/// What is read from two traces in a row is what is read from the first,
/// followed by what is read from the second.
pub proof fn traces_in_a_row(first: Seq<Effect>, second: Seq<Effect>)
    ensures
        diagnostics_in(first + second) == diagnostics_in(first) + diagnostics_in(second),
        foreign_calls_in(first + second) == foreign_calls_in(first) + foreign_calls_in(second),
        launches_in(first + second) == launches_in(first) + launches_in(second),
    decreases second.len(),
{
    if second.len() == 0 {
        assert(first + second =~= first);
        assert(diagnostics_in(first) + diagnostics_in(second) =~= diagnostics_in(first));
        assert(foreign_calls_in(first) + foreign_calls_in(second) =~= foreign_calls_in(first));
    } else {
        let shorter = second.drop_last();
        traces_in_a_row(first, shorter);
        assert((first + second).drop_last() =~= first + shorter);
        assert((first + second).last() == second.last());
        assert(diagnostics_in(first + second) =~= diagnostics_in(first) + diagnostics_in(
            second,
        ));
        assert(foreign_calls_in(first + second) =~= foreign_calls_in(first) + foreign_calls_in(
            second,
        ));
    }
}

/// What is read from the trace of one attempt at the hint, in every
/// environment: at most one diagnostic, at most one call, and no launch.
pub proof fn hint_trace_read(env: Environment)
    ensures
        diagnostics_in(hint_effects(env)) == if !env.module_present {
            seq![Diagnostic::ModuleUnavailable]
        } else if !env.symbol_exported {
            seq![Diagnostic::SymbolUnavailable]
        } else if env.call_result == 0 {
            seq![Diagnostic::InvocationFailed]
        } else {
            seq![]
        },
        foreign_calls_in(hint_effects(env)) == if env.module_present && env.symbol_exported {
            seq![GpuPreference::HighPerformance]
        } else {
            seq![]
        },
        launches_in(hint_effects(env)) == 0,
{
    let load = Effect::Performed(Request::LoadModule);
    let resolve = Effect::Performed(Request::ResolveSymbol);
    let invoke = Effect::Performed(Request::Invoke(GpuPreference::HighPerformance));
    let missing_module = Effect::Reported(Diagnostic::ModuleUnavailable);
    let missing_symbol = Effect::Reported(Diagnostic::SymbolUnavailable);
    let failed_call = Effect::Reported(Diagnostic::InvocationFailed);
    let none: Seq<Effect> = seq![];
    let loaded = none.push(load);
    let resolved = loaded.push(resolve);
    let invoked = resolved.push(invoke);
    effect_extends_trace(none, load);
    effect_extends_trace(loaded, missing_module);
    effect_extends_trace(loaded, resolve);
    effect_extends_trace(resolved, missing_symbol);
    effect_extends_trace(resolved, invoke);
    effect_extends_trace(invoked, failed_call);
    assert(seq![load, missing_module] =~= loaded.push(missing_module));
    assert(seq![load, resolve, missing_symbol] =~= resolved.push(missing_symbol));
    assert(seq![load, resolve, invoke, failed_call] =~= invoked.push(failed_call));
    assert(seq![load, resolve, invoke] =~= invoked);
    let trace = hint_effects(env);
    assert(diagnostics_in(trace) =~= if !env.module_present {
        seq![Diagnostic::ModuleUnavailable]
    } else if !env.symbol_exported {
        seq![Diagnostic::SymbolUnavailable]
    } else if env.call_result == 0 {
        seq![Diagnostic::InvocationFailed]
    } else {
        seq![]
    });
    assert(foreign_calls_in(trace) =~= if env.module_present && env.symbol_exported {
        seq![GpuPreference::HighPerformance]
    } else {
        seq![]
    });
}

/// Whatever becomes of the hint, startup hands control to the application
/// exactly once, and does so last: after everything that the hint did on a
/// platform that offers it, and as the only thing on any other.
pub proof fn startup_launches_exactly_once(platform: Platform, env: Environment)
    ensures
        launches_in(startup_effects(platform, env)) == 1,
        startup_effects(platform, env).last() == Effect::Launched,
        startup_effects(platform, env).drop_last() == match platform {
            Platform::Supported => hint_effects(env),
            Platform::Unsupported => seq![],
        },
{
    let before: Seq<Effect> = match platform {
        Platform::Supported => hint_effects(env),
        Platform::Unsupported => seq![],
    };
    hint_trace_read(env);
    effect_extends_trace(before, Effect::Launched);
    assert(startup_effects(platform, env) =~= before.push(Effect::Launched));
    assert(startup_effects(platform, env).drop_last() =~= before);
}

/// On a platform without the hint, startup asks nothing of the operating
/// system and reports nothing: it only launches the application.
pub proof fn unsupported_platform_only_launches(env: Environment)
    ensures
        startup_effects(Platform::Unsupported, env) == seq![Effect::Launched],
        diagnostics_in(startup_effects(Platform::Unsupported, env)).len() == 0,
        foreign_calls_in(startup_effects(Platform::Unsupported, env)).len() == 0,
        !plan(Platform::Unsupported).contains(Stage::Hint),
{
    let none: Seq<Effect> = seq![];
    effect_extends_trace(none, Effect::Launched);
    assert(startup_effects(Platform::Unsupported, env) =~= none.push(Effect::Launched));
}

/// Where the module cannot be acquired, that is reported once, the symbol
/// is never looked up and the entry point is never called.
pub proof fn missing_module_is_reported_once(env: Environment)
    requires
        !env.module_present,
    ensures
        hint_outcome(env) == HintState::Abandoned,
        diagnostics_in(hint_effects(env)) == seq![Diagnostic::ModuleUnavailable],
        foreign_calls_in(hint_effects(env)).len() == 0,
        !hint_effects(env).contains(Effect::Performed(Request::ResolveSymbol)),
{
    hint_trace_read(env);
}

/// Where the module is acquired but does not export the symbol, that is
/// reported once and the entry point is never called.
pub proof fn missing_symbol_is_reported_once(env: Environment)
    requires
        env.module_present,
        !env.symbol_exported,
    ensures
        hint_outcome(env) == HintState::Abandoned,
        diagnostics_in(hint_effects(env)) == seq![Diagnostic::SymbolUnavailable],
        foreign_calls_in(hint_effects(env)).len() == 0,
{
    hint_trace_read(env);
}

/// Where the entry point is called and hands back zero, the failure is
/// reported once, after the one call, and the attempt ends as any other
/// call does.
pub proof fn failed_call_is_reported_once(env: Environment)
    requires
        env.module_present,
        env.symbol_exported,
        env.call_result == 0,
    ensures
        hint_outcome(env) == HintState::Invoked,
        diagnostics_in(hint_effects(env)) == seq![Diagnostic::InvocationFailed],
        foreign_calls_in(hint_effects(env)) == seq![GpuPreference::HighPerformance],
        hint_effects(env).last() == Effect::Reported(Diagnostic::InvocationFailed),
{
    hint_trace_read(env);
}

/// Where both resolutions succeed and the call hands back anything but
/// zero, nothing is reported.
pub proof fn full_success_is_silent(env: Environment)
    requires
        env.module_present,
        env.symbol_exported,
        env.call_result != 0,
    ensures
        hint_outcome(env) == HintState::Invoked,
        diagnostics_in(hint_effects(env)).len() == 0,
        foreign_calls_in(hint_effects(env)) == seq![GpuPreference::HighPerformance],
{
    hint_trace_read(env);
}

/// The hint may be attempted any number of times. Every attempt is the
/// same, so the output grows with the number of attempts, while the
/// preference that the process has asked for is after many attempts what
/// it is after one. No attempt launches the application.
pub proof fn repeating_the_hint_repeats_only_its_output(env: Environment, times: nat)
    ensures
        diagnostics_in(repeated(hint_effects(env), times)).len() == times * diagnostics_in(
            hint_effects(env),
        ).len(),
        foreign_calls_in(repeated(hint_effects(env), times)).len() == times * foreign_calls_in(
            hint_effects(env),
        ).len(),
        launches_in(repeated(hint_effects(env), times)) == 0,
        times >= 1 ==> preference_requested(repeated(hint_effects(env), times))
            == preference_requested(hint_effects(env)),
        times == 0 ==> preference_requested(repeated(hint_effects(env), times)) is None,
    decreases times,
{
    let once = hint_effects(env);
    hint_trace_read(env);
    if times > 0 {
        let earlier = repeated(once, (times - 1) as nat);
        repeating_the_hint_repeats_only_its_output(env, (times - 1) as nat);
        traces_in_a_row(earlier, once);
        assert(times * diagnostics_in(once).len() == (times - 1) * diagnostics_in(once).len()
            + diagnostics_in(once).len()) by (nonlinear_arith);
        assert(times * foreign_calls_in(once).len() == (times - 1) * foreign_calls_in(once).len()
            + foreign_calls_in(once).len()) by (nonlinear_arith);
        if foreign_calls_in(once).len() > 0 {
            assert((foreign_calls_in(earlier) + foreign_calls_in(once)).last()
                == foreign_calls_in(once).last());
        } else {
            assert((times - 1) * 0 == 0);
            assert(foreign_calls_in(earlier) + foreign_calls_in(once) =~= foreign_calls_in(
                earlier,
            ));
        }
    }
}

} // verus!
