use gpu_preference::capability::{Reply, Request};
use gpu_preference::diagnostic::Diagnostic;
use gpu_preference::hint::HintState;
use gpu_preference::preference::GpuPreference;
use gpu_preference::simulation::{run_hint, run_startup, Effect, Environment, HintRun};
use gpu_preference::startup::{startup_plan, Platform, Stage};

const LOAD: Effect = Effect::Performed(Request::LoadModule);
const RESOLVE: Effect = Effect::Performed(Request::ResolveSymbol);
const INVOKE: Effect = Effect::Performed(Request::Invoke(GpuPreference::HighPerformance));
const LAUNCH: Effect = Effect::Launched;

fn environment(module_present: bool, symbol_exported: bool, call_result: i32) -> Environment {
    Environment { module_present, symbol_exported, call_result }
}

fn every_environment() -> Vec<Environment> {
    let mut all = Vec::new();
    for module_present in [false, true] {
        for symbol_exported in [false, true] {
            for call_result in [0, 1, -1, i32::MIN, i32::MAX] {
                all.push(environment(module_present, symbol_exported, call_result));
            }
        }
    }
    all
}

fn diagnostics(effects: &[Effect]) -> Vec<Diagnostic> {
    let mut found = Vec::new();
    for effect in effects {
        if let Effect::Reported(diagnostic) = effect {
            found.push(*diagnostic);
        }
    }
    found
}

fn foreign_calls(effects: &[Effect]) -> usize {
    effects.iter().filter(|effect| matches!(effect, Effect::Performed(Request::Invoke(_)))).count()
}

fn launches(effects: &[Effect]) -> usize {
    effects.iter().filter(|effect| matches!(effect, Effect::Launched)).count()
}

#[test]
fn environment_answers_each_request() {
    let env = environment(true, false, 9);
    assert_eq!(env.answer(Request::LoadModule), Reply::Found);
    assert_eq!(env.answer(Request::ResolveSymbol), Reply::Missing);
    assert_eq!(
        env.answer(Request::Invoke(GpuPreference::HighPerformance)),
        Reply::Returned(9)
    );
    let env = environment(false, true, 0);
    assert_eq!(env.answer(Request::LoadModule), Reply::Missing);
    assert_eq!(env.answer(Request::ResolveSymbol), Reply::Found);
    assert_eq!(
        env.answer(Request::Invoke(GpuPreference::HighPerformance)),
        Reply::Returned(0)
    );
}

#[test]
fn missing_module_is_reported_and_nothing_else_is_tried() {
    for symbol_exported in [false, true] {
        let run = run_hint(&environment(false, symbol_exported, 1));
        assert_eq!(
            run,
            HintRun {
                outcome: HintState::Abandoned,
                effects: vec![LOAD, Effect::Reported(Diagnostic::ModuleUnavailable)],
            }
        );
        assert_eq!(foreign_calls(&run.effects), 0);
    }
}

#[test]
fn missing_symbol_is_reported_once_and_no_call_is_made() {
    let run = run_hint(&environment(true, false, 1));
    assert_eq!(run.outcome, HintState::Abandoned);
    assert_eq!(
        run.effects,
        vec![LOAD, RESOLVE, Effect::Reported(Diagnostic::SymbolUnavailable)]
    );
    assert_eq!(diagnostics(&run.effects), vec![Diagnostic::SymbolUnavailable]);
    assert_eq!(foreign_calls(&run.effects), 0);
}

#[test]
fn failed_call_is_reported_once_and_the_attempt_returns() {
    let run = run_hint(&environment(true, true, 0));
    assert_eq!(run.outcome, HintState::Invoked);
    assert_eq!(
        run.effects,
        vec![LOAD, RESOLVE, INVOKE, Effect::Reported(Diagnostic::InvocationFailed)]
    );
    assert_eq!(diagnostics(&run.effects), vec![Diagnostic::InvocationFailed]);
    assert_eq!(foreign_calls(&run.effects), 1);
}

#[test]
fn full_success_reports_nothing() {
    for call_result in [1, -1, 2, i32::MIN, i32::MAX] {
        let run = run_hint(&environment(true, true, call_result));
        assert_eq!(run.outcome, HintState::Invoked);
        assert_eq!(run.effects, vec![LOAD, RESOLVE, INVOKE]);
        assert_eq!(diagnostics(&run.effects), vec![]);
    }
}

#[test]
fn hint_reports_at_most_once_and_never_launches() {
    for env in every_environment() {
        let run = run_hint(&env);
        assert!(diagnostics(&run.effects).len() <= 1);
        assert!(foreign_calls(&run.effects) <= 1);
        assert_eq!(launches(&run.effects), 0);
        assert_eq!(run.effects[0], LOAD);
    }
}

#[test]
fn hint_can_be_attempted_again_and_again() {
    for env in every_environment() {
        let first = run_hint(&env);
        for _ in 0..3 {
            assert_eq!(run_hint(&env), first);
        }
    }
}

#[test]
fn startup_plan_of_each_platform() {
    assert_eq!(
        startup_plan(Platform::Supported),
        vec![Stage::Hint, Stage::RunApplication]
    );
    assert_eq!(startup_plan(Platform::Unsupported), vec![Stage::RunApplication]);
}

#[test]
fn startup_launches_after_a_missing_module() {
    assert_eq!(
        run_startup(Platform::Supported, &environment(false, false, 0)),
        vec![LOAD, Effect::Reported(Diagnostic::ModuleUnavailable), LAUNCH]
    );
}

#[test]
fn startup_launches_after_a_missing_symbol() {
    assert_eq!(
        run_startup(Platform::Supported, &environment(true, false, 0)),
        vec![LOAD, RESOLVE, Effect::Reported(Diagnostic::SymbolUnavailable), LAUNCH]
    );
}

#[test]
fn startup_launches_after_a_failed_call() {
    assert_eq!(
        run_startup(Platform::Supported, &environment(true, true, 0)),
        vec![LOAD, RESOLVE, INVOKE, Effect::Reported(Diagnostic::InvocationFailed), LAUNCH]
    );
}

#[test]
fn startup_launches_after_a_successful_hint() {
    assert_eq!(
        run_startup(Platform::Supported, &environment(true, true, 1)),
        vec![LOAD, RESOLVE, INVOKE, LAUNCH]
    );
}

#[test]
fn startup_launches_exactly_once_and_last() {
    for platform in [Platform::Supported, Platform::Unsupported] {
        for env in every_environment() {
            let effects = run_startup(platform, &env);
            assert_eq!(launches(&effects), 1);
            assert_eq!(effects.last(), Some(&LAUNCH));
        }
    }
}

#[test]
fn startup_on_supported_platform_is_the_hint_and_then_the_launch() {
    for env in every_environment() {
        let mut expected = run_hint(&env).effects;
        expected.push(LAUNCH);
        assert_eq!(run_startup(Platform::Supported, &env), expected);
    }
}

#[test]
fn unsupported_platform_touches_nothing_and_reports_nothing() {
    for env in every_environment() {
        assert_eq!(run_startup(Platform::Unsupported, &env), vec![LAUNCH]);
    }
}
