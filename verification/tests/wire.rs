use gpu_preference::capability::{ENTRY_POINT_NAME, MODULE_NAME};
use gpu_preference::diagnostic::{Diagnostic, TAG};
use gpu_preference::preference::GpuPreference;

#[test]
fn high_performance_has_the_systems_code() {
    assert_eq!(GpuPreference::HighPerformance.wire_code(), 2);
}

#[test]
fn module_is_asked_for_by_its_file_name() {
    assert_eq!(MODULE_NAME, "gdi32.dll");
}

#[test]
fn entry_point_is_asked_for_by_its_exact_name() {
    assert_eq!(ENTRY_POINT_NAME, "SetProcessDefaultGpuPreference");
    assert_eq!(ENTRY_POINT_NAME.len(), 30);
    assert!(ENTRY_POINT_NAME.is_ascii());
}

#[test]
fn module_unavailable_line() {
    assert_eq!(
        Diagnostic::ModuleUnavailable.message(),
        "[GPU] gdi32.dll not available; skipping GPU preference hint."
    );
}

#[test]
fn symbol_unavailable_line() {
    assert_eq!(
        Diagnostic::SymbolUnavailable.message(),
        "[GPU] SetProcessDefaultGpuPreference not exported; skipping hint."
    );
}

#[test]
fn invocation_failed_line() {
    assert_eq!(
        Diagnostic::InvocationFailed.message(),
        "[GPU] Failed to hint high-performance GPU preference (continuing anyway)."
    );
}

#[test]
fn every_line_opens_with_the_tag() {
    assert_eq!(TAG, "[GPU]");
    let all = [
        Diagnostic::ModuleUnavailable,
        Diagnostic::SymbolUnavailable,
        Diagnostic::InvocationFailed,
    ];
    for diagnostic in all {
        let line = diagnostic.message();
        assert!(line.starts_with("[GPU] "), "{}", format!("untagged line: {line}"));
        assert!(!line.contains('\n'));
    }
}

#[test]
fn lines_are_pairwise_distinct() {
    let module = Diagnostic::ModuleUnavailable.message();
    let symbol = Diagnostic::SymbolUnavailable.message();
    let call = Diagnostic::InvocationFailed.message();
    assert_ne!(module, symbol);
    assert_ne!(module, call);
    assert_ne!(symbol, call);
}

#[test]
fn resolution_lines_name_what_is_missing() {
    assert_eq!(&Diagnostic::ModuleUnavailable.message()[6..15], MODULE_NAME);
    assert_eq!(&Diagnostic::SymbolUnavailable.message()[6..36], ENTRY_POINT_NAME);
}
