use lsp_diagnostics::model::Diagnostic;
use lsp_diagnostics::model::DiagnosticRecord;
use lsp_diagnostics::model::NumberOrString;
use lsp_diagnostics::model::Position;
use lsp_diagnostics::model::Range;
use lsp_diagnostics::model::VersionedDiagnostics;
use lsp_diagnostics::specifier::ModuleSpecifier;
use lsp_diagnostics::stores::should_send_diagnostic_batch_index_notifications;
use lsp_diagnostics::stores::DiagnosticBatchCounter;
use lsp_diagnostics::stores::DiagnosticsState;
use lsp_diagnostics::stores::TsDiagnosticsStore;

fn spec(text: &str) -> ModuleSpecifier {
    ModuleSpecifier::parse(text).unwrap()
}

fn diag(code: &str, message: &str) -> Diagnostic {
    Diagnostic {
        range: Range {
            start: Position { line: 0, character: 0 },
            end: Position { line: 0, character: 1 },
        },
        severity: None,
        code: Some(NumberOrString::String(code.to_string())),
        source: Some("deno".to_string()),
        message: message.to_string(),
        related_information: None,
        tags: None,
        data: None,
    }
}

fn record(text: &str, version: Option<i32>, diagnostics: Vec<Diagnostic>) -> DiagnosticRecord {
    DiagnosticRecord { specifier: spec(text), versioned: VersionedDiagnostics { version, diagnostics } }
}

#[test]
fn ts_store_answers_only_for_the_stored_version() {
    let mut store = TsDiagnosticsStore::new();
    store.update(&vec![
        record("file:///a.ts", Some(3), vec![diag("x", "a3")]),
        record("file:///b.ts", None, vec![diag("x", "b")]),
    ]);
    assert_eq!(store.get(&spec("file:///a.ts"), Some(3)), vec![diag("x", "a3")]);
    assert!(store.get(&spec("file:///a.ts"), Some(2)).is_empty());
    assert!(store.get(&spec("file:///a.ts"), Some(4)).is_empty());
    assert!(store.get(&spec("file:///a.ts"), None).is_empty());
    assert_eq!(store.get(&spec("file:///b.ts"), None), vec![diag("x", "b")]);
    assert!(store.get(&spec("file:///b.ts"), Some(0)).is_empty());
    assert!(store.get(&spec("file:///c.ts"), None).is_empty());
    assert!(store.get(&spec("file:///c.ts"), Some(3)).is_empty());
}

#[test]
fn ts_store_update_replaces_everything() {
    let mut store = TsDiagnosticsStore::new();
    store.update(&vec![record("file:///a.ts", Some(1), vec![diag("x", "old")])]);
    store.update(&vec![
        record("file:///b.ts", Some(1), vec![diag("x", "first")]),
        record("file:///b.ts", Some(2), vec![diag("x", "second")]),
    ]);
    assert!(store.get(&spec("file:///a.ts"), Some(1)).is_empty());
    assert!(store.get(&spec("file:///b.ts"), Some(1)).is_empty());
    assert_eq!(store.get(&spec("file:///b.ts"), Some(2)), vec![diag("x", "second")]);
}

#[test]
fn ts_store_invalidation() {
    let mut store = TsDiagnosticsStore::new();
    store.update(&vec![
        record("file:///a.ts", Some(1), vec![diag("x", "a")]),
        record("file:///b.ts", Some(1), vec![diag("x", "b")]),
        record("file:///c.ts", Some(1), vec![diag("x", "c")]),
    ]);
    store.invalidate(&[spec("file:///a.ts"), spec("file:///zzz.ts"), spec("file:///c.ts")]);
    assert!(store.get(&spec("file:///a.ts"), Some(1)).is_empty());
    assert_eq!(store.get(&spec("file:///b.ts"), Some(1)), vec![diag("x", "b")]);
    assert!(store.get(&spec("file:///c.ts"), Some(1)).is_empty());
    store.invalidate(&[]);
    assert_eq!(store.get(&spec("file:///b.ts"), Some(1)), vec![diag("x", "b")]);
    store.invalidate_all();
    assert!(store.get(&spec("file:///b.ts"), Some(1)).is_empty());
}

#[test]
fn state_keeps_only_no_cache_diagnostics() {
    let mut state = DiagnosticsState::default();
    let a = spec("file:///a.ts");
    assert!(!state.has_no_cache_diagnostics(&a));
    assert!(state.no_cache_diagnostics(&a).is_empty());
    state.update(
        &a,
        Some(1),
        &[
            diag("no-local", "1"),
            diag("no-cache", "2"),
            diag("redirect", "3"),
            diag("no-cache-npm", "4"),
            diag("no-cache-x", "5"),
        ],
    );
    assert!(state.has_no_cache_diagnostics(&a));
    assert_eq!(
        state.no_cache_diagnostics(&a),
        vec![diag("no-cache", "2"), diag("no-cache-npm", "4")]
    );
    assert_eq!(state.version(&a), Some(1));
    let mut numbered = diag("x", "n");
    numbered.code = Some(NumberOrString::Number(1));
    let mut uncoded = diag("x", "u");
    uncoded.code = None;
    state.update(&a, Some(1), &[numbered, uncoded]);
    assert!(!state.has_no_cache_diagnostics(&a));
}

#[test]
fn state_ignores_updates_for_older_versions() {
    let mut state = DiagnosticsState::default();
    let a = spec("file:///a.ts");
    state.update(&a, Some(5), &[diag("no-cache", "v5")]);
    state.update(&a, Some(4), &[]);
    assert_eq!(state.version(&a), Some(5));
    assert_eq!(state.no_cache_diagnostics(&a), vec![diag("no-cache", "v5")]);
    state.update(&a, Some(5), &[diag("no-cache", "again")]);
    assert_eq!(state.no_cache_diagnostics(&a), vec![diag("no-cache", "again")]);
    state.update(&a, Some(6), &[]);
    assert_eq!(state.version(&a), Some(6));
    assert!(!state.has_no_cache_diagnostics(&a));
    state.update(&a, None, &[diag("no-cache", "unversioned")]);
    assert_eq!(state.version(&a), None);
    assert!(state.has_no_cache_diagnostics(&a));
    state.update(&a, Some(0), &[]);
    assert_eq!(state.version(&a), Some(0));
    let b = spec("file:///b.ts");
    state.update(&b, Some(-3), &[diag("no-cache-npm", "b")]);
    assert_eq!(state.version(&b), Some(-3));
    assert_eq!(state.version(&a), Some(0));
}

#[test]
fn state_clear_forgets_one_document() {
    let mut state = DiagnosticsState::default();
    let a = spec("file:///a.ts");
    let b = spec("file:///b.ts");
    state.update(&a, Some(9), &[diag("no-cache", "a")]);
    state.update(&b, Some(1), &[diag("no-cache", "b")]);
    state.clear(&a);
    assert!(!state.has_no_cache_diagnostics(&a));
    assert_eq!(state.version(&a), None);
    assert!(state.has_no_cache_diagnostics(&b));
    state.update(&a, Some(1), &[]);
    assert_eq!(state.version(&a), Some(1));
    state.clear(&spec("file:///none.ts"));
    assert_eq!(state.version(&b), Some(1));
}

#[test]
fn batch_notifications_flag() {
    assert!(!should_send_diagnostic_batch_index_notifications(None));
    assert!(!should_send_diagnostic_batch_index_notifications(Some("")));
    assert!(!should_send_diagnostic_batch_index_notifications(Some("0")));
    assert!(should_send_diagnostic_batch_index_notifications(Some("1")));
    assert!(should_send_diagnostic_batch_index_notifications(Some("true")));
    assert!(should_send_diagnostic_batch_index_notifications(Some("00")));
    assert!(should_send_diagnostic_batch_index_notifications(Some(" ")));
}

#[test]
fn batch_counter_counts_when_enabled() {
    let mut counter = DiagnosticBatchCounter::new(true);
    assert_eq!(counter.get(), Some(0));
    assert_eq!(counter.inc(), Some(1));
    assert_eq!(counter.inc(), Some(2));
    assert_eq!(counter.get(), Some(2));
    let mut off = DiagnosticBatchCounter::new(false);
    assert_eq!(off.get(), None);
    assert_eq!(off.inc(), None);
    assert_eq!(off.get(), None);
}
