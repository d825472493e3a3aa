use lsp_diagnostics::model::Diagnostic;
use lsp_diagnostics::model::DiagnosticRecord;
use lsp_diagnostics::model::DiagnosticSource;
use lsp_diagnostics::model::NumberOrString;
use lsp_diagnostics::model::Position;
use lsp_diagnostics::model::Range;
use lsp_diagnostics::model::VersionedDiagnostics;
use lsp_diagnostics::publisher::DiagnosticsPublisher;
use lsp_diagnostics::publisher::LspUrlMap;
use lsp_diagnostics::publisher::PublishDiagnosticsParams;
use lsp_diagnostics::specifier::ModuleSpecifier;
use lsp_diagnostics::stores::DiagnosticsState;
use tokio_util::sync::CancellationToken;

fn spec(text: &str) -> ModuleSpecifier {
    ModuleSpecifier::parse(text).unwrap()
}

fn diag(source: &str, code: &str, message: &str) -> Diagnostic {
    Diagnostic {
        range: Range {
            start: Position { line: 0, character: 0 },
            end: Position { line: 0, character: 1 },
        },
        severity: None,
        code: Some(NumberOrString::String(code.to_string())),
        source: Some(source.to_string()),
        message: message.to_string(),
        related_information: None,
        tags: None,
        data: None,
    }
}

fn record(text: &str, version: Option<i32>, diagnostics: Vec<Diagnostic>) -> DiagnosticRecord {
    DiagnosticRecord { specifier: spec(text), versioned: VersionedDiagnostics { version, diagnostics } }
}

fn message(uri: &str, version: Option<i32>, diagnostics: Vec<Diagnostic>) -> PublishDiagnosticsParams {
    PublishDiagnosticsParams { uri: uri.to_string(), diagnostics, version }
}

#[test]
fn a_record_is_published_with_the_union_of_all_sources() {
    let mut publisher = DiagnosticsPublisher::new();
    let mut state = DiagnosticsState::default();
    let map = LspUrlMap::new();
    let ts = diag("deno-ts", "1", "ts");
    let lint = diag("deno-lint", "l", "lint");
    let deno = diag("deno", "no-cache", "deno");
    let sent = publisher.publish(
        &mut state,
        DiagnosticSource::Ts,
        vec![record("file:///a.ts", Some(1), vec![ts.clone()])],
        &map,
        None,
    );
    assert_eq!(sent, vec![message("file:///a.ts", Some(1), vec![ts.clone()])]);
    let sent = publisher.publish(
        &mut state,
        DiagnosticSource::Lint,
        vec![record("file:///a.ts", Some(2), vec![lint.clone()])],
        &map,
        None,
    );
    assert_eq!(sent, vec![message("file:///a.ts", Some(2), vec![lint.clone(), ts.clone()])]);
    let sent = publisher.publish(
        &mut state,
        DiagnosticSource::Deno,
        vec![record("file:///a.ts", Some(2), vec![deno.clone()])],
        &map,
        None,
    );
    assert_eq!(
        sent,
        vec![message("file:///a.ts", Some(2), vec![deno.clone(), lint.clone(), ts.clone()])]
    );
    assert_eq!(state.version(&spec("file:///a.ts")), Some(2));
    assert_eq!(state.no_cache_diagnostics(&spec("file:///a.ts")), vec![deno]);
}

#[test]
fn older_diagnostics_of_other_sources_are_not_dropped() {
    let mut publisher = DiagnosticsPublisher::new();
    let mut state = DiagnosticsState::default();
    let map = LspUrlMap::new();
    let old = diag("deno-lint", "l", "old");
    let new = diag("deno-ts", "1", "new");
    publisher.publish(
        &mut state,
        DiagnosticSource::Lint,
        vec![record("file:///a.ts", Some(1), vec![old.clone()])],
        &map,
        None,
    );
    let sent = publisher.publish(
        &mut state,
        DiagnosticSource::Ts,
        vec![record("file:///a.ts", Some(7), vec![new.clone()])],
        &map,
        None,
    );
    assert_eq!(sent, vec![message("file:///a.ts", Some(7), vec![old, new])]);
}

#[test]
fn stale_documents_get_one_clearing_publish() {
    let mut publisher = DiagnosticsPublisher::new();
    let mut state = DiagnosticsState::default();
    let map = LspUrlMap::new();
    let a = diag("deno", "no-cache", "a");
    let b = diag("deno", "no-cache", "b");
    publisher.publish(
        &mut state,
        DiagnosticSource::Deno,
        vec![
            record("file:///a.ts", Some(4), vec![a.clone()]),
            record("file:///b.ts", Some(9), vec![b.clone()]),
        ],
        &map,
        None,
    );
    assert!(state.has_no_cache_diagnostics(&spec("file:///a.ts")));
    let sent = publisher.publish(
        &mut state,
        DiagnosticSource::Deno,
        vec![record("file:///b.ts", Some(10), vec![b.clone()])],
        &map,
        None,
    );
    assert_eq!(
        sent,
        vec![message("file:///b.ts", Some(10), vec![b.clone()]), message("file:///a.ts", Some(4), vec![])]
    );
    assert!(!state.has_no_cache_diagnostics(&spec("file:///a.ts")));
    let sent = publisher.publish(
        &mut state,
        DiagnosticSource::Deno,
        vec![record("file:///b.ts", Some(10), vec![b.clone()])],
        &map,
        None,
    );
    assert_eq!(sent, vec![message("file:///b.ts", Some(10), vec![b])]);
}

#[test]
fn a_stale_source_is_withdrawn_silently_while_others_remain() {
    let mut publisher = DiagnosticsPublisher::new();
    let mut state = DiagnosticsState::default();
    let map = LspUrlMap::new();
    let lint = diag("deno-lint", "l", "lint");
    let ts = diag("deno-ts", "1", "ts");
    publisher.publish(
        &mut state,
        DiagnosticSource::Lint,
        vec![record("file:///a.ts", Some(1), vec![lint.clone()])],
        &map,
        None,
    );
    publisher.publish(
        &mut state,
        DiagnosticSource::Ts,
        vec![record("file:///a.ts", Some(1), vec![ts.clone()])],
        &map,
        None,
    );
    let sent = publisher.publish(&mut state, DiagnosticSource::Ts, vec![], &map, None);
    assert_eq!(sent, vec![]);
    let sent = publisher.publish(
        &mut state,
        DiagnosticSource::Deno,
        vec![record("file:///a.ts", Some(2), vec![])],
        &map,
        None,
    );
    assert_eq!(sent, vec![message("file:///a.ts", Some(2), vec![lint])]);
    let sent = publisher.publish(&mut state, DiagnosticSource::Lint, vec![], &map, None);
    assert_eq!(sent, vec![]);
    let sent = publisher.publish(&mut state, DiagnosticSource::Deno, vec![], &map, None);
    assert_eq!(sent, vec![message("file:///a.ts", Some(2), vec![])]);
    let sent = publisher.publish(&mut state, DiagnosticSource::Deno, vec![], &map, None);
    assert_eq!(sent, vec![]);
}

#[test]
fn publishing_twice_sends_the_same_lists_and_no_clears() {
    let mut publisher = DiagnosticsPublisher::new();
    let mut state = DiagnosticsState::default();
    let map = LspUrlMap::new();
    let gone = diag("deno-ts", "1", "gone");
    publisher.publish(
        &mut state,
        DiagnosticSource::Ts,
        vec![record("file:///gone.ts", Some(1), vec![gone])],
        &map,
        None,
    );
    let batch = || {
        vec![
            record("file:///a.ts", Some(1), vec![diag("deno-ts", "1", "first")]),
            record("file:///b.ts", None, vec![]),
            record("file:///a.ts", Some(2), vec![diag("deno-ts", "2", "second")]),
        ]
    };
    let first = publisher.publish(&mut state, DiagnosticSource::Ts, batch(), &map, None);
    assert_eq!(
        first,
        vec![
            message("file:///a.ts", Some(1), vec![diag("deno-ts", "1", "first")]),
            message("file:///b.ts", None, vec![]),
            message("file:///a.ts", Some(2), vec![diag("deno-ts", "2", "second")]),
            message("file:///gone.ts", Some(1), vec![]),
        ]
    );
    let second = publisher.publish(&mut state, DiagnosticSource::Ts, batch(), &map, None);
    assert_eq!(second.len(), 3);
    assert_eq!(second[..], first[..3]);
    let third = publisher.publish(&mut state, DiagnosticSource::Ts, batch(), &map, None);
    assert_eq!(third, second);
    assert_eq!(state.version(&spec("file:///a.ts")), Some(2));
    assert_eq!(state.version(&spec("file:///b.ts")), None);
}

#[test]
fn addresses_come_from_the_url_map() {
    let mut publisher = DiagnosticsPublisher::new();
    let mut state = DiagnosticsState::default();
    let mut map = LspUrlMap::new();
    map.insert(spec("https://deno.land/x/a.ts"), "deno:/https/deno.land/x/a.ts".to_string());
    assert_eq!(map.normalize_specifier(&spec("https://deno.land/x/a.ts")), "deno:/https/deno.land/x/a.ts");
    assert_eq!(map.normalize_specifier(&spec("file:///a.ts")), "file:///a.ts");
    let sent = publisher.publish(
        &mut state,
        DiagnosticSource::Deno,
        vec![record("https://deno.land/x/a.ts", None, vec![]), record("file:///a.ts", None, vec![])],
        &map,
        None,
    );
    assert_eq!(
        sent,
        vec![message("deno:/https/deno.land/x/a.ts", None, vec![]), message("file:///a.ts", None, vec![])]
    );
    let sent = publisher.publish(&mut state, DiagnosticSource::Deno, vec![], &map, None);
    assert_eq!(
        sent,
        vec![message("deno:/https/deno.land/x/a.ts", None, vec![]), message("file:///a.ts", None, vec![])]
    );
}

#[test]
fn a_cancelled_batch_changes_nothing() {
    let mut publisher = DiagnosticsPublisher::new();
    let mut state = DiagnosticsState::default();
    let map = LspUrlMap::new();
    let kept = diag("deno", "no-cache", "kept");
    publisher.publish(
        &mut state,
        DiagnosticSource::Deno,
        vec![record("file:///a.ts", Some(1), vec![kept.clone()])],
        &map,
        None,
    );
    let token = CancellationToken::new();
    token.cancel();
    let sent = publisher.publish(
        &mut state,
        DiagnosticSource::Deno,
        vec![record("file:///b.ts", Some(1), vec![diag("deno", "no-cache", "never")])],
        &map,
        Some(&token),
    );
    assert_eq!(sent, vec![]);
    assert!(!state.has_no_cache_diagnostics(&spec("file:///b.ts")));
    assert_eq!(state.version(&spec("file:///b.ts")), None);
    let sent = publisher.publish(&mut state, DiagnosticSource::Deno, vec![], &map, Some(&token));
    assert_eq!(sent, vec![]);
    assert!(state.has_no_cache_diagnostics(&spec("file:///a.ts")));
    let sent = publisher.publish(
        &mut state,
        DiagnosticSource::Lint,
        vec![record("file:///a.ts", Some(1), vec![])],
        &map,
        None,
    );
    assert_eq!(sent, vec![message("file:///a.ts", Some(1), vec![kept])]);
}

#[test]
fn a_live_token_lets_the_batch_run_to_its_end() {
    let mut publisher = DiagnosticsPublisher::new();
    let mut state = DiagnosticsState::default();
    let map = LspUrlMap::new();
    let token = CancellationToken::new();
    publisher.publish(
        &mut state,
        DiagnosticSource::Ts,
        vec![record("file:///a.ts", Some(1), vec![diag("deno-ts", "1", "a")])],
        &map,
        Some(&token),
    );
    let sent = publisher.publish(
        &mut state,
        DiagnosticSource::Ts,
        vec![record("file:///b.ts", Some(1), vec![])],
        &map,
        Some(&token),
    );
    assert_eq!(sent, vec![message("file:///b.ts", Some(1), vec![]), message("file:///a.ts", Some(1), vec![])]);
}

#[test]
fn publish_record_is_one_step_of_a_batch() {
    let mut publisher = DiagnosticsPublisher::new();
    let mut state = DiagnosticsState::default();
    let map = LspUrlMap::new();
    let d = diag("deno", "no-cache-npm", "d");
    let sent = publisher.publish_record(
        &mut state,
        DiagnosticSource::Deno,
        record("file:///a.ts", Some(3), vec![d.clone()]),
        &map,
    );
    assert_eq!(sent, message("file:///a.ts", Some(3), vec![d.clone()]));
    assert_eq!(state.no_cache_diagnostics(&spec("file:///a.ts")), vec![d.clone()]);
    let sent = publisher.publish_record(
        &mut state,
        DiagnosticSource::Deno,
        record("file:///a.ts", Some(2), vec![]),
        &map,
    );
    assert_eq!(sent, message("file:///a.ts", Some(2), vec![]));
    assert_eq!(state.version(&spec("file:///a.ts")), Some(3));
    assert_eq!(state.no_cache_diagnostics(&spec("file:///a.ts")), vec![d]);
}

#[test]
fn clear_forgets_without_telling_the_editor() {
    let mut publisher = DiagnosticsPublisher::new();
    let mut state = DiagnosticsState::default();
    let map = LspUrlMap::new();
    publisher.publish(
        &mut state,
        DiagnosticSource::Ts,
        vec![record("file:///a.ts", Some(1), vec![diag("deno-ts", "1", "a")])],
        &map,
        None,
    );
    publisher.clear();
    let sent = publisher.publish(&mut state, DiagnosticSource::Ts, vec![], &map, None);
    assert_eq!(sent, vec![]);
    let sent = publisher.publish(
        &mut state,
        DiagnosticSource::Lint,
        vec![record("file:///a.ts", Some(1), vec![])],
        &map,
        None,
    );
    assert_eq!(sent, vec![message("file:///a.ts", Some(1), vec![])]);
}
