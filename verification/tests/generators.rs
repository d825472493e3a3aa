use lsp_diagnostics::analyzer::generate_deno_diagnostics;
use lsp_diagnostics::lint::generate_document_lint_diagnostics;
use lsp_diagnostics::lint::generate_lint_diagnostics;
use lsp_diagnostics::model::Diagnostic;
use lsp_diagnostics::model::DiagnosticRecord;
use lsp_diagnostics::model::DiagnosticSeverity;
use lsp_diagnostics::model::NumberOrString;
use lsp_diagnostics::model::Position;
use lsp_diagnostics::model::Range;
use lsp_diagnostics::snapshot::ConfigSnapshot;
use lsp_diagnostics::snapshot::Dependency;
use lsp_diagnostics::snapshot::DependencyEntry;
use lsp_diagnostics::snapshot::Document;
use lsp_diagnostics::snapshot::Documents;
use lsp_diagnostics::snapshot::Import;
use lsp_diagnostics::snapshot::LintOptions;
use lsp_diagnostics::snapshot::LintOutcome;
use lsp_diagnostics::snapshot::LintReference;
use lsp_diagnostics::snapshot::MediaType;
use lsp_diagnostics::snapshot::NpmSnapshot;
use lsp_diagnostics::snapshot::Resolution;
use lsp_diagnostics::snapshot::ResolutionResolved;
use lsp_diagnostics::snapshot::ScopedSettings;
use lsp_diagnostics::snapshot::StateSnapshot;
use lsp_diagnostics::snapshot::WorkspaceSettings;
use lsp_diagnostics::specifier::ModuleSpecifier;
use lsp_diagnostics::ts::disabled_specifiers;
use lsp_diagnostics::ts::enabled_specifiers;
use lsp_diagnostics::ts::generate_ts_diagnostics;
use lsp_diagnostics::ts::type_check_request;
use lsp_diagnostics::ts::TsDiagnosticsError;
use lsp_diagnostics::ts::TsResponse;
use lsp_diagnostics::tsc::Diagnostic as TsDiagnostic;
use lsp_diagnostics::tsc::DiagnosticCategory;
use lsp_diagnostics::tsc::Position as TsPosition;
use tokio_util::sync::CancellationToken;

fn spec(text: &str) -> ModuleSpecifier {
    ModuleSpecifier::parse(text).unwrap()
}

fn range(l1: u32, c1: u32, l2: u32, c2: u32) -> Range {
    Range { start: Position { line: l1, character: c1 }, end: Position { line: l2, character: c2 } }
}

fn reference(code: &str, message: &str, hint: Option<&str>) -> LintReference {
    LintReference {
        range: range(1, 4, 1, 5),
        code: code.to_string(),
        message: message.to_string(),
        hint: hint.map(|h| h.to_string()),
    }
}

fn ts_record(code: u64) -> TsDiagnostic {
    TsDiagnostic {
        category: DiagnosticCategory::Error,
        code,
        start: Some(TsPosition { line: 2, character: 4 }),
        end: Some(TsPosition { line: 2, character: 5 }),
        message_text: Some("Type 'string' is not assignable to type 'number'.".to_string()),
        message_chain: None,
        file_name: None,
        related_information: None,
    }
}

fn document(text: &str, version: Option<i32>, lint: LintOutcome) -> Document {
    Document {
        specifier: spec(text),
        version,
        media_type: MediaType::TypeScript,
        open_diagnosable: true,
        dependencies: vec![],
        lint,
    }
}

fn snapshot(documents: Vec<Document>) -> StateSnapshot {
    StateSnapshot {
        documents: Documents { documents, redirects: vec![] },
        cache_metadata: vec![],
        maybe_import_map: None,
        npm: None,
        node_builtin_modules: vec![],
        sloppy_imports: vec![],
    }
}

fn config(enable: bool, lint: bool) -> ConfigSnapshot {
    ConfigSnapshot { unscoped: WorkspaceSettings { enable, lint }, scoped: vec![] }
}

fn get_diagnostics_for_single(diagnostic_vec: Vec<DiagnosticRecord>) -> Vec<Diagnostic> {
    assert_eq!(diagnostic_vec.len(), 1);
    diagnostic_vec.into_iter().next().unwrap().versioned.diagnostics
}

#[test]
fn test_enabled_then_disabled_specifier() {
    let import = range(0, 19, 0, 27);
    let mut a = document(
        "file:///a.ts",
        Some(1),
        LintOutcome::References(vec![
            reference("no-unused-vars", "`b` is never used", Some("remove it")),
            reference("no-explicit-any", "`any` type is not allowed", None),
            reference("prefer-const", "`a` is never reassigned", None),
            reference("no-unused-vars", "`a` is never used", None),
            reference("prefer-const", "`c` is never reassigned", None),
            reference("no-unused-vars", "`c` is never used", None),
        ]),
    );
    a.dependencies = vec![DependencyEntry {
        key: "./b.ts".to_string(),
        dependency: Dependency {
            maybe_code: Resolution::Resolved(ResolutionResolved {
                specifier: spec("file:///b.ts"),
                range: import,
            }),
            maybe_type: Resolution::Unresolved,
            is_dynamic: false,
            maybe_attribute_type: None,
            imports: vec![Import { range: import }],
        },
    }];
    let snapshot = snapshot(vec![a]);
    let lint_options = LintOptions { excluded: vec![] };
    let answer = vec![TsResponse {
        specifier: "file:///a.ts".to_string(),
        diagnostics: vec![ts_record(2307), ts_record(6133), ts_record(6133), ts_record(2322), ts_record(6133)],
    }];

    // test enabled
    {
        let enabled_config = config(true, true);
        let token = CancellationToken::new();
        let diagnostics = generate_lint_diagnostics(&snapshot, &enabled_config, &lint_options, Some(&token));
        assert_eq!(get_diagnostics_for_single(diagnostics).len(), 6);
        assert_eq!(enabled_specifiers(&snapshot, &enabled_config), vec![spec("file:///a.ts")]);
        let diagnostics = generate_ts_diagnostics(&snapshot, &enabled_config, &answer).unwrap();
        assert_eq!(get_diagnostics_for_single(diagnostics).len(), 5);
        let diagnostics = generate_deno_diagnostics(&snapshot, &enabled_config, Some(&token));
        let diagnostics = get_diagnostics_for_single(diagnostics);
        assert_eq!(diagnostics.len(), 1);
        assert_eq!(diagnostics[0].code, Some(NumberOrString::String("no-local".to_string())));
        assert_eq!(diagnostics[0].range, import);
    }

    // now test disabled specifier
    {
        let disabled_config = config(false, true);
        let token = CancellationToken::new();
        let diagnostics = generate_lint_diagnostics(&snapshot, &disabled_config, &lint_options, Some(&token));
        assert_eq!(get_diagnostics_for_single(diagnostics).len(), 0);
        assert_eq!(enabled_specifiers(&snapshot, &disabled_config), vec![]);
        let diagnostics = generate_ts_diagnostics(&snapshot, &disabled_config, &vec![]).unwrap();
        assert_eq!(get_diagnostics_for_single(diagnostics).len(), 0);
        let diagnostics = generate_deno_diagnostics(&snapshot, &disabled_config, Some(&token));
        assert_eq!(get_diagnostics_for_single(diagnostics).len(), 0);
    }
}

#[test]
fn lint_findings_become_warnings() {
    let with_hint = reference("no-unused-vars", "`b` is never used", Some("remove it"));
    assert_eq!(
        with_hint.to_diagnostic(),
        Diagnostic {
            range: range(1, 4, 1, 5),
            severity: Some(DiagnosticSeverity::Warning),
            code: Some(NumberOrString::String("no-unused-vars".to_string())),
            source: Some("deno-lint".to_string()),
            message: "`b` is never used\nremove it".to_string(),
            related_information: None,
            tags: None,
            data: None,
        }
    );
    assert_eq!(reference("c", "plain", None).to_diagnostic().message, "plain");
}

#[test]
fn document_lint_diagnostics_follow_the_gates() {
    let found = || LintOutcome::References(vec![reference("c", "m", None), reference("d", "n", None)]);
    let options = LintOptions { excluded: vec![] };
    let doc = document("file:///a.ts", Some(1), found());
    assert_eq!(generate_document_lint_diagnostics(&config(true, true), &options, &doc).len(), 2);
    assert_eq!(generate_document_lint_diagnostics(&config(false, true), &options, &doc), vec![]);
    let excluding = LintOptions { excluded: vec![spec("file:///b.ts"), spec("file:///a.ts")] };
    assert_eq!(generate_document_lint_diagnostics(&config(true, true), &excluding, &doc), vec![]);
    for outcome in [LintOutcome::MissingSource, LintOutcome::ParseError, LintOutcome::LintError] {
        let doc = document("file:///a.ts", Some(1), outcome);
        assert_eq!(generate_document_lint_diagnostics(&config(true, true), &options, &doc), vec![]);
    }
}

#[test]
fn lint_records_skip_unlinted_documents() {
    let found = || LintOutcome::References(vec![reference("c", "m", None)]);
    let mut closed = document("file:///closed.ts", Some(1), found());
    closed.open_diagnosable = false;
    let mut s = snapshot(vec![
        document("file:///a.ts", Some(3), found()),
        closed,
        document("file:///off.ts", Some(1), found()),
        document("file:///node_modules/x.js", Some(1), found()),
        document("file:///b.ts", None, found()),
    ]);
    s.npm = Some(NpmSnapshot { package_specifiers: vec![spec("file:///node_modules/x.js")], managed: None });
    let mut c = config(true, true);
    c.scoped = vec![ScopedSettings {
        specifier: spec("file:///off.ts"),
        settings: WorkspaceSettings { enable: true, lint: false },
    }];
    let options = LintOptions { excluded: vec![spec("file:///b.ts")] };
    let records = generate_lint_diagnostics(&s, &c, &options, None);
    assert_eq!(records.len(), 2);
    assert_eq!(records[0].specifier, spec("file:///a.ts"));
    assert_eq!(records[0].versioned.version, Some(3));
    assert_eq!(records[0].versioned.diagnostics.len(), 1);
    assert_eq!(records[1].specifier, spec("file:///b.ts"));
    assert_eq!(records[1].versioned.version, None);
    assert_eq!(records[1].versioned.diagnostics, vec![]);
    let token = CancellationToken::new();
    token.cancel();
    assert_eq!(generate_lint_diagnostics(&s, &c, &options, Some(&token)), vec![]);
    assert_eq!(generate_lint_diagnostics(&s, &config(true, false), &options, Some(&token)), vec![]);
}

#[test]
fn ts_specifiers_are_partitioned_by_the_settings() {
    let mut closed = document("file:///closed.ts", Some(1), LintOutcome::MissingSource);
    closed.open_diagnosable = false;
    let s = snapshot(vec![
        document("file:///a.ts", Some(1), LintOutcome::MissingSource),
        document("file:///b.ts", Some(2), LintOutcome::MissingSource),
        closed,
        document("file:///c.ts", Some(3), LintOutcome::MissingSource),
    ]);
    let mut c = config(true, true);
    c.scoped = vec![ScopedSettings {
        specifier: spec("file:///b.ts"),
        settings: WorkspaceSettings { enable: false, lint: true },
    }];
    assert_eq!(enabled_specifiers(&s, &c), vec![spec("file:///a.ts"), spec("file:///c.ts")]);
    assert_eq!(disabled_specifiers(&s, &c), vec![spec("file:///b.ts")]);
    assert_eq!(type_check_request(&s, &c), Some(vec![spec("file:///a.ts"), spec("file:///c.ts")]));
    assert_eq!(type_check_request(&s, &config(false, true)), None);
    assert_eq!(type_check_request(&snapshot(vec![]), &c), None);
}

#[test]
fn ts_records_follow_the_answer_then_clear_disabled_documents() {
    let s = snapshot(vec![
        document("file:///a.ts", Some(1), LintOutcome::MissingSource),
        document("file:///b.ts", Some(2), LintOutcome::MissingSource),
    ]);
    let mut c = config(true, true);
    c.scoped = vec![ScopedSettings {
        specifier: spec("file:///b.ts"),
        settings: WorkspaceSettings { enable: false, lint: true },
    }];
    let answer = vec![
        TsResponse { specifier: "file:///unknown.ts".to_string(), diagnostics: vec![ts_record(1)] },
        TsResponse { specifier: "file:///b.ts".to_string(), diagnostics: vec![ts_record(2)] },
        TsResponse { specifier: "file:///x/../a.ts".to_string(), diagnostics: vec![ts_record(3), ts_record(4)] },
    ];
    let records = generate_ts_diagnostics(&s, &c, &answer).unwrap();
    assert_eq!(records.len(), 4);
    assert_eq!(records[0].specifier, spec("file:///unknown.ts"));
    assert_eq!(records[0].versioned.version, None);
    assert_eq!(records[0].versioned.diagnostics.len(), 1);
    assert_eq!(records[1].specifier, spec("file:///b.ts"));
    assert_eq!(records[1].versioned.version, Some(2));
    assert_eq!(records[1].versioned.diagnostics, vec![]);
    assert_eq!(records[2].specifier, spec("file:///a.ts"));
    assert_eq!(records[2].versioned.version, Some(1));
    assert_eq!(records[2].versioned.diagnostics.len(), 2);
    assert_eq!(records[2].versioned.diagnostics[1].code, Some(NumberOrString::Number(4)));
    assert_eq!(records[3].specifier, spec("file:///b.ts"));
    assert_eq!(records[3].versioned.version, Some(2));
    assert_eq!(records[3].versioned.diagnostics, vec![]);
}

#[test]
fn ts_answer_with_a_bad_specifier_fails() {
    let s = snapshot(vec![document("file:///a.ts", Some(1), LintOutcome::MissingSource)]);
    let answer = vec![
        TsResponse { specifier: "file:///a.ts".to_string(), diagnostics: vec![] },
        TsResponse { specifier: "not a url".to_string(), diagnostics: vec![] },
    ];
    assert_eq!(
        generate_ts_diagnostics(&s, &config(true, true), &answer),
        Err(TsDiagnosticsError::InvalidSpecifier("not a url".to_string()))
    );
}
