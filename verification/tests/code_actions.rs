use lsp_diagnostics::code_action::code_action;
use lsp_diagnostics::code_action::quick_fix;
use lsp_diagnostics::code_action::relative_specifier;
use lsp_diagnostics::code_action::relative_text_from;
use lsp_diagnostics::code_action::specifier_text_for_redirected;
use lsp_diagnostics::code_action::text_edit_action;
use lsp_diagnostics::code_action::CodeAction;
use lsp_diagnostics::code_action::CodeActionError;
use lsp_diagnostics::code_action::CodeActionKind;
use lsp_diagnostics::code_action::Command;
use lsp_diagnostics::code_action::CommandArgument;
use lsp_diagnostics::code_action::DocumentChanges;
use lsp_diagnostics::code_action::QuickFix;
use lsp_diagnostics::code_action::TextEdit;
use lsp_diagnostics::code_action::WorkspaceEdit;
use lsp_diagnostics::deno_diagnostic::DenoDiagnostic;
use lsp_diagnostics::model::Diagnostic;
use lsp_diagnostics::model::DiagnosticData;
use lsp_diagnostics::model::DiagnosticSeverity;
use lsp_diagnostics::model::NumberOrString;
use lsp_diagnostics::model::Position;
use lsp_diagnostics::model::Range;
use lsp_diagnostics::specifier::ModuleSpecifier;

fn spec(text: &str) -> ModuleSpecifier {
    ModuleSpecifier::parse(text).unwrap()
}

fn range(l1: u32, c1: u32, l2: u32, c2: u32) -> Range {
    Range { start: Position { line: l1, character: c1 }, end: Position { line: l2, character: c2 } }
}

fn coded(code: &str, data: Option<DiagnosticData>) -> Diagnostic {
    Diagnostic {
        range: range(0, 23, 0, 50),
        severity: Some(DiagnosticSeverity::Error),
        code: Some(NumberOrString::String(code.to_string())),
        source: Some("deno".to_string()),
        message: "message".to_string(),
        related_information: None,
        tags: None,
        data,
    }
}

fn edit_action(title: &str, d: &Diagnostic, r: Range, new_text: &str) -> CodeAction {
    CodeAction {
        title: title.to_string(),
        kind: Some(CodeActionKind::QuickFix),
        diagnostics: Some(vec![d.clone()]),
        edit: Some(WorkspaceEdit {
            changes: vec![DocumentChanges {
                specifier: spec("file:///a/file.ts"),
                edits: vec![TextEdit { range: r, new_text: new_text.to_string() }],
            }],
        }),
        command: None,
    }
}

#[test]
fn test_get_code_action_import_map_remap() {
    let specifier = ModuleSpecifier::parse("file:///a/file.ts").unwrap();
    let mut data = DiagnosticData::new();
    data.from = Some("../std/assert/mod.ts".to_string());
    data.to = Some("/~/std/assert/mod.ts".to_string());
    let diagnostic = Diagnostic {
        range: Range {
            start: Position { line: 0, character: 23 },
            end: Position { line: 0, character: 50 },
        },
        severity: Some(DiagnosticSeverity::Hint),
        code: Some(NumberOrString::String("import-map-remap".to_string())),
        source: Some("deno".to_string()),
        message: "The import specifier can be remapped to \"/~/std/assert/mod.ts\" which will resolve it via the active import map.".to_string(),
        related_information: None,
        tags: None,
        data: Some(data),
    };
    let result = DenoDiagnostic::get_code_action(&specifier, &diagnostic);
    assert!(result.is_ok());
    let actual = result.unwrap();
    assert_eq!(
        actual,
        CodeAction {
            title: "Update \"../std/assert/mod.ts\" to \"/~/std/assert/mod.ts\" to use import map."
                .to_string(),
            kind: Some(CodeActionKind::QuickFix),
            diagnostics: Some(vec![diagnostic.clone()]),
            edit: Some(WorkspaceEdit {
                changes: vec![DocumentChanges {
                    specifier: ModuleSpecifier::parse("file:///a/file.ts").unwrap(),
                    edits: vec![TextEdit {
                        range: Range {
                            start: Position { line: 0, character: 23 },
                            end: Position { line: 0, character: 50 },
                        },
                        new_text: "\"/~/std/assert/mod.ts\"".to_string(),
                    }],
                }],
            }),
            command: None,
        }
    );
}

#[test]
fn test_specifier_text_for_redirected() {
    fn run_test(specifier: &str, referrer: &str, expected: &str) {
        let result = specifier_text_for_redirected(
            &ModuleSpecifier::parse(specifier).unwrap(),
            &ModuleSpecifier::parse(referrer).unwrap(),
        );
        assert_eq!(result, expected);
    }

    run_test("file:///a/a.ts", "file:///a/mod.ts", "./a.ts");
    run_test("file:///a/a.ts", "file:///a/sub_dir/mod.ts", "../a.ts");
    run_test("file:///a/sub_dir/a.ts", "file:///a/mod.ts", "./sub_dir/a.ts");
    run_test(
        "https://deno.land/x/example/mod.ts",
        "file:///a/sub_dir/a.ts",
        "https://deno.land/x/example/mod.ts",
    );
}

#[test]
fn redirected_text_is_relative_only_between_files() {
    assert_eq!(
        specifier_text_for_redirected(&spec("file:///a/sub/a.ts"), &spec("file:///a/mod.ts")),
        "./sub/a.ts"
    );
    assert_eq!(
        specifier_text_for_redirected(&spec("https://ex/mod.ts"), &spec("file:///a/sub/a.ts")),
        "https://ex/mod.ts"
    );
    assert_eq!(
        specifier_text_for_redirected(&spec("file:///a/a.ts"), &spec("https://ex/mod.ts")),
        "file:///a/a.ts"
    );
    assert_eq!(
        specifier_text_for_redirected(&spec("https://ex/x/a.ts"), &spec("https://ex/x/mod.ts")),
        "https://ex/x/a.ts"
    );
}

#[test]
fn relative_specifier_begins_with_a_dot() {
    assert_eq!(relative_specifier(&spec("https://ex/x/a.ts"), &spec("https://ex/x/mod.ts")), "./a.ts");
    assert_eq!(relative_specifier(&spec("https://ex/a.ts"), &spec("https://ex/x/mod.ts")), "../a.ts");
    assert_eq!(
        relative_specifier(&spec("https://other/a.ts"), &spec("https://ex/x/mod.ts")),
        "https://other/a.ts"
    );
    assert_eq!(relative_specifier(&spec("file:///a/.hidden.ts"), &spec("file:///a/mod.ts")), ".hidden.ts");
    assert_eq!(relative_specifier(&spec("file:///a/mod.ts"), &spec("file:///a/mod.ts")), "./");
}

#[test]
fn relative_text_from_each_kind_of_reference() {
    let s = spec("file:///a/b.ts");
    assert_eq!(relative_text_from(Some("b.ts".to_string()), &s), "./b.ts");
    assert_eq!(relative_text_from(Some("../b.ts".to_string()), &s), "../b.ts");
    assert_eq!(relative_text_from(Some("./b.ts".to_string()), &s), "./b.ts");
    assert_eq!(relative_text_from(Some(String::new()), &s), "./");
    assert_eq!(relative_text_from(None, &s), "file:///a/b.ts");
}

#[test]
fn code_action_for_no_attribute_type() {
    let specifier = spec("file:///a/file.ts");
    let d = coded("no-attribute-type", None);
    let action = DenoDiagnostic::get_code_action(&specifier, &d).unwrap();
    assert_eq!(
        action,
        edit_action("Insert import attribute.", &d, range(0, 50, 0, 50), " with { type: \"json\" }")
    );
}

#[test]
fn code_action_for_no_cache() {
    let specifier = spec("file:///a/file.ts");
    for code in ["no-cache", "no-cache-npm"] {
        let mut data = DiagnosticData::new();
        data.specifier = Some("HTTPS://deno.land/x/mod.ts".to_string());
        let d = coded(code, Some(data));
        let action = DenoDiagnostic::get_code_action(&specifier, &d).unwrap();
        assert_eq!(
            action,
            CodeAction {
                title: "Cache \"https://deno.land/x/mod.ts\" and its dependencies.".to_string(),
                kind: Some(CodeActionKind::QuickFix),
                diagnostics: Some(vec![d.clone()]),
                edit: None,
                command: Some(Command {
                    title: String::new(),
                    command: "deno.cache".to_string(),
                    arguments: vec![
                        CommandArgument::Specifiers(vec![spec("https://deno.land/x/mod.ts")]),
                        CommandArgument::Specifier(spec("file:///a/file.ts")),
                    ],
                }),
            }
        );
    }
}

#[test]
fn code_action_for_no_local() {
    let specifier = spec("file:///a/file.ts");
    let mut data = DiagnosticData::new();
    data.specifier = Some("file:///a/b".to_string());
    data.to = Some("file:///a/b.ts".to_string());
    data.message = Some("Add a '.ts' extension.".to_string());
    let d = coded("no-local", Some(data));
    let action = DenoDiagnostic::get_code_action(&specifier, &d).unwrap();
    assert_eq!(action, edit_action("Add a '.ts' extension.", &d, range(0, 23, 0, 50), "\"./b.ts\""));
}

#[test]
fn code_action_for_redirect() {
    let specifier = spec("file:///a/file.ts");
    let mut data = DiagnosticData::new();
    data.specifier = Some("https://deno.land/x/mod.ts".to_string());
    data.redirect = Some("https://deno.land/x@1.0/mod.ts".to_string());
    let d = coded("redirect", Some(data));
    let action = DenoDiagnostic::get_code_action(&specifier, &d).unwrap();
    assert_eq!(
        action,
        edit_action(
            "Update specifier to its redirected specifier.",
            &d,
            range(0, 23, 0, 50),
            "\"https://deno.land/x@1.0/mod.ts\""
        )
    );
    let mut data = DiagnosticData::new();
    data.redirect = Some("file:///a/sub/mod.ts".to_string());
    let d = coded("redirect", Some(data));
    let action = DenoDiagnostic::get_code_action(&specifier, &d).unwrap();
    assert_eq!(
        action,
        edit_action(
            "Update specifier to its redirected specifier.",
            &d,
            range(0, 23, 0, 50),
            "\"./sub/mod.ts\""
        )
    );
}

#[test]
fn code_action_for_missing_node_prefix() {
    let specifier = spec("file:///a/file.ts");
    let mut data = DiagnosticData::new();
    data.specifier = Some("fs".to_string());
    let d = coded("import-node-prefix-missing", Some(data));
    let action = DenoDiagnostic::get_code_action(&specifier, &d).unwrap();
    assert_eq!(action, edit_action("Update specifier to node:fs", &d, range(0, 23, 0, 50), "\"node:fs\""));
}

#[test]
fn code_action_errors() {
    let specifier = spec("file:///a/file.ts");
    let err = DenoDiagnostic::get_code_action(&specifier, &coded("deno-warn", None)).unwrap_err();
    assert_eq!(err, CodeActionError::UnsupportedCode("deno-warn".to_string()));
    assert_eq!(err.message(), "Unsupported diagnostic code (\"deno-warn\") provided.");
    let mut numbered = coded("x", None);
    numbered.code = Some(NumberOrString::Number(2322));
    let err = DenoDiagnostic::get_code_action(&specifier, &numbered).unwrap_err();
    assert_eq!(err, CodeActionError::UnsupportedCodeKind);
    assert_eq!(err.message(), "Unsupported diagnostic code provided.");
    let mut uncoded = coded("x", None);
    uncoded.code = None;
    assert_eq!(
        DenoDiagnostic::get_code_action(&specifier, &uncoded).unwrap_err(),
        CodeActionError::UnsupportedCodeKind
    );
    for code in
        ["import-map-remap", "no-cache", "no-cache-npm", "no-local", "redirect", "import-node-prefix-missing"]
    {
        let err = DenoDiagnostic::get_code_action(&specifier, &coded(code, None)).unwrap_err();
        assert_eq!(err, CodeActionError::MissingData);
        assert_eq!(err.message(), "Diagnostic is missing data");
        let err = DenoDiagnostic::get_code_action(&specifier, &coded(code, Some(DiagnosticData::new())))
            .unwrap_err();
        assert_eq!(err, CodeActionError::InvalidData);
        assert_eq!(err.message(), "Diagnostic data is invalid");
    }
    let mut data = DiagnosticData::new();
    data.specifier = Some("not a url".to_string());
    assert_eq!(
        DenoDiagnostic::get_code_action(&specifier, &coded("no-cache", Some(data))).unwrap_err(),
        CodeActionError::InvalidData
    );
    let mut data = DiagnosticData::new();
    data.from = Some("a".to_string());
    assert_eq!(
        DenoDiagnostic::get_code_action(&specifier, &coded("import-map-remap", Some(data))).unwrap_err(),
        CodeActionError::InvalidData
    );
    let mut data = DiagnosticData::new();
    data.to = Some("file:///a/b.ts".to_string());
    assert_eq!(
        DenoDiagnostic::get_code_action(&specifier, &coded("no-local", Some(data))).unwrap_err(),
        CodeActionError::InvalidData
    );
}

#[test]
fn fixable_codes() {
    for code in [
        "import-map-remap",
        "no-cache",
        "no-cache-npm",
        "no-attribute-type",
        "redirect",
        "import-node-prefix-missing",
    ] {
        assert!(DenoDiagnostic::is_fixable(&coded(code, None)));
        assert!(DenoDiagnostic::is_fixable(&coded(code, Some(DiagnosticData::new()))));
    }
    assert!(!DenoDiagnostic::is_fixable(&coded("no-local", None)));
    assert!(DenoDiagnostic::is_fixable(&coded("no-local", Some(DiagnosticData::new()))));
    for code in ["deno-warn", "invalid-attribute-type", "resolver-error", "import-prefix-missing", ""] {
        assert!(!DenoDiagnostic::is_fixable(&coded(code, Some(DiagnosticData::new()))));
    }
    let mut numbered = coded("x", None);
    numbered.code = Some(NumberOrString::Number(1));
    assert!(!DenoDiagnostic::is_fixable(&numbered));
    let mut uncoded = coded("x", None);
    uncoded.code = None;
    assert!(!DenoDiagnostic::is_fixable(&uncoded));
}

#[test]
fn fixable_agrees_with_code_action_on_complete_payloads() {
    let specifier = spec("file:///a/file.ts");
    let range = range(1, 2, 1, 9);
    let produced = vec![
        DenoDiagnostic::DenoWarn("w".to_string()),
        DenoDiagnostic::ImportMapRemap { from: "a".to_string(), to: "b".to_string() },
        DenoDiagnostic::InvalidAttributeType("css".to_string()),
        DenoDiagnostic::NoAttributeType,
        DenoDiagnostic::NoCache(spec("https://deno.land/x/mod.ts")),
        DenoDiagnostic::NoCacheNpm("chalk@5".to_string(), spec("npm:chalk@5")),
        DenoDiagnostic::NoLocal(spec("file:///a/b"), None),
        DenoDiagnostic::Redirect { from: spec("https://a/x.ts"), to: spec("https://a/y.ts") },
        DenoDiagnostic::InvalidNodeSpecifier(spec("node:nope")),
        DenoDiagnostic::BareNodeSpecifier("fs".to_string()),
    ];
    for d in produced {
        let lsp = d.to_lsp_diagnostic(&range);
        assert_eq!(
            DenoDiagnostic::is_fixable(&lsp),
            DenoDiagnostic::get_code_action(&specifier, &lsp).is_ok()
        );
    }
}

#[test]
fn quick_fix_then_code_action_is_get_code_action() {
    let specifier = spec("file:///a/file.ts");
    let mut data = DiagnosticData::new();
    data.specifier = Some("path".to_string());
    let d = coded("import-node-prefix-missing", Some(data));
    let fix = quick_fix(&d).unwrap();
    assert_eq!(fix, QuickFix::NodePrefix { specifier: "path".to_string() });
    assert_eq!(code_action(&specifier, &d, fix), DenoDiagnostic::get_code_action(&specifier, &d).unwrap());
    let action = text_edit_action(&specifier, &d, "t".to_string(), range(5, 5, 6, 6), "n".to_string());
    assert_eq!(action, edit_action("t", &d, range(5, 5, 6, 6), "n"));
}
