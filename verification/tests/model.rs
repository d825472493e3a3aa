use lsp_diagnostics::model::clone_diagnostics;
use lsp_diagnostics::model::Diagnostic;
use lsp_diagnostics::model::DiagnosticData;
use lsp_diagnostics::model::DiagnosticSeverity;
use lsp_diagnostics::model::DiagnosticSource;
use lsp_diagnostics::model::NumberOrString;
use lsp_diagnostics::model::Position;
use lsp_diagnostics::model::Range;
use lsp_diagnostics::model::VersionedDiagnostics;
use lsp_diagnostics::npm::holds_long_number;
use lsp_diagnostics::npm::npm_req_of_specifier;
use lsp_diagnostics::npm::package_req_from_str;
use lsp_diagnostics::specifier::ModuleSpecifier;
use lsp_diagnostics::text::starts_with;
use lsp_diagnostics::text::str_eq;
use lsp_diagnostics::text::strip_prefix;

fn range(l1: u32, c1: u32, l2: u32, c2: u32) -> Range {
    Range { start: Position { line: l1, character: c1 }, end: Position { line: l2, character: c2 } }
}

#[test]
fn source_labels() {
    assert_eq!(DiagnosticSource::Deno.as_lsp_source(), "deno");
    assert_eq!(DiagnosticSource::Lint.as_lsp_source(), "deno-lint");
    assert_eq!(DiagnosticSource::Ts.as_lsp_source(), "deno-ts");
}

#[test]
fn range_includes_both_ends() {
    let r = range(1, 5, 2, 3);
    assert!(r.includes(Position { line: 1, character: 5 }));
    assert!(r.includes(Position { line: 2, character: 3 }));
    assert!(r.includes(Position { line: 1, character: 900 }));
    assert!(r.includes(Position { line: 2, character: 0 }));
    assert!(!r.includes(Position { line: 1, character: 4 }));
    assert!(!r.includes(Position { line: 2, character: 4 }));
    assert!(!r.includes(Position { line: 0, character: 7 }));
    assert!(!r.includes(Position { line: 3, character: 0 }));
}

#[test]
fn clones_keep_every_field() {
    let mut data = DiagnosticData::new();
    data.specifier = Some("file:///a.ts".to_string());
    let d = Diagnostic {
        range: range(0, 1, 0, 2),
        severity: Some(DiagnosticSeverity::Hint),
        code: Some(NumberOrString::String("no-cache".to_string())),
        source: Some("deno".to_string()),
        message: "m".to_string(),
        related_information: None,
        tags: None,
        data: Some(data),
    };
    assert_eq!(d.clone(), d);
    let list = vec![d.clone(), d];
    assert_eq!(clone_diagnostics(&list), list);
}

#[test]
fn default_versioned_diagnostics_are_empty() {
    let v = VersionedDiagnostics::default();
    assert_eq!(v.version, None);
    assert!(v.diagnostics.is_empty());
}

#[test]
fn text_helpers() {
    assert!(str_eq("abc", "abc"));
    assert!(!str_eq("abc", "abd"));
    assert!(!str_eq("abc", "ab"));
    assert!(starts_with("node:fs", "node:"));
    assert!(starts_with("node:", "node:"));
    assert!(!starts_with("node", "node:"));
    assert!(!starts_with("xnode:fs", "node:"));
    assert!(starts_with("anything", ""));
    assert_eq!(strip_prefix("node:fs", "node:"), Some("fs".to_string()));
    assert_eq!(strip_prefix("node:", "node:"), Some(String::new()));
    assert_eq!(strip_prefix("npm:fs", "node:"), None);
    assert_eq!(strip_prefix("nöde:fś", "nöde:"), Some("fś".to_string()));
}

#[test]
fn specifier_parse_gives_the_serialization() {
    let s = ModuleSpecifier::parse("HTTPS://Example.COM/a/../b.ts").unwrap();
    assert_eq!(s.as_str(), "https://example.com/b.ts");
    assert!(ModuleSpecifier::parse("./relative.ts").is_none());
    assert!(ModuleSpecifier::parse("").is_none());
    let f = ModuleSpecifier::parse("file:///a/b.ts").unwrap();
    assert_eq!(f.as_str(), "file:///a/b.ts");
    assert!(f.same(&ModuleSpecifier::parse("file:///a/x/../b.ts").unwrap()));
    assert!(!f.same(&s));
}

#[test]
fn specifier_scheme_and_path() {
    let f = ModuleSpecifier::parse("file:///a/b.ts").unwrap();
    assert!(f.has_scheme("file"));
    assert!(!f.has_scheme("fil"));
    assert!(!f.has_scheme("https"));
    assert_eq!(f.path(), "/a/b.ts");
    let n = ModuleSpecifier::parse("node:fs/promises?x=1").unwrap();
    assert!(n.has_scheme("node"));
    assert_eq!(n.path(), "fs/promises");
}

#[test]
fn specifier_make_relative() {
    let base = ModuleSpecifier::parse("https://example.net/a/b.html").unwrap();
    let target = ModuleSpecifier::parse("https://example.net/a/c.png").unwrap();
    assert_eq!(base.make_relative(&target), Some("c.png".to_string()));
    let other = ModuleSpecifier::parse("https://example.org/a/c.png").unwrap();
    assert_eq!(base.make_relative(&other), None);
}

#[test]
fn package_requirements_are_normalized() {
    assert_eq!(package_req_from_str("pkg@*"), Some("pkg".to_string()));
    assert_eq!(package_req_from_str("@types/node"), Some("@types/node".to_string()));
    assert_eq!(package_req_from_str("scope/name"), None);
    assert_eq!(package_req_from_str(""), None);
    let chalk = ModuleSpecifier::parse("npm:chalk@5/sub/path").unwrap();
    assert_eq!(npm_req_of_specifier(&chalk), Some("chalk@5".to_string()));
    let types = ModuleSpecifier::parse("npm:@types/node").unwrap();
    assert_eq!(npm_req_of_specifier(&types), Some("@types/node".to_string()));
    let file = ModuleSpecifier::parse("file:///a.ts").unwrap();
    assert_eq!(npm_req_of_specifier(&file), None);
}

#[test]
fn long_runs_of_digits_are_found() {
    assert!(!holds_long_number(""));
    assert!(!holds_long_number("npm:chalk@5"));
    assert!(!holds_long_number("1234567890123456789"));
    assert!(holds_long_number("12345678901234567890"));
    assert!(holds_long_number("a@^18446744073709551615"));
    assert!(holds_long_number("x00000000000000000000y"));
    assert!(!holds_long_number("1234567890.1234567890"));
    assert!(!holds_long_number("1234567890123456789a1234567890123456789"));
    assert!(holds_long_number("1234567890123456789a12345678901234567890"));
}

#[test]
fn versions_with_a_part_too_long_state_no_requirement() {
    assert_eq!(package_req_from_str("a@~18446744073709551615"), None);
    assert_eq!(package_req_from_str("a@^18446744073709551615"), None);
    let huge = ModuleSpecifier::parse("npm:a@^18446744073709551615").unwrap();
    assert_eq!(npm_req_of_specifier(&huge), None);
    assert_eq!(package_req_from_str("a@~1844674407370955161"), Some("a@~1844674407370955161".to_string()));
    let large = ModuleSpecifier::parse("npm:a@^1844674407370955161/sub").unwrap();
    assert_eq!(npm_req_of_specifier(&large), Some("a@^1844674407370955161".to_string()));
}
