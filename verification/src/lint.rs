//! The lint adapter: the linter's findings on the open documents, as
//! diagnostics.

use vstd::prelude::*;
use tokio_util::sync::CancellationToken;
use crate::cancellation::should_stop;
use crate::model::source_label;
use crate::model::CodeView;
use crate::model::Diagnostic;
use crate::model::DiagnosticRecord;
use crate::model::DiagnosticSeverity;
use crate::model::DiagnosticSource;
use crate::model::DiagnosticView;
use crate::model::NumberOrString;
use crate::model::RecordView;
use crate::model::VersionedDiagnostics;
use crate::model::VersionedView;
use crate::snapshot::ConfigSnapshot;
use crate::snapshot::Document;
use crate::snapshot::LintOptions;
use crate::snapshot::LintOutcome;
use crate::snapshot::LintReference;
use crate::snapshot::StateSnapshot;

verus! {

/// The message of a finding: its own, and behind a line break its hint,
/// where it has one.
pub open spec fn reference_message(reference: LintReference) -> Seq<char> {
    match reference.hint {
        Some(hint) => reference.message@ + "\n"@ + hint@,
        None => reference.message@,
    }
}

/// The diagnostic for a finding of the linter: a warning under the rule's
/// name.
pub open spec fn reference_diagnostic(reference: LintReference) -> DiagnosticView {
    DiagnosticView {
        range: reference.range,
        severity: Some(DiagnosticSeverity::Warning),
        code: Some(CodeView::String(reference.code@)),
        source: Some(source_label(DiagnosticSource::Lint)),
        message: reference_message(reference),
        related_information: None,
        tags: None,
        data: None,
    }
}

/// The diagnostics for the findings of `references`, in their order.
pub open spec fn reference_diagnostics(references: Seq<LintReference>) -> Seq<DiagnosticView> {
    Seq::new(references.len(), |i: int| reference_diagnostic(references[i]))
}

impl LintReference {
    /// The diagnostic for the finding.
    pub fn to_diagnostic(&self) -> (diagnostic: Diagnostic)
        ensures
            diagnostic@ == reference_diagnostic(*self),
    {
        let mut message = self.message.clone();
        match &self.hint {
            Some(hint) => {
                message.append("\n");
                message.append(hint.as_str());
            },
            None => {},
        }
        Diagnostic {
            range: self.range,
            severity: Some(DiagnosticSeverity::Warning),
            code: Some(NumberOrString::String(self.code.clone())),
            source: Some(String::from_str(DiagnosticSource::Lint.as_lsp_source())),
            message,
            related_information: None,
            tags: None,
            data: None,
        }
    }
}

/// The lint diagnostics of one document: the linter's findings where
/// diagnostics are wanted for the document, the file patterns let the
/// linter see it, and the linter had findings to give; none otherwise.
pub open spec fn document_lint_diagnostics(
    config: ConfigSnapshot,
    lint_options: LintOptions,
    document: Document,
) -> Seq<DiagnosticView> {
    if !config.settings_for(document.specifier@).enable {
        Seq::empty()
    } else if lint_options.excluded.deep_view().contains(document.specifier@) {
        Seq::empty()
    } else {
        match document.lint {
            LintOutcome::References(references) => reference_diagnostics(references@),
            _ => Seq::empty(),
        }
    }
}

/// The lint diagnostics of one document.
pub fn generate_document_lint_diagnostics(
    config: &ConfigSnapshot,
    lint_options: &LintOptions,
    document: &Document,
) -> (diagnostics: Vec<Diagnostic>)
    ensures
        diagnostics.deep_view() == document_lint_diagnostics(*config, *lint_options, *document),
{
    let mut diagnostics: Vec<Diagnostic> = Vec::new();
    if !config.specifier_enabled(&document.specifier) {
        return diagnostics;
    }
    if !lint_options.matches_specifier(&document.specifier) {
        return diagnostics;
    }
    match &document.lint {
        LintOutcome::References(references) => {
            let mut i: usize = 0;
            while i < references.len()
                invariant
                    i <= references.len(),
                    diagnostics.deep_view() == reference_diagnostics(references@.take(i as int)),
                decreases references.len() - i,
            {
                let ghost before = diagnostics.deep_view();
                let diagnostic = references[i].to_diagnostic();
                let ghost view = diagnostic@;
                diagnostics.push(diagnostic);
                assert(diagnostics.deep_view() =~= before.push(view));
                i += 1;
            }
        },
        _ => {},
    }
    diagnostics
}

/// Whether the lint adapter makes a record for a document: it is open and
/// diagnosable, its settings have linting on, and it lies in no npm
/// package.
pub open spec fn is_linted(snapshot: StateSnapshot, config: ConfigSnapshot, document: Document)
    -> bool {
    document.open_diagnosable && config.settings_for(document.specifier@).lint
        && !snapshot.is_in_npm_package(document.specifier@)
}

/// The lint adapter's record for a document, under the document's version.
pub open spec fn lint_record(config: ConfigSnapshot, lint_options: LintOptions, document: Document)
    -> RecordView {
    RecordView {
        specifier: document.specifier@,
        versioned: VersionedView {
            version: document.version,
            diagnostics: document_lint_diagnostics(config, lint_options, document),
        },
    }
}

/// The lint adapter's records for those of `documents` that it makes a
/// record for, in their order.
pub open spec fn lint_records(
    snapshot: StateSnapshot,
    config: ConfigSnapshot,
    lint_options: LintOptions,
    documents: Seq<Document>,
) -> Seq<RecordView>
    decreases documents.len(),
{
    if documents.len() == 0 {
        Seq::empty()
    } else {
        let before = lint_records(snapshot, config, lint_options, documents.drop_last());
        if is_linted(snapshot, config, documents.last()) {
            before.push(lint_record(config, lint_options, documents.last()))
        } else {
            before
        }
    }
}

/// The lint adapter's records: one for each open diagnosable document whose
/// settings have linting on and which lies in no npm package, in the
/// store's order. The token is asked before each document whose settings
/// have linting on; once it says that the batch is cancelled, no further
/// record is made.
pub fn generate_lint_diagnostics(
    snapshot: &StateSnapshot,
    config: &ConfigSnapshot,
    lint_options: &LintOptions,
    token: Option<&CancellationToken>,
) -> (records: Vec<DiagnosticRecord>)
    ensures
        exists|done: int|
            0 <= done <= snapshot.documents.documents.len() && records.deep_view()
                == #[trigger] lint_records(
                *snapshot,
                *config,
                *lint_options,
                snapshot.documents.documents@.take(done),
            ),
        token is None ==> records.deep_view() == lint_records(
            *snapshot,
            *config,
            *lint_options,
            snapshot.documents.documents@,
        ),
{
    let documents = &snapshot.documents.documents;
    let mut records: Vec<DiagnosticRecord> = Vec::new();
    let mut i: usize = 0;
    let mut stopped = false;
    while i < documents.len() && !stopped
        invariant
            i <= documents.len(),
            documents == &snapshot.documents.documents,
            stopped ==> token is Some,
            records.deep_view() == lint_records(
                *snapshot,
                *config,
                *lint_options,
                documents@.take(i as int),
            ),
        decreases
                documents.len() - i + (if stopped {
                    0int
                } else {
                    1int
                }),
    {
        let document = &documents[i];
        proof {
            let next = documents@.take(i + 1);
            assert(next.drop_last() =~= documents@.take(i as int));
        }
        if !document.open_diagnosable {
            i += 1;
        } else if !config.workspace_settings_for_specifier(&document.specifier).lint {
            i += 1;
        } else if should_stop(token) {
            stopped = true;
        } else if snapshot.in_npm_package(&document.specifier) {
            i += 1;
        } else {
            let record = DiagnosticRecord {
                specifier: document.specifier.clone(),
                versioned: VersionedDiagnostics {
                    version: document.version,
                    diagnostics: generate_document_lint_diagnostics(config, lint_options, document),
                },
            };
            records.push(record);
            i += 1;
        }
    }
    proof {
        if !stopped {
            assert(documents@.take(documents.len() as int) =~= documents@);
        }
    }
    records
}

} // verus!
