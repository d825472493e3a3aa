//! The records that the type checker reports, and their translation into
//! editor diagnostics.

use vstd::prelude::*;
use vstd::std_specs::vec::axiom_vec_index_decreases;
use crate::model::DiagnosticRelatedInformation;
use crate::model::DiagnosticSeverity;
use crate::model::DiagnosticSource;
use crate::model::DiagnosticTag;
use crate::model::DiagnosticView;
use crate::model::Location;
use crate::model::LocationView;
use crate::model::NumberOrString;
use crate::model::CodeView;
use crate::model::Range;
use crate::model::RelatedInformationView;
use crate::model::source_label;
use crate::specifier::ModuleSpecifier;

verus! {

/// The type checker's classes of diagnostics.
#[derive(Clone, Copy, Debug, PartialEq, Eq, Structural)]
pub enum DiagnosticCategory {
    Warning,
    Error,
    Suggestion,
    Message,
}

/// The severity that the editor shows for a category.
pub open spec fn severity_of(category: DiagnosticCategory) -> DiagnosticSeverity {
    match category {
        DiagnosticCategory::Error => DiagnosticSeverity::Error,
        DiagnosticCategory::Warning => DiagnosticSeverity::Warning,
        DiagnosticCategory::Suggestion => DiagnosticSeverity::Hint,
        DiagnosticCategory::Message => DiagnosticSeverity::Information,
    }
}

/// The category that a severity stands for.
pub open spec fn category_of(severity: DiagnosticSeverity) -> DiagnosticCategory {
    match severity {
        DiagnosticSeverity::Error => DiagnosticCategory::Error,
        DiagnosticSeverity::Warning => DiagnosticCategory::Warning,
        DiagnosticSeverity::Hint => DiagnosticCategory::Suggestion,
        DiagnosticSeverity::Information => DiagnosticCategory::Message,
    }
}

impl<'a> From<&'a DiagnosticCategory> for DiagnosticSeverity {
    fn from(category: &'a DiagnosticCategory) -> (severity: Self)
        ensures
            severity == severity_of(*category),
    {
        match category {
            DiagnosticCategory::Error => DiagnosticSeverity::Error,
            DiagnosticCategory::Warning => DiagnosticSeverity::Warning,
            DiagnosticCategory::Suggestion => DiagnosticSeverity::Hint,
            DiagnosticCategory::Message => DiagnosticSeverity::Information,
        }
    }
}

impl<'a> vstd::std_specs::convert::FromSpecImpl<&'a DiagnosticCategory> for DiagnosticSeverity {
    open spec fn obeys_from_spec() -> bool {
        true
    }

    open spec fn from_spec(category: &'a DiagnosticCategory) -> Self {
        severity_of(*category)
    }
}

/// A position as the type checker counts it.
#[derive(Clone, Copy, Debug, PartialEq, Eq, Structural)]
pub struct Position {
    pub line: u64,
    pub character: u64,
}

/// The editor's position for one of the type checker's: each coordinate cut
/// to 32 bits.
pub open spec fn lsp_position(position: Position) -> crate::model::Position {
    crate::model::Position {
        line: position.line as u32,
        character: position.character as u32,
    }
}

impl<'a> From<&'a Position> for crate::model::Position {
    fn from(position: &'a Position) -> (converted: Self)
        ensures
            converted == lsp_position(*position),
    {
        crate::model::Position {
            line: #[verifier::truncate]
            (position.line as u32),
            character: #[verifier::truncate]
            (position.character as u32),
        }
    }
}

impl<'a> vstd::std_specs::convert::FromSpecImpl<&'a Position> for crate::model::Position {
    open spec fn obeys_from_spec() -> bool {
        true
    }

    open spec fn from_spec(position: &'a Position) -> Self {
        lsp_position(*position)
    }
}

/// The editor's range between two of the type checker's positions.
pub open spec fn lsp_range(start: Position, end: Position) -> Range {
    Range { start: lsp_position(start), end: lsp_position(end) }
}

/// The editor's range between two of the type checker's positions.
pub fn to_lsp_range(start: &Position, end: &Position) -> (range: Range)
    ensures
        range == lsp_range(*start, *end),
{
    Range { start: crate::model::Position::from(start), end: crate::model::Position::from(end) }
}

/// A message with the messages that explain it.
#[derive(Debug, PartialEq, Eq)]
pub struct DiagnosticMessageChain {
    pub message_text: String,
    pub next: Option<Vec<DiagnosticMessageChain>>,
}

/// `count` spaces.
pub open spec fn spaces(count: nat) -> Seq<char> {
    Seq::new(count, |i: int| ' ')
}

/// A chain as text: its message behind `indent`, and, where it has
/// explanations, a line break and each of them rendered two spaces deeper,
/// one directly behind the other.
pub open spec fn chain_text(chain: DiagnosticMessageChain, indent: Seq<char>) -> Seq<char>
    decreases chain,
{
    indent + chain.message_text@ + match chain.next {
        Some(list) => seq!['\n'] + chain_list_text(list@, indent + spaces(2)),
        None => Seq::empty(),
    }
}

/// The texts of the chains of `list`, one behind the other.
pub open spec fn chain_list_text(list: Seq<DiagnosticMessageChain>, indent: Seq<char>) -> Seq<
    char,
>
    decreases list,
{
    if list.len() == 0 {
        Seq::empty()
    } else {
        chain_list_text(list.drop_last(), indent) + chain_text(list.last(), indent)
    }
}

impl DiagnosticMessageChain {
    fn format_indented(&self, indent: &str) -> (text: String)
        ensures
            text@ == chain_text(*self, indent@),
        decreases *self,
    {
        let mut text = String::from_str(indent);
        text.append(self.message_text.as_str());
        match &self.next {
            Some(list) => {
                text.append("\n");
                let mut deeper = String::from_str(indent);
                deeper.append("  ");
                proof {
                    reveal_strlit("\n");
                    reveal_strlit("  ");
                }
                let ghost head = text@;
                let mut i: usize = 0;
                while i < list.len()
                    invariant
                        i <= list.len(),
                        self.next == Some(*list),
                        deeper@ == indent@ + spaces(2),
                        text@ == head + chain_list_text(list@.take(i as int), deeper@),
                    decreases list.len() - i,
                {
                    proof {
                        axiom_vec_index_decreases(*list, i as int);
                        assert(decreases_to!(self.next => self.next->0));
                    }
                    let part = list[i].format_indented(deeper.as_str());
                    text.append(part.as_str());
                    proof {
                        assert(list@.take(i + 1).drop_last() =~= list@.take(i as int));
                    }
                    i += 1;
                }
                proof {
                    assert(list@.take(list.len() as int) =~= list@);
                }
            },
            None => {},
        }
        text
    }

    /// The chain as text, indented by two spaces for each `level`.
    pub fn format_message(&self, level: usize) -> (text: String)
        requires
            2 * level <= usize::MAX,
        ensures
            text@ == chain_text(*self, spaces(2 * level as nat)),
    {
        let mut indent = String::new();
        let mut i: usize = 0;
        while i < 2 * level
            invariant
                i <= 2 * level <= usize::MAX,
                indent@ == spaces(i as nat),
            decreases 2 * level - i,
        {
            indent.append(" ");
            proof {
                reveal_strlit(" ");
            }
            i += 1;
        }
        self.format_indented(indent.as_str())
    }
}

/// One record of the type checker.
#[derive(Debug, PartialEq, Eq)]
pub struct Diagnostic {
    pub category: DiagnosticCategory,
    pub code: u64,
    pub start: Option<Position>,
    pub end: Option<Position>,
    pub message_text: Option<String>,
    pub message_chain: Option<DiagnosticMessageChain>,
    pub file_name: Option<ModuleSpecifier>,
    pub related_information: Option<Vec<Diagnostic>>,
}

/// The message of a record: its plain text where it has one, else its chain
/// rendered from level 0, else a fixed text.
pub open spec fn diagnostic_message(diagnostic: Diagnostic) -> Seq<char> {
    match diagnostic.message_text {
        Some(message) => message@,
        None => match diagnostic.message_chain {
            Some(chain) => chain_text(chain, Seq::empty()),
            None => "[missing message]"@,
        },
    }
}

/// The message of a record: its plain text where it has one, else its chain
/// rendered from level 0, else a fixed text.
pub fn get_diagnostic_message(diagnostic: &Diagnostic) -> (message: String)
    ensures
        message@ == diagnostic_message(*diagnostic),
{
    match &diagnostic.message_text {
        Some(message) => message.clone(),
        None => match &diagnostic.message_chain {
            Some(chain) => {
                chain.format_message(0)
            },
            None => String::from_str("[missing message]"),
        },
    }
}

/// The related information that a related record gives: none unless it names
/// a file and both ends of a range.
pub open spec fn related_entry(related: Diagnostic) -> Option<RelatedInformationView> {
    if related.file_name is Some && related.start is Some && related.end is Some {
        Some(
            RelatedInformationView {
                location: LocationView {
                    uri: related.file_name->0@,
                    range: lsp_range(related.start->0, related.end->0),
                },
                message: diagnostic_message(related),
            },
        )
    } else {
        None
    }
}

/// The related information of the records of `related`, in their order,
/// without those that give none.
pub open spec fn related_entries(related: Seq<Diagnostic>) -> Seq<RelatedInformationView>
    decreases related.len(),
{
    if related.len() == 0 {
        Seq::empty()
    } else {
        let before = related_entries(related.drop_last());
        match related_entry(related.last()) {
            Some(entry) => before.push(entry),
            None => before,
        }
    }
}

/// The related information of a record, where it has a list of related
/// records.
pub open spec fn related_information_of(related: Option<Vec<Diagnostic>>) -> Option<
    Seq<RelatedInformationView>,
> {
    match related {
        Some(list) => Some(related_entries(list@)),
        None => None,
    }
}

/// The related information of a record, where it has a list of related
/// records: one entry for each that names a file and both ends of a range.
pub fn to_lsp_related_information(related_information: &Option<Vec<Diagnostic>>) -> (converted:
    Option<Vec<DiagnosticRelatedInformation>>)
    ensures
        converted.deep_view() == related_information_of(*related_information),
{
    match related_information {
        Some(related) => {
            let mut entries: Vec<DiagnosticRelatedInformation> = Vec::new();
            let mut i: usize = 0;
            while i < related.len()
                invariant
                    i <= related.len(),
                    entries.deep_view() == related_entries(related@.take(i as int)),
                decreases related.len() - i,
            {
                let ri = &related[i];
                proof {
                    assert(related@.take(i + 1).drop_last() =~= related@.take(i as int));
                }
                match (&ri.file_name, &ri.start, &ri.end) {
                    (Some(file_name), Some(start), Some(end)) => {
                        let entry = DiagnosticRelatedInformation {
                            location: Location {
                                uri: file_name.clone(),
                                range: to_lsp_range(start, end),
                            },
                            message: get_diagnostic_message(ri),
                        };
                        entries.push(entry);
                    },
                    _ => {},
                }
                i += 1;
            }
            proof {
                assert(related@.take(related.len() as int) =~= related@);
            }
            Some(entries)
        },
        None => None,
    }
}

/// The numbers of the type checker's messages about code that is never used.
pub open spec fn is_unnecessary_code(code: u64) -> bool {
    code == 2695 || code == 6133 || code == 6138 || code == 6192 || code == 6196 || code == 6198
        || code == 6199 || code == 6205 || code == 7027 || code == 7028
}

/// The numbers of the type checker's messages about deprecated code.
pub open spec fn is_deprecated_code(code: u64) -> bool {
    code == 2789 || code == 6385 || code == 6387
}

/// The tags that a message number calls for.
pub open spec fn tags_of(code: u64) -> Option<Seq<DiagnosticTag>> {
    if is_unnecessary_code(code) {
        Some(seq![DiagnosticTag::Unnecessary])
    } else if is_deprecated_code(code) {
        Some(seq![DiagnosticTag::Deprecated])
    } else {
        None
    }
}

/// The editor diagnostic for a record; none where the record lacks an end
/// of its range.
pub open spec fn translated(diagnostic: Diagnostic) -> Option<DiagnosticView> {
    if diagnostic.start is Some && diagnostic.end is Some {
        Some(
            DiagnosticView {
                range: lsp_range(diagnostic.start->0, diagnostic.end->0),
                severity: Some(severity_of(diagnostic.category)),
                code: Some(CodeView::Number(diagnostic.code as i32)),
                source: Some(source_label(DiagnosticSource::Ts)),
                message: diagnostic_message(diagnostic),
                related_information: related_information_of(diagnostic.related_information),
                tags: tags_of(diagnostic.code),
                data: None,
            },
        )
    } else {
        None
    }
}

/// The editor diagnostics for the records of `diagnostics`, in their order,
/// without the records that lack an end of their range.
pub open spec fn translated_all(diagnostics: Seq<Diagnostic>) -> Seq<DiagnosticView>
    decreases diagnostics.len(),
{
    if diagnostics.len() == 0 {
        Seq::empty()
    } else {
        let before = translated_all(diagnostics.drop_last());
        match translated(diagnostics.last()) {
            Some(diagnostic) => before.push(diagnostic),
            None => before,
        }
    }
}

fn tags_for(code: u64) -> (tags: Option<Vec<DiagnosticTag>>)
    ensures
        crate::model::tags_view(tags) == tags_of(code),
{
    if code == 2695 || code == 6133 || code == 6138 || code == 6192 || code == 6196 || code == 6198
        || code == 6199 || code == 6205 || code == 7027 || code == 7028 {
        let mut tags: Vec<DiagnosticTag> = Vec::new();
        tags.push(DiagnosticTag::Unnecessary);
        Some(tags)
    } else if code == 2789 || code == 6385 || code == 6387 {
        let mut tags: Vec<DiagnosticTag> = Vec::new();
        tags.push(DiagnosticTag::Deprecated);
        Some(tags)
    } else {
        None
    }
}

/// Translates the type checker's records into editor diagnostics: severity
/// from the category, the number as code, tags from the number alone;
/// records that lack an end of their range are left out.
pub fn ts_json_to_diagnostics(diagnostics: Vec<Diagnostic>) -> (converted: Vec<
    crate::model::Diagnostic,
>)
    ensures
        converted.deep_view() == translated_all(diagnostics@),
{
    translate_records(&diagnostics)
}

/// Translates the type checker's records into editor diagnostics, as
/// [`ts_json_to_diagnostics`] does, and leaves the records with the caller.
pub fn translate_records(diagnostics: &Vec<Diagnostic>) -> (converted: Vec<
    crate::model::Diagnostic,
>)
    ensures
        converted.deep_view() == translated_all(diagnostics@),
{
    let mut converted: Vec<crate::model::Diagnostic> = Vec::new();
    let mut i: usize = 0;
    while i < diagnostics.len()
        invariant
            i <= diagnostics.len(),
            converted.deep_view() == translated_all(diagnostics@.take(i as int)),
        decreases diagnostics.len() - i,
    {
        let d = &diagnostics[i];
        proof {
            assert(diagnostics@.take(i + 1).drop_last() =~= diagnostics@.take(i as int));
        }
        match (&d.start, &d.end) {
            (Some(start), Some(end)) => {
                let diagnostic = crate::model::Diagnostic {
                    range: to_lsp_range(start, end),
                    severity: Some(DiagnosticSeverity::from(&d.category)),
                    code: Some(
                        NumberOrString::Number(
                            #[verifier::truncate]
                            (d.code as i32),
                        ),
                    ),
                    source: Some(String::from_str(DiagnosticSource::Ts.as_lsp_source())),
                    message: get_diagnostic_message(d),
                    related_information: to_lsp_related_information(&d.related_information),
                    tags: tags_for(d.code),
                    data: None,
                };
                converted.push(diagnostic);
            },
            _ => {},
        }
        i += 1;
    }
    proof {
        assert(diagnostics@.take(diagnostics.len() as int) =~= diagnostics@);
    }
    converted
}

/// Translation keeps what identifies a record: the severity names the
/// record's category, and the code is the record's number wherever that
/// number fits the editor's 32-bit code.
pub proof fn lemma_translation_keeps_severity_and_code(diagnostic: Diagnostic)
    requires
        translated(diagnostic) is Some,
    ensures
        translated(diagnostic)->0.severity is Some,
        category_of(translated(diagnostic)->0.severity->0) == diagnostic.category,
        translated(diagnostic)->0.range == lsp_range(diagnostic.start->0, diagnostic.end->0),
        diagnostic.code <= i32::MAX ==> translated(diagnostic)->0.code == Some(
            CodeView::Number(diagnostic.code as i32),
        ) && (diagnostic.code as i32) as u64 == diagnostic.code,
{
}

} // verus!
