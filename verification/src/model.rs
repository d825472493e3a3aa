//! The editor-facing diagnostic record and the values it is made of.

use vstd::prelude::*;
use crate::specifier::ModuleSpecifier;

verus! {

/// A zero-based position in a document, in UTF-16 code units.
#[derive(Clone, Copy, Debug, PartialEq, Eq, Structural)]
pub struct Position {
    pub line: u32,
    pub character: u32,
}

/// A span of a document between two positions.
#[derive(Clone, Copy, Debug, PartialEq, Eq, Structural)]
pub struct Range {
    pub start: Position,
    pub end: Position,
}

/// `a` stands at or before `b` in a document.
pub open spec fn position_le(a: Position, b: Position) -> bool {
    a.line < b.line || (a.line == b.line && a.character <= b.character)
}

/// `position` lies inside `range`, its two ends included.
pub open spec fn range_includes(range: Range, position: Position) -> bool {
    position_le(range.start, position) && position_le(position, range.end)
}

impl Range {
    /// Whether `position` lies inside the range, its two ends included.
    pub fn includes(&self, position: Position) -> (inside: bool)
        ensures
            inside == range_includes(*self, position),
    {
        let after_start = self.start.line < position.line || (self.start.line == position.line
            && self.start.character <= position.character);
        let before_end = position.line < self.end.line || (position.line == self.end.line
            && position.character <= self.end.character);
        after_start && before_end
    }
}

/// How grave a diagnostic is.
#[derive(Clone, Copy, Debug, PartialEq, Eq, Structural)]
pub enum DiagnosticSeverity {
    Error,
    Warning,
    Information,
    Hint,
}

/// A hint to the editor on how to render a diagnostic.
#[derive(Clone, Copy, Debug, PartialEq, Eq, Structural)]
pub enum DiagnosticTag {
    Unnecessary,
    Deprecated,
}

/// The producer of a diagnostic.
#[derive(Clone, Copy, Debug, PartialEq, Eq, Hash, Structural)]
pub enum DiagnosticSource {
    Deno,
    Lint,
    Ts,
}

/// The label that a source's diagnostics carry.
pub open spec fn source_label(source: DiagnosticSource) -> Seq<char> {
    match source {
        DiagnosticSource::Deno => "deno"@,
        DiagnosticSource::Lint => "deno-lint"@,
        DiagnosticSource::Ts => "deno-ts"@,
    }
}

impl DiagnosticSource {
    /// The label that this source's diagnostics carry.
    pub fn as_lsp_source(&self) -> (label: &'static str)
        ensures
            label@ == source_label(*self),
    {
        match self {
            DiagnosticSource::Deno => "deno",
            DiagnosticSource::Lint => "deno-lint",
            DiagnosticSource::Ts => "deno-ts",
        }
    }
}

/// A diagnostic's code: a number or a name.
#[derive(Debug, PartialEq, Eq)]
pub enum NumberOrString {
    Number(i32),
    String(String),
}

/// What a [`NumberOrString`] holds.
pub enum CodeView {
    Number(i32),
    String(Seq<char>),
}

impl DeepView for NumberOrString {
    type V = CodeView;

    open spec fn deep_view(&self) -> CodeView {
        match self {
            NumberOrString::Number(n) => CodeView::Number(*n),
            NumberOrString::String(s) => CodeView::String(s@),
        }
    }
}

impl View for NumberOrString {
    type V = CodeView;

    open spec fn view(&self) -> CodeView {
        self.deep_view()
    }
}

impl Clone for NumberOrString {
    fn clone(&self) -> (copy: Self)
        ensures
            copy@ == self@,
    {
        match self {
            NumberOrString::Number(n) => NumberOrString::Number(*n),
            NumberOrString::String(s) => NumberOrString::String(s.clone()),
        }
    }
}

/// A place in a document.
#[derive(Debug, PartialEq, Eq)]
pub struct Location {
    pub uri: ModuleSpecifier,
    pub range: Range,
}

/// What a [`Location`] holds.
pub struct LocationView {
    pub uri: Seq<char>,
    pub range: Range,
}

impl DeepView for Location {
    type V = LocationView;

    open spec fn deep_view(&self) -> LocationView {
        LocationView { uri: self.uri@, range: self.range }
    }
}

impl View for Location {
    type V = LocationView;

    open spec fn view(&self) -> LocationView {
        self.deep_view()
    }
}

impl Clone for Location {
    fn clone(&self) -> (copy: Self)
        ensures
            copy@ == self@,
    {
        Location { uri: self.uri.clone(), range: self.range }
    }
}

/// A message about another place that a diagnostic refers to.
#[derive(Debug, PartialEq, Eq)]
pub struct DiagnosticRelatedInformation {
    pub location: Location,
    pub message: String,
}

/// What a [`DiagnosticRelatedInformation`] holds.
pub struct RelatedInformationView {
    pub location: LocationView,
    pub message: Seq<char>,
}

impl DeepView for DiagnosticRelatedInformation {
    type V = RelatedInformationView;

    open spec fn deep_view(&self) -> RelatedInformationView {
        RelatedInformationView { location: self.location@, message: self.message@ }
    }
}

impl View for DiagnosticRelatedInformation {
    type V = RelatedInformationView;

    open spec fn view(&self) -> RelatedInformationView {
        self.deep_view()
    }
}

impl Clone for DiagnosticRelatedInformation {
    fn clone(&self) -> (copy: Self)
        ensures
            copy@ == self@,
    {
        DiagnosticRelatedInformation {
            location: self.location.clone(),
            message: self.message.clone(),
        }
    }
}

/// A copy of an optional text.
pub fn clone_text(text: &Option<String>) -> (copy: Option<String>)
    ensures
        copy.deep_view() == text.deep_view(),
{
    match text {
        Some(t) => Some(t.clone()),
        None => None,
    }
}

/// The payload that a diagnostic carries for the code action that mends it:
/// an object whose members, where present, are texts.
#[derive(Debug, PartialEq, Eq)]
pub struct DiagnosticData {
    pub specifier: Option<String>,
    pub from: Option<String>,
    pub to: Option<String>,
    pub redirect: Option<String>,
    pub message: Option<String>,
}

/// What a [`DiagnosticData`] holds.
pub struct DataView {
    pub specifier: Option<Seq<char>>,
    pub from: Option<Seq<char>>,
    pub to: Option<Seq<char>>,
    pub redirect: Option<Seq<char>>,
    pub message: Option<Seq<char>>,
}

/// The payload without any member.
pub open spec fn empty_data() -> DataView {
    DataView { specifier: None, from: None, to: None, redirect: None, message: None }
}

impl DeepView for DiagnosticData {
    type V = DataView;

    open spec fn deep_view(&self) -> DataView {
        DataView {
            specifier: self.specifier.deep_view(),
            from: self.from.deep_view(),
            to: self.to.deep_view(),
            redirect: self.redirect.deep_view(),
            message: self.message.deep_view(),
        }
    }
}

impl View for DiagnosticData {
    type V = DataView;

    open spec fn view(&self) -> DataView {
        self.deep_view()
    }
}

impl Clone for DiagnosticData {
    fn clone(&self) -> (copy: Self)
        ensures
            copy@ == self@,
    {
        DiagnosticData {
            specifier: clone_text(&self.specifier),
            from: clone_text(&self.from),
            to: clone_text(&self.to),
            redirect: clone_text(&self.redirect),
            message: clone_text(&self.message),
        }
    }
}

impl DiagnosticData {
    /// The payload without any member.
    pub fn new() -> (data: DiagnosticData)
        ensures
            data@ == empty_data(),
    {
        DiagnosticData { specifier: None, from: None, to: None, redirect: None, message: None }
    }
}

/// A diagnostic as the editor receives it.
#[derive(Debug, PartialEq, Eq)]
pub struct Diagnostic {
    pub range: Range,
    pub severity: Option<DiagnosticSeverity>,
    pub code: Option<NumberOrString>,
    pub source: Option<String>,
    pub message: String,
    pub related_information: Option<Vec<DiagnosticRelatedInformation>>,
    pub tags: Option<Vec<DiagnosticTag>>,
    pub data: Option<DiagnosticData>,
}

/// What a [`Diagnostic`] holds.
pub struct DiagnosticView {
    pub range: Range,
    pub severity: Option<DiagnosticSeverity>,
    pub code: Option<CodeView>,
    pub source: Option<Seq<char>>,
    pub message: Seq<char>,
    pub related_information: Option<Seq<RelatedInformationView>>,
    pub tags: Option<Seq<DiagnosticTag>>,
    pub data: Option<DataView>,
}

/// What an optional list of tags holds.
pub open spec fn tags_view(tags: Option<Vec<DiagnosticTag>>) -> Option<Seq<DiagnosticTag>> {
    match tags {
        Some(list) => Some(list@),
        None => None,
    }
}

impl DeepView for Diagnostic {
    type V = DiagnosticView;

    open spec fn deep_view(&self) -> DiagnosticView {
        DiagnosticView {
            range: self.range,
            severity: self.severity,
            code: self.code.deep_view(),
            source: self.source.deep_view(),
            message: self.message@,
            related_information: self.related_information.deep_view(),
            tags: tags_view(self.tags),
            data: self.data.deep_view(),
        }
    }
}

impl View for Diagnostic {
    type V = DiagnosticView;

    open spec fn view(&self) -> DiagnosticView {
        self.deep_view()
    }
}

/// A copy of a list of related information.
pub fn clone_related(list: &Vec<DiagnosticRelatedInformation>) -> (copy: Vec<
    DiagnosticRelatedInformation,
>)
    ensures
        copy.deep_view() == list.deep_view(),
{
    let mut copy: Vec<DiagnosticRelatedInformation> = Vec::new();
    let mut i: usize = 0;
    while i < list.len()
        invariant
            i <= list.len(),
            copy.len() == i,
            forall|j: int| 0 <= j < i ==> copy[j]@ == list[j]@,
        decreases list.len() - i,
    {
        copy.push(list[i].clone());
        i += 1;
    }
    copy
}

/// A copy of a list of tags.
pub fn clone_tags(list: &Vec<DiagnosticTag>) -> (copy: Vec<DiagnosticTag>)
    ensures
        copy@ == list@,
{
    let mut copy: Vec<DiagnosticTag> = Vec::new();
    let mut i: usize = 0;
    while i < list.len()
        invariant
            i <= list.len(),
            copy.len() == i,
            forall|j: int| 0 <= j < i ==> copy[j] == list[j],
        decreases list.len() - i,
    {
        copy.push(list[i]);
        i += 1;
    }
    copy
}

impl Clone for Diagnostic {
    fn clone(&self) -> (copy: Self)
        ensures
            copy@ == self@,
    {
        Diagnostic {
            range: self.range,
            severity: self.severity,
            code: match &self.code {
                Some(code) => Some(code.clone()),
                None => None,
            },
            source: clone_text(&self.source),
            message: self.message.clone(),
            related_information: match &self.related_information {
                Some(list) => Some(clone_related(list)),
                None => None,
            },
            tags: match &self.tags {
                Some(list) => Some(clone_tags(list)),
                None => None,
            },
            data: match &self.data {
                Some(data) => Some(data.clone()),
                None => None,
            },
        }
    }
}

/// A copy of a list of diagnostics.
pub fn clone_diagnostics(list: &Vec<Diagnostic>) -> (copy: Vec<Diagnostic>)
    ensures
        copy.deep_view() == list.deep_view(),
{
    let mut copy: Vec<Diagnostic> = Vec::new();
    let mut i: usize = 0;
    while i < list.len()
        invariant
            i <= list.len(),
            copy.len() == i,
            forall|j: int| 0 <= j < i ==> copy[j]@ == list[j]@,
        decreases list.len() - i,
    {
        copy.push(list[i].clone());
        i += 1;
    }
    copy
}

/// Diagnostics pinned to the revision of the document that they were
/// computed for.
#[derive(Debug, PartialEq, Eq)]
pub struct VersionedDiagnostics {
    pub version: Option<i32>,
    pub diagnostics: Vec<Diagnostic>,
}

/// What a [`VersionedDiagnostics`] holds.
pub struct VersionedView {
    pub version: Option<i32>,
    pub diagnostics: Seq<DiagnosticView>,
}

impl DeepView for VersionedDiagnostics {
    type V = VersionedView;

    open spec fn deep_view(&self) -> VersionedView {
        VersionedView { version: self.version, diagnostics: self.diagnostics.deep_view() }
    }
}

impl View for VersionedDiagnostics {
    type V = VersionedView;

    open spec fn view(&self) -> VersionedView {
        self.deep_view()
    }
}

impl Clone for VersionedDiagnostics {
    fn clone(&self) -> (copy: Self)
        ensures
            copy@ == self@,
    {
        VersionedDiagnostics {
            version: self.version,
            diagnostics: clone_diagnostics(&self.diagnostics),
        }
    }
}

impl Default for VersionedDiagnostics {
    fn default() -> (empty: Self)
        ensures
            empty@ == (VersionedView { version: None, diagnostics: Seq::empty() }),
    {
        let empty = VersionedDiagnostics { version: None, diagnostics: Vec::new() };
        assert(empty.diagnostics.deep_view() =~= Seq::empty());
        empty
    }
}

/// The diagnostics that one source computed for one document.
#[derive(Debug, PartialEq, Eq)]
pub struct DiagnosticRecord {
    pub specifier: ModuleSpecifier,
    pub versioned: VersionedDiagnostics,
}

/// What a [`DiagnosticRecord`] holds.
pub struct RecordView {
    pub specifier: Seq<char>,
    pub versioned: VersionedView,
}

impl DeepView for DiagnosticRecord {
    type V = RecordView;

    open spec fn deep_view(&self) -> RecordView {
        RecordView { specifier: self.specifier@, versioned: self.versioned@ }
    }
}

impl View for DiagnosticRecord {
    type V = RecordView;

    open spec fn view(&self) -> RecordView {
        self.deep_view()
    }
}

impl Clone for DiagnosticRecord {
    fn clone(&self) -> (copy: Self)
        ensures
            copy@ == self@,
    {
        DiagnosticRecord { specifier: self.specifier.clone(), versioned: self.versioned.clone() }
    }
}

/// What one source computed in one pass over the open documents.
pub type DiagnosticVec = Vec<DiagnosticRecord>;

} // verus!
