//! Quick fixes: what mends a module diagnostic, decided from its code and
//! its payload.

use vstd::prelude::*;
use crate::deno_diagnostic::DenoDiagnostic;
use crate::model::CodeView;
use crate::model::DataView;
use crate::model::Diagnostic;
use crate::model::DiagnosticData;
use crate::model::DiagnosticView;
use crate::model::NumberOrString;
use crate::model::Range;
use crate::specifier::has_scheme;
use crate::specifier::url_relative;
use crate::specifier::url_serialization;
use crate::specifier::ModuleSpecifier;
use crate::text::str_eq;

verus! {

/// A replacement of a span of text.
#[derive(Debug, PartialEq, Eq)]
pub struct TextEdit {
    pub range: Range,
    pub new_text: String,
}

/// What a [`TextEdit`] holds.
pub struct TextEditView {
    pub range: Range,
    pub new_text: Seq<char>,
}

impl DeepView for TextEdit {
    type V = TextEditView;

    open spec fn deep_view(&self) -> TextEditView {
        TextEditView { range: self.range, new_text: self.new_text@ }
    }
}

impl View for TextEdit {
    type V = TextEditView;

    open spec fn view(&self) -> TextEditView {
        self.deep_view()
    }
}

/// The edits to one document.
#[derive(Debug, PartialEq, Eq)]
pub struct DocumentChanges {
    pub specifier: ModuleSpecifier,
    pub edits: Vec<TextEdit>,
}

/// What a [`DocumentChanges`] holds.
pub struct DocumentChangesView {
    pub specifier: Seq<char>,
    pub edits: Seq<TextEditView>,
}

impl DeepView for DocumentChanges {
    type V = DocumentChangesView;

    open spec fn deep_view(&self) -> DocumentChangesView {
        DocumentChangesView { specifier: self.specifier@, edits: self.edits.deep_view() }
    }
}

impl View for DocumentChanges {
    type V = DocumentChangesView;

    open spec fn view(&self) -> DocumentChangesView {
        self.deep_view()
    }
}

/// Edits to documents of the workspace.
#[derive(Debug, PartialEq, Eq)]
pub struct WorkspaceEdit {
    pub changes: Vec<DocumentChanges>,
}

/// An argument of a command.
#[derive(Debug, PartialEq, Eq)]
pub enum CommandArgument {
    Specifier(ModuleSpecifier),
    Specifiers(Vec<ModuleSpecifier>),
}

/// What a [`CommandArgument`] holds.
pub enum ArgumentView {
    Specifier(Seq<char>),
    Specifiers(Seq<Seq<char>>),
}

impl DeepView for CommandArgument {
    type V = ArgumentView;

    open spec fn deep_view(&self) -> ArgumentView {
        match self {
            CommandArgument::Specifier(specifier) => ArgumentView::Specifier(specifier@),
            CommandArgument::Specifiers(list) => ArgumentView::Specifiers(list.deep_view()),
        }
    }
}

impl View for CommandArgument {
    type V = ArgumentView;

    open spec fn view(&self) -> ArgumentView {
        self.deep_view()
    }
}

/// A command that the editor is to run.
#[derive(Debug, PartialEq, Eq)]
pub struct Command {
    pub title: String,
    pub command: String,
    pub arguments: Vec<CommandArgument>,
}

/// What a [`Command`] holds.
pub struct CommandView {
    pub title: Seq<char>,
    pub command: Seq<char>,
    pub arguments: Seq<ArgumentView>,
}

impl DeepView for Command {
    type V = CommandView;

    open spec fn deep_view(&self) -> CommandView {
        CommandView {
            title: self.title@,
            command: self.command@,
            arguments: self.arguments.deep_view(),
        }
    }
}

impl View for Command {
    type V = CommandView;

    open spec fn view(&self) -> CommandView {
        self.deep_view()
    }
}

/// The kinds of code action that the engine offers.
#[derive(Clone, Copy, Debug, PartialEq, Eq, Structural)]
pub enum CodeActionKind {
    QuickFix,
}

/// An action that the editor offers on a diagnostic.
#[derive(Debug, PartialEq, Eq)]
pub struct CodeAction {
    pub title: String,
    pub kind: Option<CodeActionKind>,
    pub diagnostics: Option<Vec<Diagnostic>>,
    pub edit: Option<WorkspaceEdit>,
    pub command: Option<Command>,
}

/// What a [`CodeAction`] holds.
pub struct CodeActionView {
    pub title: Seq<char>,
    pub kind: Option<CodeActionKind>,
    pub diagnostics: Option<Seq<DiagnosticView>>,
    pub edit: Option<Seq<DocumentChangesView>>,
    pub command: Option<CommandView>,
}

/// What an optional workspace edit holds.
pub open spec fn edit_view(edit: Option<WorkspaceEdit>) -> Option<Seq<DocumentChangesView>> {
    match edit {
        Some(edit) => Some(edit.changes.deep_view()),
        None => None,
    }
}

impl DeepView for CodeAction {
    type V = CodeActionView;

    open spec fn deep_view(&self) -> CodeActionView {
        CodeActionView {
            title: self.title@,
            kind: self.kind,
            diagnostics: self.diagnostics.deep_view(),
            edit: edit_view(self.edit),
            command: self.command.deep_view(),
        }
    }
}

impl View for CodeAction {
    type V = CodeActionView;

    open spec fn view(&self) -> CodeActionView {
        self.deep_view()
    }
}

/// Why a diagnostic has no code action.
#[derive(Debug, PartialEq, Eq)]
pub enum CodeActionError {
    /// The diagnostic has no code, or a number for one.
    UnsupportedCodeKind,
    /// No quick fix is known for the code.
    UnsupportedCode(String),
    /// The quick fix needs a payload and the diagnostic has none.
    MissingData,
    /// The payload lacks a member that the quick fix needs, or holds a text
    /// that is no URL where one is needed.
    InvalidData,
}

/// What a [`CodeActionError`] holds.
pub enum ErrorView {
    UnsupportedCodeKind,
    UnsupportedCode(Seq<char>),
    MissingData,
    InvalidData,
}

impl DeepView for CodeActionError {
    type V = ErrorView;

    open spec fn deep_view(&self) -> ErrorView {
        match self {
            CodeActionError::UnsupportedCodeKind => ErrorView::UnsupportedCodeKind,
            CodeActionError::UnsupportedCode(code) => ErrorView::UnsupportedCode(code@),
            CodeActionError::MissingData => ErrorView::MissingData,
            CodeActionError::InvalidData => ErrorView::InvalidData,
        }
    }
}

impl View for CodeActionError {
    type V = ErrorView;

    open spec fn view(&self) -> ErrorView {
        self.deep_view()
    }
}

/// The text of an error.
pub open spec fn error_text(error: ErrorView) -> Seq<char> {
    match error {
        ErrorView::UnsupportedCodeKind => "Unsupported diagnostic code provided."@,
        ErrorView::UnsupportedCode(code) => "Unsupported diagnostic code (\""@ + code
            + "\") provided."@,
        ErrorView::MissingData => "Diagnostic is missing data"@,
        ErrorView::InvalidData => "Diagnostic data is invalid"@,
    }
}

impl CodeActionError {
    /// The text of the error.
    pub fn message(&self) -> (text: String)
        ensures
            text@ == error_text(self@),
    {
        match self {
            CodeActionError::UnsupportedCodeKind => String::from_str(
                "Unsupported diagnostic code provided.",
            ),
            CodeActionError::UnsupportedCode(code) => {
                let mut text = String::from_str("Unsupported diagnostic code (\"");
                text.append(code.as_str());
                text.append("\") provided.");
                text
            },
            CodeActionError::MissingData => String::from_str("Diagnostic is missing data"),
            CodeActionError::InvalidData => String::from_str("Diagnostic data is invalid"),
        }
    }
}

/// The text that stands for a specifier in an import, given the relative
/// reference that leads to it: the reference itself where it begins with a
/// dot, else the reference behind `./`; the specifier where there is no
/// reference.
pub open spec fn relative_text(relative: Option<Seq<char>>, specifier: Seq<char>) -> Seq<char> {
    match relative {
        Some(reference) => if reference.len() > 0 && reference[0] == '.' {
            reference
        } else {
            "./"@ + reference
        },
        None => specifier,
    }
}

/// The text under which `referrer` imports `specifier`.
pub open spec fn relative_specifier_text(specifier: Seq<char>, referrer: Seq<char>) -> Seq<char> {
    relative_text(url_relative(referrer, specifier), specifier)
}

/// The text under which `referrer` imports the target of a redirect:
/// relative where both are files, else the target's URL.
pub open spec fn redirected_text(redirect: Seq<char>, referrer: Seq<char>) -> Seq<char> {
    if has_scheme(redirect, "file"@) && has_scheme(referrer, "file"@) {
        relative_specifier_text(redirect, referrer)
    } else {
        redirect
    }
}

/// The text that stands for `specifier` in an import, given the relative
/// reference that leads to it.
pub fn relative_text_from(relative: Option<String>, specifier: &ModuleSpecifier) -> (text: String)
    ensures
        text@ == relative_text(relative.deep_view(), specifier@),
{
    match relative {
        Some(reference) => {
            if reference.as_str().unicode_len() > 0 && reference.as_str().get_char(0) == '.' {
                reference
            } else {
                let mut text = String::from_str("./");
                text.append(reference.as_str());
                text
            }
        },
        None => String::from_str(specifier.as_str()),
    }
}

/// The text under which `referrer` imports `specifier`.
pub fn relative_specifier(specifier: &ModuleSpecifier, referrer: &ModuleSpecifier) -> (text: String)
    ensures
        text@ == relative_specifier_text(specifier@, referrer@),
{
    relative_text_from(referrer.make_relative(specifier), specifier)
}

/// The text under which `referrer` imports the target of a redirect.
pub fn specifier_text_for_redirected(redirect: &ModuleSpecifier, referrer: &ModuleSpecifier) -> (text:
    String)
    ensures
        text@ == redirected_text(redirect@, referrer@),
{
    if redirect.has_scheme("file") && referrer.has_scheme("file") {
        relative_specifier(redirect, referrer)
    } else {
        String::from_str(redirect.as_str())
    }
}

/// What a quick fix does, decided from a diagnostic's code and payload.
#[allow(inconsistent_fields)]
#[derive(Debug, PartialEq, Eq)]
pub enum QuickFix {
    /// Write the specifier as the import map has it.
    ImportMapRemap { from: String, to: String },
    /// Add the attribute type of a JSON module to the import.
    InsertAttributeType,
    /// Have a module or package cached.
    Cache { uncached: ModuleSpecifier },
    /// Write the specifier of the file that exists.
    NoLocal { message: String, to: ModuleSpecifier },
    /// Write the specifier that the import was redirected to.
    Redirect { redirect: ModuleSpecifier },
    /// Put `node:` in front of the specifier.
    NodePrefix { specifier: String },
}

/// What a [`QuickFix`] holds.
pub enum QuickFixView {
    ImportMapRemap { from: Seq<char>, to: Seq<char> },
    InsertAttributeType,
    Cache { uncached: Seq<char> },
    NoLocal { message: Seq<char>, to: Seq<char> },
    Redirect { redirect: Seq<char> },
    NodePrefix { specifier: Seq<char> },
}

impl DeepView for QuickFix {
    type V = QuickFixView;

    open spec fn deep_view(&self) -> QuickFixView {
        match self {
            QuickFix::ImportMapRemap { from, to } => QuickFixView::ImportMapRemap {
                from: from@,
                to: to@,
            },
            QuickFix::InsertAttributeType => QuickFixView::InsertAttributeType,
            QuickFix::Cache { uncached } => QuickFixView::Cache { uncached: uncached@ },
            QuickFix::NoLocal { message, to } => QuickFixView::NoLocal {
                message: message@,
                to: to@,
            },
            QuickFix::Redirect { redirect } => QuickFixView::Redirect { redirect: redirect@ },
            QuickFix::NodePrefix { specifier } => QuickFixView::NodePrefix {
                specifier: specifier@,
            },
        }
    }
}

impl View for QuickFix {
    type V = QuickFixView;

    open spec fn view(&self) -> QuickFixView {
        self.deep_view()
    }
}

/// The URL that a member of the payload holds: none where the member is
/// absent or its text is no absolute URL.
pub open spec fn url_member(member: Option<Seq<char>>) -> Option<Seq<char>> {
    match member {
        Some(text) => url_serialization(text),
        None => None,
    }
}

/// The quick fix for a payload under the code `import-map-remap`.
pub open spec fn remap_fix(data: Option<DataView>) -> Result<QuickFixView, ErrorView> {
    match data {
        None => Err(ErrorView::MissingData),
        Some(data) => if data.from is Some && data.to is Some {
            Ok(QuickFixView::ImportMapRemap { from: data.from->0, to: data.to->0 })
        } else {
            Err(ErrorView::InvalidData)
        },
    }
}

/// The quick fix for a payload under the codes `no-cache` and
/// `no-cache-npm`.
pub open spec fn cache_fix(data: Option<DataView>) -> Result<QuickFixView, ErrorView> {
    match data {
        None => Err(ErrorView::MissingData),
        Some(data) => match url_member(data.specifier) {
            Some(uncached) => Ok(QuickFixView::Cache { uncached }),
            None => Err(ErrorView::InvalidData),
        },
    }
}

/// The quick fix for a payload under the code `no-local`.
pub open spec fn no_local_fix(data: Option<DataView>) -> Result<QuickFixView, ErrorView> {
    match data {
        None => Err(ErrorView::MissingData),
        Some(data) => match url_member(data.to) {
            Some(to) => if data.message is Some {
                Ok(QuickFixView::NoLocal { message: data.message->0, to })
            } else {
                Err(ErrorView::InvalidData)
            },
            None => Err(ErrorView::InvalidData),
        },
    }
}

/// The quick fix for a payload under the code `redirect`.
pub open spec fn redirect_fix(data: Option<DataView>) -> Result<QuickFixView, ErrorView> {
    match data {
        None => Err(ErrorView::MissingData),
        Some(data) => match url_member(data.redirect) {
            Some(redirect) => Ok(QuickFixView::Redirect { redirect }),
            None => Err(ErrorView::InvalidData),
        },
    }
}

/// The quick fix for a payload under the code `import-node-prefix-missing`.
pub open spec fn node_prefix_fix(data: Option<DataView>) -> Result<QuickFixView, ErrorView> {
    match data {
        None => Err(ErrorView::MissingData),
        Some(data) => match data.specifier {
            Some(specifier) => Ok(QuickFixView::NodePrefix { specifier }),
            None => Err(ErrorView::InvalidData),
        },
    }
}

/// The quick fix for a code and a payload.
pub open spec fn named_fix(code: Seq<char>, data: Option<DataView>) -> Result<
    QuickFixView,
    ErrorView,
> {
    if code == "import-map-remap"@ {
        remap_fix(data)
    } else if code == "no-attribute-type"@ {
        Ok(QuickFixView::InsertAttributeType)
    } else if code == "no-cache"@ || code == "no-cache-npm"@ {
        cache_fix(data)
    } else if code == "no-local"@ {
        no_local_fix(data)
    } else if code == "redirect"@ {
        redirect_fix(data)
    } else if code == "import-node-prefix-missing"@ {
        node_prefix_fix(data)
    } else {
        Err(ErrorView::UnsupportedCode(code))
    }
}

/// The quick fix for a diagnostic, or why it has none.
pub open spec fn quick_fix_of(diagnostic: DiagnosticView) -> Result<QuickFixView, ErrorView> {
    match diagnostic.code {
        Some(CodeView::String(code)) => named_fix(code, diagnostic.data),
        _ => Err(ErrorView::UnsupportedCodeKind),
    }
}

/// What a decoded quick fix or its error holds.
pub open spec fn fix_view(result: Result<QuickFix, CodeActionError>) -> Result<
    QuickFixView,
    ErrorView,
> {
    match result {
        Ok(fix) => Ok(fix@),
        Err(error) => Err(error@),
    }
}

/// `text` between double quotes.
pub open spec fn quoted(text: Seq<char>) -> Seq<char> {
    "\""@ + text + "\""@
}

/// The title of a quick fix.
pub open spec fn title_of(fix: QuickFixView) -> Seq<char> {
    match fix {
        QuickFixView::ImportMapRemap { from, to } => "Update \""@ + from + "\" to \""@ + to
            + "\" to use import map."@,
        QuickFixView::InsertAttributeType => "Insert import attribute."@,
        QuickFixView::Cache { uncached } => "Cache \""@ + uncached + "\" and its dependencies."@,
        QuickFixView::NoLocal { message, to } => message,
        QuickFixView::Redirect { redirect } => "Update specifier to its redirected specifier."@,
        QuickFixView::NodePrefix { specifier } => "Update specifier to node:"@ + specifier,
    }
}

/// The edit of a quick fix to the document `specifier`, for a diagnostic at
/// `range`; none for a fix that runs a command.
pub open spec fn edit_of(fix: QuickFixView, specifier: Seq<char>, range: Range) -> Option<
    TextEditView,
> {
    match fix {
        QuickFixView::ImportMapRemap { from, to } => Some(
            TextEditView { range, new_text: quoted(to) },
        ),
        QuickFixView::InsertAttributeType => Some(
            TextEditView {
                range: Range { start: range.end, end: range.end },
                new_text: " with { type: \"json\" }"@,
            },
        ),
        QuickFixView::Cache { uncached } => None,
        QuickFixView::NoLocal { message, to } => Some(
            TextEditView { range, new_text: quoted(relative_specifier_text(to, specifier)) },
        ),
        QuickFixView::Redirect { redirect } => Some(
            TextEditView { range, new_text: quoted(redirected_text(redirect, specifier)) },
        ),
        QuickFixView::NodePrefix { specifier: name } => Some(
            TextEditView { range, new_text: "\"node:"@ + name + "\""@ },
        ),
    }
}

/// The command of a quick fix on a diagnostic of the document `specifier`;
/// none for a fix that edits.
pub open spec fn command_of(fix: QuickFixView, specifier: Seq<char>) -> Option<CommandView> {
    match fix {
        QuickFixView::Cache { uncached } => Some(
            CommandView {
                title: Seq::empty(),
                command: "deno.cache"@,
                arguments: seq![
                    ArgumentView::Specifiers(seq![uncached]),
                    ArgumentView::Specifier(specifier),
                ],
            },
        ),
        _ => None,
    }
}

/// The code action that carries out `fix` on `diagnostic`, a diagnostic of
/// the document `specifier`.
pub open spec fn action_of(specifier: Seq<char>, diagnostic: DiagnosticView, fix: QuickFixView)
    -> CodeActionView {
    CodeActionView {
        title: title_of(fix),
        kind: Some(CodeActionKind::QuickFix),
        diagnostics: Some(seq![diagnostic]),
        edit: match edit_of(fix, specifier, diagnostic.range) {
            Some(edit) => Some(seq![DocumentChangesView { specifier, edits: seq![edit] }]),
            None => None,
        },
        command: command_of(fix, specifier),
    }
}

/// The code action for a diagnostic of the document `specifier`, or why it
/// has none.
pub open spec fn code_action_of(specifier: Seq<char>, diagnostic: DiagnosticView) -> Result<
    CodeActionView,
    ErrorView,
> {
    match quick_fix_of(diagnostic) {
        Ok(fix) => Ok(action_of(specifier, diagnostic, fix)),
        Err(error) => Err(error),
    }
}

/// What a code action or its error holds.
pub open spec fn action_view(result: Result<CodeAction, CodeActionError>) -> Result<
    CodeActionView,
    ErrorView,
> {
    match result {
        Ok(action) => Ok(action@),
        Err(error) => Err(error@),
    }
}

/// Whether a quick fix is offered for a diagnostic: its code is one of those
/// that have one; for `no-local`, only where the diagnostic carries a
/// payload.
pub open spec fn fixable(diagnostic: DiagnosticView) -> bool {
    match diagnostic.code {
        Some(CodeView::String(code)) => {
            if code == "import-map-remap"@ || code == "no-cache"@ || code == "no-cache-npm"@
                || code == "no-attribute-type"@ || code == "redirect"@ || code
                == "import-node-prefix-missing"@ {
                true
            } else if code == "no-local"@ {
                diagnostic.data is Some
            } else {
                false
            }
        },
        _ => false,
    }
}

fn parse_member(member: &Option<String>) -> (parsed: Option<ModuleSpecifier>)
    ensures
        parsed.deep_view() == url_member(member.deep_view()),
{
    match member {
        Some(text) => ModuleSpecifier::parse(text.as_str()),
        None => None,
    }
}

fn decode_remap(data: &Option<DiagnosticData>) -> (fix: Result<QuickFix, CodeActionError>)
    ensures
        fix_view(fix) == remap_fix(data.deep_view()),
{
    match data {
        None => Err(CodeActionError::MissingData),
        Some(data) => match (&data.from, &data.to) {
            (Some(from), Some(to)) => Ok(
                QuickFix::ImportMapRemap { from: from.clone(), to: to.clone() },
            ),
            _ => Err(CodeActionError::InvalidData),
        },
    }
}

fn decode_cache(data: &Option<DiagnosticData>) -> (fix: Result<QuickFix, CodeActionError>)
    ensures
        fix_view(fix) == cache_fix(data.deep_view()),
{
    match data {
        None => Err(CodeActionError::MissingData),
        Some(data) => match parse_member(&data.specifier) {
            Some(uncached) => Ok(QuickFix::Cache { uncached }),
            None => Err(CodeActionError::InvalidData),
        },
    }
}

fn decode_no_local(data: &Option<DiagnosticData>) -> (fix: Result<QuickFix, CodeActionError>)
    ensures
        fix_view(fix) == no_local_fix(data.deep_view()),
{
    match data {
        None => Err(CodeActionError::MissingData),
        Some(data) => match parse_member(&data.to) {
            Some(to) => match &data.message {
                Some(message) => Ok(QuickFix::NoLocal { message: message.clone(), to }),
                None => Err(CodeActionError::InvalidData),
            },
            None => Err(CodeActionError::InvalidData),
        },
    }
}

fn decode_redirect(data: &Option<DiagnosticData>) -> (fix: Result<QuickFix, CodeActionError>)
    ensures
        fix_view(fix) == redirect_fix(data.deep_view()),
{
    match data {
        None => Err(CodeActionError::MissingData),
        Some(data) => match parse_member(&data.redirect) {
            Some(redirect) => Ok(QuickFix::Redirect { redirect }),
            None => Err(CodeActionError::InvalidData),
        },
    }
}

fn decode_node_prefix(data: &Option<DiagnosticData>) -> (fix: Result<QuickFix, CodeActionError>)
    ensures
        fix_view(fix) == node_prefix_fix(data.deep_view()),
{
    match data {
        None => Err(CodeActionError::MissingData),
        Some(data) => match &data.specifier {
            Some(specifier) => Ok(QuickFix::NodePrefix { specifier: specifier.clone() }),
            None => Err(CodeActionError::InvalidData),
        },
    }
}

/// Decides the quick fix for a diagnostic from its code and its payload.
pub fn quick_fix(diagnostic: &Diagnostic) -> (fix: Result<QuickFix, CodeActionError>)
    ensures
        fix_view(fix) == quick_fix_of(diagnostic@),
{
    match &diagnostic.code {
        Some(NumberOrString::String(code)) => {
            let code = code.as_str();
            if str_eq(code, "import-map-remap") {
                decode_remap(&diagnostic.data)
            } else if str_eq(code, "no-attribute-type") {
                Ok(QuickFix::InsertAttributeType)
            } else if str_eq(code, "no-cache") || str_eq(code, "no-cache-npm") {
                decode_cache(&diagnostic.data)
            } else if str_eq(code, "no-local") {
                decode_no_local(&diagnostic.data)
            } else if str_eq(code, "redirect") {
                decode_redirect(&diagnostic.data)
            } else if str_eq(code, "import-node-prefix-missing") {
                decode_node_prefix(&diagnostic.data)
            } else {
                Err(CodeActionError::UnsupportedCode(String::from_str(code)))
            }
        },
        _ => Err(CodeActionError::UnsupportedCodeKind),
    }
}

fn in_quotes(text: &str) -> (result: String)
    ensures
        result@ == quoted(text@),
{
    let mut result = String::from_str("\"");
    result.append(text);
    result.append("\"");
    result
}

/// The quick fix that replaces the text at `range` in the document
/// `specifier` by `new_text`, offered on `diagnostic` under `title`.
pub fn text_edit_action(
    specifier: &ModuleSpecifier,
    diagnostic: &Diagnostic,
    title: String,
    range: Range,
    new_text: String,
) -> (action: CodeAction)
    ensures
        action@ == (CodeActionView {
            title: title@,
            kind: Some(CodeActionKind::QuickFix),
            diagnostics: Some(seq![diagnostic@]),
            edit: Some(
                seq![
                    DocumentChangesView {
                        specifier: specifier@,
                        edits: seq![TextEditView { range, new_text: new_text@ }],
                    },
                ],
            ),
            command: None,
        }),
{
    let ghost edit_view = TextEditView { range, new_text: new_text@ };
    let mut edits: Vec<TextEdit> = Vec::new();
    edits.push(TextEdit { range, new_text });
    assert(edits.deep_view() =~= seq![edit_view]);
    let mut changes: Vec<DocumentChanges> = Vec::new();
    changes.push(DocumentChanges { specifier: specifier.clone(), edits });
    assert(changes.deep_view() =~= seq![
        DocumentChangesView { specifier: specifier@, edits: seq![edit_view] },
    ]);
    let mut diagnostics: Vec<Diagnostic> = Vec::new();
    diagnostics.push(diagnostic.clone());
    assert(diagnostics.deep_view() =~= seq![diagnostic@]);
    CodeAction {
        title,
        kind: Some(CodeActionKind::QuickFix),
        diagnostics: Some(diagnostics),
        edit: Some(WorkspaceEdit { changes }),
        command: None,
    }
}

/// The quick fix that has `uncached` and what it depends on cached, on
/// behalf of the document `specifier`.
pub fn cache_action(specifier: &ModuleSpecifier, diagnostic: &Diagnostic, uncached: ModuleSpecifier)
    -> (action: CodeAction)
    ensures
        action@ == action_of(
            specifier@,
            diagnostic@,
            QuickFixView::Cache { uncached: uncached@ },
        ),
{
    let mut title = String::from_str("Cache \"");
    title.append(uncached.as_str());
    title.append("\" and its dependencies.");
    let ghost uncached_view = uncached@;
    let mut list: Vec<ModuleSpecifier> = Vec::new();
    list.push(uncached);
    assert(list.deep_view() =~= seq![uncached_view]);
    let mut arguments: Vec<CommandArgument> = Vec::new();
    arguments.push(CommandArgument::Specifiers(list));
    arguments.push(CommandArgument::Specifier(specifier.clone()));
    assert(arguments.deep_view() =~= seq![
        ArgumentView::Specifiers(seq![uncached_view]),
        ArgumentView::Specifier(specifier@),
    ]);
    let mut diagnostics: Vec<Diagnostic> = Vec::new();
    diagnostics.push(diagnostic.clone());
    assert(diagnostics.deep_view() =~= seq![diagnostic@]);
    let command = Command { title: String::new(), command: String::from_str("deno.cache"), arguments };
    CodeAction {
        title,
        kind: Some(CodeActionKind::QuickFix),
        diagnostics: Some(diagnostics),
        edit: None,
        command: Some(command),
    }
}

/// The code action that carries out `fix` on `diagnostic`, a diagnostic of
/// the document `specifier`.
pub fn code_action(specifier: &ModuleSpecifier, diagnostic: &Diagnostic, fix: QuickFix) -> (action:
    CodeAction)
    ensures
        action@ == action_of(specifier@, diagnostic@, fix@),
{
    match fix {
        QuickFix::ImportMapRemap { from, to } => {
            let mut title = String::from_str("Update \"");
            title.append(from.as_str());
            title.append("\" to \"");
            title.append(to.as_str());
            title.append("\" to use import map.");
            text_edit_action(specifier, diagnostic, title, diagnostic.range, in_quotes(to.as_str()))
        },
        QuickFix::InsertAttributeType => {
            let end = diagnostic.range.end;
            text_edit_action(
                specifier,
                diagnostic,
                String::from_str("Insert import attribute."),
                Range { start: end, end },
                String::from_str(" with { type: \"json\" }"),
            )
        },
        QuickFix::Cache { uncached } => cache_action(specifier, diagnostic, uncached),
        QuickFix::NoLocal { message, to } => {
            let text = relative_specifier(&to, specifier);
            text_edit_action(
                specifier,
                diagnostic,
                message,
                diagnostic.range,
                in_quotes(text.as_str()),
            )
        },
        QuickFix::Redirect { redirect } => {
            let text = specifier_text_for_redirected(&redirect, specifier);
            text_edit_action(
                specifier,
                diagnostic,
                String::from_str("Update specifier to its redirected specifier."),
                diagnostic.range,
                in_quotes(text.as_str()),
            )
        },
        QuickFix::NodePrefix { specifier: name } => {
            let mut title = String::from_str("Update specifier to node:");
            title.append(name.as_str());
            let mut new_text = String::from_str("\"node:");
            new_text.append(name.as_str());
            new_text.append("\"");
            text_edit_action(specifier, diagnostic, title, diagnostic.range, new_text)
        },
    }
}

impl DenoDiagnostic {
    /// The code action that mends `diagnostic`, a module diagnostic of the
    /// document `specifier`, or why there is none.
    pub fn get_code_action(specifier: &ModuleSpecifier, diagnostic: &Diagnostic) -> (action: Result<
        CodeAction,
        CodeActionError,
    >)
        ensures
            action_view(action) == code_action_of(specifier@, diagnostic@),
    {
        match quick_fix(diagnostic) {
            Ok(fix) => Ok(code_action(specifier, diagnostic, fix)),
            Err(error) => Err(error),
        }
    }

    /// Whether a quick fix is offered for `diagnostic`.
    pub fn is_fixable(diagnostic: &Diagnostic) -> (offered: bool)
        ensures
            offered == fixable(diagnostic@),
    {
        match &diagnostic.code {
            Some(NumberOrString::String(code)) => {
                let code = code.as_str();
                if str_eq(code, "import-map-remap") || str_eq(code, "no-cache") || str_eq(
                    code,
                    "no-cache-npm",
                ) || str_eq(code, "no-attribute-type") || str_eq(code, "redirect") || str_eq(
                    code,
                    "import-node-prefix-missing",
                ) {
                    true
                } else if str_eq(code, "no-local") {
                    diagnostic.data.is_some()
                } else {
                    false
                }
            },
            _ => false,
        }
    }
}

/// Whether a diagnostic's payload holds what the quick fix for its code
/// reads: every member that the fix needs, with a URL where one is needed. A
/// `no-local` diagnostic may come without a payload, and a code without a
/// quick fix needs none.
pub open spec fn payload_complete(diagnostic: DiagnosticView) -> bool {
    match diagnostic.code {
        Some(CodeView::String(code)) => {
            let data = diagnostic.data;
            if code == "import-map-remap"@ {
                data is Some && data->0.from is Some && data->0.to is Some
            } else if code == "no-attribute-type"@ {
                true
            } else if code == "no-cache"@ || code == "no-cache-npm"@ {
                data is Some && url_member(data->0.specifier) is Some
            } else if code == "no-local"@ {
                data is Some ==> url_member(data->0.to) is Some && data->0.message is Some
            } else if code == "redirect"@ {
                data is Some && url_member(data->0.redirect) is Some
            } else if code == "import-node-prefix-missing"@ {
                data is Some && data->0.specifier is Some
            } else {
                true
            }
        },
        _ => true,
    }
}

/// No two of the codes that have a quick fix are the same text.
pub proof fn lemma_fix_codes_differ()
    ensures
        "no-local"@ != "import-map-remap"@,
        "no-local"@ != "no-attribute-type"@,
        "no-local"@ != "no-cache"@,
        "no-local"@ != "no-cache-npm"@,
        "no-local"@ != "redirect"@,
        "no-local"@ != "import-node-prefix-missing"@,
{
    reveal_strlit("no-local");
    reveal_strlit("import-map-remap");
    reveal_strlit("no-attribute-type");
    reveal_strlit("no-cache");
    reveal_strlit("no-cache-npm");
    reveal_strlit("redirect");
    reveal_strlit("import-node-prefix-missing");
    assert("no-local"@[3] == 'l');
}

/// A code action exists only for a diagnostic that is offered a quick fix;
/// and every diagnostic that is offered one has a code action, provided its
/// payload is complete.
pub proof fn lemma_fixable_iff_code_action(specifier: Seq<char>, diagnostic: DiagnosticView)
    ensures
        code_action_of(specifier, diagnostic) is Ok ==> fixable(diagnostic),
        payload_complete(diagnostic) ==> (fixable(diagnostic) <==> code_action_of(
            specifier,
            diagnostic,
        ) is Ok),
{
    lemma_fix_codes_differ();
}

} // verus!
