//! The diagnostics that module resolution gives rise to.

use vstd::prelude::*;
use crate::model::CodeView;
use crate::model::DataView;
use crate::model::Diagnostic;
use crate::model::DiagnosticData;
use crate::model::DiagnosticSeverity;
use crate::model::DiagnosticSource;
use crate::model::DiagnosticView;
use crate::model::NumberOrString;
use crate::model::Range;
use crate::model::clone_text;
use crate::model::empty_data;
use crate::model::source_label;
use crate::specifier::ModuleSpecifier;
use crate::specifier::url_path;

verus! {

/// The ways in which the module graph fails to resolve a specifier.
#[derive(Clone, Copy, Debug, PartialEq, Eq, Structural)]
pub enum ResolutionErrorKind {
    InvalidDowngrade,
    InvalidLocalImport,
    ImportPrefixMissing,
    InvalidUrl,
    ResolverError,
}

/// A failure of the module graph to resolve a specifier: its kind, the text
/// that explains it, the place of the specifier, and, where the specifier is
/// the bare name of a built-in Node module, that name.
#[derive(Debug, PartialEq, Eq)]
pub struct ResolutionError {
    pub kind: ResolutionErrorKind,
    pub message: String,
    pub bare_node_specifier: Option<String>,
    pub range: Range,
}

/// A file that would resolve in place of a local specifier that does not,
/// with the two texts that suggest it: one for the diagnostic's message, one
/// for the title of the quick fix.
#[derive(Debug, PartialEq, Eq)]
pub struct SloppyImportsResolution {
    pub specifier: ModuleSpecifier,
    pub suggestion_message: String,
    pub quick_fix_message: String,
}

/// A diagnostic that module resolution gives rise to.
#[allow(inconsistent_fields)]
#[derive(Debug, PartialEq, Eq)]
pub enum DenoDiagnostic {
    /// The cached resource came with a warning, which is shown as it is.
    DenoWarn(String),
    /// The specifier can be written shorter through the import map.
    ImportMapRemap { from: String, to: String },
    /// A JSON module is imported with another attribute type than `json`.
    InvalidAttributeType(String),
    /// A JSON module is imported without an attribute type.
    NoAttributeType,
    /// A remote module is not in the cache.
    NoCache(ModuleSpecifier),
    /// An npm package, named by its requirement, is not installed.
    NoCacheNpm(String, ModuleSpecifier),
    /// A local module does not exist; with the file that would, if one was
    /// found.
    NoLocal(ModuleSpecifier, Option<SloppyImportsResolution>),
    /// The module was found under another URL than the one asked for.
    Redirect { from: ModuleSpecifier, to: ModuleSpecifier },
    /// The specifier could not be resolved.
    ResolutionError(ResolutionError),
    /// A `node:` specifier names no built-in module.
    InvalidNodeSpecifier(ModuleSpecifier),
    /// A bare specifier resolved to a built-in Node module.
    BareNodeSpecifier(String),
}

/// What a [`ResolutionError`] holds.
pub struct ResolutionErrorView {
    pub kind: ResolutionErrorKind,
    pub message: Seq<char>,
    pub bare_node_specifier: Option<Seq<char>>,
    pub range: Range,
}

impl DeepView for ResolutionError {
    type V = ResolutionErrorView;

    open spec fn deep_view(&self) -> ResolutionErrorView {
        ResolutionErrorView {
            kind: self.kind,
            message: self.message@,
            bare_node_specifier: self.bare_node_specifier.deep_view(),
            range: self.range,
        }
    }
}

impl View for ResolutionError {
    type V = ResolutionErrorView;

    open spec fn view(&self) -> ResolutionErrorView {
        self.deep_view()
    }
}

impl Clone for ResolutionError {
    fn clone(&self) -> (copy: Self)
        ensures
            copy@ == self@,
    {
        ResolutionError {
            kind: self.kind,
            message: self.message.clone(),
            bare_node_specifier: clone_text(&self.bare_node_specifier),
            range: self.range,
        }
    }
}

/// What a [`SloppyImportsResolution`] holds.
pub struct SloppyView {
    pub specifier: Seq<char>,
    pub suggestion_message: Seq<char>,
    pub quick_fix_message: Seq<char>,
}

impl DeepView for SloppyImportsResolution {
    type V = SloppyView;

    open spec fn deep_view(&self) -> SloppyView {
        SloppyView {
            specifier: self.specifier@,
            suggestion_message: self.suggestion_message@,
            quick_fix_message: self.quick_fix_message@,
        }
    }
}

impl View for SloppyImportsResolution {
    type V = SloppyView;

    open spec fn view(&self) -> SloppyView {
        self.deep_view()
    }
}

impl Clone for SloppyImportsResolution {
    fn clone(&self) -> (copy: Self)
        ensures
            copy@ == self@,
    {
        SloppyImportsResolution {
            specifier: self.specifier.clone(),
            suggestion_message: self.suggestion_message.clone(),
            quick_fix_message: self.quick_fix_message.clone(),
        }
    }
}

/// What a [`DenoDiagnostic`] holds.
pub enum DenoDiagnosticView {
    DenoWarn(Seq<char>),
    ImportMapRemap { from: Seq<char>, to: Seq<char> },
    InvalidAttributeType(Seq<char>),
    NoAttributeType,
    NoCache(Seq<char>),
    NoCacheNpm(Seq<char>, Seq<char>),
    NoLocal(Seq<char>, Option<SloppyView>),
    Redirect { from: Seq<char>, to: Seq<char> },
    ResolutionError(ResolutionErrorView),
    InvalidNodeSpecifier(Seq<char>),
    BareNodeSpecifier(Seq<char>),
}

impl DeepView for DenoDiagnostic {
    type V = DenoDiagnosticView;

    open spec fn deep_view(&self) -> DenoDiagnosticView {
        match self {
            DenoDiagnostic::DenoWarn(message) => DenoDiagnosticView::DenoWarn(message@),
            DenoDiagnostic::ImportMapRemap { from, to } => DenoDiagnosticView::ImportMapRemap {
                from: from@,
                to: to@,
            },
            DenoDiagnostic::InvalidAttributeType(attribute_type) =>
                DenoDiagnosticView::InvalidAttributeType(attribute_type@),
            DenoDiagnostic::NoAttributeType => DenoDiagnosticView::NoAttributeType,
            DenoDiagnostic::NoCache(specifier) => DenoDiagnosticView::NoCache(specifier@),
            DenoDiagnostic::NoCacheNpm(package_req, specifier) => DenoDiagnosticView::NoCacheNpm(
                package_req@,
                specifier@,
            ),
            DenoDiagnostic::NoLocal(specifier, sloppy) => DenoDiagnosticView::NoLocal(
                specifier@,
                sloppy.deep_view(),
            ),
            DenoDiagnostic::Redirect { from, to } => DenoDiagnosticView::Redirect {
                from: from@,
                to: to@,
            },
            DenoDiagnostic::ResolutionError(error) => DenoDiagnosticView::ResolutionError(error@),
            DenoDiagnostic::InvalidNodeSpecifier(specifier) =>
                DenoDiagnosticView::InvalidNodeSpecifier(specifier@),
            DenoDiagnostic::BareNodeSpecifier(name) => DenoDiagnosticView::BareNodeSpecifier(name@),
        }
    }
}

impl View for DenoDiagnostic {
    type V = DenoDiagnosticView;

    open spec fn view(&self) -> DenoDiagnosticView {
        self.deep_view()
    }
}

/// The code of a failed resolution.
pub open spec fn resolution_error_code(error: ResolutionErrorView) -> Seq<char> {
    if error.bare_node_specifier is Some {
        "import-node-prefix-missing"@
    } else {
        match error.kind {
            ResolutionErrorKind::InvalidDowngrade => "invalid-downgrade"@,
            ResolutionErrorKind::InvalidLocalImport => "invalid-local-import"@,
            ResolutionErrorKind::ImportPrefixMissing => "import-prefix-missing"@,
            ResolutionErrorKind::InvalidUrl => "invalid-url"@,
            ResolutionErrorKind::ResolverError => "resolver-error"@,
        }
    }
}

/// The code under which a diagnostic is reported.
pub open spec fn code_of(diagnostic: DenoDiagnosticView) -> Seq<char> {
    match diagnostic {
        DenoDiagnosticView::DenoWarn(_) => "deno-warn"@,
        DenoDiagnosticView::ImportMapRemap { .. } => "import-map-remap"@,
        DenoDiagnosticView::InvalidAttributeType(_) => "invalid-attribute-type"@,
        DenoDiagnosticView::NoAttributeType => "no-attribute-type"@,
        DenoDiagnosticView::NoCache(_) => "no-cache"@,
        DenoDiagnosticView::NoCacheNpm(_, _) => "no-cache-npm"@,
        DenoDiagnosticView::NoLocal(_, _) => "no-local"@,
        DenoDiagnosticView::Redirect { .. } => "redirect"@,
        DenoDiagnosticView::ResolutionError(error) => resolution_error_code(error),
        DenoDiagnosticView::InvalidNodeSpecifier(_) => "resolver-error"@,
        DenoDiagnosticView::BareNodeSpecifier(_) => "import-node-prefix-missing"@,
    }
}

/// How grave a diagnostic is.
pub open spec fn severity_of(diagnostic: DenoDiagnosticView) -> DiagnosticSeverity {
    match diagnostic {
        DenoDiagnosticView::DenoWarn(_) => DiagnosticSeverity::Warning,
        DenoDiagnosticView::ImportMapRemap { .. } => DiagnosticSeverity::Hint,
        DenoDiagnosticView::Redirect { .. } => DiagnosticSeverity::Information,
        DenoDiagnosticView::BareNodeSpecifier(_) => DiagnosticSeverity::Warning,
        _ => DiagnosticSeverity::Error,
    }
}

/// The message about a local module that does not exist.
pub open spec fn no_local_message(specifier: Seq<char>, sloppy: Option<SloppyView>) -> Seq<char> {
    "Unable to load a local module: "@ + specifier + "\n"@ + match sloppy {
        Some(resolution) => resolution.suggestion_message + "."@,
        None => "Please check the file path."@,
    }
}

/// The message of a diagnostic.
pub open spec fn message_of(diagnostic: DenoDiagnosticView) -> Seq<char> {
    match diagnostic {
        DenoDiagnosticView::DenoWarn(message) => message,
        DenoDiagnosticView::ImportMapRemap { from, to } =>
            "The import specifier can be remapped to \""@ + to
            + "\" which will resolve it via the active import map."@,
        DenoDiagnosticView::InvalidAttributeType(attribute_type) =>
            "The module is a JSON module and expected an attribute type of \"json\". Instead got \""@
            + attribute_type + "\"."@,
        DenoDiagnosticView::NoAttributeType =>
            "The module is a JSON module and not being imported with an import attribute. Consider adding `with { type: \"json\" }` to the import statement."@,
        DenoDiagnosticView::NoCache(specifier) => "Uncached or missing remote URL: "@ + specifier,
        DenoDiagnosticView::NoCacheNpm(package_req, _) => "Uncached or missing npm package: "@
            + package_req,
        DenoDiagnosticView::NoLocal(specifier, sloppy) => no_local_message(specifier, sloppy),
        DenoDiagnosticView::Redirect { from, to } => "The import of \""@ + from
            + "\" was redirected to \""@ + to + "\"."@,
        DenoDiagnosticView::ResolutionError(error) => error.message,
        DenoDiagnosticView::InvalidNodeSpecifier(specifier) => "Unknown Node built-in module: "@
            + url_path(specifier),
        DenoDiagnosticView::BareNodeSpecifier(name) => "\""@ + name + "\" is resolved to \"node:"@
            + name + "\". If you want to use a built-in Node module, add a \"node:\" prefix."@,
    }
}

/// The payload that a diagnostic carries for its quick fix.
pub open spec fn data_of(diagnostic: DenoDiagnosticView) -> Option<DataView> {
    match diagnostic {
        DenoDiagnosticView::ImportMapRemap { from, to } => Some(
            DataView { from: Some(from), to: Some(to), ..empty_data() },
        ),
        DenoDiagnosticView::NoCache(specifier) => Some(
            DataView { specifier: Some(specifier), ..empty_data() },
        ),
        DenoDiagnosticView::NoCacheNpm(_, specifier) => Some(
            DataView { specifier: Some(specifier), ..empty_data() },
        ),
        DenoDiagnosticView::NoLocal(specifier, sloppy) => match sloppy {
            Some(resolution) => Some(
                DataView {
                    specifier: Some(specifier),
                    to: Some(resolution.specifier),
                    message: Some(resolution.quick_fix_message),
                    ..empty_data()
                },
            ),
            None => None,
        },
        DenoDiagnosticView::Redirect { from, to } => Some(
            DataView { specifier: Some(from), redirect: Some(to), ..empty_data() },
        ),
        DenoDiagnosticView::ResolutionError(error) => match error.bare_node_specifier {
            Some(name) => Some(DataView { specifier: Some(name), ..empty_data() }),
            None => None,
        },
        DenoDiagnosticView::BareNodeSpecifier(name) => Some(
            DataView { specifier: Some(name), ..empty_data() },
        ),
        _ => None,
    }
}

/// The editor's diagnostic for a module diagnostic at `range`.
pub open spec fn lsp_diagnostic(diagnostic: DenoDiagnosticView, range: Range) -> DiagnosticView {
    DiagnosticView {
        range,
        severity: Some(severity_of(diagnostic)),
        code: Some(CodeView::String(code_of(diagnostic))),
        source: Some(source_label(DiagnosticSource::Deno)),
        message: message_of(diagnostic),
        related_information: None,
        tags: None,
        data: data_of(diagnostic),
    }
}

/// The message that a `node:` specifier whose path is `path` names no
/// built-in module.
pub fn invalid_node_specifier_message(path: &str) -> (message: String)
    ensures
        message@ == "Unknown Node built-in module: "@ + path@,
{
    let mut message = String::from_str("Unknown Node built-in module: ");
    message.append(path);
    message
}

fn specifier_data(specifier: &str) -> (data: Option<DiagnosticData>)
    ensures
        data.deep_view() == Some(DataView { specifier: Some(specifier@), ..empty_data() }),
{
    let mut data = DiagnosticData::new();
    data.specifier = Some(String::from_str(specifier));
    Some(data)
}

impl DenoDiagnostic {
    /// The code under which the diagnostic is reported.
    pub fn code(&self) -> (code: &'static str)
        ensures
            code@ == code_of(self@),
    {
        match self {
            DenoDiagnostic::DenoWarn(_) => "deno-warn",
            DenoDiagnostic::ImportMapRemap { .. } => "import-map-remap",
            DenoDiagnostic::InvalidAttributeType(_) => "invalid-attribute-type",
            DenoDiagnostic::NoAttributeType => "no-attribute-type",
            DenoDiagnostic::NoCache(_) => "no-cache",
            DenoDiagnostic::NoCacheNpm(_, _) => "no-cache-npm",
            DenoDiagnostic::NoLocal(_, _) => "no-local",
            DenoDiagnostic::Redirect { .. } => "redirect",
            DenoDiagnostic::ResolutionError(error) => {
                if error.bare_node_specifier.is_some() {
                    "import-node-prefix-missing"
                } else {
                    match error.kind {
                        ResolutionErrorKind::InvalidDowngrade => "invalid-downgrade",
                        ResolutionErrorKind::InvalidLocalImport => "invalid-local-import",
                        ResolutionErrorKind::ImportPrefixMissing => "import-prefix-missing",
                        ResolutionErrorKind::InvalidUrl => "invalid-url",
                        ResolutionErrorKind::ResolverError => "resolver-error",
                    }
                }
            },
            DenoDiagnostic::InvalidNodeSpecifier(_) => "resolver-error",
            DenoDiagnostic::BareNodeSpecifier(_) => "import-node-prefix-missing",
        }
    }

    /// The editor's diagnostic for this one at `range`.
    pub fn to_lsp_diagnostic(&self, range: &Range) -> (diagnostic: Diagnostic)
        ensures
            diagnostic@ == lsp_diagnostic(self@, *range),
    {
        let (severity, message, data): (DiagnosticSeverity, String, Option<DiagnosticData>) =
            match self {
            DenoDiagnostic::DenoWarn(message) => (
                DiagnosticSeverity::Warning,
                message.clone(),
                None,
            ),
            DenoDiagnostic::ImportMapRemap { from, to } => {
                let mut message = String::from_str("The import specifier can be remapped to \"");
                message.append(to.as_str());
                message.append("\" which will resolve it via the active import map.");
                let mut data = DiagnosticData::new();
                data.from = Some(from.clone());
                data.to = Some(to.clone());
                (DiagnosticSeverity::Hint, message, Some(data))
            },
            DenoDiagnostic::InvalidAttributeType(attribute_type) => {
                let mut message = String::from_str(
                    "The module is a JSON module and expected an attribute type of \"json\". Instead got \"",
                );
                message.append(attribute_type.as_str());
                message.append("\".");
                (DiagnosticSeverity::Error, message, None)
            },
            DenoDiagnostic::NoAttributeType => (
                DiagnosticSeverity::Error,
                String::from_str(
                    "The module is a JSON module and not being imported with an import attribute. Consider adding `with { type: \"json\" }` to the import statement.",
                ),
                None,
            ),
            DenoDiagnostic::NoCache(specifier) => {
                let mut message = String::from_str("Uncached or missing remote URL: ");
                message.append(specifier.as_str());
                (DiagnosticSeverity::Error, message, specifier_data(specifier.as_str()))
            },
            DenoDiagnostic::NoCacheNpm(package_req, specifier) => {
                let mut message = String::from_str("Uncached or missing npm package: ");
                message.append(package_req.as_str());
                (DiagnosticSeverity::Error, message, specifier_data(specifier.as_str()))
            },
            DenoDiagnostic::NoLocal(specifier, sloppy) => {
                let mut message = String::from_str("Unable to load a local module: ");
                message.append(specifier.as_str());
                message.append("\n");
                match sloppy {
                    Some(resolution) => {
                        message.append(resolution.suggestion_message.as_str());
                        message.append(".");
                        let mut data = DiagnosticData::new();
                        data.specifier = Some(String::from_str(specifier.as_str()));
                        data.to = Some(String::from_str(resolution.specifier.as_str()));
                        data.message = Some(resolution.quick_fix_message.clone());
                        (DiagnosticSeverity::Error, message, Some(data))
                    },
                    None => {
                        message.append("Please check the file path.");
                        (DiagnosticSeverity::Error, message, None)
                    },
                }
            },
            DenoDiagnostic::Redirect { from, to } => {
                let mut message = String::from_str("The import of \"");
                message.append(from.as_str());
                message.append("\" was redirected to \"");
                message.append(to.as_str());
                message.append("\".");
                let mut data = DiagnosticData::new();
                data.specifier = Some(String::from_str(from.as_str()));
                data.redirect = Some(String::from_str(to.as_str()));
                (DiagnosticSeverity::Information, message, Some(data))
            },
            DenoDiagnostic::ResolutionError(error) => {
                let data = match &error.bare_node_specifier {
                    Some(name) => specifier_data(name.as_str()),
                    None => None,
                };
                (DiagnosticSeverity::Error, error.message.clone(), data)
            },
            DenoDiagnostic::InvalidNodeSpecifier(specifier) => {
                let path = specifier.path();
                (DiagnosticSeverity::Error, invalid_node_specifier_message(path.as_str()), None)
            },
            DenoDiagnostic::BareNodeSpecifier(name) => {
                let mut message = String::from_str("\"");
                message.append(name.as_str());
                message.append("\" is resolved to \"node:");
                message.append(name.as_str());
                message.append(
                    "\". If you want to use a built-in Node module, add a \"node:\" prefix.",
                );
                (DiagnosticSeverity::Warning, message, specifier_data(name.as_str()))
            },
        };
        let diagnostic = Diagnostic {
            range: *range,
            severity: Some(severity),
            code: Some(NumberOrString::String(String::from_str(self.code()))),
            source: Some(String::from_str(DiagnosticSource::Deno.as_lsp_source())),
            message,
            related_information: None,
            tags: None,
            data,
        };
        assert(diagnostic@.message =~= message_of(self@));
        diagnostic
    }
}

} // verus!
