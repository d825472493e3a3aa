//! What the engine is told of the language server's state for one batch:
//! the documents with what they import, and what the server's other parts
//! answer about the specifiers that occur in them.

use vstd::prelude::*;
use import_map::ImportMap;
use crate::deno_diagnostic::ResolutionError;
use crate::deno_diagnostic::SloppyImportsResolution;
use crate::model::Range;
use crate::specifier::ModuleSpecifier;
use crate::text::str_eq;

verus! {

/// The kinds of content that a document can have.
#[derive(Clone, Copy, Debug, PartialEq, Eq, Structural)]
pub enum MediaType {
    JavaScript,
    Jsx,
    Mjs,
    Cjs,
    TypeScript,
    Mts,
    Cts,
    Dts,
    Dmts,
    Dcts,
    Tsx,
    Css,
    Json,
    Jsonc,
    Json5,
    Html,
    Markdown,
    Sql,
    Wasm,
    SourceMap,
    Unknown,
}

/// A row of a table that is looked up by specifier.
pub trait Keyed {
    /// The specifier that the row is found under.
    spec fn key(&self) -> Seq<char>;

    /// Whether the row is found under `specifier`.
    fn has_key(&self, specifier: &ModuleSpecifier) -> (found: bool)
        ensures
            found == (self.key() == specifier@),
    ;
}

/// `index` is where the first row under `key` stands.
pub open spec fn is_first_row<T: Keyed>(rows: Seq<T>, key: Seq<char>, index: int) -> bool {
    &&& 0 <= index < rows.len()
    &&& rows[index].key() == key
    &&& forall|j: int| 0 <= j < index ==> (#[trigger] rows[j]).key() != key
}

/// Where the first row under `key` stands, if there is one.
pub open spec fn row_index<T: Keyed>(rows: Seq<T>, key: Seq<char>) -> Option<int> {
    if exists|index: int| is_first_row(rows, key, index) {
        Some(choose|index: int| is_first_row(rows, key, index))
    } else {
        None
    }
}

/// The first row under `key`, if there is one.
pub open spec fn row_of<T: Keyed>(rows: Seq<T>, key: Seq<char>) -> Option<T> {
    match row_index(rows, key) {
        Some(index) => Some(rows[index]),
        None => None,
    }
}

/// The first row under `specifier`, if there is one.
pub fn find_row<'a, T: Keyed>(rows: &'a Vec<T>, specifier: &ModuleSpecifier) -> (found: Option<
    &'a T,
>)
    ensures
        match found {
            Some(row) => row_of(rows@, specifier@) == Some(*row),
            None => row_of(rows@, specifier@).is_none(),
        },
{
    let mut i: usize = 0;
    while i < rows.len()
        invariant
            i <= rows.len(),
            forall|j: int| 0 <= j < i ==> (#[trigger] rows@[j]).key() != specifier@,
        decreases rows.len() - i,
    {
        if rows[i].has_key(specifier) {
            assert(is_first_row(rows@, specifier@, i as int));
            return Some(&rows[i]);
        }
        i += 1;
    }
    None
}

/// Whether `texts` holds `text`.
pub fn contains_text(texts: &Vec<String>, text: &str) -> (found: bool)
    ensures
        found == texts.deep_view().contains(text@),
{
    let mut i: usize = 0;
    while i < texts.len()
        invariant
            i <= texts.len(),
            forall|j: int| 0 <= j < i ==> texts.deep_view()[j] != text@,
        decreases texts.len() - i,
    {
        if str_eq(texts[i].as_str(), text) {
            assert(texts.deep_view()[i as int] == text@);
            return true;
        }
        i += 1;
    }
    false
}

/// Whether `specifiers` holds `specifier`.
pub fn contains_specifier(specifiers: &Vec<ModuleSpecifier>, specifier: &ModuleSpecifier) -> (found:
    bool)
    ensures
        found == specifiers.deep_view().contains(specifier@),
{
    let mut i: usize = 0;
    while i < specifiers.len()
        invariant
            i <= specifiers.len(),
            forall|j: int| 0 <= j < i ==> specifiers.deep_view()[j] != specifier@,
        decreases specifiers.len() - i,
    {
        if specifiers[i].same(specifier) {
            assert(specifiers.deep_view()[i as int] == specifier@);
            return true;
        }
        i += 1;
    }
    false
}

/// A specifier that resolved: the module's URL and the place of the
/// specifier in the importing document.
#[derive(Debug, PartialEq, Eq)]
pub struct ResolutionResolved {
    pub specifier: ModuleSpecifier,
    pub range: Range,
}

/// What became of resolving one side of a dependency.
#[derive(Debug, PartialEq, Eq)]
pub enum Resolution {
    /// Nothing was there to resolve.
    Unresolved,
    /// The specifier resolved.
    Resolved(ResolutionResolved),
    /// The specifier failed to resolve.
    Failed(ResolutionError),
}

/// One import of a dependency: the place of its specifier.
#[derive(Clone, Copy, Debug, PartialEq, Eq, Structural)]
pub struct Import {
    pub range: Range,
}

/// What a document depends on under one specifier: the code side and the
/// type side of its resolution, and every import that names it.
#[derive(Debug, PartialEq, Eq)]
pub struct Dependency {
    pub maybe_code: Resolution,
    pub maybe_type: Resolution,
    pub is_dynamic: bool,
    pub maybe_attribute_type: Option<String>,
    pub imports: Vec<Import>,
}

/// A dependency under the specifier as the document writes it.
#[derive(Debug, PartialEq, Eq)]
pub struct DependencyEntry {
    pub key: String,
    pub dependency: Dependency,
}

/// One finding of the linter.
#[derive(Debug, PartialEq, Eq)]
pub struct LintReference {
    pub range: Range,
    pub code: String,
    pub message: String,
    pub hint: Option<String>,
}

/// What the linter has to say of a document.
#[derive(Debug, PartialEq, Eq)]
pub enum LintOutcome {
    /// The document's contents are missing.
    MissingSource,
    /// The document does not parse.
    ParseError,
    /// The linter failed.
    LintError,
    /// The linter's findings.
    References(Vec<LintReference>),
}

/// A document of the store.
#[derive(Debug, PartialEq, Eq)]
pub struct Document {
    pub specifier: ModuleSpecifier,
    pub version: Option<i32>,
    pub media_type: MediaType,
    pub open_diagnosable: bool,
    pub dependencies: Vec<DependencyEntry>,
    pub lint: LintOutcome,
}

impl Keyed for Document {
    open spec fn key(&self) -> Seq<char> {
        self.specifier@
    }

    fn has_key(&self, specifier: &ModuleSpecifier) -> (found: bool) {
        self.specifier.same(specifier)
    }
}

/// A specifier under which the store hands out the document of another.
#[derive(Debug, PartialEq, Eq)]
pub struct Redirect {
    pub from: ModuleSpecifier,
    pub to: ModuleSpecifier,
}

impl Keyed for Redirect {
    open spec fn key(&self) -> Seq<char> {
        self.from@
    }

    fn has_key(&self, specifier: &ModuleSpecifier) -> (found: bool) {
        self.from.same(specifier)
    }
}

/// The document store.
#[derive(Debug, PartialEq, Eq)]
pub struct Documents {
    pub documents: Vec<Document>,
    pub redirects: Vec<Redirect>,
}

/// The specifier of the document that the store hands out for `specifier`.
pub open spec fn canonical(redirects: Seq<Redirect>, specifier: Seq<char>) -> Seq<char> {
    match row_of(redirects, specifier) {
        Some(redirect) => redirect.to@,
        None => specifier,
    }
}

impl Documents {
    /// The document that the store hands out for `specifier`.
    pub open spec fn document_for(&self, specifier: Seq<char>) -> Option<Document> {
        row_of(self.documents@, canonical(self.redirects@, specifier))
    }

    /// The document that the store hands out for `specifier`: that of the
    /// specifier that it redirects to, where it does, else its own.
    pub fn get(&self, specifier: &ModuleSpecifier) -> (found: Option<&Document>)
        ensures
            match found {
                Some(document) => self.document_for(specifier@) == Some(*document),
                None => self.document_for(specifier@).is_none(),
            },
    {
        match find_row(&self.redirects, specifier) {
            Some(redirect) => find_row(&self.documents, &redirect.to),
            None => find_row(&self.documents, specifier),
        }
    }

    /// The version that the editor gave the document of `specifier`.
    pub open spec fn version_of(&self, specifier: Seq<char>) -> Option<i32> {
        match self.document_for(specifier) {
            Some(document) => document.version,
            None => None,
        }
    }

    /// The version that the editor gave the document of `specifier`.
    pub fn lsp_version(&self, specifier: &ModuleSpecifier) -> (version: Option<i32>)
        ensures
            version == self.version_of(specifier@),
    {
        match self.get(specifier) {
            Some(document) => document.version,
            None => None,
        }
    }
}

/// The warning that a cached resource came with.
#[derive(Debug, PartialEq, Eq)]
pub struct CachedWarning {
    pub specifier: ModuleSpecifier,
    pub message: String,
}

impl Keyed for CachedWarning {
    open spec fn key(&self) -> Seq<char> {
        self.specifier@
    }

    fn has_key(&self, specifier: &ModuleSpecifier) -> (found: bool) {
        self.specifier.same(specifier)
    }
}

/// What the managed npm resolver knows: the package requirements whose
/// folders are in the cache.
#[derive(Debug, PartialEq, Eq)]
pub struct ManagedNpm {
    pub cached_package_reqs: Vec<String>,
}

/// What the npm resolver knows: the specifiers that lie inside npm
/// packages, and, where it manages the packages itself, what is cached.
#[derive(Debug, PartialEq, Eq)]
pub struct NpmSnapshot {
    pub package_specifiers: Vec<ModuleSpecifier>,
    pub managed: Option<ManagedNpm>,
}

/// The file that would resolve in place of a local specifier that does not.
#[derive(Debug, PartialEq, Eq)]
pub struct SloppyImport {
    pub specifier: ModuleSpecifier,
    pub resolution: SloppyImportsResolution,
}

impl Keyed for SloppyImport {
    open spec fn key(&self) -> Seq<char> {
        self.specifier@
    }

    fn has_key(&self, specifier: &ModuleSpecifier) -> (found: bool) {
        self.specifier.same(specifier)
    }
}

/// The language server's state as one batch sees it.
#[derive(Debug)]
pub struct StateSnapshot {
    pub documents: Documents,
    pub cache_metadata: Vec<CachedWarning>,
    pub maybe_import_map: Option<ImportMap>,
    pub npm: Option<NpmSnapshot>,
    pub node_builtin_modules: Vec<String>,
    pub sloppy_imports: Vec<SloppyImport>,
}

impl StateSnapshot {
    /// Whether `specifier` lies inside an npm package.
    pub open spec fn is_in_npm_package(&self, specifier: Seq<char>) -> bool {
        self.npm is Some && self.npm->0.package_specifiers.deep_view().contains(specifier)
    }

    /// Whether `specifier` lies inside an npm package.
    pub fn in_npm_package(&self, specifier: &ModuleSpecifier) -> (inside: bool)
        ensures
            inside == self.is_in_npm_package(specifier@),
    {
        match &self.npm {
            Some(npm) => contains_specifier(&npm.package_specifiers, specifier),
            None => false,
        }
    }

    /// Whether the npm packages are managed and the folder of `package_req`
    /// is missing from the cache.
    pub open spec fn lacks_package(&self, package_req: Seq<char>) -> bool {
        self.npm is Some && self.npm->0.managed is Some
            && !self.npm->0.managed->0.cached_package_reqs.deep_view().contains(package_req)
    }

    /// Whether the npm packages are managed and the folder of `package_req`
    /// is missing from the cache.
    pub fn is_package_missing(&self, package_req: &str) -> (missing: bool)
        ensures
            missing == self.lacks_package(package_req@),
    {
        match &self.npm {
            Some(npm) => match &npm.managed {
                Some(managed) => !contains_text(&managed.cached_package_reqs, package_req),
                None => false,
            },
            None => false,
        }
    }
}

/// The settings that decide whether a document is diagnosed.
#[derive(Clone, Copy, Debug, PartialEq, Eq, Structural)]
pub struct WorkspaceSettings {
    pub enable: bool,
    pub lint: bool,
}

/// The settings of one document.
#[derive(Debug, PartialEq, Eq)]
pub struct ScopedSettings {
    pub specifier: ModuleSpecifier,
    pub settings: WorkspaceSettings,
}

impl Keyed for ScopedSettings {
    open spec fn key(&self) -> Seq<char> {
        self.specifier@
    }

    fn has_key(&self, specifier: &ModuleSpecifier) -> (found: bool) {
        self.specifier.same(specifier)
    }
}

/// The configuration as one batch sees it: the settings of the documents
/// that have their own, and those of all others.
#[derive(Debug, PartialEq, Eq)]
pub struct ConfigSnapshot {
    pub unscoped: WorkspaceSettings,
    pub scoped: Vec<ScopedSettings>,
}

impl ConfigSnapshot {
    /// The settings that hold for `specifier`.
    pub open spec fn settings_for(&self, specifier: Seq<char>) -> WorkspaceSettings {
        match row_of(self.scoped@, specifier) {
            Some(row) => row.settings,
            None => self.unscoped,
        }
    }

    /// The settings that hold for `specifier`.
    pub fn workspace_settings_for_specifier(&self, specifier: &ModuleSpecifier) -> (settings:
        WorkspaceSettings)
        ensures
            settings == self.settings_for(specifier@),
    {
        match find_row(&self.scoped, specifier) {
            Some(row) => row.settings,
            None => self.unscoped,
        }
    }

    /// Whether diagnostics are wanted for `specifier`.
    pub fn specifier_enabled(&self, specifier: &ModuleSpecifier) -> (enabled: bool)
        ensures
            enabled == self.settings_for(specifier@).enable,
    {
        self.workspace_settings_for_specifier(specifier).enable
    }
}

/// The linter's options: the documents that its file patterns leave out.
#[derive(Debug, PartialEq, Eq)]
pub struct LintOptions {
    pub excluded: Vec<ModuleSpecifier>,
}

impl LintOptions {
    /// Whether the file patterns let the linter see `specifier`.
    pub fn matches_specifier(&self, specifier: &ModuleSpecifier) -> (matches: bool)
        ensures
            matches == !self.excluded.deep_view().contains(specifier@),
    {
        !contains_specifier(&self.excluded, specifier)
    }
}

} // verus!
