//! The module analysis: the diagnostics that the dependencies of the open
//! documents give rise to.

use vstd::prelude::*;
use tokio_util::sync::CancellationToken;
use crate::cancellation::should_stop;
use crate::deno_diagnostic::lsp_diagnostic;
use crate::deno_diagnostic::DenoDiagnostic;
use crate::deno_diagnostic::DenoDiagnosticView;
use crate::deno_diagnostic::SloppyView;
use crate::model::range_includes;
use crate::model::Diagnostic;
use crate::model::DiagnosticRecord;
use crate::model::DiagnosticView;
use crate::model::Range;
use crate::model::RecordView;
use crate::model::VersionedDiagnostics;
use crate::model::VersionedView;
use crate::import_maps::import_map_contents;
use crate::import_maps::import_map_lookup;
use crate::import_maps::lookup;
use crate::import_maps::resolves_if_sound;
use crate::import_maps::sound_resolves;
use crate::npm::npm_req;
use crate::npm::npm_req_of_specifier;
use crate::npm::package_req_from_str;
use crate::npm::stated_package_req;
use crate::snapshot::contains_text;
use crate::snapshot::find_row;
use crate::snapshot::row_of;
use crate::snapshot::ConfigSnapshot;
use crate::snapshot::Dependency;
use crate::snapshot::DependencyEntry;
use crate::snapshot::Document;
use crate::snapshot::Import;
use crate::snapshot::MediaType;
use crate::snapshot::Resolution;
use crate::snapshot::StateSnapshot;
use crate::specifier::has_scheme;
use crate::specifier::url_serialization;
use crate::specifier::ModuleSpecifier;
use crate::text::str_eq;
use crate::text::strip_prefix;
use crate::text::without_prefix;

verus! {

/// The warning that the cached resource of `specifier` came with, as a
/// diagnostic.
pub open spec fn warning_diagnostics(snapshot: StateSnapshot, specifier: Seq<char>) -> Seq<
    DenoDiagnosticView,
> {
    match row_of(snapshot.cache_metadata@, specifier) {
        Some(warning) => seq![DenoDiagnosticView::DenoWarn(warning.message@)],
        None => Seq::empty(),
    }
}

/// What is wrong with the attribute type of an import of a JSON module:
/// nothing where it is `json`, nor where a dynamic import has none.
pub open spec fn attribute_diagnostics(is_dynamic: bool, attribute_type: Option<Seq<char>>) -> Seq<
    DenoDiagnosticView,
> {
    match attribute_type {
        Some(given) => if given == "json"@ {
            Seq::empty()
        } else {
            seq![DenoDiagnosticView::InvalidAttributeType(given)]
        },
        None => if is_dynamic {
            Seq::empty()
        } else {
            seq![DenoDiagnosticView::NoAttributeType]
        },
    }
}

/// What is to be said of a specifier that the store has a document for: a
/// redirect where the document goes by another specifier, and what is wrong
/// with the import's attribute type where the document is JSON.
pub open spec fn document_diagnostics(
    specifier: Seq<char>,
    document: Document,
    is_dynamic: bool,
    attribute_type: Option<Seq<char>>,
) -> Seq<DenoDiagnosticView> {
    (if document.specifier@ != specifier {
        seq![DenoDiagnosticView::Redirect { from: specifier, to: document.specifier@ }]
    } else {
        Seq::empty()
    }) + (if document.media_type == MediaType::Json {
        attribute_diagnostics(is_dynamic, attribute_type)
    } else {
        Seq::empty()
    })
}

/// The requirement and the specifier of the package that declares the
/// types of the Node built-ins.
#[derive(Debug, PartialEq, Eq)]
pub struct TypesNode {
    pub package_req: String,
    pub specifier: ModuleSpecifier,
}

/// What the parsers of package references and the import map answer about
/// a specifier that the store has no document for.
#[derive(Debug, PartialEq, Eq)]
pub struct SpecifierAnswers {
    /// The requirement of the npm package that the specifier refers to,
    /// where it refers to one.
    pub npm_req: Option<String>,
    /// Whether the specifier names a built-in Node module that the
    /// document wrote bare and that the import map resolves as written.
    pub import_mapped: bool,
    /// The package that declares the types of the Node built-ins.
    pub types_node: Option<TypesNode>,
}

/// What a [`TypesNode`] holds.
pub struct TypesNodeView {
    pub package_req: Seq<char>,
    pub specifier: Seq<char>,
}

/// What a [`SpecifierAnswers`] holds.
pub struct AnswersView {
    pub npm_req: Option<Seq<char>>,
    pub import_mapped: bool,
    pub types_node: Option<TypesNodeView>,
}

impl DeepView for TypesNode {
    type V = TypesNodeView;

    open spec fn deep_view(&self) -> TypesNodeView {
        TypesNodeView { package_req: self.package_req@, specifier: self.specifier@ }
    }
}

impl View for TypesNode {
    type V = TypesNodeView;

    open spec fn view(&self) -> TypesNodeView {
        self.deep_view()
    }
}

impl DeepView for SpecifierAnswers {
    type V = AnswersView;

    open spec fn deep_view(&self) -> AnswersView {
        AnswersView {
            npm_req: self.npm_req.deep_view(),
            import_mapped: self.import_mapped,
            types_node: self.types_node.deep_view(),
        }
    }
}

impl View for SpecifierAnswers {
    type V = AnswersView;

    open spec fn view(&self) -> AnswersView {
        self.deep_view()
    }
}

/// Whether the import map is asked about a `node:` specifier and resolves
/// its module name as the document wrote it. The map is asked only about
/// the name of a built-in module that the document wrote bare, and only
/// where it can be asked for the specifier; where it cannot, the name
/// counts as one that it does not resolve.
pub open spec fn is_import_mapped(
    snapshot: StateSnapshot,
    dependency_key: Seq<char>,
    specifier: Seq<char>,
) -> bool {
    &&& snapshot.maybe_import_map is Some
    &&& without_prefix(specifier, "node:"@) is Some
    &&& snapshot.node_builtin_modules.deep_view().contains(without_prefix(specifier, "node:"@)->0)
    &&& without_prefix(specifier, "node:"@)->0 == dependency_key
    &&& sound_resolves(
        import_map_contents(snapshot.maybe_import_map->0),
        dependency_key,
        specifier,
    ) == Some(true)
}

/// The package that declares the types of the Node built-ins, as the
/// parsers of requirements and of URLs read its two texts.
pub open spec fn types_node() -> Option<TypesNodeView> {
    match (stated_package_req("@types/node"@), url_serialization("npm:@types/node"@)) {
        (Some(package_req), Some(specifier)) => Some(TypesNodeView { package_req, specifier }),
        _ => None,
    }
}

/// The answers about `specifier`, which a document wrote as
/// `dependency_key`.
pub open spec fn answers_of(
    snapshot: StateSnapshot,
    dependency_key: Seq<char>,
    specifier: Seq<char>,
) -> AnswersView {
    AnswersView {
        npm_req: npm_req(specifier),
        import_mapped: is_import_mapped(snapshot, dependency_key, specifier),
        types_node: types_node(),
    }
}

/// That the type declarations of the Node built-ins are not installed,
/// where the npm packages are managed and that is so.
pub open spec fn types_node_diagnostics(snapshot: StateSnapshot, answers: AnswersView) -> Seq<
    DenoDiagnosticView,
> {
    match answers.types_node {
        Some(types) => if snapshot.lacks_package(types.package_req) {
            seq![DenoDiagnosticView::NoCacheNpm(types.package_req, types.specifier)]
        } else {
            Seq::empty()
        },
        None => Seq::empty(),
    }
}

/// What is to be said of a `node:` specifier that names `module_name`: that
/// the name is no built-in module; else, where the document wrote the bare
/// name and no import map resolves it, that the prefix is missing; else
/// that the type declarations are not installed, where that is so.
pub open spec fn node_diagnostics(
    snapshot: StateSnapshot,
    dependency_key: Seq<char>,
    specifier: Seq<char>,
    module_name: Seq<char>,
    answers: AnswersView,
) -> Seq<DenoDiagnosticView> {
    if !snapshot.node_builtin_modules.deep_view().contains(module_name) {
        seq![DenoDiagnosticView::InvalidNodeSpecifier(specifier)]
    } else if module_name == dependency_key && !answers.import_mapped {
        seq![DenoDiagnosticView::BareNodeSpecifier(module_name)]
    } else {
        types_node_diagnostics(snapshot, answers)
    }
}

/// The file that would resolve in place of `specifier`, where one was
/// found.
pub open spec fn sloppy_resolution(snapshot: StateSnapshot, specifier: Seq<char>) -> Option<
    SloppyView,
> {
    match row_of(snapshot.sloppy_imports@, specifier) {
        Some(found) => Some(found.resolution@),
        None => None,
    }
}

/// What is to be said of a specifier that the store has no document for,
/// given the answers about it: nothing under the scheme `jsr`; for an npm
/// package, that it is not installed, where the packages are managed and
/// that is so; for a `node:` specifier, see [`node_diagnostics`]; else that
/// the module is missing, locally under the scheme `file`, from the cache
/// under any other.
pub open spec fn missing_diagnostics(
    snapshot: StateSnapshot,
    dependency_key: Seq<char>,
    specifier: Seq<char>,
    answers: AnswersView,
) -> Seq<DenoDiagnosticView> {
    if has_scheme(specifier, "jsr"@) {
        Seq::empty()
    } else if answers.npm_req is Some {
        if snapshot.lacks_package(answers.npm_req->0) {
            seq![DenoDiagnosticView::NoCacheNpm(answers.npm_req->0, specifier)]
        } else {
            Seq::empty()
        }
    } else if without_prefix(specifier, "node:"@) is Some {
        node_diagnostics(
            snapshot,
            dependency_key,
            specifier,
            without_prefix(specifier, "node:"@)->0,
            answers,
        )
    } else if has_scheme(specifier, "file"@) {
        seq![DenoDiagnosticView::NoLocal(specifier, sloppy_resolution(snapshot, specifier))]
    } else {
        seq![DenoDiagnosticView::NoCache(specifier)]
    }
}

/// The diagnostics of one resolution of a dependency.
pub open spec fn resolution_diagnostics(
    snapshot: StateSnapshot,
    dependency_key: Seq<char>,
    resolution: Resolution,
    is_dynamic: bool,
    attribute_type: Option<Seq<char>>,
) -> Seq<DenoDiagnosticView> {
    match resolution {
        Resolution::Resolved(resolved) => warning_diagnostics(snapshot, resolved.specifier@)
            + match snapshot.documents.document_for(resolved.specifier@) {
            Some(document) => document_diagnostics(
                resolved.specifier@,
                document,
                is_dynamic,
                attribute_type,
            ),
            None => missing_diagnostics(
                snapshot,
                dependency_key,
                resolved.specifier@,
                answers_of(snapshot, dependency_key, resolved.specifier@),
            ),
        },
        Resolution::Failed(error) => seq![DenoDiagnosticView::ResolutionError(error@)],
        Resolution::Unresolved => Seq::empty(),
    }
}

fn push_diagnostic(diagnostics: &mut Vec<DenoDiagnostic>, diagnostic: DenoDiagnostic)
    ensures
        final(diagnostics).deep_view() == old(diagnostics).deep_view() + seq![diagnostic@],
{
    diagnostics.push(diagnostic);
}

fn ask_types_node() -> (types: Option<TypesNode>)
    ensures
        types.deep_view() == types_node(),
{
    match package_req_from_str("@types/node") {
        Some(package_req) => match ModuleSpecifier::parse("npm:@types/node") {
            Some(specifier) => Some(TypesNode { package_req, specifier }),
            None => None,
        },
        None => None,
    }
}

fn ask_import_map(snapshot: &StateSnapshot, dependency_key: &str, specifier: &ModuleSpecifier) -> (
    mapped: bool)
    ensures
        mapped == is_import_mapped(*snapshot, dependency_key@, specifier@),
{
    match &snapshot.maybe_import_map {
        Some(import_map) => match strip_prefix(specifier.as_str(), "node:") {
            Some(module_name) => {
                if contains_text(&snapshot.node_builtin_modules, module_name.as_str()) && str_eq(
                    module_name.as_str(),
                    dependency_key,
                ) {
                    match resolves_if_sound(import_map, dependency_key, specifier) {
                        Some(resolved) => resolved,
                        None => false,
                    }
                } else {
                    false
                }
            },
            None => false,
        },
        None => false,
    }
}

/// Asks the parsers of package references and the import map about a
/// specifier that the store has no document for and that a document wrote
/// as `dependency_key`. The import map is asked only about the name of a
/// built-in Node module that the document wrote bare.
pub fn ask_about_specifier(
    snapshot: &StateSnapshot,
    dependency_key: &str,
    specifier: &ModuleSpecifier,
) -> (answers: SpecifierAnswers)
    ensures
        answers@ == answers_of(*snapshot, dependency_key@, specifier@),
{
    SpecifierAnswers {
        npm_req: npm_req_of_specifier(specifier),
        import_mapped: ask_import_map(snapshot, dependency_key, specifier),
        types_node: ask_types_node(),
    }
}

fn diagnose_types_node(
    snapshot: &StateSnapshot,
    answers: SpecifierAnswers,
    diagnostics: &mut Vec<DenoDiagnostic>,
)
    ensures
        final(diagnostics).deep_view() == old(diagnostics).deep_view() + types_node_diagnostics(
            *snapshot,
            answers@,
        ),
{
    match answers.types_node {
        Some(types) => {
            if snapshot.is_package_missing(types.package_req.as_str()) {
                push_diagnostic(
                    diagnostics,
                    DenoDiagnostic::NoCacheNpm(types.package_req, types.specifier),
                );
            }
        },
        None => {},
    }
}

fn diagnose_node(
    snapshot: &StateSnapshot,
    dependency_key: &str,
    specifier: &ModuleSpecifier,
    module_name: String,
    answers: SpecifierAnswers,
    diagnostics: &mut Vec<DenoDiagnostic>,
)
    ensures
        final(diagnostics).deep_view() == old(diagnostics).deep_view() + node_diagnostics(
            *snapshot,
            dependency_key@,
            specifier@,
            module_name@,
            answers@,
        ),
{
    if !contains_text(&snapshot.node_builtin_modules, module_name.as_str()) {
        push_diagnostic(diagnostics, DenoDiagnostic::InvalidNodeSpecifier(specifier.clone()));
    } else if str_eq(module_name.as_str(), dependency_key) && !answers.import_mapped {
        push_diagnostic(diagnostics, DenoDiagnostic::BareNodeSpecifier(module_name));
    } else {
        diagnose_types_node(snapshot, answers, diagnostics);
    }
}

/// What is to be said of a specifier that the store has no document for,
/// given the answers about it.
pub fn diagnose_missing(
    snapshot: &StateSnapshot,
    dependency_key: &str,
    specifier: &ModuleSpecifier,
    answers: SpecifierAnswers,
) -> (diagnostics: Vec<DenoDiagnostic>)
    ensures
        diagnostics.deep_view() == missing_diagnostics(
            *snapshot,
            dependency_key@,
            specifier@,
            answers@,
        ),
{
    let mut diagnostics: Vec<DenoDiagnostic> = Vec::new();
    if specifier.has_scheme("jsr") {
        return diagnostics;
    }
    let SpecifierAnswers { npm_req, import_mapped, types_node } = answers;
    match npm_req {
        Some(req) => {
            if snapshot.is_package_missing(req.as_str()) {
                push_diagnostic(
                    &mut diagnostics,
                    DenoDiagnostic::NoCacheNpm(req, specifier.clone()),
                );
            }
            return diagnostics;
        },
        None => {},
    }
    match strip_prefix(specifier.as_str(), "node:") {
        Some(module_name) => {
            let rest = SpecifierAnswers { npm_req: None, import_mapped, types_node };
            diagnose_node(
                snapshot,
                dependency_key,
                specifier,
                module_name,
                rest,
                &mut diagnostics,
            );
            return diagnostics;
        },
        None => {},
    }
    if specifier.has_scheme("file") {
        let sloppy = match find_row(&snapshot.sloppy_imports, specifier) {
            Some(found) => Some(found.resolution.clone()),
            None => None,
        };
        push_diagnostic(&mut diagnostics, DenoDiagnostic::NoLocal(specifier.clone(), sloppy));
    } else {
        push_diagnostic(&mut diagnostics, DenoDiagnostic::NoCache(specifier.clone()));
    }
    diagnostics
}

fn append_diagnostics(diagnostics: &mut Vec<DenoDiagnostic>, more: Vec<DenoDiagnostic>)
    ensures
        final(diagnostics).deep_view() == old(diagnostics).deep_view() + more.deep_view(),
{
    let mut more = more;
    diagnostics.append(&mut more);
}

fn diagnose_document(
    specifier: &ModuleSpecifier,
    document: &Document,
    is_dynamic: bool,
    maybe_assert_type: Option<&str>,
    diagnostics: &mut Vec<DenoDiagnostic>,
)
    ensures
        final(diagnostics).deep_view() == old(diagnostics).deep_view() + document_diagnostics(
            specifier@,
            *document,
            is_dynamic,
            maybe_assert_type.deep_view(),
        ),
{
    if !document.specifier.same(specifier) {
        push_diagnostic(
            diagnostics,
            DenoDiagnostic::Redirect { from: specifier.clone(), to: document.specifier.clone() },
        );
    }
    match document.media_type {
        MediaType::Json => {
            match maybe_assert_type {
                Some(assert_type) => {
                    if !str_eq(assert_type, "json") {
                        push_diagnostic(
                            diagnostics,
                            DenoDiagnostic::InvalidAttributeType(String::from_str(assert_type)),
                        );
                    }
                },
                None => {
                    if !is_dynamic {
                        push_diagnostic(diagnostics, DenoDiagnostic::NoAttributeType);
                    }
                },
            }
        },
        _ => {},
    }
}

/// The diagnostics of one resolution of a dependency: its failure where it
/// failed; else the warning that its resource came with, and what the
/// document store, the npm resolver, the Node built-ins and the import map
/// have to say of the resolved specifier.
pub fn diagnose_resolution(
    snapshot: &StateSnapshot,
    dependency_key: &str,
    resolution: &Resolution,
    is_dynamic: bool,
    maybe_assert_type: Option<&str>,
) -> (diagnostics: Vec<DenoDiagnostic>)
    ensures
        diagnostics.deep_view() == resolution_diagnostics(
            *snapshot,
            dependency_key@,
            *resolution,
            is_dynamic,
            maybe_assert_type.deep_view(),
        ),
{
    let mut diagnostics: Vec<DenoDiagnostic> = Vec::new();
    match resolution {
        Resolution::Resolved(resolved) => {
            let specifier = &resolved.specifier;
            match find_row(&snapshot.cache_metadata, specifier) {
                Some(warning) => {
                    push_diagnostic(
                        &mut diagnostics,
                        DenoDiagnostic::DenoWarn(warning.message.clone()),
                    );
                },
                None => {},
            }
            match snapshot.documents.get(specifier) {
                Some(document) => {
                    diagnose_document(
                        specifier,
                        document,
                        is_dynamic,
                        maybe_assert_type,
                        &mut diagnostics,
                    );
                },
                None => {
                    let answers = ask_about_specifier(snapshot, dependency_key, specifier);
                    let missing = diagnose_missing(snapshot, dependency_key, specifier, answers);
                    append_diagnostics(&mut diagnostics, missing);
                },
            }
        },
        Resolution::Failed(error) => {
            push_diagnostic(&mut diagnostics, DenoDiagnostic::ResolutionError(error.clone()));
        },
        Resolution::Unresolved => {},
    }
    diagnostics
}

/// One diagnostic at each of `ranges`, in their order.
pub open spec fn at_ranges(diagnostic: DenoDiagnosticView, ranges: Seq<Range>) -> Seq<
    DiagnosticView,
> {
    Seq::new(ranges.len(), |i: int| lsp_diagnostic(diagnostic, ranges[i]))
}

/// Each of `diagnostics`, in their order, at each of `ranges`.
pub open spec fn spread(diagnostics: Seq<DenoDiagnosticView>, ranges: Seq<Range>) -> Seq<
    DiagnosticView,
>
    decreases diagnostics.len(),
{
    if diagnostics.len() == 0 {
        Seq::empty()
    } else {
        spread(diagnostics.drop_last(), ranges) + at_ranges(diagnostics.last(), ranges)
    }
}

/// The places of the specifiers of `imports`.
pub open spec fn import_ranges(imports: Seq<Import>) -> Seq<Range> {
    Seq::new(imports.len(), |i: int| imports[i].range)
}

/// The hint that a specifier can be written shorter, as `shortened` has it:
/// none where the import map has no shorter form, nor where the document
/// wrote that form.
pub open spec fn remap_hint(
    dependency_key: Seq<char>,
    shortened: Option<Seq<char>>,
    range: Range,
) -> Seq<DiagnosticView> {
    match shortened {
        Some(to) => if dependency_key != to {
            seq![
                lsp_diagnostic(
                    DenoDiagnosticView::ImportMapRemap { from: dependency_key, to },
                    range,
                ),
            ]
        } else {
            Seq::empty()
        },
        None => Seq::empty(),
    }
}

/// The hint that the import map has a shorter form for the code side of a
/// dependency than the document wrote.
pub open spec fn remap_diagnostics(
    snapshot: StateSnapshot,
    referrer: Seq<char>,
    dependency_key: Seq<char>,
    maybe_code: Resolution,
) -> Seq<DiagnosticView> {
    match (snapshot.maybe_import_map, maybe_code) {
        (Some(import_map), Resolution::Resolved(resolved)) => remap_hint(
            dependency_key,
            import_map_lookup(import_map_contents(import_map), resolved.specifier@, referrer),
            resolved.range,
        ),
        _ => Seq::empty(),
    }
}

/// The side of a dependency that speaks for it: its code side, or its type
/// side where it has no code side.
pub open spec fn principal(dependency: Dependency) -> Resolution {
    if dependency.maybe_code is Unresolved {
        dependency.maybe_type
    } else {
        dependency.maybe_code
    }
}

/// The place of the specifier of a resolution.
pub open spec fn resolution_range(resolution: Resolution) -> Option<Range> {
    match resolution {
        Resolution::Resolved(resolved) => Some(resolved.range),
        Resolution::Failed(error) => Some(error.range),
        Resolution::Unresolved => None,
    }
}

/// Whether the type side of a dependency stands apart from its imports: it
/// is there, and no import begins inside the place of its specifier.
pub open spec fn has_split_type(dependency: Dependency) -> bool {
    resolution_range(dependency.maybe_type) is Some && forall|i: int|
        0 <= i < dependency.imports.len() ==> !range_includes(
            resolution_range(dependency.maybe_type)->0,
            (#[trigger] dependency.imports@[i]).range.start,
        )
}

/// The diagnostics of a type side that stands apart from the imports, at
/// the place of its own specifier.
pub open spec fn split_type_diagnostics(
    snapshot: StateSnapshot,
    dependency_key: Seq<char>,
    dependency: Dependency,
) -> Seq<DiagnosticView> {
    if has_split_type(dependency) {
        spread(
            resolution_diagnostics(
                snapshot,
                dependency_key,
                dependency.maybe_type,
                dependency.is_dynamic,
                dependency.maybe_attribute_type.deep_view(),
            ),
            seq![resolution_range(dependency.maybe_type)->0],
        )
    } else {
        Seq::empty()
    }
}

/// The diagnostics of one dependency of the document `referrer`: none for a
/// document inside an npm package; else the import map's hint, the
/// diagnostics of the principal resolution at every import of the
/// dependency, and those of a type side that stands apart.
pub open spec fn dependency_diagnostics(
    snapshot: StateSnapshot,
    referrer: Seq<char>,
    dependency_key: Seq<char>,
    dependency: Dependency,
) -> Seq<DiagnosticView> {
    if snapshot.is_in_npm_package(referrer) {
        Seq::empty()
    } else {
        remap_diagnostics(snapshot, referrer, dependency_key, dependency.maybe_code) + spread(
            resolution_diagnostics(
                snapshot,
                dependency_key,
                principal(dependency),
                dependency.is_dynamic,
                dependency.maybe_attribute_type.deep_view(),
            ),
            import_ranges(dependency.imports@),
        ) + split_type_diagnostics(snapshot, dependency_key, dependency)
    }
}

/// The hint that a specifier can be written shorter, given the form that
/// the import map has for it.
pub fn import_map_remap(dependency_key: &str, shortened: Option<String>, range: &Range) -> (hint:
    Option<Diagnostic>)
    ensures
        match hint {
            Some(diagnostic) => remap_hint(dependency_key@, shortened.deep_view(), *range)
                == seq![diagnostic@],
            None => remap_hint(dependency_key@, shortened.deep_view(), *range) == Seq::<
                DiagnosticView,
            >::empty(),
        },
{
    match shortened {
        Some(to) => {
            if !str_eq(dependency_key, to.as_str()) {
                let remap = DenoDiagnostic::ImportMapRemap {
                    from: String::from_str(dependency_key),
                    to,
                };
                Some(remap.to_lsp_diagnostic(range))
            } else {
                None
            }
        },
        None => None,
    }
}

fn push_lsp(diagnostics: &mut Vec<Diagnostic>, diagnostic: Diagnostic)
    ensures
        final(diagnostics).deep_view() == old(diagnostics).deep_view() + seq![diagnostic@],
{
    diagnostics.push(diagnostic);
}

fn push_spread(
    diagnostics: &mut Vec<Diagnostic>,
    found: &Vec<DenoDiagnostic>,
    ranges: &Vec<Range>,
)
    ensures
        final(diagnostics).deep_view() == old(diagnostics).deep_view() + spread(
            found.deep_view(),
            ranges@,
        ),
{
    let ghost start = diagnostics.deep_view();
    let mut i: usize = 0;
    while i < found.len()
        invariant
            i <= found.len(),
            diagnostics.deep_view() == start + spread(found.deep_view().take(i as int), ranges@),
        decreases found.len() - i,
    {
        let ghost before = diagnostics.deep_view();
        let mut j: usize = 0;
        while j < ranges.len()
            invariant
                j <= ranges.len(),
                i < found.len(),
                diagnostics.deep_view() == before + at_ranges(
                    found[i as int]@,
                    ranges@.take(j as int),
                ),
            decreases ranges.len() - j,
        {
            push_lsp(diagnostics, found[i].to_lsp_diagnostic(&ranges[j]));
            j += 1;
        }
        proof {
            let next = found.deep_view().take(i + 1);
            assert(next.drop_last() =~= found.deep_view().take(i as int));
        }
        i += 1;
    }
    proof {
        assert(found.deep_view().take(found.len() as int) =~= found.deep_view());
    }
}

fn range_of(resolution: &Resolution) -> (range: Option<Range>)
    ensures
        range == resolution_range(*resolution),
{
    match resolution {
        Resolution::Resolved(resolved) => Some(resolved.range),
        Resolution::Failed(error) => Some(error.range),
        Resolution::Unresolved => None,
    }
}

fn any_import_inside(imports: &Vec<Import>, range: &Range) -> (inside: bool)
    ensures
        inside == exists|i: int|
            0 <= i < imports.len() && range_includes(*range, (#[trigger] imports@[i]).range.start),
{
    let mut i: usize = 0;
    while i < imports.len()
        invariant
            i <= imports.len(),
            forall|j: int|
                0 <= j < i ==> !range_includes(*range, (#[trigger] imports@[j]).range.start),
        decreases imports.len() - i,
    {
        if range.includes(imports[i].range.start) {
            return true;
        }
        i += 1;
    }
    false
}

fn attribute_type_of(dependency: &Dependency) -> (attribute_type: Option<&str>)
    ensures
        attribute_type.deep_view() == dependency.maybe_attribute_type.deep_view(),
{
    match &dependency.maybe_attribute_type {
        Some(text) => Some(text.as_str()),
        None => None,
    }
}

/// Adds the diagnostics of one dependency of the document `referrer`: the
/// import map's hint, the diagnostics of the principal resolution at every
/// import of the dependency, and those of a type side that stands apart
/// from the imports; nothing for a document inside an npm package.
pub fn diagnose_dependency(
    diagnostics: &mut Vec<Diagnostic>,
    snapshot: &StateSnapshot,
    referrer: &ModuleSpecifier,
    dependency_key: &str,
    dependency: &Dependency,
)
    ensures
        final(diagnostics).deep_view() == old(diagnostics).deep_view() + dependency_diagnostics(
            *snapshot,
            referrer@,
            dependency_key@,
            *dependency,
        ),
{
    if snapshot.in_npm_package(referrer) {
        return ;
    }
    match (&snapshot.maybe_import_map, &dependency.maybe_code) {
        (Some(import_map), Resolution::Resolved(resolved)) => {
            let shortened = lookup(import_map, &resolved.specifier, referrer);
            match import_map_remap(dependency_key, shortened, &resolved.range) {
                Some(hint) => {
                    push_lsp(diagnostics, hint);
                },
                None => {},
            }
        },
        _ => {},
    }
    let mut ranges: Vec<Range> = Vec::new();
    let mut i: usize = 0;
    while i < dependency.imports.len()
        invariant
            i <= dependency.imports.len(),
            ranges@ == import_ranges(dependency.imports@.take(i as int)),
        decreases dependency.imports.len() - i,
    {
        ranges.push(dependency.imports[i].range);
        i += 1;
    }
    assert(dependency.imports@.take(dependency.imports.len() as int) =~= dependency.imports@);
    let attribute_type = attribute_type_of(dependency);
    let found = match &dependency.maybe_code {
        Resolution::Unresolved => diagnose_resolution(
            snapshot,
            dependency_key,
            &dependency.maybe_type,
            dependency.is_dynamic,
            attribute_type,
        ),
        _ => diagnose_resolution(
            snapshot,
            dependency_key,
            &dependency.maybe_code,
            dependency.is_dynamic,
            attribute_type,
        ),
    };
    push_spread(diagnostics, &found, &ranges);
    match range_of(&dependency.maybe_type) {
        Some(range) => {
            if !any_import_inside(&dependency.imports, &range) {
                let found = diagnose_resolution(
                    snapshot,
                    dependency_key,
                    &dependency.maybe_type,
                    dependency.is_dynamic,
                    attribute_type,
                );
                let mut only: Vec<Range> = Vec::new();
                only.push(range);
                push_spread(diagnostics, &found, &only);
            }
        },
        None => {},
    }
}

/// The diagnostics of the dependencies of `entries`, one dependency after
/// the other.
pub open spec fn dependencies_diagnostics(
    snapshot: StateSnapshot,
    referrer: Seq<char>,
    entries: Seq<DependencyEntry>,
) -> Seq<DiagnosticView>
    decreases entries.len(),
{
    if entries.len() == 0 {
        Seq::empty()
    } else {
        dependencies_diagnostics(snapshot, referrer, entries.drop_last()) + dependency_diagnostics(
            snapshot,
            referrer,
            entries.last().key@,
            entries.last().dependency,
        )
    }
}

/// The record of the module analysis for one document: under the
/// document's version, the diagnostics of its dependencies where
/// diagnostics are wanted for it, else none.
pub open spec fn deno_record(snapshot: StateSnapshot, config: ConfigSnapshot, document: Document)
    -> RecordView {
    RecordView {
        specifier: document.specifier@,
        versioned: VersionedView {
            version: document.version,
            diagnostics: if config.settings_for(document.specifier@).enable {
                dependencies_diagnostics(snapshot, document.specifier@, document.dependencies@)
            } else {
                Seq::empty()
            },
        },
    }
}

/// The records of the module analysis for those of `documents` that are
/// open and diagnosable, in their order.
pub open spec fn deno_records(
    snapshot: StateSnapshot,
    config: ConfigSnapshot,
    documents: Seq<Document>,
) -> Seq<RecordView>
    decreases documents.len(),
{
    if documents.len() == 0 {
        Seq::empty()
    } else {
        let before = deno_records(snapshot, config, documents.drop_last());
        if documents.last().open_diagnosable {
            before.push(deno_record(snapshot, config, documents.last()))
        } else {
            before
        }
    }
}

/// The record of the module analysis for one document.
pub fn generate_document_deno_diagnostics(
    snapshot: &StateSnapshot,
    config: &ConfigSnapshot,
    document: &Document,
) -> (record: DiagnosticRecord)
    ensures
        record@ == deno_record(*snapshot, *config, *document),
{
    let mut diagnostics: Vec<Diagnostic> = Vec::new();
    assert(diagnostics.deep_view() =~= Seq::<DiagnosticView>::empty());
    let specifier = &document.specifier;
    if config.specifier_enabled(specifier) {
        let mut i: usize = 0;
        while i < document.dependencies.len()
            invariant
                i <= document.dependencies.len(),
                specifier@ == document.specifier@,
                diagnostics.deep_view() == dependencies_diagnostics(
                    *snapshot,
                    document.specifier@,
                    document.dependencies@.take(i as int),
                ),
            decreases document.dependencies.len() - i,
        {
            let entry = &document.dependencies[i];
            diagnose_dependency(
                &mut diagnostics,
                snapshot,
                specifier,
                entry.key.as_str(),
                &entry.dependency,
            );
            proof {
                let next = document.dependencies@.take(i + 1);
                assert(next.drop_last() =~= document.dependencies@.take(i as int));
            }
            i += 1;
        }
        assert(document.dependencies@.take(document.dependencies.len() as int)
            =~= document.dependencies@);
    }
    DiagnosticRecord {
        specifier: specifier.clone(),
        versioned: VersionedDiagnostics { version: document.version, diagnostics },
    }
}

/// The records of the module analysis: one for each open diagnosable
/// document, in the store's order. The token is asked before each such
/// document; once it says that the batch is cancelled, no further record is
/// made.
pub fn generate_deno_diagnostics(
    snapshot: &StateSnapshot,
    config: &ConfigSnapshot,
    token: Option<&CancellationToken>,
) -> (records: Vec<DiagnosticRecord>)
    ensures
        exists|done: int|
            0 <= done <= snapshot.documents.documents.len() && records.deep_view()
                == #[trigger] deno_records(
                *snapshot,
                *config,
                snapshot.documents.documents@.take(done),
            ),
        token is None ==> records.deep_view() == deno_records(
            *snapshot,
            *config,
            snapshot.documents.documents@,
        ),
{
    let documents = &snapshot.documents.documents;
    let mut records: Vec<DiagnosticRecord> = Vec::new();
    let mut i: usize = 0;
    let mut stopped = false;
    while i < documents.len() && !stopped
        invariant
            i <= documents.len(),
            documents == &snapshot.documents.documents,
            stopped ==> token is Some,
            records.deep_view() == deno_records(*snapshot, *config, documents@.take(i as int)),
        decreases
                documents.len() - i + (if stopped {
                    0int
                } else {
                    1int
                }),
    {
        let document = &documents[i];
        proof {
            let next = documents@.take(i + 1);
            assert(next.drop_last() =~= documents@.take(i as int));
        }
        if !document.open_diagnosable {
            i += 1;
        } else if should_stop(token) {
            stopped = true;
        } else {
            let record = generate_document_deno_diagnostics(snapshot, config, document);
            records.push(record);
            i += 1;
        }
    }
    proof {
        if !stopped {
            assert(documents@.take(documents.len() as int) =~= documents@);
        }
    }
    records
}

} // verus!
