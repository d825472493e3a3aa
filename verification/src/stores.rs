//! What the engine remembers between batches: the last type diagnostics of
//! each document, the documents that wait on the cache, and the batch counter.

use vstd::prelude::*;
use crate::model::clone_diagnostics;
use crate::model::CodeView;
use crate::model::Diagnostic;
use crate::model::DiagnosticRecord;
use crate::model::DiagnosticView;
use crate::model::NumberOrString;
use crate::model::RecordView;
use crate::model::VersionedDiagnostics;
use crate::model::VersionedView;
use crate::specifier::ModuleSpecifier;
use crate::table::SpecifierMap;
use crate::text::str_eq;

verus! {

/// What a read of the type diagnostics gives: the stored list where the
/// stored version is the one asked for, else nothing.
pub open spec fn ts_lookup(
    store: Map<Seq<char>, VersionedView>,
    specifier: Seq<char>,
    version: Option<i32>,
) -> Seq<DiagnosticView> {
    if store.contains_key(specifier) && store[specifier].version == version {
        store[specifier].diagnostics
    } else {
        Seq::empty()
    }
}

/// The store that a batch of records leaves: for each specifier its last
/// record.
pub open spec fn ts_batch(records: Seq<RecordView>) -> Map<Seq<char>, VersionedView>
    decreases records.len(),
{
    if records.len() == 0 {
        Map::empty()
    } else {
        ts_batch(records.drop_last()).insert(records.last().specifier, records.last().versioned)
    }
}

/// The type diagnostics last published for each document.
#[derive(Debug)]
pub struct TsDiagnosticsStore {
    entries: SpecifierMap<VersionedDiagnostics>,
}

impl View for TsDiagnosticsStore {
    type V = Map<Seq<char>, VersionedView>;

    closed spec fn view(&self) -> Map<Seq<char>, VersionedView> {
        self.entries.as_map().map_values(|versioned: VersionedDiagnostics| versioned@)
    }
}

impl Default for TsDiagnosticsStore {
    fn default() -> (store: Self)
        ensures
            store.wf(),
            store@ == Map::<Seq<char>, VersionedView>::empty(),
    {
        TsDiagnosticsStore::new()
    }
}

impl TsDiagnosticsStore {
    /// No specifier is stored twice.
    pub closed spec fn wf(&self) -> bool {
        self.entries.wf()
    }

    /// The empty store.
    pub fn new() -> (store: Self)
        ensures
            store.wf(),
            store@ == Map::<Seq<char>, VersionedView>::empty(),
    {
        let store = TsDiagnosticsStore { entries: SpecifierMap::new() };
        store
    }

    /// The type diagnostics of `specifier` if they were computed for
    /// `document_version`; nothing otherwise.
    pub fn get(&self, specifier: &ModuleSpecifier, document_version: Option<i32>) -> (diagnostics:
        Vec<Diagnostic>)
        requires
            self.wf(),
        ensures
            diagnostics.deep_view() == ts_lookup(self@, specifier@, document_version),
            diagnostics.len() > 0 ==> self@.contains_key(specifier@)
                && self@[specifier@].version == document_version,
    {
        match self.entries.position(specifier) {
            Some(i) => {
                let versioned = self.entries.value_at(i);
                if same_version(document_version, versioned.version) {
                    return clone_diagnostics(&versioned.diagnostics);
                }
            },
            None => {},
        }
        let nothing: Vec<Diagnostic> = Vec::new();
        nothing
    }

    /// Forgets the diagnostics of each of `specifiers`.
    pub fn invalidate(&mut self, specifiers: &[ModuleSpecifier])
        requires
            old(self).wf(),
        ensures
            final(self).wf(),
            final(self)@ == old(self)@.remove_keys(specifiers.deep_view().to_set()),
    {
        let mut i: usize = 0;
        while i < specifiers.len()
            invariant
                i <= specifiers.len(),
                self.entries.wf(),
                self@ == old(self)@.remove_keys(specifiers.deep_view().take(i as int).to_set()),
            decreases specifiers.len() - i,
        {
            let ghost before = self@;
            match self.entries.position(&specifiers[i]) {
                Some(at) => {
                    let _ = self.entries.remove_at(at);
                },
                None => {},
            }
            proof {
                let done = specifiers.deep_view().take(i as int);
                let next = specifiers.deep_view().take(i + 1);
                assert(next.to_set() =~= done.to_set().insert(specifiers[i as int]@)) by {
                    assert(next[i as int] == specifiers[i as int]@);
                }
                assert(self@ =~= before.remove(specifiers[i as int]@));
            }
            i += 1;
        }
        proof {
            assert(specifiers.deep_view().take(specifiers.len() as int) =~= specifiers.deep_view());
        }
    }

    /// Forgets everything.
    pub fn invalidate_all(&mut self)
        ensures
            final(self).wf(),
            final(self)@ == Map::<Seq<char>, VersionedView>::empty(),
    {
        self.entries.clear();
    }

    /// Replaces what is stored by the records of a batch; of two records for
    /// one specifier the later stays.
    pub fn update(&mut self, diagnostics: &Vec<DiagnosticRecord>)
        ensures
            final(self).wf(),
            final(self)@ == ts_batch(diagnostics.deep_view()),
    {
        self.entries.clear();
        let mut i: usize = 0;
        while i < diagnostics.len()
            invariant
                i <= diagnostics.len(),
                self.entries.wf(),
                self@ == ts_batch(diagnostics.deep_view().take(i as int)),
            decreases diagnostics.len() - i,
        {
            let record = &diagnostics[i];
            let versioned = record.versioned.clone();
            match self.entries.position(&record.specifier) {
                Some(at) => {
                    let _ = self.entries.replace_at(at, versioned);
                },
                None => {
                    self.entries.push(record.specifier.clone(), versioned);
                },
            }
            proof {
                let next = diagnostics.deep_view().take(i + 1);
                assert(next.drop_last() =~= diagnostics.deep_view().take(i as int));
            }
            i += 1;
        }
        proof {
            assert(diagnostics.deep_view().take(diagnostics.len() as int)
                =~= diagnostics.deep_view());
        }
    }
}

fn same_version(a: Option<i32>, b: Option<i32>) -> (same: bool)
    ensures
        same == (a == b),
{
    match (a, b) {
        (Some(x), Some(y)) => x == y,
        (None, None) => true,
        _ => false,
    }
}

/// Whether a diagnostic says that its document waits on the cache: its code
/// is the name `no-cache` or `no-cache-npm`.
pub open spec fn is_no_cache(diagnostic: DiagnosticView) -> bool {
    diagnostic.code == Some(CodeView::String("no-cache"@)) || diagnostic.code == Some(
        CodeView::String("no-cache-npm"@),
    )
}

/// Those of `diagnostics`, in their order, that say that the document waits
/// on the cache.
pub open spec fn no_cache_only(diagnostics: Seq<DiagnosticView>) -> Seq<DiagnosticView>
    decreases diagnostics.len(),
{
    if diagnostics.len() == 0 {
        Seq::empty()
    } else {
        let before = no_cache_only(diagnostics.drop_last());
        if is_no_cache(diagnostics.last()) {
            before.push(diagnostics.last())
        } else {
            before
        }
    }
}

/// What the state holds for one document.
#[derive(Debug)]
pub struct SpecifierState {
    version: Option<i32>,
    no_cache_diagnostics: Vec<Diagnostic>,
}

/// What a [`SpecifierState`] holds.
pub struct SpecifierStateView {
    pub version: Option<i32>,
    pub no_cache_diagnostics: Seq<DiagnosticView>,
}

impl View for SpecifierState {
    type V = SpecifierStateView;

    closed spec fn view(&self) -> SpecifierStateView {
        SpecifierStateView {
            version: self.version,
            no_cache_diagnostics: self.no_cache_diagnostics.deep_view(),
        }
    }
}

/// Whether an update tagged `version` comes too late for what is stored: a
/// version is stored for the specifier, the update has one, and it is lower.
pub open spec fn is_outdated(
    state: Map<Seq<char>, SpecifierStateView>,
    specifier: Seq<char>,
    version: Option<i32>,
) -> bool {
    state.contains_key(specifier) && state[specifier].version is Some && version is Some
        && version->0 < state[specifier].version->0
}

/// The state after an update: unchanged where the update is outdated, else
/// the specifier holds the new version and those of the diagnostics that say
/// that the document waits on the cache.
pub open spec fn state_after_update(
    state: Map<Seq<char>, SpecifierStateView>,
    specifier: Seq<char>,
    version: Option<i32>,
    diagnostics: Seq<DiagnosticView>,
) -> Map<Seq<char>, SpecifierStateView> {
    if is_outdated(state, specifier, version) {
        state
    } else {
        state.insert(
            specifier,
            SpecifierStateView {
                version,
                no_cache_diagnostics: no_cache_only(diagnostics),
            },
        )
    }
}

/// The no-cache diagnostics that the state holds for a specifier.
pub open spec fn no_cache_of(state: Map<Seq<char>, SpecifierStateView>, specifier: Seq<char>) -> Seq<
    DiagnosticView,
> {
    if state.contains_key(specifier) {
        state[specifier].no_cache_diagnostics
    } else {
        Seq::empty()
    }
}

/// What the rest of the language server may ask of the diagnostics: for each
/// document the version last published and its no-cache diagnostics.
#[derive(Debug)]
pub struct DiagnosticsState {
    specifiers: SpecifierMap<SpecifierState>,
}

impl View for DiagnosticsState {
    type V = Map<Seq<char>, SpecifierStateView>;

    closed spec fn view(&self) -> Map<Seq<char>, SpecifierStateView> {
        self.specifiers.as_map().map_values(|state: SpecifierState| state@)
    }
}

fn has_no_cache_code(diagnostic: &Diagnostic) -> (found: bool)
    ensures
        found == is_no_cache(diagnostic@),
{
    match &diagnostic.code {
        Some(NumberOrString::String(code)) => str_eq(code.as_str(), "no-cache") || str_eq(
            code.as_str(),
            "no-cache-npm",
        ),
        _ => false,
    }
}

impl Default for DiagnosticsState {
    fn default() -> (state: Self)
        ensures
            state.wf(),
            state@ == Map::<Seq<char>, SpecifierStateView>::empty(),
    {
        let state = DiagnosticsState { specifiers: SpecifierMap::new() };
        state
    }
}

impl DiagnosticsState {
    /// No specifier is stored twice.
    pub closed spec fn wf(&self) -> bool {
        self.specifiers.wf()
    }

    /// Records what was published for `specifier`, unless a higher version
    /// is stored for it already.
    pub fn update(
        &mut self,
        specifier: &ModuleSpecifier,
        version: Option<i32>,
        diagnostics: &[Diagnostic],
    )
        requires
            old(self).wf(),
        ensures
            final(self).wf(),
            final(self)@ == state_after_update(
                old(self)@,
                specifier@,
                version,
                diagnostics.deep_view(),
            ),
            is_outdated(old(self)@, specifier@, version) ==> final(self)@ == old(self)@,
    {
        let found = self.specifiers.position(specifier);
        match (version, found) {
            (Some(arg), Some(at)) => {
                match self.specifiers.value_at(at).version {
                    Some(existing) => {
                        if arg < existing {
                            return ;
                        }
                    },
                    None => {},
                }
            },
            _ => {},
        }
        let mut no_cache_diagnostics: Vec<Diagnostic> = Vec::new();
        let mut i: usize = 0;
        while i < diagnostics.len()
            invariant
                i <= diagnostics.len(),
                no_cache_diagnostics.deep_view() == no_cache_only(
                    diagnostics.deep_view().take(i as int),
                ),
            decreases diagnostics.len() - i,
        {
            proof {
                let next = diagnostics.deep_view().take(i + 1);
                assert(next.drop_last() =~= diagnostics.deep_view().take(i as int));
            }
            if has_no_cache_code(&diagnostics[i]) {
                no_cache_diagnostics.push(diagnostics[i].clone());
            }
            i += 1;
        }
        proof {
            assert(diagnostics.deep_view().take(diagnostics.len() as int)
                =~= diagnostics.deep_view());
        }
        let entry = SpecifierState { version, no_cache_diagnostics };
        match found {
            Some(at) => {
                let _ = self.specifiers.replace_at(at, entry);
            },
            None => {
                self.specifiers.push(specifier.clone(), entry);
            },
        }
    }

    /// Forgets what is stored for `specifier`.
    pub fn clear(&mut self, specifier: &ModuleSpecifier)
        requires
            old(self).wf(),
        ensures
            final(self).wf(),
            final(self)@ == old(self)@.remove(specifier@),
    {
        match self.specifiers.position(specifier) {
            Some(at) => {
                let _ = self.specifiers.remove_at(at);
            },
            None => {},
        }
    }

    /// Whether the document waits on the cache.
    pub fn has_no_cache_diagnostics(&self, specifier: &ModuleSpecifier) -> (waiting: bool)
        requires
            self.wf(),
        ensures
            waiting == (no_cache_of(self@, specifier@).len() > 0),
    {
        match self.specifiers.position(specifier) {
            Some(at) => self.specifiers.value_at(at).no_cache_diagnostics.len() > 0,
            None => false,
        }
    }

    /// The diagnostics that say that the document waits on the cache.
    pub fn no_cache_diagnostics(&self, specifier: &ModuleSpecifier) -> (diagnostics: Vec<
        Diagnostic,
    >)
        requires
            self.wf(),
        ensures
            diagnostics.deep_view() == no_cache_of(self@, specifier@),
    {
        match self.specifiers.position(specifier) {
            Some(at) => clone_diagnostics(&self.specifiers.value_at(at).no_cache_diagnostics),
            None => {
                let nothing: Vec<Diagnostic> = Vec::new();
                nothing
            },
        }
    }

    /// The version last recorded for `specifier`.
    pub fn version(&self, specifier: &ModuleSpecifier) -> (version: Option<i32>)
        requires
            self.wf(),
        ensures
            version == if self@.contains_key(specifier@) {
                self@[specifier@].version
            } else {
                None
            },
    {
        match self.specifiers.position(specifier) {
            Some(at) => self.specifiers.value_at(at).version,
            None => None,
        }
    }
}

/// Whether the value of the environment's switch for batch notifications
/// turns them on: it is set, not empty, and not `0`.
pub open spec fn is_flag_set(value: Option<Seq<char>>) -> bool {
    value is Some && value->0.len() > 0 && value->0 != "0"@
}

/// Whether batch notifications are to be sent, given the value of the
/// environment's switch for them.
pub fn should_send_diagnostic_batch_index_notifications(value: Option<&str>) -> (send: bool)
    ensures
        send == is_flag_set(value.deep_view()),
{
    match value {
        Some(text) => text.unicode_len() > 0 && !str_eq(text, "0"),
        None => false,
    }
}

/// Counts the updates handed to the engine, where batch notifications are
/// on.
#[derive(Debug)]
pub struct DiagnosticBatchCounter(Option<usize>);

impl View for DiagnosticBatchCounter {
    type V = Option<usize>;

    closed spec fn view(&self) -> Option<usize> {
        self.0
    }
}

/// The number that follows `count`, starting over behind the largest.
pub open spec fn next_batch_index(count: usize) -> usize {
    if count == usize::MAX {
        0
    } else {
        (count + 1) as usize
    }
}

impl DiagnosticBatchCounter {
    /// A counter at zero where `enabled`, else one that never counts.
    pub fn new(enabled: bool) -> (counter: Self)
        ensures
            counter@ == if enabled {
                Some(0usize)
            } else {
                None
            },
    {
        if enabled {
            DiagnosticBatchCounter(Some(0))
        } else {
            DiagnosticBatchCounter(None)
        }
    }

    /// Counts one update and gives its batch index.
    pub fn inc(&mut self) -> (index: Option<usize>)
        ensures
            index == final(self)@,
            final(self)@ == match old(self)@ {
                Some(count) => Some(next_batch_index(count)),
                None => None,
            },
    {
        match self.0 {
            Some(count) => {
                let next = if count == usize::MAX {
                    0
                } else {
                    count + 1
                };
                self.0 = Some(next);
                Some(next)
            },
            None => None,
        }
    }

    /// The batch index of the last update counted.
    pub fn get(&self) -> (index: Option<usize>)
        ensures
            index == self@,
    {
        self.0
    }
}

} // verus!
