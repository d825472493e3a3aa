//! The publisher: it keeps, for each document, the diagnostics that each
//! source last computed, and says what the editor is to be sent.

use vstd::prelude::*;
use tokio_util::sync::CancellationToken;
use crate::cancellation::should_stop;
use crate::model::clone_diagnostics;
use crate::model::Diagnostic;
use crate::model::DiagnosticRecord;
use crate::model::DiagnosticSource;
use crate::model::DiagnosticView;
use crate::model::RecordView;
use crate::model::VersionedDiagnostics;
use crate::model::VersionedView;
use crate::specifier::ModuleSpecifier;
use crate::stores::state_after_update;
use crate::stores::DiagnosticsState;
use crate::stores::SpecifierStateView;
use crate::table::key_index;
use crate::table::SpecifierMap;

verus! {

/// The addresses under which the editor knows documents, for the specifiers
/// that it knows under another address than their own.
#[derive(Debug)]
pub struct LspUrlMap {
    entries: SpecifierMap<String>,
}

impl View for LspUrlMap {
    type V = Map<Seq<char>, Seq<char>>;

    closed spec fn view(&self) -> Map<Seq<char>, Seq<char>> {
        self.entries.as_map().map_values(|uri: String| uri@)
    }
}

/// The address under which the editor knows `specifier`: the one that the
/// map holds for it, else the specifier itself.
pub open spec fn normalized(url_map: Map<Seq<char>, Seq<char>>, specifier: Seq<char>) -> Seq<
    char,
> {
    if url_map.contains_key(specifier) {
        url_map[specifier]
    } else {
        specifier
    }
}

impl LspUrlMap {
    /// No specifier is mapped twice.
    pub closed spec fn wf(&self) -> bool {
        self.entries.wf()
    }

    /// The map without any entry.
    pub fn new() -> (map: Self)
        ensures
            map.wf(),
            map@ == Map::<Seq<char>, Seq<char>>::empty(),
    {
        let map = LspUrlMap { entries: SpecifierMap::new() };
        map
    }

    /// Lets the editor know `specifier` under `uri`.
    pub fn insert(&mut self, specifier: ModuleSpecifier, uri: String)
        requires
            old(self).wf(),
        ensures
            final(self).wf(),
            final(self)@ == old(self)@.insert(specifier@, uri@),
    {
        match self.entries.position(&specifier) {
            Some(at) => {
                let _ = self.entries.replace_at(at, uri);
            },
            None => {
                self.entries.push(specifier, uri);
            },
        }
    }

    /// The address under which the editor knows `specifier`.
    pub fn normalize_specifier(&self, specifier: &ModuleSpecifier) -> (uri: String)
        requires
            self.wf(),
        ensures
            uri@ == normalized(self@, specifier@),
    {
        match self.entries.position(specifier) {
            Some(at) => self.entries.value_at(at).clone(),
            None => String::from_str(specifier.as_str()),
        }
    }
}

/// What each source last computed for one document.
#[derive(Debug)]
pub struct DiagnosticsBySource {
    deno: Option<VersionedDiagnostics>,
    lint: Option<VersionedDiagnostics>,
    ts: Option<VersionedDiagnostics>,
}

/// What a [`DiagnosticsBySource`] holds.
pub struct SlotsView {
    pub deno: Option<VersionedView>,
    pub lint: Option<VersionedView>,
    pub ts: Option<VersionedView>,
}

/// No source has computed anything.
pub open spec fn no_slots() -> SlotsView {
    SlotsView { deno: None, lint: None, ts: None }
}

/// What `source` last computed.
pub open spec fn slot(slots: SlotsView, source: DiagnosticSource) -> Option<VersionedView> {
    match source {
        DiagnosticSource::Deno => slots.deno,
        DiagnosticSource::Lint => slots.lint,
        DiagnosticSource::Ts => slots.ts,
    }
}

/// `slots` with `value` in the place of `source`.
pub open spec fn with_slot(
    slots: SlotsView,
    source: DiagnosticSource,
    value: Option<VersionedView>,
) -> SlotsView {
    match source {
        DiagnosticSource::Deno => SlotsView { deno: value, ..slots },
        DiagnosticSource::Lint => SlotsView { lint: value, ..slots },
        DiagnosticSource::Ts => SlotsView { ts: value, ..slots },
    }
}

/// The diagnostics in one source's place.
pub open spec fn slot_diagnostics(value: Option<VersionedView>) -> Seq<DiagnosticView> {
    match value {
        Some(versioned) => versioned.diagnostics,
        None => Seq::empty(),
    }
}

/// The diagnostics of all sources together: those of the module analysis,
/// then the linter's, then the type checker's, whatever their versions.
pub open spec fn union_of(slots: SlotsView) -> Seq<DiagnosticView> {
    slot_diagnostics(slots.deno) + slot_diagnostics(slots.lint) + slot_diagnostics(slots.ts)
}

impl View for DiagnosticsBySource {
    type V = SlotsView;

    closed spec fn view(&self) -> SlotsView {
        SlotsView {
            deno: self.deno.deep_view(),
            lint: self.lint.deep_view(),
            ts: self.ts.deep_view(),
        }
    }
}

fn append_clones(all: &mut Vec<Diagnostic>, value: &Option<VersionedDiagnostics>)
    ensures
        final(all).deep_view() == old(all).deep_view() + slot_diagnostics(value.deep_view()),
{
    match value {
        Some(versioned) => {
            let mut copies = clone_diagnostics(&versioned.diagnostics);
            all.append(&mut copies);
        },
        None => {},
    }
}

impl DiagnosticsBySource {
    fn new() -> (slots: Self)
        ensures
            slots@ == no_slots(),
    {
        DiagnosticsBySource { deno: None, lint: None, ts: None }
    }

    fn set(&mut self, source: DiagnosticSource, value: Option<VersionedDiagnostics>) -> (previous:
        Option<VersionedDiagnostics>)
        ensures
            final(self)@ == with_slot(old(self)@, source, value.deep_view()),
            previous.deep_view() == slot(old(self)@, source),
    {
        let mut value = value;
        match source {
            DiagnosticSource::Deno => std::mem::swap(&mut self.deno, &mut value),
            DiagnosticSource::Lint => std::mem::swap(&mut self.lint, &mut value),
            DiagnosticSource::Ts => std::mem::swap(&mut self.ts, &mut value),
        }
        value
    }

    fn is_empty(&self) -> (empty: bool)
        ensures
            empty == (self@ == no_slots()),
    {
        self.deno.is_none() && self.lint.is_none() && self.ts.is_none()
    }

    fn all_diagnostics(&self) -> (all: Vec<Diagnostic>)
        ensures
            all.deep_view() == union_of(self@),
    {
        let mut all: Vec<Diagnostic> = Vec::new();
        append_clones(&mut all, &self.deno);
        append_clones(&mut all, &self.lint);
        append_clones(&mut all, &self.ts);
        all
    }
}

/// What the publisher holds for one document.
pub struct EntryView {
    pub specifier: Seq<char>,
    pub slots: SlotsView,
}

/// One `publishDiagnostics` notification for the editor.
#[derive(Debug, PartialEq, Eq)]
pub struct PublishDiagnosticsParams {
    pub uri: String,
    pub diagnostics: Vec<Diagnostic>,
    pub version: Option<i32>,
}

/// What a [`PublishDiagnosticsParams`] holds.
pub struct MessageView {
    pub uri: Seq<char>,
    pub diagnostics: Seq<DiagnosticView>,
    pub version: Option<i32>,
}

impl DeepView for PublishDiagnosticsParams {
    type V = MessageView;

    open spec fn deep_view(&self) -> MessageView {
        MessageView {
            uri: self.uri@,
            diagnostics: self.diagnostics.deep_view(),
            version: self.version,
        }
    }
}

impl View for PublishDiagnosticsParams {
    type V = MessageView;

    open spec fn view(&self) -> MessageView {
        self.deep_view()
    }
}

/// The specifiers of `entries`, in order.
pub open spec fn specifiers_of(entries: Seq<EntryView>) -> Seq<Seq<char>> {
    Seq::new(entries.len(), |i: int| entries[i].specifier)
}

/// What the publisher holds for `specifier`; no source's diagnostics where it
/// holds no entry.
pub open spec fn slots_of(entries: Seq<EntryView>, specifier: Seq<char>) -> SlotsView {
    match key_index(specifiers_of(entries), specifier) {
        Some(i) => entries[i].slots,
        None => no_slots(),
    }
}

/// The entries after `source` computed `versioned` for `specifier`: the
/// specifier's entry holds it in the source's place; a specifier without an
/// entry gets one behind the others.
pub open spec fn store_record(
    entries: Seq<EntryView>,
    source: DiagnosticSource,
    specifier: Seq<char>,
    versioned: VersionedView,
) -> Seq<EntryView> {
    match key_index(specifiers_of(entries), specifier) {
        Some(i) => entries.update(
            i,
            EntryView { specifier, slots: with_slot(entries[i].slots, source, Some(versioned)) },
        ),
        None => entries.push(
            EntryView { specifier, slots: with_slot(no_slots(), source, Some(versioned)) },
        ),
    }
}

/// The publisher's world: what it holds for each document, what the state
/// holds, and what the editor was sent, oldest first.
pub struct Published {
    pub entries: Seq<EntryView>,
    pub state: Map<Seq<char>, SpecifierStateView>,
    pub messages: Seq<MessageView>,
}

/// The world after one record of `source` was published: the record is
/// stored, the state learns the record's version and the document's
/// diagnostics of all sources, and the editor is sent these under the
/// document's address.
pub open spec fn after_record(
    world: Published,
    source: DiagnosticSource,
    url_map: Map<Seq<char>, Seq<char>>,
    record: RecordView,
) -> Published {
    let entries = store_record(world.entries, source, record.specifier, record.versioned);
    let all = union_of(slots_of(entries, record.specifier));
    Published {
        entries,
        state: state_after_update(world.state, record.specifier, record.versioned.version, all),
        messages: world.messages.push(
            MessageView {
                uri: normalized(url_map, record.specifier),
                diagnostics: all,
                version: record.versioned.version,
            },
        ),
    }
}

/// The world after the records of `records` were published, one after the
/// other.
pub open spec fn after_records(
    world: Published,
    source: DiagnosticSource,
    url_map: Map<Seq<char>, Seq<char>>,
    records: Seq<RecordView>,
) -> Published
    decreases records.len(),
{
    if records.len() == 0 {
        world
    } else {
        after_record(
            after_records(world, source, url_map, records.drop_last()),
            source,
            url_map,
            records.last(),
        )
    }
}

/// The specifiers that `records` has a record for.
pub open spec fn seen_specifiers(records: Seq<RecordView>) -> Set<Seq<char>> {
    Set::new(
        |specifier: Seq<char>|
            exists|i: int| 0 <= i < records.len() && (#[trigger] records[i]).specifier == specifier,
    )
}

/// The clearing notification for a document whose last diagnostics, those of
/// `version`, are gone.
pub open spec fn clearing_message(
    url_map: Map<Seq<char>, Seq<char>>,
    specifier: Seq<char>,
    version: Option<i32>,
) -> MessageView {
    MessageView { uri: normalized(url_map, specifier), diagnostics: Seq::empty(), version }
}

/// The world after the diagnostics of `source` were withdrawn from `entry`,
/// a document that the batch had no record for. Where other sources still
/// hold diagnostics for it, the entry stays without those of `source` and the
/// editor is sent nothing. Where none is left, the entry goes, the state is
/// told that the document has no diagnostics, and the editor is sent an
/// empty list, both under the withdrawn version.
pub open spec fn after_withdrawal(
    world: Published,
    source: DiagnosticSource,
    url_map: Map<Seq<char>, Seq<char>>,
    entry: EntryView,
) -> Published {
    let rest = with_slot(entry.slots, source, None);
    if rest == no_slots() {
        match slot(entry.slots, source) {
            Some(withdrawn) => Published {
                entries: world.entries,
                state: state_after_update(
                    world.state,
                    entry.specifier,
                    withdrawn.version,
                    Seq::empty(),
                ),
                messages: world.messages.push(
                    clearing_message(url_map, entry.specifier, withdrawn.version),
                ),
            },
            None => world,
        }
    } else {
        Published {
            entries: world.entries.push(EntryView { specifier: entry.specifier, slots: rest }),
            ..world
        }
    }
}

/// The world after a sweep over `entries`, in order: an entry whose
/// specifier is in `seen` is kept as it is, every other has the diagnostics
/// of `source` withdrawn. `world.entries` collects the entries that stay.
pub open spec fn after_sweep(
    world: Published,
    source: DiagnosticSource,
    url_map: Map<Seq<char>, Seq<char>>,
    seen: Set<Seq<char>>,
    entries: Seq<EntryView>,
) -> Published
    decreases entries.len(),
{
    if entries.len() == 0 {
        world
    } else {
        let before = after_sweep(world, source, url_map, seen, entries.drop_last());
        if seen.contains(entries.last().specifier) {
            Published { entries: before.entries.push(entries.last()), ..before }
        } else {
            after_withdrawal(before, source, url_map, entries.last())
        }
    }
}

/// The world after a batch that was cancelled or ran to its end: the first
/// `published` records were published; where these are all, the first
/// `swept` entries were swept for documents that the batch has no record
/// for, and the entries behind them stay as they are.
pub open spec fn published_at(
    world: Published,
    source: DiagnosticSource,
    url_map: Map<Seq<char>, Seq<char>>,
    records: Seq<RecordView>,
    published: int,
    swept: int,
) -> Published {
    if published < records.len() {
        after_records(world, source, url_map, records.take(published))
    } else {
        let stored = after_records(world, source, url_map, records);
        let kept = after_sweep(
            Published { entries: Seq::empty(), ..stored },
            source,
            url_map,
            seen_specifiers(records),
            stored.entries.take(swept),
        );
        Published { entries: kept.entries + stored.entries.skip(swept), ..kept }
    }
}

/// The world after a whole batch: every record published, every entry swept.
pub open spec fn published_batch(
    world: Published,
    source: DiagnosticSource,
    url_map: Map<Seq<char>, Seq<char>>,
    records: Seq<RecordView>,
) -> Published {
    published_at(
        world,
        source,
        url_map,
        records,
        records.len() as int,
        after_records(world, source, url_map, records).entries.len() as int,
    )
}

/// Per document, the diagnostics that each source last computed.
#[derive(Debug)]
pub struct DiagnosticsPublisher {
    diagnostics_by_specifier: SpecifierMap<DiagnosticsBySource>,
}

impl View for DiagnosticsPublisher {
    type V = Seq<EntryView>;

    closed spec fn view(&self) -> Seq<EntryView> {
        Seq::new(
            self.diagnostics_by_specifier.keys().len(),
            |i: int|
                EntryView {
                    specifier: self.diagnostics_by_specifier.keys()[i],
                    slots: self.diagnostics_by_specifier.values()[i]@,
                },
        )
    }
}

/// No specifier has two entries, and no entry is without diagnostics of any
/// source.
pub open spec fn entries_wf(entries: Seq<EntryView>) -> bool {
    &&& specifiers_of(entries).no_duplicates()
    &&& forall|i: int| 0 <= i < entries.len() ==> (#[trigger] entries[i]).slots != no_slots()
}

impl DiagnosticsPublisher {
    /// No specifier has two entries, and no entry is without diagnostics of
    /// any source.
    pub closed spec fn wf(&self) -> bool {
        &&& self.diagnostics_by_specifier.wf()
        &&& entries_wf(self@)
    }

    /// What [`DiagnosticsPublisher::wf`] says of the view.
    pub proof fn lemma_wf(&self)
        requires
            self.wf(),
        ensures
            entries_wf(self@),
    {
    }

    proof fn lemma_view(&self, k: int)
        requires
            0 <= k < self.diagnostics_by_specifier.keys().len(),
        ensures
            self@.len() == self.diagnostics_by_specifier.keys().len(),
            self@[k] == (EntryView {
                specifier: self.diagnostics_by_specifier.keys()[k],
                slots: self.diagnostics_by_specifier.values()[k]@,
            }),
    {
    }

    /// A publisher that holds nothing.
    pub fn new() -> (publisher: Self)
        ensures
            publisher.wf(),
            publisher@ == Seq::<EntryView>::empty(),
    {
        let publisher = DiagnosticsPublisher { diagnostics_by_specifier: SpecifierMap::new() };
        publisher
    }

    /// Publishes one record of `source`: stores it, tells the state, and
    /// says what the editor is to be sent for the document.
    pub fn publish_record(
        &mut self,
        state: &mut DiagnosticsState,
        source: DiagnosticSource,
        record: DiagnosticRecord,
        url_map: &LspUrlMap,
    ) -> (message: PublishDiagnosticsParams)
        requires
            old(self).wf(),
            old(state).wf(),
            url_map.wf(),
        ensures
            final(self).wf(),
            final(state).wf(),
            final(self)@ == store_record(old(self)@, source, record@.specifier, record@.versioned),
            final(state)@ == state_after_update(
                old(state)@,
                record@.specifier,
                record@.versioned.version,
                union_of(slots_of(final(self)@, record@.specifier)),
            ),
            message@ == (MessageView {
                uri: normalized(url_map@, record@.specifier),
                diagnostics: union_of(slots_of(final(self)@, record@.specifier)),
                version: record@.versioned.version,
            }),
    {
        let ghost before = self@;
        let ghost record_view = record@;
        let DiagnosticRecord { specifier, versioned } = record;
        let version = versioned.version;
        assert(specifiers_of(before) =~= self.diagnostics_by_specifier.keys());
        let ghost index: int;
        let ghost stored: SlotsView;
        let all = match self.diagnostics_by_specifier.position(&specifier) {
            Some(at) => {
                let mut slots = self.diagnostics_by_specifier.replace_at(
                    at,
                    DiagnosticsBySource::new(),
                );
                let _ = slots.set(source, Some(versioned));
                let all = slots.all_diagnostics();
                proof {
                    index = at as int;
                    stored = slots@;
                }
                let _ = self.diagnostics_by_specifier.replace_at(at, slots);
                all
            },
            None => {
                let mut slots = DiagnosticsBySource::new();
                let _ = slots.set(source, Some(versioned));
                let all = slots.all_diagnostics();
                proof {
                    index = before.len() as int;
                    stored = slots@;
                }
                self.diagnostics_by_specifier.push(specifier.clone(), slots);
                all
            },
        };
        proof {
            let after = store_record(before, source, record_view.specifier, record_view.versioned);
            assert(self@ =~= after);
            assert(specifiers_of(after)[index] == record_view.specifier);
        }
        state.update(&specifier, version, all.as_slice());
        let message = PublishDiagnosticsParams {
            uri: url_map.normalize_specifier(&specifier),
            diagnostics: all,
            version,
        };
        message
    }
}

fn has_record_for(records: &Vec<DiagnosticRecord>, specifier: &ModuleSpecifier) -> (found: bool)
    ensures
        found == seen_specifiers(records.deep_view()).contains(specifier@),
{
    let mut i: usize = 0;
    while i < records.len()
        invariant
            i <= records.len(),
            forall|j: int| 0 <= j < i ==> (#[trigger] records.deep_view()[j]).specifier != specifier@,
        decreases records.len() - i,
    {
        if records[i].specifier.same(specifier) {
            assert(records.deep_view()[i as int].specifier == specifier@);
            return true;
        }
        i += 1;
    }
    false
}

impl DiagnosticsPublisher {
    /// Publishes a batch of `source`: each record in turn, then a sweep that
    /// withdraws the source's diagnostics from the documents that the batch
    /// has no record for. The token is asked before each record and before
    /// each withdrawal; once it says that the batch is cancelled, nothing
    /// more is changed. The result holds what the editor is to be sent, in
    /// order.
    pub fn publish(
        &mut self,
        state: &mut DiagnosticsState,
        source: DiagnosticSource,
        diagnostics: Vec<DiagnosticRecord>,
        url_map: &LspUrlMap,
        token: Option<&CancellationToken>,
    ) -> (messages: Vec<PublishDiagnosticsParams>)
        requires
            old(self).wf(),
            old(state).wf(),
            url_map.wf(),
        ensures
            final(self).wf(),
            final(state).wf(),
            exists|published: int, swept: int|
                0 <= published <= diagnostics.len() && 0 <= swept <= after_records(
                    Published { entries: old(self)@, state: old(state)@, messages: Seq::empty() },
                    source,
                    url_map@,
                    diagnostics.deep_view(),
                ).entries.len() && (Published {
                    entries: final(self)@,
                    state: final(state)@,
                    messages: messages.deep_view(),
                }) == #[trigger] published_at(
                    Published { entries: old(self)@, state: old(state)@, messages: Seq::empty() },
                    source,
                    url_map@,
                    diagnostics.deep_view(),
                    published,
                    swept,
                ),
            token is None ==> (Published {
                entries: final(self)@,
                state: final(state)@,
                messages: messages.deep_view(),
            }) == published_batch(
                Published { entries: old(self)@, state: old(state)@, messages: Seq::empty() },
                source,
                url_map@,
                diagnostics.deep_view(),
            ),
    {
        let ghost start = Published {
            entries: old(self)@,
            state: old(state)@,
            messages: Seq::empty(),
        };
        let ghost records = diagnostics.deep_view();
        let ghost map = url_map@;
        let mut messages: Vec<PublishDiagnosticsParams> = Vec::new();
        assert(messages.deep_view() =~= Seq::<MessageView>::empty());
        let mut i: usize = 0;
        while i < diagnostics.len()
            invariant
                i <= diagnostics.len(),
                records == diagnostics.deep_view(),
                map == url_map@,
                start == (Published {
                    entries: old(self)@,
                    state: old(state)@,
                    messages: Seq::empty(),
                }),
                self.wf(),
                state.wf(),
                url_map.wf(),
                (Published { entries: self@, state: state@, messages: messages.deep_view() })
                    == after_records(start, source, map, records.take(i as int)),
            decreases diagnostics.len() - i,
        {
            if should_stop(token) {
                assert((Published {
                    entries: self@,
                    state: state@,
                    messages: messages.deep_view(),
                }) == published_at(start, source, map, records, i as int, 0));
                return messages;
            }
            let ghost sent = messages.deep_view();
            let message = self.publish_record(state, source, diagnostics[i].clone(), url_map);
            let ghost message_view = message@;
            messages.push(message);
            proof {
                assert(messages.deep_view() =~= sent.push(message_view));
                assert(records.take(i + 1).drop_last() =~= records.take(i as int));
            }
            i += 1;
        }
        assert(records.take(records.len() as int) =~= records);
        let ghost stored = after_records(start, source, map, records);
        let ghost seen = seen_specifiers(records);
        let ghost base = Published { entries: Seq::empty(), ..stored };
        let mut at: usize = 0;
        let mut swept: usize = 0;
        let mut stopped = false;
        let total = self.diagnostics_by_specifier.len();
        while swept < total && !stopped
            invariant
                at <= swept <= total == stored.entries.len(),
                records == diagnostics.deep_view(),
                map == url_map@,
                seen == seen_specifiers(records),
                base == (Published { entries: Seq::empty(), ..stored }),
                entries_wf(stored.entries),
                self.diagnostics_by_specifier.wf(),
                state.wf(),
                url_map.wf(),
                stopped ==> token is Some,
                self@ == after_sweep(
                    base,
                    source,
                    map,
                    seen,
                    stored.entries.take(swept as int),
                ).entries + stored.entries.skip(swept as int),
                state@ == after_sweep(
                    base,
                    source,
                    map,
                    seen,
                    stored.entries.take(swept as int),
                ).state,
                messages.deep_view() == after_sweep(
                    base,
                    source,
                    map,
                    seen,
                    stored.entries.take(swept as int),
                ).messages,
                at == after_sweep(
                    base,
                    source,
                    map,
                    seen,
                    stored.entries.take(swept as int),
                ).entries.len(),
                forall|k: int| 0 <= k < self@.len() ==> (#[trigger] self@[k]).slots != no_slots(),
            decreases
                    total - swept + (if stopped {
                        0int
                    } else {
                        1int
                    }),
        {
            let ghost entry = stored.entries[swept as int];
            let ghost current = self@;
            proof {
                assert(stored.entries.take(swept + 1).drop_last() =~= stored.entries.take(
                    swept as int,
                ));
                assert forall|k: int| at < k < current.len() implies current[k]
                    == stored.entries.skip(swept + 1)[k - at - 1] by {}
                self.lemma_view(at as int);
            }
            let specifier = self.diagnostics_by_specifier.key_at(at).clone();
            if has_record_for(&diagnostics, &specifier) {
                at += 1;
                swept += 1;
            } else if should_stop(token) {
                stopped = true;
            } else {
                let mut slots = self.diagnostics_by_specifier.replace_at(
                    at,
                    DiagnosticsBySource::new(),
                );
                let withdrawn = slots.set(source, None);
                if slots.is_empty() {
                    let _ = self.diagnostics_by_specifier.remove_at(at);
                    match withdrawn {
                        Some(versioned) => {
                            let nothing: Vec<Diagnostic> = Vec::new();
                            assert(nothing.deep_view() =~= Seq::<DiagnosticView>::empty());
                            state.update(&specifier, versioned.version, nothing.as_slice());
                            let message = PublishDiagnosticsParams {
                                uri: url_map.normalize_specifier(&specifier),
                                diagnostics: nothing,
                                version: versioned.version,
                            };
                            messages.push(message);
                        },
                        None => {},
                    }
                    proof {
                        assert forall|k: int| 0 <= k < self@.len() implies self@[k] == if k < at {
                            current[k]
                        } else {
                            current[k + 1]
                        } by {
                            self.lemma_view(k);
                        }
                    }
                    swept += 1;
                } else {
                    let ghost rest = slots@;
                    let _ = self.diagnostics_by_specifier.replace_at(at, slots);
                    proof {
                        assert forall|k: int| 0 <= k < self@.len() implies self@[k] == if k == at {
                            EntryView { specifier: entry.specifier, slots: rest }
                        } else {
                            current[k]
                        } by {
                            self.lemma_view(k);
                        }
                    }
                    at += 1;
                    swept += 1;
                }
            }
        }
        proof {
            assert((Published { entries: self@, state: state@, messages: messages.deep_view() })
                == published_at(start, source, map, records, records.len() as int, swept as int));
        }
        messages
    }

    /// Forgets every document. The editor is told nothing: whoever clears
    /// has fresh diagnostics published afterwards.
    pub fn clear(&mut self)
        ensures
            final(self).wf(),
            final(self)@ == Seq::<EntryView>::empty(),
    {
        self.diagnostics_by_specifier.clear();
    }
}

} // verus!
