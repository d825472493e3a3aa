//! What holds of every batch that the publisher publishes.

use vstd::prelude::*;
use crate::model::DiagnosticSource;
use crate::model::DiagnosticView;
use crate::model::RecordView;
use crate::model::VersionedView;
use crate::publisher::after_records;
use crate::publisher::after_sweep;
use crate::publisher::clearing_message;
use crate::publisher::entries_wf;
use crate::publisher::no_slots;
use crate::publisher::normalized;
use crate::publisher::published_at;
use crate::publisher::published_batch;
use crate::publisher::seen_specifiers;
use crate::publisher::slot;
use crate::publisher::slots_of;
use crate::publisher::specifiers_of;
use crate::publisher::store_record;
use crate::publisher::union_of;
use crate::publisher::with_slot;
use crate::stores::no_cache_only;
use crate::stores::state_after_update;
use crate::stores::SpecifierStateView;
use crate::publisher::EntryView;
use crate::publisher::MessageView;
use crate::publisher::Published;
use crate::publisher::SlotsView;
use crate::table::key_index;

verus! {

/// Whether the publisher holds an entry for `specifier`.
pub open spec fn has_entry(entries: Seq<EntryView>, specifier: Seq<char>) -> bool {
    specifiers_of(entries).contains(specifier)
}

/// Where `specifier` stands in well-formed entries, it stands once, and
/// that is where it is found.
pub proof fn lemma_entry_found(entries: Seq<EntryView>, index: int)
    requires
        entries_wf(entries),
        0 <= index < entries.len(),
    ensures
        key_index(specifiers_of(entries), entries[index].specifier) == Some(index),
        slots_of(entries, entries[index].specifier) == entries[index].slots,
{
    let keys = specifiers_of(entries);
    assert(keys[index] == entries[index].specifier);
}

/// Storing a record keeps the entries well-formed, keeps every entry in
/// its place, changes nothing for other specifiers, and for the record's
/// specifier changes the place of the record's source alone.
pub proof fn lemma_store_record(
    entries: Seq<EntryView>,
    source: DiagnosticSource,
    specifier: Seq<char>,
    versioned: VersionedView,
)
    requires
        entries_wf(entries),
    ensures
        entries_wf(store_record(entries, source, specifier, versioned)),
        store_record(entries, source, specifier, versioned).len() >= entries.len(),
        has_entry(store_record(entries, source, specifier, versioned), specifier),
        slots_of(store_record(entries, source, specifier, versioned), specifier) == with_slot(
            slots_of(entries, specifier),
            source,
            Some(versioned),
        ),
        forall|other: Seq<char>|
            other != specifier ==> #[trigger] slots_of(
                store_record(entries, source, specifier, versioned),
                other,
            ) == slots_of(entries, other),
        forall|other: Seq<char>|
            other != specifier ==> (#[trigger] has_entry(
                store_record(entries, source, specifier, versioned),
                other,
            ) <==> has_entry(entries, other)),
        forall|k: int|
            0 <= k < entries.len() ==> (#[trigger] store_record(
                entries,
                source,
                specifier,
                versioned,
            )[k]).specifier == entries[k].specifier,
        forall|k: int|
            0 <= k < entries.len() && entries[k].specifier != specifier ==> (#[trigger] store_record(
                entries,
                source,
                specifier,
                versioned,
            )[k]) == entries[k],
        forall|k: int|
            entries.len() <= k < store_record(entries, source, specifier, versioned).len()
                ==> (#[trigger] store_record(entries, source, specifier, versioned)[k]).specifier
                == specifier,
{
    let after = store_record(entries, source, specifier, versioned);
    let keys = specifiers_of(entries);
    let keys_after = specifiers_of(after);
    match key_index(keys, specifier) {
        Some(i) => {
            assert(keys_after =~= keys);
            lemma_entry_found(after, i);
            lemma_entry_found(entries, i);
        },
        None => {
            assert forall|a: int, b: int|
                0 <= a < keys_after.len() && 0 <= b < keys_after.len() && a != b implies keys_after[a]
                != keys_after[b] by {
                if a < keys.len() {
                    assert(keys.contains(keys[a]));
                }
                if b < keys.len() {
                    assert(keys.contains(keys[b]));
                }
            }
            lemma_entry_found(after, entries.len() as int);
            assert forall|other: Seq<char>| other != specifier implies (#[trigger] has_entry(
                after,
                other,
            ) <==> has_entry(entries, other)) by {
                if keys.contains(other) {
                    let j = keys.index_of(other);
                    assert(keys_after[j] == other);
                }
                if keys_after.contains(other) {
                    let j = keys_after.index_of(other);
                    assert(keys[j] == other);
                }
            }
            assert forall|other: Seq<char>| other != specifier implies #[trigger] slots_of(
                after,
                other,
            ) == slots_of(entries, other) by {
                assert(has_entry(after, other) <==> has_entry(entries, other));
                if keys.contains(other) {
                    let j = keys.index_of(other);
                    lemma_entry_found(after, j);
                    lemma_entry_found(entries, j);
                }
            }
        },
    }
}

/// A batch has a record for a specifier where its last record is for it, or
/// where the records before the last have one.
pub proof fn lemma_seen_last(records: Seq<RecordView>, specifier: Seq<char>)
    requires
        records.len() > 0,
    ensures
        seen_specifiers(records).contains(specifier) <==> (seen_specifiers(
            records.drop_last(),
        ).contains(specifier) || records.last().specifier == specifier),
{
    let before = records.drop_last();
    if seen_specifiers(records).contains(specifier) {
        let i = choose|i: int| 0 <= i < records.len() && (#[trigger] records[i]).specifier == specifier;
        if i < records.len() - 1 {
            assert(before[i].specifier == specifier);
        }
    }
}

/// The diagnostics of the other sources than `source`.
pub open spec fn others(slots: SlotsView, source: DiagnosticSource) -> SlotsView {
    with_slot(slots, source, None)
}

/// What publishing the records of a batch changes and what it leaves: the
/// entries stay well-formed and in their places; new entries come behind
/// them, for specifiers that the batch has a record for; nothing changes for
/// a specifier that the batch has no record for, nor for the diagnostics of
/// other sources; and the editor is sent one message for each record,
/// behind what it was sent before.
pub proof fn lemma_after_records(
    world: Published,
    source: DiagnosticSource,
    url_map: Map<Seq<char>, Seq<char>>,
    records: Seq<RecordView>,
)
    requires
        entries_wf(world.entries),
    ensures
        entries_wf(after_records(world, source, url_map, records).entries),
        after_records(world, source, url_map, records).entries.len() >= world.entries.len(),
        forall|k: int|
            0 <= k < world.entries.len() ==> (#[trigger] after_records(
                world,
                source,
                url_map,
                records,
            ).entries[k]).specifier == world.entries[k].specifier,
        forall|k: int|
            0 <= k < world.entries.len() && !seen_specifiers(records).contains(
                world.entries[k].specifier,
            ) ==> (#[trigger] after_records(world, source, url_map, records).entries[k])
                == world.entries[k],
        forall|k: int|
            world.entries.len() <= k < after_records(world, source, url_map, records).entries.len()
                ==> seen_specifiers(records).contains(
                (#[trigger] after_records(world, source, url_map, records).entries[k]).specifier,
            ),
        forall|specifier: Seq<char>|
            !seen_specifiers(records).contains(specifier) ==> #[trigger] slots_of(
                after_records(world, source, url_map, records).entries,
                specifier,
            ) == slots_of(world.entries, specifier),
        forall|specifier: Seq<char>|
            seen_specifiers(records).contains(specifier) ==> #[trigger] has_entry(
                after_records(world, source, url_map, records).entries,
                specifier,
            ),
        forall|specifier: Seq<char>|
            #[trigger] others(
                slots_of(after_records(world, source, url_map, records).entries, specifier),
                source,
            ) == others(slots_of(world.entries, specifier), source),
        after_records(world, source, url_map, records).messages.len() == world.messages.len()
            + records.len(),
        forall|j: int|
            0 <= j < world.messages.len() ==> (#[trigger] after_records(
                world,
                source,
                url_map,
                records,
            ).messages[j]) == world.messages[j],
    decreases records.len(),
{
    if records.len() > 0 {
        let before = records.drop_last();
        let last = records.last();
        let mid = after_records(world, source, url_map, before);
        let after = after_records(world, source, url_map, records);
        lemma_after_records(world, source, url_map, before);
        lemma_store_record(mid.entries, source, last.specifier, last.versioned);
        assert forall|specifier: Seq<char>|
            (seen_specifiers(records).contains(specifier) <==> (seen_specifiers(before).contains(
                specifier,
            ) || last.specifier == specifier)) by {
            lemma_seen_last(records, specifier);
        }
        assert forall|specifier: Seq<char>| #[trigger]
            others(slots_of(after.entries, specifier), source) == others(
                slots_of(world.entries, specifier),
                source,
            ) by {
            assert(others(slots_of(mid.entries, specifier), source) == others(
                slots_of(world.entries, specifier),
                source,
            ));
        }
    }
}

/// An entry put behind well-formed entries that have none for its specifier
/// is found under its specifier, and changes nothing for any other.
pub proof fn lemma_push_entry(entries: Seq<EntryView>, entry: EntryView)
    requires
        entries_wf(entries),
        !has_entry(entries, entry.specifier),
        entry.slots != no_slots(),
    ensures
        entries_wf(entries.push(entry)),
        has_entry(entries.push(entry), entry.specifier),
        slots_of(entries.push(entry), entry.specifier) == entry.slots,
        forall|other: Seq<char>|
            other != entry.specifier ==> #[trigger] slots_of(entries.push(entry), other)
                == slots_of(entries, other),
        forall|other: Seq<char>|
            other != entry.specifier ==> (#[trigger] has_entry(entries.push(entry), other)
                <==> has_entry(entries, other)),
{
    let after = entries.push(entry);
    let keys = specifiers_of(entries);
    let keys_after = specifiers_of(after);
    assert forall|a: int, b: int|
        0 <= a < keys_after.len() && 0 <= b < keys_after.len() && a != b implies keys_after[a]
        != keys_after[b] by {
        if a < keys.len() {
            assert(keys.contains(keys[a]));
        }
        if b < keys.len() {
            assert(keys.contains(keys[b]));
        }
    }
    lemma_entry_found(after, entries.len() as int);
    assert forall|other: Seq<char>| other != entry.specifier implies (#[trigger] has_entry(
        after,
        other,
    ) <==> has_entry(entries, other)) by {
        if keys.contains(other) {
            let j = keys.index_of(other);
            assert(keys_after[j] == other);
        }
        if keys_after.contains(other) {
            let j = keys_after.index_of(other);
            assert(keys[j] == other);
        }
    }
    assert forall|other: Seq<char>| other != entry.specifier implies #[trigger] slots_of(
        after,
        other,
    ) == slots_of(entries, other) by {
        assert(has_entry(after, other) <==> has_entry(entries, other));
        if keys.contains(other) {
            let j = keys.index_of(other);
            lemma_entry_found(after, j);
            lemma_entry_found(entries, j);
        }
    }
}

/// Well-formed entries without their last are well-formed, hold no entry
/// for the specifier of the last, and agree with the whole on every other
/// specifier.
pub proof fn lemma_drop_last_entry(entries: Seq<EntryView>)
    requires
        entries_wf(entries),
        entries.len() > 0,
    ensures
        entries_wf(entries.drop_last()),
        !has_entry(entries.drop_last(), entries.last().specifier),
        entries.last().slots != no_slots(),
        slots_of(entries, entries.last().specifier) == entries.last().slots,
        has_entry(entries, entries.last().specifier),
        forall|other: Seq<char>|
            other != entries.last().specifier ==> #[trigger] slots_of(entries, other) == slots_of(
                entries.drop_last(),
                other,
            ),
        forall|other: Seq<char>|
            other != entries.last().specifier ==> (#[trigger] has_entry(entries, other)
                <==> has_entry(entries.drop_last(), other)),
{
    let before = entries.drop_last();
    let last = entries.last();
    let keys = specifiers_of(entries);
    let keys_before = specifiers_of(before);
    assert(keys_before =~= keys.drop_last());
    if has_entry(before, last.specifier) {
        let j = keys_before.index_of(last.specifier);
        assert(keys[j] == keys[entries.len() - 1]);
    }
    assert(entries =~= before.push(last));
    lemma_push_entry(before, last);
}

/// What a sweep leaves of well-formed entries: they stay well-formed; for
/// a specifier in `seen` nothing changes; for any other, the diagnostics of
/// `source` are gone, and with them the entry where no other source holds
/// diagnostics for it.
pub proof fn lemma_after_sweep(
    base: Published,
    source: DiagnosticSource,
    url_map: Map<Seq<char>, Seq<char>>,
    seen: Set<Seq<char>>,
    entries: Seq<EntryView>,
)
    requires
        entries_wf(entries),
        base.entries == Seq::<EntryView>::empty(),
    ensures
        entries_wf(after_sweep(base, source, url_map, seen, entries).entries),
        forall|specifier: Seq<char>|
            seen.contains(specifier) ==> #[trigger] slots_of(
                after_sweep(base, source, url_map, seen, entries).entries,
                specifier,
            ) == slots_of(entries, specifier),
        forall|specifier: Seq<char>|
            !seen.contains(specifier) ==> #[trigger] slots_of(
                after_sweep(base, source, url_map, seen, entries).entries,
                specifier,
            ) == others(slots_of(entries, specifier), source),
        forall|specifier: Seq<char>| #[trigger]
            has_entry(after_sweep(base, source, url_map, seen, entries).entries, specifier) <==> (
            has_entry(entries, specifier) && (seen.contains(specifier) || others(
                slots_of(entries, specifier),
                source,
            ) != no_slots())),
    decreases entries.len(),
{
    if entries.len() > 0 {
        let before = entries.drop_last();
        let last = entries.last();
        let kept = after_sweep(base, source, url_map, seen, before);
        lemma_drop_last_entry(entries);
        lemma_after_sweep(base, source, url_map, seen, before);
        let rest = others(last.slots, source);
        if seen.contains(last.specifier) {
            lemma_push_entry(kept.entries, last);
        } else if rest != no_slots() {
            let entry = EntryView { specifier: last.specifier, slots: rest };
            lemma_push_entry(kept.entries, entry);
        }
    }
}

/// A sweep sends the editor a clearing message for every entry that it
/// drops: for every entry whose specifier is not in `seen` and for which
/// `source` alone holds diagnostics.
pub proof fn lemma_sweep_clears(
    base: Published,
    source: DiagnosticSource,
    url_map: Map<Seq<char>, Seq<char>>,
    seen: Set<Seq<char>>,
    entries: Seq<EntryView>,
    index: int,
)
    requires
        0 <= index < entries.len(),
        !seen.contains(entries[index].specifier),
        slot(entries[index].slots, source) is Some,
        others(entries[index].slots, source) == no_slots(),
    ensures
        after_sweep(base, source, url_map, seen, entries).messages.contains(
            clearing_message(
                url_map,
                entries[index].specifier,
                slot(entries[index].slots, source)->0.version,
            ),
        ),
    decreases entries.len(),
{
    let swept = after_sweep(base, source, url_map, seen, entries);
    let kept = after_sweep(base, source, url_map, seen, entries.drop_last());
    let message = clearing_message(
        url_map,
        entries[index].specifier,
        slot(entries[index].slots, source)->0.version,
    );
    if index == entries.len() - 1 {
        assert(swept.messages[kept.messages.len() as int] == message);
    } else {
        lemma_sweep_clears(base, source, url_map, seen, entries.drop_last(), index);
        let j = kept.messages.index_of(message);
        assert(swept.messages[j] == message);
    }
}

/// Once a batch of `source` has run to its end, every document that held
/// diagnostics of `source` alone and that the batch has no record for is
/// gone from the publisher, and the editor was sent an empty list for it,
/// under the version of the diagnostics that went.
pub proof fn lemma_stale_documents_are_cleared(
    world: Published,
    source: DiagnosticSource,
    url_map: Map<Seq<char>, Seq<char>>,
    records: Seq<RecordView>,
    specifier: Seq<char>,
)
    requires
        entries_wf(world.entries),
        !seen_specifiers(records).contains(specifier),
        slot(slots_of(world.entries, specifier), source) is Some,
        others(slots_of(world.entries, specifier), source) == no_slots(),
    ensures
        published_batch(world, source, url_map, records).messages.contains(
            clearing_message(
                url_map,
                specifier,
                slot(slots_of(world.entries, specifier), source)->0.version,
            ),
        ),
        !has_entry(published_batch(world, source, url_map, records).entries, specifier),
{
    let stored = after_records(world, source, url_map, records);
    let base = Published { entries: Seq::empty(), ..stored };
    let seen = seen_specifiers(records);
    lemma_after_records(world, source, url_map, records);
    let k = specifiers_of(world.entries).index_of(specifier);
    lemma_entry_found(world.entries, k);
    let all = stored.entries.len() as int;
    assert(stored.entries.take(all) =~= stored.entries);
    lemma_sweep_clears(base, source, url_map, seen, stored.entries, k);
    lemma_after_sweep(base, source, url_map, seen, stored.entries);
}

/// What the editor is sent for a record is the union of what all sources
/// hold for the record's document once the record is stored.
pub proof fn lemma_published_list_is_union(
    world: Published,
    source: DiagnosticSource,
    url_map: Map<Seq<char>, Seq<char>>,
    records: Seq<RecordView>,
    index: int,
)
    requires
        0 <= index < records.len(),
    ensures
        after_records(world, source, url_map, records).messages.len() == world.messages.len()
            + records.len(),
        after_records(world, source, url_map, records).messages[world.messages.len() + index] == (
        MessageView {
            uri: normalized(url_map, records[index].specifier),
            diagnostics: union_of(
                slots_of(
                    after_records(world, source, url_map, records.take(index + 1)).entries,
                    records[index].specifier,
                ),
            ),
            version: records[index].versioned.version,
        }),
    decreases records.len(),
{
    let before = records.drop_last();
    lemma_messages_grow(world, source, url_map, before);
    if index == records.len() - 1 {
        assert(records.take(index + 1) =~= records);
    } else {
        lemma_published_list_is_union(world, source, url_map, before, index);
        assert(before.take(index + 1) =~= records.take(index + 1));
    }
}

/// Publishing records sends the editor one message for each.
pub proof fn lemma_messages_grow(
    world: Published,
    source: DiagnosticSource,
    url_map: Map<Seq<char>, Seq<char>>,
    records: Seq<RecordView>,
)
    ensures
        after_records(world, source, url_map, records).messages.len() == world.messages.len()
            + records.len(),
    decreases records.len(),
{
    if records.len() > 0 {
        lemma_messages_grow(world, source, url_map, records.drop_last());
    }
}

/// A batch that is cancelled before one of its records is published leaves
/// everything as the records before that one left it: the record and those
/// behind it are not stored, the state hears nothing of them, and the editor
/// is sent nothing for them. Cancelled before the first record, the batch
/// changes nothing at all.
pub proof fn lemma_cancelled_record_is_not_stored(
    world: Published,
    source: DiagnosticSource,
    url_map: Map<Seq<char>, Seq<char>>,
    records: Seq<RecordView>,
    published: int,
    swept: int,
)
    requires
        0 <= published < records.len(),
    ensures
        published_at(world, source, url_map, records, published, swept) == after_records(
            world,
            source,
            url_map,
            records.take(published),
        ),
        published == 0 ==> published_at(world, source, url_map, records, published, swept)
            == world,
{
}

/// What the last record for `specifier` in a batch computed, where the
/// batch has a record for it.
pub open spec fn last_versioned(records: Seq<RecordView>, specifier: Seq<char>) -> Option<
    VersionedView,
>
    decreases records.len(),
{
    if records.len() == 0 {
        None
    } else if records.last().specifier == specifier {
        Some(records.last().versioned)
    } else {
        last_versioned(records.drop_last(), specifier)
    }
}

/// A batch has a last record for exactly the specifiers that it has a
/// record for.
pub proof fn lemma_last_versioned_seen(records: Seq<RecordView>, specifier: Seq<char>)
    ensures
        last_versioned(records, specifier) is Some <==> seen_specifiers(records).contains(
            specifier,
        ),
    decreases records.len(),
{
    if records.len() > 0 {
        lemma_seen_last(records, specifier);
        lemma_last_versioned_seen(records.drop_last(), specifier);
    }
}

/// Once the records of a batch are published, the publisher holds for each
/// specifier that the batch has a record for what its last record computed.
pub proof fn lemma_last_record_is_held(
    world: Published,
    source: DiagnosticSource,
    url_map: Map<Seq<char>, Seq<char>>,
    records: Seq<RecordView>,
    specifier: Seq<char>,
)
    requires
        entries_wf(world.entries),
        seen_specifiers(records).contains(specifier),
    ensures
        slot(slots_of(after_records(world, source, url_map, records).entries, specifier), source)
            == last_versioned(records, specifier),
    decreases records.len(),
{
    if records.len() > 0 {
        let before = records.drop_last();
        let last = records.last();
        let mid = after_records(world, source, url_map, before);
        lemma_after_records(world, source, url_map, before);
        lemma_store_record(mid.entries, source, last.specifier, last.versioned);
        lemma_seen_last(records, specifier);
        if last.specifier != specifier {
            lemma_last_record_is_held(world, source, url_map, before, specifier);
        }
    }
}

/// The entries with, for each specifier that `records` has a record for,
/// what its last record computed in the place of `source`.
pub open spec fn with_last_records(
    entries: Seq<EntryView>,
    source: DiagnosticSource,
    records: Seq<RecordView>,
) -> Seq<EntryView> {
    Seq::new(
        entries.len(),
        |k: int|
            EntryView {
                specifier: entries[k].specifier,
                slots: match last_versioned(records, entries[k].specifier) {
                    Some(versioned) => with_slot(entries[k].slots, source, Some(versioned)),
                    None => entries[k].slots,
                },
            },
    )
}

/// Where the publisher holds an entry for every specifier that a batch has
/// a record for, publishing the records keeps every entry in its place and
/// puts what the last record for its specifier computed in the place of the
/// batch's source.
pub proof fn lemma_records_into_held_entries(
    world: Published,
    source: DiagnosticSource,
    url_map: Map<Seq<char>, Seq<char>>,
    records: Seq<RecordView>,
)
    requires
        entries_wf(world.entries),
        forall|i: int| 0 <= i < records.len() ==> has_entry(world.entries, (#[trigger] records[i]).specifier),
    ensures
        after_records(world, source, url_map, records).entries == with_last_records(
            world.entries,
            source,
            records,
        ),
    decreases records.len(),
{
    let after = after_records(world, source, url_map, records);
    if records.len() > 0 {
        let before = records.drop_last();
        let last = records.last();
        let mid = after_records(world, source, url_map, before);
        lemma_records_into_held_entries(world, source, url_map, before);
        lemma_after_records(world, source, url_map, before);
        let at = specifiers_of(world.entries).index_of(last.specifier);
        lemma_entry_found(mid.entries, at);
        let wanted = with_last_records(world.entries, source, records);
        assert forall|k: int| 0 <= k < wanted.len() implies after.entries[k] == wanted[k] by {
            if k != at {
                lemma_entry_found(world.entries, k);
                lemma_entry_found(world.entries, at);
            }
        }
    }
}

/// The message for a record, given what the other sources hold for the
/// record's document.
pub open spec fn record_message(
    held: SlotsView,
    source: DiagnosticSource,
    url_map: Map<Seq<char>, Seq<char>>,
    record: RecordView,
) -> MessageView {
    MessageView {
        uri: normalized(url_map, record.specifier),
        diagnostics: union_of(with_slot(held, source, Some(record.versioned))),
        version: record.versioned.version,
    }
}

/// The messages for the records of a batch, given the entries that the
/// publisher held before the batch.
pub open spec fn record_messages(
    entries: Seq<EntryView>,
    source: DiagnosticSource,
    url_map: Map<Seq<char>, Seq<char>>,
    records: Seq<RecordView>,
) -> Seq<MessageView> {
    Seq::new(
        records.len(),
        |i: int|
            record_message(
                others(slots_of(entries, records[i].specifier), source),
                source,
                url_map,
                records[i],
            ),
    )
}

/// What the editor is sent for the records of a batch depends on the
/// records and on what the other sources held before the batch, and on
/// nothing else.
pub proof fn lemma_record_messages(
    world: Published,
    source: DiagnosticSource,
    url_map: Map<Seq<char>, Seq<char>>,
    records: Seq<RecordView>,
)
    requires
        entries_wf(world.entries),
    ensures
        after_records(world, source, url_map, records).messages == world.messages
            + record_messages(world.entries, source, url_map, records),
    decreases records.len(),
{
    if records.len() > 0 {
        let before = records.drop_last();
        let last = records.last();
        let mid = after_records(world, source, url_map, before);
        lemma_record_messages(world, source, url_map, before);
        lemma_after_records(world, source, url_map, before);
        lemma_store_record(mid.entries, source, last.specifier, last.versioned);
        let held = slots_of(mid.entries, last.specifier);
        assert(with_slot(held, source, Some(last.versioned)) == with_slot(
            others(held, source),
            source,
            Some(last.versioned),
        ));
    }
}

/// A sweep over entries of which none, apart from those in `seen`, holds
/// diagnostics of `source` keeps every entry and sends nothing.
pub proof fn lemma_sweep_of_swept(
    base: Published,
    source: DiagnosticSource,
    url_map: Map<Seq<char>, Seq<char>>,
    seen: Set<Seq<char>>,
    entries: Seq<EntryView>,
)
    requires
        forall|k: int|
            0 <= k < entries.len() ==> (#[trigger] entries[k]).slots != no_slots() && (
            seen.contains(entries[k].specifier) || slot(entries[k].slots, source) is None),
    ensures
        after_sweep(base, source, url_map, seen, entries) == (Published {
            entries: base.entries + entries,
            ..base
        }),
    decreases entries.len(),
{
    if entries.len() > 0 {
        let before = entries.drop_last();
        let last = entries.last();
        lemma_sweep_of_swept(base, source, url_map, seen, before);
        assert((base.entries + before).push(last) =~= base.entries + entries);
    }
}

/// What the editor shows for a document: the diagnostics last sent, and
/// their version.
pub struct Shown {
    pub diagnostics: Seq<DiagnosticView>,
    pub version: Option<i32>,
}

/// What the editor shows, by address, once it has received `messages` in
/// order: for each address what the last message for it holds.
pub open spec fn editor_after(editor: Map<Seq<char>, Shown>, messages: Seq<MessageView>) -> Map<
    Seq<char>,
    Shown,
>
    decreases messages.len(),
{
    if messages.len() == 0 {
        editor
    } else {
        editor_after(editor, messages.drop_last()).insert(
            messages.last().uri,
            Shown { diagnostics: messages.last().diagnostics, version: messages.last().version },
        )
    }
}

/// What the last of `messages` for `uri` holds, where there is one.
pub open spec fn last_shown(messages: Seq<MessageView>, uri: Seq<char>) -> Option<Shown>
    decreases messages.len(),
{
    if messages.len() == 0 {
        None
    } else if messages.last().uri == uri {
        Some(Shown { diagnostics: messages.last().diagnostics, version: messages.last().version })
    } else {
        last_shown(messages.drop_last(), uri)
    }
}

/// The editor shows for an address what the last message for it holds, and
/// what it showed before where no message is for it.
pub proof fn lemma_editor_after(
    editor: Map<Seq<char>, Shown>,
    messages: Seq<MessageView>,
    uri: Seq<char>,
)
    ensures
        editor_after(editor, messages).contains_key(uri) <==> (editor.contains_key(uri)
            || last_shown(messages, uri) is Some),
        last_shown(messages, uri) is Some ==> editor_after(editor, messages)[uri] == last_shown(
            messages,
            uri,
        )->0,
        last_shown(messages, uri) is None ==> editor_after(editor, messages)[uri] == editor[uri],
    decreases messages.len(),
{
    if messages.len() > 0 {
        lemma_editor_after(editor, messages.drop_last(), uri);
    }
}

/// The last message for an address among two runs of messages is the last
/// for it in the second run, or, where that has none, in the first.
pub proof fn lemma_last_shown_concat(
    first: Seq<MessageView>,
    second: Seq<MessageView>,
    uri: Seq<char>,
)
    ensures
        last_shown(first + second, uri) == match last_shown(second, uri) {
            Some(shown) => Some(shown),
            None => last_shown(first, uri),
        },
    decreases second.len(),
{
    if second.len() > 0 {
        assert((first + second).drop_last() =~= first + second.drop_last());
        lemma_last_shown_concat(first, second.drop_last(), uri);
    }
}

/// A message for an address is among the messages where a last one is.
pub proof fn lemma_last_shown_exists(messages: Seq<MessageView>, uri: Seq<char>)
    requires
        last_shown(messages, uri) is Some,
    ensures
        exists|j: int| 0 <= j < messages.len() && (#[trigger] messages[j]).uri == uri,
    decreases messages.len(),
{
    if messages.last().uri != uri {
        lemma_last_shown_exists(messages.drop_last(), uri);
    }
}

/// Whether `uri` is the address of a specifier outside `seen`.
pub open spec fn is_unseen_address(
    url_map: Map<Seq<char>, Seq<char>>,
    seen: Set<Seq<char>>,
    uri: Seq<char>,
) -> bool {
    exists|specifier: Seq<char>|
        !seen.contains(specifier) && #[trigger] normalized(url_map, specifier) == uri
}

/// A sweep keeps what the editor was sent before and adds messages for
/// documents outside `seen` alone.
pub proof fn lemma_sweep_messages(
    base: Published,
    source: DiagnosticSource,
    url_map: Map<Seq<char>, Seq<char>>,
    seen: Set<Seq<char>>,
    entries: Seq<EntryView>,
)
    ensures
        after_sweep(base, source, url_map, seen, entries).messages.len() >= base.messages.len(),
        forall|j: int|
            0 <= j < base.messages.len() ==> (#[trigger] after_sweep(
                base,
                source,
                url_map,
                seen,
                entries,
            ).messages[j]) == base.messages[j],
        forall|j: int|
            base.messages.len() <= j < after_sweep(base, source, url_map, seen, entries).messages.len()
                ==> is_unseen_address(
                url_map,
                seen,
                (#[trigger] after_sweep(base, source, url_map, seen, entries).messages[j]).uri,
            ),
    decreases entries.len(),
{
    if entries.len() > 0 {
        lemma_sweep_messages(base, source, url_map, seen, entries.drop_last());
    }
}

/// What the state holds for a specifier, where it holds anything.
pub open spec fn held(state: Map<Seq<char>, SpecifierStateView>, specifier: Seq<char>) -> Option<
    SpecifierStateView,
> {
    if state.contains_key(specifier) {
        Some(state[specifier])
    } else {
        None
    }
}

/// What the state holds for a specifier after an update for it.
pub open spec fn updated(
    current: Option<SpecifierStateView>,
    version: Option<i32>,
    diagnostics: Seq<DiagnosticView>,
) -> Option<SpecifierStateView> {
    if current is Some && current->0.version is Some && version is Some && version->0
        < current->0.version->0 {
        current
    } else {
        Some(SpecifierStateView { version, no_cache_diagnostics: no_cache_only(diagnostics) })
    }
}

/// An update changes what the state holds for its own specifier alone.
pub proof fn lemma_update_on_key(
    state: Map<Seq<char>, SpecifierStateView>,
    specifier: Seq<char>,
    version: Option<i32>,
    diagnostics: Seq<DiagnosticView>,
    key: Seq<char>,
)
    ensures
        held(state_after_update(state, specifier, version, diagnostics), key) == if key
            == specifier {
            updated(held(state, key), version, diagnostics)
        } else {
            held(state, key)
        },
{
}

/// What the state holds for `key` once the records of a batch are
/// published, given what it held before and what the other sources hold for
/// the document.
pub open spec fn held_after_records(
    current: Option<SpecifierStateView>,
    other_sources: SlotsView,
    source: DiagnosticSource,
    url_map: Map<Seq<char>, Seq<char>>,
    records: Seq<RecordView>,
    key: Seq<char>,
) -> Option<SpecifierStateView>
    decreases records.len(),
{
    if records.len() == 0 {
        current
    } else {
        let before = held_after_records(
            current,
            other_sources,
            source,
            url_map,
            records.drop_last(),
            key,
        );
        if records.last().specifier == key {
            updated(
                before,
                records.last().versioned.version,
                record_message(other_sources, source, url_map, records.last()).diagnostics,
            )
        } else {
            before
        }
    }
}

/// What the state holds for a specifier once the records of a batch are
/// published follows from what it held before, from the batch's records for
/// the specifier, and from what the other sources hold for the document.
pub proof fn lemma_state_after_records(
    world: Published,
    source: DiagnosticSource,
    url_map: Map<Seq<char>, Seq<char>>,
    records: Seq<RecordView>,
    key: Seq<char>,
)
    requires
        entries_wf(world.entries),
    ensures
        held(after_records(world, source, url_map, records).state, key) == held_after_records(
            held(world.state, key),
            others(slots_of(world.entries, key), source),
            source,
            url_map,
            records,
            key,
        ),
    decreases records.len(),
{
    if records.len() > 0 {
        let before = records.drop_last();
        let last = records.last();
        let mid = after_records(world, source, url_map, before);
        let after = after_records(world, source, url_map, records);
        lemma_state_after_records(world, source, url_map, before, key);
        lemma_record_messages(world, source, url_map, records);
        lemma_messages_grow(world, source, url_map, before);
        lemma_update_on_key(
            mid.state,
            last.specifier,
            last.versioned.version,
            after.messages.last().diagnostics,
            key,
        );
    }
}

/// The version that the state holds is none or at most `bound`.
pub open spec fn version_within(current: Option<SpecifierStateView>, bound: int) -> bool {
    current is Some ==> (current->0.version is Some ==> current->0.version->0 <= bound)
}

/// Where the records of a batch leave the state with no version above
/// `bound`, they do so from any start that has none above it either.
pub proof fn lemma_version_stays_within(
    first: Option<SpecifierStateView>,
    second: Option<SpecifierStateView>,
    other_sources: SlotsView,
    source: DiagnosticSource,
    url_map: Map<Seq<char>, Seq<char>>,
    records: Seq<RecordView>,
    key: Seq<char>,
    bound: int,
)
    requires
        version_within(
            held_after_records(first, other_sources, source, url_map, records, key),
            bound,
        ),
        version_within(second, bound),
    ensures
        version_within(
            held_after_records(second, other_sources, source, url_map, records, key),
            bound,
        ),
    decreases records.len(),
{
    if records.len() > 0 {
        let before = records.drop_last();
        let last = records.last();
        if last.specifier == key {
            if last.versioned.version is Some {
                lemma_version_stays_within(
                    first,
                    second,
                    other_sources,
                    source,
                    url_map,
                    before,
                    key,
                    bound,
                );
            }
        } else {
            lemma_version_stays_within(
                first,
                second,
                other_sources,
                source,
                url_map,
                before,
                key,
                bound,
            );
        }
    }
}

/// Publishing the records of a batch again leaves what the state holds for
/// a specifier as the first time left it.
pub proof fn lemma_state_settles(
    current: Option<SpecifierStateView>,
    other_sources: SlotsView,
    source: DiagnosticSource,
    url_map: Map<Seq<char>, Seq<char>>,
    records: Seq<RecordView>,
    key: Seq<char>,
)
    ensures
        held_after_records(
            held_after_records(current, other_sources, source, url_map, records, key),
            other_sources,
            source,
            url_map,
            records,
            key,
        ) == held_after_records(current, other_sources, source, url_map, records, key),
    decreases records.len(),
{
    if records.len() > 0 {
        let before = records.drop_last();
        let last = records.last();
        let reached = held_after_records(current, other_sources, source, url_map, before, key);
        let settled = held_after_records(current, other_sources, source, url_map, records, key);
        lemma_state_settles(current, other_sources, source, url_map, before, key);
        if last.specifier == key {
            let version = last.versioned.version;
            if settled != reached && version is Some {
                lemma_version_stays_within(
                    current,
                    settled,
                    other_sources,
                    source,
                    url_map,
                    before,
                    key,
                    version->0 as int,
                );
            }
        }
    }
}

/// A specifier that a batch has no record for is held by the state as
/// before once the batch's records are published.
pub proof fn lemma_state_of_unseen(
    current: Option<SpecifierStateView>,
    other_sources: SlotsView,
    source: DiagnosticSource,
    url_map: Map<Seq<char>, Seq<char>>,
    records: Seq<RecordView>,
    key: Seq<char>,
)
    requires
        !seen_specifiers(records).contains(key),
    ensures
        held_after_records(current, other_sources, source, url_map, records, key) == current,
    decreases records.len(),
{
    if records.len() > 0 {
        lemma_seen_last(records, key);
        lemma_state_of_unseen(current, other_sources, source, url_map, records.drop_last(), key);
    }
}

/// A sweep leaves what the state holds for the specifiers in `seen`.
pub proof fn lemma_sweep_state(
    base: Published,
    source: DiagnosticSource,
    url_map: Map<Seq<char>, Seq<char>>,
    seen: Set<Seq<char>>,
    entries: Seq<EntryView>,
    key: Seq<char>,
)
    requires
        seen.contains(key),
    ensures
        held(after_sweep(base, source, url_map, seen, entries).state, key) == held(
            base.state,
            key,
        ),
    decreases entries.len(),
{
    if entries.len() > 0 {
        let kept = after_sweep(base, source, url_map, seen, entries.drop_last());
        let last = entries.last();
        lemma_sweep_state(base, source, url_map, seen, entries.drop_last(), key);
        if !seen.contains(last.specifier) && slot(last.slots, source) is Some {
            lemma_update_on_key(
                kept.state,
                last.specifier,
                slot(last.slots, source)->0.version,
                Seq::empty(),
                key,
            );
        }
    }
}

/// Publishing a batch a second time changes nothing: the publisher and the
/// state hold what they held after the first time, and the editor shows
/// what it showed then. This holds where no two documents share an address.
pub proof fn lemma_publishing_twice_changes_nothing(
    world: Published,
    source: DiagnosticSource,
    url_map: Map<Seq<char>, Seq<char>>,
    records: Seq<RecordView>,
    editor: Map<Seq<char>, Shown>,
)
    requires
        entries_wf(world.entries),
        addresses_differ(url_map),
    ensures
        published_batch(
            Published {
                messages: Seq::empty(),
                ..published_batch(world, source, url_map, records)
            },
            source,
            url_map,
            records,
        ).entries == published_batch(world, source, url_map, records).entries,
        published_batch(
            Published {
                messages: Seq::empty(),
                ..published_batch(world, source, url_map, records)
            },
            source,
            url_map,
            records,
        ).state == published_batch(world, source, url_map, records).state,
        editor_after(
            editor_after(editor, published_batch(world, source, url_map, records).messages),
            published_batch(
                Published {
                    messages: Seq::empty(),
                    ..published_batch(world, source, url_map, records)
                },
                source,
                url_map,
                records,
            ).messages,
        ) == editor_after(editor, published_batch(world, source, url_map, records).messages),
{
    let seen = seen_specifiers(records);
    // the first time
    let stored1 = after_records(world, source, url_map, records);
    let base1 = Published { entries: Seq::empty(), ..stored1 };
    let swept1 = after_sweep(base1, source, url_map, seen, stored1.entries);
    let first = published_batch(world, source, url_map, records);
    lemma_after_records(world, source, url_map, records);
    lemma_record_messages(world, source, url_map, records);
    lemma_after_sweep(base1, source, url_map, seen, stored1.entries);
    lemma_sweep_messages(base1, source, url_map, seen, stored1.entries);
    assert(stored1.entries.take(stored1.entries.len() as int) =~= stored1.entries);
    let sent = record_messages(world.entries, source, url_map, records);
    let cleared = swept1.messages.skip(stored1.messages.len() as int);
    assert(first.messages =~= (world.messages + sent) + cleared);
    // the second time
    let again = Published { messages: Seq::empty(), ..first };
    let stored2 = after_records(again, source, url_map, records);
    let base2 = Published { entries: Seq::empty(), ..stored2 };
    let second = published_batch(again, source, url_map, records);
    lemma_records_into_held_entries(again, source, url_map, records);
    lemma_record_messages(again, source, url_map, records);
    assert forall|k: int| 0 <= k < first.entries.len() implies with_last_records(
        first.entries,
        source,
        records,
    )[k] == first.entries[k] by {
        let specifier = first.entries[k].specifier;
        lemma_entry_found(first.entries, k);
        lemma_last_versioned_seen(records, specifier);
        if seen.contains(specifier) {
            lemma_last_record_is_held(world, source, url_map, records, specifier);
        }
    }
    assert forall|k: int| 0 <= k < first.entries.len() implies (#[trigger] first.entries[k]).slots
        != no_slots() && (seen.contains(first.entries[k].specifier) || slot(
        first.entries[k].slots,
        source,
    ) is None) by {
        lemma_entry_found(first.entries, k);
    }
    lemma_sweep_of_swept(base2, source, url_map, seen, stored2.entries);
    assert(stored2.entries.take(stored2.entries.len() as int) =~= stored2.entries);
    let sent_again = record_messages(first.entries, source, url_map, records);
    assert(sent_again =~= sent);
    // the state
    assert forall|key: Seq<char>|
        (#[trigger] second.state.dom().contains(key) <==> first.state.dom().contains(key)) && (
        second.state.dom().contains(key) ==> second.state[key] == first.state[key]) by {
        lemma_state_after_records(again, source, url_map, records, key);
        if seen.contains(key) {
            lemma_sweep_state(base1, source, url_map, seen, stored1.entries, key);
            lemma_state_after_records(world, source, url_map, records, key);
            lemma_state_settles(
                held(world.state, key),
                others(slots_of(world.entries, key), source),
                source,
                url_map,
                records,
                key,
            );
        } else {
            lemma_state_of_unseen(
                held(first.state, key),
                others(slots_of(first.entries, key), source),
                source,
                url_map,
                records,
                key,
            );
        }
    }
    // the editor
    let shown1 = editor_after(editor, first.messages);
    let shown2 = editor_after(shown1, second.messages);
    assert forall|uri: Seq<char>|
        (#[trigger] shown2.dom().contains(uri) <==> shown1.dom().contains(uri)) && (
        shown2.dom().contains(uri) ==> shown2[uri] == shown1[uri]) by {
        lemma_editor_after(shown1, sent, uri);
        lemma_editor_after(editor, first.messages, uri);
        if last_shown(sent, uri) is Some {
            lemma_last_shown_exists(sent, uri);
            if last_shown(cleared, uri) is Some {
                lemma_last_shown_exists(cleared, uri);
            }
            lemma_last_shown_concat(world.messages + sent, cleared, uri);
            lemma_last_shown_concat(world.messages, sent, uri);
        }
    }
}

/// The last record of a batch for a specifier is the one behind which no
/// record is for it.
pub proof fn lemma_last_versioned_at(records: Seq<RecordView>, index: int)
    requires
        0 <= index < records.len(),
        forall|j: int|
            index < j < records.len() ==> (#[trigger] records[j]).specifier
                != records[index].specifier,
    ensures
        last_versioned(records, records[index].specifier) == Some(records[index].versioned),
    decreases records.len(),
{
    if index < records.len() - 1 {
        let before = records.drop_last();
        lemma_last_versioned_at(before, index);
    }
}

/// Once a batch has run to its end, what the editor was last sent for each
/// document of the batch is the union of what all sources hold for it.
pub proof fn lemma_last_published_list_is_current(
    world: Published,
    source: DiagnosticSource,
    url_map: Map<Seq<char>, Seq<char>>,
    records: Seq<RecordView>,
    index: int,
)
    requires
        entries_wf(world.entries),
        0 <= index < records.len(),
        forall|j: int|
            index < j < records.len() ==> (#[trigger] records[j]).specifier
                != records[index].specifier,
    ensures
        after_records(world, source, url_map, records).messages.len() == world.messages.len()
            + records.len(),
        after_records(world, source, url_map, records).messages[world.messages.len()
            + index].diagnostics == union_of(
            slots_of(
                published_batch(world, source, url_map, records).entries,
                records[index].specifier,
            ),
        ),
{
    let specifier = records[index].specifier;
    let seen = seen_specifiers(records);
    let stored = after_records(world, source, url_map, records);
    let base = Published { entries: Seq::empty(), ..stored };
    lemma_after_records(world, source, url_map, records);
    lemma_record_messages(world, source, url_map, records);
    lemma_after_sweep(base, source, url_map, seen, stored.entries);
    lemma_last_versioned_at(records, index);
    lemma_last_record_is_held(world, source, url_map, records, specifier);
    assert(stored.entries.take(stored.entries.len() as int) =~= stored.entries);
    let held = slots_of(stored.entries, specifier);
    assert(others(held, source) == others(slots_of(world.entries, specifier), source));
}

/// No two documents share an address.
pub open spec fn addresses_differ(url_map: Map<Seq<char>, Seq<char>>) -> bool {
    forall|a: Seq<char>, b: Seq<char>|
        #[trigger] normalized(url_map, a) == #[trigger] normalized(url_map, b) ==> a == b
}

/// A sweep sends the editor at most one message under the address of a
/// document, and none under that of a document without an entry.
pub proof fn lemma_sweep_sends_once(
    base: Published,
    source: DiagnosticSource,
    url_map: Map<Seq<char>, Seq<char>>,
    seen: Set<Seq<char>>,
    entries: Seq<EntryView>,
    specifier: Seq<char>,
)
    requires
        entries_wf(entries),
        addresses_differ(url_map),
    ensures
        forall|i: int, j: int|
            base.messages.len() <= i < after_sweep(base, source, url_map, seen, entries).messages.len()
                && base.messages.len() <= j < after_sweep(
                base,
                source,
                url_map,
                seen,
                entries,
            ).messages.len() && (#[trigger] after_sweep(
                base,
                source,
                url_map,
                seen,
                entries,
            ).messages[i]).uri == normalized(url_map, specifier) && (#[trigger] after_sweep(
                base,
                source,
                url_map,
                seen,
                entries,
            ).messages[j]).uri == normalized(url_map, specifier) ==> i == j,
        !has_entry(entries, specifier) ==> forall|i: int|
            base.messages.len() <= i < after_sweep(base, source, url_map, seen, entries).messages.len()
                ==> (#[trigger] after_sweep(base, source, url_map, seen, entries).messages[i]).uri
                != normalized(url_map, specifier),
    decreases entries.len(),
{
    if entries.len() > 0 {
        let before = entries.drop_last();
        lemma_drop_last_entry(entries);
        lemma_sweep_sends_once(base, source, url_map, seen, before, specifier);
        lemma_sweep_messages(base, source, url_map, seen, before);
    }
}

/// Where no two documents share an address, a batch sends the editor
/// exactly one message for each document that held diagnostics of the
/// batch's source alone and that the batch has no record for: the empty
/// list that clears it.
pub proof fn lemma_stale_documents_are_cleared_once(
    world: Published,
    source: DiagnosticSource,
    url_map: Map<Seq<char>, Seq<char>>,
    records: Seq<RecordView>,
    specifier: Seq<char>,
    first: int,
    second: int,
)
    requires
        entries_wf(world.entries),
        addresses_differ(url_map),
        !seen_specifiers(records).contains(specifier),
        world.messages.len() <= first < published_batch(
            world,
            source,
            url_map,
            records,
        ).messages.len(),
        world.messages.len() <= second < published_batch(
            world,
            source,
            url_map,
            records,
        ).messages.len(),
        published_batch(world, source, url_map, records).messages[first].uri == normalized(
            url_map,
            specifier,
        ),
        published_batch(world, source, url_map, records).messages[second].uri == normalized(
            url_map,
            specifier,
        ),
    ensures
        first == second,
        published_batch(world, source, url_map, records).messages[first].diagnostics
            == Seq::<DiagnosticView>::empty(),
{
    let stored = after_records(world, source, url_map, records);
    let base = Published { entries: Seq::empty(), ..stored };
    let seen = seen_specifiers(records);
    lemma_after_records(world, source, url_map, records);
    lemma_record_messages(world, source, url_map, records);
    lemma_sweep_messages(base, source, url_map, seen, stored.entries);
    lemma_sweep_sends_once(base, source, url_map, seen, stored.entries, specifier);
    assert(stored.entries.take(stored.entries.len() as int) =~= stored.entries);
    lemma_sweep_message_is_clearing(base, source, url_map, seen, stored.entries, first);
}

/// Every message that a sweep sends holds an empty list.
pub proof fn lemma_sweep_message_is_clearing(
    base: Published,
    source: DiagnosticSource,
    url_map: Map<Seq<char>, Seq<char>>,
    seen: Set<Seq<char>>,
    entries: Seq<EntryView>,
    index: int,
)
    requires
        base.messages.len() <= index < after_sweep(
            base,
            source,
            url_map,
            seen,
            entries,
        ).messages.len(),
    ensures
        after_sweep(base, source, url_map, seen, entries).messages[index].diagnostics
            == Seq::<DiagnosticView>::empty(),
    decreases entries.len(),
{
    if entries.len() > 0 {
        let kept = after_sweep(base, source, url_map, seen, entries.drop_last());
        lemma_sweep_messages(base, source, url_map, seen, entries.drop_last());
        if index < kept.messages.len() {
            lemma_sweep_message_is_clearing(
                base,
                source,
                url_map,
                seen,
                entries.drop_last(),
                index,
            );
        }
    }
}

} // verus!
