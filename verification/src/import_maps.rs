//! What the import map is asked.

use vstd::prelude::*;
use import_map::ImportMap;
use lsp_types::Url;
use crate::specifier::ModuleSpecifier;

verus! {

/// `import_map`'s `ImportMap`, carried about as it is: nothing is known of
/// what is inside.
#[verifier::external_type_specification]
#[verifier::external_body]
pub struct ExImportMap(ImportMap);

/// What an import map holds: its base URL, its imports and its scopes,
/// written out as text.
pub uninterp spec fn import_map_contents(map: ImportMap) -> Seq<char>;

/// The specifier under which an import map with these contents lets the
/// document `referrer` import the module `specifier`, where it has one;
/// `None` also where either text is no absolute URL.
pub uninterp spec fn import_map_lookup(
    contents: Seq<char>,
    specifier: Seq<char>,
    referrer: Seq<char>,
) -> Option<Seq<char>>;

/// Parses both texts with `Url::parse` and calls `ImportMap::lookup`. The
/// result is a function of what the map holds and of the two texts; nothing
/// more is claimed.
#[verifier::external_body]
fn lookup_in_map(map: &ImportMap, specifier: &str, referrer: &str) -> (key: Option<String>)
    ensures
        key.deep_view() == import_map_lookup(import_map_contents(*map), specifier@, referrer@),
{
    match (Url::parse(specifier), Url::parse(referrer)) {
        (Ok(specifier), Ok(referrer)) => map.lookup(&specifier, &referrer),
        _ => None,
    }
}

/// The entries that an import map with these contents holds for the
/// document `referrer`, in the order in which they are tried: those of the
/// scopes that the referrer lies in, then the map's own. Each is a key as
/// the map holds it and the address that the key stands for, where it
/// stands for one. There is none where `referrer` is no absolute URL.
pub uninterp spec fn import_map_entries(contents: Seq<char>, referrer: Seq<char>) -> Seq<
    (Seq<char>, Option<Seq<char>>),
>;

/// Parses the referrer with `Url::parse`, calls
/// `ImportMap::entries_for_referrer` and hands out of each entry the key
/// and the address. The result is a function of what the map holds and of
/// the text; nothing more is claimed.
#[verifier::external_body]
fn entries_in_map(map: &ImportMap, referrer: &str) -> (entries: Vec<(String, Option<String>)>)
    ensures
        entries.deep_view() == import_map_entries(import_map_contents(*map), referrer@),
{
    match Url::parse(referrer) {
        Ok(referrer) => map.entries_for_referrer(&referrer).map(
            |entry| (entry.key.to_string(), entry.value.map(|address| address.to_string())),
        ).collect(),
        Err(_) => Vec::new(),
    }
}

/// Whether `text` ends in a slash.
pub open spec fn ends_in_slash(text: Seq<char>) -> bool {
    text.len() > 0 && text.last() == '/'
}

/// Whether an entry can be resolved through: a key that ends in a slash
/// stands for an address that ends in one, if it stands for any.
pub open spec fn is_sound_entry(entry: (Seq<char>, Option<Seq<char>>)) -> bool {
    ends_in_slash(entry.0) && entry.1 is Some ==> ends_in_slash(entry.1->0)
}

/// Whether every one of `entries` can be resolved through.
pub open spec fn are_sound(entries: Seq<(Seq<char>, Option<Seq<char>>)>) -> bool {
    forall|i: int| 0 <= i < entries.len() ==> is_sound_entry(#[trigger] entries[i])
}

/// Whether an import map with these contents can be asked to resolve for
/// the document `referrer`: every entry that it holds for the referrer can
/// be resolved through.
pub open spec fn is_sound_for(contents: Seq<char>, referrer: Seq<char>) -> bool {
    are_sound(import_map_entries(contents, referrer))
}

/// Whether an import map with these contents resolves `specifier`, as a
/// document writes it, for the document `referrer`; not so where `referrer`
/// is no absolute URL.
pub uninterp spec fn import_map_resolves(
    contents: Seq<char>,
    specifier: Seq<char>,
    referrer: Seq<char>,
) -> bool;

/// Parses the referrer with `Url::parse`, calls `ImportMap::resolve` and
/// says whether it succeeded. The result is a function of what the map
/// holds and of the two texts; nothing more is claimed. Maps with an entry
/// for the referrer whose key ends in a slash and whose address does not
/// are left out: `resolve` asserts that there is none and panics on one.
#[verifier::external_body]
fn resolves_in_map(map: &ImportMap, specifier: &str, referrer: &str) -> (resolved: bool)
    requires
        is_sound_for(import_map_contents(*map), referrer@),
    ensures
        resolved == import_map_resolves(import_map_contents(*map), specifier@, referrer@),
{
    match Url::parse(referrer) {
        Ok(referrer) => map.resolve(specifier, &referrer).is_ok(),
        Err(_) => false,
    }
}

fn text_ends_in_slash(text: &str) -> (found: bool)
    ensures
        found == ends_in_slash(text@),
{
    let n = text.unicode_len();
    n > 0 && text.get_char(n - 1) == '/'
}

/// Whether every one of `entries` can be resolved through.
pub fn check_entries(entries: &Vec<(String, Option<String>)>) -> (sound: bool)
    ensures
        sound == are_sound(entries.deep_view()),
{
    let mut i: usize = 0;
    while i < entries.len()
        invariant
            i <= entries.len(),
            forall|j: int| 0 <= j < i ==> is_sound_entry(#[trigger] entries.deep_view()[j]),
        decreases entries.len() - i,
    {
        let sound = match &entries[i].1 {
            Some(address) => !text_ends_in_slash(entries[i].0.as_str()) || text_ends_in_slash(
                address.as_str(),
            ),
            None => true,
        };
        if !sound {
            assert(!is_sound_entry(entries.deep_view()[i as int]));
            return false;
        }
        assert(is_sound_entry(entries.deep_view()[i as int]));
        i += 1;
    }
    true
}

/// The specifier under which the map lets `referrer` import `specifier`,
/// where it has one.
pub fn lookup(map: &ImportMap, specifier: &ModuleSpecifier, referrer: &ModuleSpecifier) -> (key:
    Option<String>)
    ensures
        key.deep_view() == import_map_lookup(import_map_contents(*map), specifier@, referrer@),
{
    lookup_in_map(map, specifier.as_str(), referrer.as_str())
}

/// Whether the map resolves `specifier`, as a document writes it, for
/// `referrer`. The map must be one that can be asked for the referrer.
pub fn resolves(map: &ImportMap, specifier: &str, referrer: &ModuleSpecifier) -> (resolved: bool)
    requires
        is_sound_for(import_map_contents(*map), referrer@),
    ensures
        resolved == import_map_resolves(import_map_contents(*map), specifier@, referrer@),
{
    resolves_in_map(map, specifier, referrer.as_str())
}

/// What a map that may or may not be one that can be asked answers: whether
/// it resolves `specifier` for `referrer`, or nothing where it cannot be
/// asked for the referrer.
pub open spec fn sound_resolves(contents: Seq<char>, specifier: Seq<char>, referrer: Seq<char>)
    -> Option<bool> {
    if is_sound_for(contents, referrer) {
        Some(import_map_resolves(contents, specifier, referrer))
    } else {
        None
    }
}

/// Whether the map resolves `specifier`, as a document writes it, for
/// `referrer`; `None` where the map cannot be asked for the referrer. The
/// entries that the map holds for the referrer are tested first, and the
/// map is asked only where they can be resolved through.
pub fn resolves_if_sound(map: &ImportMap, specifier: &str, referrer: &ModuleSpecifier) -> (resolved:
    Option<bool>)
    ensures
        resolved == sound_resolves(import_map_contents(*map), specifier@, referrer@),
{
    let entries = entries_in_map(map, referrer.as_str());
    if check_entries(&entries) {
        Some(resolves(map, specifier, referrer))
    } else {
        None
    }
}

} // verus!
