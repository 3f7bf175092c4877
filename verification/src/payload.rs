//! Request payloads: flat objects of texts, numbers and truth values.
//!
//! A payload is described by its entries, in order, and by the map from key
//! to content that they amount to. Merging one payload into another is done
//! by `json_patch`.

use vstd::prelude::*;
use crate::json::{lift, lower, member, Json};

verus! {

/// What a member of a payload holds, as far as requests go.
pub ghost enum Content {
    Text(Seq<char>),
    Unsigned(u64),
    Flag(bool),
    /// `null`, an array, an object, or a number that is no unsigned integer:
    /// nothing that a request holds.
    Other,
}

/// A member of a payload: its key and what it holds.
pub type Entry = (Seq<char>, Content);

/// What a value holds.
pub open spec fn content_of(value: Json) -> Content {
    match value {
        Json::Text(s) => Content::Text(s@),
        Json::Unsigned(n) => Content::Unsigned(n),
        Json::Bool(b) => Content::Flag(b),
        _ => Content::Other,
    }
}

/// The members of an object as entries, in order.
pub open spec fn described(fields: Seq<(String, Json)>) -> Seq<Entry> {
    Seq::new(fields.len(), |i: int| (fields[i].0@, content_of(fields[i].1)))
}

/// Whether a document is the flat object that the `entries` describe.
pub open spec fn is_payload(document: Json, entries: Seq<Entry>) -> bool {
    match document {
        Json::Object(fields) => described(fields@) == entries,
        _ => false,
    }
}

/// Whether some entry has the key `key`.
pub open spec fn has_key(entries: Seq<Entry>, key: Seq<char>) -> bool {
    exists|i: int| 0 <= i < entries.len() && (#[trigger] entries[i]).0 == key
}

/// One entry where there is a value, none where there is not.
pub open spec fn optional_entry(key: Seq<char>, value: Option<Content>) -> Seq<Entry> {
    match value {
        Some(content) => seq![(key, content)],
        None => Seq::empty(),
    }
}

/// A text as the content of an optional member.
pub open spec fn optional_text(value: Option<Seq<char>>) -> Option<Content> {
    match value {
        Some(text) => Some(Content::Text(text)),
        None => None,
    }
}

/// A truth value as the content of an optional member.
pub open spec fn optional_flag(value: Option<bool>) -> Option<Content> {
    match value {
        Some(flag) => Some(Content::Flag(flag)),
        None => None,
    }
}

/// The view of an optional text.
pub open spec fn text_view(value: Option<String>) -> Option<Seq<char>> {
    match value {
        Some(text) => Some(text@),
        None => None,
    }
}

/// Adds a text member at the end of an object.
pub fn push_text(fields: &mut Vec<(String, Json)>, key: &str, value: &str)
    ensures
        described(final(fields)@) == described(old(fields)@).push((key@, Content::Text(value@))),
{
    fields.push((key.to_owned(), Json::Text(value.to_owned())));
    assert(described(fields@) =~= described(old(fields)@).push((key@, Content::Text(value@))));
}

/// Adds a number member at the end of an object.
pub fn push_unsigned(fields: &mut Vec<(String, Json)>, key: &str, value: usize)
    ensures
        described(final(fields)@) == described(old(fields)@).push(
            (key@, Content::Unsigned(value as u64)),
        ),
{
    fields.push((key.to_owned(), Json::Unsigned(value as u64)));
    assert(described(fields@) =~= described(old(fields)@).push(
        (key@, Content::Unsigned(value as u64)),
    ));
}

/// Adds a truth value member at the end of an object.
pub fn push_flag(fields: &mut Vec<(String, Json)>, key: &str, value: bool)
    ensures
        described(final(fields)@) == described(old(fields)@).push((key@, Content::Flag(value))),
{
    fields.push((key.to_owned(), Json::Bool(value)));
    assert(described(fields@) =~= described(old(fields)@).push((key@, Content::Flag(value))));
}

/// A key is among the entries of two sequences joined exactly where it is
/// among those of one of them.
pub proof fn key_of_joined(first: Seq<Entry>, second: Seq<Entry>, key: Seq<char>)
    ensures
        has_key(first + second, key) <==> has_key(first, key) || has_key(second, key),
{
    let joined = first + second;
    if has_key(joined, key) {
        let i = choose|i: int| 0 <= i < joined.len() && (#[trigger] joined[i]).0 == key;
        if i < first.len() {
            assert(first[i].0 == key);
        } else {
            assert(second[i - first.len()].0 == key);
        }
    }
    if has_key(first, key) {
        let i = choose|i: int| 0 <= i < first.len() && (#[trigger] first[i]).0 == key;
        assert(joined[i].0 == key);
    }
    if has_key(second, key) {
        let i = choose|i: int| 0 <= i < second.len() && (#[trigger] second[i]).0 == key;
        assert(joined[first.len() + i].0 == key);
    }
}

/// An optional entry brings its key exactly where there is a value.
pub proof fn key_of_optional(name: Seq<char>, value: Option<Content>, key: Seq<char>)
    ensures
        has_key(optional_entry(name, value), key) <==> value is Some && name == key,
{
    let entries = optional_entry(name, value);
    if value is Some && name == key {
        assert(entries[0].0 == key);
    }
}

/// The entries as a map from key to content; of two entries with one key the
/// later one counts.
pub open spec fn as_map(entries: Seq<Entry>) -> Map<Seq<char>, Content>
    decreases entries.len(),
{
    if entries.len() == 0 {
        Map::empty()
    } else {
        as_map(entries.drop_last()).insert(entries.last().0, entries.last().1)
    }
}

/// Whether every entry holds a text, an unsigned number or a truth value.
pub open spec fn all_scalar(entries: Seq<Entry>) -> bool {
    forall|i: int| 0 <= i < entries.len() ==> (#[trigger] entries[i]).1 != Content::Other
}

/// Whether a document is an object of which every member holds a text, an
/// unsigned number or a truth value.
pub open spec fn is_flat(document: Json) -> bool {
    match document {
        Json::Object(fields) => all_scalar(described(fields@)),
        _ => false,
    }
}

/// The entries of an object as a map; the empty map for what is no object.
pub open spec fn map_of(document: Json) -> Map<Seq<char>, Content> {
    match document {
        Json::Object(fields) => as_map(described(fields@)),
        _ => Map::empty(),
    }
}

/// Calls `json_patch::merge` with `target` as the document and `patch` as the
/// patch, and returns the document that it leaves.
///
/// Trusted. Where the patch is an object, so is the outcome: `merge` makes
/// the document an object before it goes through the members of the patch.
/// Where both are flat, the outcome has every member of `patch`, and every
/// member of `target` whose key `patch` does not have: for each member of the
/// patch that is neither `null` nor an object, `merge` sets the member of that
/// key in the document, and it touches no other. Nothing is stated of a
/// target or a patch with a member that is `null`, nested, or a number other
/// than an unsigned integer.
#[verifier::external_body]
pub(crate) fn merge(target: &Json, patch: &Json) -> (r: Json)
    ensures
        *patch is Object ==> r is Object,
        is_flat(*target) && is_flat(*patch) ==> map_of(r) == map_of(*target).union_prefer_right(
            map_of(*patch),
        ),
{
    let mut document = lower(target);
    json_patch::merge(&mut document, &lower(patch));
    lift(&document)
}

/// Adding an entry at the end sets its key in the map.
pub proof fn map_of_pushed(entries: Seq<Entry>, entry: Entry)
    ensures
        as_map(entries.push(entry)) == as_map(entries).insert(entry.0, entry.1),
{
    assert(entries.push(entry).drop_last() =~= entries);
}

/// The keys of the map are the keys of the entries.
pub proof fn keys_of_map(entries: Seq<Entry>, key: Seq<char>)
    ensures
        as_map(entries).dom().contains(key) <==> has_key(entries, key),
    decreases entries.len(),
{
    if entries.len() > 0 {
        let front = entries.drop_last();
        keys_of_map(front, key);
        if has_key(front, key) {
            let i = choose|i: int| 0 <= i < front.len() && (#[trigger] front[i]).0 == key;
            assert(entries[i].0 == key);
        }
        if entries.last().0 == key {
            assert(entries[entries.len() - 1].0 == key);
        }
        if has_key(entries, key) {
            let i = choose|i: int| 0 <= i < entries.len() && (#[trigger] entries[i]).0 == key;
            if i < front.len() {
                assert(front[i].0 == key);
            }
        }
    }
}

/// What a lookup finds under a key is what the map holds under it: a key
/// that a lookup does not find is not in the map.
pub proof fn lookup_agrees_with_map(fields: Seq<(String, Json)>, key: Seq<char>)
    ensures
        match member(fields, key) {
            Some(value) => as_map(described(fields)).dom().contains(key) && as_map(
                described(fields),
            )[key] == content_of(value),
            None => !as_map(described(fields)).dom().contains(key),
        },
    decreases fields.len(),
{
    if fields.len() > 0 {
        lookup_agrees_with_map(fields.drop_last(), key);
        assert(described(fields).drop_last() =~= described(fields.drop_last()));
    }
}

} // verus!
