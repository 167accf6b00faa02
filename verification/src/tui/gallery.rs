use indexmap::IndexMap;
use vstd::prelude::*;

verus! {

/// The insertion-ordered hash map of the `indexmap` crate.
#[verifier::external_type_specification]
#[verifier::external_body]
#[verifier::reject_recursive_types(K)]
#[verifier::reject_recursive_types(V)]
#[verifier::reject_recursive_types(S)]
pub struct ExIndexMap<K, V, S>(IndexMap<K, V, S>);

/// The entries of a map from image paths to image handles, in the order in which
/// their keys were first inserted.
pub uninterp spec fn entries(images: IndexMap<String, usize>) -> Seq<(Seq<char>, usize)>;

/// The position of the entry of `entries` whose key is `path`, or -1 when there is
/// none.
pub open spec fn entry_position(entries: Seq<(Seq<char>, usize)>, path: Seq<char>) -> int
    decreases entries.len(),
{
    if entries.len() == 0 {
        -1
    } else if entries.last().0 == path {
        entries.len() - 1
    } else {
        entry_position(entries.drop_last(), path)
    }
}

/// Whether an entry of `entries` has the key `path`.
pub open spec fn has_entry(entries: Seq<(Seq<char>, usize)>, path: Seq<char>) -> bool {
    entry_position(entries, path) >= 0
}

/// `IndexMap::new` makes a map without entries.
#[verifier::external_body]
pub(crate) fn images_new() -> (images: IndexMap<String, usize>)
    ensures
        entries(images) == Seq::<(Seq<char>, usize)>::empty(),
{
    IndexMap::new()
}

/// `IndexMap::len` returns the number of entries.
#[verifier::external_body]
pub(crate) fn images_len(images: &IndexMap<String, usize>) -> (n: usize)
    ensures
        n == entries(*images).len(),
{
    images.len()
}

/// `IndexMap::contains_key` tells whether an entry has a key equal to `path`.
#[verifier::external_body]
pub(crate) fn images_contains(images: &IndexMap<String, usize>, path: &str) -> (r: bool)
    ensures
        r == has_entry(entries(*images), path@),
{
    images.contains_key(path)
}

/// `IndexMap::insert` puts the value under the key. Where an entry has an equal key
/// already, that entry keeps its place and gets the new value, and the old value is
/// returned; otherwise the new entry comes last and `None` is returned.
#[verifier::external_body]
pub(crate) fn images_insert(
    images: &mut IndexMap<String, usize>,
    path: String,
    handle: usize,
) -> (r: Option<usize>)
    ensures
        has_entry(entries(*old(images)), path@) ==> r == Some(
            entries(*old(images))[entry_position(entries(*old(images)), path@)].1,
        ) && entries(*final(images)) == entries(*old(images)).update(
            entry_position(entries(*old(images)), path@),
            (path@, handle),
        ),
        !has_entry(entries(*old(images)), path@) ==> r is None && entries(*final(images))
            == entries(*old(images)).push((path@, handle)),
{
    images.insert(path, handle)
}

/// `IndexMap::clear` removes every entry.
#[verifier::external_body]
pub(crate) fn images_clear(images: &mut IndexMap<String, usize>)
    ensures
        entries(*final(images)) == Seq::<(Seq<char>, usize)>::empty(),
{
    images.clear()
}

/// `IndexMap::get_index` returns the entry at position `index`, or `None` where the
/// map has no such position. Of the entry, the handle is handed out.
#[verifier::external_body]
pub(crate) fn images_get_index(images: &IndexMap<String, usize>, index: usize) -> (r: Option<usize>)
    ensures
        index < entries(*images).len() ==> r == Some(entries(*images)[index as int].1),
        index >= entries(*images).len() ==> r is None,
{
    images.get_index(index).map(|(_, handle)| *handle)
}

} // verus!
