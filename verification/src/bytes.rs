//! Byte strings: program names, arguments, paths and environment entries.
//!
//! The operating system takes these as arbitrary bytes, so they are kept as
//! `Vec<u8>` and never assumed to be text.
use vstd::prelude::*;

verus! {

/// The contents of a list of byte strings.
pub open spec fn list_view(list: Seq<Vec<u8>>) -> Seq<Seq<u8>> {
    list.map_values(|item: Vec<u8>| item@)
}

/// The contents of a list of key and value pairs.
pub open spec fn pairs_view(pairs: Seq<(Vec<u8>, Vec<u8>)>) -> Seq<(Seq<u8>, Seq<u8>)> {
    pairs.map_values(|pair: (Vec<u8>, Vec<u8>)| (pair.0@, pair.1@))
}

/// The contents of an optional byte string.
pub open spec fn option_view(item: Option<Vec<u8>>) -> Option<Seq<u8>> {
    match item {
        Some(bytes) => Some(bytes@),
        None => None,
    }
}

/// Copies a byte string.
pub(crate) fn copy_bytes(bytes: &[u8]) -> (copy: Vec<u8>)
    ensures
        copy@ == bytes@,
{
    vstd::slice::slice_to_vec(bytes)
}

/// Copies an optional byte string.
pub(crate) fn copy_option(bytes: &Option<Vec<u8>>) -> (copy: Option<Vec<u8>>)
    ensures
        option_view(copy) == option_view(*bytes),
{
    match bytes {
        Some(bytes) => Some(copy_bytes(bytes)),
        None => None,
    }
}

/// Copies a list of byte strings.
pub(crate) fn copy_list(list: &Vec<Vec<u8>>) -> (copy: Vec<Vec<u8>>)
    ensures
        list_view(copy@) == list_view(list@),
{
    let mut copy: Vec<Vec<u8>> = Vec::new();
    for i in 0..list.len()
        invariant
            copy@.len() == i,
            forall|j: int| 0 <= j < i ==> #[trigger] copy@[j]@ == list@[j]@,
    {
        copy.push(copy_bytes(&list[i]));
    }
    assert(list_view(copy@) =~= list_view(list@));
    copy
}

/// Copies a list of key and value pairs.
pub(crate) fn copy_pairs(pairs: &Vec<(Vec<u8>, Vec<u8>)>) -> (copy: Vec<(Vec<u8>, Vec<u8>)>)
    ensures
        pairs_view(copy@) == pairs_view(pairs@),
{
    let mut copy: Vec<(Vec<u8>, Vec<u8>)> = Vec::new();
    for i in 0..pairs.len()
        invariant
            copy@.len() == i,
            forall|j: int|
                #![trigger copy@[j]]
                0 <= j < i ==> copy@[j].0@ == pairs@[j].0@ && copy@[j].1@ == pairs@[j].1@,
    {
        copy.push((copy_bytes(&pairs[i].0), copy_bytes(&pairs[i].1)));
    }
    assert(pairs_view(copy@) =~= pairs_view(pairs@));
    copy
}

/// Tells whether two byte strings hold the same bytes.
pub(crate) fn same_bytes(a: &[u8], b: &[u8]) -> (same: bool)
    ensures
        same == (a@ == b@),
{
    if a.len() != b.len() {
        return false;
    }
    for i in 0..a.len()
        invariant
            a@.len() == b@.len(),
            forall|j: int| 0 <= j < i ==> a@[j] == b@[j],
    {
        if a[i] != b[i] {
            return false;
        }
    }
    assert(a@ =~= b@);
    true
}

} // verus!
