//! When two paths are the same.
//!
//! Paths are compared by their components, as the standard library does it on
//! Unix: repeated and trailing separators do not count, and neither does a `.`
//! other than one that a relative path starts with.
use crate::bytes::{copy_bytes, list_view, same_bytes};
use vstd::prelude::*;

verus! {

/// The byte that separates the components of a path, `/`.
pub const SEPARATOR: u8 = 47;

/// The byte that alone makes up the name of the current directory, `.`.
pub const DOT: u8 = 46;

/// What stands between the separators of a path.
pub open spec fn pieces(path: Seq<u8>) -> Seq<Seq<u8>>
    decreases path.len(),
{
    if path.len() == 0 {
        seq![Seq::empty()]
    } else {
        let earlier = pieces(path.drop_last());
        if path.last() == SEPARATOR {
            earlier.push(Seq::empty())
        } else {
            earlier.drop_last().push(earlier.last().push(path.last()))
        }
    }
}

/// Whether the piece with the given index is a component: it is not empty, and
/// not a `.` behind the start of the path.
pub open spec fn is_component(piece: Seq<u8>, index: int) -> bool {
    piece.len() > 0 && (piece == seq![DOT] ==> index == 0)
}

/// The pieces that are components.
pub open spec fn proper_pieces(pieces: Seq<Seq<u8>>) -> Seq<Seq<u8>>
    decreases pieces.len(),
{
    if pieces.len() == 0 {
        Seq::empty()
    } else if is_component(pieces.last(), pieces.len() - 1) {
        proper_pieces(pieces.drop_last()).push(pieces.last())
    } else {
        proper_pieces(pieces.drop_last())
    }
}

/// Whether a path starts at the root.
pub open spec fn is_rooted(path: Seq<u8>) -> bool {
    path.len() > 0 && path[0] == SEPARATOR
}

/// The components of a path behind the root, if it starts there.
pub open spec fn components_of(path: Seq<u8>) -> Seq<Seq<u8>> {
    proper_pieces(pieces(path))
}

/// Whether two paths are the same.
pub open spec fn equal_paths(a: Seq<u8>, b: Seq<u8>) -> bool {
    is_rooted(a) == is_rooted(b) && components_of(a) == components_of(b)
}

/// Cuts a path at its separators.
fn split(path: &[u8]) -> (list: Vec<Vec<u8>>)
    ensures
        list_view(list@) == pieces(path@),
{
    let mut list: Vec<Vec<u8>> = Vec::new();
    let mut piece: Vec<u8> = Vec::new();
    assert(path@.take(0) =~= Seq::empty());
    assert(list_view(list@).push(piece@) =~= pieces(path@.take(0)));
    for i in 0..path.len()
        invariant
            list_view(list@).push(piece@) == pieces(path@.take(i as int)),
    {
        let ghost before = list@;
        let ghost earlier = pieces(path@.take(i as int));
        assert(path@.take(i + 1).drop_last() =~= path@.take(i as int));
        assert(earlier.drop_last() =~= list_view(before));
        if path[i] == SEPARATOR {
            list.push(piece);
            piece = Vec::new();
            assert(list_view(list@) =~= earlier);
            assert(piece@ =~= Seq::empty());
        } else {
            piece.push(path[i]);
        }
        assert(list_view(list@).push(piece@) =~= pieces(path@.take(i + 1)));
    }
    assert(path@.take(path@.len() as int) =~= path@);
    let ghost before = list@;
    let ghost last = piece@;
    list.push(piece);
    assert(list_view(list@) =~= list_view(before).push(last));
    list
}

/// Cuts a path into its components.
fn components(path: &[u8]) -> (list: Vec<Vec<u8>>)
    ensures
        list_view(list@) == components_of(path@),
{
    let all = split(path);
    let ghost whole = list_view(all@);
    let mut list: Vec<Vec<u8>> = Vec::new();
    assert(whole.take(0) =~= Seq::empty());
    assert(list_view(list@) =~= proper_pieces(whole.take(0)));
    for i in 0..all.len()
        invariant
            whole == list_view(all@),
            list_view(list@) == proper_pieces(whole.take(i as int)),
    {
        let ghost before = list@;
        assert(whole.take(i + 1).drop_last() =~= whole.take(i as int));
        let is_dot = all[i].len() == 1 && all[i][0] == DOT;
        assert(is_dot == (all@[i as int]@ =~= seq![DOT]));
        if all[i].len() > 0 && (!is_dot || i == 0) {
            list.push(copy_bytes(&all[i]));
            assert(list_view(list@) =~= list_view(before).push(whole[i as int]));
        }
    }
    assert(whole.take(whole.len() as int) =~= whole);
    list
}

/// Tells whether a path starts at the root.
fn rooted(path: &[u8]) -> (is: bool)
    ensures
        is == is_rooted(path@),
{
    path.len() > 0 && path[0] == SEPARATOR
}

/// Tells whether two paths are the same.
pub fn same_path(a: &[u8], b: &[u8]) -> (same: bool)
    ensures
        same == equal_paths(a@, b@),
{
    if rooted(a) != rooted(b) {
        return false;
    }
    let ours = components(a);
    let theirs = components(b);
    if ours.len() != theirs.len() {
        assert(list_view(ours@).len() != list_view(theirs@).len());
        return false;
    }
    for i in 0..ours.len()
        invariant
            ours@.len() == theirs@.len(),
            list_view(ours@) == components_of(a@),
            list_view(theirs@) == components_of(b@),
            forall|j: int| 0 <= j < i ==> list_view(ours@)[j] == list_view(theirs@)[j],
    {
        if !same_bytes(&ours[i], &theirs[i]) {
            assert(list_view(ours@)[i as int] != list_view(theirs@)[i as int]);
            return false;
        }
    }
    assert(list_view(ours@) =~= list_view(theirs@));
    true
}

} // verus!
