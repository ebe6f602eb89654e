//! When two paths name the same place.
//!
//! A path is a text as git writes it on every platform: `/` separates its parts, and
//! a `/` in front stands for the root. Such texts are compared by the rules that the
//! standard library has for paths on Unix. Paths of a platform with other separators
//! or with drive prefixes are put into this form by the host.
use crate::text::chars_of;
use vstd::prelude::*;

verus! {

/// The stretches of a path between its slashes.
pub open spec fn pieces(path: Seq<char>) -> Seq<Seq<char>>
    decreases path.len(),
{
    if path.len() == 0 {
        seq![Seq::empty()]
    } else {
        let before = pieces(path.drop_last());
        if path.last() == '/' {
            before.push(Seq::empty())
        } else {
            before.drop_last().push(before.last().push(path.last()))
        }
    }
}

/// The parts of a path that count: repeated and trailing slashes make none, and
/// neither does a `.` that is not the very first piece.
pub open spec fn components(pieces: Seq<Seq<char>>) -> Seq<Seq<char>>
    decreases pieces.len(),
{
    if pieces.len() == 0 {
        Seq::empty()
    } else {
        let before = components(pieces.drop_last());
        let piece = pieces.last();
        if piece.len() == 0 || (piece == seq!['.'] && pieces.len() > 1) {
            before
        } else {
            before.push(piece)
        }
    }
}

/// The path starts at the root.
pub open spec fn rooted(path: Seq<char>) -> bool {
    path.len() > 0 && path[0] == '/'
}

/// Two paths have the same components, and both or neither start at the root. These
/// are the rules of Unix: only `/` separates, and there are no prefixes.
pub open spec fn same_place(a: Seq<char>, b: Seq<char>) -> bool {
    rooted(a) == rooted(b) && components(pieces(a)) == components(pieces(b))
}

spec fn deep(parts: Seq<Vec<char>>) -> Seq<Seq<char>> {
    parts.map_values(|part: Vec<char>| part@)
}

fn split_path(path: &Vec<char>) -> (parts: Vec<Vec<char>>)
    ensures
        deep(parts@) == components(pieces(path@)),
{
    let mut all: Vec<Vec<char>> = Vec::new();
    let mut current: Vec<char> = Vec::new();
    assert(pieces(path@.take(0)) =~= deep(all@).push(current@));
    for i in 0..path.len()
        invariant
            pieces(path@.take(i as int)) == deep(all@).push(current@),
    {
        let ghost done = deep(all@);
        let ghost open = current@;
        assert(path@.take(i + 1).drop_last() =~= path@.take(i as int));
        assert(done.push(open).drop_last() =~= done);
        if path[i] == '/' {
            all.push(current);
            current = Vec::new();
            assert(deep(all@) =~= done.push(open));
            assert(current@ =~= Seq::<char>::empty());
        } else {
            current.push(path[i]);
        }
    }
    assert(path@.take(path@.len() as int) =~= path@);
    let ghost done = deep(all@);
    let ghost open = current@;
    all.push(current);
    assert(deep(all@) =~= done.push(open));
    let mut parts: Vec<Vec<char>> = Vec::new();
    assert(deep(parts@) =~= components(deep(all@).take(0)));
    for i in 0..all.len()
        invariant
            deep(parts@) == components(deep(all@).take(i as int)),
    {
        let ghost kept = deep(parts@);
        let ghost piece = all@[i as int]@;
        assert(deep(all@).take(i + 1).drop_last() =~= deep(all@).take(i as int));
        assert(deep(all@).take(i + 1).last() == piece);
        let skip = all[i].len() == 0 || (all[i].len() == 1 && all[i][0] == '.' && i > 0);
        assert(piece.len() == 1 && piece[0] == '.' <==> piece =~= seq!['.']);
        if !skip {
            let copy = copy_chars(&all[i]);
            parts.push(copy);
            assert(deep(parts@) =~= kept.push(piece));
        }
    }
    assert(deep(all@).take(all@.len() as int) =~= deep(all@));
    parts
}

fn copy_chars(chars: &Vec<char>) -> (copy: Vec<char>)
    ensures
        copy@ == chars@,
{
    let mut copy: Vec<char> = Vec::new();
    for i in 0..chars.len()
        invariant
            copy@ == chars@.take(i as int),
    {
        copy.push(chars[i]);
        assert(chars@.take(i + 1) =~= chars@.take(i as int).push(chars@[i as int]));
    }
    assert(chars@.take(chars@.len() as int) =~= chars@);
    copy
}

fn same_chars(a: &Vec<char>, b: &Vec<char>) -> (same: bool)
    ensures
        same == (a@ == b@),
{
    if a.len() != b.len() {
        return false;
    }
    for i in 0..a.len()
        invariant
            a.len() == b.len(),
            forall|j: int| 0 <= j < i ==> a@[j] == b@[j],
    {
        if a[i] != b[i] {
            return false;
        }
    }
    assert(a@ =~= b@);
    true
}

/// Whether two paths name the same place, comparing them part by part as on Unix.
pub fn same_path(a: &String, b: &String) -> (same: bool)
    ensures
        same == same_place(a@, b@),
{
    let a_chars = chars_of(a.as_str());
    let b_chars = chars_of(b.as_str());
    let a_rooted = a_chars.len() > 0 && a_chars[0] == '/';
    let b_rooted = b_chars.len() > 0 && b_chars[0] == '/';
    if a_rooted != b_rooted {
        return false;
    }
    let a_parts = split_path(&a_chars);
    let b_parts = split_path(&b_chars);
    assert(deep(a_parts@).len() == a_parts.len());
    assert(deep(b_parts@).len() == b_parts.len());
    if a_parts.len() != b_parts.len() {
        return false;
    }
    for i in 0..a_parts.len()
        invariant
            a_parts.len() == b_parts.len(),
            deep(a_parts@) == components(pieces(a@)),
            deep(b_parts@) == components(pieces(b@)),
            forall|j: int| 0 <= j < i ==> a_parts@[j]@ == b_parts@[j]@,
    {
        if !same_chars(&a_parts[i], &b_parts[i]) {
            assert(deep(a_parts@)[i as int] != deep(b_parts@)[i as int]);
            return false;
        }
    }
    assert(deep(a_parts@) =~= deep(b_parts@));
    true
}

} // verus!
