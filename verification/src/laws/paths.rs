//! When two paths name the same place.
use crate::paths::{components, pieces, same_place};
use crate::watcher::distinct_dirs;
use vstd::prelude::*;

verus! {

/// A part of a path that counts: some text without a slash, and not a single dot.
pub open spec fn is_part(text: Seq<char>) -> bool {
    text.len() > 0 && !text.contains('/') && text != seq!['.']
}

proof fn lemma_pieces_nonempty(path: Seq<char>)
    ensures
        pieces(path).len() >= 1,
    decreases path.len(),
{
    if path.len() > 0 {
        lemma_pieces_nonempty(path.drop_last());
    }
}

proof fn lemma_pieces_of_part(part: Seq<char>)
    requires
        !part.contains('/'),
    ensures
        pieces(part) == seq![part],
    decreases part.len(),
{
    if part.len() > 0 {
        let front = part.drop_last();
        assert forall|i: int| 0 <= i < front.len() implies front[i] != '/' by {
            assert(part.contains(part[i]));
        }
        assert(part.contains(part.last()));
        lemma_pieces_of_part(front);
        assert(front.push(part.last()) =~= part);
        assert(pieces(part) =~= seq![part]);
    } else {
        assert(part =~= Seq::empty());
    }
}

proof fn lemma_pieces_append(path: Seq<char>, part: Seq<char>)
    requires
        !part.contains('/'),
    ensures
        pieces(path + seq!['/'] + part) == pieces(path).push(part),
    decreases part.len(),
{
    let text = path + seq!['/'] + part;
    if part.len() == 0 {
        assert(text.last() == '/');
        assert(text.drop_last() =~= path);
        assert(part =~= Seq::empty());
    } else {
        let front = part.drop_last();
        assert forall|i: int| 0 <= i < front.len() implies front[i] != '/' by {
            assert(part.contains(part[i]));
        }
        assert(part.contains(part.last()));
        lemma_pieces_append(path, front);
        assert(text.drop_last() =~= path + seq!['/'] + front);
        assert(text.last() == part.last());
        assert(front.push(part.last()) =~= part);
        let before = pieces(path).push(front);
        assert(before.drop_last() =~= pieces(path));
        assert(pieces(text) =~= pieces(path).push(part));
    }
}

proof fn lemma_components_append(path: Seq<char>, part: Seq<char>)
    requires
        !part.contains('/'),
    ensures
        is_part(part) ==> components(pieces(path + seq!['/'] + part)) == components(
            pieces(path),
        ).push(part),
        !is_part(part) ==> components(pieces(path + seq!['/'] + part)) == components(pieces(path)),
{
    lemma_pieces_append(path, part);
    lemma_pieces_nonempty(path);
    assert(pieces(path).push(part).drop_last() =~= pieces(path));
}

/// Two paths that go on are the same place exactly if they were before they went on and go on
/// by the same part.
pub proof fn law_paths_are_compared_part_by_part(
    a: Seq<char>,
    p: Seq<char>,
    b: Seq<char>,
    q: Seq<char>,
)
    requires
        a.len() > 0,
        b.len() > 0,
        is_part(p),
        is_part(q),
    ensures
        same_place(a + seq!['/'] + p, b + seq!['/'] + q) <==> same_place(a, b) && p == q,
{
    lemma_components_append(a, p);
    lemma_components_append(b, q);
    assert((a + seq!['/'] + p)[0] == a[0]);
    assert((b + seq!['/'] + q)[0] == b[0]);
    let x = components(pieces(a));
    let y = components(pieces(b));
    if x.push(p) == y.push(q) {
        assert(x =~= x.push(p).drop_last());
        assert(y =~= y.push(q).drop_last());
        assert(x.push(p).last() == y.push(q).last());
    }
}

/// Two paths of one part are the same place exactly if the part is the same. Below the root
/// the same holds, one slash stands for the root as well as two, and nothing there is the
/// same place as anything elsewhere.
pub proof fn law_single_parts_are_compared_as_texts(p: Seq<char>, q: Seq<char>, path: Seq<char>)
    requires
        !p.contains('/'),
        !q.contains('/'),
    ensures
        same_place(p, q) <==> p == q,
        is_part(p) && is_part(q) ==> (same_place(seq!['/'] + p, seq!['/'] + q) <==> p == q),
        is_part(p) ==> same_place(seq!['/', '/'] + p, seq!['/'] + p),
        path.len() == 0 || path[0] != '/' ==> !same_place(seq!['/'] + p, path),
{
    lemma_pieces_of_part(p);
    lemma_pieces_of_part(q);
    if p.len() > 0 {
        assert(p.contains(p[0]));
    }
    if q.len() > 0 {
        assert(q.contains(q[0]));
    }
    let none = Seq::<Seq<char>>::empty();
    assert(seq![p].drop_last() =~= none);
    assert(seq![q].drop_last() =~= none);
    assert(components(seq![p]) == if p.len() == 0 {
        none
    } else {
        none.push(p)
    }) by {
        reveal_with_fuel(components, 2);
    }
    assert(components(seq![q]) == if q.len() == 0 {
        none
    } else {
        none.push(q)
    }) by {
        reveal_with_fuel(components, 2);
    }
    if components(pieces(p)) == components(pieces(q)) {
        if p.len() == 0 {
            assert(q.len() == 0) by {
                if q.len() > 0 {
                    assert(none.push(q).len() == 1);
                }
            }
            assert(p =~= q);
        } else {
            assert(none.push(p)[0] == p);
            assert(q.len() > 0) by {
                if q.len() == 0 {
                    assert(none.push(p).len() == 1);
                }
            }
            assert(none.push(q)[0] == q);
        }
    }
    let nowhere = Seq::<char>::empty();
    lemma_components_append(nowhere, p);
    lemma_components_append(nowhere, q);
    assert(nowhere + seq!['/'] + p =~= seq!['/'] + p);
    assert(nowhere + seq!['/'] + q =~= seq!['/'] + q);
    if components(pieces(nowhere)).push(p) == components(pieces(nowhere)).push(q) {
        assert(components(pieces(nowhere)).push(p).last() == components(pieces(nowhere)).push(
            q,
        ).last());
    }
    assert((seq!['/'] + p)[0] == '/');
    let root = seq!['/'];
    lemma_components_append(nowhere, nowhere);
    assert(nowhere + seq!['/'] + nowhere =~= root);
    lemma_components_append(root, p);
    assert(root + seq!['/'] + p =~= seq!['/', '/'] + p);
    assert((seq!['/', '/'] + p)[0] == '/');
}

/// A slash at the end, repeated or with a dot after it, makes no difference.
pub proof fn law_trailing_slashes_and_dots_do_not_count(path: Seq<char>)
    requires
        path.len() > 0,
    ensures
        same_place(path + seq!['/'], path),
        same_place(path + seq!['/', '.'], path),
        same_place(path + seq!['/', '/'], path),
{
    let dot = seq!['.'];
    let nothing = Seq::<char>::empty();
    lemma_components_append(path, nothing);
    lemma_components_append(path, dot);
    lemma_components_append(path + seq!['/'], nothing);
    assert(path + seq!['/'] + nothing =~= path + seq!['/']);
    assert(path + seq!['/'] + dot =~= path + seq!['/', '.']);
    assert(path + seq!['/'] + seq!['/'] + nothing =~= path + seq!['/', '/']);
    assert((path + seq!['/'])[0] == path[0]);
    assert((path + seq!['/', '.'])[0] == path[0]);
    assert((path + seq!['/', '/'])[0] == path[0]);
}

/// The repository's own directory is always watched, and first; the common one is watched
/// besides exactly if it is another place.
pub proof fn law_common_directory_is_watched_if_it_is_another(
    git_dir: Seq<char>,
    common_dir: Seq<char>,
)
    ensures
        distinct_dirs(git_dir, common_dir).len() >= 1,
        distinct_dirs(git_dir, common_dir)[0] == git_dir,
        same_place(git_dir, common_dir) <==> distinct_dirs(git_dir, common_dir).len() == 1,
        !same_place(git_dir, common_dir) ==> distinct_dirs(git_dir, common_dir) == seq![
            git_dir,
            common_dir,
        ],
{
}

} // verus!
