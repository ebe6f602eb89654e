//! Sets of names.
use vstd::prelude::*;

verus! {

/// The text of each string.
pub open spec fn texts(names: Seq<String>) -> Seq<Seq<char>> {
    names.map_values(|name: String| name@)
}

/// A set of names that keeps the order in which they came.
#[derive(Debug, PartialEq)]
pub struct NameSet {
    names: Vec<String>,
}

impl View for NameSet {
    type V = Set<Seq<char>>;

    closed spec fn view(&self) -> Set<Seq<char>> {
        texts(self.names@).to_set()
    }
}

impl Clone for NameSet {
    fn clone(&self) -> (copy: Self)
        ensures
            copy@ == self@,
    {
        proof {
            use_type_invariant(self);
        }
        let names = copy_names(&self.names);
        NameSet { names }
    }
}

impl NameSet {
    /// No name occurs twice.
    #[verifier::type_invariant]
    closed spec fn distinct(self) -> bool {
        texts(self.names@).no_duplicates()
    }

    /// The set of the names in a list.
    pub fn from_names(list: Vec<String>) -> (set: Self)
        ensures
            set@ == texts(list@).to_set(),
    {
        let mut names: Vec<String> = Vec::new();
        assert(texts(names@).to_set() =~= texts(list@).take(0).to_set());
        for i in 0..list.len()
            invariant
                texts(names@).no_duplicates(),
                texts(names@).to_set() == texts(list@).take(i as int).to_set(),
        {
            let ghost before = texts(names@);
            let ghost seen = texts(list@).take(i as int);
            let ghost name = list@[i as int]@;
            assert(before.to_set().contains(name) <==> before.contains(name));
            assert(texts(list@).take(i + 1) =~= seen.push(name));
            assert(seen.push(name).to_set() =~= seen.to_set().insert(name)) by {
                seen.lemma_push_to_set_commute(name);
            }
            if !holds(&names, &list[i]) {
                names.push(list[i].clone());
                assert(texts(names@) =~= before.push(name));
                proof {
                    before.lemma_push_to_set_commute(name);
                }
            } else {
                assert(before.to_set().insert(name) =~= before.to_set());
            }
        }
        assert(texts(list@).take(list@.len() as int) =~= texts(list@));
        NameSet { names }
    }

    /// Whether `name` is in the set.
    pub fn contains(&self, name: &String) -> (found: bool)
        ensures
            found == self@.contains(name@),
    {
        holds(&self.names, name)
    }

    /// Takes `name` out of the set; the other names stay.
    pub fn remove(&mut self, name: &String)
        ensures
            final(self)@ == old(self)@.remove(name@),
    {
        proof {
            use_type_invariant(&*self);
        }
        let mut kept: Vec<String> = Vec::new();
        let ghost all = texts(self.names@);
        let ghost other = |n: Seq<char>| n != name@;
        assert(texts(kept@) =~= all.take(0).filter(other)) by {
            reveal(Seq::filter);
        }
        for i in 0..self.names.len()
            invariant
                all == texts(self.names@),
                other == (|n: Seq<char>| n != name@),
                texts(kept@) == all.take(i as int).filter(other),
        {
            let ghost before = texts(kept@);
            if !(self.names[i] == *name) {
                kept.push(self.names[i].clone());
                assert(texts(kept@) =~= before.push(self.names@[i as int]@));
            }
            proof {
                assert(all.take(i + 1).drop_last() =~= all.take(i as int));
                assert(all.take(i + 1).last() == all[i as int]);
                reveal(Seq::filter);
            }
        }
        proof {
            assert(all.take(all.len() as int) =~= all);
            lemma_filter_keeps(all, other);
            assert(texts(kept@).to_set() =~= all.to_set().remove(name@)) by {
                assert forall|n: Seq<char>| all.contains(n) && n != name@ implies #[trigger] all.filter(
                    other,
                ).contains(n) by {
                    assert(other(n));
                }
            }
        }
        self.names = kept;
    }

    /// The names, each once.
    pub fn to_names(&self) -> (list: Vec<String>)
        ensures
            texts(list@).no_duplicates(),
            texts(list@).to_set() == self@,
    {
        let copy = self.clone();
        proof {
            use_type_invariant(&copy);
        }
        copy.names
    }
}

/// A copy of a list of names.
pub fn copy_names(names: &Vec<String>) -> (copy: Vec<String>)
    ensures
        texts(copy@) == texts(names@),
{
    let mut copy: Vec<String> = Vec::new();
    assert(texts(copy@) =~= texts(names@).take(0));
    for i in 0..names.len()
        invariant
            texts(copy@) == texts(names@).take(i as int),
    {
        let ghost before = texts(copy@);
        copy.push(names[i].clone());
        assert(texts(copy@) =~= before.push(names@[i as int]@));
        assert(texts(names@).take(i + 1) =~= before.push(texts(names@)[i as int]));
    }
    assert(texts(names@).take(names@.len() as int) =~= texts(names@));
    copy
}

/// Filtering keeps distinct items distinct, and keeps exactly the items that pass.
proof fn lemma_filter_keeps<A>(items: Seq<A>, pass: spec_fn(A) -> bool)
    ensures
        items.no_duplicates() ==> items.filter(pass).no_duplicates(),
        forall|x: A| #[trigger]
            items.filter(pass).contains(x) <==> items.contains(x) && pass(x),
    decreases items.len(),
{
    reveal(Seq::filter);
    if items.len() > 0 {
        let front = items.drop_last();
        lemma_filter_keeps(front, pass);
        assert(items =~= front.push(items.last()));
        if items.no_duplicates() {
            assert(front.no_duplicates());
            assert(!front.contains(items.last()));
            let kept = front.filter(pass);
            assert(!kept.contains(items.last()));
            assert(kept.push(items.last()).no_duplicates()) by {
                assert forall|i: int| 0 <= i < kept.len() implies kept[i] != items.last() by {
                    assert(kept.contains(kept[i]));
                }
            }
        }
        assert forall|x: A| #[trigger]
            items.filter(pass).contains(x) <==> items.contains(x) && pass(x) by {
            assert(items.contains(x) <==> front.contains(x) || x == items.last()) by {
                if front.contains(x) {
                    let i = choose|i: int| 0 <= i < front.len() && front[i] == x;
                    assert(items[i] == x);
                }
                if x == items.last() {
                    assert(items[items.len() - 1] == x);
                }
            }
            let kept = front.filter(pass);
            if pass(items.last()) {
                if kept.contains(x) {
                    let i = choose|i: int| 0 <= i < kept.len() && kept[i] == x;
                    assert(items.filter(pass)[i] == x);
                }
                if x == items.last() {
                    assert(items.filter(pass)[kept.len() as int] == x);
                }
            }
        }
    }
}

/// Whether one of the strings reads `name`.
pub fn holds(names: &Vec<String>, name: &String) -> (found: bool)
    ensures
        found == texts(names@).contains(name@),
{
    for i in 0..names.len()
        invariant
            forall|j: int| 0 <= j < i ==> names@[j]@ != name@,
    {
        if names[i] == *name {
            assert(texts(names@)[i as int] == name@);
            return true;
        }
    }
    assert(forall|j: int| 0 <= j < names@.len() ==> texts(names@)[j] == names@[j]@);
    false
}

} // verus!
