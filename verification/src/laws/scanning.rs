//! What is looked at, and what the signature is made of.
use crate::scan::{
    all_records, digest, full_plan, law_writes_tell_scans_apart, probes_of, watched_file_names,
    watched_tree_names, writes, ByteOrder, Observation, PathRecord, Probe, ProbeKind,
};
use std::collections::hash_map::DefaultHasher;
use vstd::prelude::*;

verus! {

/// One observation alone counts as what it saw: a file as its record, a tree that is there
/// as every entry of the walk, in walking order, and one that is not as its root.
pub proof fn law_every_entry_of_the_walk_counts(observation: Observation)
    ensures
        ({
            let records = all_records(seq![observation]);
            &&& observation matches Observation::File(record) ==> records.len() == 1 && records[0]
                == record@
            &&& observation matches Observation::Tree { exists: true, entries, .. }
                ==> records.len() == entries@.len() && forall|i: int|
                0 <= i < entries@.len() ==> records[i] == (#[trigger] entries@[i])@
            &&& observation matches Observation::Tree { exists: false, root, .. } ==> records.len()
                == 1 && records[0] == root@
        }),
{
    let one = seq![observation];
    assert(one.drop_last() =~= Seq::empty());
    assert(all_records(one) =~= observation.records()) by {
        reveal_with_fuel(all_records, 2);
    }
}

/// Nothing that was seen is left out or put elsewhere: one scan after another counts as the
/// two, one after the other, and no scan counts as nothing.
pub proof fn law_observations_count_one_after_the_other(a: Seq<Observation>, b: Seq<Observation>)
    ensures
        all_records(Seq::<Observation>::empty()).len() == 0,
        all_records(a + b) == all_records(a) + all_records(b),
    decreases b.len(),
{
    if b.len() == 0 {
        assert(a + b =~= a);
        assert(all_records(a) + all_records(b) =~= all_records(a));
    } else {
        law_observations_count_one_after_the_other(a, b.drop_last());
        assert((a + b).drop_last() =~= a + b.drop_last());
        assert(all_records(a + b) =~= all_records(a) + all_records(b));
    }
}

/// Two observations are of one shape: of a file both, or of trees that are both missing, or
/// of trees that are both there and in which the walk met equally many entries.
pub open spec fn same_shape(a: Observation, b: Observation) -> bool {
    match (a, b) {
        (Observation::File(_), Observation::File(_)) => true,
        (
            Observation::Tree { exists: a_exists, entries: a_entries, .. },
            Observation::Tree { exists: b_exists, entries: b_entries, .. },
        ) => a_exists == b_exists && (a_exists ==> a_entries@.len() == b_entries@.len()),
        _ => false,
    }
}

/// Two observations saw the same: the same record of a file, the same root of a missing tree,
/// or the same entries one by one.
pub open spec fn same_sight(a: Observation, b: Observation) -> bool {
    match (a, b) {
        (Observation::File(a), Observation::File(b)) => a.path@ == b.path@ && a.meta == b.meta,
        (
            Observation::Tree { root: a_root, exists: a_exists, entries: a_entries },
            Observation::Tree { root: b_root, exists: b_exists, entries: b_entries },
        ) => {
            &&& a_exists == b_exists
            &&& !a_exists ==> a_root.path@ == b_root.path@ && a_root.meta == b_root.meta
            &&& a_exists ==> a_entries@.len() == b_entries@.len() && forall|i: int|
                0 <= i < a_entries@.len() ==> (#[trigger] a_entries@[i]).path@
                    == b_entries@[i].path@ && a_entries@[i].meta == b_entries@[i].meta
        },
        _ => false,
    }
}

proof fn lemma_records_tell_sights_apart(a: Observation, b: Observation)
    requires
        same_shape(a, b),
    ensures
        a.records().len() == b.records().len(),
        a.records() == b.records() ==> same_sight(a, b),
{
    law_every_entry_of_the_walk_counts(a);
    law_every_entry_of_the_walk_counts(b);
    assert(all_records(seq![a]) == a.records()) by {
        reveal_with_fuel(all_records, 2);
        assert(seq![a].drop_last() =~= Seq::empty());
        assert(all_records(seq![a]) =~= a.records());
    }
    assert(all_records(seq![b]) == b.records()) by {
        reveal_with_fuel(all_records, 2);
        assert(seq![b].drop_last() =~= Seq::empty());
        assert(all_records(seq![b]) =~= b.records());
    }
    if a.records() == b.records() {
        match (a, b) {
            (Observation::File(x), Observation::File(y)) => {
                assert(a.records()[0] == x@);
                assert(b.records()[0] == y@);
            },
            (
                Observation::Tree { root: x, exists, entries: xs },
                Observation::Tree { root: y, entries: ys, .. },
            ) => {
                if exists {
                    assert forall|i: int| 0 <= i < xs@.len() implies (#[trigger] xs@[i]).path@
                        == ys@[i].path@ && xs@[i].meta == ys@[i].meta by {
                        assert(a.records()[i] == xs@[i]@);
                        assert(b.records()[i] == ys@[i]@);
                    }
                } else {
                    assert(a.records()[0] == x@);
                    assert(b.records()[0] == y@);
                }
            },
            _ => {},
        }
    }
}

/// Scans of one shape that come to the same records saw the same, entry by entry: a change
/// in any one entry of any tree changes the records.
pub proof fn law_any_changed_entry_changes_the_records(a: Seq<Observation>, b: Seq<Observation>)
    requires
        a.len() == b.len(),
        forall|i: int| 0 <= i < a.len() ==> same_shape(#[trigger] a[i], b[i]),
    ensures
        all_records(a).len() == all_records(b).len(),
        all_records(a) == all_records(b) ==> forall|i: int|
            0 <= i < a.len() ==> same_sight(#[trigger] a[i], b[i]),
    decreases a.len(),
{
    if a.len() > 0 {
        let n = a.len() - 1;
        let x = a.drop_last();
        let y = b.drop_last();
        assert forall|i: int| 0 <= i < x.len() implies same_shape(#[trigger] x[i], y[i]) by {
            assert(same_shape(a[i], b[i]));
        }
        assert(same_shape(a[n], b[n]));
        law_any_changed_entry_changes_the_records(x, y);
        lemma_records_tell_sights_apart(a[n], b[n]);
        if all_records(a) == all_records(b) {
            let k = all_records(x).len() as int;
            assert(all_records(x) =~= all_records(a).take(k));
            assert(all_records(y) =~= all_records(b).take(k));
            assert(a[n].records() =~= all_records(a).skip(k));
            assert(b[n].records() =~= all_records(b).skip(k));
            assert forall|i: int| 0 <= i < a.len() implies same_sight(#[trigger] a[i], b[i]) by {
                if i < n {
                    assert(same_sight(x[i], y[i]));
                }
            }
        }
    }
}

/// Scans of one shape that write the same into the hash saw the same, entry by entry.
pub proof fn law_any_changed_entry_changes_the_writes(
    order: ByteOrder,
    a: Seq<Observation>,
    b: Seq<Observation>,
)
    requires
        a.len() == b.len(),
        forall|i: int| 0 <= i < a.len() ==> same_shape(#[trigger] a[i], b[i]),
        writes(order, all_records(a)) == writes(order, all_records(b)),
    ensures
        forall|i: int| 0 <= i < a.len() ==> same_sight(#[trigger] a[i], b[i]),
{
    law_writes_tell_scans_apart(order, all_records(a), all_records(b));
    law_any_changed_entry_changes_the_records(a, b);
}

/// The signature is the hasher's digest of all that the records write.
pub proof fn law_signature_is_of_all_writes(
    order: ByteOrder,
    records: Seq<PathRecord<Seq<char>>>,
)
    ensures
        digest(order, records) == <DefaultHasher as
            vstd::std_specs::hash::DefaultHasherAdditionalSpecFns>::spec_finish(
            writes(order, records),
        ),
{
}

/// In every directory every watched file and every watched tree is looked at, one directory
/// after the other, the files before the trees, and nothing else is.
pub proof fn law_everything_watched_is_looked_at(dirs: int, dir: int, i: int)
    requires
        0 <= dir < dirs <= usize::MAX,
    ensures
        ({
            let files = watched_file_names();
            let trees = watched_tree_names();
            let each = files.len() + trees.len();
            &&& full_plan(dirs).len() == dirs * each
            &&& 0 <= i < files.len() ==> full_plan(dirs)[dir * each + i] == (Probe {
                dir: dir as usize,
                kind: ProbeKind::File,
                name: files[i],
            })
            &&& 0 <= i < trees.len() ==> full_plan(dirs)[dir * each + files.len() + i] == (Probe {
                dir: dir as usize,
                kind: ProbeKind::Tree,
                name: trees[i],
            })
        }),
    decreases dirs,
{
    let files = watched_file_names();
    let trees = watched_tree_names();
    assert(files.len() == 11 && trees.len() == 3);
    let before = full_plan(dirs - 1);
    let own = probes_of(dirs - 1, ProbeKind::File, files);
    let own_trees = probes_of(dirs - 1, ProbeKind::Tree, trees);
    assert(full_plan(dirs) == before + own + own_trees);
    if dirs > 1 {
        let lower = if dir < dirs - 1 {
            dir
        } else {
            0
        };
        law_everything_watched_is_looked_at(dirs - 1, lower, i);
    } else {
        assert(full_plan(0).len() == 0);
    }
    assert(before.len() == (dirs - 1) * 14);
    assert(full_plan(dirs).len() == dirs * 14);
    if dir == dirs - 1 {
        if 0 <= i < files.len() {
            assert(full_plan(dirs)[before.len() + i] == own[i]);
        }
        if 0 <= i < trees.len() {
            assert(full_plan(dirs)[before.len() + 11 + i] == own_trees[i]);
        }
    } else {
        if 0 <= i < files.len() {
            assert(full_plan(dirs)[dir * 14 + i] == before[dir * 14 + i]);
        }
        if 0 <= i < trees.len() {
            assert(full_plan(dirs)[dir * 14 + 11 + i] == before[dir * 14 + 11 + i]);
        }
    }
}

} // verus!
