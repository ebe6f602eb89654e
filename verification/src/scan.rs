//! What is looked at in a git directory, and the signature made of what was seen.
use std::collections::hash_map::DefaultHasher;
use std::hash::Hasher;
use vstd::bytes::{u128_to_le_bytes, u64_to_le_bytes};
use vstd::prelude::*;

verus! {

/// Single files whose metadata tracks a discrete change of repository state.
pub open spec fn watched_file_names() -> Seq<Seq<char>> {
    seq![
        "HEAD"@,
        "index"@,
        "packed-refs"@,
        "ORIG_HEAD"@,
        "MERGE_HEAD"@,
        "FETCH_HEAD"@,
        "CHERRY_PICK_HEAD"@,
        "REVERT_HEAD"@,
        "REBASE_HEAD"@,
        "BISECT_LOG"@,
        "COMMIT_EDITMSG"@,
    ]
}

/// Trees walked recursively. They stay small even in huge repositories; the
/// object database is deliberately not among them.
pub open spec fn watched_tree_names() -> Seq<Seq<char>> {
    seq!["refs"@, "logs"@, "worktrees"@]
}

#[derive(Clone, Copy, Debug, PartialEq, Eq, Structural)]
pub enum ProbeKind {
    /// One path.
    File,
    /// A directory and everything below it, sorted by file name at each level.
    Tree,
}

/// Something to look at: `name`, relative to the watched directory number `dir`.
#[derive(Debug, PartialEq)]
pub struct Probe<S = &'static str> {
    pub dir: usize,
    pub kind: ProbeKind,
    pub name: S,
}

impl View for Probe<&'static str> {
    type V = Probe<Seq<char>>;

    open spec fn view(&self) -> Probe<Seq<char>> {
        Probe { dir: self.dir, kind: self.kind, name: self.name@ }
    }
}

/// Probes as contracts speak of them.
pub open spec fn probes(list: Seq<Probe<&'static str>>) -> Seq<Probe<Seq<char>>> {
    list.map_values(|probe: Probe<&'static str>| probe@)
}

/// One probe per name, all of one kind and in one directory.
pub open spec fn probes_of(dir: int, kind: ProbeKind, names: Seq<Seq<char>>) -> Seq<
    Probe<Seq<char>>,
> {
    names.map_values(|name: Seq<char>| Probe { dir: dir as usize, kind, name })
}

/// Directory by directory, first the files and then the trees.
pub open spec fn full_plan(dirs: int) -> Seq<Probe<Seq<char>>>
    decreases dirs,
{
    if dirs <= 0 {
        Seq::empty()
    } else {
        full_plan(dirs - 1) + probes_of(dirs - 1, ProbeKind::File, watched_file_names())
            + probes_of(dirs - 1, ProbeKind::Tree, watched_tree_names())
    }
}

fn add_probes(plan: &mut Vec<Probe>, dir: usize, kind: ProbeKind, names: &Vec<&'static str>)
    ensures
        probes(final(plan)@) == probes(old(plan)@) + probes_of(
            dir as int,
            kind,
            names@.map_values(|name: &'static str| name@),
        ),
{
    let ghost views = names@.map_values(|name: &'static str| name@);
    let ghost wanted = probes_of(dir as int, kind, views);
    assert(probes(plan@) =~= probes(old(plan)@) + wanted.take(0));
    for i in 0..names.len()
        invariant
            views == names@.map_values(|name: &'static str| name@),
            wanted == probes_of(dir as int, kind, views),
            probes(plan@) == probes(old(plan)@) + wanted.take(i as int),
    {
        let ghost before = probes(plan@);
        let probe = Probe { dir, kind, name: names[i] };
        plan.push(probe);
        assert(probes(plan@) =~= before.push(probe@));
        assert(wanted[i as int] == probe@);
        assert(probes(plan@) =~= probes(old(plan)@) + wanted.take(i + 1));
    }
    assert(wanted.take(wanted.len() as int) =~= wanted);
}

fn watched_files() -> (names: Vec<&'static str>)
    ensures
        names@.map_values(|name: &'static str| name@) == watched_file_names(),
{
    let names: Vec<&'static str> = vec![
        "HEAD",
        "index",
        "packed-refs",
        "ORIG_HEAD",
        "MERGE_HEAD",
        "FETCH_HEAD",
        "CHERRY_PICK_HEAD",
        "REVERT_HEAD",
        "REBASE_HEAD",
        "BISECT_LOG",
        "COMMIT_EDITMSG",
    ];
    assert(names@.map_values(|name: &'static str| name@) =~= watched_file_names());
    names
}

fn watched_trees() -> (names: Vec<&'static str>)
    ensures
        names@.map_values(|name: &'static str| name@) == watched_tree_names(),
{
    let names: Vec<&'static str> = vec!["refs", "logs", "worktrees"];
    assert(names@.map_values(|name: &'static str| name@) =~= watched_tree_names());
    names
}

/// Everything to look at in `dirs` directories, in the order in which the
/// observations are to be reported.
pub fn scan_plan(dirs: usize) -> (plan: Vec<Probe>)
    ensures
        probes(plan@) == full_plan(dirs as int),
{
    let files = watched_files();
    let trees = watched_trees();
    let mut plan: Vec<Probe> = Vec::new();
    assert(probes(plan@) =~= full_plan(0));
    for dir in 0..dirs
        invariant
            files@.map_values(|name: &'static str| name@) == watched_file_names(),
            trees@.map_values(|name: &'static str| name@) == watched_tree_names(),
            probes(plan@) == full_plan(dir as int),
    {
        add_probes(&mut plan, dir, ProbeKind::File, &files);
        add_probes(&mut plan, dir, ProbeKind::Tree, &trees);
    }
    plan
}

/// The size of a file and when it was last modified, in nanoseconds since 1970,
/// where the file system can say.
#[derive(Clone, Copy, Debug, PartialEq, Eq, Structural)]
pub struct PathMeta {
    pub len: u64,
    pub modified: Option<u128>,
}

/// A path and its metadata, or that it has none.
#[derive(Debug, PartialEq)]
pub struct PathRecord<S = String> {
    pub path: S,
    pub meta: Option<PathMeta>,
}

impl View for PathRecord<String> {
    type V = PathRecord<Seq<char>>;

    open spec fn view(&self) -> PathRecord<Seq<char>> {
        PathRecord { path: self.path@, meta: self.meta }
    }
}

/// What a probe found.
#[derive(Debug, PartialEq)]
pub enum Observation {
    File(PathRecord),
    /// `entries` is what a walk from `root` met, in walking order.
    Tree { root: PathRecord, exists: bool, entries: Vec<PathRecord> },
}

/// Records as contracts speak of them.
pub open spec fn record_views(list: Seq<PathRecord>) -> Seq<PathRecord<Seq<char>>> {
    list.map_values(|record: PathRecord| record@)
}

impl Observation {
    /// The records an observation stands for. A tree that is not there stands for
    /// its root alone, so that its creation or removal shows.
    pub open spec fn records(self) -> Seq<PathRecord<Seq<char>>> {
        match self {
            Observation::File(record) => seq![record@],
            Observation::Tree { root, exists, entries } => if exists {
                record_views(entries@)
            } else {
                seq![root@]
            },
        }
    }
}

/// The records of all observations, in order.
pub open spec fn all_records(scan: Seq<Observation>) -> Seq<PathRecord<Seq<char>>>
    decreases scan.len(),
{
    if scan.len() == 0 {
        Seq::empty()
    } else {
        all_records(scan.drop_last()) + scan.last().records()
    }
}

/// The order in which a machine keeps the bytes of a number.
#[derive(Clone, Copy, Debug, PartialEq, Eq, Structural)]
pub enum ByteOrder {
    /// The lowest byte first.
    Little,
    /// The highest byte first.
    Big,
}

/// The bytes of a number in the given order; `little` are its bytes, lowest first.
pub open spec fn in_order(order: ByteOrder, little: Seq<u8>) -> Seq<u8> {
    match order {
        ByteOrder::Little => little,
        ByteOrder::Big => little.reverse(),
    }
}

/// The bytes of a size.
pub open spec fn size_bytes(order: ByteOrder, len: u64) -> Seq<u8> {
    in_order(order, vstd::bytes::spec_u64_to_le_bytes(len))
}

/// The bytes of a time.
pub open spec fn time_bytes(order: ByteOrder, nanos: u128) -> Seq<u8> {
    in_order(order, vstd::bytes::spec_u128_to_le_bytes(nanos))
}

/// What one record writes into the hash: the path and a mark that no path
/// contains, then its size and time, or one byte if it is absent. Numbers are written
/// in the byte order of the machine.
pub open spec fn record_writes(order: ByteOrder, record: PathRecord<Seq<char>>) -> Seq<Seq<u8>> {
    let name = seq![vstd::utf8::encode_utf8(record.path), seq![0xffu8]];
    match record.meta {
        Some(meta) => {
            let size = name.push(size_bytes(order, meta.len));
            match meta.modified {
                Some(nanos) => size.push(time_bytes(order, nanos)),
                None => size,
            }
        },
        None => name.push(seq![0xffu8]),
    }
}

/// What a list of records writes into the hash.
pub open spec fn writes(order: ByteOrder, records: Seq<PathRecord<Seq<char>>>) -> Seq<Seq<u8>>
    decreases records.len(),
{
    if records.len() == 0 {
        Seq::empty()
    } else {
        writes(order, records.drop_last()) + record_writes(order, records.last())
    }
}

/// The signature of a list of records.
pub open spec fn digest(order: ByteOrder, records: Seq<PathRecord<Seq<char>>>) -> u64 {
    <DefaultHasher as vstd::std_specs::hash::DefaultHasherAdditionalSpecFns>::spec_finish(
        writes(order, records),
    )
}

/// Puts the bytes of a number, lowest first, into the given order.
fn put_in_order(order: ByteOrder, little: Vec<u8>) -> (bytes: Vec<u8>)
    ensures
        bytes@ == in_order(order, little@),
{
    match order {
        ByteOrder::Little => little,
        ByteOrder::Big => {
            let mut bytes: Vec<u8> = Vec::new();
            for i in 0..little.len()
                invariant
                    bytes@ == little@.reverse().take(i as int),
            {
                bytes.push(little[little.len() - 1 - i]);
                assert(bytes@ =~= little@.reverse().take(i + 1));
            }
            assert(bytes@ =~= little@.reverse());
            bytes
        },
    }
}

/// Folds one path's name and metadata into the hash. A path that is not there adds to
/// it as well, so that its creation or removal shows.
pub fn hash_path(hasher: &mut DefaultHasher, order: ByteOrder, record: &PathRecord)
    ensures
        final(hasher)@ == old(hasher)@ + record_writes(order, record@),
{
    let ghost before = hasher@;
    let mark: Vec<u8> = vec![0xff];
    assert(mark@ =~= seq![0xffu8]);
    hasher.write(record.path.as_str().as_bytes());
    hasher.write(mark.as_slice());
    match &record.meta {
        Some(meta) => {
            let len = put_in_order(order, u64_to_le_bytes(meta.len));
            hasher.write(len.as_slice());
            match meta.modified {
                Some(nanos) => {
                    let nanos = put_in_order(order, u128_to_le_bytes(nanos));
                    hasher.write(nanos.as_slice());
                },
                None => {},
            }
        },
        None => {
            hasher.write(mark.as_slice());
        },
    }
    assert(hasher@ =~= before + record_writes(order, record@));
}

/// Folds what a walk met into the hash, or the root alone if there is no tree.
pub fn hash_tree(
    hasher: &mut DefaultHasher,
    order: ByteOrder,
    root: &PathRecord,
    exists: bool,
    entries: &Vec<PathRecord>,
)
    ensures
        final(hasher)@ == old(hasher)@ + writes(
            order,
            if exists {
                record_views(entries@)
            } else {
                seq![root@]
            },
        ),
{
    let ghost before = hasher@;
    if !exists {
        hash_path(hasher, order, root);
        proof {
            lemma_writes_one(order, root@);
        }
        return ;
    }
    let ghost all = record_views(entries@);
    assert(hasher@ =~= before + writes(order, all.take(0)));
    for i in 0..entries.len()
        invariant
            all == record_views(entries@),
            hasher@ == before + writes(order, all.take(i as int)),
    {
        hash_path(hasher, order, &entries[i]);
        assert(all.take(i + 1).drop_last() =~= all.take(i as int));
        assert(hasher@ =~= before + writes(order, all.take(i + 1)));
    }
    assert(all.take(all.len() as int) =~= all);
}

/// A list of one record writes what the record writes.
proof fn lemma_writes_one(order: ByteOrder, record: PathRecord<Seq<char>>)
    ensures
        writes(order, seq![record]) == record_writes(order, record),
{
    reveal_with_fuel(writes, 2);
    assert(seq![record].drop_last() =~= Seq::empty());
    assert(writes(order, seq![record]) =~= record_writes(order, record));
}

/// Writing one list after another is writing the two joined.
proof fn lemma_writes_join(
    order: ByteOrder,
    a: Seq<PathRecord<Seq<char>>>,
    b: Seq<PathRecord<Seq<char>>>,
)
    ensures
        writes(order, a + b) == writes(order, a) + writes(order, b),
    decreases b.len(),
{
    if b.len() == 0 {
        assert(a + b =~= a);
        assert(writes(order, a) + writes(order, b) =~= writes(order, a));
    } else {
        lemma_writes_join(order, a, b.drop_last());
        assert((a + b).drop_last() =~= a + b.drop_last());
        assert(writes(order, a + b) =~= writes(order, a) + writes(order, b));
    }
}

/// The signature of what a scan saw, on a machine with the given byte order.
pub fn compute_signature(order: ByteOrder, scan: &Vec<Observation>) -> (signature: u64)
    ensures
        signature == digest(order, all_records(scan@)),
{
    let mut hasher = DefaultHasher::new();
    assert(hasher@ =~= writes(order, all_records(scan@.take(0))));
    for i in 0..scan.len()
        invariant
            hasher@ == writes(order, all_records(scan@.take(i as int))),
    {
        let ghost before = all_records(scan@.take(i as int));
        match &scan[i] {
            Observation::File(record) => {
                hash_path(&mut hasher, order, record);
                proof {
                    lemma_writes_one(order, record@);
                }
            },
            Observation::Tree { root, exists, entries } => {
                hash_tree(&mut hasher, order, root, *exists, entries);
            },
        }
        proof {
            lemma_writes_join(order, before, scan@[i as int].records());
            assert(scan@.take(i + 1).drop_last() =~= scan@.take(i as int));
        }
    }
    assert(scan@.take(scan@.len() as int) =~= scan@);
    hasher.finish()
}

/// No text encodes to the mark that ends a path.
proof fn lemma_mark_is_no_text(text: Seq<char>)
    ensures
        vstd::utf8::encode_utf8(text) != seq![0xffu8],
{
    vstd::utf8::encode_utf8_valid_utf8(text);
    let bytes = seq![0xffu8];
    assert(!vstd::utf8::valid_utf8(bytes)) by {
        reveal_with_fuel(vstd::utf8::valid_utf8, 2);
        assert(bytes[0] == 0xffu8);
    }
}

/// The bytes of several writes, one after the other.
pub open spec fn joined(writes: Seq<Seq<u8>>) -> Seq<u8>
    decreases writes.len(),
{
    if writes.len() == 0 {
        Seq::empty()
    } else {
        joined(writes.drop_last()) + writes.last()
    }
}

proof fn lemma_joined_push(writes: Seq<Seq<u8>>, write: Seq<u8>)
    ensures
        joined(writes.push(write)) == joined(writes) + write,
{
    assert(writes.push(write).drop_last() =~= writes);
}

/// A path that is absent writes something else than the same path when it is there,
/// whatever its size and time: to the hasher its creation or removal is a change. The
/// two differ write by write, and so do the bytes they come to.
pub proof fn law_absence_shows(
    order: ByteOrder,
    before: Seq<Seq<u8>>,
    path: Seq<char>,
    meta: PathMeta,
)
    ensures
        ({
            let absent = before + record_writes(order, PathRecord { path, meta: None });
            let present = before + record_writes(order, PathRecord { path, meta: Some(meta) });
            absent != present && joined(absent) != joined(present)
        }),
{
    let absent = record_writes(order, PathRecord { path, meta: None });
    let present = record_writes(order, PathRecord { path, meta: Some(meta) });
    let text = vstd::utf8::encode_utf8(path);
    let mark = seq![0xffu8];
    let size = size_bytes(order, meta.len);
    vstd::bytes::lemma_auto_spec_u64_to_from_le_bytes();
    vstd::bytes::lemma_auto_spec_u128_to_from_le_bytes();
    let named = before.push(text).push(mark);
    lemma_joined_push(named, mark);
    lemma_joined_push(named, size);
    assert(before + absent =~= named.push(mark));
    match meta.modified {
        Some(nanos) => {
            let time = time_bytes(order, nanos);
            lemma_joined_push(named.push(size), time);
            assert(before + present =~= named.push(size).push(time));
        },
        None => {
            assert(before + present =~= named.push(size));
        },
    }
    assert(joined(before + absent).len() == joined(named).len() + 1);
    assert(joined(before + present).len() >= joined(named).len() + 8);
}

/// Different lists of records make different writes, taken one by one: whatever
/// changes in the paths, in their presence, their sizes or their times changes some
/// write or how many there are. Nothing is said of the bytes that the writes come to
/// together.
pub proof fn law_writes_tell_scans_apart(
    order: ByteOrder,
    a: Seq<PathRecord<Seq<char>>>,
    b: Seq<PathRecord<Seq<char>>>,
)
    requires
        writes(order, a) == writes(order, b),
    ensures
        a == b,
    decreases a.len(),
{
    if a.len() == 0 || b.len() == 0 {
        if a.len() > 0 {
            lemma_writes_nonempty(order, a);
        }
        if b.len() > 0 {
            lemma_writes_nonempty(order, b);
        }
        assert(a =~= b);
    } else {
        lemma_writes_first(order, a);
        lemma_writes_first(order, b);
        lemma_first_write(order, a);
        lemma_first_write(order, b);
        lemma_heads_agree(order, a, b);
        let head = record_writes(order, a[0]);
        assert(writes(order, a.drop_first()) =~= writes(order, a).skip(head.len() as int));
        assert(writes(order, b.drop_first()) =~= writes(order, b).skip(head.len() as int));
        law_writes_tell_scans_apart(order, a.drop_first(), b.drop_first());
        assert(a =~= seq![a[0]] + a.drop_first());
        assert(b =~= seq![b[0]] + b.drop_first());
    }
}

proof fn lemma_writes_first(order: ByteOrder, a: Seq<PathRecord<Seq<char>>>)
    requires
        a.len() > 0,
    ensures
        writes(order, a) == record_writes(order, a[0]) + writes(order, a.drop_first()),
{
    lemma_writes_join(order, seq![a[0]], a.drop_first());
    assert(a =~= seq![a[0]] + a.drop_first());
    lemma_writes_one(order, a[0]);
}

proof fn lemma_writes_nonempty(order: ByteOrder, a: Seq<PathRecord<Seq<char>>>)
    requires
        a.len() > 0,
    ensures
        writes(order, a).len() >= 3,
{
    lemma_writes_first(order, a);
}

/// If anything is written, the first write is a path.
proof fn lemma_first_write(order: ByteOrder, a: Seq<PathRecord<Seq<char>>>)
    requires
        a.len() > 0,
    ensures
        a.drop_first().len() > 0 ==> {
            let rest = writes(order, a.drop_first());
            &&& rest.len() >= 2
            &&& rest[0] == vstd::utf8::encode_utf8(a[1].path)
            &&& rest[0] != seq![0xffu8]
            &&& rest[1] == seq![0xffu8]
        },
        a.drop_first().len() == 0 ==> writes(order, a.drop_first()).len() == 0,
{
    if a.drop_first().len() > 0 {
        lemma_writes_first(order, a.drop_first());
        lemma_mark_is_no_text(a[1].path);
    }
}

/// Either order is its own opposite.
proof fn lemma_order_is_undone(order: ByteOrder, bytes: Seq<u8>)
    ensures
        in_order(order, in_order(order, bytes)) == bytes,
{
    assert(bytes.reverse().reverse() =~= bytes);
}

/// Lists that write the same start with the same record.
proof fn lemma_heads_agree(
    order: ByteOrder,
    a: Seq<PathRecord<Seq<char>>>,
    b: Seq<PathRecord<Seq<char>>>,
)
    requires
        a.len() > 0,
        b.len() > 0,
        writes(order, a) == writes(order, b),
    ensures
        a[0] == b[0],
{
    lemma_writes_first(order, a);
    lemma_writes_first(order, b);
    lemma_first_write(order, a);
    lemma_first_write(order, b);
    let w = writes(order, a);
    vstd::bytes::lemma_auto_spec_u64_to_from_le_bytes();
    vstd::bytes::lemma_auto_spec_u128_to_from_le_bytes();
    vstd::utf8::encode_utf8_decode_utf8(a[0].path);
    vstd::utf8::encode_utf8_decode_utf8(b[0].path);
    assert(w[0] == record_writes(order, a[0])[0]);
    assert(w[0] == record_writes(order, b[0])[0]);
    assert(a[0].path == b[0].path);
    assert(w[2] == record_writes(order, a[0])[2]);
    assert(w[2] == record_writes(order, b[0])[2]);
    assert(seq![0xffu8].len() == 1);
    if a[0].meta is Some && b[0].meta is Some {
        let ma = a[0].meta->0;
        let mb = b[0].meta->0;
        lemma_order_is_undone(order, vstd::bytes::spec_u64_to_le_bytes(ma.len));
        lemma_order_is_undone(order, vstd::bytes::spec_u64_to_le_bytes(mb.len));
        assert(w[2] == size_bytes(order, ma.len));
        assert(w[2] == size_bytes(order, mb.len));
        assert(ma.len == mb.len);
        if ma.modified is Some && mb.modified is Some {
            lemma_order_is_undone(order, vstd::bytes::spec_u128_to_le_bytes(ma.modified->0));
            lemma_order_is_undone(order, vstd::bytes::spec_u128_to_le_bytes(mb.modified->0));
            assert(w[3] == record_writes(order, a[0])[3]);
            assert(w[3] == record_writes(order, b[0])[3]);
        } else if ma.modified is Some {
            lemma_time_is_no_path(order, a, b);
        } else if mb.modified is Some {
            lemma_time_is_no_path(order, b, a);
        }
    }
}

/// A record with a time is never mistaken for one without.
proof fn lemma_time_is_no_path(
    order: ByteOrder,
    a: Seq<PathRecord<Seq<char>>>,
    b: Seq<PathRecord<Seq<char>>>,
)
    requires
        a.len() > 0,
        b.len() > 0,
        a[0].meta is Some && a[0].meta->0.modified is Some,
        b[0].meta is Some && b[0].meta->0.modified is None,
    ensures
        writes(order, a) != writes(order, b),
{
    lemma_writes_first(order, a);
    lemma_writes_first(order, b);
    lemma_first_write(order, a);
    lemma_first_write(order, b);
    if writes(order, a) == writes(order, b) {
        let w = writes(order, a);
        assert(record_writes(order, a[0]).len() == 4);
        assert(record_writes(order, b[0]).len() == 3);
        assert(w.len() >= 4);
        assert(b.drop_first().len() > 0);
        assert(w[4] == writes(order, b.drop_first())[1]);
        assert(w[4] == writes(order, a.drop_first())[0]);
    }
}

} // verus!
