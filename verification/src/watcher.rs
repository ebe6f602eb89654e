//! When a watched git directory asks for a reload.
use crate::names::texts;
use crate::paths::{same_path, same_place};
use crate::scan::{all_records, compute_signature, digest, ByteOrder, Observation};
use vstd::prelude::*;

verus! {

/// How long the directory has to stay quiet before a burst counts as over, in
/// nanoseconds: three seconds.
pub const DEFAULT_DEBOUNCE: u64 = 3_000_000_000;

/// How much time lies between two scans at least, in nanoseconds: half a second.
/// The host polls far more often than it makes sense to look at the disk.
pub const DEFAULT_POLL_INTERVAL: u64 = 500_000_000;

/// The time from `earlier` to `later`, or none if it runs the other way.
pub open spec fn elapsed(later: u64, earlier: u64) -> int {
    if later >= earlier {
        later - earlier
    } else {
        0
    }
}

/// The directories to watch: the two given, or one if they are the same place.
pub open spec fn distinct_dirs(git_dir: Seq<char>, common_dir: Seq<char>) -> Seq<Seq<char>> {
    if same_place(git_dir, common_dir) {
        seq![git_dir]
    } else {
        seq![git_dir, common_dir]
    }
}

/// What a watcher remembers between polls. Times are in nanoseconds.
#[verifier::ext_equal]
pub struct WatcherView {
    pub dirs: Seq<Seq<char>>,
    /// The byte order in which signatures are computed.
    pub order: ByteOrder,
    pub debounce: u64,
    pub poll_interval: u64,
    pub last_poll: Option<u64>,
    /// The signature of the last scan.
    pub signature: u64,
    /// While a burst lasts, when its latest change was seen.
    pub pending_since: Option<u64>,
    /// The burst changed again after it was answered.
    pub owed: bool,
}

impl WatcherView {
    /// A reload is owed only while a burst lasts.
    pub open spec fn valid(self) -> bool {
        self.debounce > 0 && (self.owed ==> self.pending_since is Some)
    }

    /// No burst is going on.
    pub open spec fn settled(self) -> bool {
        self.pending_since is None && !self.owed
    }

    /// The poll interval has passed since the last scan.
    pub open spec fn scan_due(self, now: u64) -> bool {
        self.last_poll matches Some(last) ==> elapsed(now, last) >= self.poll_interval
    }

    /// A poll at `now` scans and finds something changed.
    pub open spec fn sees_change(self, now: u64, seen: u64) -> bool {
        self.scan_due(now) && seen != self.signature
    }

    /// The latest change as of a poll at `now`.
    pub open spec fn latest_change(self, now: u64, seen: u64) -> Option<u64> {
        if self.sees_change(now, seen) {
            Some(now)
        } else {
            self.pending_since
        }
    }

    /// As of a poll at `now`, a burst has been quiet for the whole debounce time.
    pub open spec fn burst_over(self, now: u64, seen: u64) -> bool {
        self.latest_change(now, seen) matches Some(since) && elapsed(now, since) >= self.debounce
    }

    /// A reload is owed for changes after the first of the burst.
    pub open spec fn owes(self, now: u64, seen: u64) -> bool {
        self.owed || (self.sees_change(now, seen) && self.pending_since is Some)
    }

    /// A poll asks for a reload when it sees the first change of a burst, and when
    /// a burst with more changes than that is over.
    pub open spec fn reload_due(self, now: u64, seen: u64) -> bool {
        ||| self.sees_change(now, seen) && self.pending_since is None
        ||| self.burst_over(now, seen) && self.owes(now, seen)
    }

    /// The watcher after a poll at `now`, where a scan would give the signature
    /// `seen`.
    pub open spec fn polled(self, now: u64, seen: u64) -> WatcherView {
        let over = self.burst_over(now, seen);
        WatcherView {
            last_poll: if self.scan_due(now) {
                Some(now)
            } else {
                self.last_poll
            },
            signature: if self.scan_due(now) {
                seen
            } else {
                self.signature
            },
            pending_since: if over {
                None
            } else {
                self.latest_change(now, seen)
            },
            owed: self.owes(now, seen) && !over,
            ..self
        }
    }

    /// The watcher after polls at the given times with the given signatures.
    pub open spec fn after(self, polls: Seq<(u64, u64)>) -> WatcherView
        decreases polls.len(),
    {
        if polls.len() == 0 {
            self
        } else {
            self.after(polls.drop_last()).polled(polls.last().0, polls.last().1)
        }
    }

    /// Whether poll number `i` of a run asks for a reload.
    pub open spec fn reloads_at(self, polls: Seq<(u64, u64)>, i: int) -> bool {
        self.after(polls.take(i)).reload_due(polls[i].0, polls[i].1)
    }

    /// How many reloads a run of polls asks for.
    pub open spec fn reloads(self, polls: Seq<(u64, u64)>) -> nat
        decreases polls.len(),
    {
        if polls.len() == 0 {
            0
        } else {
            let before = polls.drop_last();
            let last: nat = if self.after(before).reload_due(polls.last().0, polls.last().1) {
                1
            } else {
                0
            };
            self.reloads(before) + last
        }
    }

    /// How many changes a run of polls sees.
    pub open spec fn changes(self, polls: Seq<(u64, u64)>) -> nat
        decreases polls.len(),
    {
        if polls.len() == 0 {
            0
        } else {
            let before = polls.drop_last();
            let last: nat = if self.after(before).sees_change(polls.last().0, polls.last().1) {
                1
            } else {
                0
            };
            self.changes(before) + last
        }
    }

    /// Nothing changes in a run of polls.
    pub open spec fn quiet(self, polls: Seq<(u64, u64)>) -> bool {
        forall|i: int| 0 <= i < polls.len() ==> (#[trigger] polls[i]).1 == self.signature
    }

    /// Every poll of a run comes during one burst: at each, a change is pending or
    /// just seen, and the latest is less than the debounce time old.
    pub open spec fn bursting(self, polls: Seq<(u64, u64)>) -> bool {
        forall|i: int|
            0 <= i < polls.len() ==> {
                let before = self.after(#[trigger] polls.take(i));
                &&& before.pending_since is Some
                &&& !before.burst_over(polls[i].0, polls[i].1)
            }
    }

    /// Some poll of a run comes when the pending burst has been quiet long enough.
    pub open spec fn reaches_end_of_burst(self, polls: Seq<(u64, u64)>) -> bool {
        self.pending_since matches Some(since) && exists|i: int|
            0 <= i < polls.len() && elapsed((#[trigger] polls[i]).0, since) >= self.debounce
    }
}

/// A debounced poller for a repository's git directory.
///
/// The host polls it once per tick with what a scan of the directory shows. The
/// first change asks for a reload at once. Changes that follow while the
/// directory is busy are collapsed, and answered by one more reload when it has
/// been quiet for the debounce time.
pub struct GitWatcher {
    dirs: Vec<String>,
    order: ByteOrder,
    debounce: u64,
    poll_interval: u64,
    last_poll: Option<u64>,
    signature: u64,
    pending_since: Option<u64>,
    owed: bool,
}

impl View for GitWatcher {
    type V = WatcherView;

    closed spec fn view(&self) -> WatcherView {
        WatcherView {
            dirs: texts(self.dirs@),
            order: self.order,
            debounce: self.debounce,
            poll_interval: self.poll_interval,
            last_poll: self.last_poll,
            signature: self.signature,
            pending_since: self.pending_since,
            owed: self.owed,
        }
    }
}

/// The directories a watcher looks at. `git_dir` is the repository's own git
/// directory and `common_dir` the one that holds the refs of linked worktrees.
/// They are usually the same, and then looked at only once. Both are in the form that
/// [`paths`](crate::paths) compares, with `/` between the parts.
pub fn watched_dirs(git_dir: String, common_dir: String) -> (dirs: Vec<String>)
    ensures
        texts(dirs@) == distinct_dirs(git_dir@, common_dir@),
{
    let same = same_path(&git_dir, &common_dir);
    let ghost pair = (git_dir, common_dir);
    let mut dirs: Vec<String> = Vec::new();
    dirs.push(git_dir);
    if !same {
        dirs.push(common_dir);
    }
    assert(texts(dirs@) =~= distinct_dirs(pair.0@, pair.1@));
    dirs
}

impl GitWatcher {
    /// A watcher whose baseline is what the first scan saw, so that the first real
    /// change is what asks for a reload, and not the watcher coming up. It looks at the
    /// directories that [`watched_dirs`] makes of the two given. `order` is the byte
    /// order of the machine.
    pub fn new(
        git_dir: String,
        common_dir: String,
        order: ByteOrder,
        baseline: &Vec<Observation>,
    ) -> (watcher: Self)
        ensures
            watcher@ == (WatcherView {
                dirs: distinct_dirs(git_dir@, common_dir@),
                order,
                debounce: DEFAULT_DEBOUNCE,
                poll_interval: DEFAULT_POLL_INTERVAL,
                last_poll: None,
                signature: digest(order, all_records(baseline@)),
                pending_since: None,
                owed: false,
            }),
            watcher@.valid(),
            watcher@.settled(),
    {
        GitWatcher {
            dirs: watched_dirs(git_dir, common_dir),
            order,
            debounce: DEFAULT_DEBOUNCE,
            poll_interval: DEFAULT_POLL_INTERVAL,
            last_poll: None,
            signature: compute_signature(order, baseline),
            pending_since: None,
            owed: false,
        }
    }

    /// How many directories there are to scan.
    pub fn dir_count(&self) -> (count: usize)
        ensures
            count == self@.dirs.len(),
    {
        self.dirs.len()
    }

    /// Whether a poll at `now` looks at the scan it is given. The host need not
    /// touch the disk for a poll that does not.
    pub fn scan_due(&self, now: u64) -> (due: bool)
        ensures
            due == self@.scan_due(now),
    {
        match self.last_poll {
            Some(last) => now.saturating_sub(last) >= self.poll_interval,
            None => true,
        }
    }

    /// Takes note of a scan (at most once per poll interval) and says whether a
    /// reload is due.
    pub fn poll(&mut self, now: u64, scan: &Vec<Observation>) -> (reload: bool)
        ensures
            final(self)@ == old(self)@.polled(now, digest(old(self)@.order, all_records(scan@))),
            reload == old(self)@.reload_due(now, digest(old(self)@.order, all_records(scan@))),
            old(self)@.valid() ==> final(self)@.valid(),
    {
        let mut first_change = false;
        if self.scan_due(now) {
            self.last_poll = Some(now);
            let signature = compute_signature(self.order, scan);
            if signature != self.signature {
                self.signature = signature;
                match self.pending_since {
                    Some(_) => {
                        self.owed = true;
                    },
                    None => {
                        first_change = true;
                    },
                }
                self.pending_since = Some(now);
            }
        }
        let over = match self.pending_since {
            Some(since) => now.saturating_sub(since) >= self.debounce,
            None => false,
        };
        let settles_debt = over && self.owed;
        if over {
            self.pending_since = None;
            self.owed = false;
        }
        first_change || settles_debt
    }
}

/// A run of polls without its last is quiet if the run is, and so is the last poll.
proof fn lemma_quiet_prefix(watcher: WatcherView, polls: Seq<(u64, u64)>)
    requires
        polls.len() > 0,
        watcher.quiet(polls),
    ensures
        watcher.quiet(polls.drop_last()),
        polls.last().1 == watcher.signature,
{
    let before = polls.drop_last();
    assert forall|i: int| 0 <= i < before.len() implies (#[trigger] before[i]).1
        == watcher.signature by {
        assert(polls[i].1 == watcher.signature);
    }
}

/// A run of polls without its last comes during one burst if the run does, and so does
/// the last poll.
proof fn lemma_bursting_prefix(watcher: WatcherView, polls: Seq<(u64, u64)>)
    requires
        polls.len() > 0,
        watcher.bursting(polls),
    ensures
        watcher.bursting(polls.drop_last()),
        watcher.after(polls.drop_last()).pending_since is Some,
        !watcher.after(polls.drop_last()).burst_over(polls.last().0, polls.last().1),
{
    let before = polls.drop_last();
    assert(polls.take(polls.len() - 1) =~= before);
    assert forall|i: int| 0 <= i < before.len() implies {
        let state = watcher.after(#[trigger] before.take(i));
        &&& state.pending_since is Some
        &&& !state.burst_over(before[i].0, before[i].1)
    } by {
        assert(before.take(i) =~= polls.take(i));
        assert(watcher.after(polls.take(i)).pending_since is Some);
    }
}

/// A directory in which nothing changes never asks for a reload.
pub proof fn law_quiet_directory_never_asks(watcher: WatcherView, polls: Seq<(u64, u64)>)
    requires
        watcher.settled(),
        watcher.quiet(polls),
    ensures
        watcher.reloads(polls) == 0,
        watcher.after(polls).settled(),
        watcher.after(polls).signature == watcher.signature,
    decreases polls.len(),
{
    if polls.len() > 0 {
        lemma_quiet_prefix(watcher, polls);
        law_quiet_directory_never_asks(watcher, polls.drop_last());
    }
}

/// The first change after a quiet time asks for a reload at the scan that sees
/// it, and owes nothing.
pub proof fn law_first_change_reloads_at_once(watcher: WatcherView, now: u64, seen: u64)
    requires
        watcher.valid(),
        watcher.settled(),
        watcher.sees_change(now, seen),
    ensures
        watcher.reload_due(now, seen),
        !watcher.polled(now, seen).owed,
        watcher.polled(now, seen).pending_since == Some(now),
        watcher.polled(now, seen).signature == seen,
{
}

/// A lone change is answered once: the polls that follow it ask for nothing.
pub proof fn law_lone_change_owes_nothing(
    watcher: WatcherView,
    now: u64,
    seen: u64,
    polls: Seq<(u64, u64)>,
)
    requires
        watcher.valid(),
        watcher.settled(),
        watcher.sees_change(now, seen),
        watcher.polled(now, seen).quiet(polls),
    ensures
        watcher.polled(now, seen).reloads(polls) == 0,
{
    law_burst_settles_with_at_most_one_reload(watcher.polled(now, seen), polls);
}

/// While a burst lasts, nothing is asked for.
pub proof fn law_burst_is_collapsed(watcher: WatcherView, polls: Seq<(u64, u64)>)
    requires
        watcher.bursting(polls),
    ensures
        watcher.reloads(polls) == 0,
    decreases polls.len(),
{
    if polls.len() > 0 {
        lemma_bursting_prefix(watcher, polls);
        law_burst_is_collapsed(watcher, polls.drop_last());
    }
}

/// Once the directory is quiet there is exactly one more reload if one is owed and
/// a poll comes after the debounce time, and none otherwise.
pub proof fn law_burst_settles_with_at_most_one_reload(
    watcher: WatcherView,
    polls: Seq<(u64, u64)>,
)
    requires
        watcher.valid(),
        watcher.quiet(polls),
    ensures
        watcher.owed && watcher.reaches_end_of_burst(polls) ==> watcher.reloads(polls) == 1,
        !(watcher.owed && watcher.reaches_end_of_burst(polls)) ==> watcher.reloads(polls) == 0,
        watcher.reaches_end_of_burst(polls) ==> watcher.after(polls).settled(),
        !watcher.reaches_end_of_burst(polls) ==> watcher.after(polls).pending_since
            == watcher.pending_since && watcher.after(polls).owed == watcher.owed,
        watcher.after(polls).signature == watcher.signature,
        watcher.after(polls).debounce == watcher.debounce,
    decreases polls.len(),
{
    if polls.len() > 0 {
        let before = polls.drop_last();
        let n = polls.len() - 1;
        lemma_quiet_prefix(watcher, polls);
        law_burst_settles_with_at_most_one_reload(watcher, before);
        if watcher.pending_since is Some {
            let since = watcher.pending_since->0;
            if watcher.reaches_end_of_burst(before) {
                let i = choose|i: int|
                    0 <= i < before.len() && elapsed((#[trigger] before[i]).0, since)
                        >= watcher.debounce;
                assert(elapsed(polls[i].0, since) >= watcher.debounce);
                assert(watcher.reaches_end_of_burst(polls));
            } else if watcher.reaches_end_of_burst(polls) {
                let i = choose|i: int|
                    0 <= i < polls.len() && elapsed((#[trigger] polls[i]).0, since)
                        >= watcher.debounce;
                if i < n {
                    assert(elapsed(before[i].0, since) >= watcher.debounce);
                }
                assert(i == n);
            } else {
                assert(!(elapsed(polls[n].0, since) >= watcher.debounce));
            }
        }
    }
}

/// Polling on from where a run left off is polling the two runs in one.
proof fn lemma_runs_join(watcher: WatcherView, a: Seq<(u64, u64)>, b: Seq<(u64, u64)>)
    ensures
        watcher.after(a + b) == watcher.after(a).after(b),
        watcher.reloads(a + b) == watcher.reloads(a) + watcher.after(a).reloads(b),
    decreases b.len(),
{
    if b.len() == 0 {
        assert(a + b =~= a);
    } else {
        lemma_runs_join(watcher, a, b.drop_last());
        assert((a + b).drop_last() =~= a + b.drop_last());
    }
}

/// During a burst the debt and the debounce time stay, and any change makes a debt.
proof fn lemma_burst_state(watcher: WatcherView, polls: Seq<(u64, u64)>)
    requires
        watcher.valid(),
        watcher.pending_since is Some,
        watcher.bursting(polls),
    ensures
        watcher.after(polls).valid(),
        watcher.after(polls).pending_since is Some,
        watcher.after(polls).owed <==> watcher.owed || watcher.changes(polls) > 0,
    decreases polls.len(),
{
    if polls.len() > 0 {
        lemma_bursting_prefix(watcher, polls);
        lemma_burst_state(watcher, polls.drop_last());
    }
}

/// A burst of several changes asks for exactly two reloads: one when its first
/// change is seen, and one when the directory has settled.
pub proof fn law_burst_reloads_up_front_and_after(
    watcher: WatcherView,
    first: (u64, u64),
    busy: Seq<(u64, u64)>,
    calm: Seq<(u64, u64)>,
)
    requires
        watcher.valid(),
        watcher.settled(),
        watcher.sees_change(first.0, first.1),
        watcher.polled(first.0, first.1).bursting(busy),
        watcher.polled(first.0, first.1).changes(busy) > 0,
        watcher.polled(first.0, first.1).after(busy).quiet(calm),
        watcher.polled(first.0, first.1).after(busy).reaches_end_of_burst(calm),
    ensures
        watcher.reloads_at(seq![first] + busy + calm, 0),
        watcher.reloads(seq![first] + busy) == 1,
        watcher.reloads(seq![first] + busy + calm) == 2,
        watcher.after(seq![first] + busy + calm).settled(),
{
    let start = seq![first];
    let opened = watcher.polled(first.0, first.1);
    assert(start.drop_last() =~= Seq::empty());
    assert(watcher.after(start) == opened) by {
        reveal_with_fuel(WatcherView::after, 2);
    }
    assert(watcher.reloads(start) == 1) by {
        reveal_with_fuel(WatcherView::reloads, 2);
        assert(watcher.after(start.drop_last()) == watcher);
    }
    lemma_runs_join(watcher, start, busy);
    lemma_runs_join(watcher, start + busy, calm);
    law_burst_is_collapsed(opened, busy);
    lemma_burst_state(opened, busy);
    law_burst_settles_with_at_most_one_reload(opened.after(busy), calm);
    assert((start + busy + calm).take(0) =~= Seq::empty());
}

/// No change is lost: a poll that sees one asks for a reload or leaves one owed,
/// and a reload that is owed stays so until a poll asks for it.
pub proof fn law_no_change_is_lost(watcher: WatcherView, now: u64, seen: u64)
    ensures
        watcher.sees_change(now, seen) || watcher.owed ==> watcher.reload_due(now, seen)
            || watcher.polled(now, seen).owed,
{
}

/// There are never more reloads than changes.
pub proof fn law_reloads_answer_changes(watcher: WatcherView, polls: Seq<(u64, u64)>)
    requires
        watcher.valid(),
        !watcher.owed,
    ensures
        watcher.after(polls).valid(),
        watcher.reloads(polls) + (if watcher.after(polls).owed {
            1nat
        } else {
            0nat
        }) <= watcher.changes(polls),
    decreases polls.len(),
{
    if polls.len() > 0 {
        law_reloads_answer_changes(watcher, polls.drop_last());
    }
}

/// Inside the poll interval a poll does not look at the scan: whatever it shows,
/// the answer is the same, and so is what the watcher remembers.
pub proof fn law_scans_are_throttled(watcher: WatcherView, now: u64, a: u64, b: u64)
    requires
        !watcher.scan_due(now),
    ensures
        watcher.reload_due(now, a) == watcher.reload_due(now, b),
        watcher.polled(now, a) == watcher.polled(now, b),
        watcher.polled(now, a).signature == watcher.signature,
        watcher.polled(now, a).last_poll == watcher.last_poll,
{
}

} // verus!
