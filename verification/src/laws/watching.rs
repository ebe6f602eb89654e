//! What a single poll does.
use crate::watcher::WatcherView;
use vstd::prelude::*;

verus! {

/// A poll looks at the scan: it is the first, or comes the poll interval or more after the
/// last one that did.
pub open spec fn looks(watcher: WatcherView, now: u64) -> bool {
    ||| watcher.last_poll is None
    ||| watcher.poll_interval == 0
    ||| watcher.last_poll matches Some(last) && now >= last + watcher.poll_interval
}

/// What a poll leaves as it was, whatever it sees.
pub open spec fn keeps_its_settings(before: WatcherView, after: WatcherView) -> bool {
    &&& after.dirs == before.dirs
    &&& after.order == before.order
    &&& after.debounce == before.debounce
    &&& after.poll_interval == before.poll_interval
}

/// A poll that looks remembers when and what it saw; one that does not remembers nothing.
pub proof fn law_looking_is_remembered(watcher: WatcherView, now: u64, seen: u64)
    ensures
        keeps_its_settings(watcher, watcher.polled(now, seen)),
        looks(watcher, now) ==> watcher.polled(now, seen).last_poll == Some(now)
            && watcher.polled(now, seen).signature == seen,
        !looks(watcher, now) ==> watcher.polled(now, seen).last_poll == watcher.last_poll
            && watcher.polled(now, seen).signature == watcher.signature,
{
}

/// A poll that sees a change starts the quiet time anew. It asks for a reload exactly if no
/// burst was going on, and otherwise leaves one owed.
pub proof fn law_change_is_answered_or_owed(watcher: WatcherView, now: u64, seen: u64)
    requires
        watcher.debounce > 0,
        watcher.owed ==> watcher.pending_since is Some,
        looks(watcher, now),
        seen != watcher.signature,
    ensures
        watcher.polled(now, seen).pending_since == Some(now),
        watcher.reload_due(now, seen) <==> watcher.pending_since is None,
        watcher.polled(now, seen).owed <==> watcher.pending_since is Some,
{
}

/// A poll that sees no change asks for a reload exactly if one is owed and the latest change
/// lies the debounce time or more back. A burst is over once it does, and not before.
pub proof fn law_quiet_poll_settles_what_is_owed(watcher: WatcherView, now: u64, seen: u64)
    requires
        watcher.debounce > 0,
        watcher.owed ==> watcher.pending_since is Some,
        !looks(watcher, now) || seen == watcher.signature,
    ensures
        watcher.pending_since is None ==> {
            &&& !watcher.reload_due(now, seen)
            &&& watcher.polled(now, seen).pending_since is None
            &&& !watcher.polled(now, seen).owed
        },
        watcher.pending_since matches Some(since) && now >= since + watcher.debounce ==> {
            &&& watcher.reload_due(now, seen) <==> watcher.owed
            &&& watcher.polled(now, seen).pending_since is None
            &&& !watcher.polled(now, seen).owed
        },
        watcher.pending_since matches Some(since) && now < since + watcher.debounce ==> {
            &&& !watcher.reload_due(now, seen)
            &&& watcher.polled(now, seen).pending_since == watcher.pending_since
            &&& watcher.polled(now, seen).owed == watcher.owed
        },
{
}

} // verus!
