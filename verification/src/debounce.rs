//! Rate limiter for diagnostic logging: approves at most one firing per
//! minimum interval. Time is handed in as a monotonic microsecond timestamp.

use vstd::prelude::*;

verus! {

/// Says whether a debouncer whose last approved firing is `last` approves a
/// new firing at time `t`, given the minimum interval between firings.
pub open spec fn debounce_fires(min_interval: u64, last: Option<u64>, t: u64) -> bool {
    match last {
        Option::None => true,
        Option::Some(l) => t >= l + min_interval,
    }
}

/// The stored last-firing timestamp after one `can_fire` call at time `t`.
pub open spec fn debounce_next(min_interval: u64, last: Option<u64>, t: u64) -> Option<u64> {
    if debounce_fires(min_interval, last, t) {
        Option::Some(t)
    } else {
        last
    }
}

/// The results of a run of `can_fire` calls at the timestamps `ts`, starting
/// from the stored timestamp `last`.
pub open spec fn debounce_run(min_interval: u64, last: Option<u64>, ts: Seq<u64>) -> Seq<bool>
    decreases ts.len(),
{
    if ts.len() == 0 {
        Seq::empty()
    } else {
        seq![debounce_fires(min_interval, last, ts[0])]
            + debounce_run(min_interval, debounce_next(min_interval, last, ts[0]), ts.drop_first())
    }
}

/// Rate limiter shared by the dispatch loop's log call sites. Its one
/// invariant: consecutive approved firings are at least `min_interval` apart.
pub struct Debouncer {
    min_interval: u64,
    last_fired: Option<u64>,
}

impl Debouncer {
    pub closed spec fn min_interval(self) -> u64 {
        self.min_interval
    }

    pub closed spec fn last_fired(self) -> Option<u64> {
        self.last_fired
    }

    pub fn new(min_interval: u64) -> (r: Debouncer)
        ensures
            r.min_interval() == min_interval,
            r.last_fired() is None,
    {
        Debouncer { min_interval, last_fired: Option::None }
    }

    /// Approves at most one firing per `min_interval`: true exactly when no
    /// firing was approved yet or `now` is at least `min_interval` past the
    /// last approved one, and only then is the stored timestamp replaced.
    pub fn can_fire(&mut self, now: u64) -> (r: bool)
        ensures
            r == debounce_fires(old(self).min_interval(), old(self).last_fired(), now),
            final(self).min_interval() == old(self).min_interval(),
            final(self).last_fired() == debounce_next(
                old(self).min_interval(),
                old(self).last_fired(),
                now,
            ),
    {
        match self.last_fired {
            Option::None => {
                self.last_fired = Option::Some(now);
                true
            },
            Option::Some(l) => {
                if now >= l && now - l >= self.min_interval {
                    self.last_fired = Option::Some(now);
                    true
                } else {
                    false
                }
            },
        }
    }
}

proof fn lemma_debounce_gaps_from(min_interval: u64, last: Option<u64>, ts: Seq<u64>)
    ensures
        debounce_run(min_interval, last, ts).len() == ts.len(),
        forall|i: int, j: int|
            0 <= i < j < ts.len() && debounce_run(min_interval, last, ts)[i]
                && debounce_run(min_interval, last, ts)[j] ==> ts[i] + min_interval <= ts[j],
        forall|l: u64, i: int|
            last == Option::Some(l) && 0 <= i < ts.len() && debounce_run(min_interval, last, ts)[i]
                ==> l + min_interval <= ts[i],
    decreases ts.len(),
{
    if ts.len() > 0 {
        let fired = debounce_fires(min_interval, last, ts[0]);
        let next = debounce_next(min_interval, last, ts[0]);
        let rest = ts.drop_first();
        lemma_debounce_gaps_from(min_interval, next, rest);
        let run = debounce_run(min_interval, last, ts);
        let run_rest = debounce_run(min_interval, next, rest);
        assert forall|i: int, j: int|
            0 <= i < j < ts.len() && run[i] && run[j] implies ts[i] + min_interval <= ts[j] by {
            if i == 0 {
                assert(fired);
                assert(next == Option::Some(ts[0]));
                assert(run_rest[j - 1]);
                assert(rest[j - 1] == ts[j]);
            } else {
                assert(run_rest[i - 1] && run_rest[j - 1]);
                assert(rest[i - 1] == ts[i] && rest[j - 1] == ts[j]);
            }
        }
        assert forall|l: u64, i: int|
            last == Option::Some(l) && 0 <= i < ts.len() && run[i]
                implies l + min_interval <= ts[i] by {
            if i == 0 {
                assert(debounce_fires(min_interval, last, ts[0]));
            } else {
                assert(run_rest[i - 1]);
                assert(rest[i - 1] == ts[i]);
                if fired {
                    assert(next == Option::Some(ts[0]));
                    assert(ts[0] + min_interval <= ts[i]);
                    assert(l + min_interval <= ts[0]);
                } else {
                    assert(next == last);
                }
            }
        }
    }
}

/// Debounce law: over any run of `can_fire` calls, any two approved firings
/// lie at least `min_interval` apart, so in particular the sorted approved
/// timestamps have consecutive gaps of at least `min_interval`.
pub proof fn lemma_debounce_gaps(min_interval: u64, ts: Seq<u64>)
    ensures
        debounce_run(min_interval, Option::None, ts).len() == ts.len(),
        forall|i: int, j: int|
            0 <= i < j < ts.len() && debounce_run(min_interval, Option::None, ts)[i]
                && debounce_run(min_interval, Option::None, ts)[j]
                ==> ts[i] + min_interval <= ts[j],
{
    lemma_debounce_gaps_from(min_interval, Option::None, ts);
}

} // verus!
