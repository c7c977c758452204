//! A bounded log of the most recent entries: recording past the bound drops the oldest
//! entry, so the log always holds the newest entries, oldest first.

use vstd::prelude::*;

verus! {

/// How many entries the recent log keeps.
pub const RECENT_LOG_LIMIT: usize = 200;

/// The log after recording `e`: the oldest entry leaves when the log is full.
pub open spec fn ring_after<T>(s: Seq<T>, e: T) -> Seq<T> {
    if s.len() >= RECENT_LOG_LIMIT {
        s.drop_first().push(e)
    } else {
        s.push(e)
    }
}

/// The log after recording every entry of `history`, in order, from empty.
pub open spec fn recorded<T>(history: Seq<T>) -> Seq<T>
    decreases history.len(),
{
    if history.len() == 0 {
        Seq::empty()
    } else {
        ring_after(recorded(history.drop_last()), history.last())
    }
}

/// The newest `RECENT_LOG_LIMIT` entries of a history (all of them when it is shorter).
pub open spec fn newest<T>(history: Seq<T>) -> Seq<T> {
    if history.len() <= RECENT_LOG_LIMIT {
        history
    } else {
        history.subrange(history.len() - RECENT_LOG_LIMIT, history.len() as int)
    }
}

/// The newest entries, oldest first.
pub struct RecentLog<T> {
    entries: Vec<T>,
}

impl<T> View for RecentLog<T> {
    type V = Seq<T>;

    closed spec fn view(&self) -> Seq<T> {
        self.entries@
    }
}

impl<T> RecentLog<T> {
    /// The log never holds more than its bound.
    pub closed spec fn wf(&self) -> bool {
        self.entries@.len() <= RECENT_LOG_LIMIT
    }

    /// An empty log.
    pub fn new() -> (r: Self)
        ensures
            r.wf(),
            r@ == Seq::<T>::empty(),
    {
        RecentLog { entries: Vec::new() }
    }

    /// The newest entries of a history read back from storage, oldest first.
    pub fn from_history(history: Vec<T>) -> (r: Self)
        ensures
            r.wf(),
            r@ == newest(history@),
    {
        let mut entries = history;
        let ghost all = entries@;
        proof {
            assert(all.subrange(0, all.len() as int) =~= all);
        }
        while entries.len() > RECENT_LOG_LIMIT
            invariant
                all == history@,
                all.len() >= entries@.len(),
                all.len() > RECENT_LOG_LIMIT ==> entries@.len() >= RECENT_LOG_LIMIT,
                all.len() <= RECENT_LOG_LIMIT ==> entries@.len() == all.len(),
                entries@ == all.subrange(all.len() - entries@.len(), all.len() as int),
            decreases entries.len(),
        {
            let ghost before = entries@;
            entries.remove(0);
            proof {
                assert(entries@ =~= all.subrange(all.len() - entries@.len(), all.len() as int));
            }
        }
        proof {
            if all.len() <= RECENT_LOG_LIMIT {
                assert(entries@ =~= all);
            }
        }
        RecentLog { entries }
    }

    /// Record one more entry, dropping the oldest when the log is full.
    pub fn record(&mut self, entry: T)
        requires
            old(self).wf(),
        ensures
            final(self).wf(),
            final(self)@ == ring_after(old(self)@, entry),
    {
        if self.entries.len() >= RECENT_LOG_LIMIT {
            self.entries.remove(0);
        }
        self.entries.push(entry);
    }

    /// The entries, oldest first.
    pub fn entries(&self) -> (r: &[T])
        ensures
            r@ == self@,
    {
        self.entries.as_slice()
    }

    pub fn len(&self) -> (r: usize)
        ensures
            r == self@.len(),
    {
        self.entries.len()
    }
}

/// Whatever was recorded, the log holds exactly the newest entries, oldest first.
pub proof fn law_recent_log_keeps_newest<T>(history: Seq<T>)
    ensures
        recorded(history) == newest(history),
    decreases history.len(),
{
    if history.len() > 0 {
        let prev = history.drop_last();
        law_recent_log_keeps_newest(prev);
        if prev.len() < RECENT_LOG_LIMIT {
            assert(prev.push(history.last()) =~= history);
        } else {
            let r = newest(prev);
            assert(r.len() == RECENT_LOG_LIMIT);
            assert(r.drop_first().push(history.last()) =~= newest(history));
        }
    }
}

} // verus!
