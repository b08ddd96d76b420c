use vstd::prelude::*;
use std::collections::VecDeque;
use crate::{ErasedLoggable, Level, Log, Loggable, Timestamp};

verus! {

/// A record as the contracts see it: time, level and message.
pub type LogModel = (Timestamp, Level, Seq<char>);

/// The history after one record is appended under `limit`: when the history
/// is full, its oldest record goes first.
pub open spec fn push_spec(logs: Seq<LogModel>, limit: Option<usize>, rec: LogModel) -> Seq<
    LogModel,
> {
    match limit {
        Some(n) => if logs.len() == n {
            logs.subrange(1, logs.len() as int).push(rec)
        } else {
            logs.push(rec)
        },
        None => logs.push(rec),
    }
}

/// The history after each of `recs` is appended in turn.
pub open spec fn push_all(logs: Seq<LogModel>, limit: Option<usize>, recs: Seq<LogModel>) -> Seq<
    LogModel,
>
    decreases recs.len(),
{
    if recs.len() == 0 {
        logs
    } else {
        push_spec(push_all(logs, limit, recs.drop_last()), limit, recs.last())
    }
}

/// The last `n` items of `s`, or all of them where there are fewer.
pub open spec fn keep_last(s: Seq<LogModel>, n: nat) -> Seq<LogModel> {
    if s.len() <= n {
        s
    } else {
        s.subrange(s.len() - n, s.len() as int)
    }
}

/// With a limit of `n`, a history that starts empty holds, after any run of
/// appends, exactly the last `n` records appended, in the order they came; it
/// holds all of them where there were no more than `n`.
pub proof fn lemma_limited_keeps_last(n: usize, recs: Seq<LogModel>)
    requires
        n > 0,
    ensures
        push_all(Seq::empty(), Some(n), recs) == keep_last(recs, n as nat),
        recs.len() > n ==> push_all(Seq::empty(), Some(n), recs).len() == n,
    decreases recs.len(),
{
    if recs.len() > 0 {
        let prev = recs.drop_last();
        lemma_limited_keeps_last(n, prev);
        let kept = keep_last(prev, n as nat);
        if prev.len() < n {
            assert(kept.push(recs.last()) =~= recs);
        } else {
            assert(kept.subrange(1, kept.len() as int).push(recs.last()) =~= keep_last(
                recs,
                n as nat,
            ));
        }
    }
}

/// Without a limit, a history that starts empty holds every record appended,
/// in the order they came.
pub proof fn lemma_unlimited_keeps_all(recs: Seq<LogModel>)
    ensures
        push_all(Seq::empty(), None, recs) == recs,
    decreases recs.len(),
{
    if recs.len() > 0 {
        lemma_unlimited_keeps_all(recs.drop_last());
        assert(recs.drop_last().push(recs.last()) =~= recs);
    }
}

/// Relies on VecDeque::shrink_to_fit, which changes the capacity only, never
/// the contents.
#[verifier::external_body]
fn shrink_logs(logs: &mut VecDeque<Log>)
    ensures
        final(logs)@ == old(logs)@,
{
    logs.shrink_to_fit()
}

/// Relies on String::shrink_to_fit, which changes the capacity only, never the
/// text.
#[verifier::external_body]
fn shrink_text(s: &mut String)
    ensures
        final(s)@ == old(s)@,
{
    s.shrink_to_fit()
}

/// An ordered history of records, holding at most `limit` of them when a limit
/// is set.
pub struct History {
    logs: VecDeque<Log>,
    limit: Option<usize>,
}

impl View for History {
    type V = Seq<LogModel>;

    closed spec fn view(&self) -> Seq<LogModel> {
        self.logs@.map_values(|l: Log| l@)
    }
}

impl History {
    /// The limit the history was made with.
    pub closed spec fn limit(&self) -> Option<usize> {
        self.limit
    }

    pub closed spec fn wf(&self) -> bool {
        match self.limit {
            Some(n) => n > 0 && self.logs@.len() <= n,
            None => true,
        }
    }

    /// A well-formed history has a positive limit, if any, and holds no more
    /// records than that limit.
    pub proof fn lemma_within_limit(&self)
        requires
            self.wf(),
        ensures
            self.limit() matches Some(n) ==> n > 0 && self@.len() <= n,
    {
    }

    /// An empty history; with `Some(n)`, it keeps the last `n` records.
    pub fn new(limit: Option<usize>) -> (r: History)
        requires
            limit matches Some(n) ==> n > 0,
        ensures
            r.wf(),
            r@ == Seq::<LogModel>::empty(),
            r.limit() == limit,
    {
        let cap: usize = match limit {
            Some(n) => n,
            None => 0,
        };
        let logs = VecDeque::with_capacity(cap);
        let r = History { logs, limit };
        assert(r@ =~= Seq::<LogModel>::empty());
        r
    }

    /// Appends a record, evicting the oldest one first when the history is full.
    pub fn push(&mut self, log: Log)
        requires
            old(self).wf(),
        ensures
            final(self).wf(),
            final(self).limit() == old(self).limit(),
            final(self)@ == push_spec(old(self)@, old(self).limit(), log@),
    {
        let full = match self.limit {
            Some(n) => self.logs.len() == n,
            None => false,
        };
        let ghost before = self.logs@;
        if full {
            let _ = self.logs.pop_front();
        }
        let ghost mid = self.logs@;
        self.logs.push_back(log);
        proof {
            if full {
                assert(mid.map_values(|l: Log| l@) =~= before.map_values(|l: Log| l@).subrange(
                    1,
                    before.len() as int,
                ));
            }
            assert(self.logs@ == mid.push(log));
            assert(self.logs@.map_values(|l: Log| l@) =~= mid.map_values(|l: Log| l@).push(log@));
        }
    }

    /// Renders `payload` and appends it as a record stamped with `time`.
    pub fn record_at(&mut self, level: Level, payload: ErasedLoggable, time: Timestamp)
        requires
            old(self).wf(),
        ensures
            final(self).wf(),
            final(self).limit() == old(self).limit(),
            final(self)@ == push_spec(old(self)@, old(self).limit(), (time, level, payload@)),
    {
        let mut message = String::new();
        payload.log_to(&mut message);
        shrink_text(&mut message);
        assert(message@ =~= payload@);
        self.push(Log { time, level, message });
    }

    /// Removes every record and gives back the spare storage; the limit stays.
    pub fn clear(&mut self)
        requires
            old(self).wf(),
        ensures
            final(self).wf(),
            final(self)@ == Seq::<LogModel>::empty(),
            final(self).limit() == old(self).limit(),
    {
        self.logs.clear();
        shrink_logs(&mut self.logs);
        assert(self@ =~= Seq::<LogModel>::empty());
    }

    /// The number of records held.
    pub fn len(&self) -> (r: usize)
        ensures
            r == self@.len(),
    {
        self.logs.len()
    }

    /// The record at `i`, oldest first.
    pub fn get(&self, i: usize) -> (r: &Log)
        requires
            i < self@.len(),
        ensures
            r@ == self@[i as int],
    {
        &self.logs[i]
    }
}

} // verus!
