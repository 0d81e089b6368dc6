use vstd::prelude::*;

use vstd::arithmetic::div_mod::lemma_multiply_divide_le;

verus! {

/// Bounded history of recent probe durations for one service: an
/// insertion-ordered sequence of milliseconds, appended to only by successful
/// probes. When the capacity is positive and an append would exceed it, the
/// oldest entry is evicted first; a capacity of zero means unbounded.
#[derive(Clone, Debug)]
pub struct LatencyHistory {
    /// Greatest number of durations kept; zero keeps them all.
    pub cap: u32,
    /// Recorded durations in insertion order, in milliseconds.
    pub durations: Vec<u32>,
}

/// The contents after one duration is recorded: append, then evict the single
/// oldest entry if a positive capacity was exceeded.
pub open spec fn record_model(s: Seq<u32>, cap: u32, d: u32) -> Seq<u32> {
    let grown = s.push(d);
    if cap > 0 && grown.len() > cap {
        grown.drop_first()
    } else {
        grown
    }
}

/// The contents after a whole sequence of durations is recorded in order.
pub open spec fn record_all(s: Seq<u32>, cap: u32, ds: Seq<u32>) -> Seq<u32>
    decreases ds.len(),
{
    if ds.len() == 0 {
        s
    } else {
        record_all(record_model(s, cap, ds[0]), cap, ds.drop_first())
    }
}

/// The sum of all recorded durations.
pub open spec fn sum_of(s: Seq<u32>) -> int
    decreases s.len(),
{
    if s.len() == 0 {
        0
    } else {
        sum_of(s.drop_last()) + s.last()
    }
}

proof fn lemma_sum_bounds(s: Seq<u32>)
    ensures
        0 <= sum_of(s) <= s.len() * (u32::MAX as int),
    decreases s.len(),
{
    if s.len() > 0 {
        lemma_sum_bounds(s.drop_last());
    }
}

impl LatencyHistory {
    pub fn new(cap: u32) -> (r: Self)
        ensures
            r.cap == cap,
            r.durations@ == Seq::<u32>::empty(),
    {
        LatencyHistory { cap, durations: Vec::new() }
    }

    /// Append one probe duration, evicting the oldest entry if a positive
    /// capacity was exceeded.
    pub fn record(&mut self, duration_ms: u32)
        requires
            old(self).durations@.len() < usize::MAX,
        ensures
            final(self).cap == old(self).cap,
            final(self).durations@ == record_model(old(self).durations@, old(self).cap, duration_ms),
    {
        self.durations.push(duration_ms);
        if self.cap > 0 && self.durations.len() > self.cap as usize {
            self.durations.remove(0);
            proof {
                assert(self.durations@ =~= old(self).durations@.push(duration_ms).drop_first());
            }
        }
    }

    /// The smallest recorded duration, or no value at all when the history is
    /// empty.
    pub fn min(&self) -> (r: Option<u32>)
        ensures
            r is None <==> self.durations@.len() == 0,
            r matches Some(m) ==> self.durations@.contains(m) && forall|k: int|
                0 <= k < self.durations@.len() ==> m <= self.durations@[k],
    {
        if self.durations.len() == 0 {
            return None;
        }
        let mut best: u32 = self.durations[0];
        let mut i: usize = 1;
        while i < self.durations.len()
            invariant
                1 <= i <= self.durations@.len(),
                self.durations@.contains(best),
                forall|k: int| 0 <= k < i ==> best <= self.durations@[k],
            decreases self.durations@.len() - i,
        {
            if self.durations[i] < best {
                best = self.durations[i];
            }
            i = i + 1;
        }
        Some(best)
    }

    /// The greatest recorded duration, or no value at all when the history is
    /// empty.
    pub fn max(&self) -> (r: Option<u32>)
        ensures
            r is None <==> self.durations@.len() == 0,
            r matches Some(m) ==> self.durations@.contains(m) && forall|k: int|
                0 <= k < self.durations@.len() ==> m >= self.durations@[k],
    {
        if self.durations.len() == 0 {
            return None;
        }
        let mut best: u32 = self.durations[0];
        let mut i: usize = 1;
        while i < self.durations.len()
            invariant
                1 <= i <= self.durations@.len(),
                self.durations@.contains(best),
                forall|k: int| 0 <= k < i ==> best >= self.durations@[k],
            decreases self.durations@.len() - i,
        {
            if self.durations[i] > best {
                best = self.durations[i];
            }
            i = i + 1;
        }
        Some(best)
    }

    /// The arithmetic mean of the recorded durations under integer division,
    /// or no value at all when the history is empty.
    pub fn avg(&self) -> (r: Option<u32>)
        ensures
            r is None <==> self.durations@.len() == 0,
            self.durations@.len() > 0 ==> r == Some(
                (sum_of(self.durations@) / self.durations@.len() as int) as u32,
            ),
    {
        let n = self.durations.len();
        if n == 0 {
            return None;
        }
        let mut acc: u128 = 0;
        let mut i: usize = 0;
        while i < n
            invariant
                0 <= i <= n,
                n == self.durations@.len(),
                acc == sum_of(self.durations@.take(i as int)),
                acc <= (i as int) * (u32::MAX as int),
            decreases n - i,
        {
            proof {
                assert(self.durations@.take(i + 1).drop_last() =~= self.durations@.take(i as int));
                assert((i + 1) * (u32::MAX as int) == (i as int) * (u32::MAX as int) + u32::MAX)
                    by (nonlinear_arith);
            }
            acc = acc + self.durations[i] as u128;
            i = i + 1;
        }
        proof {
            assert(self.durations@.take(n as int) =~= self.durations@);
            lemma_sum_bounds(self.durations@);
            lemma_multiply_divide_le(acc as int, n as int, u32::MAX as int);
        }
        Some((acc / n as u128) as u32)
    }

    /// The most recently recorded duration, or no value at all when the
    /// history is empty.
    pub fn last(&self) -> (r: Option<u32>)
        ensures
            r is None <==> self.durations@.len() == 0,
            self.durations@.len() > 0 ==> r == Some(self.durations@.last()),
    {
        let n = self.durations.len();
        if n == 0 {
            None
        } else {
            Some(self.durations[n - 1])
        }
    }
}

/// When the capacity is zero nothing is ever evicted: the history is exactly
/// what was recorded.
pub proof fn lemma_record_all_unbounded(s: Seq<u32>, ds: Seq<u32>)
    ensures
        record_all(s, 0, ds) == s + ds,
    decreases ds.len(),
{
    if ds.len() == 0 {
        assert(s + ds =~= s);
    } else {
        lemma_record_all_unbounded(s.push(ds[0]), ds.drop_first());
        assert(s.push(ds[0]) + ds.drop_first() =~= s + ds);
    }
}

/// With a positive capacity, recording keeps at most `cap` entries: the
/// history is always the newest entries of everything recorded so far, in
/// insertion order.
pub proof fn lemma_record_all_window(s: Seq<u32>, cap: u32, ds: Seq<u32>)
    requires
        cap > 0,
        s.len() <= cap,
    ensures
        record_all(s, cap, ds) == (s + ds).skip(
            if s.len() + ds.len() > cap {
                s.len() + ds.len() - cap
            } else {
                0
            },
        ),
    decreases ds.len(),
{
    if ds.len() == 0 {
        assert((s + ds).skip(0) =~= s);
    } else {
        let s1 = record_model(s, cap, ds[0]);
        lemma_record_all_window(s1, cap, ds.drop_first());
        if s.len() < cap {
            assert(s1 + ds.drop_first() =~= s + ds);
        } else {
            assert(s1 =~= (s + ds).subrange(1, s.len() as int + 1));
            assert(s1 + ds.drop_first() =~= (s + ds).skip(1));
            let m = if s1.len() + ds.drop_first().len() > cap {
                s1.len() + ds.drop_first().len() - cap
            } else {
                0
            };
            assert(record_all(s1, cap, ds.drop_first()) == ((s + ds).skip(1)).skip(m));
            assert(((s + ds).skip(1)).skip(m) =~= (s + ds).skip(1 + m));
        }
    }
}

/// For capacity `K > 0`, after at least `K` durations are recorded into an
/// empty history its length stays exactly `K`, and its contents are the last
/// `K` durations in insertion order, oldest evicted first.
pub proof fn lemma_history_window(cap: u32, ds: Seq<u32>)
    requires
        cap > 0,
        ds.len() >= cap,
    ensures
        record_all(Seq::<u32>::empty(), cap, ds).len() == cap,
        record_all(Seq::<u32>::empty(), cap, ds) == ds.skip(ds.len() - cap),
{
    lemma_record_all_window(Seq::<u32>::empty(), cap, ds);
    assert(Seq::<u32>::empty() + ds =~= ds);
}

} // verus!
