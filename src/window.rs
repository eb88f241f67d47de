//! A bounded sliding window of integer samples with an exact running sum.

use std::collections::VecDeque;
use vstd::prelude::*;

verus! {

/// Sum of a sequence of samples.
pub open spec fn seq_sum(s: Seq<i64>) -> int
    decreases s.len(),
{
    if s.len() == 0 {
        0
    } else {
        seq_sum(s.drop_last()) + s.last()
    }
}

/// The window of capacity `cap` that holds `w`, after `v` is pushed: the
/// oldest sample leaves first once the window is full.
pub open spec fn window_push(cap: nat, w: Seq<i64>, v: i64) -> Seq<i64> {
    if cap == 0 {
        Seq::empty()
    } else if w.len() >= cap {
        w.drop_first().push(v)
    } else {
        w.push(v)
    }
}

/// The window of capacity `cap` after each sample of `pushes` is pushed, in
/// order, onto an empty window.
pub open spec fn window_after(cap: nat, pushes: Seq<i64>) -> Seq<i64>
    decreases pushes.len(),
{
    if pushes.len() == 0 {
        Seq::empty()
    } else {
        window_push(cap, window_after(cap, pushes.drop_last()), pushes.last())
    }
}

/// The most recent `cap` samples of `s`, oldest first.
pub open spec fn latest(cap: nat, s: Seq<i64>) -> Seq<i64> {
    if s.len() <= cap {
        s
    } else {
        s.subrange(s.len() - cap, s.len() as int)
    }
}

proof fn lemma_sum_front(s: Seq<i64>)
    requires
        s.len() > 0,
    ensures
        seq_sum(s) == s[0] + seq_sum(s.drop_first()),
    decreases s.len(),
{
    if s.len() > 1 {
        lemma_sum_front(s.drop_last());
        assert(s.drop_last().drop_first() =~= s.drop_first().drop_last());
    } else {
        assert(s.drop_first() =~= Seq::<i64>::empty());
        assert(s.drop_last() =~= Seq::<i64>::empty());
    }
}

/// A sum of samples lies between the counts times the extreme samples.
pub proof fn lemma_sum_bound(s: Seq<i64>)
    ensures
        -(s.len() as int) * 0x8000_0000_0000_0000 <= seq_sum(s),
        seq_sum(s) <= (s.len() as int) * 0x7fff_ffff_ffff_ffff,
    decreases s.len(),
{
    if s.len() > 0 {
        lemma_sum_bound(s.drop_last());
    }
}

/// A window keeps exactly the most recent `cap` samples pushed onto it, in
/// the order in which they were pushed.
pub proof fn lemma_window_keeps_latest(cap: nat, pushes: Seq<i64>)
    ensures
        window_after(cap, pushes) == latest(cap, pushes),
        pushes.len() >= cap ==> window_after(cap, pushes).len() == cap,
    decreases pushes.len(),
{
    if pushes.len() > 0 {
        let prev = pushes.drop_last();
        lemma_window_keeps_latest(cap, prev);
        if cap == 0 {
            assert(latest(cap, pushes) =~= Seq::<i64>::empty());
        } else if prev.len() >= cap {
            assert(latest(cap, prev).drop_first().push(pushes.last()) =~= latest(cap, pushes));
        } else {
            assert(prev.push(pushes.last()) =~= pushes);
        }
    }
}

/// Pushing onto a window that holds the latest samples of `s` gives the
/// latest samples of `s` followed by `v`.
pub proof fn lemma_push_keeps_latest(cap: nat, s: Seq<i64>, v: i64)
    ensures
        window_push(cap, latest(cap, s), v) == latest(cap, s.push(v)),
{
    lemma_window_keeps_latest(cap, s);
    lemma_window_keeps_latest(cap, s.push(v));
    assert(s.push(v).drop_last() =~= s);
}

/// The exact mean of a window: `total / count`, or no value when `count` is 0.
#[derive(Clone, Copy, Debug, PartialEq, Eq)]
pub struct Mean {
    pub total: i128,
    pub count: usize,
}

impl Mean {
    /// The mean of the samples `s`.
    pub open spec fn of(s: Seq<i64>) -> Mean {
        Mean { total: seq_sum(s) as i128, count: s.len() as usize }
    }
}

/// A window of fixed capacity over integer samples: once full, each push
/// evicts the oldest sample. The sum of the samples is kept up to date on
/// each push, so the mean costs no pass over the samples.
pub struct WindowAggregator {
    samples: VecDeque<i64>,
    capacity: usize,
    sum: i128,
}

impl View for WindowAggregator {
    type V = Seq<i64>;

    closed spec fn view(&self) -> Seq<i64> {
        self.samples@
    }
}

impl WindowAggregator {
    #[verifier::type_invariant]
    spec fn inv(self) -> bool {
        &&& self.samples@.len() <= self.capacity
        &&& self.sum == seq_sum(self.samples@)
    }

    /// The capacity fixed at construction.
    pub closed spec fn cap(&self) -> nat {
        self.capacity as nat
    }

    /// An empty window that will hold at most `capacity` samples.
    pub fn new(capacity: usize) -> (r: WindowAggregator)
        ensures
            r@ == Seq::<i64>::empty(),
            r.cap() == capacity,
    {
        WindowAggregator { samples: VecDeque::new(), capacity, sum: 0 }
    }

    /// An empty window of the given capacity with `value` pushed onto it.
    pub fn with_first(capacity: usize, value: i64) -> (r: WindowAggregator)
        ensures
            r@ == window_push(capacity as nat, Seq::empty(), value),
            r.cap() == capacity,
    {
        let mut w = WindowAggregator::new(capacity);
        w.push(value);
        w
    }

    pub fn capacity(&self) -> (r: usize)
        ensures
            r == self.cap(),
    {
        self.capacity
    }

    pub fn len(&self) -> (r: usize)
        ensures
            r == self@.len(),
    {
        self.samples.len()
    }

    /// Pushes `value`, evicting the oldest sample first when the window is full.
    pub fn push(&mut self, value: i64)
        ensures
            final(self)@ == window_push(old(self).cap(), old(self)@, value),
            final(self).cap() == old(self).cap(),
    {
        proof {
            use_type_invariant(&*self);
        }
        if self.capacity == 0 {
            return;
        }
        let mut taken = WindowAggregator::new(self.capacity);
        std::mem::swap(self, &mut taken);
        proof {
            use_type_invariant(&taken);
        }
        let WindowAggregator { mut samples, capacity, mut sum } = taken;
        if samples.len() == capacity {
            proof {
                lemma_sum_front(samples@);
                lemma_sum_bound(samples@.drop_first());
            }
            let evicted = samples.pop_front();
            if let Some(e) = evicted {
                sum = sum - e as i128;
            }
        }
        proof {
            lemma_sum_bound(samples@);
            assert(samples@.push(value).drop_last() =~= samples@);
        }
        samples.push_back(value);
        *self = WindowAggregator { samples, capacity, sum: sum + value as i128 };
    }

    /// The samples, oldest first.
    pub fn values(&self) -> (r: Vec<i64>)
        ensures
            r@ == self@,
    {
        let mut r: Vec<i64> = Vec::new();
        let n = self.samples.len();
        let mut i: usize = 0;
        while i < n
            invariant
                n == self.samples@.len(),
                i <= n,
                r@ == self.samples@.subrange(0, i as int),
            decreases n - i,
        {
            r.push(self.samples[i]);
            i = i + 1;
            assert(r@ =~= self.samples@.subrange(0, i as int));
        }
        assert(r@ =~= self.samples@);
        r
    }

    /// The mean of the samples held; its `count` is 0 when the window is empty.
    pub fn mean(&self) -> (r: Mean)
        ensures
            r == Mean::of(self@),
    {
        proof {
            use_type_invariant(self);
        }
        Mean { total: self.sum, count: self.samples.len() }
    }
}

} // verus!
