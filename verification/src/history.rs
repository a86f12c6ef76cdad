//! Bounded first-in first-out window of samples, with its sum and mean.

use std::collections::VecDeque;
use vstd::prelude::*;

verus! {

/// Greatest number of samples a window retains.
pub const HISTORY_CAPACITY: usize = 30;

/// Sum of all samples of `samples`.
pub open spec fn total(samples: Seq<u64>) -> nat
    decreases samples.len(),
{
    if samples.len() == 0 {
        0
    } else {
        total(samples.drop_last()) + samples.last() as nat
    }
}

/// Arithmetic mean of `samples`, rounded down. Meaningful for a non-empty
/// sequence only.
pub open spec fn mean_of(samples: Seq<u64>) -> nat
    recommends
        samples.len() > 0,
{
    total(samples) / samples.len()
}

/// Contents of a window that held `samples` once `sample` has been pushed:
/// the sample goes to the end, and the oldest one leaves if that made the
/// window longer than its capacity.
pub open spec fn pushed(samples: Seq<u64>, sample: u64) -> Seq<u64> {
    let grown = samples.push(sample);
    if grown.len() > HISTORY_CAPACITY {
        grown.subrange(1, grown.len() as int)
    } else {
        grown
    }
}

/// Contents of a window that held `samples` once each sample of `more` has
/// been pushed in turn.
pub open spec fn pushed_all(samples: Seq<u64>, more: Seq<u64>) -> Seq<u64>
    decreases more.len(),
{
    if more.len() == 0 {
        samples
    } else {
        pushed(pushed_all(samples, more.drop_last()), more.last())
    }
}

/// The last samples of `samples`, as many as a window retains.
pub open spec fn most_recent(samples: Seq<u64>) -> Seq<u64> {
    if samples.len() <= HISTORY_CAPACITY {
        samples
    } else {
        samples.subrange(samples.len() - HISTORY_CAPACITY, samples.len() as int)
    }
}

/// Whatever is pushed, and however much of it, a window holds the most
/// recent samples in the order they came, and so never more than its
/// capacity.
pub proof fn lemma_window_holds_most_recent(samples: Seq<u64>, more: Seq<u64>)
    requires
        samples.len() <= HISTORY_CAPACITY,
    ensures
        pushed_all(samples, more) == most_recent(samples + more),
        pushed_all(samples, more).len() <= HISTORY_CAPACITY,
        pushed_all(samples, more).len() <= samples.len() + more.len(),
    decreases more.len(),
{
    if more.len() == 0 {
        assert(samples + more =~= samples);
    } else {
        let earlier = more.drop_last();
        lemma_window_holds_most_recent(samples, earlier);
        assert(samples + more =~= (samples + earlier).push(more.last()));
        assert(pushed(most_recent(samples + earlier), more.last()) =~= most_recent(
            (samples + earlier).push(more.last()),
        ));
    }
}

/// The sum of a sequence grows by each sample appended to it.
pub proof fn lemma_total_push(samples: Seq<u64>, sample: u64)
    ensures
        total(samples.push(sample)) == total(samples) + sample,
{
    assert(samples.push(sample).drop_last() =~= samples);
}

/// No sum exceeds what as many samples of the greatest value give.
pub proof fn lemma_total_bound(samples: Seq<u64>)
    ensures
        total(samples) <= samples.len() * u64::MAX,
    decreases samples.len(),
{
    if samples.len() > 0 {
        lemma_total_bound(samples.drop_last());
    }
}

/// The mean of a non-empty sequence is no greater than its greatest possible
/// sample.
pub proof fn lemma_mean_bound(samples: Seq<u64>)
    requires
        samples.len() > 0,
    ensures
        mean_of(samples) <= u64::MAX,
{
    lemma_total_bound(samples);
    let n = samples.len() as int;
    let t = total(samples) as int;
    assert(t / n <= u64::MAX) by (nonlinear_arith)
        requires
            n > 0,
            0 <= t <= n * u64::MAX,
    ;
}

/// The most recent samples of one metric, oldest first.
pub struct HistoryWindow {
    samples: VecDeque<u64>,
}

impl View for HistoryWindow {
    type V = Seq<u64>;

    closed spec fn view(&self) -> Seq<u64> {
        self.samples@
    }
}

impl HistoryWindow {
    #[verifier::type_invariant]
    spec fn within_capacity(&self) -> bool {
        self.samples@.len() <= HISTORY_CAPACITY
    }

    /// An empty window.
    pub fn new() -> (window: Self)
        ensures
            window@ == Seq::<u64>::empty(),
    {
        HistoryWindow { samples: VecDeque::with_capacity(HISTORY_CAPACITY) }
    }

    /// Number of samples held; never more than the capacity.
    pub fn length(&self) -> (n: usize)
        ensures
            n == self@.len(),
            n <= HISTORY_CAPACITY,
    {
        proof {
            use_type_invariant(self);
        }
        self.samples.len()
    }

    /// The samples held, oldest first.
    pub fn samples(&self) -> (held: Vec<u64>)
        ensures
            held@ == self@,
    {
        let n: usize = self.samples.len();
        let mut held: Vec<u64> = Vec::with_capacity(n);
        let mut i: usize = 0;
        while i < n
            invariant
                n == self.samples@.len(),
                i <= n,
                held@ == self.samples@.take(i as int),
            decreases n - i,
        {
            held.push(self.samples[i]);
            assert(self.samples@.take(i + 1) =~= self.samples@.take(i as int).push(
                self.samples@[i as int],
            ));
            i += 1;
        }
        assert(self.samples@.take(n as int) =~= self.samples@);
        held
    }

    /// Sum of the samples held.
    pub fn sum(&self) -> (sum: u128)
        ensures
            sum == total(self@),
    {
        proof {
            use_type_invariant(self);
        }
        let n: usize = self.samples.len();
        let mut sum: u128 = 0;
        let mut i: usize = 0;
        while i < n
            invariant
                n == self.samples@.len(),
                n <= HISTORY_CAPACITY,
                i <= n,
                sum == total(self.samples@.take(i as int)),
            decreases n - i,
        {
            proof {
                let seen = self.samples@.take(i as int);
                lemma_total_bound(seen);
                lemma_total_push(seen, self.samples@[i as int]);
                assert(self.samples@.take(i + 1) =~= seen.push(self.samples@[i as int]));
                assert(seen.len() * u64::MAX <= HISTORY_CAPACITY * u64::MAX) by (nonlinear_arith)
                    requires
                        seen.len() <= HISTORY_CAPACITY,
                ;
            }
            sum += self.samples[i] as u128;
            i += 1;
        }
        assert(self.samples@.take(n as int) =~= self.samples@);
        sum
    }

    /// Mean of the samples held, rounded down; `None` for an empty window,
    /// which has no mean.
    pub fn mean(&self) -> (mean: Option<u64>)
        ensures
            match mean {
                Some(value) => self@.len() > 0 && value == mean_of(self@),
                None => self@.len() == 0,
            },
    {
        let n: usize = self.length();
        if n == 0 {
            return None;
        }
        let sum: u128 = self.sum();
        proof {
            lemma_mean_bound(self@);
        }
        Some((sum / n as u128) as u64)
    }

    /// Appends `sample`, evicting the oldest sample of a full window.
    pub fn push(&mut self, sample: u64)
        ensures
            final(self)@ == pushed(old(self)@, sample),
    {
        proof {
            use_type_invariant(&*self);
        }
        // The deque is detached while it may be one over capacity.
        let mut samples: VecDeque<u64> = VecDeque::new();
        std::mem::swap(&mut self.samples, &mut samples);
        samples.push_back(sample);
        if samples.len() > HISTORY_CAPACITY {
            samples.pop_front();
        }
        self.samples = samples;
    }
}

} // verus!
