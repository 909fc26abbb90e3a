//! Running maximum over memory samples.
//!
//! A `PeakTracker` owns a single scalar in kilobytes, starts at zero, and
//! folds each incoming sample with `max`. Its value never decreases and,
//! after any number of folds, equals the largest sample seen so far.

use vstd::prelude::*;

verus! {

/// The largest value in a sequence of samples; zero for the empty sequence.
pub open spec fn seq_max(s: Seq<u64>) -> u64
    decreases s.len(),
{
    if s.len() == 0 {
        0
    } else if s.last() > seq_max(s.drop_last()) {
        s.last()
    } else {
        seq_max(s.drop_last())
    }
}

/// Every element of a sequence is bounded by the sequence's maximum.
pub proof fn lemma_seq_max_bounds(s: Seq<u64>, i: int)
    requires
        0 <= i < s.len(),
    ensures
        s[i] <= seq_max(s),
    decreases s.len(),
{
    if i < s.len() - 1 {
        lemma_seq_max_bounds(s.drop_last(), i);
    }
}

/// Extending a sequence by one sample never lowers its maximum.
pub proof fn lemma_seq_max_push(s: Seq<u64>, v: u64)
    ensures
        seq_max(s.push(v)) >= seq_max(s),
        seq_max(s.push(v)) == if v > seq_max(s) { v } else { seq_max(s) },
{
    assert(s.push(v).drop_last() =~= s);
}

/// Law: the running maximum is monotone. For any sequence of samples, the
/// maximum over the first `i` of them is at most the maximum over the first
/// `j` of them whenever `i <= j`; in particular the tracked peak after each
/// fold is non-decreasing.
pub proof fn lemma_seq_max_monotone(s: Seq<u64>, i: int, j: int)
    requires
        0 <= i <= j <= s.len(),
    ensures
        seq_max(s.take(i)) <= seq_max(s.take(j)),
    decreases j - i,
{
    if i < j {
        lemma_seq_max_monotone(s, i, j - 1);
        assert(s.take(j).drop_last() =~= s.take(j - 1));
        lemma_seq_max_push(s.take(j - 1), s[j - 1]);
        assert(s.take(j) =~= s.take(j - 1).push(s[j - 1]));
    }
}

/// Running maximum of the samples folded so far, in kilobytes.
pub struct PeakTracker {
    peak_kb: u64,
    samples: Ghost<Seq<u64>>,
}

impl PeakTracker {
    /// The samples folded so far, oldest first.
    pub closed spec fn history(self) -> Seq<u64> {
        self.samples@
    }

    /// The tracked peak in kilobytes.
    pub closed spec fn peak(self) -> u64 {
        self.peak_kb
    }

    /// The tracked peak always equals the largest sample folded so far.
    pub closed spec fn wf(self) -> bool {
        self.peak_kb == seq_max(self.samples@)
    }

    /// A fresh tracker: no samples, peak zero.
    pub fn new() -> (t: Self)
        ensures
            t.wf(),
            t.history() == Seq::<u64>::empty(),
            t.peak() == 0,
    {
        PeakTracker { peak_kb: 0, samples: Ghost(Seq::empty()) }
    }

    /// Fold one sample into the running maximum. The peak never decreases
    /// and afterwards equals the maximum of all samples folded so far.
    pub fn fold(&mut self, sample_kb: u64)
        requires
            old(self).wf(),
        ensures
            final(self).wf(),
            final(self).history() == old(self).history().push(sample_kb),
            final(self).peak() == if sample_kb > old(self).peak() {
                sample_kb
            } else {
                old(self).peak()
            },
            final(self).peak() >= old(self).peak(),
    {
        proof {
            lemma_seq_max_push(self.samples@, sample_kb);
        }
        if sample_kb > self.peak_kb {
            self.peak_kb = sample_kb;
        }
        self.samples = Ghost(self.samples@.push(sample_kb));
    }

    /// The current peak value.
    pub fn peak_value(&self) -> (r: u64)
        ensures
            r == self.peak(),
            self.wf() ==> r == seq_max(self.history()),
    {
        self.peak_kb
    }
}

} // verus!
