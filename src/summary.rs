use vstd::prelude::*;

verus! {

/// The sum of a sequence of durations, in nanoseconds.
pub open spec fn total_of(durations: Seq<u64>) -> int
    decreases durations.len(),
{
    if durations.len() == 0 {
        0
    } else {
        total_of(durations.drop_last()) + durations.last()
    }
}

/// A sum of `n` durations is at most `n` times the largest duration.
pub proof fn lemma_total_bounded(durations: Seq<u64>)
    ensures
        0 <= total_of(durations) <= durations.len() * (u64::MAX as int),
    decreases durations.len(),
{
    if durations.len() > 0 {
        lemma_total_bounded(durations.drop_last());
        let n = durations.len() as int;
        assert((n - 1) * (u64::MAX as int) + (u64::MAX as int) == n * (u64::MAX as int))
            by (nonlinear_arith);
    }
}

/// The statistics reported once every run has completed.
#[derive(Debug, Clone, Copy, PartialEq, Eq, Structural)]
pub struct Summary {
    /// How many runs were measured.
    pub runs: usize,
    /// The sum of all run durations, in nanoseconds.
    pub total_nanos: u128,
    /// The total divided by the number of runs, rounded down, in nanoseconds.
    pub mean_nanos: u128,
}

impl Summary {
    /// Whether this summary gives the count, the exact total and the mean of
    /// `durations`.
    pub open spec fn describes(self, durations: Seq<u64>) -> bool {
        &&& durations.len() > 0
        &&& self.runs == durations.len()
        &&& self.total_nanos == total_of(durations)
        &&& self.mean_nanos == total_of(durations) / (durations.len() as int)
    }

    /// Sums the durations in integer nanoseconds, so that no precision is
    /// lost however many runs there are, and divides by their number.
    pub fn of(durations: &Vec<u64>) -> (s: Summary)
        requires
            durations.len() > 0,
        ensures
            s.describes(durations@),
    {
        let mut total: u128 = 0;
        let mut i: usize = 0;
        while i < durations.len()
            invariant
                i <= durations.len(),
                total == total_of(durations@.take(i as int)),
            decreases durations.len() - i,
        {
            proof {
                let next = durations@.take(i + 1);
                assert(next.drop_last() =~= durations@.take(i as int));
                lemma_total_bounded(next);
                let n = (i + 1) as int;
                assert(n <= u64::MAX);
                assert(n * (u64::MAX as int) <= (u64::MAX as int) * (u64::MAX as int))
                    by (nonlinear_arith)
                    requires
                        0 <= n <= u64::MAX,
                ;
            }
            total = total + durations[i] as u128;
            i = i + 1;
        }
        assert(durations@.take(durations.len() as int) =~= durations@);
        let runs = durations.len();
        let mean = total / (runs as u128);
        Summary { runs, total_nanos: total, mean_nanos: mean }
    }
}

} // verus!
