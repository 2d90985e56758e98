//! Per-stage latency statistics: average, minimum and maximum of a set of
//! wall-clock samples, each given in nanoseconds.
use vstd::prelude::*;
use crossbeam::queue::SegQueue;

verus! {

#[verifier::external_type_specification]
#[verifier::external_body]
#[verifier::reject_recursive_types(T)]
pub struct ExSegQueue<T>(SegQueue<T>);

/// Relies on crossbeam's `SegQueue::pop`: takes the oldest sample, or none
/// when the queue is empty. Other threads push concurrently, so nothing is
/// promised of what comes back.
pub assume_specification<T>[ SegQueue::<T>::pop ](q: &SegQueue<T>) -> Option<T>;

/// Most samples drained from a queue at one report. A stage that keeps
/// pushing could otherwise hold the reporter forever; samples beyond this
/// stay in the queue for the next report.
pub const MAX_DRAINED: usize = 4096;

/// Sum of the samples.
pub open spec fn sum_of(s: Seq<u64>) -> int
    decreases s.len(),
{
    if s.len() == 0 {
        0
    } else {
        sum_of(s.drop_last()) + s.last()
    }
}

/// Smallest sample; zero for no sample.
pub open spec fn min_of(s: Seq<u64>) -> u64
    decreases s.len(),
{
    if s.len() == 0 {
        0
    } else if s.len() == 1 {
        s[0]
    } else if s.last() < min_of(s.drop_last()) {
        s.last()
    } else {
        min_of(s.drop_last())
    }
}

/// Largest sample; zero for no sample.
pub open spec fn max_of(s: Seq<u64>) -> u64
    decreases s.len(),
{
    if s.len() == 0 {
        0
    } else if s.len() == 1 {
        s[0]
    } else if s.last() > max_of(s.drop_last()) {
        s.last()
    } else {
        max_of(s.drop_last())
    }
}

/// Average (rounded down), minimum and maximum; all zero for no sample.
pub open spec fn stats_of(s: Seq<u64>) -> (u64, u64, u64) {
    if s.len() == 0 {
        (0, 0, 0)
    } else {
        ((sum_of(s) / (s.len() as int)) as u64, min_of(s), max_of(s))
    }
}

proof fn lemma_sum_bounds(s: Seq<u64>)
    ensures
        0 <= sum_of(s) <= s.len() * (u64::MAX as int),
    decreases s.len(),
{
    if s.len() > 0 {
        lemma_sum_bounds(s.drop_last());
    }
}

/// Average, minimum and maximum of the samples in `times`, in that order;
/// `(0, 0, 0)` when there is none.
pub fn calculate_stats(times: &Vec<u64>) -> (r: (u64, u64, u64))
    ensures
        r == stats_of(times@),
{
    if times.len() == 0 {
        return (0, 0, 0);
    }
    let mut sum: u128 = 0;
    let mut lo: u64 = times[0];
    let mut hi: u64 = times[0];
    let mut i: usize = 0;
    while i < times.len()
        invariant
            0 <= i <= times.len(),
            times.len() > 0,
            sum == sum_of(times@.take(i as int)),
            i == 0 ==> lo == times@[0] && hi == times@[0],
            i > 0 ==> lo == min_of(times@.take(i as int)) && hi == max_of(times@.take(i as int)),
        decreases times.len() - i,
    {
        let t = times[i];
        proof {
            let s = times@.take(i as int + 1);
            assert(s.drop_last() =~= times@.take(i as int));
            assert(s.last() == t);
            lemma_sum_bounds(times@.take(i as int));
            assert(i * (u64::MAX as int) <= (usize::MAX as int) * (u64::MAX as int)) by (nonlinear_arith)
                requires
                    i <= usize::MAX,
            ;
        }
        sum = sum + t as u128;
        if i > 0 {
            if t < lo {
                lo = t;
            }
            if t > hi {
                hi = t;
            }
        }
        i = i + 1;
    }
    assert(times@.take(times.len() as int) =~= times@);
    proof {
        lemma_sum_bounds(times@);
        assert(sum / (times.len() as u128) <= u64::MAX) by (nonlinear_arith)
            requires
                sum <= times.len() * (u64::MAX as int),
                times.len() > 0,
        ;
    }
    let avg = (sum / (times.len() as u128)) as u64;
    (avg, lo, hi)
}

/// Takes one popped sample into `times`: appends it when there is one.
/// `true` when draining goes on: a sample came and there is room for more.
pub fn take_sample(times: &mut Vec<u64>, popped: Option<u64>) -> (more: bool)
    ensures
        popped matches Some(t) ==> final(times)@ == old(times)@.push(t)
            && more == (final(times)@.len() < MAX_DRAINED),
        popped is None ==> final(times)@ == old(times)@ && !more,
{
    match popped {
        Some(t) => {
            times.push(t);
            times.len() < MAX_DRAINED
        },
        None => false,
    }
}

/// Drains the queue, up to `MAX_DRAINED` samples, in the order they are
/// popped; what is beyond stays for the next report.
pub fn drain_samples(queue: &SegQueue<u64>) -> (r: Vec<u64>)
    ensures
        r@.len() <= MAX_DRAINED,
{
    let mut times: Vec<u64> = Vec::new();
    while times.len() < MAX_DRAINED
        invariant
            times@.len() <= MAX_DRAINED,
        decreases MAX_DRAINED - times.len(),
    {
        if !take_sample(&mut times, queue.pop()) {
            break;
        }
    }
    times
}

/// Pops the samples a stage has recorded, up to `MAX_DRAINED` of them (the
/// rest wait for the next report), and returns their average, minimum and
/// maximum: the statistics of whatever samples were drained.
pub fn collect_and_calculate_stats(queue: &SegQueue<u64>) -> (r: (u64, u64, u64))
    ensures
        exists|s: Seq<u64>| s.len() <= MAX_DRAINED && r == stats_of(s),
{
    let times = drain_samples(queue);
    calculate_stats(&times)
}

/// Whether statistics are reported after `batch_count` batches: every
/// `every` batches.
pub fn should_report(batch_count: u64, every: u64) -> (r: bool)
    requires
        every > 0,
    ensures
        r == (batch_count % every == 0),
{
    batch_count % every == 0
}

} // verus!
