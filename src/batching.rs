//! Splitting a finite run of frames into batches of a target size.
use vstd::prelude::*;

verus! {

/// Sum of the batch sizes.
pub open spec fn total_of(s: Seq<usize>) -> int
    decreases s.len(),
{
    if s.len() == 0 {
        0
    } else {
        total_of(s.drop_last()) + s.last()
    }
}

/// `n` batches of `b` frames each.
pub open spec fn full_batches(n: nat, b: usize) -> Seq<usize> {
    Seq::new(n, |i: int| b)
}

/// The batches of `total` frames with target size `b`: full batches of `b`,
/// then one of the remainder when there is one.
pub open spec fn batch_plan(total: nat, b: nat) -> Seq<usize>
    recommends
        b > 0,
{
    let full = full_batches(total / b, b as usize);
    if total % b == 0 {
        full
    } else {
        full.push((total % b) as usize)
    }
}

proof fn lemma_total_of_full(n: nat, b: usize)
    ensures
        total_of(full_batches(n, b)) == n * b,
    decreases n,
{
    if n > 0 {
        let s = full_batches(n, b);
        assert(s.drop_last() =~= full_batches((n - 1) as nat, b));
        lemma_total_of_full((n - 1) as nat, b);
        assert(s.last() == b);
        assert(total_of(s) == total_of(s.drop_last()) + b);
        let m: nat = (n - 1) as nat;
        assert(n * b == m * b + b) by (nonlinear_arith)
            requires
                n == m + 1,
        ;
    } else {
        assert(n * b == 0) by (nonlinear_arith)
            requires
                n == 0,
        ;
    }
}

/// The batches cover every frame: their sizes add up to the number of frames,
/// and none is empty or larger than the target size.
pub proof fn lemma_plan_covers(total: nat, b: nat)
    requires
        b > 0,
        b <= usize::MAX,
    ensures
        total_of(batch_plan(total, b)) == total,
        forall|i: int| 0 <= i < batch_plan(total, b).len() ==> 1 <= #[trigger] batch_plan(total, b)[i] <= b,
{
    let full = full_batches(total / b, b as usize);
    lemma_total_of_full(total / b, b as usize);
    assert(total == (total / b) * b + total % b) by (nonlinear_arith)
        requires
            b > 0,
    ;
    if total % b != 0 {
        assert(full.push((total % b) as usize).drop_last() =~= full);
    }
}

/// Sizes of the batches that `total` frames form at target size `batch`, in
/// order: full batches, then the remainder.
pub fn batch_sizes(total: usize, batch: usize) -> (r: Vec<usize>)
    requires
        batch > 0,
    ensures
        r@ == batch_plan(total as nat, batch as nat),
{
    let full = total / batch;
    let rem = total % batch;
    let mut out: Vec<usize> = Vec::new();
    let mut i: usize = 0;
    while i < full
        invariant
            0 <= i <= full,
            full == total / batch,
            out@ =~= full_batches(i as nat, batch),
        decreases full - i,
    {
        out.push(batch);
        i = i + 1;
    }
    if rem > 0 {
        out.push(rem);
    }
    out
}

} // verus!
