use vstd::prelude::*;

verus! {

/// The number of terms summed by one round of [`cpu_intensive_task`].
pub const ROUND_TERMS: u64 = 100_000;

/// The sum `0 + 1 + ... + (n - 1)`.
pub open spec fn sum_below(n: nat) -> nat {
    (n * (n - 1) / 2) as nat
}

/// One round of busy computation: the sum of every integer below
/// [`ROUND_TERMS`], that is 4_999_950_000.
pub fn cpu_intensive_task() -> (r: u64)
    ensures
        r == sum_below(ROUND_TERMS as nat),
        r == 4_999_950_000,
{
    let mut sum: u64 = 0;
    let mut i: u64 = 0;
    while i < ROUND_TERMS
        invariant
            i <= ROUND_TERMS,
            2 * sum == i * (i - 1),
        decreases ROUND_TERMS - i,
    {
        assert((i + 1) * ((i + 1) - 1) == i * (i - 1) + 2 * i) by (nonlinear_arith);
        assert(i * (i - 1) <= 99_999 * 99_998) by (nonlinear_arith)
            requires
                i <= 99_999,
        ;
        sum = sum + i;
        i = i + 1;
    }
    assert(ROUND_TERMS * (ROUND_TERMS - 1) == 9_999_900_000) by (nonlinear_arith);
    sum
}

} // verus!
