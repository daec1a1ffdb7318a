//! Scalar and batch Fibonacci computation.
//!
//! The scalar function is deliberately the naive doubly-recursive one: it is a
//! baseline for measuring the cost of naive recursion, so no memoization or
//! iterative shortcut is taken. Results are `u32`; inputs whose Fibonacci
//! number does not fit are outside the contract, and `fib_fits` decides that
//! boundary exactly.

use vstd::prelude::*;

verus! {

/// The mathematical Fibonacci sequence: `fib(0) == 0`, `fib(1) == 1`, and
/// `fib(n) == fib(n - 1) + fib(n - 2)` for `n >= 2`.
pub open spec fn fib(n: nat) -> nat
    decreases n,
{
    if n == 0 {
        0
    } else if n == 1 {
        1
    } else {
        fib((n - 1) as nat) + fib((n - 2) as nat)
    }
}

/// The Fibonacci number of every element of a sequence, element by element.
/// Under the precondition that each value fits in `u32`, the cast is exact.
pub open spec fn fib_map(s: Seq<u32>) -> Seq<u32> {
    Seq::new(s.len(), |i: int| fib(s[i] as nat) as u32)
}

/// Every element of the sequence has a Fibonacci number that fits in `u32`.
pub open spec fn all_fib_fit(s: Seq<u32>) -> bool {
    forall|i: int| 0 <= i < s.len() ==> fib(#[trigger] s[i] as nat) <= u32::MAX
}

/// Law: the defining equations of the Fibonacci sequence. For `n` in
/// `{0, 1}` the value is `n` itself; for every `n >= 2` it is the sum of
/// the two preceding values.
pub proof fn lemma_fib_recurrence(n: nat)
    ensures
        n <= 1 ==> fib(n) == n,
        n >= 2 ==> fib(n) == fib((n - 1) as nat) + fib((n - 2) as nat),
{
}

/// The Fibonacci sequence never decreases.
proof fn lemma_fib_is_monotone(i: nat, j: nat)
    requires
        i <= j,
    ensures
        fib(i) <= fib(j),
    decreases j,
{
    if i < j && j >= 2 {
        lemma_fib_is_monotone(i, (j - 1) as nat);
    }
}

/// The two Fibonacci numbers on either side of the `u32` limit: `fib(47)`
/// is the largest one that a `u32` can hold.
proof fn lemma_fib_u32_limit()
    ensures
        fib(47) == 2971215073,
        fib(48) == 4807526976,
{
    assert(fib(0) == 0);
    assert(fib(1) == 1);
    assert(fib(2) == 1);
    assert(fib(3) == 2);
    assert(fib(4) == 3);
    assert(fib(5) == 5);
    assert(fib(6) == 8);
    assert(fib(7) == 13);
    assert(fib(8) == 21);
    assert(fib(9) == 34);
    assert(fib(10) == 55);
    assert(fib(11) == 89);
    assert(fib(12) == 144);
    assert(fib(13) == 233);
    assert(fib(14) == 377);
    assert(fib(15) == 610);
    assert(fib(16) == 987);
    assert(fib(17) == 1597);
    assert(fib(18) == 2584);
    assert(fib(19) == 4181);
    assert(fib(20) == 6765);
    assert(fib(21) == 10946);
    assert(fib(22) == 17711);
    assert(fib(23) == 28657);
    assert(fib(24) == 46368);
    assert(fib(25) == 75025);
    assert(fib(26) == 121393);
    assert(fib(27) == 196418);
    assert(fib(28) == 317811);
    assert(fib(29) == 514229);
    assert(fib(30) == 832040);
    assert(fib(31) == 1346269);
    assert(fib(32) == 2178309);
    assert(fib(33) == 3524578);
    assert(fib(34) == 5702887);
    assert(fib(35) == 9227465);
    assert(fib(36) == 14930352);
    assert(fib(37) == 24157817);
    assert(fib(38) == 39088169);
    assert(fib(39) == 63245986);
    assert(fib(40) == 102334155);
    assert(fib(41) == 165580141);
    assert(fib(42) == 267914296);
    assert(fib(43) == 433494437);
    assert(fib(44) == 701408733);
    assert(fib(45) == 1134903170);
    assert(fib(46) == 1836311903);
    assert(fib(47) == 2971215073);
    assert(fib(48) == 4807526976);
}

/// Naive doubly-recursive Fibonacci. Inputs whose Fibonacci number would
/// overflow the `u32` result are excluded by precondition rather than
/// silently wrapped; `fib_fits` tells callers which inputs those are.
pub fn fib_slow(n: u32) -> (r: u32)
    requires
        fib(n as nat) <= u32::MAX,
    ensures
        r == fib(n as nat),
    decreases n,
{
    if n == 0 || n == 1 {
        n
    } else {
        proof {
            lemma_fib_is_monotone((n - 1) as nat, n as nat);
            lemma_fib_is_monotone((n - 2) as nat, n as nat);
        }
        fib_slow(n - 1) + fib_slow(n - 2)
    }
}

/// Decides whether `fib(n)` fits in a `u32`, i.e. whether `n` is inside
/// `fib_slow`'s contract.
pub fn fib_fits(n: u32) -> (b: bool)
    ensures
        b <==> fib(n as nat) <= u32::MAX,
{
    proof {
        lemma_fib_u32_limit();
        if n <= 47 {
            lemma_fib_is_monotone(n as nat, 47);
        } else {
            lemma_fib_is_monotone(48, n as nat);
        }
    }
    n <= 47
}

/// Batch Fibonacci over a borrowed list of inputs. The result holds one
/// Fibonacci number per input, but its order is deliberately not promised:
/// the contract states only multiset equality, so no caller can rely on a
/// positional correspondence with the input.
pub fn fib_many(many: &[u32]) -> (results: Vec<u32>)
    requires
        all_fib_fit(many@),
    ensures
        results@.len() == many@.len(),
        results@.to_multiset() == fib_map(many@).to_multiset(),
{
    let mut results: Vec<u32> = Vec::with_capacity(many.len());
    let mut k: usize = 0;
    while k < many.len()
        invariant
            k <= many@.len(),
            all_fib_fit(many@),
            results@.len() == k,
            forall|i: int| 0 <= i < k ==> results@[i] == fib_map(many@)[i],
        decreases many@.len() - k,
    {
        let r = fib_slow(many[k]);
        results.push(r);
        k = k + 1;
    }
    proof {
        assert(results@ =~= fib_map(many@));
    }
    results
}

} // verus!
