//! Boundary entry points: compute over a borrowed input view and either hand
//! the results off to the caller or return only their count.
//!
//! The foreign side supplies its input as a raw pointer and length; the safe
//! equivalent of that borrowed view, a `&[u32]` slice, is what these functions
//! take. The unverified shell around the library forms the slice and converts
//! the returned descriptor to the raw triple the foreign caller stores.

use vstd::prelude::*;

use crate::fib::{all_fib_fit, fib_many, fib_map, fib_slow};
use crate::handoff::VectorU32;

verus! {

/// Computes the Fibonacci number of each input sequentially, in input order,
/// and packages the results for handoff. Unlike the threaded path, positional
/// order is promised here: element `i` of the handed-off sequence is the
/// Fibonacci number of input `i`.
pub fn fib_seq_results(data: &[u32]) -> (d: VectorU32)
    requires
        all_fib_fit(data@),
    ensures
        d.wf(),
        d@ == fib_map(data@),
        d.spec_len() == data@.len(),
{
    let mut results: Vec<u32> = Vec::with_capacity(data.len());
    let mut k: usize = 0;
    while k < data.len()
        invariant
            k <= data@.len(),
            all_fib_fit(data@),
            results@.len() == k,
            forall|i: int| 0 <= i < k ==> results@[i] == fib_map(data@)[i],
        decreases data@.len() - k,
    {
        let r = fib_slow(data[k]);
        results.push(r);
        k = k + 1;
    }
    proof {
        assert(results@ =~= fib_map(data@));
    }
    VectorU32::from_vec(results)
}

/// Computes the Fibonacci number of each input through the batch path and
/// returns only how many results were produced: always exactly the number of
/// inputs, whatever their values, including none. The results themselves are
/// discarded and their storage is freed normally; no ownership is transferred.
pub fn fib_threaded(data: &[u32]) -> (count: u32)
    requires
        all_fib_fit(data@),
        data@.len() <= u32::MAX,
    ensures
        count == data@.len(),
{
    let results = fib_many(data);
    results.len() as u32
}

/// Computes the Fibonacci number of each input through the batch path and
/// packages the results for handoff. Inherits the batch path's non-guarantee:
/// the handed-off sequence equals the inputs' Fibonacci numbers as a multiset,
/// with no promise about positional order.
pub fn fib_threaded_results(data: &[u32]) -> (d: VectorU32)
    requires
        all_fib_fit(data@),
    ensures
        d.wf(),
        d.spec_len() == data@.len(),
        d@.to_multiset() == fib_map(data@).to_multiset(),
{
    let results = fib_many(data);
    VectorU32::from_vec(results)
}

} // verus!
