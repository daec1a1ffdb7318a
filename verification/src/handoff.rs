//! The handoff descriptor: ownership transfer of a heap sequence to a
//! foreign caller, and its reclamation.
//!
//! The foreign boundary describes a heap sequence as a pointer/length/capacity
//! triple. Here that triple is modelled in safe code: the descriptor owns the
//! backing storage outright (the `Vec` stands in for the pointer), and records
//! the length and capacity as plain values with the invariant `len <= cap`.
//! While a descriptor is in flight nothing else can free or move the storage,
//! because the descriptor owns it; reclamation consumes the descriptor by
//! value, so the storage is released exactly once, and a second reclamation of
//! the same descriptor is impossible rather than merely forbidden.

use vstd::prelude::*;

verus! {

/// A heap sequence of `u32` packaged for handoff across the foreign boundary:
/// the backing storage together with its element count and allocated capacity.
pub struct VectorU32 {
    vals: Vec<u32>,
    len: usize,
    cap: usize,
}

impl View for VectorU32 {
    type V = Seq<u32>;

    closed spec fn view(&self) -> Seq<u32> {
        self.vals@
    }
}

/// Relies on `Vec::capacity`: the number of elements the vector can hold
/// without reallocating, which is never less than its length.
#[verifier::external_body]
fn vec_capacity(v: &Vec<u32>) -> (c: usize)
    ensures
        v@.len() <= c,
{
    v.capacity()
}

impl VectorU32 {
    /// The recorded element count.
    pub closed spec fn spec_len(&self) -> usize {
        self.len
    }

    /// The recorded allocated capacity.
    pub closed spec fn spec_cap(&self) -> usize {
        self.cap
    }

    /// Well-formedness: the recorded length counts exactly the elements held,
    /// and never exceeds the recorded capacity.
    pub open spec fn wf(&self) -> bool {
        &&& self.spec_len() == self@.len()
        &&& self.spec_len() <= self.spec_cap()
    }

    /// Packages a result sequence for handoff. Ownership of the storage moves
    /// into the descriptor; no destructor runs on the producing side.
    pub fn from_vec(vec: Vec<u32>) -> (d: VectorU32)
        ensures
            d@ == vec@,
            d.spec_len() == vec@.len(),
            d.wf(),
    {
        let len = vec.len();
        let cap = vec_capacity(&vec);
        VectorU32 { vals: vec, len, cap }
    }

    /// The recorded element count.
    pub fn len(&self) -> (n: usize)
        ensures
            n == self.spec_len(),
    {
        self.len
    }

    /// The recorded allocated capacity.
    pub fn cap(&self) -> (c: usize)
        ensures
            c == self.spec_cap(),
    {
        self.cap
    }

    /// Reconstructs the owned sequence from the descriptor, ending the
    /// handoff: the caller gets back exactly the elements handed off.
    pub fn into_vec(self) -> (v: Vec<u32>)
        ensures
            v@ == self@,
    {
        self.vals
    }
}

/// Reclamation: consumes a descriptor and releases its backing storage.
/// This is the only way a handoff ends. The descriptor is taken by value,
/// so the same descriptor can never be reclaimed twice.
pub fn drop_vec(descriptor: VectorU32)
    requires
        descriptor.wf(),
{
    let _elements = descriptor.into_vec();
}

/// Law: a handoff round-trips. Every descriptor a boundary function returns
/// is well-formed, which is all `drop_vec` requires, so passing such a
/// descriptor unmodified to reclamation always meets its precondition, and
/// the reclaimed region `[0, len)` lies within the allocated capacity.
/// Reclaiming twice is ruled out by ownership: `drop_vec` consumes the
/// descriptor.
pub proof fn lemma_handoff_round_trip(d: VectorU32)
    requires
        d.wf(),
    ensures
        d@.len() == d.spec_len(),
        d.spec_len() <= d.spec_cap(),
{
}

} // verus!
