//! Trusted view of the fixed-capacity byte vectors of the `heapless` crate.
//!
//! The codec stores SDO payloads and raw frame data in `heapless::Vec<u8, N>`
//! (capacities 4, 7 and 8). The type is opaque to the verifier, so each
//! capacity gets a spec-level view of its contents as a byte sequence, and the
//! handful of methods the codec calls get wrappers whose contracts restate
//! what the `heapless` source shows.

use vstd::prelude::*;

verus! {

/// Declares heapless::Vec so that it can stand in verified signatures and
/// fields; its values are opaque and are reached only through the wrappers
/// below.
#[verifier::external_type_specification]
#[verifier::external_body]
#[verifier::reject_recursive_types(T)]
pub struct ExHeaplessVec<T, const N: usize>(heapless::Vec<T, N>);

/// Relies on heapless::Vec::clone (via the Clone impl): lets `Clone` be
/// derived for types holding these vectors; nothing is assumed of the copy.
pub assume_specification<T, const N: usize>[ <heapless::Vec<T, N> as core::clone::Clone>::clone ](
    v: &heapless::Vec<T, N>,
) -> heapless::Vec<T, N>
    where T: core::clone::Clone,
;

/// The bytes held by a capacity-4 vector, in order.
pub uninterp spec fn hv4_view(v: heapless::Vec<u8, 4>) -> Seq<u8>;

/// The bytes held by a capacity-7 vector, in order.
pub uninterp spec fn hv7_view(v: heapless::Vec<u8, 7>) -> Seq<u8>;

/// The bytes held by a capacity-8 vector, in order.
pub uninterp spec fn hv8_view(v: heapless::Vec<u8, 8>) -> Seq<u8>;

/// Relies on heapless::Vec::new: a freshly built vector is empty.
#[verifier::external_body]
pub fn hv4_new() -> (r: heapless::Vec<u8, 4>)
    ensures
        hv4_view(r) == Seq::<u8>::empty(),
{
    heapless::Vec::new()
}

/// Relies on heapless::Vec::push: below capacity, the item is appended.
#[verifier::external_body]
pub fn hv4_push(v: &mut heapless::Vec<u8, 4>, b: u8)
    requires
        hv4_view(*old(v)).len() < 4,
    ensures
        hv4_view(*final(v)) == hv4_view(*old(v)).push(b),
{
    let _ = v.push(b);
}

/// Relies on heapless::Vec::len: the length never exceeds the capacity.
#[verifier::external_body]
pub fn hv4_len(v: &heapless::Vec<u8, 4>) -> (r: usize)
    ensures
        r == hv4_view(*v).len(),
        r <= 4,
{
    v.len()
}

/// Relies on heapless::Vec::as_slice: a slice of exactly the stored bytes.
#[verifier::external_body]
pub fn hv4_as_slice(v: &heapless::Vec<u8, 4>) -> (r: &[u8])
    ensures
        r@ == hv4_view(*v),
{
    v.as_slice()
}

/// Relies on heapless::Vec::new: a freshly built vector is empty.
#[verifier::external_body]
pub fn hv7_new() -> (r: heapless::Vec<u8, 7>)
    ensures
        hv7_view(r) == Seq::<u8>::empty(),
{
    heapless::Vec::new()
}

/// Relies on heapless::Vec::push: below capacity, the item is appended.
#[verifier::external_body]
pub fn hv7_push(v: &mut heapless::Vec<u8, 7>, b: u8)
    requires
        hv7_view(*old(v)).len() < 7,
    ensures
        hv7_view(*final(v)) == hv7_view(*old(v)).push(b),
{
    let _ = v.push(b);
}

/// Relies on heapless::Vec::len: the length never exceeds the capacity.
#[verifier::external_body]
pub fn hv7_len(v: &heapless::Vec<u8, 7>) -> (r: usize)
    ensures
        r == hv7_view(*v).len(),
        r <= 7,
{
    v.len()
}

/// Relies on heapless::Vec::as_slice: a slice of exactly the stored bytes.
#[verifier::external_body]
pub fn hv7_as_slice(v: &heapless::Vec<u8, 7>) -> (r: &[u8])
    ensures
        r@ == hv7_view(*v),
{
    v.as_slice()
}

/// Relies on heapless::Vec::new: a freshly built vector is empty.
#[verifier::external_body]
pub fn hv8_new() -> (r: heapless::Vec<u8, 8>)
    ensures
        hv8_view(r) == Seq::<u8>::empty(),
{
    heapless::Vec::new()
}

/// Relies on heapless::Vec::push: below capacity, the item is appended.
#[verifier::external_body]
pub fn hv8_push(v: &mut heapless::Vec<u8, 8>, b: u8)
    requires
        hv8_view(*old(v)).len() < 8,
    ensures
        hv8_view(*final(v)) == hv8_view(*old(v)).push(b),
{
    let _ = v.push(b);
}

/// Relies on heapless::Vec::len: the length never exceeds the capacity.
#[verifier::external_body]
pub fn hv8_len(v: &heapless::Vec<u8, 8>) -> (r: usize)
    ensures
        r == hv8_view(*v).len(),
        r <= 8,
{
    v.len()
}

/// Relies on heapless::Vec::as_slice: a slice of exactly the stored bytes.
#[verifier::external_body]
pub fn hv8_as_slice(v: &heapless::Vec<u8, 8>) -> (r: &[u8])
    ensures
        r@ == hv8_view(*v),
{
    v.as_slice()
}

/// Relies on heapless::Vec::from_slice: succeeds with the slice's contents
/// exactly when the slice fits the capacity.
#[verifier::external_body]
pub fn hv8_from_slice(s: &[u8]) -> (r: Option<heapless::Vec<u8, 8>>)
    ensures
        match r {
            Some(v) => s@.len() <= 8 && hv8_view(v) == s@,
            None => s@.len() > 8,
        },
{
    heapless::Vec::from_slice(s).ok()
}

} // verus!
