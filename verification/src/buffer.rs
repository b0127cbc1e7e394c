use vstd::prelude::*;

verus! {

/// Fixed-capacity vector of the embedded environment (heapless): caller
/// owned storage, no allocation, push fails once full.
#[verifier::external_type_specification]
#[verifier::external_body]
#[verifier::reject_recursive_types(T)]
pub struct ExHeaplessVec<T, const N: usize>(heapless::Vec<T, N>);

/// The bytes a 32-byte bounded buffer holds, in order.
pub uninterp spec fn hvec_bytes(v: heapless::Vec<u8, 32>) -> Seq<u8>;

/// Relies on heapless::Vec::push: appends the byte and returns Ok while
/// the buffer is below its capacity of 32, otherwise returns the byte
/// back and changes nothing.
#[verifier::external_body]
pub(crate) fn hvec_push(v: &mut heapless::Vec<u8, 32>, b: u8) -> (r: bool)
    ensures
        hvec_bytes(*old(v)).len() < 32 ==> r && hvec_bytes(*final(v)) == hvec_bytes(
            *old(v),
        ).push(b),
        hvec_bytes(*old(v)).len() >= 32 ==> !r && hvec_bytes(*final(v)) == hvec_bytes(*old(v)),
{
    v.push(b).is_ok()
}

/// Relies on heapless::Vec::clear: removes every element.
#[verifier::external_body]
pub(crate) fn hvec_clear(v: &mut heapless::Vec<u8, 32>)
    ensures
        hvec_bytes(*final(v)) == Seq::<u8>::empty(),
{
    v.clear()
}

/// Relies on heapless::Vec::as_slice: the buffer's bytes, in order.
#[verifier::external_body]
pub(crate) fn hvec_as_slice(v: &heapless::Vec<u8, 32>) -> (r: &[u8])
    ensures
        r@ == hvec_bytes(*v),
{
    v.as_slice()
}

} // verus!
