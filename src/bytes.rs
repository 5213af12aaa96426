use arrayvec::ArrayVec;
use vstd::prelude::*;

verus! {

#[verifier::external_type_specification]
#[verifier::external_body]
#[verifier::reject_recursive_types(T)]
pub struct ExArrayVec<T, const CAP: usize>(arrayvec::ArrayVec<T, CAP>);

/// The bytes that a byte buffer of capacity eight holds, in order.
pub uninterp spec fn byte_list(v: ArrayVec<u8, 8>) -> Seq<u8>;

/// Relies on `From<[T; CAP]> for ArrayVec<T, CAP>`: the buffer holds the
/// array's elements, all of them, in order.
#[verifier::external_body]
pub(crate) fn bytes_from_array(a: [u8; 8]) -> (r: ArrayVec<u8, 8>)
    ensures
        byte_list(r) == a@,
{
    ArrayVec::from(a)
}

/// Relies on `FromIterator for ArrayVec`: collecting a single element gives a
/// buffer that holds that element alone.
#[verifier::external_body]
pub(crate) fn bytes_from_byte(b: u8) -> (r: ArrayVec<u8, 8>)
    ensures
        byte_list(r) == seq![b],
{
    ArrayVec::from_iter(std::iter::once(b))
}

/// Relies on `ArrayVec::len`: the number of elements held.
#[verifier::external_body]
pub(crate) fn byte_count(v: &ArrayVec<u8, 8>) -> (r: usize)
    ensures
        r == byte_list(*v).len(),
{
    v.len()
}

/// Relies on `ArrayVec::as_slice`: its elements in order, read at index `k`.
#[verifier::external_body]
pub(crate) fn byte_at(v: &ArrayVec<u8, 8>, k: usize) -> (r: u8)
    requires
        k < byte_list(*v).len(),
    ensures
        r == byte_list(*v)[k as int],
{
    v.as_slice()[k]
}

} // verus!
