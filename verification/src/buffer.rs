//! The transfer buffer: a fixed-capacity byte vector used as the DMA source.
//!
//! The buffer is a `heapless::Vec<u8, 256>`, as on the target hardware; its
//! contents are abstracted by the spec function [`buf_model`], and the few
//! operations the pipeline needs are specified at that boundary.

use vstd::prelude::*;
use vstd::string::StringSliceAdditionalSpecFns;

verus! {

/// The fixed capacity of the transfer buffer, in bytes.
pub const BUF_CAPACITY: usize = 256;

#[verifier::external_type_specification]
#[verifier::external_body]
#[verifier::reject_recursive_types(T)]
pub struct ExHeaplessVec<T, const N: usize>(heapless::Vec<T, N>);

/// The DMA source buffer: one fixed-capacity byte vector.
pub type TxBuffer = heapless::Vec<u8, 256>;

/// The bytes a transfer buffer currently holds, oldest first.
pub uninterp spec fn buf_model(v: TxBuffer) -> Seq<u8>;

/// Relies on `heapless::Vec::new`: constructs an empty vector.
#[verifier::external_body]
pub(crate) fn buf_new() -> (r: TxBuffer)
    ensures
        buf_model(r) == Seq::<u8>::empty(),
{
    heapless::Vec::new()
}

/// Relies on `heapless::Vec::clear`: removes every element.
#[verifier::external_body]
pub(crate) fn buf_clear(v: &mut TxBuffer)
    ensures
        buf_model(*final(v)) == Seq::<u8>::empty(),
{
    v.clear()
}

/// Relies on `heapless::Vec::extend_from_slice`: appends the whole slice when
/// it fits in the remaining capacity, and otherwise returns `Err` and leaves
/// the vector untouched.
#[verifier::external_body]
pub(crate) fn buf_extend(v: &mut TxBuffer, other: &[u8]) -> (r: Result<(), ()>)
    ensures
        r is Ok <==> buf_model(*old(v)).len() + other@.len() <= BUF_CAPACITY,
        r is Ok ==> buf_model(*final(v)) == buf_model(*old(v)) + other@,
        r is Err ==> buf_model(*final(v)) == buf_model(*old(v)),
{
    v.extend_from_slice(other)
}

/// Relies on `heapless::Vec::as_slice`: the slice of the elements currently
/// held; `to_vec` then copies it out.
#[verifier::external_body]
pub(crate) fn buf_as_std(v: &TxBuffer) -> (r: Vec<u8>)
    ensures
        r@ == buf_model(*v),
{
    v.as_slice().to_vec()
}

/// The bytes a transfer buffer currently holds, as an ordinary vector.
pub fn buffer_bytes(v: &TxBuffer) -> (r: Vec<u8>)
    ensures
        r@ == buf_model(*v),
{
    buf_as_std(v)
}

/// A new, empty transfer buffer.
pub fn new_buffer() -> (r: TxBuffer)
    ensures
        buf_model(r) == Seq::<u8>::empty(),
{
    buf_new()
}

/// Appends the UTF-8 bytes of `arg` to the end of the buffer. Pure append: no
/// escaping, no framing. The payload must fit in the remaining capacity;
/// callers that cannot guarantee this use [`try_fill`] instead.
pub fn fill_with_str(buffer: &mut TxBuffer, arg: &str)
    requires
        buf_model(*old(buffer)).len() + arg.spec_bytes().len() <= BUF_CAPACITY,
    ensures
        buf_model(*final(buffer)) == buf_model(*old(buffer)) + arg.spec_bytes(),
{
    let r = buf_extend(buffer, arg.as_bytes());
    match r {
        Ok(()) => {}
        Err(()) => {
            proof {
                assert(false);
            }
        }
    }
}

/// Appends the UTF-8 bytes of `arg` if and only if they fit in the remaining
/// capacity; on overflow the buffer is left exactly as it was and `false`
/// comes back.
pub fn try_fill(buffer: &mut TxBuffer, arg: &str) -> (ok: bool)
    ensures
        ok <==> buf_model(*old(buffer)).len() + arg.spec_bytes().len() <= BUF_CAPACITY,
        ok ==> buf_model(*final(buffer)) == buf_model(*old(buffer)) + arg.spec_bytes(),
        !ok ==> buf_model(*final(buffer)) == buf_model(*old(buffer)),
{
    let r = buf_extend(buffer, arg.as_bytes());
    match r {
        Ok(()) => true,
        Err(()) => false,
    }
}

} // verus!
