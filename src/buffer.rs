//! Fixed-capacity byte buffers, held in `heapless::Vec`.

use vstd::prelude::*;

verus! {

/// Capacity of a command or response buffer, in bytes.
pub const FRAME_CAPACITY: usize = 256;

/// Capacity of the buffer that keeps the post-reset greeting, in bytes.
pub const PROMPT_CAPACITY: usize = 64;

/// Buffer for one command or one response.
pub type FrameBuffer = heapless::Vec<u8, 256>;

/// Buffer for the post-reset greeting.
pub type PromptBuffer = heapless::Vec<u8, 64>;

/// heapless's fixed-capacity vector, held opaque: what it holds is named
/// by `frame_bytes` and `prompt_bytes`, and changed only through the
/// wrappers below.
#[verifier::external_type_specification]
#[verifier::external_body]
#[verifier::reject_recursive_types(T)]
pub struct ExHeaplessVec<T, const N: usize>(heapless::Vec<T, N>);

/// The bytes that a frame buffer holds, in order.
pub uninterp spec fn frame_bytes(v: heapless::Vec<u8, 256>) -> Seq<u8>;

/// The bytes that a prompt buffer holds, in order.
pub uninterp spec fn prompt_bytes(v: heapless::Vec<u8, 64>) -> Seq<u8>;

/// Relies on heapless::Vec::new: a new vector is empty.
#[verifier::external_body]
pub(crate) fn new_frame_buffer() -> (r: FrameBuffer)
    ensures
        frame_bytes(r) == Seq::<u8>::empty(),
{
    heapless::Vec::new()
}

/// Relies on heapless::Vec::push: the byte is appended when fewer than
/// `N` bytes are held, and the vector is left as it was otherwise.
#[verifier::external_body]
pub(crate) fn push_frame_byte(v: &mut FrameBuffer, b: u8) -> (r: bool)
    ensures
        r == (frame_bytes(*old(v)).len() < FRAME_CAPACITY),
        r ==> frame_bytes(*final(v)) == frame_bytes(*old(v)).push(b),
        !r ==> frame_bytes(*final(v)) == frame_bytes(*old(v)),
{
    v.push(b).is_ok()
}

/// Relies on heapless::Vec::as_slice: the held bytes, in order.
#[verifier::external_body]
pub(crate) fn frame_slice(v: &FrameBuffer) -> (r: &[u8])
    ensures
        r@ == frame_bytes(*v),
{
    v.as_slice()
}

/// Relies on heapless::Vec::new: a new vector is empty.
#[verifier::external_body]
pub(crate) fn new_prompt_buffer() -> (r: PromptBuffer)
    ensures
        prompt_bytes(r) == Seq::<u8>::empty(),
{
    heapless::Vec::new()
}

/// Relies on heapless::Vec::push: the byte is appended when fewer than
/// `N` bytes are held, and the vector is left as it was otherwise.
#[verifier::external_body]
pub(crate) fn push_prompt_byte(v: &mut PromptBuffer, b: u8) -> (r: bool)
    ensures
        r == (prompt_bytes(*old(v)).len() < PROMPT_CAPACITY),
        r ==> prompt_bytes(*final(v)) == prompt_bytes(*old(v)).push(b),
        !r ==> prompt_bytes(*final(v)) == prompt_bytes(*old(v)),
{
    v.push(b).is_ok()
}

/// Relies on heapless::Vec::as_slice: the held bytes, in order.
#[verifier::external_body]
pub(crate) fn prompt_slice(v: &PromptBuffer) -> (r: &[u8])
    ensures
        r@ == prompt_bytes(*v),
{
    v.as_slice()
}

/// Copies bytes into a new frame buffer; fails when they do not fit.
pub fn frame_from_bytes(bytes: &[u8]) -> (r: Option<FrameBuffer>)
    ensures
        r is Some <==> bytes@.len() <= FRAME_CAPACITY,
        r matches Some(v) ==> frame_bytes(v) == bytes@,
{
    let mut v = new_frame_buffer();
    let mut i: usize = 0;
    while i < bytes.len()
        invariant
            i <= bytes@.len(),
            frame_bytes(v) == bytes@.subrange(0, i as int),
            i <= FRAME_CAPACITY,
        decreases bytes@.len() - i,
    {
        if !push_frame_byte(&mut v, bytes[i]) {
            return None;
        }
        i = i + 1;
        assert(bytes@.subrange(0, i as int) == bytes@.subrange(0, i - 1).push(bytes@[i - 1]));
    }
    Some(v)
}

} // verus!
