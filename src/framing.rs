//! Word framing: commands are sent and responses read two bytes at a time.

use vstd::prelude::*;
use crate::buffer::{FrameBuffer, FRAME_CAPACITY, frame_bytes, push_frame_byte};

verus! {

/// Pad byte for an odd-length command; also both bytes of a poll word.
pub const FILLER: u8 = 0x0A;

/// Byte the device sends when it has nothing to say; never kept.
pub const NAK: u8 = 0x15;

/// One two-byte bus transfer. `high` goes on the wire first.
#[derive(Clone, Copy, Debug, PartialEq, Eq, Structural)]
pub struct TransferWord {
    pub high: u8,
    pub low: u8,
}

/// The word at position `i` of the framing of `s`: the byte at `2i` is the
/// low byte, the byte after it (or `FILLER`) the high byte.
pub open spec fn word_at(s: Seq<u8>, i: int) -> TransferWord {
    TransferWord {
        high: if 2 * i + 1 < s.len() { s[2 * i + 1] } else { FILLER },
        low: s[2 * i],
    }
}

/// The words that carry `s`, in order.
pub open spec fn framed(s: Seq<u8>) -> Seq<TransferWord> {
    Seq::new(((s.len() + 1) / 2) as nat, |i: int| word_at(s, i))
}

/// The bytes of a received word that are kept: high first, then low, each
/// unless it is `NAK`.
pub open spec fn kept(w: TransferWord) -> Seq<u8> {
    (if w.high != NAK { seq![w.high] } else { Seq::empty() })
        + (if w.low != NAK { seq![w.low] } else { Seq::empty() })
}

/// No byte of `s` is `NAK`.
pub open spec fn nak_free(s: Seq<u8>) -> bool {
    forall|i: int| 0 <= i < s.len() ==> s[i] != NAK
}

/// The word clocked out while reading: `FILLER` in both bytes.
pub fn poll_word() -> (r: TransferWord)
    ensures
        r == (TransferWord { high: FILLER, low: FILLER }),
{
    TransferWord { high: FILLER, low: FILLER }
}

/// Splits `bytes` into the words that send them.
pub fn frame_words(bytes: &[u8]) -> (r: Vec<TransferWord>)
    ensures
        r@ == framed(bytes@),
{
    let n = bytes.len();
    let mut out: Vec<TransferWord> = Vec::new();
    let mut i: usize = 0;
    while i < n
        invariant
            n == bytes@.len(),
            i <= n,
            i % 2 == 0 || i == n,
            out@.len() == (i + 1) / 2,
            forall|k: int| 0 <= k < out@.len() ==> out@[k] == word_at(bytes@, k),
        decreases n - i,
    {
        if i + 1 < n {
            out.push(TransferWord { high: bytes[i + 1], low: bytes[i] });
            i = i + 2;
        } else {
            out.push(TransferWord { high: FILLER, low: bytes[i] });
            i = i + 1;
        }
    }
    assert(out@ =~= framed(bytes@));
    out
}

/// The number of words that carry `s` is half its length, rounded up, and
/// an odd length ends in a word whose high byte is `FILLER`.
pub proof fn lemma_framed_shape(s: Seq<u8>)
    ensures
        framed(s).len() == (s.len() + 1) / 2,
        s.len() % 2 == 1 ==> framed(s).last().high == FILLER
            && framed(s).last().low == s.last(),
        forall|i: int| 0 <= i < s.len() ==> #[trigger] s[i] == if i % 2 == 0 {
            framed(s)[i / 2].low
        } else {
            framed(s)[i / 2].high
        },
{
}

/// Appends the kept bytes of a received word to a response buffer. Fails,
/// leaving the buffer as it was, when they do not fit.
pub fn accept_reply_word(buf: &mut FrameBuffer, w: TransferWord) -> (r: bool)
    ensures
        r == (frame_bytes(*old(buf)).len() + kept(w).len() <= FRAME_CAPACITY),
        r ==> frame_bytes(*final(buf)) == frame_bytes(*old(buf)) + kept(w),
        !r ==> frame_bytes(*final(buf)) == frame_bytes(*old(buf)),
        nak_free(frame_bytes(*old(buf))) ==> nak_free(frame_bytes(*final(buf))),
{
    let ghost start = frame_bytes(*buf);
    let mut count: usize = 0;
    if w.high != NAK {
        count = count + 1;
    }
    if w.low != NAK {
        count = count + 1;
    }
    let len = crate::buffer::frame_slice(buf).len();
    if len > FRAME_CAPACITY - count {
        return false;
    }
    if w.high != NAK {
        push_frame_byte(buf, w.high);
    }
    if w.low != NAK {
        push_frame_byte(buf, w.low);
    }
    assert(frame_bytes(*buf) =~= start + kept(w));
    true
}

/// The bytes assembled from the words `ws` received in turn.
pub open spec fn assembled(ws: Seq<TransferWord>) -> Seq<u8>
    decreases ws.len(),
{
    if ws.len() == 0 {
        Seq::empty()
    } else {
        assembled(ws.drop_last()) + kept(ws.last())
    }
}

/// Whatever words the device sends, no `NAK` byte is ever assembled.
pub proof fn lemma_assembled_nak_free(ws: Seq<TransferWord>)
    ensures
        nak_free(assembled(ws)),
    decreases ws.len(),
{
    if ws.len() > 0 {
        lemma_assembled_nak_free(ws.drop_last());
        let prev = assembled(ws.drop_last());
        let w = ws.last();
        assert forall|i: int| 0 <= i < assembled(ws).len() implies assembled(ws)[i] != NAK by {
            if i >= prev.len() {
                assert(assembled(ws)[i] == kept(w)[i - prev.len()]);
            }
        }
    }
}

} // verus!
