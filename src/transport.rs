//! Reading from the device: waiting for the ready line, then clocking out
//! poll words while it stays up. Each reader is a state machine that the
//! caller feeds with the level of the ready line and the words received.

use vstd::prelude::*;
use crate::buffer::{
    FRAME_CAPACITY, FrameBuffer, PROMPT_CAPACITY, PromptBuffer, frame_bytes, frame_slice,
    new_frame_buffer, new_prompt_buffer, prompt_bytes, prompt_slice, push_prompt_byte,
};
use crate::error::ProtocolError;
use crate::framing::{FILLER, TransferWord, accept_reply_word, kept, nak_free, poll_word};
use crate::text::copy_bytes;
use crate::response::{parse_response, parsed_as};

verus! {

/// Most words read for one response or one greeting.
pub const MAX_READ_WORDS: u32 = 1024;

/// What to do after a look at the ready line while waiting for it.
#[derive(Clone, Copy, Debug, PartialEq, Eq, Structural)]
pub enum WaitStep {
    /// The line is up: go on.
    Ready,
    /// Sleep this many milliseconds, then look again.
    Sleep(u32),
    /// The allowed attempts are used up.
    Expired,
}

/// Bounded wait for the ready line: at most `limit` sleeps of
/// `interval_ms` each.
#[derive(Clone, Copy, Debug, PartialEq, Eq, Structural)]
pub struct ReadyWait {
    pub attempts: u32,
    pub limit: u32,
    pub interval_ms: u32,
}

impl ReadyWait {
    pub fn new(limit: u32, interval_ms: u32) -> (r: ReadyWait)
        ensures
            r == (ReadyWait { attempts: 0, limit, interval_ms }),
    {
        ReadyWait { attempts: 0, limit, interval_ms }
    }

    /// Takes the level of the ready line and says what to do next.
    pub fn poll(&mut self, ready: bool) -> (r: WaitStep)
        ensures
            ready ==> r == WaitStep::Ready && *final(self) == *old(self),
            !ready && old(self).attempts < old(self).limit ==> r == WaitStep::Sleep(
                old(self).interval_ms,
            ) && *final(self) == (ReadyWait { attempts: (old(self).attempts + 1) as u32, ..*old(self) }),
            !ready && old(self).attempts >= old(self).limit ==> r == WaitStep::Expired
                && *final(self) == *old(self),
    {
        if ready {
            WaitStep::Ready
        } else if self.attempts < self.limit {
            self.attempts = self.attempts + 1;
            WaitStep::Sleep(self.interval_ms)
        } else {
            WaitStep::Expired
        }
    }
}

/// What to do after a look at the ready line while reading.
#[derive(Clone, Copy, Debug, PartialEq, Eq, Structural)]
pub enum ReadStep {
    /// Exchange this word and hand back what came in.
    Exchange(TransferWord),
    /// The line is down: the read is complete.
    Complete,
}

/// The step for a reader that has exchanged `words` words so far.
pub open spec fn read_step(words: nat, ready: bool) -> Result<ReadStep, ProtocolError> {
    if !ready {
        Ok(ReadStep::Complete)
    } else if words < MAX_READ_WORDS {
        Ok(ReadStep::Exchange(TransferWord { high: FILLER, low: FILLER }))
    } else {
        Err(ProtocolError::ResponseTimeout)
    }
}

fn next_read_step(words: u32, ready: bool) -> (r: Result<ReadStep, ProtocolError>)
    ensures
        r == read_step(words as nat, ready),
{
    if !ready {
        Ok(ReadStep::Complete)
    } else if words < MAX_READ_WORDS {
        Ok(ReadStep::Exchange(poll_word()))
    } else {
        Err(ProtocolError::ResponseTimeout)
    }
}

/// Assembles one response from the words read while the ready line is up.
/// No `NAK` byte ever enters the assembled bytes.
pub struct ResponseReader {
    buf: FrameBuffer,
    words: u32,
}

impl ResponseReader {
    /// The bytes assembled so far.
    pub closed spec fn contents(&self) -> Seq<u8> {
        frame_bytes(self.buf)
    }

    /// The number of words exchanged so far.
    pub closed spec fn words(&self) -> nat {
        self.words as nat
    }

    pub fn new() -> (r: ResponseReader)
        ensures
            r.contents() == Seq::<u8>::empty(),
            r.words() == 0,
            nak_free(r.contents()),
    {
        ResponseReader { buf: new_frame_buffer(), words: 0 }
    }

    /// Takes the level of the ready line and says what to do next.
    pub fn on_ready(&self, ready: bool) -> (r: Result<ReadStep, ProtocolError>)
        ensures
            r == read_step(self.words(), ready),
    {
        next_read_step(self.words, ready)
    }

    /// Takes a word received in an exchange that `on_ready` asked for.
    /// Fails when its kept bytes do not fit the buffer.
    pub fn on_word(&mut self, w: TransferWord) -> (r: Result<(), ProtocolError>)
        requires
            old(self).words() < MAX_READ_WORDS,
        ensures
            final(self).words() == old(self).words() + 1,
            r is Ok <==> old(self).contents().len() + kept(w).len() <= FRAME_CAPACITY,
            r is Ok ==> final(self).contents() == old(self).contents() + kept(w),
            r matches Err(e) ==> e == ProtocolError::ResponseTooLong
                && final(self).contents() == old(self).contents(),
            nak_free(old(self).contents()) ==> nak_free(final(self).contents()),
    {
        self.words = self.words + 1;
        if accept_reply_word(&mut self.buf, w) {
            Ok(())
        } else {
            Err(ProtocolError::ResponseTooLong)
        }
    }

    /// Parses what was assembled, as `parse_response` does.
    pub fn finish(&self) -> (r: Result<Vec<u8>, ProtocolError>)
        ensures
            parsed_as(self.contents(), r),
    {
        parse_response(frame_slice(&self.buf))
    }
}

/// Bytes that may appear in the greeting: printable ASCII.
pub open spec fn printable(b: u8) -> bool {
    0x20 <= b <= 0x7E
}

/// The printable bytes of a received word, high first.
pub open spec fn printable_of(w: TransferWord) -> Seq<u8> {
    (if printable(w.high) { seq![w.high] } else { Seq::empty() })
        + (if printable(w.low) { seq![w.low] } else { Seq::empty() })
}

/// `s`, cut to the capacity of a prompt buffer.
pub open spec fn capped(s: Seq<u8>) -> Seq<u8> {
    if s.len() <= PROMPT_CAPACITY {
        s
    } else {
        s.take(PROMPT_CAPACITY as int)
    }
}

/// Keeps the printable bytes of the greeting the device sends after reset,
/// up to the buffer's capacity; what does not fit is dropped and remembered.
pub struct PromptReader {
    buf: PromptBuffer,
    words: u32,
    truncated: bool,
}

impl PromptReader {
    /// The bytes kept so far.
    pub closed spec fn contents(&self) -> Seq<u8> {
        prompt_bytes(self.buf)
    }

    /// The number of words exchanged so far.
    pub closed spec fn words(&self) -> nat {
        self.words as nat
    }

    /// Whether a byte was dropped for want of room.
    pub closed spec fn truncated(&self) -> bool {
        self.truncated
    }

    /// The buffer never holds more than it can.
    pub closed spec fn wf(&self) -> bool {
        prompt_bytes(self.buf).len() <= PROMPT_CAPACITY
    }

    pub fn new() -> (r: PromptReader)
        ensures
            r.wf(),
            r.contents() == Seq::<u8>::empty(),
            r.words() == 0,
            !r.truncated(),
    {
        PromptReader { buf: new_prompt_buffer(), words: 0, truncated: false }
    }

    /// Takes the level of the ready line and says what to do next.
    pub fn on_ready(&self, ready: bool) -> (r: Result<ReadStep, ProtocolError>)
        ensures
            r == read_step(self.words(), ready),
    {
        next_read_step(self.words, ready)
    }

    fn keep(&mut self, b: u8)
        requires
            old(self).wf(),
        ensures
            final(self).wf(),
            final(self).words == old(self).words,
            final(self).contents() == capped(old(self).contents() + seq![b]),
            final(self).truncated() == (old(self).truncated() || old(self).contents().len()
                >= PROMPT_CAPACITY),
    {
        let ghost start = self.contents();
        if !push_prompt_byte(&mut self.buf, b) {
            self.truncated = true;
            assert(start.len() == PROMPT_CAPACITY);
            assert(capped(start + seq![b]) =~= start);
        }
    }

    /// Takes a word received in an exchange that `on_ready` asked for.
    pub fn on_word(&mut self, w: TransferWord)
        requires
            old(self).wf(),
            old(self).words() < MAX_READ_WORDS,
        ensures
            final(self).wf(),
            final(self).words() == old(self).words() + 1,
            final(self).contents() == capped(old(self).contents() + printable_of(w)),
            final(self).truncated() == (old(self).truncated() || old(self).contents().len()
                + printable_of(w).len() > PROMPT_CAPACITY),
    {
        let ghost start = self.contents();
        self.words = self.words + 1;
        if 0x20 <= w.high && w.high <= 0x7E {
            self.keep(w.high);
        }
        let ghost mid = self.contents();
        if 0x20 <= w.low && w.low <= 0x7E {
            self.keep(w.low);
        }
        let ghost hi: Seq<u8> = if printable(w.high) { seq![w.high] } else { Seq::empty() };
        let ghost lo: Seq<u8> = if printable(w.low) { seq![w.low] } else { Seq::empty() };
        assert(mid =~= capped(start + hi));
        assert(self.contents() =~= capped(mid + lo));
        assert(start + printable_of(w) =~= start + hi + lo);
        assert(capped(start + hi + lo) =~= capped(capped(start + hi) + lo));
    }

    /// The greeting, or `PromptTooLong` when part of it was dropped.
    pub fn finish(&self) -> (r: Result<Vec<u8>, ProtocolError>)
        ensures
            r is Ok <==> !self.truncated(),
            r matches Ok(p) ==> p@ == self.contents(),
            r matches Err(e) ==> e == ProtocolError::PromptTooLong,
    {
        if self.truncated {
            return Err(ProtocolError::PromptTooLong);
        }
        Ok(copy_bytes(prompt_slice(&self.buf)))
    }
}

} // verus!
