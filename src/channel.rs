//! One command exchange: send the framed command, wait for the ready line,
//! read the response while the line stays up, parse it. The device-select
//! line is asserted around each transfer burst and released on every path,
//! failures included, before the exchange completes.

use vstd::prelude::*;
use crate::command::command_frame;
use crate::error::ProtocolError;
use crate::buffer::{FRAME_CAPACITY, PROMPT_CAPACITY};
use crate::framing::{FILLER, TransferWord, framed, kept, nak_free};
use crate::response::parsed_as;
use crate::transport::{
    MAX_READ_WORDS, PromptReader, ReadStep, ReadyWait, ResponseReader, WaitStep, capped,
    printable_of,
};

verus! {

/// Most looks at the ready line while waiting for a response.
pub const RESPONSE_WAIT_LIMIT: u32 = 10000;

/// Pause between two looks at the ready line, in milliseconds.
pub const RESPONSE_WAIT_INTERVAL_MS: u32 = 1;

/// What the caller does for the exchange next.
#[derive(Debug, PartialEq, Eq)]
pub enum BusAction {
    /// Assert device select; answer `Done`.
    Select,
    /// Exchange this word; answer `Received` with the word that came in,
    /// or `Failed`.
    Transfer(TransferWord),
    /// Release device select; answer `Done`.
    Deselect,
    /// Read the ready line; answer `Level`.
    CheckReady,
    /// Sleep this many milliseconds; answer `Done`.
    Sleep(u32),
    /// The exchange is over, with this result.
    Complete(Result<Vec<u8>, ProtocolError>),
}

/// What the caller hands back after an action.
#[derive(Clone, Copy, Debug, PartialEq, Eq, Structural)]
pub enum BusEvent {
    Done,
    Received(TransferWord),
    Failed,
    Level(bool),
}

/// Where an exchange stands: the action it waits on.
#[derive(Clone, Copy, Debug, PartialEq, Eq, Structural)]
pub enum ExchangePhase {
    /// Not started.
    Idle,
    /// Select asserted for sending.
    SelectingToSend,
    /// Word `i` of the command is on the bus.
    Sending(usize),
    /// Select released after sending.
    ReleasingAfterSend,
    /// Looking at the ready line before reading.
    AwaitingReady,
    /// Sleeping before the next look.
    Sleeping,
    /// Select asserted for reading.
    SelectingToRead,
    /// Looking at the ready line while reading.
    Reading,
    /// A poll word is on the bus.
    ReceivingWord,
    /// Select released; the result is known.
    Releasing,
    /// Over.
    Finished,
}

/// The events that answer the action a phase waits on.
pub open spec fn expects(ph: ExchangePhase, ev: BusEvent) -> bool {
    match ph {
        ExchangePhase::Sending(_) | ExchangePhase::ReceivingWord => ev is Received || ev is Failed,
        ExchangePhase::AwaitingReady | ExchangePhase::Reading => ev is Level,
        ExchangePhase::Finished => false,
        _ => ev is Done,
    }
}

/// Device select is asserted in this phase.
pub open spec fn holds_line(ph: ExchangePhase) -> bool {
    ph is SelectingToSend || ph is Sending || ph is SelectingToRead || ph is Reading
        || ph is ReceivingWord
}

/// A command exchange, driven by the caller one bus action at a time.
pub struct CommandExchange {
    words: Vec<TransferWord>,
    phase: ExchangePhase,
    wait: ReadyWait,
    reader: ResponseReader,
    outcome: Option<Result<Vec<u8>, ProtocolError>>,
}

impl CommandExchange {
    /// The words that send the command.
    pub closed spec fn words(&self) -> Seq<TransferWord> {
        self.words@
    }

    pub closed spec fn phase(&self) -> ExchangePhase {
        self.phase
    }

    /// The bytes of the response assembled so far.
    pub closed spec fn received(&self) -> Seq<u8> {
        self.reader.contents()
    }

    /// The result, once it is known and select is being released.
    pub closed spec fn outcome(&self) -> Option<Result<Vec<u8>, ProtocolError>> {
        self.outcome
    }

    /// The looks at a low ready line so far, while waiting for the response.
    pub closed spec fn waits(&self) -> nat {
        self.wait.attempts as nat
    }

    /// The poll words exchanged so far while reading.
    pub closed spec fn reader_words(&self) -> nat {
        self.reader.words()
    }

    pub closed spec fn wf(&self) -> bool {
        &&& (self.phase matches ExchangePhase::Sending(i) ==> i < self.words@.len())
        &&& (self.phase is ReceivingWord ==> self.reader.words() < MAX_READ_WORDS)
        &&& (self.phase is Releasing <==> self.outcome is Some)
        &&& self.wait.limit == RESPONSE_WAIT_LIMIT
        &&& self.wait.interval_ms == RESPONSE_WAIT_INTERVAL_MS
        &&& nak_free(self.reader.contents())
    }

    /// An exchange that sends `text`; fails when the text does not fit a
    /// frame buffer.
    pub fn new(text: &[u8]) -> (r: Result<CommandExchange, ProtocolError>)
        ensures
            r is Err <==> text@.len() > crate::buffer::FRAME_CAPACITY,
            r matches Err(e) ==> e == ProtocolError::CommandTooLong,
            r matches Ok(x) ==> x.wf() && x.phase() == ExchangePhase::Idle && x.words() == framed(
                text@,
            ) && x.received() == Seq::<u8>::empty() && x.waits() == 0 && x.reader_words() == 0
                && x.outcome() is None,
    {
        match command_frame(text) {
            Ok(words) => Ok(
                CommandExchange {
                    words,
                    phase: ExchangePhase::Idle,
                    wait: ReadyWait::new(RESPONSE_WAIT_LIMIT, RESPONSE_WAIT_INTERVAL_MS),
                    reader: ResponseReader::new(),
                    outcome: None,
                },
            ),
            Err(e) => Err(e),
        }
    }

    pub fn current_phase(&self) -> (r: ExchangePhase)
        ensures
            r == self.phase(),
    {
        self.phase
    }

    /// Hands in the answer to the last action (`Done` to start) and gives
    /// the next action.
    pub fn step(&mut self, event: BusEvent) -> (r: BusAction)
        requires
            old(self).wf(),
            expects(old(self).phase(), event),
        ensures
            final(self).wf(),
            final(self).words() == old(self).words(),
            nak_free(final(self).received()),
            // Device select is asserted and released in turn, held during
            // every transfer, and released before the exchange completes.
            r is Select ==> !holds_line(old(self).phase()) && holds_line(final(self).phase()),
            r is Deselect ==> holds_line(old(self).phase()) && !holds_line(final(self).phase()),
            !(r is Select || r is Deselect) ==> holds_line(old(self).phase()) == holds_line(
                final(self).phase(),
            ),
            r is Transfer ==> holds_line(final(self).phase()),
            r is Complete <==> final(self).phase() is Finished,
            !(old(self).phase() is ReceivingWord) ==> final(self).received() == old(self).received()
                && final(self).reader_words() == old(self).reader_words(),
            !(old(self).phase() is AwaitingReady) ==> final(self).waits() == old(self).waits(),
            // Sending.
            old(self).phase() is Idle ==> r == BusAction::Select && final(self).phase()
                == ExchangePhase::SelectingToSend,
            old(self).phase() is SelectingToSend && old(self).words().len() == 0 ==> r
                == BusAction::Deselect && final(self).phase() == ExchangePhase::ReleasingAfterSend,
            old(self).phase() is SelectingToSend && old(self).words().len() > 0 ==> r
                == BusAction::Transfer(old(self).words()[0]) && final(self).phase()
                == ExchangePhase::Sending(0),
            old(self).phase() is Sending && event is Received && old(self).phase()->Sending_0 + 1
                < old(self).words().len() ==> r == BusAction::Transfer(
                old(self).words()[old(self).phase()->Sending_0 + 1],
            ) && final(self).phase() == ExchangePhase::Sending(
                (old(self).phase()->Sending_0 + 1) as usize,
            ),
            old(self).phase() is Sending && event is Received && old(self).phase()->Sending_0 + 1
                >= old(self).words().len() ==> r == BusAction::Deselect && final(self).phase()
                == ExchangePhase::ReleasingAfterSend,
            // Waiting for the ready line.
            old(self).phase() is ReleasingAfterSend || old(self).phase() is Sleeping ==> r
                == BusAction::CheckReady && final(self).phase() == ExchangePhase::AwaitingReady,
            old(self).phase() is AwaitingReady && event == BusEvent::Level(true) ==> r
                == BusAction::Select && final(self).phase() == ExchangePhase::SelectingToRead
                && final(self).waits() == old(self).waits(),
            old(self).phase() is AwaitingReady && event == BusEvent::Level(false) && old(self).waits() < RESPONSE_WAIT_LIMIT ==> r == BusAction::Sleep(RESPONSE_WAIT_INTERVAL_MS)
                && final(self).phase() == ExchangePhase::Sleeping && final(self).waits() == old(self).waits() + 1,
            old(self).phase() is AwaitingReady && event == BusEvent::Level(false) && old(self).waits() >= RESPONSE_WAIT_LIMIT ==> r == BusAction::Complete(
                Err(ProtocolError::ResponseTimeout),
            ),
            // Reading.
            old(self).phase() is SelectingToRead ==> r == BusAction::CheckReady && final(self).phase() == ExchangePhase::Reading,
            old(self).phase() is Reading && event == BusEvent::Level(true) && old(self).reader_words() < MAX_READ_WORDS ==> r == BusAction::Transfer((TransferWord { high: FILLER, low: FILLER })) && final(self).phase() == ExchangePhase::ReceivingWord,
            old(self).phase() is Reading && event == BusEvent::Level(true) && old(self).reader_words() >= MAX_READ_WORDS ==> r == BusAction::Deselect && final(self).phase()
                == ExchangePhase::Releasing && final(self).outcome() == Some(
                Err::<Vec<u8>, ProtocolError>(ProtocolError::ResponseTimeout),
            ),
            old(self).phase() is Reading && event == BusEvent::Level(false) ==> r
                == BusAction::Deselect && final(self).phase() == ExchangePhase::Releasing && final(self).outcome() is Some && parsed_as(old(self).received(), final(self).outcome()->0),
            old(self).phase() is ReceivingWord && event is Received && old(self).received().len()
                + kept(event->Received_0).len() <= FRAME_CAPACITY ==> r == BusAction::CheckReady
                && final(self).phase() == ExchangePhase::Reading && final(self).received() == old(self).received() + kept(event->Received_0) && final(self).reader_words() == old(self).reader_words() + 1,
            old(self).phase() is ReceivingWord && event is Received && old(self).received().len()
                + kept(event->Received_0).len() > FRAME_CAPACITY ==> r == BusAction::Deselect
                && final(self).phase() == ExchangePhase::Releasing && final(self).outcome() == Some(
                Err::<Vec<u8>, ProtocolError>(ProtocolError::ResponseTooLong),
            ),
            // A failed transfer, sending or reading, ends in a transport error.
            event is Failed ==> r == BusAction::Deselect && final(self).phase()
                == ExchangePhase::Releasing && final(self).outcome() == Some(
                Err::<Vec<u8>, ProtocolError>(ProtocolError::Transport),
            ),
            // Completing delivers the result that was stored.
            old(self).phase() is Releasing ==> r == BusAction::Complete(old(self).outcome()->0)
                && final(self).outcome() is None,
    {
        match self.phase {
            ExchangePhase::Idle => {
                self.phase = ExchangePhase::SelectingToSend;
                BusAction::Select
            },
            ExchangePhase::SelectingToSend => {
                if self.words.len() == 0 {
                    self.phase = ExchangePhase::ReleasingAfterSend;
                    BusAction::Deselect
                } else {
                    self.phase = ExchangePhase::Sending(0);
                    BusAction::Transfer(self.words[0])
                }
            },
            ExchangePhase::Sending(i) => {
                if event == BusEvent::Failed {
                    self.outcome = Some(Err(ProtocolError::Transport));
                    self.phase = ExchangePhase::Releasing;
                    BusAction::Deselect
                } else if i < self.words.len() - 1 {
                    self.phase = ExchangePhase::Sending(i + 1);
                    BusAction::Transfer(self.words[i + 1])
                } else {
                    self.phase = ExchangePhase::ReleasingAfterSend;
                    BusAction::Deselect
                }
            },
            ExchangePhase::ReleasingAfterSend | ExchangePhase::Sleeping => {
                self.phase = ExchangePhase::AwaitingReady;
                BusAction::CheckReady
            },
            ExchangePhase::AwaitingReady => {
                let ready = match event {
                    BusEvent::Level(b) => b,
                    _ => false,
                };
                match self.wait.poll(ready) {
                    WaitStep::Ready => {
                        self.phase = ExchangePhase::SelectingToRead;
                        BusAction::Select
                    },
                    WaitStep::Sleep(ms) => {
                        self.phase = ExchangePhase::Sleeping;
                        BusAction::Sleep(ms)
                    },
                    WaitStep::Expired => {
                        self.phase = ExchangePhase::Finished;
                        BusAction::Complete(Err(ProtocolError::ResponseTimeout))
                    },
                }
            },
            ExchangePhase::SelectingToRead => {
                self.phase = ExchangePhase::Reading;
                BusAction::CheckReady
            },
            ExchangePhase::Reading => {
                let ready = match event {
                    BusEvent::Level(b) => b,
                    _ => false,
                };
                match self.reader.on_ready(ready) {
                    Ok(ReadStep::Exchange(w)) => {
                        self.phase = ExchangePhase::ReceivingWord;
                        BusAction::Transfer(w)
                    },
                    Ok(ReadStep::Complete) => {
                        self.outcome = Some(self.reader.finish());
                        self.phase = ExchangePhase::Releasing;
                        BusAction::Deselect
                    },
                    Err(e) => {
                        self.outcome = Some(Err(e));
                        self.phase = ExchangePhase::Releasing;
                        BusAction::Deselect
                    },
                }
            },
            ExchangePhase::ReceivingWord => {
                match event {
                    BusEvent::Received(w) => {
                        match self.reader.on_word(w) {
                            Ok(()) => {
                                self.phase = ExchangePhase::Reading;
                                BusAction::CheckReady
                            },
                            Err(e) => {
                                self.outcome = Some(Err(e));
                                self.phase = ExchangePhase::Releasing;
                                BusAction::Deselect
                            },
                        }
                    },
                    _ => {
                        self.outcome = Some(Err(ProtocolError::Transport));
                        self.phase = ExchangePhase::Releasing;
                        BusAction::Deselect
                    },
                }
            },
            ExchangePhase::Releasing => {
                let mut taken: Option<Result<Vec<u8>, ProtocolError>> = None;
                core::mem::swap(&mut taken, &mut self.outcome);
                self.phase = ExchangePhase::Finished;
                match taken {
                    Some(res) => BusAction::Complete(res),
                    None => BusAction::Complete(Err(ProtocolError::Transport)),
                }
            },
            ExchangePhase::Finished => BusAction::Complete(Err(ProtocolError::Transport)),
        }
    }
}

/// Most looks at the ready line while waiting for the greeting.
pub const PROMPT_WAIT_LIMIT: u32 = 1000;

/// Pause between two looks at the ready line before the greeting, in
/// milliseconds.
pub const PROMPT_WAIT_INTERVAL_MS: u32 = 10;

/// The handshake after reset: wait for the ready line, then read the
/// greeting while it stays up, keeping its printable bytes.
pub struct PromptExchange {
    phase: ExchangePhase,
    wait: ReadyWait,
    reader: PromptReader,
    outcome: Option<Result<Vec<u8>, ProtocolError>>,
}

impl PromptExchange {
    pub closed spec fn phase(&self) -> ExchangePhase {
        self.phase
    }

    /// The greeting bytes kept so far.
    pub closed spec fn kept(&self) -> Seq<u8> {
        self.reader.contents()
    }

    /// Whether part of the greeting was dropped for want of room.
    pub closed spec fn truncated(&self) -> bool {
        self.reader.truncated()
    }

    pub closed spec fn outcome(&self) -> Option<Result<Vec<u8>, ProtocolError>> {
        self.outcome
    }

    /// The looks at a low ready line so far, while waiting for the greeting.
    pub closed spec fn waits(&self) -> nat {
        self.wait.attempts as nat
    }

    /// The poll words exchanged so far while reading.
    pub closed spec fn reader_words(&self) -> nat {
        self.reader.words()
    }

    pub closed spec fn wf(&self) -> bool {
        &&& self.reader.wf()
        &&& (self.phase is ReceivingWord ==> self.reader.words() < MAX_READ_WORDS)
        &&& (self.phase is Releasing <==> self.outcome is Some)
        &&& self.wait.limit == PROMPT_WAIT_LIMIT
        &&& self.wait.interval_ms == PROMPT_WAIT_INTERVAL_MS
        &&& !(self.phase is SelectingToSend || self.phase is Sending
            || self.phase is ReleasingAfterSend)
    }

    pub fn new() -> (r: PromptExchange)
        ensures
            r.wf(),
            r.phase() == ExchangePhase::Idle,
            r.kept() == Seq::<u8>::empty(),
            !r.truncated(),
            r.waits() == 0,
            r.reader_words() == 0,
            r.outcome() is None,
    {
        PromptExchange {
            phase: ExchangePhase::Idle,
            wait: ReadyWait::new(PROMPT_WAIT_LIMIT, PROMPT_WAIT_INTERVAL_MS),
            reader: PromptReader::new(),
            outcome: None,
        }
    }

    /// Hands in the answer to the last action (`Done` to start) and gives
    /// the next action.
    pub fn step(&mut self, event: BusEvent) -> (r: BusAction)
        requires
            old(self).wf(),
            expects(old(self).phase(), event),
        ensures
            final(self).wf(),
            // Device select is asserted and released in turn, held during
            // every transfer, and released before the handshake completes.
            r is Select ==> !holds_line(old(self).phase()) && holds_line(final(self).phase()),
            r is Deselect ==> holds_line(old(self).phase()) && !holds_line(final(self).phase()),
            !(r is Select || r is Deselect) ==> holds_line(old(self).phase()) == holds_line(
                final(self).phase(),
            ),
            r is Transfer ==> holds_line(final(self).phase()),
            r is Complete <==> final(self).phase() is Finished,
            !(old(self).phase() is ReceivingWord) ==> final(self).kept() == old(self).kept()
                && final(self).truncated() == old(self).truncated() && final(self).reader_words()
                == old(self).reader_words(),
            !(old(self).phase() is AwaitingReady) ==> final(self).waits() == old(self).waits(),
            // Waiting for the ready line.
            old(self).phase() is Idle || old(self).phase() is Sleeping ==> r == BusAction::CheckReady
                && final(self).phase() == ExchangePhase::AwaitingReady,
            old(self).phase() is AwaitingReady && event == BusEvent::Level(true) ==> r
                == BusAction::Select && final(self).phase() == ExchangePhase::SelectingToRead
                && final(self).waits() == old(self).waits(),
            old(self).phase() is AwaitingReady && event == BusEvent::Level(false) && old(self).waits()
                < PROMPT_WAIT_LIMIT ==> r == BusAction::Sleep(PROMPT_WAIT_INTERVAL_MS) && final(
                self).phase() == ExchangePhase::Sleeping && final(self).waits() == old(self).waits()
                + 1,
            old(self).phase() is AwaitingReady && event == BusEvent::Level(false) && old(self).waits()
                >= PROMPT_WAIT_LIMIT ==> r == BusAction::Complete(Err(ProtocolError::InitTimeout)),
            // Reading the greeting.
            old(self).phase() is SelectingToRead ==> r == BusAction::CheckReady && final(self).phase()
                == ExchangePhase::Reading,
            old(self).phase() is Reading && event == BusEvent::Level(true) && old(self).reader_words()
                < MAX_READ_WORDS ==> r == BusAction::Transfer((TransferWord { high: FILLER, low: FILLER }))
                && final(self).phase() == ExchangePhase::ReceivingWord,
            old(self).phase() is Reading && event == BusEvent::Level(true) && old(self).reader_words()
                >= MAX_READ_WORDS ==> r == BusAction::Deselect && final(self).phase()
                == ExchangePhase::Releasing && final(self).outcome() == Some(
                Err::<Vec<u8>, ProtocolError>(ProtocolError::ResponseTimeout),
            ),
            old(self).phase() is Reading && event == BusEvent::Level(false) ==> r
                == BusAction::Deselect && final(self).phase() == ExchangePhase::Releasing
                && final(self).outcome() is Some,
            old(self).phase() is Reading && event == BusEvent::Level(false) && old(self).truncated()
                ==> final(self).outcome() == Some(
                Err::<Vec<u8>, ProtocolError>(ProtocolError::PromptTooLong),
            ),
            old(self).phase() is Reading && event == BusEvent::Level(false) && !old(self).truncated()
                ==> final(self).outcome()->0 is Ok && final(self).outcome()->0->Ok_0@ == old(
                self).kept(),
            old(self).phase() is ReceivingWord && event is Received ==> r == BusAction::CheckReady
                && final(self).phase() == ExchangePhase::Reading && final(self).kept() == capped(
                old(self).kept() + printable_of(event->Received_0),
            ) && final(self).truncated() == (old(self).truncated() || old(self).kept().len()
                + printable_of(event->Received_0).len() > PROMPT_CAPACITY) && final(
                self).reader_words() == old(self).reader_words() + 1,
            // A failed transfer ends in a transport error.
            event is Failed ==> r == BusAction::Deselect && final(self).phase()
                == ExchangePhase::Releasing && final(self).outcome() == Some(
                Err::<Vec<u8>, ProtocolError>(ProtocolError::Transport),
            ),
            // Completing delivers the result that was stored.
            old(self).phase() is Releasing ==> r == BusAction::Complete(old(self).outcome()->0)
                && final(self).outcome() is None,
    {
        match self.phase {
            ExchangePhase::Idle | ExchangePhase::Sleeping => {
                self.phase = ExchangePhase::AwaitingReady;
                BusAction::CheckReady
            },
            ExchangePhase::AwaitingReady => {
                let ready = match event {
                    BusEvent::Level(b) => b,
                    _ => false,
                };
                match self.wait.poll(ready) {
                    WaitStep::Ready => {
                        self.phase = ExchangePhase::SelectingToRead;
                        BusAction::Select
                    },
                    WaitStep::Sleep(ms) => {
                        self.phase = ExchangePhase::Sleeping;
                        BusAction::Sleep(ms)
                    },
                    WaitStep::Expired => {
                        self.phase = ExchangePhase::Finished;
                        BusAction::Complete(Err(ProtocolError::InitTimeout))
                    },
                }
            },
            ExchangePhase::SelectingToRead => {
                self.phase = ExchangePhase::Reading;
                BusAction::CheckReady
            },
            ExchangePhase::Reading => {
                let ready = match event {
                    BusEvent::Level(b) => b,
                    _ => false,
                };
                match self.reader.on_ready(ready) {
                    Ok(ReadStep::Exchange(w)) => {
                        self.phase = ExchangePhase::ReceivingWord;
                        BusAction::Transfer(w)
                    },
                    Ok(ReadStep::Complete) => {
                        self.outcome = Some(self.reader.finish());
                        self.phase = ExchangePhase::Releasing;
                        BusAction::Deselect
                    },
                    Err(e) => {
                        self.outcome = Some(Err(e));
                        self.phase = ExchangePhase::Releasing;
                        BusAction::Deselect
                    },
                }
            },
            ExchangePhase::ReceivingWord => {
                match event {
                    BusEvent::Received(w) => {
                        self.reader.on_word(w);
                        self.phase = ExchangePhase::Reading;
                        BusAction::CheckReady
                    },
                    _ => {
                        self.outcome = Some(Err(ProtocolError::Transport));
                        self.phase = ExchangePhase::Releasing;
                        BusAction::Deselect
                    },
                }
            },
            ExchangePhase::Releasing => {
                let mut taken: Option<Result<Vec<u8>, ProtocolError>> = None;
                core::mem::swap(&mut taken, &mut self.outcome);
                self.phase = ExchangePhase::Finished;
                match taken {
                    Some(res) => BusAction::Complete(res),
                    None => BusAction::Complete(Err(ProtocolError::Transport)),
                }
            },
            _ => {
                self.phase = ExchangePhase::Finished;
                BusAction::Complete(Err(ProtocolError::Transport))
            },
        }
    }
}

} // verus!
