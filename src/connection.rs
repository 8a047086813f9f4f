//! Joining a network: six configuration commands in a fixed order, then
//! bounded polling of the connection status.

use vstd::prelude::*;
use crate::command::{Command, command_text, encode_command};
use crate::error::ProtocolError;
use crate::text::{contains, contains_bytes, copy_bytes};

verus! {

/// Number of configuration commands sent before polling starts.
pub const SETUP_STEPS: u8 = 6;

/// Most status queries issued before giving up.
pub const MAX_STATUS_POLLS: u32 = 20;

/// Pause before each status query, in milliseconds.
pub const POLL_INTERVAL_MS: u32 = 500;

/// Whether the device is associated with a network.
#[derive(Clone, Copy, Debug, PartialEq, Eq, Structural)]
pub enum WifiState {
    Disconnected,
    Connected,
}

/// Where a join stands.
#[derive(Clone, Copy, Debug, PartialEq, Eq, Structural)]
pub enum JoinPhase {
    /// Waiting for the reply to configuration command `k` (from 0).
    Setup(u8),
    /// Waiting for the reply to status query `n + 1`.
    Polling(u32),
    /// Ended with the device associated.
    Joined,
    /// Ended without association.
    Abandoned,
}

/// A command to send, after a pause.
#[derive(Debug, PartialEq, Eq)]
pub struct Request {
    pub delay_ms: u32,
    pub text: Vec<u8>,
}

/// What the caller does after handing in a reply.
#[derive(Debug, PartialEq, Eq)]
pub enum JoinAction {
    /// Send this request and hand its reply to the join.
    Send(Request),
    /// The join is over, with this outcome.
    Done(Result<(), ProtocolError>),
}

/// The configuration command sent at step `k`.
pub open spec fn setup_command(k: int) -> Command {
    if k == 0 {
        Command::Disconnect
    } else if k == 1 {
        Command::SetSecurityMode
    } else if k == 2 {
        Command::SetSsid
    } else if k == 3 {
        Command::SetPassphrase
    } else if k == 4 {
        Command::SetEncryption
    } else {
        Command::Connect
    }
}

/// The argument that goes with the command of step `k`.
pub open spec fn setup_argument(k: int, ssid: Seq<u8>, passphrase: Seq<u8>) -> Seq<u8> {
    if k == 2 {
        ssid
    } else if k == 3 {
        passphrase
    } else {
        Seq::empty()
    }
}

/// The text of the command of step `k`.
pub open spec fn setup_text(k: int, ssid: Seq<u8>, passphrase: Seq<u8>) -> Seq<u8> {
    command_text(setup_command(k), setup_argument(k, ssid, passphrase))
}

/// The text of a status query.
pub open spec fn status_query_text() -> Seq<u8> {
    command_text(Command::QueryStatus, Seq::empty())
}

/// The phase still waits for a reply.
pub open spec fn active(ph: JoinPhase) -> bool {
    ph is Setup || ph is Polling
}

/// The phase is one a join can be in.
pub open spec fn phase_ok(ph: JoinPhase) -> bool {
    match ph {
        JoinPhase::Setup(k) => k < SETUP_STEPS,
        JoinPhase::Polling(n) => n < MAX_STATUS_POLLS,
        _ => true,
    }
}

/// The pause before the request of an active phase.
pub open spec fn request_delay(ph: JoinPhase) -> u32 {
    if ph is Polling {
        POLL_INTERVAL_MS
    } else {
        0
    }
}

/// The text of the request of an active phase.
pub open spec fn request_text(ph: JoinPhase, ssid: Seq<u8>, passphrase: Seq<u8>) -> Seq<u8> {
    match ph {
        JoinPhase::Setup(k) => setup_text(k as int, ssid, passphrase),
        _ => status_query_text(),
    }
}

/// "192.168."
pub open spec fn prefix_192() -> Seq<u8> {
    seq![0x31u8, 0x39, 0x32, 0x2E, 0x31, 0x36, 0x38, 0x2E]
}

/// "10."
pub open spec fn prefix_10() -> Seq<u8> {
    seq![0x31u8, 0x30, 0x2E]
}

/// "172."
pub open spec fn prefix_172() -> Seq<u8> {
    seq![0x31u8, 0x37, 0x32, 0x2E]
}

/// "Failed"
pub open spec fn failure_word() -> Seq<u8> {
    seq![0x46u8, 0x61, 0x69, 0x6C, 0x65, 0x64]
}

/// A status payload that shows a private-range address: associated.
pub open spec fn shows_address(p: Seq<u8>) -> bool {
    contains(p, prefix_192()) || contains(p, prefix_10()) || contains(p, prefix_172())
}

/// A status payload that reports a failed join.
pub open spec fn shows_failure(p: Seq<u8>) -> bool {
    !shows_address(p) && contains(p, failure_word())
}

/// The phase after the reply `reply` in phase `ph`.
pub open spec fn next_phase(ph: JoinPhase, reply: Result<Vec<u8>, ProtocolError>) -> JoinPhase {
    match ph {
        JoinPhase::Setup(k) => if reply is Err {
            JoinPhase::Abandoned
        } else if k + 1 < SETUP_STEPS {
            JoinPhase::Setup((k + 1) as u8)
        } else {
            JoinPhase::Polling(0)
        },
        JoinPhase::Polling(n) => if reply matches Ok(p) && shows_address(p@) {
            JoinPhase::Joined
        } else if reply matches Ok(p) && shows_failure(p@) {
            JoinPhase::Abandoned
        } else if n + 1 < MAX_STATUS_POLLS {
            JoinPhase::Polling((n + 1) as u32)
        } else {
            JoinPhase::Abandoned
        },
        _ => ph,
    }
}

/// The outcome of a join that the reply `reply` in phase `ph` ends; `None`
/// when it goes on.
pub open spec fn outcome(ph: JoinPhase, reply: Result<Vec<u8>, ProtocolError>) -> Option<
    Result<(), ProtocolError>,
> {
    match ph {
        JoinPhase::Setup(k) => match reply {
            Err(e) => Some(Err(e)),
            Ok(_) => None,
        },
        JoinPhase::Polling(n) => if reply matches Ok(p) && shows_address(p@) {
            Some(Ok(()))
        } else if reply matches Ok(p) && shows_failure(p@) {
            Some(Err(ProtocolError::ConnectionFailed))
        } else if n + 1 < MAX_STATUS_POLLS {
            None
        } else {
            Some(Err(ProtocolError::ConnectionTimeout))
        },
        _ => None,
    }
}

fn setup_command_at(k: u8) -> (r: Command)
    ensures
        r == setup_command(k as int),
{
    if k == 0 {
        Command::Disconnect
    } else if k == 1 {
        Command::SetSecurityMode
    } else if k == 2 {
        Command::SetSsid
    } else if k == 3 {
        Command::SetPassphrase
    } else if k == 4 {
        Command::SetEncryption
    } else {
        Command::Connect
    }
}

/// Classifies a status payload: `Some(true)` for an address, `Some(false)`
/// for a reported failure, `None` when it is inconclusive.
pub fn classify_status(p: &[u8]) -> (r: Option<bool>)
    ensures
        r == Some(true) <==> shows_address(p@),
        r == Some(false) <==> shows_failure(p@),
{
    let p192: Vec<u8> = vec![0x31u8, 0x39, 0x32, 0x2E, 0x31, 0x36, 0x38, 0x2E];
    let p10: Vec<u8> = vec![0x31u8, 0x30, 0x2E];
    let p172: Vec<u8> = vec![0x31u8, 0x37, 0x32, 0x2E];
    let failed: Vec<u8> = vec![0x46u8, 0x61, 0x69, 0x6C, 0x65, 0x64];
    assert(p192@ =~= prefix_192());
    assert(p10@ =~= prefix_10());
    assert(p172@ =~= prefix_172());
    assert(failed@ =~= failure_word());
    if contains_bytes(p, p192.as_slice()) || contains_bytes(p, p10.as_slice())
        || contains_bytes(p, p172.as_slice()) {
        Some(true)
    } else if contains_bytes(p, failed.as_slice()) {
        Some(false)
    } else {
        None
    }
}

/// One attempt to join a network. Feed it the reply to each request it
/// makes; it ends on the first failed configuration command, on a status
/// that shows an address or a failure, or after the last status query.
pub struct Join {
    ssid: Vec<u8>,
    passphrase: Vec<u8>,
    phase: JoinPhase,
}

impl Join {
    pub closed spec fn ssid(&self) -> Seq<u8> {
        self.ssid@
    }

    pub closed spec fn passphrase(&self) -> Seq<u8> {
        self.passphrase@
    }

    pub closed spec fn phase(&self) -> JoinPhase {
        self.phase
    }

    /// A join about to send its first configuration command.
    pub fn new(ssid: &[u8], passphrase: &[u8]) -> (r: Join)
        ensures
            r.ssid() == ssid@,
            r.passphrase() == passphrase@,
            r.phase() == JoinPhase::Setup(0),
    {
        Join { ssid: copy_bytes(ssid), passphrase: copy_bytes(passphrase), phase: JoinPhase::Setup(0) }
    }

    /// Where the join stands.
    pub fn current_phase(&self) -> (r: JoinPhase)
        ensures
            r == self.phase(),
    {
        self.phase
    }

    /// The request the join waits on; `None` once it is over.
    pub fn request(&self) -> (r: Option<Request>)
        ensures
            r is Some <==> active(self.phase()),
            r matches Some(q) ==> q.delay_ms == request_delay(self.phase()) && q.text@
                == request_text(self.phase(), self.ssid(), self.passphrase()),
    {
        match self.phase {
            JoinPhase::Setup(k) => {
                let c = setup_command_at(k);
                let text = if k == 2 {
                    encode_command(c, self.ssid.as_slice())
                } else if k == 3 {
                    encode_command(c, self.passphrase.as_slice())
                } else {
                    encode_command(c, &[])
                };
                Some(Request { delay_ms: 0, text })
            },
            JoinPhase::Polling(_) => Some(
                Request { delay_ms: POLL_INTERVAL_MS, text: encode_command(Command::QueryStatus, &[]) },
            ),
            _ => None,
        }
    }

    /// Takes the reply to the current request: moves to the next phase and
    /// says what to do next.
    pub fn on_reply(&mut self, reply: Result<Vec<u8>, ProtocolError>) -> (r: JoinAction)
        requires
            phase_ok(old(self).phase()),
        ensures
            phase_ok(final(self).phase()),
            final(self).ssid() == old(self).ssid(),
            final(self).passphrase() == old(self).passphrase(),
            final(self).phase() == next_phase(old(self).phase(), reply),
            outcome(old(self).phase(), reply) matches Some(o) ==> r == JoinAction::Done(o),
            outcome(old(self).phase(), reply) is None && active(old(self).phase()) ==> (
            r matches JoinAction::Send(q) && q.delay_ms == request_delay(final(self).phase())
                && q.text@ == request_text(
                final(self).phase(),
                final(self).ssid(),
                final(self).passphrase(),
            )),
            !active(old(self).phase()) ==> r == JoinAction::Done(
                if old(self).phase() is Joined {
                    Ok(())
                } else {
                    Err(ProtocolError::ConnectionFailed)
                },
            ),
    {
        match self.phase {
            JoinPhase::Setup(k) => {
                match reply {
                    Err(e) => {
                        self.phase = JoinPhase::Abandoned;
                        return JoinAction::Done(Err(e));
                    },
                    Ok(_) => {
                        if k + 1 < SETUP_STEPS {
                            self.phase = JoinPhase::Setup(k + 1);
                        } else {
                            self.phase = JoinPhase::Polling(0);
                        }
                    },
                }
            },
            JoinPhase::Polling(n) => {
                let verdict = match &reply {
                    Ok(p) => classify_status(p.as_slice()),
                    Err(_) => None,
                };
                match verdict {
                    Some(true) => {
                        self.phase = JoinPhase::Joined;
                        return JoinAction::Done(Ok(()));
                    },
                    Some(false) => {
                        self.phase = JoinPhase::Abandoned;
                        return JoinAction::Done(Err(ProtocolError::ConnectionFailed));
                    },
                    None => {
                        if n + 1 < MAX_STATUS_POLLS {
                            self.phase = JoinPhase::Polling(n + 1);
                        } else {
                            self.phase = JoinPhase::Abandoned;
                            return JoinAction::Done(Err(ProtocolError::ConnectionTimeout));
                        }
                    },
                }
            },
            JoinPhase::Joined => {
                return JoinAction::Done(Ok(()));
            },
            JoinPhase::Abandoned => {
                return JoinAction::Done(Err(ProtocolError::ConnectionFailed));
            },
        }
        match self.request() {
            Some(q) => JoinAction::Send(q),
            None => JoinAction::Done(Err(ProtocolError::ConnectionFailed)),
        }
    }
}

/// Owns the connection state; it changes only when a join ends.
pub struct ConnectionManager {
    state: WifiState,
}

impl ConnectionManager {
    pub closed spec fn current(&self) -> WifiState {
        self.state
    }

    pub fn new() -> (r: ConnectionManager)
        ensures
            r.current() == WifiState::Disconnected,
    {
        ConnectionManager { state: WifiState::Disconnected }
    }

    pub fn state(&self) -> (r: WifiState)
        ensures
            r == self.current(),
    {
        self.state
    }

    /// Starts a join. Nothing of earlier joins or of the current state is
    /// carried into it.
    pub fn connect_to_network(&self, ssid: &[u8], passphrase: &[u8]) -> (r: Join)
        ensures
            r.ssid() == ssid@,
            r.passphrase() == passphrase@,
            r.phase() == JoinPhase::Setup(0),
    {
        Join::new(ssid, passphrase)
    }

    /// Records how a join ended.
    pub fn finish_join(&mut self, outcome: &Result<(), ProtocolError>)
        ensures
            final(self).current() == if outcome is Ok {
                WifiState::Connected
            } else {
                WifiState::Disconnected
            },
    {
        self.state = match outcome {
            Ok(()) => WifiState::Connected,
            Err(_) => WifiState::Disconnected,
        };
    }
}

/// The texts of the requests a join in phase `ph` makes when it is handed
/// `replies` in turn: the current request, then one after each reply for
/// as long as the join goes on.
pub open spec fn issued(
    ph: JoinPhase,
    ssid: Seq<u8>,
    passphrase: Seq<u8>,
    replies: Seq<Result<Vec<u8>, ProtocolError>>,
) -> Seq<Seq<u8>>
    decreases replies.len(),
{
    if !active(ph) {
        Seq::empty()
    } else if replies.len() == 0 {
        seq![request_text(ph, ssid, passphrase)]
    } else {
        seq![request_text(ph, ssid, passphrase)] + issued(
            next_phase(ph, replies[0]),
            ssid,
            passphrase,
            replies.drop_first(),
        )
    }
}

/// The six configuration commands, in order.
pub open spec fn setup_sequence(ssid: Seq<u8>, passphrase: Seq<u8>) -> Seq<Seq<u8>> {
    Seq::new(SETUP_STEPS as nat, |k: int| setup_text(k, ssid, passphrase))
}

proof fn lemma_setup_from(
    k: int,
    ssid: Seq<u8>,
    passphrase: Seq<u8>,
    replies: Seq<Result<Vec<u8>, ProtocolError>>,
)
    requires
        0 <= k < SETUP_STEPS,
        replies.len() >= SETUP_STEPS - 1 - k,
        forall|i: int| 0 <= i < SETUP_STEPS - 1 - k ==> replies[i] is Ok,
    ensures
        issued(JoinPhase::Setup(k as u8), ssid, passphrase, replies).len() >= SETUP_STEPS - k,
        issued(JoinPhase::Setup(k as u8), ssid, passphrase, replies).take(SETUP_STEPS - k)
            == setup_sequence(ssid, passphrase).subrange(k, SETUP_STEPS as int),
    decreases SETUP_STEPS - k,
{
    let here = issued(JoinPhase::Setup(k as u8), ssid, passphrase, replies);
    let want = setup_sequence(ssid, passphrase).subrange(k, SETUP_STEPS as int);
    if k + 1 < SETUP_STEPS {
        let rest = replies.drop_first();
        assert(next_phase(JoinPhase::Setup(k as u8), replies[0]) == JoinPhase::Setup((k + 1) as u8));
        assert forall|i: int| 0 <= i < SETUP_STEPS - 1 - (k + 1) implies rest[i] is Ok by {
            assert(rest[i] == replies[i + 1]);
        }
        lemma_setup_from(k + 1, ssid, passphrase, rest);
        let tail = issued(JoinPhase::Setup((k + 1) as u8), ssid, passphrase, rest);
        assert(here == seq![setup_text(k, ssid, passphrase)] + tail);
        assert forall|i: int| 0 <= i < SETUP_STEPS - k implies here[i] == want[i] by {
            if i > 0 {
                assert(here[i] == tail[i - 1]);
                assert(tail[i - 1] == tail.take(SETUP_STEPS - (k + 1))[i - 1]);
            }
        }
        assert(here.take(SETUP_STEPS - k) =~= want);
    } else if replies.len() == 0 {
        assert(here.take(SETUP_STEPS - k) =~= want);
    } else {
        assert(here.take(SETUP_STEPS - k) =~= want);
    }
}

/// Two joins with the same credentials issue the same six configuration
/// commands, in the same order, whatever became of earlier joins: each
/// join that gets past configuration (one that ends in `ConnectionFailed`
/// does) sends exactly `setup_sequence` first.
pub proof fn lemma_rejoin_repeats_setup(
    ssid: Seq<u8>,
    passphrase: Seq<u8>,
    first: Seq<Result<Vec<u8>, ProtocolError>>,
    second: Seq<Result<Vec<u8>, ProtocolError>>,
)
    requires
        first.len() >= SETUP_STEPS - 1,
        second.len() >= SETUP_STEPS - 1,
        forall|i: int| 0 <= i < SETUP_STEPS - 1 ==> first[i] is Ok,
        forall|i: int| 0 <= i < SETUP_STEPS - 1 ==> second[i] is Ok,
    ensures
        issued(JoinPhase::Setup(0), ssid, passphrase, first).take(SETUP_STEPS as int)
            == setup_sequence(ssid, passphrase),
        issued(JoinPhase::Setup(0), ssid, passphrase, second).take(SETUP_STEPS as int)
            == setup_sequence(ssid, passphrase),
{
    lemma_setup_from(0, ssid, passphrase, first);
    lemma_setup_from(0, ssid, passphrase, second);
    assert(setup_sequence(ssid, passphrase).subrange(0, SETUP_STEPS as int) =~= setup_sequence(
        ssid,
        passphrase,
    ));
}

} // verus!
