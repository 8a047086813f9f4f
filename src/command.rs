//! The command vocabulary and its encoding as text.

use vstd::prelude::*;
use crate::buffer::{FRAME_CAPACITY, frame_from_bytes, frame_slice};
use crate::error::ProtocolError;
use crate::framing::{TransferWord, framed, frame_words};

verus! {

/// Terminator of every command.
pub const CR: u8 = 0x0D;

/// The commands the driver issues.
#[derive(Clone, Copy, Debug, PartialEq, Eq, Structural)]
pub enum Command {
    /// Leave the current network.
    Disconnect,
    /// Select WPA2 security.
    SetSecurityMode,
    /// Set the network name; takes an argument.
    SetSsid,
    /// Set the passphrase; takes an argument.
    SetPassphrase,
    /// Select the WPA2 cipher suite.
    SetEncryption,
    /// Join the configured network.
    Connect,
    /// Ask for the connection status.
    QueryStatus,
    /// Ask for the MAC address.
    GetMac,
    /// Ask for the firmware version.
    GetVersion,
    /// Turn verbose replies off.
    SetVerbosity,
}

/// The short code of a command, before its argument.
pub open spec fn code_of(c: Command) -> Seq<u8> {
    match c {
        Command::Disconnect => seq![0x43u8, 0x44], // "CD"
        Command::SetSecurityMode => seq![0x43u8, 0x42, 0x3D, 0x32], // "CB=2"
        Command::SetSsid => seq![0x43u8, 0x31, 0x3D], // "C1="
        Command::SetPassphrase => seq![0x43u8, 0x32, 0x3D], // "C2="
        Command::SetEncryption => seq![0x43u8, 0x33, 0x3D, 0x34], // "C3=4"
        Command::Connect => seq![0x43u8, 0x30], // "C0"
        Command::QueryStatus => seq![0x43u8, 0x3F], // "C?"
        Command::GetMac => seq![0x5Au8, 0x35], // "Z5"
        Command::GetVersion => seq![0x4Du8, 0x52], // "MR"
        Command::SetVerbosity => seq![0x4Du8, 0x54, 0x3D, 0x31], // "MT=1"
    }
}

/// Whether a command carries an argument after its code.
pub open spec fn takes_argument(c: Command) -> bool {
    c == Command::SetSsid || c == Command::SetPassphrase
}

/// The full text of a command: code, argument where it takes one, `CR`.
pub open spec fn command_text(c: Command, arg: Seq<u8>) -> Seq<u8> {
    code_of(c) + (if takes_argument(c) { arg } else { Seq::empty() }) + seq![CR]
}

fn code_bytes(c: Command) -> (r: Vec<u8>)
    ensures
        r@ == code_of(c),
{
    let r = match c {
        Command::Disconnect => vec![0x43u8, 0x44], // "CD"
        Command::SetSecurityMode => vec![0x43u8, 0x42, 0x3D, 0x32], // "CB=2"
        Command::SetSsid => vec![0x43u8, 0x31, 0x3D], // "C1="
        Command::SetPassphrase => vec![0x43u8, 0x32, 0x3D], // "C2="
        Command::SetEncryption => vec![0x43u8, 0x33, 0x3D, 0x34], // "C3=4"
        Command::Connect => vec![0x43u8, 0x30], // "C0"
        Command::QueryStatus => vec![0x43u8, 0x3F], // "C?"
        Command::GetMac => vec![0x5Au8, 0x35], // "Z5"
        Command::GetVersion => vec![0x4Du8, 0x52], // "MR"
        Command::SetVerbosity => vec![0x4Du8, 0x54, 0x3D, 0x31], // "MT=1"
    };
    assert(r@ =~= code_of(c));
    r
}

/// The text of a command; `arg` is used only by the commands that take one.
pub fn encode_command(c: Command, arg: &[u8]) -> (r: Vec<u8>)
    ensures
        r@ == command_text(c, arg@),
{
    let mut r = code_bytes(c);
    let ghost code = r@;
    if c == Command::SetSsid || c == Command::SetPassphrase {
        let mut i: usize = 0;
        while i < arg.len()
            invariant
                i <= arg@.len(),
                r@ == code + arg@.subrange(0, i as int),
            decreases arg@.len() - i,
        {
            r.push(arg[i]);
            i = i + 1;
            assert(arg@.subrange(0, i as int) == arg@.subrange(0, i - 1).push(arg@[i - 1]));
        }
        assert(arg@.subrange(0, arg@.len() as int) == arg@);
    }
    r.push(CR);
    assert(r@ =~= command_text(c, arg@));
    r
}

/// The words that send a command text, held in a frame buffer on the way;
/// fails when the text is longer than a frame buffer.
pub fn command_frame(text: &[u8]) -> (r: Result<Vec<TransferWord>, ProtocolError>)
    ensures
        r is Ok <==> text@.len() <= FRAME_CAPACITY,
        r matches Ok(w) ==> w@ == framed(text@),
        r matches Err(e) ==> e == ProtocolError::CommandTooLong,
{
    match frame_from_bytes(text) {
        Some(buf) => Ok(frame_words(frame_slice(&buf))),
        None => Err(ProtocolError::CommandTooLong),
    }
}

} // verus!
