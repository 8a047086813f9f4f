use es_wifi::channel::{BusAction, BusEvent, CommandExchange, ExchangePhase, RESPONSE_WAIT_LIMIT};
use es_wifi::error::ProtocolError;
use es_wifi::framing::{TransferWord, NAK};

/// A scripted device: it answers transfers with `reply` once the command
/// is in, raises the ready line after `delay` looks, and fails the transfer
/// numbered `fail_at`, if any.
struct Device {
    reply: Vec<TransferWord>,
    delay: usize,
    fail_at: Option<usize>,
    selected: bool,
    sent: Vec<TransferWord>,
    looks: usize,
    transfers: usize,
    next_reply: usize,
    reading: bool,
}

impl Device {
    fn new(reply: &[u8], delay: usize, fail_at: Option<usize>) -> Device {
        let mut words = Vec::new();
        for pair in reply.chunks(2) {
            let low = if pair.len() == 2 { pair[1] } else { NAK };
            words.push(TransferWord { high: pair[0], low });
        }
        Device {
            reply: words,
            delay,
            fail_at,
            selected: false,
            sent: Vec::new(),
            looks: 0,
            transfers: 0,
            next_reply: 0,
            reading: false,
        }
    }

    fn run(&mut self, text: &[u8]) -> Result<Vec<u8>, ProtocolError> {
        let mut exchange = CommandExchange::new(text)?;
        let mut event = BusEvent::Done;
        loop {
            match exchange.step(event) {
                BusAction::Select => {
                    assert!(!self.selected);
                    self.selected = true;
                    event = BusEvent::Done;
                }
                BusAction::Deselect => {
                    assert!(self.selected);
                    self.selected = false;
                    event = BusEvent::Done;
                }
                BusAction::Transfer(w) => {
                    assert!(self.selected);
                    self.transfers += 1;
                    if Some(self.transfers) == self.fail_at {
                        event = BusEvent::Failed;
                    } else if self.reading {
                        let got = self.reply[self.next_reply];
                        self.next_reply += 1;
                        event = BusEvent::Received(got);
                    } else {
                        self.sent.push(w);
                        event = BusEvent::Received(TransferWord { high: NAK, low: NAK });
                    }
                }
                BusAction::CheckReady => {
                    self.looks += 1;
                    let ready = if self.reading {
                        self.next_reply < self.reply.len()
                    } else {
                        self.looks > self.delay
                    };
                    if ready {
                        self.reading = true;
                    }
                    event = BusEvent::Level(ready);
                }
                BusAction::Sleep(ms) => {
                    assert_eq!(ms, 1);
                    event = BusEvent::Done;
                }
                BusAction::Complete(result) => {
                    assert!(!self.selected);
                    assert_eq!(exchange.current_phase(), ExchangePhase::Finished);
                    return result;
                }
            }
        }
    }
}

#[test]
fn exchange_sends_framed_command_and_parses_reply() {
    let mut device = Device::new(b"\r\nAB:CD\r\nOK\r\n", 3, None);
    assert_eq!(device.run(b"Z5\r"), Ok(b"AB:CD".to_vec()));
    assert_eq!(
        device.sent,
        vec![TransferWord { high: b'5', low: b'Z' }, TransferWord { high: 0x0A, low: b'\r' }]
    );
}

#[test]
fn exchange_reports_device_failure_status() {
    let mut device = Device::new(b"\r\n\r\nERROR\r\n", 0, None);
    assert_eq!(device.run(b"C0\r"), Err(ProtocolError::CommandFailed(b"ERROR".to_vec())));
}

#[test]
fn bus_failure_while_sending_releases_select() {
    let mut device = Device::new(b"\r\nx\r\nOK\r\n", 0, Some(2));
    assert_eq!(device.run(b"CB=2\r"), Err(ProtocolError::Transport));
    assert_eq!(device.sent.len(), 1);
}

#[test]
fn bus_failure_while_reading_releases_select() {
    let mut device = Device::new(b"\r\nx\r\nOK\r\n", 0, Some(4));
    assert_eq!(device.run(b"C?\r"), Err(ProtocolError::Transport));
}

#[test]
fn silent_device_times_out() {
    let mut device = Device::new(b"", usize::MAX, None);
    assert_eq!(device.run(b"MR\r"), Err(ProtocolError::ResponseTimeout));
    assert_eq!(device.looks, RESPONSE_WAIT_LIMIT as usize + 1);
}

#[test]
fn garbled_reply_is_malformed() {
    let mut device = Device::new(b"garbage", 0, None);
    assert_eq!(device.run(b"MR\r"), Err(ProtocolError::ResponseMalformed));
}

#[test]
fn oversized_command_is_refused_before_the_bus() {
    let text = vec![b'C'; 300];
    assert!(matches!(CommandExchange::new(&text), Err(ProtocolError::CommandTooLong)));
}
