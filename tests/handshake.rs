use es_wifi::channel::{BusAction, BusEvent, PromptExchange, PROMPT_WAIT_INTERVAL_MS, PROMPT_WAIT_LIMIT};
use es_wifi::error::ProtocolError;
use es_wifi::framing::TransferWord;

/// Runs the handshake against a device that raises the ready line after
/// `delay` looks and then sends `greeting`, two bytes per word.
fn handshake(greeting: &[u8], delay: usize) -> (Result<Vec<u8>, ProtocolError>, usize) {
    let mut exchange = PromptExchange::new();
    let mut event = BusEvent::Done;
    let mut selected = false;
    let mut looks = 0usize;
    let mut next = 0usize;
    let mut sleeps = 0usize;
    loop {
        match exchange.step(event) {
            BusAction::Select => {
                assert!(!selected);
                selected = true;
                event = BusEvent::Done;
            }
            BusAction::Deselect => {
                assert!(selected);
                selected = false;
                event = BusEvent::Done;
            }
            BusAction::CheckReady => {
                looks += 1;
                let ready = if selected { next < greeting.len() } else { looks > delay };
                event = BusEvent::Level(ready);
            }
            BusAction::Sleep(ms) => {
                assert_eq!(ms, PROMPT_WAIT_INTERVAL_MS);
                sleeps += 1;
                event = BusEvent::Done;
            }
            BusAction::Transfer(w) => {
                assert!(selected);
                assert_eq!(w, TransferWord { high: 0x0A, low: 0x0A });
                let high = greeting[next];
                let low = if next + 1 < greeting.len() { greeting[next + 1] } else { 0 };
                next += 2;
                event = BusEvent::Received(TransferWord { high, low });
            }
            BusAction::Complete(result) => {
                assert!(!selected);
                return (result, sleeps);
            }
        }
    }
}

#[test]
fn greeting_is_read_after_ready_rises() {
    let (result, sleeps) = handshake(b"\r\n> ", 5);
    assert_eq!(result, Ok(b"> ".to_vec()));
    assert_eq!(sleeps, 5);
}

#[test]
fn handshake_times_out_without_ready() {
    let (result, sleeps) = handshake(b"", usize::MAX);
    assert_eq!(result, Err(ProtocolError::InitTimeout));
    assert_eq!(sleeps, PROMPT_WAIT_LIMIT as usize);
}

#[test]
fn overlong_greeting_is_reported_after_draining() {
    let greeting = vec![b'x'; 100];
    let (result, _) = handshake(&greeting, 0);
    assert_eq!(result, Err(ProtocolError::PromptTooLong));
}
