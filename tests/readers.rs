use es_wifi::error::ProtocolError;
use es_wifi::framing::{TransferWord, NAK};
use es_wifi::transport::{PromptReader, ReadStep, ReadyWait, WaitStep};

#[test]
fn ready_wait_sleeps_then_expires() {
    let mut wait = ReadyWait::new(3, 10);
    assert_eq!(wait.poll(false), WaitStep::Sleep(10));
    assert_eq!(wait.poll(false), WaitStep::Sleep(10));
    assert_eq!(wait.poll(false), WaitStep::Sleep(10));
    assert_eq!(wait.poll(false), WaitStep::Expired);
    assert_eq!(wait.attempts, 3);
}

#[test]
fn ready_wait_goes_on_when_line_is_up() {
    let mut wait = ReadyWait::new(3, 10);
    assert_eq!(wait.poll(false), WaitStep::Sleep(10));
    assert_eq!(wait.poll(true), WaitStep::Ready);
    assert_eq!(wait.attempts, 1);
}

fn read_prompt(words: &[TransferWord]) -> Result<Vec<u8>, ProtocolError> {
    let mut reader = PromptReader::new();
    let mut next = 0usize;
    loop {
        match reader.on_ready(next < words.len())? {
            ReadStep::Exchange(_) => {
                reader.on_word(words[next]);
                next += 1;
            }
            ReadStep::Complete => return reader.finish(),
        }
    }
}

#[test]
fn prompt_keeps_printable_bytes_only() {
    let words = [
        TransferWord { high: b'\r', low: b'\n' },
        TransferWord { high: b'>', low: b' ' },
        TransferWord { high: NAK, low: 0x7F },
    ];
    assert_eq!(read_prompt(&words), Ok(b"> ".to_vec()));
}

#[test]
fn overlong_prompt_is_reported() {
    let words = vec![TransferWord { high: b'a', low: b'b' }; 33];
    assert_eq!(read_prompt(&words), Err(ProtocolError::PromptTooLong));
}

#[test]
fn prompt_of_exact_capacity_fits() {
    let words = vec![TransferWord { high: b'a', low: b'b' }; 32];
    assert_eq!(read_prompt(&words).map(|p| p.len()), Ok(64));
}
