use es_wifi::buffer::FrameBuffer;
use es_wifi::command::command_frame;
use es_wifi::error::ProtocolError;
use es_wifi::framing::{accept_reply_word, frame_words, poll_word, TransferWord, FILLER, NAK};
use es_wifi::transport::{ReadStep, ResponseReader, MAX_READ_WORDS};

fn word(high: u8, low: u8) -> TransferWord {
    TransferWord { high, low }
}

#[test]
fn odd_length_is_padded_with_filler() {
    let words = frame_words(b"CD\r");
    assert_eq!(words, vec![word(b'D', b'C'), word(0x0A, b'\r')]);
}

#[test]
fn even_length_needs_no_pad() {
    let words = frame_words(b"MT=1");
    assert_eq!(words, vec![word(b'T', b'M'), word(b'1', b'=')]);
}

#[test]
fn word_count_is_half_the_length_rounded_up() {
    for len in 0..40usize {
        let bytes: Vec<u8> = (0..len).map(|i| i as u8 + 0x30).collect();
        let words = frame_words(&bytes);
        assert_eq!(words.len(), (len + 1) / 2);
        if len % 2 == 1 {
            assert_eq!(words.last().unwrap().high, FILLER);
        }
    }
}

#[test]
fn empty_command_gives_no_words() {
    assert!(frame_words(b"").is_empty());
}

#[test]
fn command_frame_accepts_full_buffer() {
    let text = vec![b'A'; 256];
    let words = command_frame(&text).unwrap();
    assert_eq!(words.len(), 128);
}

#[test]
fn command_frame_rejects_oversized_text() {
    let text = vec![b'A'; 257];
    assert_eq!(command_frame(&text), Err(ProtocolError::CommandTooLong));
}

#[test]
fn poll_word_is_filler_twice() {
    assert_eq!(poll_word(), word(0x0A, 0x0A));
}

#[test]
fn nak_bytes_are_dropped_from_reply() {
    let mut buf: FrameBuffer = FrameBuffer::new();
    assert!(accept_reply_word(&mut buf, word(b'O', NAK)));
    assert!(accept_reply_word(&mut buf, word(NAK, NAK)));
    assert!(accept_reply_word(&mut buf, word(NAK, b'K')));
    assert!(accept_reply_word(&mut buf, word(b'\n', b'x')));
    assert_eq!(buf.as_slice(), b"OK\nx");
    assert!(!buf.as_slice().contains(&NAK));
}

#[test]
fn full_buffer_refuses_word_unchanged() {
    let mut buf: FrameBuffer = FrameBuffer::new();
    for _ in 0..127 {
        assert!(accept_reply_word(&mut buf, word(b'a', b'b')));
    }
    assert!(accept_reply_word(&mut buf, word(b'c', NAK)));
    assert_eq!(buf.len(), 255);
    assert!(!accept_reply_word(&mut buf, word(b'd', b'e')));
    assert_eq!(buf.len(), 255);
    assert!(accept_reply_word(&mut buf, word(NAK, b'z')));
    assert_eq!(buf.len(), 256);
}

fn read_reply(words: &[TransferWord]) -> Result<Vec<u8>, ProtocolError> {
    let mut reader = ResponseReader::new();
    let mut next = 0usize;
    loop {
        let ready = next < words.len();
        match reader.on_ready(ready)? {
            ReadStep::Exchange(w) => {
                assert_eq!(w, poll_word());
                reader.on_word(words[next])?;
                next += 1;
            }
            ReadStep::Complete => return reader.finish(),
        }
    }
}

#[test]
fn reader_assembles_high_byte_first_and_skips_nak() {
    let words = [
        word(b'\r', b'\n'),
        word(b'A', NAK),
        word(b'B', b'\r'),
        word(b'\n', b'O'),
        word(b'K', b'\r'),
        word(b'\n', NAK),
        word(NAK, NAK),
    ];
    assert_eq!(read_reply(&words), Ok(b"AB".to_vec()));
}

#[test]
fn reader_reports_overlong_response() {
    let words = vec![word(b'x', b'y'); 129];
    assert_eq!(read_reply(&words), Err(ProtocolError::ResponseTooLong));
}

#[test]
fn reader_gives_up_when_ready_never_drops() {
    let words = vec![word(NAK, NAK); MAX_READ_WORDS as usize + 1];
    assert_eq!(read_reply(&words), Err(ProtocolError::ResponseTimeout));
}

#[test]
fn reader_reports_failed_status() {
    let words = [
        word(b'\n', b'B'),
        word(b'\n', b'E'),
        word(b'R', b'R'),
        word(b'O', b'R'),
        word(b'\n', NAK),
    ];
    assert_eq!(read_reply(&words), Err(ProtocolError::CommandFailed(b"ERROR".to_vec())));
}
