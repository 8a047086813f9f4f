//! The response grammar: an empty line, a payload line, a status line.

use vstd::prelude::*;
use crate::error::ProtocolError;

verus! {

/// Line feed: ends each line of a response.
pub const LF: u8 = 0x0A;

/// Carriage return: dropped where it ends a line.
pub const LINE_CR: u8 = 0x0D;

/// The status token of a successful command.
pub open spec fn ok_token() -> Seq<u8> {
    seq![0x4Fu8, 0x4B] // "OK"
}

/// Index of the first `LF` of `s` at or after `start`, or the length of `s`.
pub open spec fn line_end(s: Seq<u8>, start: int) -> int
    decreases s.len() - start,
{
    if start < 0 || start >= s.len() {
        s.len() as int
    } else if s[start] == LF {
        start
    } else {
        line_end(s, start + 1)
    }
}

/// `t` without one trailing `LINE_CR`.
pub open spec fn strip_cr(t: Seq<u8>) -> Seq<u8> {
    if t.len() > 0 && t.last() == LINE_CR {
        t.drop_last()
    } else {
        t
    }
}

/// The line that starts at `start`, without its terminator.
pub open spec fn line_at(s: Seq<u8>, start: int) -> Seq<u8> {
    strip_cr(s.subrange(start, line_end(s, start)))
}

/// Where the payload line starts.
pub open spec fn payload_start(s: Seq<u8>) -> int {
    line_end(s, 0) + 1
}

/// Where the status line starts.
pub open spec fn status_start(s: Seq<u8>) -> int {
    line_end(s, payload_start(s)) + 1
}

/// `s` is exactly an empty first line, a payload line and a status line;
/// nothing but its line feed may follow the status.
pub open spec fn well_shaped(s: Seq<u8>) -> bool {
    &&& s.len() > 0
    &&& line_at(s, 0).len() == 0
    &&& payload_start(s) < s.len()
    &&& status_start(s) < s.len()
    &&& line_end(s, status_start(s)) >= s.len() - 1
}

pub open spec fn payload_of(s: Seq<u8>) -> Seq<u8> {
    line_at(s, payload_start(s))
}

pub open spec fn status_of(s: Seq<u8>) -> Seq<u8> {
    line_at(s, status_start(s))
}

/// A response that yields its payload.
pub open spec fn succeeds(s: Seq<u8>) -> bool {
    well_shaped(s) && status_of(s) == ok_token()
}

/// `r` is what parsing `s` gives: its payload when it succeeds,
/// `CommandFailed` with its status when it is well shaped but does not, and
/// `ResponseMalformed` otherwise.
pub open spec fn parsed_as(s: Seq<u8>, r: Result<Vec<u8>, ProtocolError>) -> bool {
    &&& (r is Ok <==> succeeds(s))
    &&& (r matches Ok(p) ==> p@ == payload_of(s))
    &&& (r matches Err(e) ==> if well_shaped(s) {
        e matches ProtocolError::CommandFailed(t) && t@ == status_of(s)
    } else {
        e == ProtocolError::ResponseMalformed
    })
}

fn find_line_end(s: &[u8], start: usize) -> (r: usize)
    requires
        start <= s@.len(),
    ensures
        r == line_end(s@, start as int),
        start <= r <= s@.len(),
{
    let mut i = start;
    while i < s.len()
        invariant
            start <= i <= s@.len(),
            line_end(s@, start as int) == line_end(s@, i as int),
        decreases s@.len() - i,
    {
        if s[i] == LF {
            return i;
        }
        i = i + 1;
    }
    i
}

/// The bytes of `s` from `start` up to `end`, without one trailing `LINE_CR`.
fn copy_line(s: &[u8], start: usize, end: usize) -> (r: Vec<u8>)
    requires
        start <= end <= s@.len(),
    ensures
        r@ == strip_cr(s@.subrange(start as int, end as int)),
{
    let mut stop = end;
    if end > start && s[end - 1] == LINE_CR {
        stop = end - 1;
    }
    let mut r: Vec<u8> = Vec::new();
    let mut i = start;
    while i < stop
        invariant
            start <= i <= stop <= end <= s@.len(),
            r@ == s@.subrange(start as int, i as int),
        decreases stop - i,
    {
        r.push(s[i]);
        i = i + 1;
        assert(s@.subrange(start as int, i as int)
            == s@.subrange(start as int, i - 1).push(s@[i - 1]));
    }
    assert(r@ =~= strip_cr(s@.subrange(start as int, end as int)));
    r
}

/// Parses a complete response. Yields the payload when the status is `OK`,
/// `CommandFailed` with the status otherwise, and `ResponseMalformed` when a
/// line is missing or the first line is not empty.
pub fn parse_response(s: &[u8]) -> (r: Result<Vec<u8>, ProtocolError>)
    ensures
        parsed_as(s@, r),
{
    let n = s.len();
    if n == 0 {
        return Err(ProtocolError::ResponseMalformed);
    }
    let e0 = find_line_end(s, 0);
    let first = copy_line(s, 0, e0);
    if first.len() != 0 || e0 >= n - 1 {
        return Err(ProtocolError::ResponseMalformed);
    }
    let p = e0 + 1;
    let e1 = find_line_end(s, p);
    if e1 >= n - 1 {
        return Err(ProtocolError::ResponseMalformed);
    }
    let q = e1 + 1;
    let e2 = find_line_end(s, q);
    if e2 < n - 1 {
        return Err(ProtocolError::ResponseMalformed);
    }
    let status = copy_line(s, q, e2);
    if status.len() == 2 && status[0] == 0x4F && status[1] == 0x4B {
        assert(status@ =~= ok_token());
        Ok(copy_line(s, p, e1))
    } else {
        assert(status@ != ok_token());
        Err(ProtocolError::CommandFailed(status))
    }
}

/// The status token `ERROR`.
pub open spec fn error_token() -> Seq<u8> {
    seq![0x45u8, 0x52, 0x52, 0x4F, 0x52] // "ERROR"
}

/// `data` holds no `LF` and does not end in `LINE_CR`: it reads back as
/// one line unchanged.
pub open spec fn plain_line(data: Seq<u8>) -> bool {
    &&& forall|k: int| 0 <= k < data.len() ==> data[k] != LF
    &&& (data.len() == 0 || data.last() != LINE_CR)
}

/// A response of an empty line, `data` and the status `status`.
pub open spec fn response_text(data: Seq<u8>, status: Seq<u8>) -> Seq<u8> {
    seq![LF] + data + seq![LF] + status + seq![LF]
}

proof fn lemma_line_end_skip(s: Seq<u8>, i: int, j: int)
    requires
        0 <= i <= j <= s.len(),
        forall|k: int| i <= k < j ==> s[k] != LF,
    ensures
        line_end(s, i) == line_end(s, j),
    decreases j - i,
{
    if i < j {
        lemma_line_end_skip(s, i + 1, j);
    }
}

proof fn lemma_response_lines(data: Seq<u8>, status: Seq<u8>)
    requires
        plain_line(data),
        plain_line(status),
    ensures
        well_shaped(response_text(data, status)),
        payload_of(response_text(data, status)) == data,
        status_of(response_text(data, status)) == status,
{
    let s = response_text(data, status);
    let n = data.len() as int;
    let m = status.len() as int;
    assert(s[0] == LF);
    assert(line_end(s, 0) == 0);
    assert(s.subrange(0, 0) =~= Seq::<u8>::empty());
    assert forall|k: int| 1 <= k < 1 + n implies s[k] != LF by {
        assert(s[k] == data[k - 1]);
    }
    lemma_line_end_skip(s, 1, 1 + n);
    assert(s[1 + n] == LF);
    assert(line_end(s, 1 + n) == 1 + n);
    assert(s.subrange(1, 1 + n) =~= data);
    assert forall|k: int| 2 + n <= k < 2 + n + m implies s[k] != LF by {
        assert(s[k] == status[k - 2 - n]);
    }
    lemma_line_end_skip(s, 2 + n, 2 + n + m);
    assert(s[2 + n + m] == LF);
    assert(line_end(s, 2 + n + m) == 2 + n + m);
    assert(s.subrange(2 + n, 2 + n + m) =~= status);
}

/// A response of an empty line, a payload line `data` and the status `OK`
/// yields `data`, for every `data` that reads back as one line.
pub proof fn lemma_ok_response_yields_payload(data: Seq<u8>)
    requires
        plain_line(data),
    ensures
        succeeds(response_text(data, ok_token())),
        payload_of(response_text(data, ok_token())) == data,
{
    lemma_response_lines(data, ok_token());
}

/// A response of an empty line, a payload line `data` and the status
/// `ERROR` fails with that status and yields no payload.
pub proof fn lemma_error_response_fails(data: Seq<u8>)
    requires
        plain_line(data),
    ensures
        well_shaped(response_text(data, error_token())),
        !succeeds(response_text(data, error_token())),
        status_of(response_text(data, error_token())) == error_token(),
{
    lemma_response_lines(data, error_token());
    assert(error_token().len() != ok_token().len());
}

} // verus!
