//! Framing of the binary socket-read responses (`+QSSLRECV` / `+QIRD`) for
//! the AT response digester.
//!
//! The response is `<header><len>\r\n<len raw bytes>\r\n\r\nOK\r\n`, whose
//! payload is arbitrary binary data: a line-oriented digester would cut it
//! at a `>` or an `OK` inside the payload. These hooks recognise the length
//! prefix and consume exactly the payload and the terminator, reporting
//! `Incomplete` until the whole frame is buffered and `NoMatch` for any
//! other response.

use vstd::prelude::*;
use crate::quectel_atat::{min_nat, recv_response, SOCKET_READ_MAX};
use crate::text::{
    crlf, crlf_bytes, decimal_field, decimal_text, lemma_decimal_line, find_bytes, first_occurrence, lemma_first_occurrence,
    lemma_first_occurrence_at, lemma_first_occurrence_prefix, lemma_no_occurrence_in_short_prefix,
    occurs_at,
    ok_crlf, ok_crlf_bytes, parse_decimal_field, ssl_recv_header, ssl_recv_header_bytes,
    tcp_recv_header, tcp_recv_header_bytes,
};

verus! {

/// Why a buffer holds no complete read frame.
#[derive(Clone, Copy, Debug, PartialEq, Eq, Structural)]
pub enum FrameError {
    /// The frame has started but not all of it has arrived yet.
    Incomplete,
    /// The buffer does not hold a read frame of this kind.
    NoMatch,
}

/// Where the read frame of `buf` lies: `Ok((start, end, consumed))` when
/// `buf[start..end]` is the header, the length and the payload, and the
/// first `consumed` bytes make up the whole frame with its terminator.
pub open spec fn recv_frame(buf: Seq<u8>, header: Seq<u8>) -> Result<(int, int, int), FrameError> {
    match first_occurrence(buf, header) {
        None => Err(FrameError::NoMatch),
        Some(h) => {
            let after = h + header.len();
            let rest = buf.subrange(after, buf.len() as int);
            match first_occurrence(rest, crlf()) {
                None => Err(FrameError::Incomplete),
                Some(nl) => match parse_decimal_field(rest.subrange(0, nl), usize::MAX as nat) {
                    None => Err(FrameError::NoMatch),
                    Some(len) => {
                        let end = after + nl + 2 + len;
                        if buf.len() < end {
                            Err(FrameError::Incomplete)
                        } else {
                            match first_occurrence(buf.subrange(end, buf.len() as int), ok_crlf()) {
                                None => Err(FrameError::Incomplete),
                                Some(ok) => Ok((h, end, end + ok + 4)),
                            }
                        }
                    },
                },
            }
        },
    }
}

/// What a frame hook returns for `buf`, as a relation between its result
/// and `recv_frame`.
pub open spec fn frame_result_matches(
    buf: Seq<u8>,
    header: Seq<u8>,
    r: Result<(Seq<u8>, usize), FrameError>,
) -> bool {
    match recv_frame(buf, header) {
        Ok((start, end, consumed)) => r matches Ok((frame, n)) && frame == buf.subrange(start, end)
            && n == consumed,
        Err(e) => r == Err::<(Seq<u8>, usize), FrameError>(e),
    }
}

/// The spec view of a hook result.
pub open spec fn frame_view(r: Result<(&[u8], usize), FrameError>) -> Result<(Seq<u8>, usize), FrameError> {
    match r {
        Ok((frame, n)) => Ok((frame@, n)),
        Err(e) => Err(e),
    }
}

/// Shared frame extractor for the length-prefixed socket read responses.
fn recv_digest_frame<'a>(buf: &'a [u8], header: &[u8]) -> (r: Result<(&'a [u8], usize), FrameError>)
    requires
        header@.len() > 0,
    ensures
        frame_result_matches(buf@, header@, frame_view(r)),
        r matches Ok((_, n)) ==> n <= buf@.len(),
{
    let buf_len = buf.len();
    let hdr = match find_bytes(buf, header) {
        Some(h) => h,
        None => return Err(FrameError::NoMatch),
    };
    proof {
        lemma_first_occurrence(buf@, header@, 0);
    }
    let after = hdr + header.len();
    let rest = &buf[after..buf.len()];
    let crlf_v = crlf_bytes();
    let nl = match find_bytes(rest, crlf_v.as_slice()) {
        Some(k) => k,
        None => return Err(FrameError::Incomplete),
    };
    proof {
        lemma_first_occurrence(rest@, crlf(), 0);
    }
    let field = &rest[0..nl];
    let len = match decimal_field(field, usize::MAX as u64) {
        Some(v) => v as usize,
        None => return Err(FrameError::NoMatch),
    };
    let start = after + nl + 2;
    if len > buf.len() - start {
        return Err(FrameError::Incomplete);
    }
    let end = start + len;
    let ok_v = ok_crlf_bytes();
    let tail = &buf[end..buf.len()];
    let ok = match find_bytes(tail, ok_v.as_slice()) {
        Some(k) => k,
        None => return Err(FrameError::Incomplete),
    };
    proof {
        lemma_first_occurrence(tail@, ok_crlf(), 0);
    }
    let consumed = end + ok + 4;
    Ok((&buf[hdr..end], consumed))
}

/// Frame hook for the binary `+QSSLRECV` (TLS socket read) response.
pub fn ssl_recv_digest_hook(buf: &[u8]) -> (r: Result<(&[u8], usize), FrameError>)
    ensures
        frame_result_matches(buf@, ssl_recv_header(), frame_view(r)),
        r matches Ok((_, n)) ==> n <= buf@.len(),
{
    let header = ssl_recv_header_bytes();
    recv_digest_frame(buf, header.as_slice())
}

/// Frame hook for the binary `+QIRD` (plain TCP socket read) response.
pub fn tcp_recv_digest_hook(buf: &[u8]) -> (r: Result<(&[u8], usize), FrameError>)
    ensures
        frame_result_matches(buf@, tcp_recv_header(), frame_view(r)),
        r matches Ok((_, n)) ==> n <= buf@.len(),
{
    let header = tcp_recv_header_bytes();
    recv_digest_frame(buf, header.as_slice())
}

/// Frame hook for both read responses: the TLS frame is tried first, and
/// the plain TCP frame when the buffer holds no TLS frame at all.
pub fn socket_recv_digest_hook(buf: &[u8]) -> (r: Result<(&[u8], usize), FrameError>)
    ensures
        recv_frame(buf@, ssl_recv_header()) == Err::<(int, int, int), FrameError>(
            FrameError::NoMatch,
        ) ==> frame_result_matches(buf@, tcp_recv_header(), frame_view(r)),
        recv_frame(buf@, ssl_recv_header()) != Err::<(int, int, int), FrameError>(
            FrameError::NoMatch,
        ) ==> frame_result_matches(buf@, ssl_recv_header(), frame_view(r)),
        r matches Ok((_, n)) ==> n <= buf@.len(),
{
    match ssl_recv_digest_hook(buf) {
        Err(FrameError::NoMatch) => tcp_recv_digest_hook(buf),
        other => other,
    }
}

/// The payload a read frame announces: the bytes after its length line,
/// as many as the length says; `None` when `buf` holds no such bytes.
pub open spec fn frame_payload(buf: Seq<u8>, header: Seq<u8>) -> Option<Seq<u8>> {
    match first_occurrence(buf, header) {
        None => None,
        Some(h) => {
            let after = h + header.len();
            let rest = buf.subrange(after, buf.len() as int);
            match first_occurrence(rest, crlf()) {
                None => None,
                Some(nl) => match parse_decimal_field(rest.subrange(0, nl), usize::MAX as nat) {
                    None => None,
                    Some(len) => {
                        let start = after + nl + 2;
                        if buf.len() < start + len {
                            None
                        } else {
                            Some(buf.subrange(start, start + len))
                        }
                    },
                },
            }
        },
    }
}

/// What a frame hook hands over, the read command's parse reads: the
/// frame holds its announced payload, and parsing it (as `SslRecv::parse`
/// and `TcpRecv::parse` do) gives the first 512 bytes of that payload and
/// their number, whenever the announced length fits the 16-bit length.
pub proof fn law_frame_parses(buf: Seq<u8>, header: Seq<u8>)
    requires
        header.len() > 0,
        recv_frame(buf, header) is Ok,
    ensures
        match (recv_frame(buf, header), frame_payload(buf, header)) {
            (Ok((h, end, _)), Some(p)) => p.len() <= u16::MAX ==> recv_response(
                buf.subrange(h, end),
                header,
            ) == Some(
                (
                    min_nat(p.len(), SOCKET_READ_MAX as nat) as u16,
                    p.subrange(0, min_nat(p.len(), SOCKET_READ_MAX as nat) as int),
                ),
            ),
            _ => false,
        },
{
    lemma_first_occurrence(buf, header, 0);
    let h = first_occurrence(buf, header).unwrap();
    let after = h + header.len();
    let rest = buf.subrange(after, buf.len() as int);
    lemma_first_occurrence(rest, crlf(), 0);
    let nl = first_occurrence(rest, crlf()).unwrap();
    let len = parse_decimal_field(rest.subrange(0, nl), usize::MAX as nat).unwrap();
    let start = after + nl + 2;
    let end = start + len;
    let p = buf.subrange(start, end);
    if p.len() <= u16::MAX {
        let frame = buf.subrange(h, end);
        // the frame starts with the header
        assert(frame.subrange(0, header.len() as int) =~= header);
        assert(occurs_at(frame, header, 0));
        lemma_first_occurrence_at(frame, header, 0, 0);
        // what follows the header is a prefix of what follows it in `buf`
        let after_f = frame.subrange(header.len() as int, frame.len() as int);
        assert(after_f =~= rest.subrange(0, after_f.len() as int));
        lemma_first_occurrence_prefix(rest, after_f, crlf(), nl);
        assert(after_f.subrange(0, nl) =~= rest.subrange(0, nl));
        let payload = after_f.subrange(nl + 2, after_f.len() as int);
        assert(payload =~= p);
        let n = min_nat(min_nat(len, SOCKET_READ_MAX as nat), payload.len());
        assert(n == min_nat(p.len(), SOCKET_READ_MAX as nat));
    }
}

/// A frame hook waits for the whole frame: once the header has arrived,
/// every buffered prefix that stops short of the frame's terminator is
/// `Incomplete`, and the complete frame is framed the same way whatever
/// follows it.
pub proof fn law_frame_incomplete_until_whole(buf: Seq<u8>, header: Seq<u8>, k: int)
    requires
        header.len() > 0,
        recv_frame(buf, header) is Ok,
    ensures
        match recv_frame(buf, header) {
            Ok((h, end, consumed)) => {
                &&& (h + header.len() <= k < consumed ==> recv_frame(buf.take(k), header)
                    == Err::<(int, int, int), FrameError>(FrameError::Incomplete))
                &&& (consumed <= k <= buf.len() ==> recv_frame(buf.take(k), header) == recv_frame(
                    buf,
                    header,
                ))
            },
            _ => false,
        },
{
    lemma_first_occurrence(buf, header, 0);
    let h = first_occurrence(buf, header).unwrap();
    let after = h + header.len();
    let rest = buf.subrange(after, buf.len() as int);
    lemma_first_occurrence(rest, crlf(), 0);
    let nl = first_occurrence(rest, crlf()).unwrap();
    let len = parse_decimal_field(rest.subrange(0, nl), usize::MAX as nat).unwrap();
    let end = after + nl + 2 + len;
    let tail = buf.subrange(end, buf.len() as int);
    lemma_first_occurrence(tail, ok_crlf(), 0);
    let ok = first_occurrence(tail, ok_crlf()).unwrap();
    let consumed = end + ok + 4;
    if after <= k <= buf.len() {
        let q = buf.take(k);
        // the header is found at the same place
        assert(q =~= buf.subrange(0, k));
        lemma_first_occurrence_prefix(buf, q, header, h);
        let rest_q = q.subrange(after, q.len() as int);
        assert(rest_q =~= rest.subrange(0, rest_q.len() as int));
        if k < after + nl + 2 {
            lemma_no_occurrence_in_short_prefix(rest, rest_q, crlf());
        } else {
            lemma_first_occurrence_prefix(rest, rest_q, crlf(), nl);
            assert(rest_q.subrange(0, nl) =~= rest.subrange(0, nl));
            if k >= end {
                let tail_q = q.subrange(end, q.len() as int);
                assert(tail_q =~= tail.subrange(0, tail_q.len() as int));
                if k < consumed {
                    lemma_no_occurrence_in_short_prefix(tail, tail_q, ok_crlf());
                } else {
                    lemma_first_occurrence_prefix(tail, tail_q, ok_crlf(), ok);
                }
            }
        }
    }
}

/// The read frame the modem sends for `payload`: the header, the payload's
/// length in decimal, `\r\n`, the payload, and `\r\n\r\nOK\r\n`.
pub open spec fn read_frame(header: Seq<u8>, payload: Seq<u8>) -> Seq<u8> {
    header + decimal_text(payload.len()) + crlf() + payload + frame_terminator()
}

/// Framing a payload and reading it back: a buffer that starts with the
/// read frame of `payload` (whatever follows it) is framed from its start to
/// the end of the payload, consuming exactly the frame; every shorter
/// buffer that holds the header is `Incomplete`; and parsing the framed
/// bytes gives the payload and its length back when it fits one read.
pub proof fn law_frame_roundtrip(header: Seq<u8>, payload: Seq<u8>, rest: Seq<u8>)
    requires
        header.len() > 0,
        payload.len() <= usize::MAX,
    ensures
        recv_frame(read_frame(header, payload) + rest, header) == Ok::<(int, int, int), FrameError>(
            (
                0,
                read_frame(header, payload).len() - 8,
                read_frame(header, payload).len() as int,
            ),
        ),
        forall|k: int|
            header.len() <= k < read_frame(header, payload).len() ==> #[trigger] recv_frame(
                read_frame(header, payload).take(k),
                header,
            ) == Err::<(int, int, int), FrameError>(FrameError::Incomplete),
        payload.len() <= SOCKET_READ_MAX ==> recv_response(
            read_frame(header, payload).subrange(0, read_frame(header, payload).len() - 8),
            header,
        ) == Some((payload.len() as u16, payload)),
{
    let f = read_frame(header, payload);
    lemma_frame_found(header, payload, rest);
    lemma_frame_found(header, payload, Seq::<u8>::empty());
    assert(f + Seq::<u8>::empty() =~= f);
    assert forall|k: int| header.len() <= k < f.len() implies #[trigger] recv_frame(f.take(k), header)
        == Err::<(int, int, int), FrameError>(FrameError::Incomplete) by {
        law_frame_incomplete_until_whole(f, header, k);
    }
    if payload.len() <= SOCKET_READ_MAX {
        lemma_frame_reads_back(header, payload);
    }
}

/// Parsing the framed part of a read frame gives its payload back.
#[verifier::spinoff_prover]
proof fn lemma_frame_reads_back(header: Seq<u8>, payload: Seq<u8>)
    requires
        header.len() > 0,
        payload.len() <= SOCKET_READ_MAX,
        recv_frame(read_frame(header, payload), header) == Ok::<(int, int, int), FrameError>(
            (
                0,
                read_frame(header, payload).len() - 8,
                read_frame(header, payload).len() as int,
            ),
        ),
    ensures
        recv_response(
            read_frame(header, payload).subrange(0, read_frame(header, payload).len() - 8),
            header,
        ) == Some((payload.len() as u16, payload)),
{
    let n = payload.len();
    let d = decimal_text(n);
    let hl = header.len() as int;
    let dl = d.len() as int;
    let f = read_frame(header, payload);
    let b = header + (d + (crlf() + (payload + frame_terminator())));
    assert(f =~= b);
    assert(b.subrange(0, hl) =~= header);
    lemma_header_first(b, header);
    let rb = b.subrange(hl, b.len() as int);
    assert(rb =~= d + (crlf() + (payload + frame_terminator())));
    assert(rb.subrange(0, dl) =~= d);
    assert(rb.subrange(dl, dl + 2) =~= crlf());
    lemma_decimal_line(rb, n, usize::MAX as nat);
    let start = hl + dl + 2;
    assert(b.subrange(start, start + n) =~= payload);
    assert(frame_payload(b, header) == Some(payload));
    law_frame_parses(b, header);
    assert(min_nat(n, SOCKET_READ_MAX as nat) == n);
    assert(payload.subrange(0, n as int) =~= payload);
}

/// `\r\n\r\nOK\r\n`, the end of a read frame.
pub open spec fn frame_terminator() -> Seq<u8> {
    seq![13u8, 10u8, 13u8, 10u8, 79u8, 75u8, 13u8, 10u8]
}

/// A buffer that starts with `header` has its first header at 0.
proof fn lemma_header_first(b: Seq<u8>, header: Seq<u8>)
    requires
        header.len() <= b.len(),
        b.subrange(0, header.len() as int) == header,
    ensures
        first_occurrence(b, header) == Some(0int),
{
    lemma_first_occurrence_at(b, header, 0, 0);
}

/// After a payload, the first `OK\r\n` of what starts with the terminator
/// is four bytes in.
proof fn lemma_terminator(t: Seq<u8>)
    requires
        8 <= t.len(),
        t.subrange(0, 8) == frame_terminator(),
    ensures
        first_occurrence(t, ok_crlf()) == Some(4int),
{
    let w = t.subrange(0, 8);
    assert(w[0] == 13u8 && w[1] == 10u8 && w[2] == 13u8 && w[3] == 10u8);
    assert(w[4] == 79u8 && w[5] == 75u8 && w[6] == 13u8 && w[7] == 10u8);
    assert(t[0] == w[0] && t[1] == w[1] && t[2] == w[2] && t[3] == w[3]);
    assert(t[4] == w[4] && t[5] == w[5] && t[6] == w[6] && t[7] == w[7]);
    assert(t.subrange(4, 8) =~= ok_crlf());
    assert(!occurs_at(t, ok_crlf(), 0)) by {
        if occurs_at(t, ok_crlf(), 0) {
            assert(t.subrange(0, 4)[0] == t[0]);
        }
    }
    assert(!occurs_at(t, ok_crlf(), 1)) by {
        if occurs_at(t, ok_crlf(), 1) {
            assert(t.subrange(1, 5)[0] == t[1]);
        }
    }
    assert(!occurs_at(t, ok_crlf(), 2)) by {
        if occurs_at(t, ok_crlf(), 2) {
            assert(t.subrange(2, 6)[0] == t[2]);
        }
    }
    assert(!occurs_at(t, ok_crlf(), 3)) by {
        if occurs_at(t, ok_crlf(), 3) {
            assert(t.subrange(3, 7)[0] == t[3]);
        }
    }
    lemma_first_occurrence_at(t, ok_crlf(), 0, 4);
}

/// Where `recv_frame` finds the parts of a read frame followed by `rest`.
#[verifier::spinoff_prover]
proof fn lemma_frame_found(header: Seq<u8>, payload: Seq<u8>, rest: Seq<u8>)
    requires
        header.len() > 0,
        payload.len() <= usize::MAX,
    ensures
        recv_frame(read_frame(header, payload) + rest, header) == Ok::<(int, int, int), FrameError>(
            (
                0,
                read_frame(header, payload).len() - 8,
                read_frame(header, payload).len() as int,
            ),
        ),
{
    let n = payload.len();
    let d = decimal_text(n);
    let hl = header.len() as int;
    let dl = d.len() as int;
    let term = frame_terminator();
    let b = header + (d + (crlf() + (payload + (term + rest))));
    assert(read_frame(header, payload) + rest =~= b);
    let end = hl + dl + 2 + n;
    assert(b.len() == end + 8 + rest.len());
    assert(b.subrange(0, hl) =~= header);
    lemma_header_first(b, header);
    let rb = b.subrange(hl, b.len() as int);
    assert(rb =~= d + (crlf() + (payload + (term + rest))));
    assert(rb.subrange(0, dl) =~= d);
    assert(rb.subrange(dl, dl + 2) =~= crlf());
    lemma_decimal_line(rb, n, usize::MAX as nat);
    let t = b.subrange(end, b.len() as int);
    assert(t =~= term + rest);
    assert(t.subrange(0, 8) =~= term);
    lemma_terminator(t);
}

} // verus!
