//! Response framing: splitting a raw reply buffer into status code, meta
//! text and body, and the inverse encoding.
//!
//! Wire format: bytes 0 and 1 are ASCII digits forming the two-digit status
//! code; byte 2 may be a single space, in which case the meta text starts at
//! byte 3, else the meta text starts at byte 2; the meta text runs to the
//! first CRLF; everything after that CRLF is the body, verbatim.

use vstd::prelude::*;

use crate::ext::bytes_to_string_lossy;
use crate::ext::lossy_decode;
use crate::status::spec_code_of_status;
use crate::status::spec_status_of_code;
use crate::status::GeminiStatus;

verus! {

/// Why a reply buffer failed to decode: it is too short to carry a status
/// line or its first two bytes are not digits; the status line never ends in
/// CRLF; or the two digits name a code outside the closed set.
#[derive(Debug, Clone, Copy, PartialEq, Eq, Structural)]
pub enum DecodeError {
    MalformedStatusLine,
    MissingTerminator,
    UnknownStatus,
}

/// A decoded reply: the status, the meta text (a URL on redirect, a prompt on
/// input, an error message on failure), and the raw body.
#[derive(Debug, Clone)]
pub struct GeminiResponse {
    pub status: GeminiStatus,
    pub info: String,
    pub body: Vec<u8>,
}

impl GeminiResponse {
    pub fn new(status: GeminiStatus, info: String, body: Vec<u8>) -> (r: Self)
        ensures
            r.status == status,
            r.info == info,
            r.body == body,
    {
        Self { status, info, body }
    }
}

pub open spec fn spec_is_digit_byte(b: u8) -> bool {
    48 <= b <= 57
}

/// The position of the first CRLF pair at or after `i`, or the buffer's
/// length when no pair follows.
pub open spec fn spec_find_crlf_from(b: Seq<u8>, i: int) -> int
    decreases b.len() - i,
{
    if i < 0 || i + 1 >= b.len() {
        b.len() as int
    } else if b[i] == 13 && b[i + 1] == 10 {
        i
    } else {
        spec_find_crlf_from(b, i + 1)
    }
}

/// What decoding a reply buffer yields: the status together with the meta
/// bytes and the body bytes, or the exact reason it fails.
pub open spec fn spec_frame_decode(b: Seq<u8>) -> Result<(GeminiStatus, Seq<u8>, Seq<u8>), DecodeError> {
    if b.len() < 4 {
        Err(DecodeError::MalformedStatusLine)
    } else if !(spec_is_digit_byte(b[0]) && spec_is_digit_byte(b[1])) {
        Err(DecodeError::MalformedStatusLine)
    } else {
        match spec_status_of_code((((b[0] - 48) * 10 + (b[1] - 48))) as u8) {
            None => Err(DecodeError::UnknownStatus),
            Some(st) => {
                let start = if b[2] == 32 { 3int } else { 2int };
                let e = spec_find_crlf_from(b, start);
                if e == b.len() {
                    Err(DecodeError::MissingTerminator)
                } else {
                    Ok((st, b.subrange(start, e), b.subrange(e + 2, b.len() as int)))
                }
            },
        }
    }
}

/// The encoding of a (status, meta, body) triple: the two code digits, one
/// space, the meta bytes, CRLF, then the body.
pub open spec fn spec_frame_encode(st: GeminiStatus, meta: Seq<u8>, body: Seq<u8>) -> Seq<u8> {
    seq![
        (48 + spec_code_of_status(st) / 10) as u8,
        (48 + spec_code_of_status(st) % 10) as u8,
        32u8,
    ] + meta + seq![13u8, 10u8] + body
}

proof fn lemma_find_crlf_from(b: Seq<u8>, start: int, e: int)
    requires
        0 <= start <= e <= b.len(),
        forall|j: int| start <= j < e ==> !(j + 1 < b.len() && #[trigger] b[j] == 13 && b[j + 1] == 10),
        e < b.len() ==> e + 1 < b.len() && b[e] == 13 && b[e + 1] == 10,
    ensures
        spec_find_crlf_from(b, start) == if e < b.len() { e } else { b.len() as int },
    decreases e - start,
{
    if start + 1 >= b.len() {
        // no pair fits at or after start, and the hypotheses rule e < b.len() out
    } else if b[start] == 13 && b[start + 1] == 10 {
        assert(e == start);
    } else {
        lemma_find_crlf_from(b, start + 1, e);
    }
}

/// Scan for the first CRLF pair at or after `start`; the buffer's length
/// means none was found.
fn find_crlf_from(b: &Vec<u8>, start: usize) -> (e: usize)
    requires
        start <= b@.len(),
    ensures
        e as int == spec_find_crlf_from(b@, start as int),
        e == b@.len() || (e + 1 < b@.len() && b@[e as int] == 13 && b@[e as int + 1] == 10),
        start <= e,
{
    let n = b.len();
    let mut i = start;
    while n > 0 && i < n - 1
        invariant
            start <= i <= n,
            n == b@.len(),
            forall|j: int| start <= j < i ==> !(j + 1 < b@.len()
                && #[trigger] b@[j] == 13 && b@[j + 1] == 10),
        decreases n - i,
    {
        if b[i] == 13 && b[i + 1] == 10 {
            proof {
                lemma_find_crlf_from(b@, start as int, i as int);
            }
            return i;
        }
        i += 1;
    }
    proof {
        lemma_find_crlf_from(b@, start as int, n as int);
    }
    n
}

/// Split a raw reply buffer into status, meta text and body.  The meta bytes
/// are decoded to text leniently: a reply with a valid frame never fails for
/// its meta content.
pub fn decode_response(res_buff: &Vec<u8>) -> (r: Result<GeminiResponse, DecodeError>)
    ensures
        match spec_frame_decode(res_buff@) {
            Ok((st, meta, body)) => r matches Ok(resp) && resp.status == st
                && resp.info@ == lossy_decode(meta) && resp.body@ == body,
            Err(e) => r matches Err(e2) && e2 == e,
        },
{
    let n = res_buff.len();
    if n < 4 {
        return Err(DecodeError::MalformedStatusLine);
    }
    let d1 = res_buff[0];
    let d2 = res_buff[1];
    if !(48 <= d1 && d1 <= 57 && 48 <= d2 && d2 <= 57) {
        return Err(DecodeError::MalformedStatusLine);
    }
    let code = (d1 - 48) * 10 + (d2 - 48);
    let status = match GeminiStatus::from_u8(code) {
        Some(s) => s,
        None => {
            return Err(DecodeError::UnknownStatus);
        },
    };
    let start: usize = if res_buff[2] == 32 {
        3
    } else {
        2
    };
    let end = find_crlf_from(res_buff, start);
    if end == n {
        return Err(DecodeError::MissingTerminator);
    }
    let meta = vstd::slice::slice_to_vec(vstd::slice::slice_subrange(res_buff.as_slice(), start, end));
    let body = vstd::slice::slice_to_vec(vstd::slice::slice_subrange(res_buff.as_slice(), end + 2, n));
    let info = bytes_to_string_lossy(&meta);
    Ok(GeminiResponse::new(status, info, body))
}

/// Encode a (status, meta, body) triple in the wire framing, with the
/// optional space present.
pub fn encode_response(status: GeminiStatus, meta: &Vec<u8>, body: &Vec<u8>) -> (r: Vec<u8>)
    ensures
        r@ == spec_frame_encode(status, meta@, body@),
{
    let code = code_of_status(status);
    let mut out: Vec<u8> = Vec::new();
    out.push(48 + code / 10);
    out.push(48 + code % 10);
    out.push(32);
    let mut i: usize = 0;
    while i < meta.len()
        invariant
            i <= meta@.len(),
            out@ == seq![(48 + spec_code_of_status(status) / 10) as u8,
                (48 + spec_code_of_status(status) % 10) as u8, 32u8] + meta@.take(i as int),
        decreases meta@.len() - i,
    {
        out.push(meta[i]);
        proof {
            assert(meta@.take(i + 1) =~= meta@.take(i as int).push(meta@[i as int]));
        }
        i += 1;
    }
    proof {
        assert(meta@.take(meta@.len() as int) =~= meta@);
    }
    out.push(13);
    out.push(10);
    let mut k: usize = 0;
    while k < body.len()
        invariant
            k <= body@.len(),
            out@ == seq![(48 + spec_code_of_status(status) / 10) as u8,
                (48 + spec_code_of_status(status) % 10) as u8, 32u8] + meta@
                + seq![13u8, 10u8] + body@.take(k as int),
        decreases body@.len() - k,
    {
        out.push(body[k]);
        proof {
            assert(body@.take(k + 1) =~= body@.take(k as int).push(body@[k as int]));
            assert(seq![(48 + spec_code_of_status(status) / 10) as u8,
                (48 + spec_code_of_status(status) % 10) as u8, 32u8] + meta@
                + seq![13u8, 10u8] + body@.take(k + 1)
                =~= (seq![(48 + spec_code_of_status(status) / 10) as u8,
                    (48 + spec_code_of_status(status) % 10) as u8, 32u8] + meta@
                    + seq![13u8, 10u8] + body@.take(k as int)).push(body@[k as int]));
        }
        k += 1;
    }
    proof {
        assert(body@.take(body@.len() as int) =~= body@);
    }
    out
}

/// The numeric code of a status, as `spec_code_of_status` states it.
pub fn code_of_status(status: GeminiStatus) -> (r: u8)
    ensures
        r == spec_code_of_status(status),
{
    match status {
        GeminiStatus::Input => 10,
        GeminiStatus::SensitiveInput => 11,
        GeminiStatus::Success => 20,
        GeminiStatus::TemporaryRedirect => 30,
        GeminiStatus::PermanentRedirect => 31,
        GeminiStatus::TemporaryFailure => 40,
        GeminiStatus::ServerUnavailable => 41,
        GeminiStatus::CGIError => 42,
        GeminiStatus::ProxyError => 43,
        GeminiStatus::SlowDown => 44,
        GeminiStatus::PermanentFailure => 50,
        GeminiStatus::NotFound => 51,
        GeminiStatus::Gone => 52,
        GeminiStatus::ProxyRequestRefused => 53,
        GeminiStatus::BadRequest => 59,
        GeminiStatus::ClientCertificateRequired => 60,
        GeminiStatus::CertificateNotAuthorized => 61,
        GeminiStatus::CertificateNotValid => 62,
    }
}

/// Round-trip framing: encoding any triple whose meta contains no CRLF pair,
/// then decoding, recovers the triple exactly.
pub proof fn lemma_frame_round_trip(st: GeminiStatus, meta: Seq<u8>, body: Seq<u8>)
    requires
        forall|i: int| 0 <= i < meta.len() - 1 ==> !(#[trigger] meta[i] == 13 && meta[i + 1] == 10),
    ensures
        spec_frame_decode(spec_frame_encode(st, meta, body)) == Ok::<_, DecodeError>((st, meta, body)),
{
    let b = spec_frame_encode(st, meta, body);
    let code = spec_code_of_status(st);
    assert(10 <= code <= 62);
    assert(code == (code / 10) * 10 + code % 10) by (nonlinear_arith)
        requires 10 <= code <= 62;
    assert(b.len() == 5 + meta.len() + body.len());
    assert(b[0] == (48 + code / 10) as u8 && b[1] == (48 + code % 10) as u8 && b[2] == 32u8);
    assert(spec_is_digit_byte(b[0]) && spec_is_digit_byte(b[1]));
    assert((b[0] - 48) * 10 + (b[1] - 48) == code);
    assert(spec_status_of_code(((b[0] - 48) * 10 + (b[1] - 48)) as u8) == Some(st));
    let e = 3 + meta.len() as int;
    assert forall|j: int| 3 <= j < e implies !(j + 1 < b.len() && #[trigger] b[j] == 13 && b[j + 1] == 10) by {
        assert(b[j] == meta[j - 3]);
        if j < e - 1 {
            assert(b[j + 1] == meta[j - 2]);
        } else {
            assert(b[j + 1] == 13u8);
        }
    }
    assert(b[e] == 13u8 && b[e + 1] == 10u8);
    lemma_find_crlf_from(b, 3, e);
    assert(b.subrange(3, e) =~= meta);
    assert(b.subrange(e + 2, b.len() as int) =~= body);
}

} // verus!
