//! The fetch orchestrator: a state machine that pursues an address through
//! redirects, bounded by a budget, and turns the final document into HTML.
//!
//! The machine is pure: `fetch_begin` validates the query and forms the
//! first target, and `fetch_step` consumes one transport reply and says what
//! to do next.  The surrounding application performs the network work — it
//! sends `request_line` over TLS to the state's host and port, reads the
//! reply, and hands the bytes (or the transport failure) back to
//! `fetch_step`.

use vstd::prelude::*;
use vstd::string::StrSliceExecFns;
use vstd::string::StringExecFns;

use crate::ext::bytes_to_string_lossy;
use crate::ext::lossy_decode;
use crate::ext::parse_url_parts;
use crate::ext::url_parts;
use crate::gemtext::parse_document_to_gems;
use crate::gemtext::spec_render_document;
use crate::response::decode_response;
use crate::response::spec_frame_decode;
use crate::response::DecodeError;
use crate::status::spec_label_of_status;
use crate::status::GeminiStatus;

verus! {

/// The number of redirect hops followed before a fetch gives up.
pub const REDIRECT_BUDGET: u8 = 15;

/// The port connected to when an address names none.
pub const DEFAULT_PORT: u16 = 1965;

/// Why a fetch failed: an empty query, an address that does not parse, a
/// transport failure, a reply that does not decode, a redirect whose meta
/// text is no address, a redirect past the budget, a status the gateway does
/// not support acting on, or a terminal status from the server.
#[derive(Debug, Clone, Copy, PartialEq, Eq, Structural)]
pub enum FetchError {
    EmptyQuery,
    BadUrl,
    ConnectionFailed,
    Decode(DecodeError),
    InvalidRedirect,
    TooManyRedirects,
    UnsupportedOperation,
    UpstreamFailure(GeminiStatus),
}

/// The address a fetch currently pursues: the authority (host and port) the
/// transport connects to, and the path requested there.
#[derive(Debug, Clone)]
pub struct FetchTarget {
    pub host: String,
    pub port: u16,
    pub path: String,
}

/// The fetch loop's state: the current target and the number of redirect
/// hops already taken.
#[derive(Debug, Clone)]
pub struct FetchState {
    pub target: FetchTarget,
    pub redirects: u8,
}

/// What the loop does next: issue the request the state describes, return
/// the finished HTML, or stop with a failure.
#[derive(Debug)]
pub enum FetchStep {
    Request(FetchState),
    Done(String),
    Fail(FetchError),
}

/// The display string of each failure.
pub open spec fn spec_error_message(e: FetchError) -> Seq<char> {
    match e {
        FetchError::EmptyQuery => "ERROR: empty search"@,
        FetchError::BadUrl => "ERROR: Bad url"@,
        FetchError::ConnectionFailed => "ERROR: connection fail"@,
        FetchError::Decode(_) => "ERROR: bad response"@,
        FetchError::InvalidRedirect => "ERROR: Invalid redirect"@,
        FetchError::TooManyRedirects => "ERROR: too many redirects"@,
        FetchError::UnsupportedOperation => "ERROR: sensitive input is not supported"@,
        FetchError::UpstreamFailure(st) => spec_label_of_status(st),
    }
}

impl FetchError {
    /// The short human-readable string shown in place of a document.
    pub fn message(&self) -> (r: String)
        ensures
            r@ == spec_error_message(*self),
    {
        match self {
            FetchError::EmptyQuery => String::from_str("ERROR: empty search"),
            FetchError::BadUrl => String::from_str("ERROR: Bad url"),
            FetchError::ConnectionFailed => String::from_str("ERROR: connection fail"),
            FetchError::Decode(_) => String::from_str("ERROR: bad response"),
            FetchError::InvalidRedirect => String::from_str("ERROR: Invalid redirect"),
            FetchError::TooManyRedirects => String::from_str("ERROR: too many redirects"),
            FetchError::UnsupportedOperation => String::from_str(
                "ERROR: sensitive input is not supported",
            ),
            FetchError::UpstreamFailure(st) => String::from_str(st.to_str()),
        }
    }
}

/// A query starting with the protocol's scheme prefix.
pub open spec fn spec_has_scheme_prefix(s: Seq<char>) -> bool {
    s.len() >= 9 && s.subrange(0, 9) == "gemini://"@
}

/// The query as it is parsed: the scheme prefix is prepended when missing.
pub open spec fn spec_normalized_query(raw: Seq<char>) -> Seq<char> {
    if spec_has_scheme_prefix(raw) {
        raw
    } else {
        "gemini://"@ + raw
    }
}

/// The target an address string yields: its host, its port or the default,
/// and its path; `None` when it does not parse to a URL with a host.
pub open spec fn spec_target_of_address(addr: Seq<char>) -> Option<(Seq<char>, u16, Seq<char>)> {
    match url_parts(addr) {
        Some(p) => Some(
            (p.1, match p.2 {
                Some(pt) => pt,
                None => DEFAULT_PORT,
            }, p.3),
        ),
        None => None,
    }
}

/// Whether the query starts with the scheme prefix, as
/// `spec_has_scheme_prefix` states it.
fn has_scheme_prefix(s: &str) -> (r: bool)
    ensures
        r == spec_has_scheme_prefix(s@),
{
    let n = s.unicode_len();
    if n < 9 {
        proof {
            reveal_strlit("gemini://");
        }
        return false;
    }
    let r = s.get_char(0) == 'g' && s.get_char(1) == 'e' && s.get_char(2) == 'm'
        && s.get_char(3) == 'i' && s.get_char(4) == 'n' && s.get_char(5) == 'i'
        && s.get_char(6) == ':' && s.get_char(7) == '/' && s.get_char(8) == '/';
    proof {
        reveal_strlit("gemini://");
        let pre = s@.subrange(0, 9);
        assert(pre.len() == 9);
        assert(pre[0] == s@[0] && pre[1] == s@[1] && pre[2] == s@[2] && pre[3] == s@[3]
            && pre[4] == s@[4] && pre[5] == s@[5] && pre[6] == s@[6] && pre[7] == s@[7]
            && pre[8] == s@[8]);
        if r {
            assert(pre =~= "gemini://"@);
        }
    }
    r
}

/// Validate and normalize a query into the first fetch state.  An empty
/// query is refused at once, before any work; a query that does not parse to
/// an address with a host is a bad URL; otherwise the target is the
/// address's host and path, on the named port or the default one, with no
/// redirect hops taken yet.
pub fn fetch_begin(raw_address: &str) -> (r: Result<FetchState, FetchError>)
    ensures
        raw_address@.len() == 0 <==> r matches Err(FetchError::EmptyQuery),
        raw_address@.len() > 0 ==> match spec_target_of_address(spec_normalized_query(raw_address@)) {
            Some(t) => r matches Ok(s) && s.target.host@ == t.0 && s.target.port == t.1
                && s.target.path@ == t.2 && s.redirects == 0,
            None => r matches Err(FetchError::BadUrl),
        },
{
    let n = raw_address.unicode_len();
    if n == 0 {
        return Err(FetchError::EmptyQuery);
    }
    let with_scheme: String = if has_scheme_prefix(raw_address) {
        String::from_str(raw_address)
    } else {
        String::from_str("gemini://").concat(raw_address)
    };
    match parse_url_parts(with_scheme.as_str()) {
        Some(p) => {
            let port = match p.2 {
                Some(pt) => pt,
                None => DEFAULT_PORT,
            };
            Ok(FetchState { target: FetchTarget { host: p.1, port, path: p.3 }, redirects: 0 })
        },
        None => Err(FetchError::BadUrl),
    }
}

impl FetchTarget {
    /// The single request line sent for this target: the scheme prefix, the
    /// host and path, and the line terminator.  The port steers only the
    /// transport connection and is not part of the line.
    pub fn request_line(&self) -> (r: String)
        ensures
            r@ == "gemini://"@ + self.host@ + self.path@ + "\r\n"@,
    {
        let mut out = String::from_str("gemini://");
        out.append(self.host.as_str());
        out.append(self.path.as_str());
        out.append("\r\n");
        proof {
            assert(out@ =~= "gemini://"@ + self.host@ + self.path@ + "\r\n"@);
        }
        out
    }
}

/// The reply bytes a transport attempt produced, if it produced any.
pub open spec fn spec_reply_view(reply: Option<Vec<u8>>) -> Option<Seq<u8>> {
    match reply {
        Some(b) => Some(b@),
        None => None,
    }
}

/// The redirect counter the loop continues with after one step, or `None`
/// when the step ends the loop (by success or by failure).  The loop
/// continues only for an input-required reply — re-issuing the identical
/// request, hops unchanged — or for a redirect within the budget whose meta
/// text is an address.
pub open spec fn spec_step_redirects(redirects: u8, reply: Option<Seq<u8>>) -> Option<u8> {
    match reply {
        None => None,
        Some(b) => match spec_frame_decode(b) {
            Ok((st, meta, body)) => if st is Input {
                Some(redirects)
            } else if st.spec_is_redirect() && redirects < REDIRECT_BUDGET
                && spec_target_of_address(lossy_decode(meta)) is Some {
                Some((redirects + 1) as u8)
            } else {
                None
            },
            Err(_) => None,
        },
    }
}

/// Consume one transport reply and decide what the loop does next.
///
/// A missing reply is a transport failure.  A reply that does not decode
/// fails with the decoder's reason.  An input-required status re-issues the
/// identical request (collecting input is not supported, so the retry is
/// stated here explicitly rather than hidden); a sensitive-input status is
/// refused as unsupported.  A redirect past the budget fails — the reply
/// after the budget's last hop is answered with `TooManyRedirects` whatever
/// its meta text says; within the budget, the redirect's address replaces
/// the target wholesale and the hop counter advances.  A success renders the
/// body, decoded leniently as UTF-8, for the host that served it.  Every
/// other status is terminal and surfaces as an upstream failure carrying
/// that status.
pub fn fetch_step(state: FetchState, reply: Option<Vec<u8>>) -> (r: FetchStep)
    ensures
        reply is None ==> r matches FetchStep::Fail(FetchError::ConnectionFailed),
        reply matches Some(buf) ==> match spec_frame_decode(buf@) {
            Err(de) => r matches FetchStep::Fail(e) && e == FetchError::Decode(de),
            Ok((st, meta, body)) => {
                &&& st is Input ==> (r matches FetchStep::Request(s2) && s2 == state)
                &&& st is SensitiveInput ==> (r matches FetchStep::Fail(
                    FetchError::UnsupportedOperation,
                ))
                &&& (st.spec_is_redirect() && state.redirects >= REDIRECT_BUDGET) ==> (r matches FetchStep::Fail(
                    FetchError::TooManyRedirects,
                ))
                &&& (st.spec_is_redirect() && state.redirects < REDIRECT_BUDGET) ==> (match spec_target_of_address(
                    lossy_decode(meta),
                ) {
                    Some(t) => r matches FetchStep::Request(s2) && s2.target.host@ == t.0
                        && s2.target.port == t.1 && s2.target.path@ == t.2 && s2.redirects
                        == state.redirects + 1,
                    None => r matches FetchStep::Fail(FetchError::InvalidRedirect),
                })
                &&& st is Success ==> (r matches FetchStep::Done(html) && html@
                    == spec_render_document(lossy_decode(body), state.target.host@))
                &&& st.spec_is_terminal_failure() ==> (r matches FetchStep::Fail(e) && e
                    == FetchError::UpstreamFailure(st))
            },
        },
        r matches FetchStep::Request(s2) ==> spec_step_redirects(
            state.redirects,
            spec_reply_view(reply),
        ) == Some(s2.redirects),
{
    let buf = match reply {
        Some(b) => b,
        None => {
            return FetchStep::Fail(FetchError::ConnectionFailed);
        },
    };
    let resp = match decode_response(&buf) {
        Ok(resp) => resp,
        Err(de) => {
            return FetchStep::Fail(FetchError::Decode(de));
        },
    };
    match resp.status {
        GeminiStatus::Input => FetchStep::Request(state),
        GeminiStatus::SensitiveInput => FetchStep::Fail(FetchError::UnsupportedOperation),
        GeminiStatus::TemporaryRedirect | GeminiStatus::PermanentRedirect => {
            if state.redirects >= REDIRECT_BUDGET {
                return FetchStep::Fail(FetchError::TooManyRedirects);
            }
            match parse_url_parts(resp.info.as_str()) {
                Some(p) => {
                    let port = match p.2 {
                        Some(pt) => pt,
                        None => DEFAULT_PORT,
                    };
                    FetchStep::Request(
                        FetchState {
                            target: FetchTarget { host: p.1, port, path: p.3 },
                            redirects: state.redirects + 1,
                        },
                    )
                },
                None => FetchStep::Fail(FetchError::InvalidRedirect),
            }
        },
        GeminiStatus::Success => {
            let document = bytes_to_string_lossy(&resp.body);
            let html = parse_document_to_gems(&document, state.target.host.as_str());
            FetchStep::Done(html)
        },
        _ => FetchStep::Fail(FetchError::UpstreamFailure(resp.status)),
    }
}

/// A reply that decodes to a redirect status.
pub open spec fn spec_is_redirect_reply(reply: Option<Seq<u8>>) -> bool {
    reply matches Some(b) && spec_frame_decode(b) matches Ok((st, meta, body))
        && st.spec_is_redirect()
}

/// The redirect counter after following the loop through a whole run of
/// replies, or `None` once some step has ended the loop.
pub open spec fn spec_drive_redirects(redirects: u8, replies: Seq<Option<Seq<u8>>>) -> Option<u8>
    decreases replies.len(),
{
    if replies.len() == 0 {
        Some(redirects)
    } else {
        match spec_step_redirects(redirects, replies[0]) {
            None => None,
            Some(r2) => spec_drive_redirects(r2, replies.skip(1)),
        }
    }
}

/// The redirect loop terminates within the budget: however long a server
/// keeps answering with redirects, a run of more than `15 - redirects`
/// further redirect replies has ended the loop — each hop within the budget
/// advances the counter, and the step at the exhausted budget continues
/// nothing (`fetch_step` answers it with `TooManyRedirects`).  In
/// particular, from a fresh fetch the sixteenth consecutive redirect can
/// never be followed.
pub proof fn lemma_redirect_budget(redirects: u8, replies: Seq<Option<Seq<u8>>>)
    requires
        redirects <= REDIRECT_BUDGET,
        replies.len() > REDIRECT_BUDGET - redirects,
        forall|k: int| 0 <= k < replies.len() ==> spec_is_redirect_reply(#[trigger] replies[k]),
    ensures
        spec_drive_redirects(redirects, replies) is None,
    decreases replies.len(),
{
    assert(replies.len() > 0);
    assert(spec_is_redirect_reply(replies[0]));
    match spec_step_redirects(redirects, replies[0]) {
        None => {},
        Some(r2) => {
            assert(r2 == redirects + 1);
            lemma_redirect_budget(r2, replies.skip(1));
        },
    }
}

} // verus!
