use gemini_gateway::fetch::fetch_begin;
use gemini_gateway::fetch::fetch_step;
use gemini_gateway::fetch::FetchError;
use gemini_gateway::fetch::FetchStep;
use gemini_gateway::response::DecodeError;
use gemini_gateway::status::GeminiStatus;

#[test]
fn empty_query_is_refused_before_any_work() {
    assert_eq!(fetch_begin("").unwrap_err(), FetchError::EmptyQuery);
    assert_eq!(FetchError::EmptyQuery.message(), "ERROR: empty search");
}

#[test]
fn begin_normalizes_the_scheme_and_port() {
    let s = fetch_begin("geminiprotocol.net/docs/").unwrap();
    assert_eq!(s.target.host, "geminiprotocol.net");
    assert_eq!(s.target.port, 1965);
    assert_eq!(s.target.path, "/docs/");
    assert_eq!(s.redirects, 0);

    let t = fetch_begin("gemini://example.org:1900/x").unwrap();
    assert_eq!(t.target.host, "example.org");
    assert_eq!(t.target.port, 1900);
    assert_eq!(t.target.path, "/x");
}

#[test]
fn begin_rejects_an_unparseable_address() {
    // the port does not fit, so the address cannot parse
    assert_eq!(fetch_begin("example.org:99999/x").unwrap_err(), FetchError::BadUrl);
}

#[test]
fn request_line_carries_scheme_host_path_and_terminator() {
    let s = fetch_begin("gemini://example.org/foo").unwrap();
    assert_eq!(s.target.request_line(), "gemini://example.org/foo\r\n");
}

#[test]
fn transport_failure_fails_the_whole_fetch() {
    let s = fetch_begin("example.org").unwrap();
    match fetch_step(s, None) {
        FetchStep::Fail(e) => {
            assert_eq!(e, FetchError::ConnectionFailed);
            assert_eq!(e.message(), "ERROR: connection fail");
        }
        _ => panic!("a missing reply must fail the fetch"),
    }
}

#[test]
fn success_renders_the_body_for_the_serving_host() {
    let s = fetch_begin("example.org").unwrap();
    let reply = b"20 text/gemini\r\n# Hello\n=> /foo.gmi Foo".to_vec();
    match fetch_step(s, Some(reply)) {
        FetchStep::Done(html) => {
            assert_eq!(html, "<h1>Hello</h1><a href=\"?search=example.org/foo.gmi\">Foo</a><br>");
        }
        _ => panic!("a success reply must finish the fetch"),
    }
}

#[test]
fn invalid_body_bytes_are_replaced_never_fatal() {
    let s = fetch_begin("example.org").unwrap();
    let mut reply = b"20 ok\r\n".to_vec();
    reply.extend_from_slice(&[0xff, b'a']);
    match fetch_step(s, Some(reply)) {
        FetchStep::Done(html) => assert_eq!(html, "<p>\u{fffd}a</p>"),
        _ => panic!("a success reply must finish the fetch"),
    }
}

#[test]
fn a_redirect_replaces_the_whole_target() {
    let s = fetch_begin("example.org/start").unwrap();
    let reply = b"31 gemini://other.net:1900/x\r\n".to_vec();
    match fetch_step(s, Some(reply)) {
        FetchStep::Request(s2) => {
            assert_eq!(s2.target.host, "other.net");
            assert_eq!(s2.target.port, 1900);
            assert_eq!(s2.target.path, "/x");
            assert_eq!(s2.redirects, 1);
        }
        _ => panic!("a redirect within the budget must continue the fetch"),
    }
}

#[test]
fn a_redirect_without_a_port_gets_the_default() {
    let s = fetch_begin("example.org").unwrap();
    match fetch_step(s, Some(b"30 gemini://other.net/y\r\n".to_vec())) {
        FetchStep::Request(s2) => {
            assert_eq!(s2.target.host, "other.net");
            assert_eq!(s2.target.port, 1965);
            assert_eq!(s2.target.path, "/y");
        }
        _ => panic!("a temporary redirect must continue the fetch"),
    }
}

#[test]
fn an_unparseable_redirect_is_an_invalid_redirect() {
    let s = fetch_begin("example.org").unwrap();
    match fetch_step(s, Some(b"31 \r\n".to_vec())) {
        FetchStep::Fail(e) => {
            assert_eq!(e, FetchError::InvalidRedirect);
            assert_eq!(e.message(), "ERROR: Invalid redirect");
        }
        _ => panic!("an empty redirect address must fail"),
    }
}

#[test]
fn the_sixteenth_redirect_is_too_many() {
    let mut state = fetch_begin("example.org").unwrap();
    let reply = b"31 gemini://example.org/loop\r\n".to_vec();
    for hop in 1..=15u8 {
        match fetch_step(state, Some(reply.clone())) {
            FetchStep::Request(s2) => {
                assert_eq!(s2.redirects, hop);
                state = s2;
            }
            _ => panic!("redirect within the budget must be followed"),
        }
    }
    match fetch_step(state, Some(reply)) {
        FetchStep::Fail(e) => {
            assert_eq!(e, FetchError::TooManyRedirects);
            assert_eq!(e.message(), "ERROR: too many redirects");
        }
        _ => panic!("the sixteenth redirect must exhaust the budget"),
    }
}

#[test]
fn input_required_reissues_the_identical_request() {
    let s = fetch_begin("example.org/q").unwrap();
    match fetch_step(s, Some(b"10 Give me a word\r\n".to_vec())) {
        FetchStep::Request(s2) => {
            assert_eq!(s2.target.host, "example.org");
            assert_eq!(s2.target.path, "/q");
            assert_eq!(s2.redirects, 0);
        }
        _ => panic!("input required must retry the same request"),
    }
}

#[test]
fn sensitive_input_is_unsupported() {
    let s = fetch_begin("example.org").unwrap();
    match fetch_step(s, Some(b"11 password\r\n".to_vec())) {
        FetchStep::Fail(e) => {
            assert_eq!(e, FetchError::UnsupportedOperation);
            assert_eq!(e.message(), "ERROR: sensitive input is not supported");
        }
        _ => panic!("sensitive input must be refused"),
    }
}

#[test]
fn terminal_statuses_surface_their_label() {
    let s = fetch_begin("example.org").unwrap();
    match fetch_step(s, Some(b"51 gone away\r\n".to_vec())) {
        FetchStep::Fail(e) => {
            assert_eq!(e, FetchError::UpstreamFailure(GeminiStatus::NotFound));
            assert_eq!(e.message(), "not found");
        }
        _ => panic!("a terminal status must fail the fetch"),
    }
}

#[test]
fn an_undecodable_reply_fails_with_the_reason() {
    let s = fetch_begin("example.org").unwrap();
    match fetch_step(s, Some(b"99 strange\r\n".to_vec())) {
        FetchStep::Fail(e) => {
            assert_eq!(e, FetchError::Decode(DecodeError::UnknownStatus));
            assert_eq!(e.message(), "ERROR: bad response");
        }
        _ => panic!("an unknown status must fail the fetch"),
    }
}

#[test]
fn remaining_error_messages_are_fixed() {
    assert_eq!(FetchError::BadUrl.message(), "ERROR: Bad url");
    assert_eq!(
        FetchError::Decode(DecodeError::MissingTerminator).message(),
        "ERROR: bad response"
    );
}
