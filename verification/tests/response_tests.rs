use gemini_gateway::response::decode_response;
use gemini_gateway::response::encode_response;
use gemini_gateway::response::DecodeError;
use gemini_gateway::response::GeminiResponse;
use gemini_gateway::status::GeminiStatus;

#[test]
fn new_keeps_its_fields() {
    let r = GeminiResponse::new(GeminiStatus::Success, "text/gemini".to_string(), b"body".to_vec());
    assert!(matches!(r.status, GeminiStatus::Success));
    assert_eq!(r.info, "text/gemini");
    assert_eq!(r.body, b"body".to_vec());
}

#[test]
fn decodes_a_success_reply() {
    let buf = b"20 text/gemini\r\nhello".to_vec();
    let r = decode_response(&buf).unwrap();
    assert!(matches!(r.status, GeminiStatus::Success));
    assert_eq!(r.info, "text/gemini");
    assert_eq!(r.body, b"hello".to_vec());
}

#[test]
fn decodes_without_the_optional_space() {
    let buf = b"51nope\r\n".to_vec();
    let r = decode_response(&buf).unwrap();
    assert!(matches!(r.status, GeminiStatus::NotFound));
    assert_eq!(r.info, "nope");
    assert_eq!(r.body, Vec::<u8>::new());
}

#[test]
fn short_buffer_is_a_malformed_status_line() {
    assert_eq!(decode_response(&b"20\r".to_vec()).unwrap_err(), DecodeError::MalformedStatusLine);
    assert_eq!(decode_response(&Vec::new()).unwrap_err(), DecodeError::MalformedStatusLine);
}

#[test]
fn non_digit_status_is_a_malformed_status_line() {
    assert_eq!(
        decode_response(&b"ab meta\r\n".to_vec()).unwrap_err(),
        DecodeError::MalformedStatusLine
    );
}

#[test]
fn unknown_code_is_refused_not_defaulted() {
    assert_eq!(decode_response(&b"99 what\r\n".to_vec()).unwrap_err(), DecodeError::UnknownStatus);
    assert_eq!(decode_response(&b"21 what\r\n".to_vec()).unwrap_err(), DecodeError::UnknownStatus);
}

#[test]
fn missing_crlf_is_a_missing_terminator() {
    assert_eq!(
        decode_response(&b"20 text/gemini".to_vec()).unwrap_err(),
        DecodeError::MissingTerminator
    );
    // a lone carriage return does not terminate the status line
    assert_eq!(
        decode_response(&b"20 meta\rbody".to_vec()).unwrap_err(),
        DecodeError::MissingTerminator
    );
}

#[test]
fn body_is_kept_verbatim_even_for_failures() {
    let buf = b"40 busy\r\nunconstrained body \xff bytes".to_vec();
    let r = decode_response(&buf).unwrap();
    assert!(matches!(r.status, GeminiStatus::TemporaryFailure));
    assert_eq!(r.info, "busy");
    assert_eq!(r.body, b"unconstrained body \xff bytes".to_vec());
}

#[test]
fn round_trip_recovers_the_triple() {
    let meta = b"gemini://example.org/next".to_vec();
    let body = b"line one\nline two".to_vec();
    let encoded = encode_response(GeminiStatus::TemporaryRedirect, &meta, &body);
    assert_eq!(encoded, b"30 gemini://example.org/next\r\nline one\nline two".to_vec());
    let r = decode_response(&encoded).unwrap();
    assert!(matches!(r.status, GeminiStatus::TemporaryRedirect));
    assert_eq!(r.info, "gemini://example.org/next");
    assert_eq!(r.body, body);
}

#[test]
fn round_trip_with_empty_meta_and_body() {
    let encoded = encode_response(GeminiStatus::Success, &Vec::new(), &Vec::new());
    assert_eq!(encoded, b"20 \r\n".to_vec());
    let r = decode_response(&encoded).unwrap();
    assert!(matches!(r.status, GeminiStatus::Success));
    assert_eq!(r.info, "");
    assert_eq!(r.body, Vec::<u8>::new());
}

#[test]
fn round_trip_with_a_lone_carriage_return_in_meta() {
    // a CR that is not followed by LF may stand in the meta text
    let meta = b"odd\rmeta".to_vec();
    let body = b"b".to_vec();
    let encoded = encode_response(GeminiStatus::Input, &meta, &body);
    let r = decode_response(&encoded).unwrap();
    assert!(matches!(r.status, GeminiStatus::Input));
    assert_eq!(r.info, "odd\rmeta");
    assert_eq!(r.body, body);
}

#[test]
fn meta_with_invalid_utf8_is_replaced_not_fatal() {
    let buf = b"20 me\xffta\r\n".to_vec();
    let r = decode_response(&buf).unwrap();
    assert_eq!(r.info, "me\u{fffd}ta");
}
