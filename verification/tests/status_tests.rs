use gemini_gateway::status::GeminiStatus;

#[test]
fn decode_then_label_is_total_over_the_closed_set() {
    let codes: [u8; 18] = [10, 11, 20, 30, 31, 40, 41, 42, 43, 44, 50, 51, 52, 53, 59, 60, 61, 62];
    let labels = [
        "input",
        "sensitive input",
        "success",
        "temporary redirect",
        "permanent redirect",
        "temporary failure",
        "server unavailable",
        "CGI error",
        "proxy error",
        "slow down",
        "permanent failure",
        "not found",
        "gone",
        "proxy request refused",
        "bad request",
        "client certificate required",
        "certificate not authorized",
        "certificate not valid",
    ];
    for (i, code) in codes.iter().enumerate() {
        let status = GeminiStatus::from_u8(*code).expect("code in the closed set must decode");
        assert_eq!(status.to_str(), labels[i]);
        // decoding is stable: the same code gives the same status again
        let again = GeminiStatus::from_u8(*code).unwrap();
        assert_eq!(again.to_str(), labels[i]);
    }
}

#[test]
fn codes_outside_the_set_never_decode() {
    for code in 0u8..=255u8 {
        let in_set = matches!(
            code,
            10 | 11 | 20 | 30 | 31 | 40 | 41 | 42 | 43 | 44 | 50 | 51 | 52 | 53 | 59 | 60 | 61
                | 62
        );
        assert_eq!(GeminiStatus::from_u8(code).is_some(), in_set);
    }
}

#[test]
fn specific_statuses_decode_to_their_variants() {
    assert_eq!(GeminiStatus::from_u8(20), Some(GeminiStatus::Success));
    assert_eq!(GeminiStatus::from_u8(30), Some(GeminiStatus::TemporaryRedirect));
    assert_eq!(GeminiStatus::from_u8(31), Some(GeminiStatus::PermanentRedirect));
    assert_eq!(GeminiStatus::from_u8(51), Some(GeminiStatus::NotFound));
    assert_eq!(GeminiStatus::from_u8(12), None);
    assert_eq!(GeminiStatus::from_u8(21), None);
    assert_eq!(GeminiStatus::from_u8(45), None);
    assert_eq!(GeminiStatus::from_u8(99), None);
}
