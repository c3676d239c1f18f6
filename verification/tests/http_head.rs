use weavelit_server::http_head::{
    canonical_content_length, classify_completed_request_line, content_length_digits,
    declared_request_body_length, parse_http_request, raw_header_section_bytes,
    request_head_from_raw, request_line_has_non_get_method, HeadReader, HeadStep, HeaderField,
    ParsedRequestHead, RawHead,
    RequestLineClassification, RequestLineState, RequestReadError,
};

fn read_head(bytes: &[u8]) -> Option<Result<ParsedRequestHead, RequestReadError>> {
    let mut reader = HeadReader::new();
    for byte in bytes {
        match reader.push(*byte) {
            HeadStep::Pending => {}
            HeadStep::Incomplete(error) => return Some(Err(error)),
            HeadStep::Completed(result) => return Some(result),
        }
    }
    None
}

fn field(name: &str, value: &str) -> HeaderField {
    HeaderField { name: name.as_bytes().to_vec(), value: value.as_bytes().to_vec() }
}

#[test]
fn request_header_bound_preserves_raw_header_bytes() {
    let bytes = format!(
        "GET / HTTP/1.1\r\nX-Bound: {}value\r\n\r\n",
        " ".repeat(8 * 1024)
    );
    assert!(raw_header_section_bytes(bytes.as_bytes()).unwrap() > 8 * 1024);
    assert!(matches!(
        parse_http_request(bytes.as_bytes(), RequestLineClassification::Get),
        Err(RequestReadError::HeadersTooLarge)
    ));
}

#[test]
fn raw_header_bytes_exclude_the_request_line_and_final_crlf() {
    assert_eq!(raw_header_section_bytes(b"GET / HTTP/1.1\r\nA: b\r\n\r\n"), Ok(6));
    assert_eq!(raw_header_section_bytes(b"GET / HTTP/1.1\r\n\r\n"), Ok(0));
    assert_eq!(raw_header_section_bytes(b"GET / HTTP/1.1"), Err(RequestReadError::Invalid));
}

#[test]
fn request_lines_are_classified_by_method_and_version() {
    assert_eq!(classify_completed_request_line(b"GET / HTTP/1.1\r\n"), RequestLineClassification::Get);
    assert_eq!(classify_completed_request_line(b"PUT /api HTTP/1.0\r\n"), RequestLineClassification::Put);
    assert_eq!(classify_completed_request_line(b"DELETE / HTTP/1.1\r\n"), RequestLineClassification::OtherMethod);
    assert_eq!(classify_completed_request_line(b"GET / HTTP/2.0\r\n"), RequestLineClassification::Invalid);
    assert_eq!(classify_completed_request_line(b"GET  / HTTP/1.1\r\n"), RequestLineClassification::Invalid);
    assert_eq!(classify_completed_request_line(b"GET / HTTP/1.1"), RequestLineClassification::Invalid);
    assert_eq!(classify_completed_request_line(b"G@T / HTTP/1.1\r\n"), RequestLineClassification::Invalid);
}

#[test]
fn a_partial_line_with_another_method_is_not_allowed() {
    assert!(request_line_has_non_get_method(b"DELETE /very"));
    assert!(!request_line_has_non_get_method(b"GET /very"));
    assert!(!request_line_has_non_get_method(b"G@T /x"));
}

#[test]
fn the_request_line_state_follows_the_bytes() {
    let mut state = RequestLineState::Method;
    let line = b"GET / HTTP/1.1\r\n";
    for (index, byte) in line.iter().enumerate() {
        assert!(!state.observe(*byte, &line[..=index]));
    }
    assert_eq!(state, RequestLineState::Headers(RequestLineClassification::Get));
    assert_eq!(state.completed_classification(), RequestLineClassification::Get);
    assert_eq!(state.limit_error(line), RequestReadError::HeadersTooLarge);
}

#[test]
fn an_overlong_target_is_reported_as_too_long() {
    let mut state = RequestLineState::Target(2048);
    assert!(state.observe(b'a', b"GET /"));
    assert_eq!(state.limit_error(b"GET /"), RequestReadError::TargetTooLong);
    assert_eq!(state.completed_classification(), RequestLineClassification::Invalid);
}

#[test]
fn content_length_values_are_plain_decimal() {
    assert_eq!(content_length_digits(b"12"), Some(12));
    assert_eq!(content_length_digits(b"0012"), Some(12));
    assert_eq!(content_length_digits(b""), None);
    assert_eq!(content_length_digits(b"+1"), None);
    assert_eq!(canonical_content_length(b"12"), Some(12));
    assert_eq!(canonical_content_length(b"0"), Some(0));
    assert_eq!(canonical_content_length(b"012"), None);
}

#[test]
fn only_put_declares_a_body_within_its_bound() {
    let put = b"PUT".to_vec();
    let get = b"GET".to_vec();
    assert_eq!(declared_request_body_length(&put, &vec![field("content-length", "10")], 1024), Ok(Some(10)));
    assert_eq!(
        declared_request_body_length(&put, &vec![field("content-length", "1025")], 1024),
        Err(RequestReadError::Invalid)
    );
    assert_eq!(declared_request_body_length(&put, &vec![], 1024), Err(RequestReadError::Invalid));
    assert_eq!(
        declared_request_body_length(&put, &vec![field("content-length", "1"), field("content-length", "1")], 1024),
        Err(RequestReadError::Invalid)
    );
    assert_eq!(declared_request_body_length(&get, &vec![], 1024), Ok(None));
    assert_eq!(declared_request_body_length(&get, &vec![field("content-length", "0")], 1024), Ok(None));
    assert_eq!(
        declared_request_body_length(&get, &vec![field("content-length", "3")], 1024),
        Err(RequestReadError::Invalid)
    );
    assert_eq!(
        declared_request_body_length(&put, &vec![field("content-length", "1"), field("transfer-encoding", "chunked")], 1024),
        Err(RequestReadError::Invalid)
    );
    assert_eq!(
        declared_request_body_length(&get, &vec![field("expect", "100-continue")], 1024),
        Err(RequestReadError::Invalid)
    );
}

#[test]
fn the_head_reader_completes_a_valid_head() {
    let parsed = read_head(b"GET /status HTTP/1.1\r\nHost: 127.0.0.1\r\n\r\n")
        .expect("the head completes")
        .ok()
        .expect("the head parses");
    assert_eq!(parsed.method, b"GET".to_vec());
    assert_eq!(parsed.target, b"/status".to_vec());
    assert_eq!(parsed.headers.len(), 1);
    assert_eq!(parsed.headers[0].name, b"host".to_vec());
    assert_eq!(parsed.headers[0].value, b"127.0.0.1".to_vec());
}

#[test]
fn the_head_reader_refuses_a_bare_line_feed_at_once() {
    assert_eq!(read_head(b"GET / HTTP/1.1\n").map(|r| r.err()), Some(Some(RequestReadError::Invalid)));
}

#[test]
fn the_head_reader_stops_at_its_bound() {
    let mut head = b"GET /".to_vec();
    head.extend(std::iter::repeat(b'a').take(16 * 1024));
    let outcome = read_head(&head).expect("the bound ends the read");
    assert_eq!(outcome.err(), Some(RequestReadError::TargetTooLong));

    let mut headers = b"GET / HTTP/1.1\r\nX: ".to_vec();
    headers.extend(std::iter::repeat(b'a').take(16 * 1024));
    let outcome = read_head(&headers).expect("the bound ends the read");
    assert_eq!(outcome.err(), Some(RequestReadError::HeadersTooLarge));
}

#[test]
fn the_head_reader_reports_another_method_at_its_bound() {
    let mut head = b"DELETE / HTTP/1.1\r\nX: ".to_vec();
    head.extend(std::iter::repeat(b'a').take(16 * 1024));
    assert_eq!(read_head(&head).expect("bounded").err(), Some(RequestReadError::MethodNotAllowed));
}

#[test]
fn an_invalid_request_line_fails_the_completed_head() {
    assert_eq!(
        read_head(b"GET / HTTP/3\r\nHost: x\r\n\r\n").expect("completes").err(),
        Some(RequestReadError::Invalid)
    );
}

#[test]
fn a_reported_head_becomes_the_request_head() {
    let raw = RawHead {
        method: Some(b"PUT".to_vec()),
        target: Some(b"/api/restore".to_vec()),
        headers: vec![field("Content-Length", "4")],
    };
    let head = request_head_from_raw(Some(raw), RequestLineClassification::Put)
        .ok()
        .expect("a valid head");
    assert_eq!(head.headers[0].name, b"content-length".to_vec());
    assert_eq!(head.headers[0].value, b"4".to_vec());

    assert_eq!(request_head_from_raw(None, RequestLineClassification::Get).err(), Some(RequestReadError::Invalid));
    let bad_value = RawHead {
        method: Some(b"GET".to_vec()),
        target: Some(b"/".to_vec()),
        headers: vec![HeaderField { name: b"x".to_vec(), value: vec![0x7f] }],
    };
    assert_eq!(
        request_head_from_raw(Some(bad_value), RequestLineClassification::Get).err(),
        Some(RequestReadError::Invalid)
    );
    let long_target = RawHead { method: Some(b"GET".to_vec()), target: Some(vec![b'/'; 2049]), headers: vec![] };
    assert_eq!(
        request_head_from_raw(Some(long_target), RequestLineClassification::Get).err(),
        Some(RequestReadError::TargetTooLong)
    );
    let unclassified = RawHead { method: Some(b"GET".to_vec()), target: Some(b"/".to_vec()), headers: vec![] };
    assert_eq!(
        request_head_from_raw(Some(unclassified), RequestLineClassification::Invalid).err(),
        Some(RequestReadError::Invalid)
    );
}

#[test]
fn a_stream_that_ends_before_the_head_is_invalid() {
    let mut reader = HeadReader::new();
    for byte in b"GET /api/v1/status HTTP/1.1\r\n" {
        assert!(matches!(reader.push(*byte), HeadStep::Pending));
    }
    assert!(matches!(reader.stream_ended(), HeadStep::Incomplete(RequestReadError::Invalid)));
}

#[test]
fn header_names_are_lower_cased_token_characters() {
    let head_with = |name: Vec<u8>| RawHead {
        method: Some(b"GET".to_vec()),
        target: Some(b"/".to_vec()),
        headers: vec![HeaderField { name, value: b"v".to_vec() }],
    };
    let custom = request_head_from_raw(Some(head_with(b"X-Pad_~!".to_vec())), RequestLineClassification::Get)
        .ok()
        .expect("token characters are accepted");
    assert_eq!(custom.headers[0].name, b"x-pad_~!".to_vec());
    // Past the crate's short-name buffer the same mapping applies.
    let mut long_name = vec![b'A'; 70];
    long_name.push(b'z');
    let long = request_head_from_raw(Some(head_with(long_name)), RequestLineClassification::Get)
        .ok()
        .expect("a long token name is accepted");
    let mut expected = vec![b'a'; 70];
    expected.push(b'z');
    assert_eq!(long.headers[0].name, expected);
    for refused in [b"x\"y".to_vec(), b"x y".to_vec(), Vec::new(), vec![b'a'; 65536]] {
        assert_eq!(
            request_head_from_raw(Some(head_with(refused)), RequestLineClassification::Get).err(),
            Some(RequestReadError::Invalid)
        );
    }
}
