use esplora_api::check_status;
use esplora_api::decode_json_response;
use esplora_api::parse_json;
use esplora_api::ApiError;
use esplora_api::EsploraAPI;

#[test]
fn constructs_without_io_and_stores_url_verbatim() {
    // Constructing a client is a pure value operation: it succeeds offline,
    // with no network reachable at all.
    let api = EsploraAPI::new("https://example-explorer/api").unwrap();
    assert_eq!(
        api.request_url("blocks/tip/hash"),
        "https://example-explorer/api/blocks/tip/hash"
    );
}

#[test]
fn request_url_is_exact_concatenation() {
    let api = EsploraAPI::new("http://host").unwrap();
    assert_eq!(api.request_url(""), "http://host/");
    assert_eq!(api.request_url("tx/abc"), "http://host/tx/abc");
}

#[test]
fn tip_hash_body_returned_verbatim() {
    // A stub server answering 200 with this body makes the strict GET return
    // exactly these bytes.
    let body = b"00000000000000000000abc123".to_vec();
    let out = check_status(200, body).unwrap();
    assert_eq!(out, b"00000000000000000000abc123".to_vec());
}

#[test]
fn not_found_reports_code_and_body_text() {
    // A stub server answering 404 with this body makes the strict GET fail
    // with that exact code and the body as diagnostic text.
    let err = check_status(404, b"Transaction not found".to_vec()).unwrap_err();
    match err {
        ApiError::Status { code, text } => {
            assert_eq!(code, 404);
            assert_eq!(text, "Transaction not found");
        }
        other => panic!("expected a status error, got {:?}", other),
    }
}

#[test]
fn error_status_code_is_at_least_400() {
    for code in [400u32, 404, 410, 500, 503] {
        let err = check_status(code, b"oops".to_vec()).unwrap_err();
        assert!(err.code() >= 400);
        assert_eq!(err.code(), code);
    }
}

#[test]
fn same_response_gives_identical_bytes() {
    // The client holds no state between calls: two GETs that observe the same
    // status and body (an unchanged resource) yield identical bytes.
    let first = check_status(200, b"deadbeef".to_vec()).unwrap();
    let second = check_status(200, b"deadbeef".to_vec()).unwrap();
    assert_eq!(first, second);
}

#[test]
fn invalid_utf8_body_is_converted_lossily() {
    let err = check_status(500, vec![0xff, b'h', b'i']).unwrap_err();
    match err {
        ApiError::Status { code, text } => {
            assert_eq!(code, 500);
            assert_eq!(text, "\u{fffd}hi");
        }
        other => panic!("expected a status error, got {:?}", other),
    }
}

#[test]
fn json_body_decodes_with_expected_fields() {
    let body = b"{\"height\": 150000, \"id\": \"abc\"}".to_vec();
    let value = decode_json_response(200, body).unwrap();
    assert_eq!(value.get("height").and_then(|v| v.as_u64()), Some(150000));
    assert_eq!(value.get("id").and_then(|v| v.as_str()), Some("abc"));
}

#[test]
fn decoded_document_is_exactly_the_decoders() {
    let bytes: &[u8] = b"{\"a\": [1, null, \"x\"], \"b\": true}";
    let value = decode_json_response(200, bytes.to_vec()).unwrap();
    let direct: serde_json::Value = serde_json::from_slice(bytes).unwrap();
    assert_eq!(value, direct);
}

#[test]
fn parse_error_carries_the_decoders_message() {
    let bytes: &[u8] = b"{\"a\": 1,";
    let err = parse_json(bytes).unwrap_err();
    let direct = serde_json::from_slice::<serde_json::Value>(bytes).unwrap_err();
    match err {
        ApiError::Parse { message } => assert_eq!(message, format!("{}", direct)),
        other => panic!("expected a parse error, got {:?}", other),
    }
}

#[test]
fn non_json_body_is_a_parse_error_not_a_status_error() {
    let err = decode_json_response(200, b"not json at all".to_vec()).unwrap_err();
    assert!(matches!(err, ApiError::Parse { .. }));
    assert!(!matches!(err, ApiError::Status { .. }));
    assert_eq!(err.code(), 400);
}

#[test]
fn non_success_status_wins_even_over_a_json_body() {
    let err = decode_json_response(404, b"{\"error\": \"missing\"}".to_vec()).unwrap_err();
    match err {
        ApiError::Status { code, text } => {
            assert_eq!(code, 404);
            assert_eq!(text, "{\"error\": \"missing\"}");
        }
        other => panic!("expected a status error, got {:?}", other),
    }
}

#[test]
fn parse_json_accepts_exactly_well_formed_documents() {
    assert!(parse_json(b"{\"a\": [1, 2, 3]}").is_ok());
    assert!(parse_json(b"[]").is_ok());
    assert!(parse_json(b"42").is_ok());
    let err = parse_json(b"{\"a\":").unwrap_err();
    assert!(matches!(err, ApiError::Parse { .. }));
}

#[test]
fn transport_and_config_errors_carry_no_status_code() {
    let transport = ApiError::Transport {
        message: String::from("could not resolve host"),
    };
    assert_eq!(transport.code(), 0);
    assert_eq!(transport.text(), "could not resolve host");
    let config = ApiError::Config {
        message: String::from("bad target"),
    };
    assert_eq!(config.code(), 0);
}

#[test]
fn building_a_handle_performs_no_request() {
    // Configuring a transport handle for a target succeeds offline: nothing
    // is sent until the handle is driven.
    let api = EsploraAPI::new("https://example-explorer/api").unwrap();
    assert!(api.client("blocks/tip/hash").is_ok());
    assert!(api.client_post("tx", b"0200aabb").is_ok());
}

#[test]
fn refused_target_is_a_config_error() {
    // An interior NUL byte cannot be stored as a transport target.
    let api = EsploraAPI::new("https://example-explorer/api").unwrap();
    let err = api.client("tx\u{0}bad").unwrap_err();
    assert!(matches!(err, ApiError::Config { .. }));
}
