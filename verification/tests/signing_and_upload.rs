use nft_gateway::error::{AppError, SignatureError, UploadError};
use nft_gateway::signing::mock_sign_data;
use nft_gateway::upload::{interpret_upload_body, upload_failure_response, upload_success_response};

const KEY: &str = "4c0883a69102937d6231471b5dbb6204fe512961708279f1d2b1b6b5dd95fbdb";

#[test]
fn sign_rejects_malformed_hex_secret() {
    match mock_sign_data(b"payload", "zz") {
        Err(SignatureError::HexDecodeError(_)) => {}
        _ => panic!("expected a hex decoding error"),
    }
    match mock_sign_data(b"payload", "abc") {
        Err(SignatureError::HexDecodeError(_)) => {}
        _ => panic!("expected a hex decoding error"),
    }
}

#[test]
fn sign_rejects_out_of_range_key() {
    // 64 zeros decode fine but are no valid curve secret.
    let zeros = "0".repeat(64);
    match mock_sign_data(b"payload", &zeros) {
        Err(SignatureError::InvalidKey) => {}
        _ => panic!("expected an invalid-key error"),
    }
    // Well-formed hex of the wrong width is a key-size failure, not a hex one.
    match mock_sign_data(b"payload", "abcd") {
        Err(SignatureError::InvalidKey) => {}
        _ => panic!("expected an invalid-key error"),
    }
}

#[test]
fn sign_produces_deterministic_compact_hex() {
    let sig = mock_sign_data(b"owner:TestToken", KEY).unwrap();
    assert_eq!(sig.len(), 128);
    assert!(sig.chars().all(|c| c.is_ascii_hexdigit() && !c.is_ascii_uppercase()));
    let again = mock_sign_data(b"owner:TestToken", KEY).unwrap();
    assert_eq!(sig, again);
    let other = mock_sign_data(b"owner:OtherToken", KEY).unwrap();
    assert_ne!(sig, other);
}

#[test]
fn signature_errors_map_into_the_taxonomy() {
    match AppError::from_signature_error(SignatureError::HexDecodeError("odd".to_string())) {
        AppError::BadRequest(m) => assert_eq!(m.as_str(), "Invalid hex format"),
        _ => panic!("expected a bad request"),
    }
    match AppError::from_signature_error(SignatureError::InvalidKey) {
        AppError::GenericError(_) => {}
        _ => panic!("expected a generic error"),
    }
}

#[test]
fn error_status_codes() {
    assert_eq!(AppError::BadRequest("x".to_string()).http_status(), 400);
    assert_eq!(AppError::NotFound("x".to_string()).http_status(), 404);
    assert_eq!(AppError::InternalServerError("x".to_string()).http_status(), 500);
    assert_eq!(AppError::Web3Error("x".to_string()).http_status(), 500);
    assert_eq!(AppError::SerdeError("x".to_string()).http_status(), 500);
    assert_eq!(AppError::GenericError("x".to_string()).http_status(), 500);
    assert_eq!(AppError::UploadFailed("x".to_string()).http_status(), 500);
    assert_eq!(AppError::NotFound("gone".to_string()).message().as_str(), "gone");
    let io = UploadError::IoError("disk".to_string());
    assert_eq!(io.http_status(), 500);
    assert_eq!(io.message().as_str(), "Internal server error");
}

#[test]
fn upload_reply_parsing_extracts_hash() {
    let r = interpret_upload_body(true, "{\"Name\":\"token.jpg\",\"Hash\":\"QmABC\",\"Size\":\"42\"}");
    assert!(r.success);
    assert_eq!(r.message.as_str(), "File uploaded to IPFS successfully.");
    assert_eq!(r.token_uri.unwrap().as_str(), "https://ipfs.io/ipfs/QmABC");
}

#[test]
fn upload_reply_without_hash_keeps_bare_prefix() {
    let r = interpret_upload_body(true, "{\"Name\":\"token.jpg\"}");
    assert_eq!(r.token_uri.unwrap().as_str(), "https://ipfs.io/ipfs/");
    let r = interpret_upload_body(true, "this is not json");
    assert_eq!(r.token_uri.unwrap().as_str(), "https://ipfs.io/ipfs/");
}

#[test]
fn failed_upload_reply_reports_failure() {
    let r = interpret_upload_body(false, "ignored");
    assert!(!r.success);
    assert_eq!(r.message.as_str(), "IPFS upload failed.");
    assert!(r.token_uri.is_none());
}

#[test]
fn upload_outcome_builders() {
    let ok = upload_success_response("QmXYZ");
    assert!(ok.success);
    assert_eq!(ok.token_uri.unwrap().as_str(), "https://ipfs.io/ipfs/QmXYZ");
    let bad = upload_failure_response();
    assert!(!bad.success);
    assert!(bad.token_uri.is_none());
}
