use traceix::client::upload_file_name;
use traceix::errors::{HttpFailure, TraceixError};
use traceix::json::encode_one_field;
use traceix::response::handle_response;

#[test]
fn encode_escapes_quotes_and_backslashes() {
    let b = encode_one_field(b"k", b"a\"b\\c");
    assert_eq!(b, b"{\"k\":\"a\\\"b\\\\c\"}".to_vec());
}

#[test]
fn encode_escapes_short_form_controls() {
    let b = encode_one_field(b"k", b"\x08\t\n\x0c\r");
    assert_eq!(b, b"{\"k\":\"\\b\\t\\n\\f\\r\"}".to_vec());
}

#[test]
fn encode_escapes_other_controls_as_hex() {
    let b = encode_one_field(b"k", b"\x00\x1f");
    assert_eq!(b, b"{\"k\":\"\\u0000\\u001f\"}".to_vec());
}

#[test]
fn encode_passes_multibyte_utf8_through() {
    let b = encode_one_field("k".as_bytes(), "héllo✓".as_bytes());
    assert_eq!(b, "{\"k\":\"héllo✓\"}".as_bytes().to_vec());
}

#[test]
fn encode_matches_the_reference_encoder() {
    let cases: Vec<String> = vec![
        "plain".to_string(),
        "with \"quotes\" and \\slashes\\".to_string(),
        "tabs\tnewlines\nand \x01 control".to_string(),
        "ünïcode ✓".to_string(),
        String::new(),
    ];
    for v in cases {
        let ours = encode_one_field(b"uuid", v.as_bytes());
        let mut m = serde_json::Map::new();
        m.insert("uuid".to_string(), serde_json::Value::String(v.clone()));
        let reference = serde_json::to_vec(&serde_json::Value::Object(m)).unwrap();
        assert_eq!(ours, reference);
    }
}

#[test]
fn upload_file_name_takes_final_component() {
    assert_eq!(upload_file_name("/tmp/data/sample.bin"), "sample.bin");
    assert_eq!(upload_file_name("relative.txt"), "relative.txt");
}

#[test]
fn upload_file_name_falls_back_to_file() {
    assert_eq!(upload_file_name(""), "file");
    assert_eq!(upload_file_name("/tmp/dir/"), "file");
    assert_eq!(upload_file_name("/tmp/.."), "file");
    assert_eq!(upload_file_name("."), "file");
}

#[test]
fn successful_response_decodes_to_its_json_value() {
    let r = handle_response(200, b"{\"make\":\"Canon\"}").unwrap();
    let expected: serde_json::Value = serde_json::from_str("{\"make\":\"Canon\"}").unwrap();
    assert_eq!(r, expected);
}

#[test]
fn any_success_status_in_range_is_accepted() {
    assert!(handle_response(204, b"[1,2,3]").is_ok());
    assert!(handle_response(299, b"null").is_ok());
}

#[test]
fn server_error_status_fails_with_http_kind() {
    let r = handle_response(500, b"{\"make\":\"Canon\"}");
    assert!(matches!(r, Err(TraceixError::Http(HttpFailure::Status(500)))));
}

#[test]
fn client_error_status_fails_with_http_kind() {
    let r = handle_response(404, b"null");
    assert!(matches!(r, Err(TraceixError::Http(HttpFailure::Status(404)))));
}

#[test]
fn invalid_json_body_fails_with_decode_kind() {
    let r = handle_response(200, b"not json at all");
    assert!(matches!(r, Err(TraceixError::Http(HttpFailure::Decode(_)))));
}

#[test]
fn error_messages_name_their_cause() {
    assert_eq!(TraceixError::NoApiKey.message(), "You did not provide an API key");
    assert_eq!(
        TraceixError::NoUuidProvided.message(),
        "You did not provide a UUID required by the endpoint"
    );
    assert_eq!(
        TraceixError::InvalidSearchType.message(),
        "Search must be of type capa or exif"
    );
    assert_eq!(
        TraceixError::Http(HttpFailure::Status(500)).message(),
        "HTTP error: status 500"
    );
    assert_eq!(
        TraceixError::Http(HttpFailure::Transport("timed out".to_string())).message(),
        "HTTP error: timed out"
    );
    assert_eq!(
        TraceixError::Io("no such file".to_string()).message(),
        "IO error: no such file"
    );
}
