use kafka_benchmark::content::{
    content_mode, decode_message, decode_messages, synthetic_payload, CachedMessages,
    ContentError, ContentMode,
};

#[test]
fn cache_handle_keeps_its_path() {
    let cache = CachedMessages::from_file("payloads.cache".to_string());
    assert_eq!(cache.path(), "payloads.cache");
}

#[test]
fn traversal_decodes_lines_in_order_and_is_restartable() {
    let lines = vec!["AA==".to_string(), "QQ==".to_string()];
    let first = decode_messages(&lines).unwrap();
    assert_eq!(first, vec![vec![0x00u8], vec![0x41u8]]);
    let second = decode_messages(&lines).unwrap();
    assert_eq!(first, second);
}

#[test]
fn traversal_fails_on_the_first_bad_line() {
    let lines = vec!["AA==".to_string(), "not base64!".to_string(), "QQ==".to_string()];
    let err = decode_messages(&lines).unwrap_err();
    assert_eq!(err, ContentError::DecodeError(1));
}

#[test]
fn empty_cache_decodes_to_no_payloads() {
    let lines: Vec<String> = Vec::new();
    let payloads = decode_messages(&lines).unwrap();
    assert!(payloads.is_empty());
}

#[test]
fn single_line_decode_matches_the_traversal() {
    assert_eq!(decode_message("QQ==").unwrap(), vec![0x41u8]);
    assert_eq!(decode_message("AA==").unwrap(), vec![0x00u8]);
    assert!(decode_message("not base64!").is_none());
}

#[test]
fn file_backed_content_wins_when_the_cache_is_usable() {
    assert_eq!(content_mode(true), ContentMode::FileBacked);
    assert_eq!(content_mode(false), ContentMode::Synthetic);
}

#[test]
fn synthetic_payload_has_the_configured_size() {
    assert_eq!(synthetic_payload(0).len(), 0);
    assert_eq!(synthetic_payload(16).len(), 16);
    assert_eq!(synthetic_payload(1024).len(), 1024);
}
