use mqtt_node::response::build_response;

#[test]
fn response_fields_echo_inputs() {
    let before = chrono::Utc::now();
    let r = build_response("abc".to_string(), "ok".to_string(), 12);
    assert_eq!(r.packet_id, "abc");
    assert_eq!(r.status, "ok");
    assert_eq!(r.processing_time_ms, 12);
    let at = chrono::DateTime::parse_from_rfc3339(&r.received_at)
        .expect("received_at must be a well-formed RFC 3339 datetime");
    assert!(at.with_timezone(&chrono::Utc) >= before);
}

#[test]
fn response_keeps_empty_status() {
    let r = build_response("id-1".to_string(), String::new(), 0);
    assert_eq!(r.packet_id, "id-1");
    assert_eq!(r.status, "");
    assert_eq!(r.processing_time_ms, 0);
}
