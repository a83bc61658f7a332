use mqtt_node::packet::parse_packet;
use mqtt_node::value::StructuredValue;

fn obj(entries: Vec<(&str, StructuredValue)>) -> StructuredValue {
    StructuredValue::Obj(
        entries.into_iter().map(|(k, v)| (k.to_string(), v)).collect(),
    )
}

fn base_envelope() -> Vec<(&'static str, StructuredValue)> {
    vec![
        ("id", StructuredValue::Str("pkt-1".to_string())),
        ("timestamp", StructuredValue::Str("2024-01-15T10:30:00Z".to_string())),
        ("data_type", StructuredValue::Str("text".to_string())),
        (
            "payload",
            obj(vec![("Text", StructuredValue::Str("hi".to_string()))]),
        ),
        (
            "metadata",
            obj(vec![
                ("source", StructuredValue::Str("master-node".to_string())),
                ("version", StructuredValue::Str("1.0".to_string())),
            ]),
        ),
    ]
}

#[test]
fn full_envelope_parses() {
    let pk = parse_packet(obj(base_envelope())).expect("well-formed envelope");
    assert_eq!(pk.id, "pkt-1");
    assert_eq!(pk.timestamp.as_deref(), Some("2024-01-15T10:30:00+00:00"));
    assert_eq!(pk.data_type.as_deref(), Some("text"));
    let md = pk.metadata.expect("metadata present");
    assert_eq!(md.source, "master-node");
    assert_eq!(md.version, "1.0");
    assert!(matches!(pk.payload, StructuredValue::Obj(_)));
}

#[test]
fn minimal_envelope_parses() {
    let v = obj(vec![
        ("id", StructuredValue::Str("pkt-2".to_string())),
        ("payload", StructuredValue::Null),
    ]);
    let pk = parse_packet(v).expect("id and payload suffice");
    assert_eq!(pk.id, "pkt-2");
    assert!(pk.timestamp.is_none());
    assert!(pk.data_type.is_none());
    assert!(pk.metadata.is_none());
}

#[test]
fn missing_id_rejected() {
    let v = obj(vec![("payload", StructuredValue::Null)]);
    assert!(parse_packet(v).is_none());
}

#[test]
fn missing_payload_rejected() {
    let v = obj(vec![("id", StructuredValue::Str("pkt-3".to_string()))]);
    assert!(parse_packet(v).is_none());
}

#[test]
fn bad_timestamp_rejected() {
    let mut entries = base_envelope();
    entries[1].1 = StructuredValue::Str("yesterday".to_string());
    assert!(parse_packet(obj(entries)).is_none());
}

#[test]
fn null_optional_fields_read_as_absent() {
    let v = obj(vec![
        ("id", StructuredValue::Str("pkt-4".to_string())),
        ("timestamp", StructuredValue::Null),
        ("data_type", StructuredValue::Null),
        ("payload", StructuredValue::Num(1000)),
        ("metadata", StructuredValue::Null),
    ]);
    let pk = parse_packet(v).expect("nulls count as absent");
    assert!(pk.timestamp.is_none());
    assert!(pk.data_type.is_none());
    assert!(pk.metadata.is_none());
}

#[test]
fn metadata_fields_default_empty() {
    let v = obj(vec![
        ("id", StructuredValue::Str("pkt-5".to_string())),
        ("payload", StructuredValue::Null),
        ("metadata", obj(vec![])),
    ]);
    let pk = parse_packet(v).expect("empty metadata is fine");
    let md = pk.metadata.expect("metadata present");
    assert_eq!(md.source, "");
    assert_eq!(md.version, "");
}

#[test]
fn mistyped_metadata_rejected() {
    let v = obj(vec![
        ("id", StructuredValue::Str("pkt-6".to_string())),
        ("payload", StructuredValue::Null),
        ("metadata", StructuredValue::Str("not-a-mapping".to_string())),
    ]);
    assert!(parse_packet(v).is_none());
}

#[test]
fn non_mapping_envelope_rejected() {
    assert!(parse_packet(StructuredValue::Str("junk".to_string())).is_none());
    assert!(parse_packet(StructuredValue::Null).is_none());
}
