use mqtt_node::decode::convert_payload;
use mqtt_node::payload::DataPayload;
use mqtt_node::value::StructuredValue;

fn obj(entries: Vec<(&str, StructuredValue)>) -> StructuredValue {
    StructuredValue::Obj(
        entries.into_iter().map(|(k, v)| (k.to_string(), v)).collect(),
    )
}

fn valid_sensor() -> StructuredValue {
    obj(vec![
        ("sensor_id", StructuredValue::Str("S1".to_string())),
        ("temperature", StructuredValue::Num(20000)),
        ("humidity", StructuredValue::Num(50000)),
        ("pressure", StructuredValue::Num(1000000)),
    ])
}

#[test]
fn empty_mapping_not_recognized() {
    let v = StructuredValue::Obj(vec![]);
    assert_eq!(convert_payload(&v), None);
}

#[test]
fn unknown_tags_not_recognized() {
    let v = obj(vec![
        ("foo", StructuredValue::Num(1000)),
        ("bar", StructuredValue::Str("x".to_string())),
    ]);
    assert_eq!(convert_payload(&v), None);
}

#[test]
fn non_mapping_not_recognized() {
    assert_eq!(convert_payload(&StructuredValue::Str("Text".to_string())), None);
    assert_eq!(convert_payload(&StructuredValue::Num(5000)), None);
    assert_eq!(convert_payload(&StructuredValue::Null), None);
}

#[test]
fn earlier_tag_wins_over_later() {
    // Text has higher priority than SensorData even when it comes
    // second in the mapping.
    let v = obj(vec![
        ("SensorData", valid_sensor()),
        ("Text", StructuredValue::Str("hi".to_string())),
    ]);
    assert_eq!(convert_payload(&v), Some(DataPayload::Text("hi".to_string())));
}

#[test]
fn malformed_earlier_tag_falls_through() {
    // A Text tag whose value is not a string counts as absent; the
    // later, valid Coordinates tag is recovered.
    let v = obj(vec![
        ("Text", StructuredValue::Num(7000)),
        (
            "Coordinates",
            obj(vec![
                ("x", StructuredValue::Num(1000)),
                ("y", StructuredValue::Num(2000)),
                ("z", StructuredValue::Num(3000)),
            ]),
        ),
    ]);
    assert_eq!(
        convert_payload(&v),
        Some(DataPayload::Coordinates { x: 1000, y: 2000, z: 3000 })
    );
}

#[test]
fn mistyped_sensor_field_not_recognized() {
    let v = obj(vec![(
        "SensorData",
        obj(vec![
            ("sensor_id", StructuredValue::Str("S1".to_string())),
            ("temperature", StructuredValue::Str("warm".to_string())),
            ("humidity", StructuredValue::Num(50000)),
            ("pressure", StructuredValue::Num(1000000)),
        ]),
    )]);
    assert_eq!(convert_payload(&v), None);
}

#[test]
fn missing_sensor_field_not_recognized() {
    let v = obj(vec![(
        "SensorData",
        obj(vec![
            ("sensor_id", StructuredValue::Str("S1".to_string())),
            ("temperature", StructuredValue::Num(20000)),
        ]),
    )]);
    assert_eq!(convert_payload(&v), None);
}

#[test]
fn extra_keys_tolerated() {
    let v = obj(vec![
        ("note", StructuredValue::Str("ignored".to_string())),
        ("SensorData", valid_sensor()),
    ]);
    assert_eq!(
        convert_payload(&v),
        Some(DataPayload::SensorData {
            sensor_id: "S1".to_string(),
            temperature: 20000,
            humidity: 50000,
            pressure: 1000000,
        })
    );
}

#[test]
fn number_tag_decoded() {
    let v = obj(vec![("Number", StructuredValue::Num(1500))]);
    assert_eq!(convert_payload(&v), Some(DataPayload::Number(1500)));
}

#[test]
fn image_fractional_width_not_recognized() {
    let v = obj(vec![(
        "ImageData",
        obj(vec![
            ("width", StructuredValue::Num(1500)),
            ("height", StructuredValue::Num(1000)),
            ("format", StructuredValue::Str("RGB".to_string())),
            ("data", StructuredValue::Arr(vec![])),
        ]),
    )]);
    assert_eq!(convert_payload(&v), None);
}

#[test]
fn image_negative_width_not_recognized() {
    let v = obj(vec![(
        "ImageData",
        obj(vec![
            ("width", StructuredValue::Num(-1000)),
            ("height", StructuredValue::Num(1000)),
            ("format", StructuredValue::Str("RGB".to_string())),
            ("data", StructuredValue::Arr(vec![])),
        ]),
    )]);
    assert_eq!(convert_payload(&v), None);
}

#[test]
fn image_bad_byte_not_recognized() {
    let v = obj(vec![(
        "ImageData",
        obj(vec![
            ("width", StructuredValue::Num(1000)),
            ("height", StructuredValue::Num(1000)),
            ("format", StructuredValue::Str("RGB".to_string())),
            ("data", StructuredValue::Arr(vec![StructuredValue::Num(256000)])),
        ]),
    )]);
    assert_eq!(convert_payload(&v), None);
}

#[test]
fn log_bad_timestamp_not_recognized() {
    let v = obj(vec![(
        "LogEntry",
        obj(vec![
            ("level", StructuredValue::Str("INFO".to_string())),
            ("message", StructuredValue::Str("m".to_string())),
            ("timestamp", StructuredValue::Str("not-a-date".to_string())),
        ]),
    )]);
    assert_eq!(convert_payload(&v), None);
}

#[test]
fn malformed_log_falls_through_to_number() {
    let v = obj(vec![
        (
            "LogEntry",
            obj(vec![("level", StructuredValue::Str("INFO".to_string()))]),
        ),
        ("Number", StructuredValue::Num(-2500)),
    ]);
    assert_eq!(convert_payload(&v), Some(DataPayload::Number(-2500)));
}
