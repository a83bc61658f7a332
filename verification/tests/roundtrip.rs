use mqtt_node::decode::convert_payload;
use mqtt_node::encode::encode_payload;
use mqtt_node::payload::DataPayload;

#[test]
fn round_trip_text() {
    let p = DataPayload::Text("hello".to_string());
    let v = encode_payload(&p);
    assert_eq!(convert_payload(&v), Some(p));
}

#[test]
fn round_trip_number() {
    let p = DataPayload::Number(42500);
    let v = encode_payload(&p);
    assert_eq!(convert_payload(&v), Some(p));
}

#[test]
fn round_trip_coordinates() {
    let p = DataPayload::Coordinates { x: 3000, y: 4000, z: 0 };
    let v = encode_payload(&p);
    assert_eq!(convert_payload(&v), Some(p));
}

#[test]
fn round_trip_sensor() {
    let p = DataPayload::SensorData {
        sensor_id: "SENSOR_7".to_string(),
        temperature: 22500,
        humidity: 45000,
        pressure: 1013250,
    };
    let v = encode_payload(&p);
    assert_eq!(convert_payload(&v), Some(p));
}

#[test]
fn round_trip_image() {
    let p = DataPayload::ImageData {
        width: 640,
        height: 480,
        format: "RGB".to_string(),
        data: vec![0, 17, 255],
    };
    let v = encode_payload(&p);
    assert_eq!(convert_payload(&v), Some(p));
}

#[test]
fn round_trip_image_empty_data() {
    let p = DataPayload::ImageData {
        width: 1,
        height: 1,
        format: "PNG".to_string(),
        data: vec![],
    };
    let v = encode_payload(&p);
    assert_eq!(convert_payload(&v), Some(p));
}

#[test]
fn round_trip_log_entry() {
    let p = DataPayload::LogEntry {
        level: "INFO".to_string(),
        message: "all well".to_string(),
        timestamp: "2024-01-15T10:30:00+00:00".to_string(),
    };
    let v = encode_payload(&p);
    assert_eq!(convert_payload(&v), Some(p));
}

#[test]
fn log_timestamp_canonicalized() {
    let p = DataPayload::LogEntry {
        level: "WARN".to_string(),
        message: "drift".to_string(),
        timestamp: "2024-01-15T10:30:00Z".to_string(),
    };
    let v = encode_payload(&p);
    let expected = DataPayload::LogEntry {
        level: "WARN".to_string(),
        message: "drift".to_string(),
        timestamp: "2024-01-15T10:30:00+00:00".to_string(),
    };
    assert_eq!(convert_payload(&v), Some(expected));
}
