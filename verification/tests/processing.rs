use mqtt_node::payload::DataPayload;
use mqtt_node::process::process_data;

#[test]
fn text_char_count() {
    let r = process_data(&DataPayload::Text("hello".to_string()));
    assert_eq!(r, "Text processed: 5 chars");
}

#[test]
fn text_empty() {
    let r = process_data(&DataPayload::Text(String::new()));
    assert_eq!(r, "Text processed: 0 chars");
}

#[test]
fn number_two_decimals() {
    let r = process_data(&DataPayload::Number(42500));
    assert_eq!(r, "Number processed: 42.50");
}

#[test]
fn number_negative() {
    let r = process_data(&DataPayload::Number(-1234));
    assert_eq!(r, "Number processed: -1.23");
}

#[test]
fn number_rounds_half_up() {
    let r = process_data(&DataPayload::Number(5));
    assert_eq!(r, "Number processed: 0.01");
}

#[test]
fn coordinates_distance() {
    let r = process_data(&DataPayload::Coordinates { x: 3000, y: 4000, z: 0 });
    assert_eq!(r, "Coordinates processed: distance from origin = 5.00");
}

#[test]
fn coordinates_origin() {
    let r = process_data(&DataPayload::Coordinates { x: 0, y: 0, z: 0 });
    assert_eq!(r, "Coordinates processed: distance from origin = 0.00");
}

#[test]
fn coordinates_negative_components() {
    let r = process_data(&DataPayload::Coordinates { x: -3000, y: 0, z: -4000 });
    assert_eq!(r, "Coordinates processed: distance from origin = 5.00");
}

#[test]
fn sensor_one_decimal_each() {
    let r = process_data(&DataPayload::SensorData {
        sensor_id: "S1".to_string(),
        temperature: 22500,
        humidity: 45000,
        pressure: 1013250,
    });
    assert_eq!(
        r,
        "Sensor data processed: temp=22.5°C, humidity=45.0%, pressure=1013.3hPa"
    );
}

#[test]
fn image_byte_length() {
    let r = process_data(&DataPayload::ImageData {
        width: 640,
        height: 480,
        format: "RGB".to_string(),
        data: vec![1, 2, 3],
    });
    assert_eq!(r, "Image processed: 3 bytes");
}

#[test]
fn log_entry_timestamp_echoed() {
    let r = process_data(&DataPayload::LogEntry {
        level: "INFO".to_string(),
        message: "hello".to_string(),
        timestamp: "2024-01-15T10:30:00+00:00".to_string(),
    });
    assert_eq!(r, "Log entry processed at 2024-01-15T10:30:00+00:00");
}
