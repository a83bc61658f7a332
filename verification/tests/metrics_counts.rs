use mqtt_node::metrics::ProcessingMetrics;
use mqtt_node::payload::DataPayload;

fn sample(kind: usize) -> DataPayload {
    match kind {
        0 => DataPayload::Text("t".to_string()),
        1 => DataPayload::Number(1000),
        2 => DataPayload::Coordinates { x: 0, y: 0, z: 0 },
        3 => DataPayload::SensorData {
            sensor_id: "S".to_string(),
            temperature: 0,
            humidity: 0,
            pressure: 0,
        },
        4 => DataPayload::ImageData {
            width: 1,
            height: 1,
            format: "RGB".to_string(),
            data: vec![],
        },
        _ => DataPayload::LogEntry {
            level: "INFO".to_string(),
            message: "m".to_string(),
            timestamp: "2024-01-01T00:00:00+00:00".to_string(),
        },
    }
}

#[test]
fn new_starts_at_zero() {
    let m = ProcessingMetrics::new();
    assert_eq!(m.processed_count, 0);
    assert_eq!(m.total_processing_time, 0);
    assert_eq!(m.text_count, 0);
    assert_eq!(m.number_count, 0);
    assert_eq!(m.coordinates_count, 0);
    assert_eq!(m.sensor_count, 0);
    assert_eq!(m.image_count, 0);
    assert_eq!(m.log_count, 0);
}

#[test]
fn record_counts_every_call() {
    let mut m = ProcessingMetrics::new();
    // 120 calls spread over all six shapes, 2 ms each.
    for i in 0..120 {
        m.record(&sample(i % 6), 2);
    }
    assert_eq!(m.processed_count, 120);
    assert_eq!(m.total_processing_time, 240);
    assert_eq!(m.text_count, 20);
    assert_eq!(m.number_count, 20);
    assert_eq!(m.coordinates_count, 20);
    assert_eq!(m.sensor_count, 20);
    assert_eq!(m.image_count, 20);
    assert_eq!(m.log_count, 20);
}

#[test]
fn record_uneven_spread() {
    let mut m = ProcessingMetrics::new();
    for _ in 0..3 {
        m.record(&sample(0), 1);
    }
    m.record(&sample(5), 7);
    assert_eq!(m.processed_count, 4);
    assert_eq!(m.total_processing_time, 10);
    assert_eq!(m.text_count, 3);
    assert_eq!(m.log_count, 1);
    assert_eq!(m.number_count, 0);
}

#[test]
fn update_count_bumps_only_its_counter() {
    let mut m = ProcessingMetrics::new();
    m.update_count(&sample(2));
    assert_eq!(m.coordinates_count, 1);
    assert_eq!(m.processed_count, 0);
    assert_eq!(m.total_processing_time, 0);
    assert_eq!(m.text_count, 0);
    assert_eq!(m.number_count, 0);
    assert_eq!(m.sensor_count, 0);
    assert_eq!(m.image_count, 0);
    assert_eq!(m.log_count, 0);
}
