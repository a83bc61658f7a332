use mqtt_node::decode::convert_payload;
use mqtt_node::metrics::ProcessingMetrics;
use mqtt_node::process::process_data;
use mqtt_node::response::build_response;
use mqtt_node::value::StructuredValue;

#[test]
fn end_to_end_sensor_reading() {
    // A well-formed SensorData envelope payload, as the decoder sees it.
    let payload_value = StructuredValue::Obj(vec![(
        "SensorData".to_string(),
        StructuredValue::Obj(vec![
            ("sensor_id".to_string(), StructuredValue::Str("SENSOR_42".to_string())),
            ("temperature".to_string(), StructuredValue::Num(22500)),
            ("humidity".to_string(), StructuredValue::Num(45000)),
            ("pressure".to_string(), StructuredValue::Num(1013250)),
        ]),
    )]);

    let mut metrics = ProcessingMetrics::new();
    let decoded = convert_payload(&payload_value).expect("well-formed envelope must decode");
    let status = process_data(&decoded);
    metrics.record(&decoded, 3);
    let response = build_response("packet-9".to_string(), status, 3);

    assert!(response.status.contains("temp=22.5"));
    assert!(response.status.contains("humidity=45.0"));
    assert!(response.status.contains("pressure=1013.3"));
    assert_eq!(response.packet_id, "packet-9");
    assert_eq!(response.processing_time_ms, 3);
    assert_eq!(metrics.sensor_count, 1);
    assert_eq!(metrics.processed_count, 1);
}
