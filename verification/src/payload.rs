//! The closed set of strongly typed payload shapes, and the inbound packet.
//!
//! Exactly one shape is active at a time.  Every real-valued quantity
//! (coordinates, sensor measurements, the free-standing number) is carried
//! in fixed-point thousandths, as in [`crate::value`].

use vstd::prelude::*;
use crate::value::StructuredValue;

verus! {

/// A strongly typed payload: exactly one of six shapes.
#[derive(Debug, Clone, PartialEq)]
pub enum DataPayload {
    Text(String),
    Number(i64),
    Coordinates { x: i64, y: i64, z: i64 },
    SensorData { sensor_id: String, temperature: i64, humidity: i64, pressure: i64 },
    ImageData { width: u32, height: u32, format: String, data: Vec<u8> },
    LogEntry { level: String, message: String, timestamp: String },
}

/// The mathematical model of a payload: strings as character sequences,
/// machine integers as unbounded integers (numbers still in thousandths).
pub ghost enum PayloadModel {
    Text(Seq<char>),
    Number(int),
    Coordinates { x: int, y: int, z: int },
    SensorData { sensor_id: Seq<char>, temperature: int, humidity: int, pressure: int },
    ImageData { width: int, height: int, format: Seq<char>, data: Seq<u8> },
    LogEntry { level: Seq<char>, message: Seq<char>, timestamp: Seq<char> },
}

impl View for DataPayload {
    type V = PayloadModel;

    open spec fn view(&self) -> PayloadModel {
        match self {
            DataPayload::Text(s) => PayloadModel::Text(s@),
            DataPayload::Number(n) => PayloadModel::Number(*n as int),
            DataPayload::Coordinates { x, y, z } => PayloadModel::Coordinates {
                x: *x as int,
                y: *y as int,
                z: *z as int,
            },
            DataPayload::SensorData { sensor_id, temperature, humidity, pressure } => {
                PayloadModel::SensorData {
                    sensor_id: sensor_id@,
                    temperature: *temperature as int,
                    humidity: *humidity as int,
                    pressure: *pressure as int,
                }
            },
            DataPayload::ImageData { width, height, format, data } => PayloadModel::ImageData {
                width: *width as int,
                height: *height as int,
                format: format@,
                data: data@,
            },
            DataPayload::LogEntry { level, message, timestamp } => PayloadModel::LogEntry {
                level: level@,
                message: message@,
                timestamp: timestamp@,
            },
        }
    }
}

/// An outbound packet as a producer assembles it: a fully typed payload
/// together with its identity and provenance.  Metadata is a list of
/// key/value pairs.
#[derive(Debug, Clone)]
pub struct DataPacket {
    pub id: String,
    pub timestamp: String,
    pub data_type: String,
    pub payload: DataPayload,
    pub metadata: Vec<(String, String)>,
}

} // verus!
