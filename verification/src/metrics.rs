//! Running counters over everything the node has processed.
//!
//! One aggregate is created at startup and updated once per message: the
//! total processed count, the cumulative processing time, and one counter
//! per payload shape.  The aggregate is plain data; a driver that processes
//! messages concurrently shares it behind a lock, which keeps every update
//! whole.

use vstd::prelude::*;
use crate::payload::DataPayload;

verus! {

/// Counters: total processed, cumulative processing time in milliseconds,
/// and one count per payload shape.
pub struct ProcessingMetrics {
    pub processed_count: u64,
    pub total_processing_time: u64,
    pub text_count: u64,
    pub number_count: u64,
    pub coordinates_count: u64,
    pub sensor_count: u64,
    pub image_count: u64,
    pub log_count: u64,
}

/// The counter that a given payload shape feeds.
pub open spec fn spec_shape_count(m: ProcessingMetrics, p: DataPayload) -> u64 {
    match p {
        DataPayload::Text(_) => m.text_count,
        DataPayload::Number(_) => m.number_count,
        DataPayload::Coordinates { .. } => m.coordinates_count,
        DataPayload::SensorData { .. } => m.sensor_count,
        DataPayload::ImageData { .. } => m.image_count,
        DataPayload::LogEntry { .. } => m.log_count,
    }
}

/// The six per-shape counters together.
pub open spec fn spec_shape_total(m: ProcessingMetrics) -> int {
    m.text_count + m.number_count + m.coordinates_count + m.sensor_count + m.image_count
        + m.log_count
}

impl ProcessingMetrics {
    /// Every recorded message bumps the total and exactly one shape
    /// counter, so the total always equals the sum of the six.
    pub open spec fn consistent(&self) -> bool {
        self.processed_count == spec_shape_total(*self)
    }

    /// A fresh aggregate: everything at zero.
    pub fn new() -> (m: ProcessingMetrics)
        ensures
            m.processed_count == 0,
            m.total_processing_time == 0,
            m.text_count == 0,
            m.number_count == 0,
            m.coordinates_count == 0,
            m.sensor_count == 0,
            m.image_count == 0,
            m.log_count == 0,
            m.consistent(),
    {
        ProcessingMetrics {
            processed_count: 0,
            total_processing_time: 0,
            text_count: 0,
            number_count: 0,
            coordinates_count: 0,
            sensor_count: 0,
            image_count: 0,
            log_count: 0,
        }
    }

    /// Bumps the counter of the given payload's shape and nothing else.
    pub fn update_count(&mut self, payload: &DataPayload)
        requires
            spec_shape_count(*old(self), *payload) < u64::MAX,
        ensures
            spec_shape_count(*final(self), *payload) == spec_shape_count(*old(self), *payload)
                + 1,
            forall|q: DataPayload|
                !same_shape(*payload, q) ==> spec_shape_count(*final(self), q)
                    == spec_shape_count(*old(self), q),
            final(self).processed_count == old(self).processed_count,
            final(self).total_processing_time == old(self).total_processing_time,
            spec_shape_total(*final(self)) == spec_shape_total(*old(self)) + 1,
    {
        match payload {
            DataPayload::Text(_) => {
                self.text_count = self.text_count + 1;
            },
            DataPayload::Number(_) => {
                self.number_count = self.number_count + 1;
            },
            DataPayload::Coordinates { .. } => {
                self.coordinates_count = self.coordinates_count + 1;
            },
            DataPayload::SensorData { .. } => {
                self.sensor_count = self.sensor_count + 1;
            },
            DataPayload::ImageData { .. } => {
                self.image_count = self.image_count + 1;
            },
            DataPayload::LogEntry { .. } => {
                self.log_count = self.log_count + 1;
            },
        }
    }

    /// Records one processed message: bumps the total, adds the elapsed
    /// time, and bumps the counter of the payload's shape.  Keeps the
    /// aggregate consistent.
    pub fn record(&mut self, payload: &DataPayload, elapsed_ms: u64)
        requires
            old(self).processed_count < u64::MAX,
            old(self).total_processing_time + elapsed_ms <= u64::MAX,
            spec_shape_count(*old(self), *payload) < u64::MAX,
        ensures
            final(self).processed_count == old(self).processed_count + 1,
            final(self).total_processing_time == old(self).total_processing_time + elapsed_ms,
            spec_shape_count(*final(self), *payload) == spec_shape_count(*old(self), *payload)
                + 1,
            forall|q: DataPayload|
                !same_shape(*payload, q) ==> spec_shape_count(*final(self), q)
                    == spec_shape_count(*old(self), q),
            old(self).consistent() ==> final(self).consistent(),
    {
        self.processed_count = self.processed_count + 1;
        self.total_processing_time = self.total_processing_time + elapsed_ms;
        self.update_count(payload);
    }
}

/// Whether two payloads have the same shape, and so feed the same counter.
pub open spec fn same_shape(p: DataPayload, q: DataPayload) -> bool {
    match (p, q) {
        (DataPayload::Text(_), DataPayload::Text(_)) => true,
        (DataPayload::Number(_), DataPayload::Number(_)) => true,
        (DataPayload::Coordinates { .. }, DataPayload::Coordinates { .. }) => true,
        (DataPayload::SensorData { .. }, DataPayload::SensorData { .. }) => true,
        (DataPayload::ImageData { .. }, DataPayload::ImageData { .. }) => true,
        (DataPayload::LogEntry { .. }, DataPayload::LogEntry { .. }) => true,
        _ => false,
    }
}

} // verus!
