//! The outbound acknowledgment envelope.
//!
//! For every successfully processed packet the node answers with a fully
//! populated response: the packet's identity, the moment of handling, the
//! human-readable processing result, and the time the handling took.

use vstd::prelude::*;
use crate::time::now_rfc3339;
use crate::time::rfc3339_reformat;

verus! {

/// The acknowledgment sent back for one processed packet.  Every field is
/// always populated.
#[derive(Debug, Clone)]
pub struct DataResponse {
    pub packet_id: String,
    pub received_at: String,
    pub status: String,
    pub processing_time_ms: u64,
}

/// Assembles the response for one packet: the given identity, result and
/// elapsed time, stamped with the present wall-clock time, which is a
/// well-formed RFC 3339 datetime.
pub fn build_response(packet_id: String, result: String, elapsed_ms: u64) -> (r: DataResponse)
    ensures
        r.packet_id == packet_id,
        r.status == result,
        r.processing_time_ms == elapsed_ms,
        rfc3339_reformat(r.received_at@) is Some,
{
    DataResponse {
        packet_id,
        received_at: now_rfc3339(),
        status: result,
        processing_time_ms: elapsed_ms,
    }
}

} // verus!
