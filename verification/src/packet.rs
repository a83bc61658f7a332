//! The inbound envelope: identity, optional provenance, and the untyped
//! payload.
//!
//! An envelope arrives with no fixed payload schema and with most fields
//! optional.  Parsing is tolerant — unknown keys are ignored, absent
//! optional fields default — but strict about what is present: a
//! mistyped field, or a timestamp that is not a well-formed RFC 3339
//! datetime, makes the whole envelope malformed and the message is
//! dropped, never the process.

use vstd::prelude::*;
use crate::time::normalize_timestamp;
use crate::time::rfc3339_reformat;
use crate::value::StructuredValue;
use crate::value::obj_get;
use crate::value::spec_obj_get;

verus! {

/// Provenance of a packet; both fields default to empty.
pub struct Metadata {
    pub source: String,
    pub version: String,
}

/// An inbound envelope: only the identity and the payload are required.
pub struct FlexiblePacket {
    pub id: String,
    pub timestamp: Option<String>,
    pub data_type: Option<String>,
    pub payload: StructuredValue,
    pub metadata: Option<Metadata>,
}

/// The mathematical model of parsed provenance.
pub ghost struct MetadataModel {
    pub source: Seq<char>,
    pub version: Seq<char>,
}

/// The mathematical model of a parsed envelope.
pub ghost struct PacketModel {
    pub id: Seq<char>,
    pub timestamp: Option<Seq<char>>,
    pub data_type: Option<Seq<char>>,
    pub payload: StructuredValue,
    pub metadata: Option<MetadataModel>,
}

impl View for Metadata {
    type V = MetadataModel;

    open spec fn view(&self) -> MetadataModel {
        MetadataModel { source: self.source@, version: self.version@ }
    }
}

impl View for FlexiblePacket {
    type V = PacketModel;

    open spec fn view(&self) -> PacketModel {
        PacketModel {
            id: self.id@,
            timestamp: match self.timestamp {
                Some(t) => Some(t@),
                None => None,
            },
            data_type: match self.data_type {
                Some(d) => Some(d@),
                None => None,
            },
            payload: self.payload,
            metadata: match self.metadata {
                Some(m) => Some(m@),
                None => None,
            },
        }
    }
}

/// An optional text field: absent or null reads as nothing, a string as
/// itself, anything else as malformed (the outer `None`).
pub open spec fn spec_opt_text_field(
    entries: Seq<(String, StructuredValue)>,
    key: Seq<char>,
) -> Option<Option<Seq<char>>> {
    match spec_obj_get(entries, key) {
        None => Some(None),
        Some(StructuredValue::Null) => Some(None),
        Some(StructuredValue::Str(s)) => Some(Some(s@)),
        Some(_) => None,
    }
}

/// The optional timestamp: when present it must be a well-formed
/// RFC 3339 datetime and reads in canonical form.
pub open spec fn spec_timestamp_field(
    entries: Seq<(String, StructuredValue)>,
) -> Option<Option<Seq<char>>> {
    match spec_obj_get(entries, "timestamp"@) {
        None => Some(None),
        Some(StructuredValue::Null) => Some(None),
        Some(StructuredValue::Str(ts)) => match rfc3339_reformat(ts@) {
            Some(u) => Some(Some(u)),
            None => None,
        },
        Some(_) => None,
    }
}

/// A provenance field: absent defaults to empty, a string reads as
/// itself, anything else is malformed.
pub open spec fn spec_default_text_field(
    entries: Seq<(String, StructuredValue)>,
    key: Seq<char>,
) -> Option<Seq<char>> {
    match spec_obj_get(entries, key) {
        None => Some(Seq::<char>::empty()),
        Some(StructuredValue::Str(s)) => Some(s@),
        Some(_) => None,
    }
}

/// The optional metadata record.
pub open spec fn spec_metadata_field(
    entries: Seq<(String, StructuredValue)>,
) -> Option<Option<MetadataModel>> {
    match spec_obj_get(entries, "metadata"@) {
        None => Some(None),
        Some(StructuredValue::Null) => Some(None),
        Some(StructuredValue::Obj(me)) => match (
            spec_default_text_field(me@, "source"@),
            spec_default_text_field(me@, "version"@),
        ) {
            (Some(src), Some(ver)) => Some(Some(MetadataModel { source: src, version: ver })),
            _ => None,
        },
        Some(_) => None,
    }
}

/// What envelope parsing makes of a structured value: a packet when the
/// value is a mapping with a string `id`, a `payload` of any shape, and
/// well-formed optional fields; nothing otherwise.
pub open spec fn spec_parse_packet(v: StructuredValue) -> Option<PacketModel> {
    match v {
        StructuredValue::Obj(entries) => match (
            spec_obj_get(entries@, "id"@),
            spec_obj_get(entries@, "payload"@),
        ) {
            (Some(StructuredValue::Str(id)), Some(pl)) => match (
                spec_timestamp_field(entries@),
                spec_opt_text_field(entries@, "data_type"@),
                spec_metadata_field(entries@),
            ) {
                (Some(ts), Some(dt), Some(md)) => Some(
                    PacketModel {
                        id: id@,
                        timestamp: ts,
                        data_type: dt,
                        payload: pl,
                        metadata: md,
                    },
                ),
                _ => None,
            },
            _ => None,
        },
        _ => None,
    }
}

/// Parses an inbound envelope out of a structured value, consuming it.
#[verifier::loop_isolation(false)]
pub fn parse_packet(v: StructuredValue) -> (r: Option<FlexiblePacket>)
    ensures
        match r {
            Some(pk) => spec_parse_packet(v) == Some(pk@),
            None => spec_parse_packet(v) is None,
        },
{
    match v {
        StructuredValue::Obj(entries) => {
            let kid = String::from_str("id");
            let id: String = match obj_get(&entries, &kid) {
                Some(StructuredValue::Str(s)) => s.clone(),
                _ => {
                    return None;
                },
            };
            let kts = String::from_str("timestamp");
            let timestamp: Option<String> = match obj_get(&entries, &kts) {
                None => None,
                Some(StructuredValue::Null) => None,
                Some(StructuredValue::Str(ts)) => match normalize_timestamp(ts.as_str()) {
                    Some(u) => Some(u),
                    None => {
                        return None;
                    },
                },
                Some(_) => {
                    return None;
                },
            };
            let kdt = String::from_str("data_type");
            let data_type: Option<String> = match obj_get(&entries, &kdt) {
                None => None,
                Some(StructuredValue::Null) => None,
                Some(StructuredValue::Str(d)) => Some(d.clone()),
                Some(_) => {
                    return None;
                },
            };
            let kmd = String::from_str("metadata");
            let metadata: Option<Metadata> = match obj_get(&entries, &kmd) {
                None => None,
                Some(StructuredValue::Null) => None,
                Some(StructuredValue::Obj(me)) => {
                    let ksrc = String::from_str("source");
                    let source: String = match obj_get(me, &ksrc) {
                        None => String::new(),
                        Some(StructuredValue::Str(s)) => s.clone(),
                        Some(_) => {
                            return None;
                        },
                    };
                    let kver = String::from_str("version");
                    let version: String = match obj_get(me, &kver) {
                        None => String::new(),
                        Some(StructuredValue::Str(s)) => s.clone(),
                        Some(_) => {
                            return None;
                        },
                    };
                    Some(Metadata { source, version })
                },
                Some(_) => {
                    return None;
                },
            };
            let kpl = String::from_str("payload");
            let mut entries = entries;
            let ghost ev = entries@;
            let mut i: usize = 0;
            while i < entries.len()
                invariant
                    i <= entries@.len(),
                    entries@ == ev,
                    forall|j: int| 0 <= j < i ==> entries@[j].0@ != "payload"@,
                decreases entries@.len() - i,
            {
                if entries[i].0 == kpl {
                    proof {
                        crate::decode::lemma_obj_get_at(entries@, "payload"@, i as int);
                    }
                    let pair = entries.remove(i);
                    return Some(
                        FlexiblePacket { id, timestamp, data_type, payload: pair.1, metadata },
                    );
                }
                i = i + 1;
            }
            proof {
                crate::decode::lemma_obj_get_absent(entries@, "payload"@);
            }
            None
        },
        _ => None,
    }
}

} // verus!
