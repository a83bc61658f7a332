//! Encoding a payload as a single-tag mapping — the producer's side of
//! the wire shape, and the decoder's round-trip partner.
//!
//! `encode_payload` builds exactly the structured value the flexible
//! decoder expects: a mapping with one recognized tag whose value holds
//! the payload's fields.  Its contract is the round-trip law: decoding
//! an encoded payload recovers it, with a log entry's timestamp put
//! into canonical RFC 3339 form (and a log entry with an ill-formed
//! timestamp is, by design, not recoverable).

use vstd::prelude::*;
use crate::decode::lemma_first_tag_none_from;
use crate::decode::lemma_first_tag_to;
use crate::decode::lemma_obj_get_at;
use crate::decode::spec_bytes_of;
use crate::decode::spec_decode;
use crate::decode::spec_num_as_int;
use crate::decode::spec_tag_name;
use crate::decode::spec_try_tag;
use crate::payload::DataPayload;
use crate::payload::PayloadModel;
use crate::time::rfc3339_reformat;
use crate::value::StructuredValue;
use crate::value::spec_obj_get;

verus! {

/// A byte scaled up to thousandths.
pub open spec fn spec_byte_milli(b: u8) -> i64 {
    (1000 * (b as int)) as i64
}

/// The six tag names are pairwise distinct.
pub proof fn lemma_tag_names_distinct()
    ensures
        forall|j: int, k: int|
            0 <= j < 6 && 0 <= k < 6 && j != k ==> spec_tag_name(j) != spec_tag_name(k),
{
    reveal_strlit("Text");
    reveal_strlit("ImageData");
    reveal_strlit("SensorData");
    reveal_strlit("Coordinates");
    reveal_strlit("LogEntry");
    reveal_strlit("Number");
    assert("Text"@.len() == 4);
    assert("ImageData"@.len() == 9);
    assert("SensorData"@.len() == 10);
    assert("Coordinates"@.len() == 11);
    assert("LogEntry"@.len() == 8);
    assert("Number"@.len() == 6);
}

/// A mapping with a single entry named like tag `k` decodes to whatever
/// tag `k` yields on it.
pub proof fn lemma_decode_single_tag(v: StructuredValue, k: int)
    requires
        v is Obj,
        v->Obj_0@.len() == 1,
        v->Obj_0@[0].0@ == spec_tag_name(k),
        0 <= k < 6,
    ensures
        spec_decode(v) == spec_try_tag(v->Obj_0@, k),
{
    let e = v->Obj_0@;
    lemma_tag_names_distinct();
    assert forall|j: int| 0 <= j < 6 && j != k implies spec_try_tag(e, j) is None by {
        assert(e[0].0@ != spec_tag_name(j));
        assert(e.skip(1) =~= Seq::<(String, StructuredValue)>::empty());
        assert(spec_obj_get(e.skip(1), spec_tag_name(j)) is None);
        assert(spec_obj_get(e, spec_tag_name(j)) is None);
    }
    if spec_try_tag(e, k) is Some {
        lemma_first_tag_to(e, 0, k);
    } else {
        lemma_first_tag_none_from(e, 0);
    }
}

/// An array of bytes scaled to thousandths reads back as those bytes.
pub proof fn lemma_bytes_of_milli(items: Seq<StructuredValue>, bs: Seq<u8>)
    requires
        items.len() == bs.len(),
        forall|i: int| 0 <= i < items.len() ==> items[i] == StructuredValue::Num(
            spec_byte_milli(bs[i]),
        ),
    ensures
        spec_bytes_of(items) == Some(bs),
    decreases items.len(),
{
    if items.len() == 0 {
        assert(bs =~= Seq::<u8>::empty());
    } else {
        assert forall|i: int| 0 <= i < items.skip(1).len() implies items.skip(1)[i]
            == StructuredValue::Num(spec_byte_milli(bs.skip(1)[i])) by {
            assert(items.skip(1)[i] == items[i + 1]);
            assert(bs.skip(1)[i] == bs[i + 1]);
        }
        lemma_bytes_of_milli(items.skip(1), bs.skip(1));
        assert(items[0] == StructuredValue::Num(spec_byte_milli(bs[0])));
        let m = spec_byte_milli(bs[0]) as int;
        assert(m == 1000 * (bs[0] as int));
        assert(m % 1000 == 0 && m / 1000 == bs[0] as int) by (nonlinear_arith)
            requires
                m == 1000 * (bs[0] as int),
                0 <= bs[0] < 256,
        ;
        assert(spec_num_as_int(m, 255) == Some(bs[0] as int));
        assert(seq![bs[0]] + bs.skip(1) =~= bs);
    }
}

/// A whole number scaled to thousandths reads back as itself.
proof fn lemma_whole_milli(n: int, bound: int)
    requires
        0 <= n <= bound,
    ensures
        spec_num_as_int(1000 * n, bound) == Some(n),
{
    assert((1000 * n) % 1000 == 0 && (1000 * n) / 1000 == n) by (nonlinear_arith)
        requires
            0 <= n,
    ;
}

/// Encodes a payload as a single-tag mapping.  Round-trip law: the
/// decoder recovers the payload from the result — for a log entry, with
/// the timestamp in canonical form when it is well-formed, and not at
/// all when it is not.
pub fn encode_payload(p: &DataPayload) -> (v: StructuredValue)
    ensures
        match p@ {
            PayloadModel::LogEntry { level, message, timestamp } => spec_decode(v) == (
            match rfc3339_reformat(timestamp) {
                Some(u) => Some(PayloadModel::LogEntry { level, message, timestamp: u }),
                None => None::<PayloadModel>,
            }),
            _ => spec_decode(v) == Some(p@),
        },
{
    match p {
        DataPayload::Text(s) => {
            let mut entries: Vec<(String, StructuredValue)> = Vec::new();
            entries.push((String::from_str("Text"), StructuredValue::Str(s.clone())));
            let v = StructuredValue::Obj(entries);
            proof {
                lemma_decode_single_tag(v, 0);
                lemma_obj_get_at(v->Obj_0@, "Text"@, 0);
            }
            v
        },
        DataPayload::Number(n) => {
            let mut entries: Vec<(String, StructuredValue)> = Vec::new();
            entries.push((String::from_str("Number"), StructuredValue::Num(*n)));
            let v = StructuredValue::Obj(entries);
            proof {
                lemma_decode_single_tag(v, 5);
                lemma_obj_get_at(v->Obj_0@, "Number"@, 0);
            }
            v
        },
        DataPayload::Coordinates { x, y, z } => {
            let mut inner: Vec<(String, StructuredValue)> = Vec::new();
            inner.push((String::from_str("x"), StructuredValue::Num(*x)));
            inner.push((String::from_str("y"), StructuredValue::Num(*y)));
            inner.push((String::from_str("z"), StructuredValue::Num(*z)));
            let iv = StructuredValue::Obj(inner);
            let mut entries: Vec<(String, StructuredValue)> = Vec::new();
            entries.push((String::from_str("Coordinates"), iv));
            let v = StructuredValue::Obj(entries);
            proof {
                reveal_strlit("x");
                reveal_strlit("y");
                reveal_strlit("z");
                assert("x"@[0] == 'x' && "y"@[0] == 'y' && "z"@[0] == 'z');
                lemma_decode_single_tag(v, 3);
                lemma_obj_get_at(v->Obj_0@, "Coordinates"@, 0);
                let ei = v->Obj_0@[0].1->Obj_0@;
                lemma_obj_get_at(ei, "x"@, 0);
                lemma_obj_get_at(ei, "y"@, 1);
                lemma_obj_get_at(ei, "z"@, 2);
            }
            v
        },
        DataPayload::SensorData { sensor_id, temperature, humidity, pressure } => {
            let mut inner: Vec<(String, StructuredValue)> = Vec::new();
            inner.push((String::from_str("sensor_id"), StructuredValue::Str(sensor_id.clone())));
            inner.push((String::from_str("temperature"), StructuredValue::Num(*temperature)));
            inner.push((String::from_str("humidity"), StructuredValue::Num(*humidity)));
            inner.push((String::from_str("pressure"), StructuredValue::Num(*pressure)));
            let iv = StructuredValue::Obj(inner);
            let mut entries: Vec<(String, StructuredValue)> = Vec::new();
            entries.push((String::from_str("SensorData"), iv));
            let v = StructuredValue::Obj(entries);
            proof {
                reveal_strlit("sensor_id");
                reveal_strlit("temperature");
                reveal_strlit("humidity");
                reveal_strlit("pressure");
                assert("sensor_id"@.len() == 9);
                assert("temperature"@.len() == 11);
                assert("humidity"@.len() == 8);
                assert("pressure"@.len() == 8);
                assert("humidity"@[0] == 'h' && "pressure"@[0] == 'p');
                lemma_decode_single_tag(v, 2);
                lemma_obj_get_at(v->Obj_0@, "SensorData"@, 0);
                let ei = v->Obj_0@[0].1->Obj_0@;
                lemma_obj_get_at(ei, "sensor_id"@, 0);
                lemma_obj_get_at(ei, "temperature"@, 1);
                lemma_obj_get_at(ei, "humidity"@, 2);
                lemma_obj_get_at(ei, "pressure"@, 3);
            }
            v
        },
        DataPayload::ImageData { width, height, format, data } => {
            let mut items: Vec<StructuredValue> = Vec::new();
            let mut i: usize = 0;
            while i < data.len()
                invariant
                    i <= data@.len(),
                    items@.len() == i,
                    forall|j: int| 0 <= j < i ==> items@[j] == StructuredValue::Num(
                        spec_byte_milli(data@[j]),
                    ),
                decreases data@.len() - i,
            {
                let b = data[i];
                items.push(StructuredValue::Num((b as i64) * 1000));
                i = i + 1;
            }
            let mut inner: Vec<(String, StructuredValue)> = Vec::new();
            inner.push((String::from_str("width"), StructuredValue::Num((*width as i64) * 1000)));
            inner.push((String::from_str("height"), StructuredValue::Num((*height as i64) * 1000)));
            inner.push((String::from_str("format"), StructuredValue::Str(format.clone())));
            inner.push((String::from_str("data"), StructuredValue::Arr(items)));
            let iv = StructuredValue::Obj(inner);
            let mut entries: Vec<(String, StructuredValue)> = Vec::new();
            entries.push((String::from_str("ImageData"), iv));
            let v = StructuredValue::Obj(entries);
            proof {
                reveal_strlit("width");
                reveal_strlit("height");
                reveal_strlit("format");
                reveal_strlit("data");
                assert("width"@.len() == 5);
                assert("height"@.len() == 6);
                assert("format"@.len() == 6);
                assert("data"@.len() == 4);
                assert("height"@[0] == 'h' && "format"@[0] == 'f');
                lemma_decode_single_tag(v, 1);
                lemma_obj_get_at(v->Obj_0@, "ImageData"@, 0);
                let ei = v->Obj_0@[0].1->Obj_0@;
                lemma_obj_get_at(ei, "width"@, 0);
                lemma_obj_get_at(ei, "height"@, 1);
                lemma_obj_get_at(ei, "format"@, 2);
                lemma_obj_get_at(ei, "data"@, 3);
                lemma_whole_milli(*width as int, u32::MAX as int);
                lemma_whole_milli(*height as int, u32::MAX as int);
                lemma_bytes_of_milli(ei[3].1->Arr_0@, data@);
            }
            v
        },
        DataPayload::LogEntry { level, message, timestamp } => {
            let mut inner: Vec<(String, StructuredValue)> = Vec::new();
            inner.push((String::from_str("level"), StructuredValue::Str(level.clone())));
            inner.push((String::from_str("message"), StructuredValue::Str(message.clone())));
            inner.push((String::from_str("timestamp"), StructuredValue::Str(timestamp.clone())));
            let iv = StructuredValue::Obj(inner);
            let mut entries: Vec<(String, StructuredValue)> = Vec::new();
            entries.push((String::from_str("LogEntry"), iv));
            let v = StructuredValue::Obj(entries);
            proof {
                reveal_strlit("level");
                reveal_strlit("message");
                reveal_strlit("timestamp");
                assert("level"@.len() == 5);
                assert("message"@.len() == 7);
                assert("timestamp"@.len() == 9);
                lemma_decode_single_tag(v, 4);
                lemma_obj_get_at(v->Obj_0@, "LogEntry"@, 0);
                let ei = v->Obj_0@[0].1->Obj_0@;
                lemma_obj_get_at(ei, "level"@, 0);
                lemma_obj_get_at(ei, "message"@, 1);
                lemma_obj_get_at(ei, "timestamp"@, 2);
            }
            v
        },
    }
}

} // verus!
