//! The flexible decoder: from a loosely typed payload value to exactly
//! one strongly typed payload, or a graceful give-up.
//!
//! The payload is treated as a mapping with at most one populated key
//! among six recognized tag names, checked in a fixed priority order:
//! `Text`, `ImageData`, `SensorData`, `Coordinates`, `LogEntry`,
//! `Number`.  A tag that is present but malformed — a missing or
//! mistyped field, an ill-formed timestamp — counts as absent, and the
//! decoder moves on to the next tag.  Unknown extra keys are tolerated.
//! When no tag yields a payload the decoder returns nothing; it never
//! fails.

use vstd::prelude::*;
use crate::payload::DataPayload;
use crate::payload::PayloadModel;
use crate::time::normalize_timestamp;
use crate::time::rfc3339_reformat;
use crate::value::StructuredValue;
use crate::value::obj_get;
use crate::value::spec_obj_get;

verus! {

/// A number in thousandths read back as a whole number in `0 ..= bound`.
pub open spec fn spec_num_as_int(m: int, bound: int) -> Option<int> {
    if m % 1000 == 0 && 0 <= m / 1000 && m / 1000 <= bound {
        Some(m / 1000)
    } else {
        None
    }
}

/// The byte sequence held by an array value: every element must be a
/// whole number in `0 ..= 255`.  The array may be empty.
pub open spec fn spec_bytes_of(items: Seq<StructuredValue>) -> Option<Seq<u8>>
    decreases items.len(),
{
    if items.len() == 0 {
        Some(Seq::<u8>::empty())
    } else {
        match items[0] {
            StructuredValue::Num(m) => match spec_num_as_int(m as int, 255) {
                Some(b) => match spec_bytes_of(items.skip(1)) {
                    Some(rest) => Some(seq![b as u8] + rest),
                    None => None,
                },
                None => None,
            },
            _ => None,
        }
    }
}

/// The recognized tag names, in decoding priority order.
pub open spec fn spec_tag_name(k: int) -> Seq<char> {
    if k == 0 {
        "Text"@
    } else if k == 1 {
        "ImageData"@
    } else if k == 2 {
        "SensorData"@
    } else if k == 3 {
        "Coordinates"@
    } else if k == 4 {
        "LogEntry"@
    } else {
        "Number"@
    }
}

/// What the value under the `Text` tag yields: the string, untouched.
pub open spec fn spec_text_of(v: StructuredValue) -> Option<PayloadModel> {
    match v {
        StructuredValue::Str(s) => Some(PayloadModel::Text(s@)),
        _ => None,
    }
}

/// What the value under the `ImageData` tag yields: a record with whole
/// `width` and `height` fitting `u32`, a string `format`, and `data` as
/// an array of bytes.
pub open spec fn spec_image_of(v: StructuredValue) -> Option<PayloadModel> {
    match v {
        StructuredValue::Obj(entries) => match (
            spec_obj_get(entries@, "width"@),
            spec_obj_get(entries@, "height"@),
            spec_obj_get(entries@, "format"@),
            spec_obj_get(entries@, "data"@),
        ) {
            (
                Some(StructuredValue::Num(wm)),
                Some(StructuredValue::Num(hm)),
                Some(StructuredValue::Str(f)),
                Some(StructuredValue::Arr(items)),
            ) => match (
                spec_num_as_int(wm as int, u32::MAX as int),
                spec_num_as_int(hm as int, u32::MAX as int),
                spec_bytes_of(items@),
            ) {
                (Some(w), Some(h), Some(bs)) => Some(
                    PayloadModel::ImageData { width: w, height: h, format: f@, data: bs },
                ),
                _ => None,
            },
            _ => None,
        },
        _ => None,
    }
}

/// What the value under the `SensorData` tag yields: a string
/// `sensor_id` and three numeric measurements.
pub open spec fn spec_sensor_of(v: StructuredValue) -> Option<PayloadModel> {
    match v {
        StructuredValue::Obj(entries) => match (
            spec_obj_get(entries@, "sensor_id"@),
            spec_obj_get(entries@, "temperature"@),
            spec_obj_get(entries@, "humidity"@),
            spec_obj_get(entries@, "pressure"@),
        ) {
            (
                Some(StructuredValue::Str(sid)),
                Some(StructuredValue::Num(t)),
                Some(StructuredValue::Num(h)),
                Some(StructuredValue::Num(p)),
            ) => Some(
                PayloadModel::SensorData {
                    sensor_id: sid@,
                    temperature: t as int,
                    humidity: h as int,
                    pressure: p as int,
                },
            ),
            _ => None,
        },
        _ => None,
    }
}

/// What the value under the `Coordinates` tag yields: three numeric
/// components.
pub open spec fn spec_coordinates_of(v: StructuredValue) -> Option<PayloadModel> {
    match v {
        StructuredValue::Obj(entries) => match (
            spec_obj_get(entries@, "x"@),
            spec_obj_get(entries@, "y"@),
            spec_obj_get(entries@, "z"@),
        ) {
            (
                Some(StructuredValue::Num(x)),
                Some(StructuredValue::Num(y)),
                Some(StructuredValue::Num(z)),
            ) => Some(PayloadModel::Coordinates { x: x as int, y: y as int, z: z as int }),
            _ => None,
        },
        _ => None,
    }
}

/// What the value under the `LogEntry` tag yields: two strings and a
/// timestamp that must be a well-formed RFC 3339 datetime; the stored
/// timestamp is its canonical form.
pub open spec fn spec_log_of(v: StructuredValue) -> Option<PayloadModel> {
    match v {
        StructuredValue::Obj(entries) => match (
            spec_obj_get(entries@, "level"@),
            spec_obj_get(entries@, "message"@),
            spec_obj_get(entries@, "timestamp"@),
        ) {
            (
                Some(StructuredValue::Str(l)),
                Some(StructuredValue::Str(msg)),
                Some(StructuredValue::Str(ts)),
            ) => match rfc3339_reformat(ts@) {
                Some(u) => Some(PayloadModel::LogEntry { level: l@, message: msg@, timestamp: u }),
                None => None,
            },
            _ => None,
        },
        _ => None,
    }
}

/// What the value under the `Number` tag yields: the number itself.
pub open spec fn spec_number_of(v: StructuredValue) -> Option<PayloadModel> {
    match v {
        StructuredValue::Num(m) => Some(PayloadModel::Number(m as int)),
        _ => None,
    }
}

/// What tag `k` yields on this mapping: nothing when the tag is absent
/// or its value malformed.
pub open spec fn spec_try_tag(
    entries: Seq<(String, StructuredValue)>,
    k: int,
) -> Option<PayloadModel> {
    match spec_obj_get(entries, spec_tag_name(k)) {
        Some(v) => if k == 0 {
            spec_text_of(v)
        } else if k == 1 {
            spec_image_of(v)
        } else if k == 2 {
            spec_sensor_of(v)
        } else if k == 3 {
            spec_coordinates_of(v)
        } else if k == 4 {
            spec_log_of(v)
        } else {
            spec_number_of(v)
        },
        None => None,
    }
}

/// The first tag at or after priority `k` that yields a payload.
pub open spec fn spec_first_tag(
    entries: Seq<(String, StructuredValue)>,
    k: int,
) -> Option<PayloadModel>
    decreases 6 - k,
{
    if k < 0 || k >= 6 {
        None
    } else {
        match spec_try_tag(entries, k) {
            Some(p) => Some(p),
            None => spec_first_tag(entries, k + 1),
        }
    }
}

/// What the flexible decoder makes of a payload value: the first tag,
/// in priority order, that yields a payload — nothing when the value is
/// not a mapping or no tag yields one.
pub open spec fn spec_decode(v: StructuredValue) -> Option<PayloadModel> {
    match v {
        StructuredValue::Obj(entries) => spec_first_tag(entries@, 0),
        _ => None,
    }
}

/// When every tag from priority `i` on yields nothing, the scan from
/// `i` yields nothing.
pub proof fn lemma_first_tag_none_from(entries: Seq<(String, StructuredValue)>, i: int)
    requires
        0 <= i <= 6,
        forall|j: int| i <= j < 6 ==> spec_try_tag(entries, j) is None,
    ensures
        spec_first_tag(entries, i) is None,
    decreases 6 - i,
{
    if i < 6 {
        lemma_first_tag_none_from(entries, i + 1);
    }
}

/// The scan from `i` equals the scan from `k` when every tag between
/// them yields nothing.
pub proof fn lemma_first_tag_to(entries: Seq<(String, StructuredValue)>, i: int, k: int)
    requires
        0 <= i <= k < 6,
        forall|j: int| i <= j < k ==> spec_try_tag(entries, j) is None,
    ensures
        spec_first_tag(entries, i) == spec_first_tag(entries, k),
    decreases k - i,
{
    if i < k {
        lemma_first_tag_to(entries, i + 1, k);
    }
}

/// Priority and fallback law.  When tag `k` yields a payload and every
/// earlier tag yields none — absent, mistyped, or structurally broken —
/// the decoder returns tag `k`'s payload.  In particular, of two
/// well-formed tags the earlier one in the priority order wins
/// deterministically, and a malformed earlier tag does not stop a
/// well-formed later one from being recovered.
pub proof fn lemma_decode_priority(v: StructuredValue, k: int)
    requires
        v is Obj,
        0 <= k < 6,
        spec_try_tag(v->Obj_0@, k) is Some,
        forall|j: int| 0 <= j < k ==> spec_try_tag(v->Obj_0@, j) is None,
    ensures
        spec_decode(v) == spec_try_tag(v->Obj_0@, k),
{
    lemma_first_tag_to(v->Obj_0@, 0, k);
}

/// Whether a key is one of the six recognized tag names.
pub open spec fn spec_is_tag_name(s: Seq<char>) -> bool {
    exists|k: int| 0 <= k < 6 && spec_tag_name(k) == s
}

/// A key that no entry carries is not found.
pub proof fn lemma_obj_get_absent(entries: Seq<(String, StructuredValue)>, key: Seq<char>)
    requires
        forall|i: int| 0 <= i < entries.len() ==> entries[i].0@ != key,
    ensures
        spec_obj_get(entries, key) is None,
    decreases entries.len(),
{
    if entries.len() > 0 {
        assert forall|i: int| 0 <= i < entries.skip(1).len() implies entries.skip(1)[i].0@
            != key by {
            assert(entries.skip(1)[i] == entries[i + 1]);
        }
        lemma_obj_get_absent(entries.skip(1), key);
    }
}

/// The key found at position `i`: the first occurrence wins.
pub proof fn lemma_obj_get_at(entries: Seq<(String, StructuredValue)>, key: Seq<char>, i: int)
    requires
        0 <= i < entries.len(),
        entries[i].0@ == key,
        forall|j: int| 0 <= j < i ==> entries[j].0@ != key,
    ensures
        spec_obj_get(entries, key) == Some(entries[i].1),
    decreases i,
{
    if i > 0 {
        assert forall|j: int| 0 <= j < i - 1 implies entries.skip(1)[j].0@ != key by {
            assert(entries.skip(1)[j] == entries[j + 1]);
        }
        assert(entries.skip(1)[i - 1] == entries[i]);
        lemma_obj_get_at(entries.skip(1), key, i - 1);
    }
}

/// Give-up law.  A mapping none of whose keys is a recognized tag name
/// — the empty mapping among them — decodes to nothing; so does any
/// value that is not a mapping at all.  Giving up is a result, not a
/// failure.
pub proof fn lemma_decode_unrecognized(v: StructuredValue)
    requires
        v is Obj ==> forall|i: int|
            0 <= i < v->Obj_0@.len() ==> !spec_is_tag_name(v->Obj_0@[i].0@),
    ensures
        spec_decode(v) is None,
{
    if v is Obj {
        let e = v->Obj_0@;
        assert forall|j: int| 0 <= j < 6 implies spec_try_tag(e, j) is None by {
            assert forall|i: int| 0 <= i < e.len() implies e[i].0@ != spec_tag_name(j) by {
                assert(!spec_is_tag_name(e[i].0@));
            }
            lemma_obj_get_absent(e, spec_tag_name(j));
        }
        lemma_first_tag_none_from(e, 0);
    }
}

/// Reads a whole number in `0 ..= u32::MAX` out of thousandths.
fn num_as_u32(m: i64) -> (r: Option<u32>)
    ensures
        match r {
            Some(w) => spec_num_as_int(m as int, u32::MAX as int) == Some(w as int),
            None => spec_num_as_int(m as int, u32::MAX as int) is None,
        },
{
    if m >= 0 && m % 1000 == 0 && m / 1000 <= u32::MAX as i64 {
        Some((m / 1000) as u32)
    } else {
        None
    }
}

/// Reads a whole number in `0 ..= 255` out of thousandths.
fn num_as_byte(m: i64) -> (r: Option<u8>)
    ensures
        match r {
            Some(b) => spec_num_as_int(m as int, 255) == Some(b as int),
            None => spec_num_as_int(m as int, 255) is None,
        },
{
    if m >= 0 && m % 1000 == 0 && m / 1000 <= 255 {
        Some((m / 1000) as u8)
    } else {
        None
    }
}

/// Reads the byte sequence held by an array value.
fn bytes_of_array(items: &Vec<StructuredValue>) -> (r: Option<Vec<u8>>)
    ensures
        match r {
            Some(bs) => spec_bytes_of(items@) == Some(bs@),
            None => spec_bytes_of(items@) is None,
        },
{
    let mut out: Vec<u8> = Vec::new();
    let mut i: usize = 0;
    proof {
        assert(items@.skip(0) =~= items@);
    }
    while i < items.len()
        invariant
            i <= items@.len(),
            out@.len() == i,
            spec_bytes_of(items@) == match spec_bytes_of(items@.skip(i as int)) {
                Some(rest) => Some(out@ + rest),
                None => None::<Seq<u8>>,
            },
        decreases items@.len() - i,
    {
        proof {
            assert(items@.skip(i as int)[0] == items@[i as int]);
            assert(items@.skip(i as int).skip(1) =~= items@.skip(i as int + 1));
        }
        match &items[i] {
            StructuredValue::Num(m) => {
                match num_as_byte(*m) {
                    Some(b) => {
                        let ghost prefix = out@;
                        out.push(b);
                        proof {
                            let tail = spec_bytes_of(items@.skip(i as int + 1));
                            if tail is Some {
                                assert(prefix + (seq![b] + tail->Some_0) =~= (prefix + seq![b])
                                    + tail->Some_0);
                            }
                        }
                    },
                    None => {
                        return None;
                    },
                }
            },
            _ => {
                return None;
            },
        }
        i = i + 1;
    }
    proof {
        assert(items@.skip(items@.len() as int) =~= Seq::<StructuredValue>::empty());
        assert(out@ + Seq::<u8>::empty() =~= out@);
    }
    Some(out)
}

/// Decodes the value under the `Text` tag.
fn text_of(v: &StructuredValue) -> (r: Option<DataPayload>)
    ensures
        match r {
            Some(p) => spec_text_of(*v) == Some(p@),
            None => spec_text_of(*v) is None,
        },
{
    match v {
        StructuredValue::Str(s) => Some(DataPayload::Text(s.clone())),
        _ => None,
    }
}

/// Decodes the value under the `ImageData` tag.
fn image_of(v: &StructuredValue) -> (r: Option<DataPayload>)
    ensures
        match r {
            Some(p) => spec_image_of(*v) == Some(p@),
            None => spec_image_of(*v) is None,
        },
{
    match v {
        StructuredValue::Obj(entries) => {
            let kw = String::from_str("width");
            let kh = String::from_str("height");
            let kf = String::from_str("format");
            let kd = String::from_str("data");
            match (obj_get(entries, &kw), obj_get(entries, &kh), obj_get(entries, &kf), obj_get(
                entries,
                &kd,
            )) {
                (
                    Some(StructuredValue::Num(wm)),
                    Some(StructuredValue::Num(hm)),
                    Some(StructuredValue::Str(f)),
                    Some(StructuredValue::Arr(items)),
                ) => match (num_as_u32(*wm), num_as_u32(*hm), bytes_of_array(items)) {
                    (Some(w), Some(h), Some(data)) => Some(
                        DataPayload::ImageData { width: w, height: h, format: f.clone(), data },
                    ),
                    _ => None,
                },
                _ => None,
            }
        },
        _ => None,
    }
}

/// Decodes the value under the `SensorData` tag.
fn sensor_of(v: &StructuredValue) -> (r: Option<DataPayload>)
    ensures
        match r {
            Some(p) => spec_sensor_of(*v) == Some(p@),
            None => spec_sensor_of(*v) is None,
        },
{
    match v {
        StructuredValue::Obj(entries) => {
            let ks = String::from_str("sensor_id");
            let kt = String::from_str("temperature");
            let kh = String::from_str("humidity");
            let kp = String::from_str("pressure");
            match (obj_get(entries, &ks), obj_get(entries, &kt), obj_get(entries, &kh), obj_get(
                entries,
                &kp,
            )) {
                (
                    Some(StructuredValue::Str(sid)),
                    Some(StructuredValue::Num(t)),
                    Some(StructuredValue::Num(h)),
                    Some(StructuredValue::Num(p)),
                ) => Some(
                    DataPayload::SensorData {
                        sensor_id: sid.clone(),
                        temperature: *t,
                        humidity: *h,
                        pressure: *p,
                    },
                ),
                _ => None,
            }
        },
        _ => None,
    }
}

/// Decodes the value under the `Coordinates` tag.
fn coordinates_of(v: &StructuredValue) -> (r: Option<DataPayload>)
    ensures
        match r {
            Some(p) => spec_coordinates_of(*v) == Some(p@),
            None => spec_coordinates_of(*v) is None,
        },
{
    match v {
        StructuredValue::Obj(entries) => {
            let kx = String::from_str("x");
            let ky = String::from_str("y");
            let kz = String::from_str("z");
            match (obj_get(entries, &kx), obj_get(entries, &ky), obj_get(entries, &kz)) {
                (
                    Some(StructuredValue::Num(x)),
                    Some(StructuredValue::Num(y)),
                    Some(StructuredValue::Num(z)),
                ) => Some(DataPayload::Coordinates { x: *x, y: *y, z: *z }),
                _ => None,
            }
        },
        _ => None,
    }
}

/// Decodes the value under the `LogEntry` tag, canonicalizing the
/// timestamp.
fn log_of(v: &StructuredValue) -> (r: Option<DataPayload>)
    ensures
        match r {
            Some(p) => spec_log_of(*v) == Some(p@),
            None => spec_log_of(*v) is None,
        },
{
    match v {
        StructuredValue::Obj(entries) => {
            let kl = String::from_str("level");
            let km = String::from_str("message");
            let kt = String::from_str("timestamp");
            match (obj_get(entries, &kl), obj_get(entries, &km), obj_get(entries, &kt)) {
                (
                    Some(StructuredValue::Str(l)),
                    Some(StructuredValue::Str(msg)),
                    Some(StructuredValue::Str(ts)),
                ) => match normalize_timestamp(ts.as_str()) {
                    Some(u) => Some(
                        DataPayload::LogEntry {
                            level: l.clone(),
                            message: msg.clone(),
                            timestamp: u,
                        },
                    ),
                    None => None,
                },
                _ => None,
            }
        },
        _ => None,
    }
}

/// Decodes the value under the `Number` tag.
fn number_of(v: &StructuredValue) -> (r: Option<DataPayload>)
    ensures
        match r {
            Some(p) => spec_number_of(*v) == Some(p@),
            None => spec_number_of(*v) is None,
        },
{
    match v {
        StructuredValue::Num(m) => Some(DataPayload::Number(*m)),
        _ => None,
    }
}

/// Tries the tags of a payload mapping in priority order, returning the
/// first that yields a payload.
pub fn convert_payload(value: &StructuredValue) -> (r: Option<DataPayload>)
    ensures
        match r {
            Some(p) => spec_decode(*value) == Some(p@),
            None => spec_decode(*value) is None,
        },
{
    match value {
        StructuredValue::Obj(entries) => {
            let ghost e = entries@;
            let k0 = String::from_str("Text");
            let r0 = match obj_get(entries, &k0) {
                Some(v) => text_of(v),
                None => None,
            };
            if let Some(p) = r0 {
                proof {
                    assert(spec_first_tag(e, 0) == spec_try_tag(e, 0));
                }
                return Some(p);
            }
            let k1 = String::from_str("ImageData");
            let r1 = match obj_get(entries, &k1) {
                Some(v) => image_of(v),
                None => None,
            };
            if let Some(p) = r1 {
                proof {
                    assert(spec_first_tag(e, 0) == spec_first_tag(e, 1));
                    assert(spec_first_tag(e, 1) == spec_try_tag(e, 1));
                }
                return Some(p);
            }
            let k2 = String::from_str("SensorData");
            let r2 = match obj_get(entries, &k2) {
                Some(v) => sensor_of(v),
                None => None,
            };
            if let Some(p) = r2 {
                proof {
                    assert(spec_first_tag(e, 0) == spec_first_tag(e, 1));
                    assert(spec_first_tag(e, 1) == spec_first_tag(e, 2));
                    assert(spec_first_tag(e, 2) == spec_try_tag(e, 2));
                }
                return Some(p);
            }
            let k3 = String::from_str("Coordinates");
            let r3 = match obj_get(entries, &k3) {
                Some(v) => coordinates_of(v),
                None => None,
            };
            if let Some(p) = r3 {
                proof {
                    assert(spec_first_tag(e, 0) == spec_first_tag(e, 1));
                    assert(spec_first_tag(e, 1) == spec_first_tag(e, 2));
                    assert(spec_first_tag(e, 2) == spec_first_tag(e, 3));
                    assert(spec_first_tag(e, 3) == spec_try_tag(e, 3));
                }
                return Some(p);
            }
            let k4 = String::from_str("LogEntry");
            let r4 = match obj_get(entries, &k4) {
                Some(v) => log_of(v),
                None => None,
            };
            if let Some(p) = r4 {
                proof {
                    assert(spec_first_tag(e, 0) == spec_first_tag(e, 1));
                    assert(spec_first_tag(e, 1) == spec_first_tag(e, 2));
                    assert(spec_first_tag(e, 2) == spec_first_tag(e, 3));
                    assert(spec_first_tag(e, 3) == spec_first_tag(e, 4));
                    assert(spec_first_tag(e, 4) == spec_try_tag(e, 4));
                }
                return Some(p);
            }
            let k5 = String::from_str("Number");
            let r5 = match obj_get(entries, &k5) {
                Some(v) => number_of(v),
                None => None,
            };
            proof {
                assert(spec_first_tag(e, 6) is None);
                assert(spec_first_tag(e, 0) == spec_first_tag(e, 1));
                assert(spec_first_tag(e, 1) == spec_first_tag(e, 2));
                assert(spec_first_tag(e, 2) == spec_first_tag(e, 3));
                assert(spec_first_tag(e, 3) == spec_first_tag(e, 4));
                assert(spec_first_tag(e, 4) == spec_first_tag(e, 5));
            }
            r5
        },
        _ => None,
    }
}

} // verus!
