//! Type-specific processing of a resolved payload.
//!
//! Each payload shape is turned into a human-readable result line.  No
//! shape can fail: every case is total.  The only computation beyond
//! rendering is the Euclidean distance of a coordinate triple from the
//! origin, taken on squares of thousandths and rounded down.

use vstd::prelude::*;
use crate::numfmt::fmt_milli1;
use crate::numfmt::fmt_milli2;
use crate::numfmt::fmt_milli2_u64;
use crate::numfmt::isqrt_u128;
use crate::numfmt::lemma_isqrt_bounds;
use crate::numfmt::spec_dec_digits;
use crate::numfmt::spec_fmt_milli1;
use crate::numfmt::spec_fmt_milli2;
use crate::numfmt::spec_isqrt;
use crate::numfmt::u64_to_string;
use crate::payload::DataPayload;
use crate::payload::PayloadModel;

verus! {

/// The distance from the origin in thousandths, rounded down: the integer
/// square root of the summed squares.
pub open spec fn spec_distance_milli(x: int, y: int, z: int) -> int {
    spec_isqrt((x * x + y * y + z * z) as nat) as int
}

/// Computes the distance of a coordinate triple from the origin, in
/// thousandths.
pub fn distance_milli(x: i64, y: i64, z: i64) -> (d: u64)
    ensures
        d as int == spec_distance_milli(x as int, y as int, z as int),
{
    let xi = x as i128;
    let yi = y as i128;
    let zi = z as i128;
    proof {
        assert(xi * xi >= 0 && xi * xi <= 0x40000000000000000000000000000000) by (nonlinear_arith)
            requires
                -0x8000000000000000 <= xi <= 0x7fffffffffffffff,
        ;
        assert(yi * yi >= 0 && yi * yi <= 0x40000000000000000000000000000000) by (nonlinear_arith)
            requires
                -0x8000000000000000 <= yi <= 0x7fffffffffffffff,
        ;
        assert(zi * zi >= 0 && zi * zi <= 0x40000000000000000000000000000000) by (nonlinear_arith)
            requires
                -0x8000000000000000 <= zi <= 0x7fffffffffffffff,
        ;
    }
    let xs = (xi * xi) as u128;
    let ys = (yi * yi) as u128;
    let zs = (zi * zi) as u128;
    let sum: u128 = xs + ys + zs;
    let rt = isqrt_u128(sum);
    proof {
        lemma_isqrt_bounds(sum as nat);
        assert(rt < 0x10000000000000000) by (nonlinear_arith)
            requires
                (rt as int) * (rt as int) <= sum as int,
                sum as int <= 0xc0000000000000000000000000000000,
        ;
        assert((xi as int) * (xi as int) == (x as int) * (x as int));
        assert(sum as int == (x as int) * (x as int) + (y as int) * (y as int) + (z as int) * (
        z as int));
    }
    rt as u64
}

/// The result line for a payload: what was processed and what came of it.
pub open spec fn spec_status(p: PayloadModel) -> Seq<char> {
    match p {
        PayloadModel::Text(s) => "Text processed: "@ + spec_dec_digits(s.len()) + " chars"@,
        PayloadModel::Number(m) => "Number processed: "@ + spec_fmt_milli2(m),
        PayloadModel::Coordinates { x, y, z } => "Coordinates processed: distance from origin = "@
            + spec_fmt_milli2(spec_distance_milli(x, y, z)),
        PayloadModel::SensorData { temperature, humidity, pressure, .. } =>
            "Sensor data processed: temp="@ + spec_fmt_milli1(temperature) + "°C, humidity="@
            + spec_fmt_milli1(humidity) + "%, pressure="@ + spec_fmt_milli1(pressure) + "hPa"@,
        PayloadModel::ImageData { data, .. } => "Image processed: "@
            + spec_dec_digits(data.len()) + " bytes"@,
        PayloadModel::LogEntry { timestamp, .. } => "Log entry processed at "@
            + timestamp,
    }
}

/// Processes one payload into its result line.  Total: every shape
/// yields a line.
pub fn process_data(payload: &DataPayload) -> (r: String)
    ensures
        r@ == spec_status(payload@),
{
    match payload {
        DataPayload::Text(text) => {
            let mut s = String::from_str("Text processed: ");
            let n = text.as_str().unicode_len();
            let count = u64_to_string(n as u64);
            s.append(count.as_str());
            s.append(" chars");
            proof {
                assert(s@ =~= spec_status(payload@));
            }
            s
        },
        DataPayload::Number(num) => {
            let mut s = String::from_str("Number processed: ");
            let shown = fmt_milli2(*num);
            s.append(shown.as_str());
            proof {
                assert(s@ =~= spec_status(payload@));
            }
            s
        },
        DataPayload::Coordinates { x, y, z } => {
            let mut s = String::from_str("Coordinates processed: distance from origin = ");
            let d = distance_milli(*x, *y, *z);
            let shown = fmt_milli2_u64(d);
            s.append(shown.as_str());
            proof {
                assert(s@ =~= spec_status(payload@));
            }
            s
        },
        DataPayload::SensorData { temperature, humidity, pressure, .. } => {
            let mut s = String::from_str("Sensor data processed: temp=");
            let t = fmt_milli1(*temperature);
            s.append(t.as_str());
            s.append("°C, humidity=");
            let h = fmt_milli1(*humidity);
            s.append(h.as_str());
            s.append("%, pressure=");
            let p = fmt_milli1(*pressure);
            s.append(p.as_str());
            s.append("hPa");
            proof {
                assert(s@ =~= spec_status(payload@));
            }
            s
        },
        DataPayload::ImageData { data, .. } => {
            let mut s = String::from_str("Image processed: ");
            let n = data.len();
            let count = u64_to_string(n as u64);
            s.append(count.as_str());
            s.append(" bytes");
            proof {
                assert(s@ =~= spec_status(payload@));
            }
            s
        },
        DataPayload::LogEntry { timestamp, .. } => {
            let mut s = String::from_str("Log entry processed at ");
            s.append(timestamp.as_str());
            proof {
                assert(s@ =~= spec_status(payload@));
            }
            s
        },
    }
}

} // verus!
