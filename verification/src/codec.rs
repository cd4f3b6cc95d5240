//! The structured text form of the sensor records: one encoder and one
//! decoder per record type, with a proof for each that decoding an encoded
//! record yields the record back.
//!
//! A record is written as its name, then `{`, then each field as
//! `name=value` separated by `;`, then `}`. Integers are decimal digit
//! strings, optional values are the word `none` or the integer, and
//! strings are length-prefixed (count, colon, characters).

use crate::models::{
    AccelerometerData, GpsData, MagnetometerData, PressureData, TemperatureData, WifiNetwork,
};
use crate::numfmt::{i64_dec_string, int_str, u64_dec_string};
use crate::parse::{
    lemma_sp_i64, lemma_sp_lit, lemma_sp_opt_i64, lemma_sp_str, p_i64, p_lit, p_opt_i64, p_str,
    sp_i64, sp_lit, sp_opt_i64, sp_str, tok_opt, tok_str,
};
use vstd::prelude::*;

verus! {

use vstd::string::StrSliceExecFns;
use vstd::string::StringExecFns;

/// The text form of a pressure record.
pub open spec fn enc_pressure(d: PressureData) -> Seq<char> {
    "pressure{pressure="@ + (int_str(d.pressure as int) + (";timestamp="@ + (int_str(
        d.timestamp as int,
    ) + "}"@)))
}

/// The record denoted by the text form of a pressure record, if any.
pub open spec fn dec_pressure(s: Seq<char>) -> Option<PressureData> {
    match sp_lit("pressure{pressure="@, s) {
        Option::None => Option::None,
        Option::Some(s1) => match sp_i64(s1) {
            Option::None => Option::None,
            Option::Some((p, s2)) => match sp_lit(";timestamp="@, s2) {
                Option::None => Option::None,
                Option::Some(s3) => match sp_i64(s3) {
                    Option::None => Option::None,
                    Option::Some((ts, s4)) => match sp_lit("}"@, s4) {
                        Option::None => Option::None,
                        Option::Some(rem) => if rem.len() == 0 {
                            Option::Some(PressureData { pressure: p, timestamp: ts })
                        } else {
                            Option::None
                        },
                    },
                },
            },
        },
    }
}

/// Encode a pressure record to its text form.
pub fn encode_pressure(d: &PressureData) -> (r: String)
    ensures
        r@ == enc_pressure(*d),
{
    let mut s = "pressure{pressure=".to_owned();
    let p = i64_dec_string(d.pressure);
    s.append(p.as_str());
    s.append(";timestamp=");
    let ts = i64_dec_string(d.timestamp);
    s.append(ts.as_str());
    s.append("}");
    proof {
        assert(s@ =~= enc_pressure(*d));
    }
    s
}

/// Decode the text form of a pressure record.
pub fn decode_pressure(s: &str) -> (r: Option<PressureData>)
    ensures
        r == dec_pressure(s@),
{
    let s1 = match p_lit(s, "pressure{pressure=") {
        None => {
            return None;
        },
        Some(t) => t,
    };
    let (p, s2) = match p_i64(s1) {
        None => {
            return None;
        },
        Some(t) => t,
    };
    let s3 = match p_lit(s2, ";timestamp=") {
        None => {
            return None;
        },
        Some(t) => t,
    };
    let (ts, s4) = match p_i64(s3) {
        None => {
            return None;
        },
        Some(t) => t,
    };
    let rem = match p_lit(s4, "}") {
        None => {
            return None;
        },
        Some(t) => t,
    };
    if rem.unicode_len() == 0 {
        Some(PressureData { pressure: p, timestamp: ts })
    } else {
        None
    }
}

/// Decoding the text form of a pressure record yields the record back.
pub proof fn lemma_pressure_round_trip(d: PressureData)
    ensures
        dec_pressure(enc_pressure(d)) == Option::Some(d),
{
    reveal_strlit(";timestamp=");
    reveal_strlit("}");
    let t4 = "}"@;
    let t3 = int_str(d.timestamp as int) + t4;
    let t2 = ";timestamp="@ + t3;
    let t1 = int_str(d.pressure as int) + t2;
    lemma_sp_lit("pressure{pressure="@, t1);
    assert(!crate::numfmt::is_dec_digit(';'));
    lemma_sp_i64(d.pressure, t2);
    lemma_sp_lit(";timestamp="@, t3);
    assert(!crate::numfmt::is_dec_digit('}'));
    lemma_sp_i64(d.timestamp, t4);
    lemma_sp_lit("}"@, Seq::<char>::empty());
    assert(t4 + Seq::<char>::empty() =~= t4);
}

/// The text form of a temperature record.
pub open spec fn enc_temperature(d: TemperatureData) -> Seq<char> {
    "temperature{temperature="@ + (int_str(d.temperature as int) + (";timestamp="@ + (int_str(
        d.timestamp as int,
    ) + "}"@)))
}

/// The record denoted by the text form of a temperature record, if any.
pub open spec fn dec_temperature(s: Seq<char>) -> Option<TemperatureData> {
    match sp_lit("temperature{temperature="@, s) {
        Option::None => Option::None,
        Option::Some(s1) => match sp_i64(s1) {
            Option::None => Option::None,
            Option::Some((t, s2)) => match sp_lit(";timestamp="@, s2) {
                Option::None => Option::None,
                Option::Some(s3) => match sp_i64(s3) {
                    Option::None => Option::None,
                    Option::Some((ts, s4)) => match sp_lit("}"@, s4) {
                        Option::None => Option::None,
                        Option::Some(rem) => if rem.len() == 0 {
                            Option::Some(TemperatureData { temperature: t, timestamp: ts })
                        } else {
                            Option::None
                        },
                    },
                },
            },
        },
    }
}

/// Encode a temperature record to its text form.
pub fn encode_temperature(d: &TemperatureData) -> (r: String)
    ensures
        r@ == enc_temperature(*d),
{
    let mut s = "temperature{temperature=".to_owned();
    let t = i64_dec_string(d.temperature);
    s.append(t.as_str());
    s.append(";timestamp=");
    let ts = i64_dec_string(d.timestamp);
    s.append(ts.as_str());
    s.append("}");
    proof {
        assert(s@ =~= enc_temperature(*d));
    }
    s
}

/// Decode the text form of a temperature record.
pub fn decode_temperature(s: &str) -> (r: Option<TemperatureData>)
    ensures
        r == dec_temperature(s@),
{
    let s1 = match p_lit(s, "temperature{temperature=") {
        None => {
            return None;
        },
        Some(t) => t,
    };
    let (t, s2) = match p_i64(s1) {
        None => {
            return None;
        },
        Some(t) => t,
    };
    let s3 = match p_lit(s2, ";timestamp=") {
        None => {
            return None;
        },
        Some(t) => t,
    };
    let (ts, s4) = match p_i64(s3) {
        None => {
            return None;
        },
        Some(t) => t,
    };
    let rem = match p_lit(s4, "}") {
        None => {
            return None;
        },
        Some(t) => t,
    };
    if rem.unicode_len() == 0 {
        Some(TemperatureData { temperature: t, timestamp: ts })
    } else {
        None
    }
}

/// Decoding the text form of a temperature record yields the record back.
pub proof fn lemma_temperature_round_trip(d: TemperatureData)
    ensures
        dec_temperature(enc_temperature(d)) == Option::Some(d),
{
    reveal_strlit(";timestamp=");
    reveal_strlit("}");
    let t4 = "}"@;
    let t3 = int_str(d.timestamp as int) + t4;
    let t2 = ";timestamp="@ + t3;
    let t1 = int_str(d.temperature as int) + t2;
    lemma_sp_lit("temperature{temperature="@, t1);
    assert(!crate::numfmt::is_dec_digit(';'));
    lemma_sp_i64(d.temperature, t2);
    lemma_sp_lit(";timestamp="@, t3);
    assert(!crate::numfmt::is_dec_digit('}'));
    lemma_sp_i64(d.timestamp, t4);
    lemma_sp_lit("}"@, Seq::<char>::empty());
    assert(t4 + Seq::<char>::empty() =~= t4);
}

/// The text form of an accelerometer record.
pub open spec fn enc_accelerometer(d: AccelerometerData) -> Seq<char> {
    "accelerometer{x="@ + (int_str(d.x as int) + (";y="@ + (int_str(d.y as int) + (";z="@ + (
    int_str(d.z as int) + (";timestamp="@ + (int_str(d.timestamp as int) + (";accuracy="@ + (
    int_str(d.accuracy as int) + "}"@)))))))))
}

/// The record denoted by the text form of an accelerometer record, if any.
pub open spec fn dec_accelerometer(s: Seq<char>) -> Option<AccelerometerData> {
    match sp_lit("accelerometer{x="@, s) {
        Option::None => Option::None,
        Option::Some(s1) => match sp_i64(s1) {
            Option::None => Option::None,
            Option::Some((x, s2)) => match sp_lit(";y="@, s2) {
                Option::None => Option::None,
                Option::Some(s3) => match sp_i64(s3) {
                    Option::None => Option::None,
                    Option::Some((y, s4)) => match sp_lit(";z="@, s4) {
                        Option::None => Option::None,
                        Option::Some(s5) => match sp_i64(s5) {
                            Option::None => Option::None,
                            Option::Some((z, s6)) => match sp_lit(";timestamp="@, s6) {
                                Option::None => Option::None,
                                Option::Some(s7) => match sp_i64(s7) {
                                    Option::None => Option::None,
                                    Option::Some((ts, s8)) => match sp_lit(";accuracy="@, s8) {
                                        Option::None => Option::None,
                                        Option::Some(s9) => match sp_i64(s9) {
                                            Option::None => Option::None,
                                            Option::Some((ac, s10)) => match sp_lit("}"@, s10) {
                                                Option::None => Option::None,
                                                Option::Some(rem) => if rem.len() == 0
                                                    && -0x8000_0000 <= ac <= 0x7fff_ffff {
                                                    Option::Some(
                                                        AccelerometerData {
                                                            x,
                                                            y,
                                                            z,
                                                            timestamp: ts,
                                                            accuracy: ac as i32,
                                                        },
                                                    )
                                                } else {
                                                    Option::None
                                                },
                                            },
                                        },
                                    },
                                },
                            },
                        },
                    },
                },
            },
        },
    }
}

/// Encode an accelerometer record to its text form.
pub fn encode_accelerometer(d: &AccelerometerData) -> (r: String)
    ensures
        r@ == enc_accelerometer(*d),
{
    let mut s = "accelerometer{x=".to_owned();
    let x = i64_dec_string(d.x);
    s.append(x.as_str());
    s.append(";y=");
    let y = i64_dec_string(d.y);
    s.append(y.as_str());
    s.append(";z=");
    let z = i64_dec_string(d.z);
    s.append(z.as_str());
    s.append(";timestamp=");
    let ts = i64_dec_string(d.timestamp);
    s.append(ts.as_str());
    s.append(";accuracy=");
    let ac = i64_dec_string(d.accuracy as i64);
    s.append(ac.as_str());
    s.append("}");
    proof {
        assert(s@ =~= enc_accelerometer(*d));
    }
    s
}

/// Decode the text form of an accelerometer record.
pub fn decode_accelerometer(s: &str) -> (r: Option<AccelerometerData>)
    ensures
        r == dec_accelerometer(s@),
{
    let s1 = match p_lit(s, "accelerometer{x=") {
        None => {
            return None;
        },
        Some(t) => t,
    };
    let (x, s2) = match p_i64(s1) {
        None => {
            return None;
        },
        Some(t) => t,
    };
    let s3 = match p_lit(s2, ";y=") {
        None => {
            return None;
        },
        Some(t) => t,
    };
    let (y, s4) = match p_i64(s3) {
        None => {
            return None;
        },
        Some(t) => t,
    };
    let s5 = match p_lit(s4, ";z=") {
        None => {
            return None;
        },
        Some(t) => t,
    };
    let (z, s6) = match p_i64(s5) {
        None => {
            return None;
        },
        Some(t) => t,
    };
    let s7 = match p_lit(s6, ";timestamp=") {
        None => {
            return None;
        },
        Some(t) => t,
    };
    let (ts, s8) = match p_i64(s7) {
        None => {
            return None;
        },
        Some(t) => t,
    };
    let s9 = match p_lit(s8, ";accuracy=") {
        None => {
            return None;
        },
        Some(t) => t,
    };
    let (ac, s10) = match p_i64(s9) {
        None => {
            return None;
        },
        Some(t) => t,
    };
    let rem = match p_lit(s10, "}") {
        None => {
            return None;
        },
        Some(t) => t,
    };
    if rem.unicode_len() == 0 && ac >= -0x8000_0000i64 && ac <= 0x7fff_ffffi64 {
        Some(AccelerometerData { x, y, z, timestamp: ts, accuracy: ac as i32 })
    } else {
        None
    }
}

/// Decoding the text form of an accelerometer record yields the record back.
pub proof fn lemma_accelerometer_round_trip(d: AccelerometerData)
    ensures
        dec_accelerometer(enc_accelerometer(d)) == Option::Some(d),
{
    reveal_strlit(";y=");
    reveal_strlit(";z=");
    reveal_strlit(";timestamp=");
    reveal_strlit(";accuracy=");
    reveal_strlit("}");
    assert(!crate::numfmt::is_dec_digit(';'));
    assert(!crate::numfmt::is_dec_digit('}'));
    let t10 = "}"@;
    let t9 = int_str(d.accuracy as int) + t10;
    let t8 = ";accuracy="@ + t9;
    let t7 = int_str(d.timestamp as int) + t8;
    let t6 = ";timestamp="@ + t7;
    let t5 = int_str(d.z as int) + t6;
    let t4 = ";z="@ + t5;
    let t3 = int_str(d.y as int) + t4;
    let t2 = ";y="@ + t3;
    let t1 = int_str(d.x as int) + t2;
    lemma_sp_lit("accelerometer{x="@, t1);
    lemma_sp_i64(d.x, t2);
    lemma_sp_lit(";y="@, t3);
    lemma_sp_i64(d.y, t4);
    lemma_sp_lit(";z="@, t5);
    lemma_sp_i64(d.z, t6);
    lemma_sp_lit(";timestamp="@, t7);
    lemma_sp_i64(d.timestamp, t8);
    lemma_sp_lit(";accuracy="@, t9);
    lemma_sp_i64(d.accuracy as i64, t10);
    lemma_sp_lit("}"@, Seq::<char>::empty());
    assert(t10 + Seq::<char>::empty() =~= t10);
}

/// The text form of a magnetometer record.
pub open spec fn enc_magnetometer(d: MagnetometerData) -> Seq<char> {
    "magnetometer{x="@ + (int_str(d.x as int) + (";y="@ + (int_str(d.y as int) + (";z="@ + (
    int_str(d.z as int) + (";heading="@ + (int_str(d.heading as int) + (";timestamp="@ + (int_str(
        d.timestamp as int,
    ) + (";accuracy="@ + (int_str(d.accuracy as int) + "}"@)))))))))))
}

/// The record denoted by the text form of a magnetometer record, if any.
pub open spec fn dec_magnetometer(s: Seq<char>) -> Option<MagnetometerData> {
    match sp_lit("magnetometer{x="@, s) {
        Option::None => Option::None,
        Option::Some(s1) => match sp_i64(s1) {
            Option::None => Option::None,
            Option::Some((x, s2)) => match sp_lit(";y="@, s2) {
                Option::None => Option::None,
                Option::Some(s3) => match sp_i64(s3) {
                    Option::None => Option::None,
                    Option::Some((y, s4)) => match sp_lit(";z="@, s4) {
                        Option::None => Option::None,
                        Option::Some(s5) => match sp_i64(s5) {
                            Option::None => Option::None,
                            Option::Some((z, s6)) => match sp_lit(";heading="@, s6) {
                                Option::None => Option::None,
                                Option::Some(s7) => match sp_i64(s7) {
                                    Option::None => Option::None,
                                    Option::Some((h, s8)) => match sp_lit(";timestamp="@, s8) {
                                        Option::None => Option::None,
                                        Option::Some(s9) => match sp_i64(s9) {
                                            Option::None => Option::None,
                                            Option::Some((ts, s10)) => match sp_lit(
                                                ";accuracy="@,
                                                s10,
                                            ) {
                                                Option::None => Option::None,
                                                Option::Some(s11) => match sp_i64(s11) {
                                                    Option::None => Option::None,
                                                    Option::Some((ac, s12)) => match sp_lit(
                                                        "}"@,
                                                        s12,
                                                    ) {
                                                        Option::None => Option::None,
                                                        Option::Some(rem) => if rem.len() == 0
                                                            && -0x8000_0000 <= ac <= 0x7fff_ffff {
                                                            Option::Some(
                                                                MagnetometerData {
                                                                    x,
                                                                    y,
                                                                    z,
                                                                    heading: h,
                                                                    timestamp: ts,
                                                                    accuracy: ac as i32,
                                                                },
                                                            )
                                                        } else {
                                                            Option::None
                                                        },
                                                    },
                                                },
                                            },
                                        },
                                    },
                                },
                            },
                        },
                    },
                },
            },
        },
    }
}

/// Encode a magnetometer record to its text form.
#[verifier::rlimit(60)]
pub fn encode_magnetometer(d: &MagnetometerData) -> (r: String)
    ensures
        r@ == enc_magnetometer(*d),
{
    let mut s = "magnetometer{x=".to_owned();
    let x = i64_dec_string(d.x);
    s.append(x.as_str());
    s.append(";y=");
    let y = i64_dec_string(d.y);
    s.append(y.as_str());
    s.append(";z=");
    let z = i64_dec_string(d.z);
    s.append(z.as_str());
    s.append(";heading=");
    let h = i64_dec_string(d.heading);
    s.append(h.as_str());
    s.append(";timestamp=");
    let ts = i64_dec_string(d.timestamp);
    s.append(ts.as_str());
    s.append(";accuracy=");
    let ac = i64_dec_string(d.accuracy as i64);
    s.append(ac.as_str());
    s.append("}");
    proof {
        assert(s@ =~= enc_magnetometer(*d));
    }
    s
}

/// Decode the text form of a magnetometer record.
pub fn decode_magnetometer(s: &str) -> (r: Option<MagnetometerData>)
    ensures
        r == dec_magnetometer(s@),
{
    let s1 = match p_lit(s, "magnetometer{x=") {
        None => {
            return None;
        },
        Some(t) => t,
    };
    let (x, s2) = match p_i64(s1) {
        None => {
            return None;
        },
        Some(t) => t,
    };
    let s3 = match p_lit(s2, ";y=") {
        None => {
            return None;
        },
        Some(t) => t,
    };
    let (y, s4) = match p_i64(s3) {
        None => {
            return None;
        },
        Some(t) => t,
    };
    let s5 = match p_lit(s4, ";z=") {
        None => {
            return None;
        },
        Some(t) => t,
    };
    let (z, s6) = match p_i64(s5) {
        None => {
            return None;
        },
        Some(t) => t,
    };
    let s7 = match p_lit(s6, ";heading=") {
        None => {
            return None;
        },
        Some(t) => t,
    };
    let (h, s8) = match p_i64(s7) {
        None => {
            return None;
        },
        Some(t) => t,
    };
    let s9 = match p_lit(s8, ";timestamp=") {
        None => {
            return None;
        },
        Some(t) => t,
    };
    let (ts, s10) = match p_i64(s9) {
        None => {
            return None;
        },
        Some(t) => t,
    };
    let s11 = match p_lit(s10, ";accuracy=") {
        None => {
            return None;
        },
        Some(t) => t,
    };
    let (ac, s12) = match p_i64(s11) {
        None => {
            return None;
        },
        Some(t) => t,
    };
    let rem = match p_lit(s12, "}") {
        None => {
            return None;
        },
        Some(t) => t,
    };
    if rem.unicode_len() == 0 && ac >= -0x8000_0000i64 && ac <= 0x7fff_ffffi64 {
        Some(MagnetometerData { x, y, z, heading: h, timestamp: ts, accuracy: ac as i32 })
    } else {
        None
    }
}

/// Decoding the text form of a magnetometer record yields the record back.
pub proof fn lemma_magnetometer_round_trip(d: MagnetometerData)
    ensures
        dec_magnetometer(enc_magnetometer(d)) == Option::Some(d),
{
    reveal_strlit(";y=");
    reveal_strlit(";z=");
    reveal_strlit(";heading=");
    reveal_strlit(";timestamp=");
    reveal_strlit(";accuracy=");
    reveal_strlit("}");
    assert(!crate::numfmt::is_dec_digit(';'));
    assert(!crate::numfmt::is_dec_digit('}'));
    let t12 = "}"@;
    let t11 = int_str(d.accuracy as int) + t12;
    let t10 = ";accuracy="@ + t11;
    let t9 = int_str(d.timestamp as int) + t10;
    let t8 = ";timestamp="@ + t9;
    let t7 = int_str(d.heading as int) + t8;
    let t6 = ";heading="@ + t7;
    let t5 = int_str(d.z as int) + t6;
    let t4 = ";z="@ + t5;
    let t3 = int_str(d.y as int) + t4;
    let t2 = ";y="@ + t3;
    let t1 = int_str(d.x as int) + t2;
    lemma_sp_lit("magnetometer{x="@, t1);
    lemma_sp_i64(d.x, t2);
    lemma_sp_lit(";y="@, t3);
    lemma_sp_i64(d.y, t4);
    lemma_sp_lit(";z="@, t5);
    lemma_sp_i64(d.z, t6);
    lemma_sp_lit(";heading="@, t7);
    lemma_sp_i64(d.heading, t8);
    lemma_sp_lit(";timestamp="@, t9);
    lemma_sp_i64(d.timestamp, t10);
    lemma_sp_lit(";accuracy="@, t11);
    lemma_sp_i64(d.accuracy as i64, t12);
    lemma_sp_lit("}"@, Seq::<char>::empty());
    assert(t12 + Seq::<char>::empty() =~= t12);
}

/// The text form of a GPS record.
pub open spec fn enc_gps(d: GpsData) -> Seq<char> {
    "gps{latitude="@ + (int_str(d.latitude as int) + (";longitude="@ + (int_str(
        d.longitude as int,
    ) + (";altitude="@ + (tok_opt(d.altitude) + (";accuracy="@ + (int_str(d.accuracy as int) + (
    ";speed="@ + (tok_opt(d.speed) + (";timestamp="@ + (int_str(d.timestamp as int)
        + "}"@)))))))))))
}

/// The record denoted by the text form of a GPS record, if any.
pub open spec fn dec_gps(s: Seq<char>) -> Option<GpsData> {
    match sp_lit("gps{latitude="@, s) {
        Option::None => Option::None,
        Option::Some(s1) => match sp_i64(s1) {
            Option::None => Option::None,
            Option::Some((lat, s2)) => match sp_lit(";longitude="@, s2) {
                Option::None => Option::None,
                Option::Some(s3) => match sp_i64(s3) {
                    Option::None => Option::None,
                    Option::Some((lon, s4)) => match sp_lit(";altitude="@, s4) {
                        Option::None => Option::None,
                        Option::Some(s5) => match sp_opt_i64(s5) {
                            Option::None => Option::None,
                            Option::Some((alt, s6)) => match sp_lit(";accuracy="@, s6) {
                                Option::None => Option::None,
                                Option::Some(s7) => match sp_i64(s7) {
                                    Option::None => Option::None,
                                    Option::Some((ac, s8)) => match sp_lit(";speed="@, s8) {
                                        Option::None => Option::None,
                                        Option::Some(s9) => match sp_opt_i64(s9) {
                                            Option::None => Option::None,
                                            Option::Some((sp, s10)) => match sp_lit(
                                                ";timestamp="@,
                                                s10,
                                            ) {
                                                Option::None => Option::None,
                                                Option::Some(s11) => match sp_i64(s11) {
                                                    Option::None => Option::None,
                                                    Option::Some((ts, s12)) => match sp_lit(
                                                        "}"@,
                                                        s12,
                                                    ) {
                                                        Option::None => Option::None,
                                                        Option::Some(rem) => if rem.len() == 0 {
                                                            Option::Some(
                                                                GpsData {
                                                                    latitude: lat,
                                                                    longitude: lon,
                                                                    altitude: alt,
                                                                    accuracy: ac,
                                                                    speed: sp,
                                                                    timestamp: ts,
                                                                },
                                                            )
                                                        } else {
                                                            Option::None
                                                        },
                                                    },
                                                },
                                            },
                                        },
                                    },
                                },
                            },
                        },
                    },
                },
            },
        },
    }
}

/// Append the text form of an optional integer.
fn append_opt_token(s: &mut String, v: &Option<i64>)
    ensures
        final(s)@ == old(s)@ + tok_opt(*v),
{
    match v {
        None => {
            s.append("none");
        },
        Some(x) => {
            let t = i64_dec_string(*x);
            s.append(t.as_str());
        },
    }
}

/// Encode a GPS record to its text form.
#[verifier::rlimit(60)]
pub fn encode_gps(d: &GpsData) -> (r: String)
    ensures
        r@ == enc_gps(*d),
{
    let mut s = "gps{latitude=".to_owned();
    let lat = i64_dec_string(d.latitude);
    s.append(lat.as_str());
    s.append(";longitude=");
    let lon = i64_dec_string(d.longitude);
    s.append(lon.as_str());
    s.append(";altitude=");
    append_opt_token(&mut s, &d.altitude);
    s.append(";accuracy=");
    let ac = i64_dec_string(d.accuracy);
    s.append(ac.as_str());
    s.append(";speed=");
    append_opt_token(&mut s, &d.speed);
    s.append(";timestamp=");
    let ts = i64_dec_string(d.timestamp);
    s.append(ts.as_str());
    s.append("}");
    proof {
        assert(s@ =~= enc_gps(*d));
    }
    s
}

/// Decode the text form of a GPS record.
pub fn decode_gps(s: &str) -> (r: Option<GpsData>)
    ensures
        r == dec_gps(s@),
{
    let s1 = match p_lit(s, "gps{latitude=") {
        None => {
            return None;
        },
        Some(t) => t,
    };
    let (lat, s2) = match p_i64(s1) {
        None => {
            return None;
        },
        Some(t) => t,
    };
    let s3 = match p_lit(s2, ";longitude=") {
        None => {
            return None;
        },
        Some(t) => t,
    };
    let (lon, s4) = match p_i64(s3) {
        None => {
            return None;
        },
        Some(t) => t,
    };
    let s5 = match p_lit(s4, ";altitude=") {
        None => {
            return None;
        },
        Some(t) => t,
    };
    let (alt, s6) = match p_opt_i64(s5) {
        None => {
            return None;
        },
        Some(t) => t,
    };
    let s7 = match p_lit(s6, ";accuracy=") {
        None => {
            return None;
        },
        Some(t) => t,
    };
    let (ac, s8) = match p_i64(s7) {
        None => {
            return None;
        },
        Some(t) => t,
    };
    let s9 = match p_lit(s8, ";speed=") {
        None => {
            return None;
        },
        Some(t) => t,
    };
    let (sp, s10) = match p_opt_i64(s9) {
        None => {
            return None;
        },
        Some(t) => t,
    };
    let s11 = match p_lit(s10, ";timestamp=") {
        None => {
            return None;
        },
        Some(t) => t,
    };
    let (ts, s12) = match p_i64(s11) {
        None => {
            return None;
        },
        Some(t) => t,
    };
    let rem = match p_lit(s12, "}") {
        None => {
            return None;
        },
        Some(t) => t,
    };
    if rem.unicode_len() == 0 {
        Some(
            GpsData {
                latitude: lat,
                longitude: lon,
                altitude: alt,
                accuracy: ac,
                speed: sp,
                timestamp: ts,
            },
        )
    } else {
        None
    }
}

/// Decoding the text form of a GPS record yields the record back.
pub proof fn lemma_gps_round_trip(d: GpsData)
    ensures
        dec_gps(enc_gps(d)) == Option::Some(d),
{
    reveal_strlit(";longitude=");
    reveal_strlit(";altitude=");
    reveal_strlit(";accuracy=");
    reveal_strlit(";speed=");
    reveal_strlit(";timestamp=");
    reveal_strlit("}");
    assert(!crate::numfmt::is_dec_digit(';'));
    assert(!crate::numfmt::is_dec_digit('}'));
    let t12 = "}"@;
    let t11 = int_str(d.timestamp as int) + t12;
    let t10 = ";timestamp="@ + t11;
    let t9 = tok_opt(d.speed) + t10;
    let t8 = ";speed="@ + t9;
    let t7 = int_str(d.accuracy as int) + t8;
    let t6 = ";accuracy="@ + t7;
    let t5 = tok_opt(d.altitude) + t6;
    let t4 = ";altitude="@ + t5;
    let t3 = int_str(d.longitude as int) + t4;
    let t2 = ";longitude="@ + t3;
    let t1 = int_str(d.latitude as int) + t2;
    lemma_sp_lit("gps{latitude="@, t1);
    lemma_sp_i64(d.latitude, t2);
    lemma_sp_lit(";longitude="@, t3);
    lemma_sp_i64(d.longitude, t4);
    lemma_sp_lit(";altitude="@, t5);
    lemma_sp_opt_i64(d.altitude, t6);
    lemma_sp_lit(";accuracy="@, t7);
    lemma_sp_i64(d.accuracy, t8);
    lemma_sp_lit(";speed="@, t9);
    lemma_sp_opt_i64(d.speed, t10);
    lemma_sp_lit(";timestamp="@, t11);
    lemma_sp_i64(d.timestamp, t12);
    lemma_sp_lit("}"@, Seq::<char>::empty());
    assert(t12 + Seq::<char>::empty() =~= t12);
}

/// The spec-level content of a WiFi network record: each string field as
/// its character sequence.
pub struct WifiContent {
    /// The SSID characters.
    pub ssid: Seq<char>,
    /// The BSSID characters.
    pub bssid: Seq<char>,
    /// Signal strength in dBm.
    pub signal_strength: int,
    /// Frequency in MHz.
    pub frequency: int,
    /// The security-type characters.
    pub security: Seq<char>,
}

/// The content of a WiFi network record.
pub open spec fn wifi_content(n: WifiNetwork) -> WifiContent {
    WifiContent {
        ssid: n.ssid@,
        bssid: n.bssid@,
        signal_strength: n.signal_strength as int,
        frequency: n.frequency as int,
        security: n.security@,
    }
}

/// The text form of a WiFi network record.
pub open spec fn enc_wifi(v: WifiContent) -> Seq<char> {
    "wifi{ssid="@ + (tok_str(v.ssid) + (";bssid="@ + (tok_str(v.bssid) + (";signal_strength="@ + (
    int_str(v.signal_strength) + (";frequency="@ + (int_str(v.frequency) + (";security="@ + (
    tok_str(v.security) + "}"@)))))))))
}

/// The content denoted by the text form of a WiFi network record, if any.
pub open spec fn dec_wifi(s: Seq<char>) -> Option<WifiContent> {
    match sp_lit("wifi{ssid="@, s) {
        Option::None => Option::None,
        Option::Some(s1) => match sp_str(s1) {
            Option::None => Option::None,
            Option::Some((ssid, s2)) => match sp_lit(";bssid="@, s2) {
                Option::None => Option::None,
                Option::Some(s3) => match sp_str(s3) {
                    Option::None => Option::None,
                    Option::Some((bssid, s4)) => match sp_lit(";signal_strength="@, s4) {
                        Option::None => Option::None,
                        Option::Some(s5) => match sp_i64(s5) {
                            Option::None => Option::None,
                            Option::Some((ss, s6)) => match sp_lit(";frequency="@, s6) {
                                Option::None => Option::None,
                                Option::Some(s7) => match sp_i64(s7) {
                                    Option::None => Option::None,
                                    Option::Some((fr, s8)) => match sp_lit(";security="@, s8) {
                                        Option::None => Option::None,
                                        Option::Some(s9) => match sp_str(s9) {
                                            Option::None => Option::None,
                                            Option::Some((sec, s10)) => match sp_lit("}"@, s10) {
                                                Option::None => Option::None,
                                                Option::Some(rem) => if rem.len() == 0
                                                    && -0x8000_0000 <= ss <= 0x7fff_ffff
                                                    && -0x8000_0000 <= fr <= 0x7fff_ffff {
                                                    Option::Some(
                                                        WifiContent {
                                                            ssid,
                                                            bssid,
                                                            signal_strength: ss as int,
                                                            frequency: fr as int,
                                                            security: sec,
                                                        },
                                                    )
                                                } else {
                                                    Option::None
                                                },
                                            },
                                        },
                                    },
                                },
                            },
                        },
                    },
                },
            },
        },
    }
}

/// Append the text form of a length-prefixed string.
fn append_str_token(s: &mut String, t: &str)
    ensures
        final(s)@ == old(s)@ + tok_str(t@),
{
    let n = t.unicode_len();
    let d = u64_dec_string(n as u64);
    s.append(d.as_str());
    s.append(":");
    s.append(t);
    proof {
        reveal_strlit(":");
        assert(":"@ =~= seq![':']);
        assert(s@ =~= old(s)@ + tok_str(t@));
    }
}

/// Encode a WiFi network record to its text form.
pub fn encode_wifi_network(n: &WifiNetwork) -> (r: String)
    ensures
        r@ == enc_wifi(wifi_content(*n)),
{
    let mut s = "wifi{ssid=".to_owned();
    append_str_token(&mut s, n.ssid.as_str());
    s.append(";bssid=");
    append_str_token(&mut s, n.bssid.as_str());
    s.append(";signal_strength=");
    let ss = i64_dec_string(n.signal_strength as i64);
    s.append(ss.as_str());
    s.append(";frequency=");
    let fr = i64_dec_string(n.frequency as i64);
    s.append(fr.as_str());
    s.append(";security=");
    append_str_token(&mut s, n.security.as_str());
    s.append("}");
    proof {
        assert(s@ =~= enc_wifi(wifi_content(*n)));
    }
    s
}

/// Decode the text form of a WiFi network record. A returned record's
/// content is exactly what the text denotes.
pub fn decode_wifi_network(s: &str) -> (r: Option<WifiNetwork>)
    ensures
        r matches Some(n) ==> dec_wifi(s@) == Option::Some(wifi_content(n)),
        r is None ==> dec_wifi(s@) is None,
{
    let s1 = match p_lit(s, "wifi{ssid=") {
        None => {
            return None;
        },
        Some(t) => t,
    };
    let (ssid, s2) = match p_str(s1) {
        None => {
            return None;
        },
        Some(t) => t,
    };
    let s3 = match p_lit(s2, ";bssid=") {
        None => {
            return None;
        },
        Some(t) => t,
    };
    let (bssid, s4) = match p_str(s3) {
        None => {
            return None;
        },
        Some(t) => t,
    };
    let s5 = match p_lit(s4, ";signal_strength=") {
        None => {
            return None;
        },
        Some(t) => t,
    };
    let (ss, s6) = match p_i64(s5) {
        None => {
            return None;
        },
        Some(t) => t,
    };
    let s7 = match p_lit(s6, ";frequency=") {
        None => {
            return None;
        },
        Some(t) => t,
    };
    let (fr, s8) = match p_i64(s7) {
        None => {
            return None;
        },
        Some(t) => t,
    };
    let s9 = match p_lit(s8, ";security=") {
        None => {
            return None;
        },
        Some(t) => t,
    };
    let (sec, s10) = match p_str(s9) {
        None => {
            return None;
        },
        Some(t) => t,
    };
    let rem = match p_lit(s10, "}") {
        None => {
            return None;
        },
        Some(t) => t,
    };
    if rem.unicode_len() == 0 && ss >= -0x8000_0000i64 && ss <= 0x7fff_ffffi64 && fr
        >= -0x8000_0000i64 && fr <= 0x7fff_ffffi64 {
        Some(
            WifiNetwork {
                ssid,
                bssid,
                signal_strength: ss as i32,
                frequency: fr as i32,
                security: sec,
            },
        )
    } else {
        None
    }
}

/// Decoding the text form of a WiFi record yields the same content back.
/// The string-length and field-range bounds hold of every record a machine
/// can build; they keep the length prefix within nineteen digits and the
/// integer fields within their 32-bit types.
pub proof fn lemma_wifi_round_trip(v: WifiContent)
    requires
        v.ssid.len() < 10_000_000_000_000_000_000,
        v.bssid.len() < 10_000_000_000_000_000_000,
        v.security.len() < 10_000_000_000_000_000_000,
        -0x8000_0000 <= v.signal_strength <= 0x7fff_ffff,
        -0x8000_0000 <= v.frequency <= 0x7fff_ffff,
    ensures
        dec_wifi(enc_wifi(v)) == Option::Some(v),
{
    reveal_strlit(";bssid=");
    reveal_strlit(";signal_strength=");
    reveal_strlit(";frequency=");
    reveal_strlit(";security=");
    reveal_strlit("}");
    assert(!crate::numfmt::is_dec_digit(';'));
    assert(!crate::numfmt::is_dec_digit('}'));
    let t10 = "}"@;
    let t9 = tok_str(v.security) + t10;
    let t8 = ";security="@ + t9;
    let t7 = int_str(v.frequency) + t8;
    let t6 = ";frequency="@ + t7;
    let t5 = int_str(v.signal_strength) + t6;
    let t4 = ";signal_strength="@ + t5;
    let t3 = tok_str(v.bssid) + t4;
    let t2 = ";bssid="@ + t3;
    let t1 = tok_str(v.ssid) + t2;
    lemma_sp_lit("wifi{ssid="@, t1);
    lemma_sp_str(v.ssid, t2);
    lemma_sp_lit(";bssid="@, t3);
    lemma_sp_str(v.bssid, t4);
    lemma_sp_lit(";signal_strength="@, t5);
    lemma_sp_i64(v.signal_strength as i64, t6);
    lemma_sp_lit(";frequency="@, t7);
    lemma_sp_i64(v.frequency as i64, t8);
    lemma_sp_lit(";security="@, t9);
    lemma_sp_str(v.security, t10);
    lemma_sp_lit("}"@, Seq::<char>::empty());
    assert(t10 + Seq::<char>::empty() =~= t10);
}

} // verus!
