//! The stateless sensor service: range validation, unit formatting,
//! sorting, and the acceleration-magnitude calculation.

use crate::models::{
    spec_cardinal, AccelerometerData, GpsData, MagnetometerData, PressureData, SensorError,
    TemperatureData, WifiNetwork,
};
use crate::numfmt::{fixed_str, int_str, fixed_dec_string, fixed_dec_string_u64, i64_dec_string, abs_u64};
use vstd::prelude::*;

verus! {

use vstd::string::StringExecFns;

/// Every axis of the reading is within ±20 m/s² (hundredths of a m/s²;
/// exactly 20 m/s² counts as valid).
pub open spec fn accel_in_range(d: AccelerometerData) -> bool {
    &&& -2000 <= d.x <= 2000
    &&& -2000 <= d.y <= 2000
    &&& -2000 <= d.z <= 2000
}

/// Latitude within ±90° (ten-thousandths of a degree).
pub open spec fn latitude_in_range(d: GpsData) -> bool {
    -900_000 <= d.latitude <= 900_000
}

/// Longitude within ±180° (ten-thousandths of a degree).
pub open spec fn longitude_in_range(d: GpsData) -> bool {
    -1_800_000 <= d.longitude <= 1_800_000
}

/// Pressure within [800, 1100] hPa (hundredths of an hPa).
pub open spec fn pressure_in_range(d: PressureData) -> bool {
    80_000 <= d.pressure <= 110_000
}

/// Temperature within [-50, 100] °C (tenths of a degree).
pub open spec fn temperature_in_range(d: TemperatureData) -> bool {
    -500 <= d.temperature <= 1000
}

/// The square of an integer.
pub open spec fn sq(v: int) -> int {
    v * v
}

/// The qualitative signal-strength description for an RSSI in dBm:
/// thresholds at -50, -60 and -70, each inclusive.
pub open spec fn spec_signal_desc(rssi: int) -> Seq<char> {
    if rssi >= -50 {
        "Excellent"@
    } else if rssi >= -60 {
        "Good"@
    } else if rssi >= -70 {
        "Fair"@
    } else {
        "Weak"@
    }
}

/// Descending order by signal strength: the strongest network first.
pub open spec fn sorted_by_signal_desc(s: Seq<WifiNetwork>) -> bool {
    forall|i: int, j: int|
        0 <= i < j < s.len() ==> s[i].signal_strength >= s[j].signal_strength
}

/// The Fahrenheit equivalent of a temperature in tenths of a °C, in tenths
/// of a °F, rounded half away from zero (9/5 ths of a tenth-°C is 18
/// hundredths of a °F).
pub open spec fn fahrenheit_deci(t: int) -> int {
    let c = 18 * t + 3200;
    if c >= 0 {
        (c + 5) / 10
    } else {
        -(((-c) + 5) / 10)
    }
}

/// The display form of an accelerometer reading: each axis to two decimal
/// places with its unit.
pub open spec fn spec_format_accelerometer(d: AccelerometerData) -> Seq<char> {
    "X: "@ + fixed_str(d.x as int, 2) + " m/s², Y: "@ + fixed_str(d.y as int, 2) + " m/s², Z: "@
        + fixed_str(d.z as int, 2) + " m/s²"@
}

/// The display form of GPS coordinates: absolute value to four decimal
/// places plus a hemisphere letter, latitude first.
pub open spec fn spec_format_gps(d: GpsData) -> Seq<char> {
    let alat = if d.latitude < 0 {
        -(d.latitude as int)
    } else {
        d.latitude as int
    };
    let alon = if d.longitude < 0 {
        -(d.longitude as int)
    } else {
        d.longitude as int
    };
    fixed_str(alat, 4) + "° "@ + (if d.latitude >= 0 {
        "N"@
    } else {
        "S"@
    }) + ", "@ + fixed_str(alon, 4) + "° "@ + (if d.longitude >= 0 {
        "E"@
    } else {
        "W"@
    })
}

/// The display form of a heading: one decimal place plus the cardinal
/// direction in parentheses.
pub open spec fn spec_format_heading(d: MagnetometerData) -> Seq<char> {
    fixed_str(d.heading as int, 1) + "° ("@ + spec_cardinal(d.heading as int) + ")"@
}

/// The display form of a pressure: two decimal places with a qualitative
/// tag — below 1000 hPa is low, above 1020 hPa is high.
pub open spec fn spec_format_pressure(d: PressureData) -> Seq<char> {
    fixed_str(d.pressure as int, 2) + " hPa "@ + (if d.pressure < 100_000 {
        "(Low)"@
    } else if d.pressure > 102_000 {
        "(High)"@
    } else {
        "(Normal)"@
    })
}

/// The display form of a temperature: one decimal place in Celsius and the
/// derived Fahrenheit value.
pub open spec fn spec_format_temperature(d: TemperatureData) -> Seq<char> {
    fixed_str(d.temperature as int, 1) + "°C ("@ + fixed_str(fahrenheit_deci(d.temperature as int), 1)
        + "°F)"@
}

/// The display form of a WiFi network: SSID, signal description, raw dBm,
/// and security type.
pub open spec fn spec_format_wifi(n: WifiNetwork) -> Seq<char> {
    n.ssid@ + " - "@ + spec_signal_desc(n.signal_strength as int) + " ("@ + int_str(
        n.signal_strength as int,
    ) + " dBm) - "@ + n.security@
}

/// High-level sensor service: stateless convenience methods for
/// validating sensor data and formatting it for display.
pub struct SensorService;

/// The floor of the square root of `n`.
fn isqrt_u128(n: u128) -> (r: u128)
    ensures
        (r as int) * (r as int) <= n as int,
        (n as int) < (r as int + 1) * (r as int + 1),
        r < 0x1_0000_0000_0000_0000,
{
    let mut lo: u128 = 0;
    let mut hi: u128 = 0x1_0000_0000_0000_0000;
    proof {
        assert((0x1_0000_0000_0000_0000 as int) * (0x1_0000_0000_0000_0000 as int) > u128::MAX as int)
            by (nonlinear_arith)
        {
        }
    }
    while lo + 1 < hi
        invariant
            lo < hi,
            hi <= 0x1_0000_0000_0000_0000,
            (lo as int) * (lo as int) <= n as int,
            (n as int) < (hi as int) * (hi as int),
        decreases hi - lo,
    {
        let mid = lo + (hi - lo) / 2;
        proof {
            assert((mid as int) * (mid as int) <= (0xffff_ffff_ffff_ffff as int) * (
            0xffff_ffff_ffff_ffff as int)) by (nonlinear_arith)
                requires
                    0 <= mid <= 0xffff_ffff_ffff_ffff,
            {
            }
        }
        if mid * mid <= n {
            lo = mid;
        } else {
            hi = mid;
        }
    }
    lo
}

/// The square of an `i64` as an unsigned 128-bit value.
fn sq_u128(v: i64) -> (r: u128)
    ensures
        r as int == sq(v as int),
{
    let a = abs_u64(v);
    proof {
        assert((a as int) * (a as int) == sq(v as int) && (a as int) * (a as int) <= u128::MAX as int)
            by (nonlinear_arith)
            requires
                a as int == (if v < 0 {
                    -(v as int)
                } else {
                    v as int
                }),
                -0x8000_0000_0000_0000 <= v as int <= 0x7fff_ffff_ffff_ffff,
        {
        }
    }
    (a as u128) * (a as u128)
}

/// The index of the first strongest network.
fn index_of_max_signal(v: &Vec<WifiNetwork>) -> (r: usize)
    requires
        v@.len() > 0,
    ensures
        r < v@.len(),
        forall|j: int|
            0 <= j < v@.len() ==> v@[r as int].signal_strength >= #[trigger] v@[j].signal_strength,
{
    let mut best: usize = 0;
    let mut i: usize = 1;
    while i < v.len()
        invariant
            best < v@.len(),
            i <= v@.len(),
            forall|j: int|
                0 <= j < i ==> v@[best as int].signal_strength >= #[trigger] v@[j].signal_strength,
        decreases v@.len() - i,
    {
        if v[i].signal_strength > v[best].signal_strength {
            best = i;
        }
        i += 1;
    }
    best
}

impl SensorService {
    /// Create a new sensor service instance.
    pub fn new() -> (s: Self) {
        SensorService
    }

    /// Validate that every axis of an accelerometer reading is within
    /// ±20 m/s²; exactly 20 m/s² is valid, anything beyond fails with a
    /// `DataError`.
    pub fn validate_accelerometer(&self, data: &AccelerometerData) -> (r: Result<
        (),
        SensorError,
    >)
        ensures
            r is Ok <==> accel_in_range(*data),
            !accel_in_range(*data) ==> (r matches Err(SensorError::DataError(m)) && m@
                == "Acceleration value out of range"@),
    {
        if data.x < -2000 || data.x > 2000 || data.y < -2000 || data.y > 2000 || data.z < -2000
            || data.z > 2000 {
            Err(SensorError::DataError("Acceleration value out of range".to_owned()))
        } else {
            Ok(())
        }
    }

    /// Format accelerometer data for display.
    pub fn format_accelerometer(&self, data: &AccelerometerData) -> (r: String)
        ensures
            r@ == spec_format_accelerometer(*data),
    {
        let mut s = "X: ".to_owned();
        let x = fixed_dec_string(data.x, 2);
        s.append(x.as_str());
        s.append(" m/s², Y: ");
        let y = fixed_dec_string(data.y, 2);
        s.append(y.as_str());
        s.append(" m/s², Z: ");
        let z = fixed_dec_string(data.z, 2);
        s.append(z.as_str());
        s.append(" m/s²");
        proof {
            assert(s@ =~= spec_format_accelerometer(*data));
        }
        s
    }

    /// Calculate the total acceleration magnitude in hundredths of a m/s²:
    /// the floor of the Euclidean norm of the three axes.
    pub fn calculate_acceleration_magnitude(&self, data: &AccelerometerData) -> (r: u64)
        ensures
            sq(r as int) <= sq(data.x as int) + sq(data.y as int) + sq(data.z as int),
            sq(data.x as int) + sq(data.y as int) + sq(data.z as int) < sq(r as int + 1),
    {
        let sx = sq_u128(data.x);
        let sy = sq_u128(data.y);
        let sz = sq_u128(data.z);
        proof {
            assert(sq(data.x as int) + sq(data.y as int) + sq(data.z as int) <= 3 * (
            0x8000_0000_0000_0000 as int) * (0x8000_0000_0000_0000 as int) < u128::MAX as int)
                by (nonlinear_arith)
                requires
                    sq(data.x as int) == (data.x as int) * (data.x as int),
                    sq(data.y as int) == (data.y as int) * (data.y as int),
                    sq(data.z as int) == (data.z as int) * (data.z as int),
                    -0x8000_0000_0000_0000 <= data.x as int <= 0x7fff_ffff_ffff_ffff,
                    -0x8000_0000_0000_0000 <= data.y as int <= 0x7fff_ffff_ffff_ffff,
                    -0x8000_0000_0000_0000 <= data.z as int <= 0x7fff_ffff_ffff_ffff,
            {
            }
        }
        let s = sx + sy + sz;
        let r = isqrt_u128(s);
        r as u64
    }

    /// Validate GPS coordinates: latitude must be within ±90° and
    /// longitude within ±180°; an out-of-range latitude is reported first.
    pub fn validate_gps(&self, data: &GpsData) -> (r: Result<(), SensorError>)
        ensures
            r is Ok <==> (latitude_in_range(*data) && longitude_in_range(*data)),
            !latitude_in_range(*data) ==> (r matches Err(SensorError::DataError(m)) && m@
                == "Invalid latitude"@),
            latitude_in_range(*data) && !longitude_in_range(*data) ==> (r matches Err(
                SensorError::DataError(m),
            ) && m@ == "Invalid longitude"@),
    {
        if data.latitude < -900_000 || data.latitude > 900_000 {
            return Err(SensorError::DataError("Invalid latitude".to_owned()));
        }
        if data.longitude < -1_800_000 || data.longitude > 1_800_000 {
            return Err(SensorError::DataError("Invalid longitude".to_owned()));
        }
        Ok(())
    }

    /// Format GPS coordinates for display.
    pub fn format_gps(&self, data: &GpsData) -> (r: String)
        ensures
            r@ == spec_format_gps(*data),
    {
        let alat = abs_u64(data.latitude);
        let alon = abs_u64(data.longitude);
        let mut s = fixed_dec_string_u64(alat, 4);
        s.append("° ");
        s.append(if data.latitude >= 0 {
            "N"
        } else {
            "S"
        });
        s.append(", ");
        let lon = fixed_dec_string_u64(alon, 4);
        s.append(lon.as_str());
        s.append("° ");
        s.append(if data.longitude >= 0 {
            "E"
        } else {
            "W"
        });
        proof {
            assert(s@ =~= spec_format_gps(*data));
        }
        s
    }

    /// Format a magnetometer heading with its cardinal direction.
    pub fn format_heading(&self, data: &MagnetometerData) -> (r: String)
        ensures
            r@ == spec_format_heading(*data),
    {
        let mut s = fixed_dec_string(data.heading, 1);
        s.append("° (");
        s.append(crate::models::get_cardinal_direction(data.heading));
        s.append(")");
        proof {
            assert(s@ =~= spec_format_heading(*data));
        }
        s
    }

    /// Validate that a pressure reading is within [800, 1100] hPa.
    pub fn validate_pressure(&self, data: &PressureData) -> (r: Result<(), SensorError>)
        ensures
            r is Ok <==> pressure_in_range(*data),
            !pressure_in_range(*data) ==> (r matches Err(SensorError::DataError(m)) && m@
                == "Pressure out of range"@),
    {
        if data.pressure < 80_000 || data.pressure > 110_000 {
            Err(SensorError::DataError("Pressure out of range".to_owned()))
        } else {
            Ok(())
        }
    }

    /// Format a pressure with its qualitative description.
    pub fn format_pressure(&self, data: &PressureData) -> (r: String)
        ensures
            r@ == spec_format_pressure(*data),
    {
        let mut s = fixed_dec_string(data.pressure, 2);
        s.append(" hPa ");
        s.append(
            if data.pressure < 100_000 {
                "(Low)"
            } else if data.pressure > 102_000 {
                "(High)"
            } else {
                "(Normal)"
            },
        );
        proof {
            assert(s@ =~= spec_format_pressure(*data));
        }
        s
    }

    /// Validate that a temperature reading is within [-50, 100] °C.
    pub fn validate_temperature(&self, data: &TemperatureData) -> (r: Result<(), SensorError>)
        ensures
            r is Ok <==> temperature_in_range(*data),
            !temperature_in_range(*data) ==> (r matches Err(SensorError::DataError(m)) && m@
                == "Temperature out of range"@),
    {
        if data.temperature < -500 || data.temperature > 1000 {
            Err(SensorError::DataError("Temperature out of range".to_owned()))
        } else {
            Ok(())
        }
    }

    /// Format a temperature in Celsius and the derived Fahrenheit
    /// (`°F = °C × 9/5 + 32`), both to one decimal place. The bound on the
    /// input keeps the Fahrenheit conversion within the 64-bit machine
    /// range; it allows temperatures up to fifty million billion degrees.
    pub fn format_temperature(&self, data: &TemperatureData) -> (r: String)
        requires
            -500_000_000_000_000_000 <= data.temperature <= 500_000_000_000_000_000,
        ensures
            r@ == spec_format_temperature(*data),
    {
        let c: i64 = 18 * data.temperature + 3200;
        let f: i64 = if c >= 0 {
            (c + 5) / 10
        } else {
            -((-c + 5) / 10)
        };
        let mut s = fixed_dec_string(data.temperature, 1);
        s.append("°C (");
        let fs = fixed_dec_string(f, 1);
        s.append(fs.as_str());
        s.append("°F)");
        proof {
            assert(f as int == fahrenheit_deci(data.temperature as int));
            assert(s@ =~= spec_format_temperature(*data));
        }
        s
    }

    /// Sort WiFi networks by signal strength, strongest (least negative
    /// dBm) first. The result is a reordering of the input: the same
    /// networks, as a multiset, in descending signal order.
    pub fn sort_wifi_by_signal(&self, networks: &mut Vec<WifiNetwork>)
        ensures
            sorted_by_signal_desc(final(networks)@),
            final(networks)@.to_multiset() == old(networks)@.to_multiset(),
    {
        broadcast use vstd::seq_lib::group_to_multiset_ensures;

        let mut out: Vec<WifiNetwork> = Vec::new();
        while networks.len() > 0
            invariant
                sorted_by_signal_desc(out@),
                forall|i: int, j: int|
                    0 <= i < out@.len() && 0 <= j < networks@.len() ==> #[trigger] out@[i].signal_strength
                        >= #[trigger] networks@[j].signal_strength,
                out@.to_multiset().add(networks@.to_multiset()) == old(networks)@.to_multiset(),
            decreases networks@.len(),
        {
            let mi = index_of_max_signal(networks);
            let ghost pre = networks@;
            let ghost preout = out@;
            let x = networks.remove(mi);
            out.push(x);
            proof {
                broadcast use vstd::multiset::group_multiset_axioms;

                vstd::seq_lib::to_multiset_build(preout, x);
                vstd::seq_lib::to_multiset_remove(pre, mi as int);
                vstd::seq_lib::to_multiset_contains(pre, x);
                assert(out@ == preout.push(x));
                assert(preout.push(x).to_multiset() =~= preout.to_multiset().insert(x));
                assert(networks@ == pre.remove(mi as int));
                assert(pre.remove(mi as int).to_multiset() =~= pre.to_multiset().remove(
                    pre[mi as int],
                ));
                assert(pre[mi as int] == x);
                assert((mi as int) < pre.len());
                assert(pre.contains(x));
                assert(pre.to_multiset().count(x) > 0);
                assert(out@.to_multiset().add(networks@.to_multiset()) =~= old(
                    networks,
                )@.to_multiset());
            }
        }
        *networks = out;
    }

    /// Get the qualitative signal-strength description for an RSSI value.
    pub fn get_signal_description(&self, rssi: i32) -> (r: &'static str)
        ensures
            r@ == spec_signal_desc(rssi as int),
    {
        if rssi >= -50 {
            "Excellent"
        } else if rssi >= -60 {
            "Good"
        } else if rssi >= -70 {
            "Fair"
        } else {
            "Weak"
        }
    }

    /// Format a WiFi network for display.
    pub fn format_wifi_network(&self, network: &WifiNetwork) -> (r: String)
        ensures
            r@ == spec_format_wifi(*network),
    {
        let mut s = network.ssid.clone();
        s.append(" - ");
        s.append(self.get_signal_description(network.signal_strength));
        s.append(" (");
        let dbm = i64_dec_string(network.signal_strength as i64);
        s.append(dbm.as_str());
        s.append(" dBm) - ");
        s.append(network.security.as_str());
        proof {
            assert(s@ =~= spec_format_wifi(*network));
        }
        s
    }
}

impl Default for SensorService {
    /// The default service is a fresh instance.
    fn default() -> (s: Self)
        ensures
            true,
    {
        SensorService
    }
}

} // verus!
