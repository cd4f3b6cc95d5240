//! Data records for each sensor type, the error taxonomy, and the two
//! compass helpers (heading from magnetic field components, cardinal
//! direction from a heading).
//!
//! Every physical quantity is a scaled integer:
//! - acceleration, magnetic field strength, pressure, GPS accuracy, altitude
//!   and speed are in hundredths of their unit (centi-units);
//! - temperatures and headings are in tenths (deci-units);
//! - latitude and longitude are in ten-thousandths of a degree.

use vstd::prelude::*;

verus! {

/// Data from the accelerometer: force along three axes in hundredths of a
/// m/s² (981 is 9.81 m/s²).
#[derive(Clone, Debug, PartialEq, Eq)]
pub struct AccelerometerData {
    /// Acceleration force along the X axis, hundredths of a m/s².
    pub x: i64,
    /// Acceleration force along the Y axis, hundredths of a m/s².
    pub y: i64,
    /// Acceleration force along the Z axis, hundredths of a m/s².
    pub z: i64,
    /// Unix timestamp in milliseconds.
    pub timestamp: i64,
    /// Sensor accuracy level (0-3, where 3 is highest).
    pub accuracy: i32,
}

/// Data from the magnetometer: field strength in hundredths of a μT and a
/// compass heading in tenths of a degree (nominally 0 to 3599).
#[derive(Clone, Debug, PartialEq, Eq)]
pub struct MagnetometerData {
    /// Magnetic field strength along the X axis, hundredths of a μT.
    pub x: i64,
    /// Magnetic field strength along the Y axis, hundredths of a μT.
    pub y: i64,
    /// Magnetic field strength along the Z axis, hundredths of a μT.
    pub z: i64,
    /// Compass heading from magnetic north, tenths of a degree.
    pub heading: i64,
    /// Unix timestamp in milliseconds.
    pub timestamp: i64,
    /// Sensor accuracy level (0-3, where 3 is highest).
    pub accuracy: i32,
}

/// GPS location data. Coordinates are in ten-thousandths of a degree
/// (377749 is 37.7749°); altitude, accuracy and speed are in hundredths of
/// a meter or meter-per-second.
#[derive(Clone, Debug, PartialEq, Eq)]
pub struct GpsData {
    /// Latitude, ten-thousandths of a degree (-900000 to 900000 when valid).
    pub latitude: i64,
    /// Longitude, ten-thousandths of a degree (-1800000 to 1800000 when valid).
    pub longitude: i64,
    /// Altitude above sea level in hundredths of a meter, if available.
    pub altitude: Option<i64>,
    /// Horizontal accuracy estimate in hundredths of a meter.
    pub accuracy: i64,
    /// Speed in hundredths of a meter per second, if available.
    pub speed: Option<i64>,
    /// Unix timestamp in milliseconds.
    pub timestamp: i64,
}

/// Barometric pressure in hundredths of an hPa (101325 is 1013.25 hPa).
#[derive(Clone, Debug, PartialEq, Eq)]
pub struct PressureData {
    /// Atmospheric pressure, hundredths of an hPa.
    pub pressure: i64,
    /// Unix timestamp in milliseconds.
    pub timestamp: i64,
}

/// Ambient temperature in tenths of a degree Celsius (225 is 22.5 °C).
#[derive(Clone, Debug, PartialEq, Eq)]
pub struct TemperatureData {
    /// Temperature, tenths of a degree Celsius.
    pub temperature: i64,
    /// Unix timestamp in milliseconds.
    pub timestamp: i64,
}

/// A detected WiFi access point.
#[derive(Clone, Debug, PartialEq, Eq)]
pub struct WifiNetwork {
    /// Network SSID (Service Set Identifier).
    pub ssid: String,
    /// BSSID (MAC address of the access point).
    pub bssid: String,
    /// Signal strength in dBm (typically -100 to 0).
    pub signal_strength: i32,
    /// Frequency in MHz (e.g. 2412 for channel 1).
    pub frequency: i32,
    /// Security type (e.g. "WPA2", "WPA3", "Open").
    pub security: String,
}

/// Errors that can occur when working with sensors. Only `DataError` is
/// produced by the validation layer; the other kinds exist for a
/// hardware-backed implementation.
#[derive(Clone, Debug, PartialEq, Eq)]
pub enum SensorError {
    /// Sensor is not available on this device.
    NotAvailable(String),
    /// Permission to access the sensor was denied.
    PermissionDenied(String),
    /// Hardware error occurred.
    HardwareError(String),
    /// Error communicating with the sensor plugin.
    PluginError(String),
    /// Invalid data received from the sensor.
    DataError(String),
}

impl SensorError {
    /// The human-readable description: a fixed prefix naming the kind,
    /// followed by the wrapped message.
    pub open spec fn spec_display(self) -> Seq<char> {
        match self {
            SensorError::NotAvailable(m) => "Sensor not available: "@ + m@,
            SensorError::PermissionDenied(m) => "Permission denied: "@ + m@,
            SensorError::HardwareError(m) => "Hardware error: "@ + m@,
            SensorError::PluginError(m) => "Plugin error: "@ + m@,
            SensorError::DataError(m) => "Data error: "@ + m@,
        }
    }

    /// Render the error as its display string.
    pub fn display_string(&self) -> (r: String)
        ensures
            r@ == self.spec_display(),
    {
        match self {
            SensorError::NotAvailable(m) => {
                let mut s = "Sensor not available: ".to_owned();
                s.append(m.as_str());
                s
            },
            SensorError::PermissionDenied(m) => {
                let mut s = "Permission denied: ".to_owned();
                s.append(m.as_str());
                s
            },
            SensorError::HardwareError(m) => {
                let mut s = "Hardware error: ".to_owned();
                s.append(m.as_str());
                s
            },
            SensorError::PluginError(m) => {
                let mut s = "Plugin error: ".to_owned();
                s.append(m.as_str());
                s
            },
            SensorError::DataError(m) => {
                let mut s = "Data error: ".to_owned();
                s.append(m.as_str());
                s
            },
        }
    }
}

/// A heading reduced into [0, 3600) tenths of a degree. Spec `%` is
/// Euclidean, so the result is nonnegative for every input.
pub open spec fn norm_heading_deci(h: int) -> int {
    h % 3600
}

/// The cardinal direction a heading falls in: eight 45°-wide sectors,
/// each centered on its compass point (north spans [337.5°, 360°) ∪ [0°, 22.5°)).
pub open spec fn spec_cardinal(h: int) -> Seq<char> {
    let n = norm_heading_deci(h);
    if n < 225 || n >= 3375 {
        "N"@
    } else if n < 675 {
        "NE"@
    } else if n < 1125 {
        "E"@
    } else if n < 1575 {
        "SE"@
    } else if n < 2025 {
        "S"@
    } else if n < 2475 {
        "SW"@
    } else if n < 2925 {
        "W"@
    } else {
        "NW"@
    }
}

/// Get the cardinal direction for a heading in tenths of a degree.
/// The heading is first normalized into [0°, 360°).
pub fn get_cardinal_direction(heading: i64) -> (r: &'static str)
    ensures
        r@ == spec_cardinal(heading as int),
{
    let m: i64 = heading % 3600;
    let n: i64 = if m < 0 {
        m + 3600
    } else {
        m
    };
    proof {
        assert(n == norm_heading_deci(heading as int)) by {
            vstd::arithmetic::div_mod::lemma_fundamental_div_mod(heading as int, 3600);
        };
    }
    if n < 225 || n >= 3375 {
        "N"
    } else if n < 675 {
        "NE"
    } else if n < 1125 {
        "E"
    } else if n < 1575 {
        "SE"
    } else if n < 2025 {
        "S"
    } else if n < 2475 {
        "SW"
    } else if n < 2925 {
        "W"
    } else {
        "NW"
    }
}

/// The eight compass-point names in clockwise order from north. Sector `i`
/// covers the headings within 22.5° of `i * 45°`.
pub open spec fn sector_name(i: int) -> Seq<char> {
    if i == 0 {
        "N"@
    } else if i == 1 {
        "NE"@
    } else if i == 2 {
        "E"@
    } else if i == 3 {
        "SE"@
    } else if i == 4 {
        "S"@
    } else if i == 5 {
        "SW"@
    } else if i == 6 {
        "W"@
    } else {
        "NW"@
    }
}

/// The cardinal direction partitions [0°, 360°) into eight equal 45°-wide
/// sectors: rotating a normalized heading forward by half a sector (22.5°)
/// and dividing by 45° yields the sector index of its compass point.
pub proof fn lemma_cardinal_sectors(h: int)
    requires
        0 <= h < 3600,
    ensures
        spec_cardinal(h) == sector_name(((h + 225) % 3600) / 450),
{
}

/// Arctangent of `n / d` in tenths of a degree, by a quadratic
/// approximation, exact at the endpoints of the octant.
fn atan_deci(n: i64, d: i64) -> (r: i64)
    requires
        0 <= n <= d,
        0 < d <= 100_000_000,
    ensures
        0 <= r <= 450,
        n == 0 ==> r == 0,
        n == d ==> r == 450,
{
    let a: i64 = 450 * n;
    let b: i64 = 156 * n;
    proof {
        assert(0 <= a * d <= 45_000_000_000 * 100_000_000) by (nonlinear_arith)
            requires
                0 <= a <= 45_000_000_000,
                0 <= d <= 100_000_000,
        {
        }
        assert(0 <= b * (d - n) <= 15_600_000_000 * 100_000_000) by (nonlinear_arith)
            requires
                0 <= b <= 15_600_000_000,
                0 <= d - n <= 100_000_000,
        {
        }
        assert(0 < d * d <= 100_000_000 * 100_000_000) by (nonlinear_arith)
            requires
                0 < d <= 100_000_000,
        {
        }
    }
    let num: i64 = a * d + b * (d - n);
    let den: i64 = d * d;
    proof {
        assert(num <= 450 * den) by (nonlinear_arith)
            requires
                0 <= n <= d,
                0 < d,
                a == 450 * n,
                b == 156 * n,
                num == a * d + b * (d - n),
                den == d * d,
        {
        }
        assert(num / den <= 450) by (nonlinear_arith)
            requires
                0 <= num,
                0 < den,
                num <= 450 * den,
        {
        }
        assert(n == 0 ==> num == 0) by (nonlinear_arith)
            requires
                a == 450 * n,
                b == 156 * n,
                num == a * d + b * (d - n),
        {
        }
        assert(num == 0 ==> num / den == 0) by (nonlinear_arith)
            requires
                0 < den,
        {
        }
        assert(n == d ==> num == 450 * den) by (nonlinear_arith)
            requires
                a == 450 * n,
                b == 156 * n,
                num == a * d + b * (d - n),
                den == d * d,
        {
        }
        assert(num == 450 * den ==> num / den == 450) by (nonlinear_arith)
            requires
                0 < den,
        {
        }
    }
    num / den
}

/// Calculate the compass heading from the magnetometer X (east) and Y
/// (north) components, in tenths of a degree within [0°, 360°).
///
/// North (x = 0, y > 0) is 0°, east (x > 0, y = 0) is 90°, south is 180°,
/// west is 270°, and each quadrant of the plane maps into the matching
/// quadrant of the compass. The input bound keeps the intermediate
/// products within machine range; it allows fields up to one tesla,
/// far beyond any magnetometer reading.
pub fn calculate_heading(x: i64, y: i64) -> (r: i64)
    requires
        -100_000_000 <= x <= 100_000_000,
        -100_000_000 <= y <= 100_000_000,
    ensures
        0 <= r < 3600,
        x == 0 && y >= 0 ==> r == 0,
        x > 0 && y == 0 ==> r == 900,
        x == 0 && y < 0 ==> r == 1800,
        x < 0 && y == 0 ==> r == 2700,
        x > 0 && y > 0 ==> 0 <= r <= 900,
        x > 0 && y < 0 ==> 900 <= r <= 1800,
        x < 0 && y < 0 ==> 1800 <= r <= 2700,
        x < 0 && y > 0 ==> 2700 <= r < 3600,
        x == y && x > 0 ==> r == 450,
        x == -y && x > 0 ==> r == 1350,
        x == y && x < 0 ==> r == 2250,
        x == -y && x < 0 ==> r == 3150,
{
    if x == 0 && y == 0 {
        return 0;
    }
    let ax: i64 = if x < 0 {
        -x
    } else {
        x
    };
    let ay: i64 = if y < 0 {
        -y
    } else {
        y
    };
    if x >= 0 && y > 0 {
        if ax <= ay {
            atan_deci(ax, ay)
        } else {
            900 - atan_deci(ay, ax)
        }
    } else if x > 0 {
        if ay <= ax {
            900 + atan_deci(ay, ax)
        } else {
            1800 - atan_deci(ax, ay)
        }
    } else if y < 0 {
        if ax <= ay {
            1800 + atan_deci(ax, ay)
        } else {
            2700 - atan_deci(ay, ax)
        }
    } else {
        if ay <= ax {
            2700 + atan_deci(ay, ax)
        } else {
            let t: i64 = 3600 - atan_deci(ax, ay);
            if t == 3600 {
                3599
            } else {
                t
            }
        }
    }
}

} // verus!
