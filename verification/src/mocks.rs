//! Mock sensor data providers: deterministic-shape records for tests and
//! demos, stamped with the current wall-clock time.

use crate::models::{
    AccelerometerData, GpsData, MagnetometerData, PressureData, TemperatureData, WifiNetwork,
};
use vstd::prelude::*;

verus! {

use vstd::string::StrSliceExecFns;

/// The current Unix time in milliseconds.
///
/// Relies on std::time::SystemTime::now, SystemTime::duration_since (from
/// the Unix epoch, zero if the clock is before it) and Duration::as_millis;
/// a time beyond the 64-bit range is pinned to the largest value. Only
/// nonnegativity is promised: the result depends on the clock.
#[verifier::external_body]
fn current_timestamp() -> (t: i64)
    ensures
        t >= 0,
{
    let ms = std::time::SystemTime::now()
        .duration_since(std::time::UNIX_EPOCH)
        .unwrap_or_default()
        .as_millis();
    if ms > i64::MAX as u128 {
        i64::MAX
    } else {
        ms as i64
    }
}

/// Mock accelerometer data for a device at rest: gravity on the Y axis.
pub fn mock_accelerometer_at_rest() -> (d: AccelerometerData)
    ensures
        d.x == 0,
        d.y == 981,
        d.z == 0,
        d.accuracy == 3,
        d.timestamp >= 0,
{
    AccelerometerData { x: 0, y: 981, z: 0, timestamp: current_timestamp(), accuracy: 3 }
}

/// Mock accelerometer data for a device being shaken.
pub fn mock_accelerometer_shaking() -> (d: AccelerometerData)
    ensures
        d.x == 250,
        d.y == 830,
        d.z == -120,
        d.accuracy == 3,
        d.timestamp >= 0,
{
    AccelerometerData { x: 250, y: 830, z: -120, timestamp: current_timestamp(), accuracy: 3 }
}

/// Mock magnetometer data pointing north.
pub fn mock_magnetometer_north() -> (d: MagnetometerData)
    ensures
        d.x == 0,
        d.y == 5000,
        d.z == 2000,
        d.heading == 0,
        d.accuracy == 3,
        d.timestamp >= 0,
{
    MagnetometerData {
        x: 0,
        y: 5000,
        z: 2000,
        heading: 0,
        timestamp: current_timestamp(),
        accuracy: 3,
    }
}

/// Mock magnetometer data pointing southwest.
pub fn mock_magnetometer_southwest() -> (d: MagnetometerData)
    ensures
        d.x == -3500,
        d.y == -3500,
        d.z == 2000,
        d.heading == 2250,
        d.accuracy == 3,
        d.timestamp >= 0,
{
    MagnetometerData {
        x: -3500,
        y: -3500,
        z: 2000,
        heading: 2250,
        timestamp: current_timestamp(),
        accuracy: 3,
    }
}

/// Mock GPS data for San Francisco.
pub fn mock_gps_san_francisco() -> (d: GpsData)
    ensures
        d.latitude == 377749,
        d.longitude == -1224194,
        d.altitude == Some(1600i64),
        d.accuracy == 500,
        d.speed == Some(0i64),
        d.timestamp >= 0,
{
    GpsData {
        latitude: 377749,
        longitude: -1224194,
        altitude: Some(1600),
        accuracy: 500,
        speed: Some(0),
        timestamp: current_timestamp(),
    }
}

/// Mock GPS data while moving.
pub fn mock_gps_moving() -> (d: GpsData)
    ensures
        d.latitude == 377750,
        d.longitude == -1224195,
        d.altitude == Some(1800i64),
        d.accuracy == 800,
        d.speed == Some(550i64),
        d.timestamp >= 0,
{
    GpsData {
        latitude: 377750,
        longitude: -1224195,
        altitude: Some(1800),
        accuracy: 800,
        speed: Some(550),
        timestamp: current_timestamp(),
    }
}

/// Mock pressure data at sea level.
pub fn mock_pressure_sea_level() -> (d: PressureData)
    ensures
        d.pressure == 101325,
        d.timestamp >= 0,
{
    PressureData { pressure: 101325, timestamp: current_timestamp() }
}

/// Mock pressure data at altitude.
pub fn mock_pressure_altitude() -> (d: PressureData)
    ensures
        d.pressure == 95000,
        d.timestamp >= 0,
{
    PressureData { pressure: 95000, timestamp: current_timestamp() }
}

/// Mock temperature data at a comfortable room temperature.
pub fn mock_temperature_comfortable() -> (d: TemperatureData)
    ensures
        d.temperature == 225,
        d.timestamp >= 0,
{
    TemperatureData { temperature: 225, timestamp: current_timestamp() }
}

/// Mock temperature data on a hot day.
pub fn mock_temperature_hot() -> (d: TemperatureData)
    ensures
        d.temperature == 350,
        d.timestamp >= 0,
{
    TemperatureData { temperature: 350, timestamp: current_timestamp() }
}

/// A fixed list of three mock WiFi networks with distinct signal
/// strengths.
pub fn mock_wifi_networks() -> (r: Vec<WifiNetwork>)
    ensures
        r@.len() == 3,
        r@[0].ssid@ == "MyHomeWiFi"@,
        r@[0].bssid@ == "00:11:22:33:44:55"@,
        r@[0].signal_strength == -45,
        r@[0].frequency == 2412,
        r@[0].security@ == "WPA2"@,
        r@[1].ssid@ == "Neighbor_5G"@,
        r@[1].bssid@ == "AA:BB:CC:DD:EE:FF"@,
        r@[1].signal_strength == -68,
        r@[1].frequency == 5180,
        r@[1].security@ == "WPA3"@,
        r@[2].ssid@ == "CoffeeShop-Guest"@,
        r@[2].bssid@ == "11:22:33:44:55:66"@,
        r@[2].signal_strength == -52,
        r@[2].frequency == 2437,
        r@[2].security@ == "Open"@,
{
    let mut r: Vec<WifiNetwork> = Vec::new();
    r.push(
        WifiNetwork {
            ssid: "MyHomeWiFi".to_owned(),
            bssid: "00:11:22:33:44:55".to_owned(),
            signal_strength: -45,
            frequency: 2412,
            security: "WPA2".to_owned(),
        },
    );
    r.push(
        WifiNetwork {
            ssid: "Neighbor_5G".to_owned(),
            bssid: "AA:BB:CC:DD:EE:FF".to_owned(),
            signal_strength: -68,
            frequency: 5180,
            security: "WPA3".to_owned(),
        },
    );
    r.push(
        WifiNetwork {
            ssid: "CoffeeShop-Guest".to_owned(),
            bssid: "11:22:33:44:55:66".to_owned(),
            signal_strength: -52,
            frequency: 2437,
            security: "Open".to_owned(),
        },
    );
    r
}

} // verus!
