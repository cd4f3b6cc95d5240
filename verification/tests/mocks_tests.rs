use mobile_sensors::mocks::mock_accelerometer_at_rest;
use mobile_sensors::mocks::mock_gps_moving;
use mobile_sensors::mocks::mock_gps_san_francisco;
use mobile_sensors::mocks::mock_magnetometer_north;
use mobile_sensors::mocks::mock_magnetometer_southwest;
use mobile_sensors::mocks::mock_pressure_altitude;
use mobile_sensors::mocks::mock_pressure_sea_level;
use mobile_sensors::mocks::mock_temperature_comfortable;
use mobile_sensors::mocks::mock_temperature_hot;
use mobile_sensors::mocks::mock_wifi_networks;

#[test]
fn test_mock_accelerometer_at_rest() {
    let data = mock_accelerometer_at_rest();
    assert_eq!(data.y, 981);
    assert_eq!(data.accuracy, 3);
}

#[test]
fn test_mock_magnetometer_north() {
    let data = mock_magnetometer_north();
    assert_eq!(data.heading, 0);
}

#[test]
fn test_mock_magnetometer_southwest() {
    let data = mock_magnetometer_southwest();
    assert_eq!(data.heading, 2250);
    assert_eq!(data.x, -3500);
}

#[test]
fn test_mock_gps_san_francisco() {
    let data = mock_gps_san_francisco();
    assert_eq!(data.latitude, 377749);
    assert_eq!(data.longitude, -1224194);
}

#[test]
fn test_mock_gps_moving() {
    let data = mock_gps_moving();
    assert_eq!(data.speed, Some(550));
}

#[test]
fn test_mock_pressure_sea_level() {
    let data = mock_pressure_sea_level();
    assert_eq!(data.pressure, 101325);
}

#[test]
fn test_mock_pressure_altitude() {
    let data = mock_pressure_altitude();
    assert_eq!(data.pressure, 95000);
}

#[test]
fn test_mock_temperatures() {
    assert_eq!(mock_temperature_comfortable().temperature, 225);
    assert_eq!(mock_temperature_hot().temperature, 350);
}

#[test]
fn test_mock_wifi_networks() {
    let networks = mock_wifi_networks();
    assert_eq!(networks.len(), 3);
    assert_eq!(networks[0].ssid, "MyHomeWiFi");
}

#[test]
fn test_mock_timestamps_nonnegative() {
    assert!(mock_accelerometer_at_rest().timestamp >= 0);
    assert!(mock_pressure_sea_level().timestamp >= 0);
}
