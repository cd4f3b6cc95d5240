use mobile_sensors::models::calculate_heading;
use mobile_sensors::models::get_cardinal_direction;
use mobile_sensors::models::AccelerometerData;
use mobile_sensors::models::GpsData;
use mobile_sensors::models::MagnetometerData;
use mobile_sensors::models::PressureData;
use mobile_sensors::models::SensorError;
use mobile_sensors::models::TemperatureData;
use mobile_sensors::models::WifiNetwork;

#[test]
fn test_accelerometer_data_creation() {
    let data = AccelerometerData {
        x: 0,
        y: 981,
        z: 0,
        timestamp: 1234567890,
        accuracy: 3,
    };
    assert_eq!(data.y, 981);
    assert_eq!(data.accuracy, 3);
}

#[test]
fn test_magnetometer_data_creation() {
    let data = MagnetometerData {
        x: 1000,
        y: 2000,
        z: 3000,
        heading: 450,
        timestamp: 1234567890,
        accuracy: 3,
    };
    assert_eq!(data.heading, 450);
}

#[test]
fn test_heading_calculation_north() {
    // When Y is positive and X is near zero, heading should be near 0 (north)
    let heading = calculate_heading(0, 1000);
    assert!((heading - 0).abs() < 10);
}

#[test]
fn test_heading_calculation_east() {
    // When X is positive and Y is near zero, heading should be near 90 (east)
    let heading = calculate_heading(1000, 0);
    assert!((heading - 900).abs() < 10);
}

#[test]
fn test_heading_calculation_south() {
    // When Y is negative and X is near zero, heading should be near 180 (south)
    let heading = calculate_heading(0, -1000);
    assert!((heading - 1800).abs() < 10);
}

#[test]
fn test_heading_calculation_west() {
    // When X is negative and Y is near zero, heading should be near 270 (west)
    let heading = calculate_heading(-1000, 0);
    assert!((heading - 2700).abs() < 10);
}

#[test]
fn test_heading_axes_exact() {
    assert_eq!(calculate_heading(0, 1000), 0);
    assert_eq!(calculate_heading(1000, 0), 900);
    assert_eq!(calculate_heading(0, -1000), 1800);
    assert_eq!(calculate_heading(-1000, 0), 2700);
    // The diagonals are exact: northeast, southeast, southwest, northwest.
    assert_eq!(calculate_heading(700, 700), 450);
    assert_eq!(calculate_heading(700, -700), 1350);
    assert_eq!(calculate_heading(-3500, -3500), 2250);
    assert_eq!(calculate_heading(-700, 700), 3150);
}

#[test]
fn test_heading_quadrants() {
    let ne = calculate_heading(300, 900);
    assert!(ne > 0 && ne < 900);
    let se = calculate_heading(900, -300);
    assert!(se > 900 && se < 1800);
    let sw = calculate_heading(-300, -900);
    assert!(sw > 1800 && sw < 2700);
    let nw = calculate_heading(-900, 300);
    assert!(nw > 2700 && nw < 3600);
}

#[test]
fn test_cardinal_direction_north() {
    assert_eq!(get_cardinal_direction(0), "N");
    assert_eq!(get_cardinal_direction(100), "N");
    assert_eq!(get_cardinal_direction(3500), "N");
}

#[test]
fn test_cardinal_direction_east() {
    assert_eq!(get_cardinal_direction(900), "E");
    assert_eq!(get_cardinal_direction(850), "E");
}

#[test]
fn test_cardinal_direction_south() {
    assert_eq!(get_cardinal_direction(1800), "S");
}

#[test]
fn test_cardinal_direction_west() {
    assert_eq!(get_cardinal_direction(2700), "W");
}

#[test]
fn test_cardinal_direction_northeast() {
    assert_eq!(get_cardinal_direction(450), "NE");
}

#[test]
fn test_cardinal_direction_sector_boundaries() {
    // Each sector is 45 degrees wide, centered on its compass point.
    assert_eq!(get_cardinal_direction(224), "N");
    assert_eq!(get_cardinal_direction(225), "NE");
    assert_eq!(get_cardinal_direction(3374), "NW");
    assert_eq!(get_cardinal_direction(3375), "N");
    assert_eq!(get_cardinal_direction(675), "E");
    assert_eq!(get_cardinal_direction(1125), "SE");
    assert_eq!(get_cardinal_direction(1575), "S");
    assert_eq!(get_cardinal_direction(2025), "SW");
    assert_eq!(get_cardinal_direction(2475), "W");
    assert_eq!(get_cardinal_direction(2925), "NW");
}

#[test]
fn test_cardinal_direction_normalizes() {
    // Headings outside [0, 360) are reduced into the range first.
    assert_eq!(get_cardinal_direction(3600), "N");
    assert_eq!(get_cardinal_direction(-900), "W");
    assert_eq!(get_cardinal_direction(4050), "NE");
}

#[test]
fn test_gps_data_creation() {
    let data = GpsData {
        latitude: 377749,
        longitude: -1224194,
        altitude: Some(1000),
        accuracy: 500,
        speed: Some(0),
        timestamp: 1234567890,
    };
    assert_eq!(data.latitude, 377749);
    assert_eq!(data.longitude, -1224194);
}

#[test]
fn test_gps_data_optional_fields() {
    let data = GpsData {
        latitude: 0,
        longitude: 0,
        altitude: None,
        accuracy: 1000,
        speed: None,
        timestamp: 1234567890,
    };
    assert!(data.altitude.is_none());
    assert!(data.speed.is_none());
}

#[test]
fn test_pressure_data_creation() {
    let data = PressureData {
        pressure: 101325,
        timestamp: 1234567890,
    };
    assert_eq!(data.pressure, 101325);
}

#[test]
fn test_temperature_data_creation() {
    let data = TemperatureData {
        temperature: 225,
        timestamp: 1234567890,
    };
    assert_eq!(data.temperature, 225);
}

#[test]
fn test_wifi_network_creation() {
    let network = WifiNetwork {
        ssid: "MyNetwork".to_string(),
        bssid: "00:11:22:33:44:55".to_string(),
        signal_strength: -50,
        frequency: 2412,
        security: "WPA2".to_string(),
    };
    assert_eq!(network.ssid, "MyNetwork");
    assert_eq!(network.signal_strength, -50);
}

#[test]
fn test_sensor_error_not_available() {
    let error = SensorError::NotAvailable("Barometer not found".to_string());
    let msg = error.display_string();
    assert!(msg.contains("not available"));
    assert!(msg.contains("Barometer"));
}

#[test]
fn test_sensor_error_permission_denied() {
    let error = SensorError::PermissionDenied("Location permission required".to_string());
    let msg = error.display_string();
    assert!(msg.contains("Permission denied"));
}

#[test]
fn test_sensor_error_display() {
    let errors = vec![
        SensorError::NotAvailable("test".to_string()),
        SensorError::PermissionDenied("test".to_string()),
        SensorError::HardwareError("test".to_string()),
        SensorError::PluginError("test".to_string()),
        SensorError::DataError("test".to_string()),
    ];

    for error in errors {
        let msg = error.display_string();
        assert!(!msg.is_empty());
    }
}

#[test]
fn test_sensor_error_display_exact() {
    assert_eq!(
        SensorError::HardwareError("bus".to_string()).display_string(),
        "Hardware error: bus"
    );
    assert_eq!(
        SensorError::PluginError("gone".to_string()).display_string(),
        "Plugin error: gone"
    );
    assert_eq!(
        SensorError::DataError("bad".to_string()).display_string(),
        "Data error: bad"
    );
}
