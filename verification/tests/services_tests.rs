use mobile_sensors::mocks::mock_accelerometer_at_rest;
use mobile_sensors::mocks::mock_accelerometer_shaking;
use mobile_sensors::mocks::mock_gps_san_francisco;
use mobile_sensors::mocks::mock_magnetometer_north;
use mobile_sensors::mocks::mock_magnetometer_southwest;
use mobile_sensors::mocks::mock_pressure_sea_level;
use mobile_sensors::mocks::mock_temperature_comfortable;
use mobile_sensors::mocks::mock_wifi_networks;
use mobile_sensors::models::AccelerometerData;
use mobile_sensors::models::GpsData;
use mobile_sensors::models::SensorError;
use mobile_sensors::models::TemperatureData;
use mobile_sensors::models::WifiNetwork;
use mobile_sensors::services::SensorService;

#[test]
fn it_works() {
    assert_eq!(2 + 2, 4);
}

#[test]
fn test_validate_accelerometer_valid() {
    let service = SensorService::new();
    let data = mock_accelerometer_at_rest();
    assert!(service.validate_accelerometer(&data).is_ok());
}

#[test]
fn test_validate_accelerometer_invalid() {
    let service = SensorService::new();
    let data = AccelerometerData {
        x: 10000, // Way too high
        y: 0,
        z: 0,
        timestamp: 0,
        accuracy: 3,
    };
    assert!(service.validate_accelerometer(&data).is_err());
}

#[test]
fn test_validate_accelerometer_boundary() {
    let service = SensorService::new();
    // Exactly 20 m/s² on an axis is still valid.
    let on_edge = AccelerometerData {
        x: 2000,
        y: -2000,
        z: 2000,
        timestamp: 0,
        accuracy: 3,
    };
    assert!(service.validate_accelerometer(&on_edge).is_ok());
    let over = AccelerometerData {
        x: 0,
        y: 2001,
        z: 0,
        timestamp: 0,
        accuracy: 3,
    };
    match service.validate_accelerometer(&over) {
        Err(SensorError::DataError(m)) => assert_eq!(m, "Acceleration value out of range"),
        _ => panic!("expected a data error"),
    }
}

#[test]
fn test_format_accelerometer() {
    let service = SensorService::new();
    let data = mock_accelerometer_at_rest();
    let formatted = service.format_accelerometer(&data);
    assert!(formatted.contains("9.81"));
    assert!(formatted.contains("m/s²"));
}

#[test]
fn test_format_accelerometer_exact() {
    let service = SensorService::new();
    let formatted = service.format_accelerometer(&mock_accelerometer_shaking());
    assert_eq!(formatted, "X: 2.50 m/s², Y: 8.30 m/s², Z: -1.20 m/s²");
}

#[test]
fn test_calculate_acceleration_magnitude() {
    let service = SensorService::new();
    let data = AccelerometerData {
        x: 300,
        y: 400,
        z: 0,
        timestamp: 0,
        accuracy: 3,
    };
    let magnitude = service.calculate_acceleration_magnitude(&data);
    assert_eq!(magnitude, 500); // 3-4-5 triangle
}

#[test]
fn test_acceleration_magnitude_rounds_down() {
    let service = SensorService::new();
    let data = AccelerometerData {
        x: 100,
        y: 100,
        z: 0,
        timestamp: 0,
        accuracy: 3,
    };
    // sqrt(20000) is a little over 141.
    assert_eq!(service.calculate_acceleration_magnitude(&data), 141);
}

#[test]
fn test_validate_gps_valid() {
    let service = SensorService::new();
    let data = mock_gps_san_francisco();
    assert!(service.validate_gps(&data).is_ok());
}

#[test]
fn test_validate_gps_invalid_latitude() {
    let service = SensorService::new();
    let data = GpsData {
        latitude: 950000, // Invalid
        longitude: 0,
        altitude: None,
        accuracy: 1000,
        speed: None,
        timestamp: 0,
    };
    assert!(service.validate_gps(&data).is_err());
}

#[test]
fn test_validate_gps_boundaries_and_messages() {
    let service = SensorService::new();
    let edges = GpsData {
        latitude: -900000,
        longitude: 1800000,
        altitude: None,
        accuracy: 0,
        speed: None,
        timestamp: 0,
    };
    assert!(service.validate_gps(&edges).is_ok());
    let bad_lat = GpsData {
        latitude: 900001,
        ..edges.clone()
    };
    match service.validate_gps(&bad_lat) {
        Err(SensorError::DataError(m)) => assert_eq!(m, "Invalid latitude"),
        _ => panic!("expected a data error"),
    }
    let bad_lon = GpsData {
        longitude: -1800001,
        ..edges
    };
    match service.validate_gps(&bad_lon) {
        Err(SensorError::DataError(m)) => assert_eq!(m, "Invalid longitude"),
        _ => panic!("expected a data error"),
    }
}

#[test]
fn test_format_gps() {
    let service = SensorService::new();
    let data = mock_gps_san_francisco();
    let formatted = service.format_gps(&data);
    assert!(formatted.contains("N"));
    assert!(formatted.contains("W"));
}

#[test]
fn test_format_gps_exact() {
    let service = SensorService::new();
    let formatted = service.format_gps(&mock_gps_san_francisco());
    assert_eq!(formatted, "37.7749° N, 122.4194° W");
}

#[test]
fn test_format_heading() {
    let service = SensorService::new();
    let data = mock_magnetometer_north();
    let formatted = service.format_heading(&data);
    assert!(formatted.contains("0.0"));
    assert!(formatted.contains("N"));
}

#[test]
fn test_format_heading_exact() {
    let service = SensorService::new();
    let formatted = service.format_heading(&mock_magnetometer_southwest());
    assert_eq!(formatted, "225.0° (SW)");
}

#[test]
fn test_validate_pressure_valid() {
    let service = SensorService::new();
    let data = mock_pressure_sea_level();
    assert!(service.validate_pressure(&data).is_ok());
}

#[test]
fn test_validate_pressure_out_of_range() {
    let service = SensorService::new();
    let low = mobile_sensors::models::PressureData {
        pressure: 79999,
        timestamp: 0,
    };
    match service.validate_pressure(&low) {
        Err(SensorError::DataError(m)) => assert_eq!(m, "Pressure out of range"),
        _ => panic!("expected a data error"),
    }
}

#[test]
fn test_format_pressure() {
    let service = SensorService::new();
    let data = mock_pressure_sea_level();
    let formatted = service.format_pressure(&data);
    assert!(formatted.contains("1013.25"));
    assert!(formatted.contains("hPa"));
}

#[test]
fn test_format_pressure_tags() {
    let service = SensorService::new();
    let normal = mobile_sensors::models::PressureData {
        pressure: 101325,
        timestamp: 0,
    };
    assert_eq!(service.format_pressure(&normal), "1013.25 hPa (Normal)");
    let low = mobile_sensors::models::PressureData {
        pressure: 95000,
        timestamp: 0,
    };
    assert_eq!(service.format_pressure(&low), "950.00 hPa (Low)");
    let high = mobile_sensors::models::PressureData {
        pressure: 103000,
        timestamp: 0,
    };
    assert_eq!(service.format_pressure(&high), "1030.00 hPa (High)");
}

#[test]
fn test_validate_temperature_valid() {
    let service = SensorService::new();
    let data = mock_temperature_comfortable();
    assert!(service.validate_temperature(&data).is_ok());
}

#[test]
fn test_validate_temperature_out_of_range() {
    let service = SensorService::new();
    let cold = TemperatureData {
        temperature: -501,
        timestamp: 0,
    };
    match service.validate_temperature(&cold) {
        Err(SensorError::DataError(m)) => assert_eq!(m, "Temperature out of range"),
        _ => panic!("expected a data error"),
    }
}

#[test]
fn test_format_temperature() {
    let service = SensorService::new();
    let data = TemperatureData {
        temperature: 0,
        timestamp: 0,
    };
    let formatted = service.format_temperature(&data);
    assert!(formatted.contains("0.0°C"));
    assert!(formatted.contains("32.0°F"));
}

#[test]
fn test_format_temperature_exact() {
    let service = SensorService::new();
    let zero = TemperatureData {
        temperature: 0,
        timestamp: 0,
    };
    assert_eq!(service.format_temperature(&zero), "0.0°C (32.0°F)");
    let comfortable = TemperatureData {
        temperature: 225,
        timestamp: 0,
    };
    assert_eq!(service.format_temperature(&comfortable), "22.5°C (72.5°F)");
    let freezing = TemperatureData {
        temperature: -400,
        timestamp: 0,
    };
    assert_eq!(service.format_temperature(&freezing), "-40.0°C (-40.0°F)");
}

#[test]
fn test_sort_wifi_by_signal() {
    let service = SensorService::new();
    let mut networks = mock_wifi_networks();
    service.sort_wifi_by_signal(&mut networks);
    // Should be sorted strongest first
    assert!(networks[0].signal_strength >= networks[1].signal_strength);
    assert!(networks[1].signal_strength >= networks[2].signal_strength);
}

#[test]
fn test_sort_wifi_by_signal_order() {
    let service = SensorService::new();
    let mut networks = mock_wifi_networks();
    service.sort_wifi_by_signal(&mut networks);
    let strengths: Vec<i32> = networks.iter().map(|n| n.signal_strength).collect();
    assert_eq!(strengths, vec![-45, -52, -68]);
    assert_eq!(networks[0].ssid, "MyHomeWiFi");
    assert_eq!(networks[1].ssid, "CoffeeShop-Guest");
    assert_eq!(networks[2].ssid, "Neighbor_5G");
}

#[test]
fn test_get_signal_description() {
    let service = SensorService::new();
    assert_eq!(service.get_signal_description(-45), "Excellent");
    assert_eq!(service.get_signal_description(-55), "Good");
    assert_eq!(service.get_signal_description(-65), "Fair");
    assert_eq!(service.get_signal_description(-80), "Weak");
}

#[test]
fn test_get_signal_description_thresholds() {
    let service = SensorService::new();
    assert_eq!(service.get_signal_description(-50), "Excellent");
    assert_eq!(service.get_signal_description(-51), "Good");
    assert_eq!(service.get_signal_description(-60), "Good");
    assert_eq!(service.get_signal_description(-61), "Fair");
    assert_eq!(service.get_signal_description(-70), "Fair");
    assert_eq!(service.get_signal_description(-71), "Weak");
}

#[test]
fn test_format_wifi_network() {
    let service = SensorService::new();
    let network = WifiNetwork {
        ssid: "TestWiFi".to_string(),
        bssid: "00:11:22:33:44:55".to_string(),
        signal_strength: -45,
        frequency: 2412,
        security: "WPA2".to_string(),
    };
    let formatted = service.format_wifi_network(&network);
    assert!(formatted.contains("TestWiFi"));
    assert!(formatted.contains("Excellent"));
    assert!(formatted.contains("WPA2"));
}

#[test]
fn test_format_wifi_network_exact() {
    let service = SensorService::new();
    let network = WifiNetwork {
        ssid: "TestWiFi".to_string(),
        bssid: "00:11:22:33:44:55".to_string(),
        signal_strength: -45,
        frequency: 2412,
        security: "WPA2".to_string(),
    };
    assert_eq!(
        service.format_wifi_network(&network),
        "TestWiFi - Excellent (-45 dBm) - WPA2"
    );
}
