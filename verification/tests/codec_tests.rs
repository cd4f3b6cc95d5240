use mobile_sensors::codec::decode_accelerometer;
use mobile_sensors::codec::decode_gps;
use mobile_sensors::codec::decode_magnetometer;
use mobile_sensors::codec::decode_pressure;
use mobile_sensors::codec::decode_temperature;
use mobile_sensors::codec::decode_wifi_network;
use mobile_sensors::codec::encode_accelerometer;
use mobile_sensors::codec::encode_gps;
use mobile_sensors::codec::encode_magnetometer;
use mobile_sensors::codec::encode_pressure;
use mobile_sensors::codec::encode_temperature;
use mobile_sensors::codec::encode_wifi_network;
use mobile_sensors::models::AccelerometerData;
use mobile_sensors::models::GpsData;
use mobile_sensors::models::MagnetometerData;
use mobile_sensors::models::PressureData;
use mobile_sensors::models::TemperatureData;
use mobile_sensors::models::WifiNetwork;

#[test]
fn test_accelerometer_serialization() {
    let data = AccelerometerData {
        x: 100,
        y: 200,
        z: 300,
        timestamp: 1000,
        accuracy: 2,
    };
    let text = encode_accelerometer(&data);
    let deserialized = decode_accelerometer(text.as_str()).unwrap();
    assert_eq!(data, deserialized);
}

#[test]
fn test_accelerometer_text_form() {
    let data = AccelerometerData {
        x: -120,
        y: 981,
        z: 0,
        timestamp: 42,
        accuracy: 3,
    };
    assert_eq!(
        encode_accelerometer(&data),
        "accelerometer{x=-120;y=981;z=0;timestamp=42;accuracy=3}"
    );
}

#[test]
fn test_magnetometer_round_trip() {
    let data = MagnetometerData {
        x: -3500,
        y: -3500,
        z: 2000,
        heading: 2250,
        timestamp: 123456,
        accuracy: 1,
    };
    let text = encode_magnetometer(&data);
    assert_eq!(decode_magnetometer(text.as_str()), Some(data));
}

#[test]
fn test_gps_round_trip_with_options() {
    let with = GpsData {
        latitude: 377749,
        longitude: -1224194,
        altitude: Some(1600),
        accuracy: 500,
        speed: Some(0),
        timestamp: 99,
    };
    let text = encode_gps(&with);
    assert_eq!(decode_gps(text.as_str()), Some(with));

    let without = GpsData {
        latitude: 0,
        longitude: 0,
        altitude: None,
        accuracy: 800,
        speed: None,
        timestamp: -5,
    };
    let text2 = encode_gps(&without);
    assert!(text2.contains("altitude=none"));
    assert_eq!(decode_gps(text2.as_str()), Some(without));
}

#[test]
fn test_pressure_round_trip() {
    let data = PressureData {
        pressure: 101325,
        timestamp: 1234567890,
    };
    let text = encode_pressure(&data);
    assert_eq!(text, "pressure{pressure=101325;timestamp=1234567890}");
    assert_eq!(decode_pressure(text.as_str()), Some(data));
}

#[test]
fn test_temperature_round_trip() {
    let data = TemperatureData {
        temperature: -400,
        timestamp: 77,
    };
    let text = encode_temperature(&data);
    assert_eq!(decode_temperature(text.as_str()), Some(data));
}

#[test]
fn test_wifi_round_trip() {
    let network = WifiNetwork {
        ssid: "Caffè WiFi;=}".to_string(),
        bssid: "00:11:22:33:44:55".to_string(),
        signal_strength: -45,
        frequency: 2412,
        security: "".to_string(),
    };
    let text = encode_wifi_network(&network);
    assert_eq!(decode_wifi_network(text.as_str()), Some(network));
}

#[test]
fn test_decode_rejects_malformed() {
    assert_eq!(decode_pressure("pressure{pressure=abc;timestamp=1}"), None);
    assert_eq!(decode_pressure("pressure{pressure=1;timestamp=2}x"), None);
    assert_eq!(decode_temperature("pressure{pressure=1;timestamp=2}"), None);
    assert_eq!(decode_gps(""), None);
    assert_eq!(decode_wifi_network("wifi{ssid=3:abc"), None);
    // An accuracy outside the 32-bit range is refused.
    assert_eq!(
        decode_accelerometer("accelerometer{x=1;y=2;z=3;timestamp=4;accuracy=5000000000}"),
        None
    );
}

#[test]
fn test_decode_rejects_overlong_numbers() {
    // Twenty digits never parse as a single number.
    assert_eq!(
        decode_pressure("pressure{pressure=12345678901234567890;timestamp=1}"),
        None
    );
}
