use mcp9601::driver::COLD_JUNCTION_MAX_SIXTEENTHS;
use mcp9601::driver::COLD_JUNCTION_MIN_SIXTEENTHS;
use mcp9601::driver::SensorData;
use mcp9601::driver::Temperature;
use mcp9601::driver::check_cold_junction;
use mcp9601::driver::check_identity;
use mcp9601::driver::check_wiring;
use mcp9601::driver::thermocouple_config;

fn celsius(t: Temperature) -> f32 {
    t.raw_sixteenths() as f32 * 0.0625
}

#[test]
fn from_be_bytes_decodes_signed_big_endian() {
    assert_eq!(Temperature::from_be_bytes(0x00, 0x10).raw_sixteenths(), 16);
    assert_eq!(Temperature::from_be_bytes(0xFF, 0xF0).raw_sixteenths(), -16);
    assert_eq!(Temperature::from_be_bytes(0x00, 0x00).raw_sixteenths(), 0);
    assert_eq!(Temperature::from_be_bytes(0x7F, 0xFF).raw_sixteenths(), i16::MAX);
    assert_eq!(Temperature::from_be_bytes(0x80, 0x00).raw_sixteenths(), i16::MIN);
    assert_eq!(Temperature::from_be_bytes(0x05, 0xA0).raw_sixteenths(), 1440);
    assert_eq!(Temperature::from_be_bytes(0x01, 0x90).raw_sixteenths(), 400);
}

#[test]
fn conversion_scales_by_one_sixteenth() {
    assert!((celsius(Temperature::from_be_bytes(0x00, 0x10)) - 1.0).abs() < 0.001);
    assert!((celsius(Temperature::from_be_bytes(0xFF, 0xF0)) + 1.0).abs() < 0.001);
    assert!((celsius(Temperature::from_be_bytes(0x05, 0xA0)) - 90.0).abs() < 0.001);
    assert!((celsius(Temperature::from_be_bytes(0x01, 0x90)) - 25.0).abs() < 0.001);
}

#[test]
fn identity_accepts_only_the_two_variants() {
    assert!(check_identity(0x40));
    assert!(check_identity(0x41));
    for id in [0x00u8, 0x3F, 0x42, 0x80, 0xFF] {
        assert!(!check_identity(id));
    }
}

#[test]
fn wiring_checks_only_bits_four_and_five() {
    assert!(check_wiring(0x00));
    assert!(check_wiring(0xCF));
    assert!(!check_wiring(0x30));
    assert!(!check_wiring(0x10));
    assert!(!check_wiring(0x20));
    assert!(!check_wiring(0xFF));
}

#[test]
fn cold_junction_plausibility_bounds_are_inclusive() {
    assert!(check_cold_junction(Temperature::from_be_bytes(0x01, 0x90)));
    assert!(check_cold_junction(Temperature::from_be_bytes(0x00, 0x00)));
    assert!(check_cold_junction(Temperature::from_be_bytes(0x05, 0x50)));
    assert!(!check_cold_junction(Temperature::from_be_bytes(0x05, 0x51)));
    assert!(check_cold_junction(Temperature::from_be_bytes(0xFD, 0x80)));
    assert!(!check_cold_junction(Temperature::from_be_bytes(0xFD, 0x7F)));
    assert_eq!(COLD_JUNCTION_MAX_SIXTEENTHS, 1360);
    assert_eq!(COLD_JUNCTION_MIN_SIXTEENTHS, -640);
}

#[test]
fn thermocouple_config_maps_the_closed_set() {
    assert_eq!(thermocouple_config('K'), Some(0x00));
    assert_eq!(thermocouple_config('J'), Some(0x10));
    assert_eq!(thermocouple_config('T'), Some(0x20));
    assert_eq!(thermocouple_config('N'), Some(0x30));
    assert_eq!(thermocouple_config('S'), Some(0x40));
    assert_eq!(thermocouple_config('E'), Some(0x50));
    assert_eq!(thermocouple_config('B'), Some(0x60));
    assert_eq!(thermocouple_config('R'), Some(0x70));
    for code in ['X', 'k', 'r', 'A', '0', ' '] {
        assert_eq!(thermocouple_config(code), None);
    }
}

#[test]
fn sensor_data_holds_both_junctions() {
    let reading = SensorData {
        remote_temperature_c: Temperature::from_be_bytes(0x00, 0x10),
        local_temperature_c: Temperature::from_be_bytes(0x01, 0x90),
    };
    assert!((celsius(reading.remote_temperature_c) - 1.0).abs() < 0.001);
    assert!((celsius(reading.local_temperature_c) - 25.0).abs() < 0.001);
}
