//! Parameter decoder boundary values: each formula reproduces the
//! documented calibration constants at raw = 0, the 32-step points, and 255.

use std::collections::HashMap;

use suzui_rs::sdl::SuzukiSdlViewer;

#[test]
fn test_rpm_high() {
    let inputs: HashMap<u8, u16> = HashMap::from([
        (0, 0),
        (1, 50),
        (32, 1606),
        (64, 3213),
        (96, 4819),
        (128, 6425),
        (160, 8031),
        (192, 9638),
        (224, 11244),
        (255, 12800),
    ]);
    for (key, value) in inputs {
        assert_eq!(SuzukiSdlViewer::calculate_rpm_high(key), value)
    }
}

#[test]
fn test_rpm_low() {
    let inputs: HashMap<u8, u16> = HashMap::from([
        (0, 0),
        (1, 0),
        (32, 6),
        (64, 13),
        (96, 19),
        (128, 25),
        (160, 31),
        (192, 38),
        (224, 44),
        (255, 50),
    ]);
    for (key, value) in inputs {
        assert_eq!(SuzukiSdlViewer::calculate_rpm_low(key), value)
    }
}

#[test]
fn test_desired_idle() {
    let inputs: HashMap<u8, u16> = HashMap::from([
        (0, 0),
        (1, 8),
        (32, 251),
        (64, 502),
        (96, 753),
        (128, 1004),
        (160, 1255),
        (192, 1506),
        (224, 1757),
        (255, 2000),
    ]);
    for (key, value) in inputs {
        assert_eq!(SuzukiSdlViewer::calculate_desired_idle(key), value)
    }
}

#[test]
fn test_temps() {
    let inputs: HashMap<u8, i8> = HashMap::from([
        (0, -40),
        (1, -39),
        (32, -19),
        (64, 0),
        (96, 20),
        (128, 40),
        (160, 60),
        (192, 80),
        (224, 100),
        (255, 120),
    ]);
    for (key, value) in inputs {
        assert_eq!(SuzukiSdlViewer::calculate_temps(key), value)
    }
}

#[test]
fn test_tps_angle() {
    let inputs: HashMap<u8, u8> = HashMap::from([
        (0, 0),
        (1, 0),
        (32, 16),
        (64, 31),
        (96, 47),
        (128, 63),
        (160, 78),
        (192, 94),
        (224, 110),
        (255, 125),
    ]);
    for (key, value) in inputs {
        assert_eq!(SuzukiSdlViewer::calculate_tps_angle(key), value)
    }
}

/// Formats a pulse width held in whole microseconds as milliseconds with
/// three decimals, the precision the readings are compared at.
fn us_as_ms_string(us: u32) -> String {
    format!("{}.{:03}", us / 1000, us % 1000)
}

#[test]
fn test_inj_pw_high() {
    let inputs: HashMap<u8, &str> = HashMap::from([
        (0, "0.000"),
        (1, "0.512"),
        (32, "16.384"),
        (64, "32.768"),
        (96, "49.152"),
        (128, "65.536"),
        (160, "81.920"),
        (192, "98.304"),
        (224, "114.688"),
        (255, "130.560"),
    ]);
    for (key, value) in inputs {
        assert_eq!(us_as_ms_string(SuzukiSdlViewer::calculate_inj_pw_high(key)), value)
    }
}

#[test]
fn test_inj_pw_low() {
    let inputs: HashMap<u8, &str> = HashMap::from([
        (0, "0.000"),
        (1, "0.002"),
        (32, "0.064"),
        (64, "0.128"),
        (96, "0.192"),
        (128, "0.256"),
        (160, "0.320"),
        (192, "0.384"),
        (224, "0.448"),
        (255, "0.510"),
    ]);
    for (key, value) in inputs {
        assert_eq!(us_as_ms_string(SuzukiSdlViewer::calculate_inj_pw_low(key)), value)
    }
}

#[test]
fn test_ignition_advance() {
    let inputs: HashMap<u8, i8> = HashMap::from([
        (0, -12),
        (1, -12),
        (32, -1),
        (64, 11),
        (96, 22),
        (128, 33),
        (160, 44),
        (192, 56),
        (224, 67),
        (255, 78),
    ]);
    for (key, value) in inputs {
        assert_eq!(SuzukiSdlViewer::calculate_ignition_advance(key), value)
    }
}

#[test]
fn test_pressure() {
    let inputs: HashMap<u8, i16> = HashMap::from([
        (0, -20),
        (1, -19),
        (32, 1),
        (64, 22),
        (96, 43),
        (128, 64),
        (160, 85),
        (192, 105),
        (224, 126),
        (255, 147),
    ]);
    for (key, value) in inputs {
        let mkpa = SuzukiSdlViewer::calculate_pressure(key);
        assert_eq!((mkpa as f64 / 1000.0).round() as i16, value)
    }
}

#[test]
fn test_isc_flow_duty() {
    assert_eq!(SuzukiSdlViewer::calculate_isc_flow_duty(0), 0);
    assert_eq!(SuzukiSdlViewer::calculate_isc_flow_duty(128), 50);
    assert_eq!(SuzukiSdlViewer::calculate_isc_flow_duty(255), 100);
}

#[test]
fn test_battery_voltage() {
    let volts = |raw: u8| (SuzukiSdlViewer::calculate_battery_voltage(raw) as f64 / 10000.0).round();
    assert_eq!(volts(0), 0.0);
    assert_eq!(volts(128), 10.0);
    assert_eq!(volts(255), 20.0);
}

#[test]
fn test_rad_flag() {
    let inputs: HashMap<u8, bool> = HashMap::from([(0, false), (128, true)]);

    for (key, value) in inputs {
        assert_eq!(SuzukiSdlViewer::calculate_rad_flag(key), value)
    }
}

#[test]
fn test_status_flags() {
    let inputs = vec![1, 2, 4, 8, 16, 32, 64];
    for input in inputs {
        assert_eq!(
            SuzukiSdlViewer::calculate_ctp_flag(input),
            if input == 16 { true } else { false }
        );
        assert_eq!(
            SuzukiSdlViewer::calculate_el_flag(input),
            if input == 64 { true } else { false }
        );
        assert_eq!(
            SuzukiSdlViewer::calculate_ac_flag(input),
            if input == 4 { true } else { false }
        );
        assert_eq!(
            SuzukiSdlViewer::calculate_psp_flag(input),
            if input == 2 { true } else { false }
        );
    }
}
