//! Viewer poll path: applying data responses to the raw store, the
//! simulated poll, and the address map.

use suzui_rs::sdl::{DecodeError, ObdAddress, SdlHeader, SdlMessage, SuzukiSdlViewer};

fn all_addresses() -> Vec<ObdAddress> {
    vec![
    ObdAddress::FaultCodes1,
    ObdAddress::FaultCodes2,
    ObdAddress::FaultCodes3,
    ObdAddress::FaultCodes4,
    ObdAddress::RpmHigh,
    ObdAddress::RpmLow,
    ObdAddress::TargetIdle,
    ObdAddress::VehicleSpeedSensor,
    ObdAddress::EngineCoolantTemperature,
    ObdAddress::IntakeAirTemperature,
    ObdAddress::TpsAngle,
    ObdAddress::TpsVoltage,
    ObdAddress::InjectorPulseWidthHigh,
    ObdAddress::InjectorPulseWidthLow,
    ObdAddress::IgnitionAdvance,
    ObdAddress::ManifoldAbsolutePressure,
    ObdAddress::BarometricPressure,
    ObdAddress::IscFlowDuty,
    ObdAddress::BatteryVoltage,
    ObdAddress::RadiatorFan,
    ObdAddress::StatusFlags,
    ObdAddress::FaultCodes5,
    ObdAddress::FaultCodes6,
    ]
}

#[test]
fn address_bytes_round_trip_through_from_repr() {
    for addr in all_addresses() {
        let byte = addr.to_byte();
        assert_eq!(ObdAddress::from_repr(byte as usize), Some(addr));
    }
    // The two gaps in the address layout name nothing.
    assert_eq!(ObdAddress::from_repr(0x0C), None);
    assert_eq!(ObdAddress::from_repr(0x22), None);
}

#[test]
fn address_ordinals_are_distinct_slots() {
    let mut seen = [false; 23];
    for addr in all_addresses() {
        let i = addr.index();
        assert!(!seen[i]);
        seen[i] = true;
    }
}

#[test]
fn apply_data_response_fills_the_store_in_request_order() {
    let mut viewer = SuzukiSdlViewer::new();
    let values: Vec<u8> = (1..=17).collect();
    let response = SdlMessage::new(SdlHeader::Data, Some(values)).to_bytes();
    viewer.apply_data_response(&response).expect("well-formed response");
    assert_eq!(viewer.raw_data.get(ObdAddress::RpmHigh), 1);
    assert_eq!(viewer.raw_data.get(ObdAddress::RpmLow), 2);
    assert_eq!(viewer.raw_data.get(ObdAddress::TargetIdle), 3);
    assert_eq!(viewer.raw_data.get(ObdAddress::StatusFlags), 17);
    // Fault codes were not requested and stay zero.
    assert_eq!(viewer.raw_data.get(ObdAddress::FaultCodes1), 0);
}

#[test]
fn short_response_updates_only_the_leading_addresses() {
    let mut viewer = SuzukiSdlViewer::new();
    let response = SdlMessage::new(SdlHeader::Data, Some(vec![9, 8, 7])).to_bytes();
    viewer.apply_data_response(&response).expect("well-formed response");
    assert_eq!(viewer.raw_data.get(ObdAddress::RpmHigh), 9);
    assert_eq!(viewer.raw_data.get(ObdAddress::RpmLow), 8);
    assert_eq!(viewer.raw_data.get(ObdAddress::TargetIdle), 7);
    assert_eq!(viewer.raw_data.get(ObdAddress::VehicleSpeedSensor), 0);
}

#[test]
fn malformed_response_changes_nothing() {
    let mut viewer = SuzukiSdlViewer::new();
    viewer.raw_data.set(ObdAddress::RpmHigh, 42);
    assert_eq!(
        viewer.apply_data_response(&[0xFF, 3, 0]),
        Err(DecodeError::UnknownHeader)
    );
    assert_eq!(viewer.apply_data_response(&[0x13]), Err(DecodeError::FrameTooShort));
    assert_eq!(
        viewer.apply_data_response(&[0x13, 2, 0]),
        Err(DecodeError::InvalidLength)
    );
    assert_eq!(viewer.raw_data.get(ObdAddress::RpmHigh), 42);
    assert_eq!(viewer.raw_data.get(ObdAddress::RpmLow), 0);
}

#[test]
fn simulated_poll_increments_every_byte_and_wraps() {
    let mut viewer = SuzukiSdlViewer::new();
    viewer.raw_data.set(ObdAddress::BatteryVoltage, 255);
    viewer.simulate_poll();
    for addr in all_addresses() {
        let expected = if addr == ObdAddress::BatteryVoltage { 0 } else { 1 };
        assert_eq!(viewer.raw_data.get(addr), expected);
    }
}
