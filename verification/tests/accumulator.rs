//! Fuel/trip accumulator scenarios: stopped engine, stationary vehicle,
//! moving vehicle, and the reset-then-persist round trip.

use suzui_rs::context::EngineContext;
use suzui_rs::sdl::{ObdAddress, SuzukiSdlViewer};
use suzui_rs::trip_record::{format_trip_record, parse_trip_record};

/// Calculated load follows the signed ratio with saturating-cast
/// semantics: a negative ratio reads 0, an oversized one 255, and two
/// negative pressures still give the formula's positive value.
#[test]
fn calculated_load_follows_the_signed_formula() {
    // 50 kPa over 100 kPa at 20 C (293.15 K) is exactly 50 percent.
    assert_eq!(SuzukiSdlViewer::calculate_load(50_000, 100_000, 20), 50);
    // Pressures decoded from bytes 100 and 155 at 20 C.
    assert_eq!(SuzukiSdlViewer::calculate_load(45_345, 81_285, 20), 56);
    // Both negative, as a zeroed raw store decodes: the ratio is positive.
    assert_eq!(SuzukiSdlViewer::calculate_load(-20_000, -20_000, -40), 126);
    // Opposite signs give a negative ratio, clamped at zero.
    assert_eq!(SuzukiSdlViewer::calculate_load(-100, 50_000, 0), 0);
    assert_eq!(SuzukiSdlViewer::calculate_load(100, -50_000, 0), 0);
    // An oversized ratio saturates at the byte ceiling.
    assert_eq!(SuzukiSdlViewer::calculate_load(2_000_000, 1_000, 0), 255);
    // A zero denominator reads zero.
    assert_eq!(SuzukiSdlViewer::calculate_load(100, 0, 0), 0);
}

/// With the engine stopped, no cumulative counter moves across polls.
#[test]
fn stopped_engine_preserves_counters() {
    let mut viewer = SuzukiSdlViewer::new();
    viewer.engine_context.cumulative_distance = 111;
    viewer.engine_context.cumulative_fuel = 222;
    viewer.engine_context.total_fuel_used = 333;
    for i in 0..5u64 {
        viewer.update_processed_data(1000 * (i + 1));
        assert_eq!(viewer.engine_context.engine_speed, 0);
        assert_eq!(viewer.engine_context.cumulative_distance, 111);
        assert_eq!(viewer.engine_context.cumulative_fuel, 222);
        assert_eq!(viewer.engine_context.total_fuel_used, 333);
    }
    assert_eq!(viewer.engine_context.last_poll, Some(5000));
}

/// Engine running, vehicle stationary: total fuel grows, the trip
/// counters and instant consumption stay put.
#[test]
fn stationary_vehicle_counts_only_total_fuel() {
    let mut viewer = SuzukiSdlViewer::new();
    viewer.raw_data.set(ObdAddress::RpmHigh, 1); // 50 RPM
    viewer.raw_data.set(ObdAddress::InjectorPulseWidthHigh, 1); // 512 us

    // First poll only records the timestamp baseline.
    viewer.update_processed_data(1000);
    assert_eq!(viewer.engine_context.engine_speed, 50);
    assert_eq!(viewer.engine_context.injector_pulse_width_cyl_1, 512);
    assert_eq!(viewer.engine_context.total_fuel_used, 0);

    // Second poll, 1000 ms later: flow = 4 * 152 * 512 us * 50 rpm
    // = 15_564_800 nL/h, integrated over 1000 ms.
    viewer.update_processed_data(2000);
    assert_eq!(viewer.engine_context.fuel_flow_rate, 15_564_800);
    assert_eq!(viewer.engine_context.total_fuel_used, 15_564_800_000);
    assert_eq!(viewer.engine_context.cumulative_distance, 0);
    assert_eq!(viewer.engine_context.cumulative_fuel, 0);
    assert_eq!(viewer.engine_context.instant_consumption, 0);
    // 15_564_800_000 fuel units are 4 whole microlitres.
    assert_eq!(viewer.engine_context.total_fuel_used_microlitres(), 4);
}

/// Engine running, vehicle moving: both trip counters grow and instant
/// consumption is (flow / speed) scaled into mL per 100 km.
#[test]
fn moving_vehicle_accumulates_distance_and_fuel() {
    let mut viewer = SuzukiSdlViewer::new();
    viewer.raw_data.set(ObdAddress::RpmHigh, 1); // 50 RPM
    viewer.raw_data.set(ObdAddress::InjectorPulseWidthHigh, 1); // 512 us
    viewer.raw_data.set(ObdAddress::VehicleSpeedSensor, 100); // 100 km/h

    viewer.update_processed_data(1000);
    viewer.update_processed_data(2000);

    // Distance: 100 km/h over 1000 ms = 100_000 units = 27 whole metres.
    assert_eq!(viewer.engine_context.cumulative_distance, 100_000);
    assert_eq!(viewer.engine_context.cumulative_distance_metres(), 27);
    // Fuel: flow 15_564_800 nL/h over 1000 ms.
    assert_eq!(viewer.engine_context.cumulative_fuel, 15_564_800_000);
    assert_eq!(viewer.engine_context.total_fuel_used, 15_564_800_000);
    // Instant: 15_564_800 / (100 * 10_000) = 15 mL per 100 km.
    assert_eq!(viewer.engine_context.instant_consumption, 15);
    // Long-term over the trip so far comes out the same.
    assert_eq!(viewer.engine_context.fuel_consumption, 15);

    // A further poll keeps both counters non-decreasing.
    viewer.update_processed_data(3000);
    assert_eq!(viewer.engine_context.cumulative_distance, 200_000);
    assert_eq!(viewer.engine_context.cumulative_fuel, 31_129_600_000);
}

/// Reset zeroes the three counters and the record written right after
/// reloads as the zeroed state.
#[test]
fn reset_zeroes_counters_and_persists_zeroes() {
    let mut viewer = SuzukiSdlViewer::new();
    viewer.raw_data.set(ObdAddress::RpmHigh, 10);
    viewer.raw_data.set(ObdAddress::InjectorPulseWidthHigh, 10);
    viewer.raw_data.set(ObdAddress::VehicleSpeedSensor, 60);
    viewer.update_processed_data(500);
    viewer.update_processed_data(1500);
    assert!(viewer.engine_context.cumulative_distance > 0);
    assert!(viewer.engine_context.cumulative_fuel > 0);
    assert!(viewer.engine_context.total_fuel_used > 0);

    viewer.engine_context.reset_trip();
    assert_eq!(viewer.engine_context.cumulative_distance, 0);
    assert_eq!(viewer.engine_context.cumulative_fuel, 0);
    assert_eq!(viewer.engine_context.total_fuel_used, 0);
    // The reset does not disturb the poll baseline.
    assert_eq!(viewer.engine_context.last_poll, Some(1500));

    let written = format_trip_record(
        viewer.engine_context.cumulative_distance,
        viewer.engine_context.cumulative_fuel,
        viewer.engine_context.total_fuel_used,
    );
    assert_eq!(parse_trip_record(&written), (0, 0, 0));
}

/// The long-term figure follows cumulative fuel over cumulative distance
/// even when those were loaded rather than integrated.
#[test]
fn long_term_consumption_recomputed_every_poll() {
    let mut ctx = EngineContext::new();
    ctx.cumulative_distance = 3_600_000; // 1 km of accumulator units
    ctx.cumulative_fuel = 288_000_000_000_000; // 80 L over that km
    ctx.integrate_fuel(100);
    // 288e12 / (3.6e6 * 1e4) = 8000 mL per 100 km.
    assert_eq!(ctx.fuel_consumption, 8000);
    assert_eq!(ctx.last_poll, Some(100));
}

/// Decoded snapshot of a poll where every raw byte is zero.
#[test]
fn zeroed_raw_store_decodes_to_baseline_values() {
    let mut viewer = SuzukiSdlViewer::new();
    viewer.update_processed_data(10);
    let ctx = viewer.engine_context;
    assert_eq!(ctx.desired_idle, 0);
    assert_eq!(ctx.engine_speed, 0);
    assert_eq!(ctx.coolant_temp, -40);
    assert_eq!(ctx.intake_air_temperature, -40);
    assert_eq!(ctx.manifold_absolute_pressure, -20000);
    assert_eq!(ctx.barometric_pressure, -20000);
    assert_eq!(ctx.ignition_advance, -12);
    assert_eq!(ctx.battery_voltage, 0);
    // Both pressures decode to -20 kPa, so the ratio is positive:
    // (1) * (293.15 / 233.15) * 100 rounds to 126.
    assert_eq!(ctx.calculated_load, 126);
    assert!(ctx.fuel_cut);
    assert!(!ctx.radiator_fan);
    assert!(!ctx.electric_load);
}
