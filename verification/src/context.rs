//! The decoded engine snapshot and the time-integrated trip statistics.
//!
//! Instantaneous fields are pure functions of the current raw bytes and
//! are overwritten on every poll. Accumulated fields only move through
//! [`EngineContext::integrate_fuel`] or an explicit
//! [`EngineContext::reset_trip`], and all of them are kept in exact
//! fixed-point integer units so that integration never loses a remainder:
//!
//! - injector pulse width: microseconds;
//! - pressures: thousandths of a kPa;
//! - battery voltage: ten-thousandths of a volt;
//! - fuel flow rate: nanolitres per hour;
//! - cumulative fuel and total fuel: nanolitre-milliseconds per hour
//!   (`FUEL_UNITS_PER_MICROLITRE` of them make one microlitre);
//! - cumulative distance: kilometre-milliseconds per hour
//!   (`DISTANCE_UNITS_PER_METRE` of them make one metre);
//! - consumption figures: millilitres per 100 km.

use vstd::prelude::*;
use vstd::arithmetic::mul::lemma_mul_nonnegative;
use vstd::arithmetic::mul::lemma_mul_strictly_positive;

verus! {

/// Flow rate of a single injector, in cc/min at full duty.
pub const INJECTOR_FLOW_RATE: u8 = 152;

/// How many injectors the engine feeds with the same pulse width.
pub const INJECTOR_COUNT: u8 = 4;

/// Fuel accumulator units per microlitre: one unit is one nanolitre per
/// hour sustained for one millisecond, and an hour has 3 600 000 ms.
pub const FUEL_UNITS_PER_MICROLITRE: u64 = 3_600_000_000;

/// Distance accumulator units per metre: one unit is one km/h sustained
/// for one millisecond.
pub const DISTANCE_UNITS_PER_METRE: u64 = 3600;

/// The decoded snapshot of the engine, plus the accumulated trip state.
#[derive(Debug, Copy, Clone, PartialEq, Eq)]
pub struct EngineContext {
    /// Idle speed the ECU is aiming for, in RPM.
    pub desired_idle: u16,
    /// Current engine speed, in RPM.
    pub engine_speed: u16,
    /// Idle-speed-control valve duty, 0..=100 percent.
    pub isc_flow_duty: u8,
    /// Throttle position as a percentage of the sensor voltage range.
    pub absolute_throttle_position: u8,
    /// Throttle angle computed by the ECU, in degrees.
    pub throttle_angle: u8,
    /// Injector pulse width for cylinder 1, in microseconds.
    pub injector_pulse_width_cyl_1: u32,
    /// Coolant temperature, in degrees Celsius.
    pub coolant_temp: i8,
    /// Vehicle speed, in km/h.
    pub vehicle_speed: u8,
    /// Intake air temperature, in degrees Celsius.
    pub intake_air_temperature: i8,
    /// Manifold absolute pressure, in thousandths of a kPa.
    pub manifold_absolute_pressure: i32,
    /// Barometric pressure taken before the first crank, in thousandths of a kPa.
    pub barometric_pressure: i32,
    /// Battery voltage as the ECU sees it, in ten-thousandths of a volt.
    pub battery_voltage: u32,
    /// Ignition advance commanded by the ECU, in degrees BTDC.
    pub ignition_advance: i8,
    /// Whether the throttle is fully closed.
    pub closed_throttle_position: bool,
    /// Whether the electric load input (defogger, tail lights) is active.
    pub electric_load: bool,
    /// Whether deceleration fuel cut-off is active.
    pub fuel_cut: bool,
    /// Whether the A/C compressor signal is active.
    pub ac_switch: bool,
    /// Whether the power-steering pressure switch is closed.
    pub psp_switch: bool,
    /// Whether the radiator fan input reads active.
    pub radiator_fan: bool,
    /// Calculated engine load, 0..=255 percent.
    pub calculated_load: u8,
    /// Instant fuel consumption, in mL per 100 km.
    pub instant_consumption: u64,
    /// Cumulative trip distance, in `DISTANCE_UNITS_PER_METRE`-ths of a metre.
    pub cumulative_distance: u128,
    /// Cumulative trip fuel while moving, in `FUEL_UNITS_PER_MICROLITRE`-ths of a microlitre.
    pub cumulative_fuel: u128,
    /// Total fuel used whenever the engine ran, in the same fuel units.
    pub total_fuel_used: u128,
    /// Long-term fuel consumption over the trip, in mL per 100 km.
    pub fuel_consumption: u64,
    /// Instantaneous fuel flow, in nanolitres per hour.
    pub fuel_flow_rate: u64,
    /// Monotonic timestamp of the previous poll, in milliseconds.
    pub last_poll: Option<u64>,
}

/// The all-zero snapshot a run starts from.
pub open spec fn spec_default_context() -> EngineContext {
    EngineContext {
        desired_idle: 0,
        engine_speed: 0,
        isc_flow_duty: 0,
        absolute_throttle_position: 0,
        throttle_angle: 0,
        injector_pulse_width_cyl_1: 0,
        coolant_temp: 0,
        vehicle_speed: 0,
        intake_air_temperature: 0,
        manifold_absolute_pressure: 0,
        barometric_pressure: 0,
        battery_voltage: 0,
        ignition_advance: 0,
        closed_throttle_position: false,
        electric_load: false,
        fuel_cut: false,
        ac_switch: false,
        psp_switch: false,
        radiator_fan: false,
        calculated_load: 0,
        instant_consumption: 0,
        cumulative_distance: 0,
        cumulative_fuel: 0,
        total_fuel_used: 0,
        fuel_consumption: 0,
        fuel_flow_rate: 0,
        last_poll: None,
    }
}

/// Milliseconds elapsed from `last` to `now` on a monotonic clock;
/// a clock that did not advance yields zero.
pub open spec fn spec_dt_ms(last: u64, now: u64) -> int {
    if now >= last {
        now - last
    } else {
        0
    }
}

/// Total fuel flow of all injectors, in nanolitres per hour.
///
/// Duty cycle is `pulse_width / engine_cycle_time` with a cycle time of
/// `60000 / rpm` ms; scaling the per-injector cc/min rating by duty, by
/// the injector count and into nL/h collapses to this product.
pub open spec fn spec_fuel_flow_nl_per_hr(pulse_width_us: int, rpm: int) -> int {
    (INJECTOR_COUNT as int) * (INJECTOR_FLOW_RATE as int) * pulse_width_us * rpm
}

/// Saturating add of a non-negative increment to a `u128` counter.
pub open spec fn spec_sat_add_u128(a: u128, inc: int) -> u128 {
    if a + inc <= u128::MAX {
        (a + inc) as u128
    } else {
        u128::MAX
    }
}

/// Instant consumption in mL per 100 km: `(flow[L/h] / speed[km/h]) * 100`,
/// carried out in the fixed-point units and rounded down; zero when stationary.
pub open spec fn spec_instant_consumption(flow_nl_per_hr: int, vehicle_speed: int) -> int {
    if vehicle_speed > 0 {
        flow_nl_per_hr / (vehicle_speed * 10000)
    } else {
        0
    }
}

/// Long-term consumption in mL per 100 km: `cumulative fuel / cumulative
/// distance * 100` in the accumulator units, rounded down, zero before any
/// distance is gathered, and clamped to `u64`.
pub open spec fn spec_long_term_consumption(fuel: u128, distance: u128) -> u64 {
    if distance > 0 {
        let q = (fuel as int / distance as int) / 10000;
        if q <= u64::MAX {
            q as u64
        } else {
            u64::MAX
        }
    } else {
        0
    }
}

/// One integration step, run once per poll after decoding.
///
/// With no previous timestamp, or with the engine stopped, no counter
/// moves. Otherwise total fuel grows by `flow * dt` unconditionally, and
/// the trip counters grow only while the vehicle moves. The long-term
/// consumption is recomputed and the poll timestamp recorded either way.
pub open spec fn spec_integrate(pre: EngineContext, now_ms: u64) -> EngineContext {
    let stepped = match pre.last_poll {
        None => pre,
        Some(lp) => {
            if pre.engine_speed > 0 {
                let dt = spec_dt_ms(lp, now_ms);
                let flow = spec_fuel_flow_nl_per_hr(
                    pre.injector_pulse_width_cyl_1 as int,
                    pre.engine_speed as int,
                );
                let fuel_inc = flow * dt;
                let dist_inc = (pre.vehicle_speed as int) * dt;
                let moving = pre.vehicle_speed > 0;
                EngineContext {
                    cumulative_distance: if moving {
                        spec_sat_add_u128(pre.cumulative_distance, dist_inc)
                    } else {
                        pre.cumulative_distance
                    },
                    cumulative_fuel: if moving {
                        spec_sat_add_u128(pre.cumulative_fuel, fuel_inc)
                    } else {
                        pre.cumulative_fuel
                    },
                    total_fuel_used: spec_sat_add_u128(pre.total_fuel_used, fuel_inc),
                    instant_consumption: spec_instant_consumption(
                        flow,
                        pre.vehicle_speed as int,
                    ) as u64,
                    fuel_flow_rate: flow as u64,
                    ..pre
                }
            } else {
                pre
            }
        },
    };
    EngineContext {
        fuel_consumption: spec_long_term_consumption(
            stepped.cumulative_fuel,
            stepped.cumulative_distance,
        ),
        last_poll: Some(now_ms),
        ..stepped
    }
}

/// The context after a trip reset: the three cumulative counters zeroed,
/// everything else as it was.
pub open spec fn spec_reset(pre: EngineContext) -> EngineContext {
    EngineContext {
        cumulative_distance: 0,
        cumulative_fuel: 0,
        total_fuel_used: 0,
        ..pre
    }
}

impl EngineContext {
    /// A snapshot with every field at zero and no poll recorded yet.
    pub fn new() -> (r: EngineContext)
        ensures
            r == spec_default_context(),
    {
        EngineContext {
            desired_idle: 0,
            engine_speed: 0,
            isc_flow_duty: 0,
            absolute_throttle_position: 0,
            throttle_angle: 0,
            injector_pulse_width_cyl_1: 0,
            coolant_temp: 0,
            vehicle_speed: 0,
            intake_air_temperature: 0,
            manifold_absolute_pressure: 0,
            barometric_pressure: 0,
            battery_voltage: 0,
            ignition_advance: 0,
            closed_throttle_position: false,
            electric_load: false,
            fuel_cut: false,
            ac_switch: false,
            psp_switch: false,
            radiator_fan: false,
            calculated_load: 0,
            instant_consumption: 0,
            cumulative_distance: 0,
            cumulative_fuel: 0,
            total_fuel_used: 0,
            fuel_consumption: 0,
            fuel_flow_rate: 0,
            last_poll: None,
        }
    }

    /// Integrates the elapsed time into the trip statistics, exactly as
    /// [`spec_integrate`] describes, and records `now_ms` as the new
    /// previous-poll timestamp.
    pub fn integrate_fuel(&mut self, now_ms: u64)
        ensures
            *final(self) == spec_integrate(*old(self), now_ms),
    {
        match self.last_poll {
            None => {},
            Some(lp) => {
                if self.engine_speed > 0 {
                    let dt: u64 = if now_ms >= lp {
                        now_ms - lp
                    } else {
                        0
                    };
                    let pw: u64 = self.injector_pulse_width_cyl_1 as u64;
                    let rpm: u64 = self.engine_speed as u64;
                    let base: u64 = (INJECTOR_COUNT as u64) * (INJECTOR_FLOW_RATE as u64) * pw;
                    proof {
                        assert((base as int) * (rpm as int) <= 608int * 0xFFFF_FFFF * 0xFFFF)
                            by (nonlinear_arith)
                            requires
                                base <= 608int * 0xFFFF_FFFF,
                                rpm <= 0xFFFF,
                        ;
                    }
                    let flow: u64 = base * rpm;
                    proof {
                        assert((flow as int) * (dt as int) <= 608int * 0xFFFF_FFFF * 0xFFFF
                            * 0xFFFF_FFFF_FFFF_FFFF) by (nonlinear_arith)
                            requires
                                flow <= 608int * 0xFFFF_FFFF * 0xFFFF,
                                dt <= 0xFFFF_FFFF_FFFF_FFFFu64,
                        ;
                    }
                    let fuel_inc: u128 = (flow as u128) * (dt as u128);
                    let vss: u64 = self.vehicle_speed as u64;
                    proof {
                        assert((vss as int) * (dt as int) <= 255int * 0xFFFF_FFFF_FFFF_FFFF)
                            by (nonlinear_arith)
                            requires
                                vss <= 255,
                                dt <= 0xFFFF_FFFF_FFFF_FFFFu64,
                        ;
                    }
                    let dist_inc: u128 = (self.vehicle_speed as u128) * (dt as u128);
                    if self.vehicle_speed > 0 {
                        self.instant_consumption = flow / ((self.vehicle_speed as u64) * 10000);
                        self.cumulative_distance = if self.cumulative_distance <= u128::MAX
                            - dist_inc {
                            self.cumulative_distance + dist_inc
                        } else {
                            u128::MAX
                        };
                        self.cumulative_fuel = if self.cumulative_fuel <= u128::MAX - fuel_inc {
                            self.cumulative_fuel + fuel_inc
                        } else {
                            u128::MAX
                        };
                    } else {
                        self.instant_consumption = 0;
                    }
                    self.total_fuel_used = if self.total_fuel_used <= u128::MAX - fuel_inc {
                        self.total_fuel_used + fuel_inc
                    } else {
                        u128::MAX
                    };
                    self.fuel_flow_rate = flow;
                }
            },
        }
        self.fuel_consumption = if self.cumulative_distance > 0 {
            let q: u128 = (self.cumulative_fuel / self.cumulative_distance) / 10000;
            if q > u64::MAX as u128 {
                u64::MAX
            } else {
                q as u64
            }
        } else {
            0
        };
        self.last_poll = Some(now_ms);
    }

    /// Zeroes the three cumulative trip counters; the caller follows a
    /// reset with an immediate persistence write.
    pub fn reset_trip(&mut self)
        ensures
            *final(self) == spec_reset(*old(self)),
    {
        self.cumulative_distance = 0;
        self.cumulative_fuel = 0;
        self.total_fuel_used = 0;
    }

    /// Cumulative trip distance in whole metres.
    pub fn cumulative_distance_metres(&self) -> (m: u128)
        ensures
            m == self.cumulative_distance / (DISTANCE_UNITS_PER_METRE as u128),
    {
        self.cumulative_distance / (DISTANCE_UNITS_PER_METRE as u128)
    }

    /// Cumulative trip fuel in whole microlitres.
    pub fn cumulative_fuel_microlitres(&self) -> (ul: u128)
        ensures
            ul == self.cumulative_fuel / (FUEL_UNITS_PER_MICROLITRE as u128),
    {
        self.cumulative_fuel / (FUEL_UNITS_PER_MICROLITRE as u128)
    }

    /// Total fuel used in whole microlitres.
    pub fn total_fuel_used_microlitres(&self) -> (ul: u128)
        ensures
            ul == self.total_fuel_used / (FUEL_UNITS_PER_MICROLITRE as u128),
    {
        self.total_fuel_used / (FUEL_UNITS_PER_MICROLITRE as u128)
    }
}

impl Default for EngineContext {
    /// Same snapshot as [`EngineContext::new`].
    fn default() -> (r: EngineContext)
        ensures
            r == spec_default_context(),
    {
        EngineContext::new()
    }
}

/// A saturating add never shrinks a counter, and grows it strictly
/// whenever the increment is positive and the counter is not pinned at
/// the ceiling.
pub proof fn lemma_sat_add_monotone(a: u128, inc: int)
    requires
        inc >= 0,
    ensures
        spec_sat_add_u128(a, inc) >= a,
        a < u128::MAX && inc > 0 ==> spec_sat_add_u128(a, inc) > a,
{
}

/// Law: with the engine stopped, or before any poll has been recorded,
/// integration changes none of the three cumulative counters.
pub proof fn lemma_stopped_engine_preserves_counters(pre: EngineContext, now_ms: u64)
    requires
        pre.engine_speed == 0 || pre.last_poll is None,
    ensures
        spec_integrate(pre, now_ms).cumulative_distance == pre.cumulative_distance,
        spec_integrate(pre, now_ms).cumulative_fuel == pre.cumulative_fuel,
        spec_integrate(pre, now_ms).total_fuel_used == pre.total_fuel_used,
{
}

/// Law: with the engine running and the vehicle stationary, only total
/// fuel moves — it grows by the integrated flow, strictly so while the
/// injectors are open and time passed — and instant consumption reads zero.
pub proof fn lemma_stationary_vehicle_counts_only_total_fuel(pre: EngineContext, now_ms: u64)
    requires
        pre.engine_speed > 0,
        pre.vehicle_speed == 0,
        pre.last_poll is Some,
    ensures
        spec_integrate(pre, now_ms).cumulative_distance == pre.cumulative_distance,
        spec_integrate(pre, now_ms).cumulative_fuel == pre.cumulative_fuel,
        spec_integrate(pre, now_ms).total_fuel_used == spec_sat_add_u128(
            pre.total_fuel_used,
            spec_fuel_flow_nl_per_hr(
                pre.injector_pulse_width_cyl_1 as int,
                pre.engine_speed as int,
            ) * spec_dt_ms(pre.last_poll->Some_0, now_ms),
        ),
        spec_integrate(pre, now_ms).total_fuel_used >= pre.total_fuel_used,
        spec_integrate(pre, now_ms).instant_consumption == 0,
        (pre.injector_pulse_width_cyl_1 > 0 && spec_dt_ms(pre.last_poll->Some_0, now_ms) > 0
            && pre.total_fuel_used < u128::MAX) ==> spec_integrate(pre, now_ms).total_fuel_used
            > pre.total_fuel_used,
{
    let flow = spec_fuel_flow_nl_per_hr(
        pre.injector_pulse_width_cyl_1 as int,
        pre.engine_speed as int,
    );
    let dt = spec_dt_ms(pre.last_poll->Some_0, now_ms);
    lemma_mul_nonnegative(flow, dt);
    lemma_sat_add_monotone(pre.total_fuel_used, flow * dt);
    if pre.injector_pulse_width_cyl_1 > 0 && dt > 0 {
        lemma_mul_strictly_positive(
            (INJECTOR_COUNT as int) * (INJECTOR_FLOW_RATE as int),
            pre.injector_pulse_width_cyl_1 as int,
        );
        lemma_mul_strictly_positive(
            (INJECTOR_COUNT as int) * (INJECTOR_FLOW_RATE as int)
                * (pre.injector_pulse_width_cyl_1 as int),
            pre.engine_speed as int,
        );
        lemma_mul_strictly_positive(flow, dt);
    }
}

/// Law: with the engine running and the vehicle moving, both trip
/// counters grow by their integrals — strictly while time passed (and,
/// for fuel, the injectors were open) — total fuel grows the same way,
/// and instant consumption is `flow / (speed * 10000)`, the fixed-point
/// form of `(fuel flow [L/h] / speed [km/h]) * 100`.
pub proof fn lemma_moving_vehicle_accumulates(pre: EngineContext, now_ms: u64)
    requires
        pre.engine_speed > 0,
        pre.vehicle_speed > 0,
        pre.last_poll is Some,
    ensures
        spec_integrate(pre, now_ms).cumulative_distance == spec_sat_add_u128(
            pre.cumulative_distance,
            (pre.vehicle_speed as int) * spec_dt_ms(pre.last_poll->Some_0, now_ms),
        ),
        spec_integrate(pre, now_ms).cumulative_fuel == spec_sat_add_u128(
            pre.cumulative_fuel,
            spec_fuel_flow_nl_per_hr(
                pre.injector_pulse_width_cyl_1 as int,
                pre.engine_speed as int,
            ) * spec_dt_ms(pre.last_poll->Some_0, now_ms),
        ),
        spec_integrate(pre, now_ms).total_fuel_used == spec_sat_add_u128(
            pre.total_fuel_used,
            spec_fuel_flow_nl_per_hr(
                pre.injector_pulse_width_cyl_1 as int,
                pre.engine_speed as int,
            ) * spec_dt_ms(pre.last_poll->Some_0, now_ms),
        ),
        spec_integrate(pre, now_ms).cumulative_distance >= pre.cumulative_distance,
        spec_integrate(pre, now_ms).cumulative_fuel >= pre.cumulative_fuel,
        spec_integrate(pre, now_ms).total_fuel_used >= pre.total_fuel_used,
        spec_integrate(pre, now_ms).instant_consumption == spec_instant_consumption(
            spec_fuel_flow_nl_per_hr(
                pre.injector_pulse_width_cyl_1 as int,
                pre.engine_speed as int,
            ),
            pre.vehicle_speed as int,
        ),
        (spec_dt_ms(pre.last_poll->Some_0, now_ms) > 0 && pre.cumulative_distance < u128::MAX)
            ==> spec_integrate(pre, now_ms).cumulative_distance > pre.cumulative_distance,
        (pre.injector_pulse_width_cyl_1 > 0 && spec_dt_ms(pre.last_poll->Some_0, now_ms) > 0
            && pre.cumulative_fuel < u128::MAX) ==> spec_integrate(pre, now_ms).cumulative_fuel
            > pre.cumulative_fuel,
{
    let flow = spec_fuel_flow_nl_per_hr(
        pre.injector_pulse_width_cyl_1 as int,
        pre.engine_speed as int,
    );
    let dt = spec_dt_ms(pre.last_poll->Some_0, now_ms);
    assert(flow <= 608int * 0xFFFF_FFFF * 0xFFFF) by (nonlinear_arith)
        requires
            flow == (INJECTOR_COUNT as int) * (INJECTOR_FLOW_RATE as int)
                * (pre.injector_pulse_width_cyl_1 as int) * (pre.engine_speed as int),
            pre.injector_pulse_width_cyl_1 <= 0xFFFF_FFFFu32,
            pre.engine_speed <= 0xFFFFu16,
    ;
    lemma_mul_nonnegative(
        (INJECTOR_COUNT as int) * (INJECTOR_FLOW_RATE as int),
        pre.injector_pulse_width_cyl_1 as int,
    );
    lemma_mul_nonnegative(
        (INJECTOR_COUNT as int) * (INJECTOR_FLOW_RATE as int)
            * (pre.injector_pulse_width_cyl_1 as int),
        pre.engine_speed as int,
    );
    vstd::arithmetic::div_mod::lemma_div_pos_is_pos(flow, (pre.vehicle_speed as int) * 10000);
    vstd::arithmetic::div_mod::lemma_div_nonincreasing(flow, (pre.vehicle_speed as int) * 10000);
    lemma_mul_nonnegative(flow, dt);
    lemma_mul_nonnegative(pre.vehicle_speed as int, dt);
    lemma_sat_add_monotone(pre.cumulative_distance, (pre.vehicle_speed as int) * dt);
    lemma_sat_add_monotone(pre.cumulative_fuel, flow * dt);
    lemma_sat_add_monotone(pre.total_fuel_used, flow * dt);
    if dt > 0 {
        lemma_mul_strictly_positive(pre.vehicle_speed as int, dt);
        if pre.injector_pulse_width_cyl_1 > 0 {
            lemma_mul_strictly_positive(
                (INJECTOR_COUNT as int) * (INJECTOR_FLOW_RATE as int),
                pre.injector_pulse_width_cyl_1 as int,
            );
            lemma_mul_strictly_positive(
                (INJECTOR_COUNT as int) * (INJECTOR_FLOW_RATE as int)
                    * (pre.injector_pulse_width_cyl_1 as int),
                pre.engine_speed as int,
            );
            lemma_mul_strictly_positive(flow, dt);
        }
    }
}

} // verus!
