//! Debounce state machine over one boolean input.
//!
//! The detector fires exactly once when the input has toggled a required
//! number of times inside a sliding time window, and ignores isolated
//! flicker: a window that runs out before the count is reached is
//! abandoned without firing. One fire gates a trip reset.

use vstd::prelude::*;

verus! {

/// Milliseconds elapsed from `first` to `now` on a monotonic clock;
/// a clock that did not advance yields zero.
pub open spec fn spec_elapsed(first: u64, now: u64) -> int {
    if now >= first {
        now - first
    } else {
        0
    }
}

/// The toggle-debounce state machine.
///
/// Idle (`first_toggle_time` none, count zero) until a transition opens a
/// window; counting while transitions land inside the window; back to
/// idle when the window runs out or when the required count fires.
#[derive(Debug, Clone, Copy, PartialEq, Eq, Structural)]
pub struct ToggleDetector {
    /// The input as it was on the previous call, once one happened.
    pub last_state: Option<bool>,
    /// Transitions counted inside the current window.
    pub toggle_count: u8,
    /// Monotonic timestamp of the first transition of the current window,
    /// in milliseconds; none while idle.
    pub first_toggle_time: Option<u64>,
    /// How many transitions inside one window make the detector fire.
    pub required_toggles: u8,
    /// Window length in milliseconds.
    pub time_window: u64,
}

/// The state every run starts from: no input seen, idle, six toggles
/// inside ten seconds.
pub open spec fn spec_new_detector() -> ToggleDetector {
    ToggleDetector {
        last_state: None,
        toggle_count: 0,
        first_toggle_time: None,
        required_toggles: 6,
        time_window: 10_000,
    }
}

/// One step of the state machine: the next state and whether this exact
/// call fires.
///
/// The first call only seeds the remembered input. A transition either
/// opens a window (count one), lands inside the open window (count up,
/// fire and go idle when the required count is reached), or falls past
/// the window's end and opens a fresh one (count one). Without a
/// transition an expired window is abandoned. The current input is
/// recorded on every call.
pub open spec fn spec_update(pre: ToggleDetector, input: bool, now_ms: u64) -> (
    ToggleDetector,
    bool,
) {
    match pre.last_state {
        None => (ToggleDetector { last_state: Some(input), ..pre }, false),
        Some(last) => {
            if input != last {
                match pre.first_toggle_time {
                    None => (
                        ToggleDetector {
                            last_state: Some(input),
                            toggle_count: 1,
                            first_toggle_time: Some(now_ms),
                            ..pre
                        },
                        false,
                    ),
                    Some(first) => {
                        if spec_elapsed(first, now_ms) <= pre.time_window {
                            if pre.toggle_count + 1 >= pre.required_toggles {
                                (
                                    ToggleDetector {
                                        last_state: Some(input),
                                        toggle_count: 0,
                                        first_toggle_time: None,
                                        ..pre
                                    },
                                    true,
                                )
                            } else {
                                (
                                    ToggleDetector {
                                        last_state: Some(input),
                                        toggle_count: (pre.toggle_count + 1) as u8,
                                        ..pre
                                    },
                                    false,
                                )
                            }
                        } else {
                            (
                                ToggleDetector {
                                    last_state: Some(input),
                                    toggle_count: 1,
                                    first_toggle_time: Some(now_ms),
                                    ..pre
                                },
                                false,
                            )
                        }
                    },
                }
            } else {
                match pre.first_toggle_time {
                    Some(first) => {
                        if spec_elapsed(first, now_ms) > pre.time_window {
                            (
                                ToggleDetector {
                                    last_state: Some(input),
                                    toggle_count: 0,
                                    first_toggle_time: None,
                                    ..pre
                                },
                                false,
                            )
                        } else {
                            (ToggleDetector { last_state: Some(input), ..pre }, false)
                        }
                    },
                    None => (ToggleDetector { last_state: Some(input), ..pre }, false),
                }
            }
        },
    }
}

impl ToggleDetector {
    /// The count stays clear of its type ceiling, so one more transition
    /// can always be counted. Every reachable state satisfies this.
    pub open spec fn wf(&self) -> bool {
        self.toggle_count <= 254
    }

    /// A detector in the starting state: six toggles inside ten seconds.
    pub fn new() -> (r: ToggleDetector)
        ensures
            r == spec_new_detector(),
            r.wf(),
    {
        ToggleDetector {
            last_state: None,
            toggle_count: 0,
            first_toggle_time: None,
            required_toggles: 6,
            time_window: 10_000,
        }
    }

    /// Advances the state machine by one observation, exactly as
    /// [`spec_update`] describes, and reports whether this call fires.
    pub fn update(&mut self, current_el_state: bool, now_ms: u64) -> (fired: bool)
        requires
            old(self).wf(),
        ensures
            final(self).wf(),
            (*final(self), fired) == spec_update(*old(self), current_el_state, now_ms),
    {
        match self.last_state {
            None => {
                self.last_state = Some(current_el_state);
                return false;
            },
            Some(last) => {
                if current_el_state != last {
                    match self.first_toggle_time {
                        None => {
                            self.first_toggle_time = Some(now_ms);
                            self.toggle_count = 1;
                        },
                        Some(first) => {
                            let elapsed: u64 = if now_ms >= first {
                                now_ms - first
                            } else {
                                0
                            };
                            if elapsed <= self.time_window {
                                self.toggle_count = self.toggle_count + 1;
                                if self.toggle_count >= self.required_toggles {
                                    self.reset_detector();
                                    self.last_state = Some(current_el_state);
                                    return true;
                                }
                            } else {
                                self.toggle_count = 1;
                                self.first_toggle_time = Some(now_ms);
                            }
                        },
                    }
                } else {
                    match self.first_toggle_time {
                        Some(first) => {
                            let elapsed: u64 = if now_ms >= first {
                                now_ms - first
                            } else {
                                0
                            };
                            if elapsed > self.time_window {
                                self.reset_detector();
                            }
                        },
                        None => {},
                    }
                }
                self.last_state = Some(current_el_state);
                false
            },
        }
    }

    /// Clears the pending window: count to zero, window start forgotten.
    pub fn reset_detector(&mut self)
        ensures
            *final(self) == (ToggleDetector {
                toggle_count: 0,
                first_toggle_time: None,
                ..*old(self)
            }),
            final(self).wf(),
    {
        self.toggle_count = 0;
        self.first_toggle_time = None;
    }
}

impl Default for ToggleDetector {
    /// Same state as [`ToggleDetector::new`].
    fn default() -> (r: ToggleDetector)
        ensures
            r == spec_new_detector(),
    {
        ToggleDetector::new()
    }
}

/// Law: an input equal to the remembered one never fires, whatever the
/// rest of the state holds.
pub proof fn lemma_steady_input_never_fires(pre: ToggleDetector, b: bool, now_ms: u64)
    requires
        pre.last_state == Some(b),
    ensures
        !spec_update(pre, b, now_ms).1,
{
}

/// Law: once the window has expired, the pending transitions are dead:
/// the call cannot fire, and afterwards at most one transition — the
/// current call's own — is counted, in a window starting now. Five
/// transitions followed by a pause past the window therefore never fire,
/// however the input resumes.
pub proof fn lemma_expired_window_never_fires(pre: ToggleDetector, input: bool, now_ms: u64)
    requires
        pre.last_state is Some,
        pre.first_toggle_time matches Some(first) && spec_elapsed(first, now_ms)
            > pre.time_window,
    ensures
        !spec_update(pre, input, now_ms).1,
        spec_update(pre, input, now_ms).0.toggle_count <= 1,
        spec_update(pre, input, now_ms).0.first_toggle_time is Some ==> spec_update(
            pre,
            input,
            now_ms,
        ).0.first_toggle_time == Some(now_ms),
{
}

/// Law: from an idle detector that requires six toggles, six alternating
/// inputs whose sixth lands inside the window opened by the first fire
/// exactly on the sixth call and on none before, and leave the detector
/// idle again.
pub proof fn lemma_six_alternating_toggles_fire_exactly_once(
    d0: ToggleDetector,
    b: bool,
    t1: u64,
    t2: u64,
    t3: u64,
    t4: u64,
    t5: u64,
    t6: u64,
)
    requires
        d0.last_state == Some(b),
        d0.first_toggle_time is None,
        d0.required_toggles == 6,
        t1 <= t2 <= t3 <= t4 <= t5 <= t6,
        t6 <= t1 + d0.time_window,
    ensures
        ({
            let (d1, f1) = spec_update(d0, !b, t1);
            let (d2, f2) = spec_update(d1, b, t2);
            let (d3, f3) = spec_update(d2, !b, t3);
            let (d4, f4) = spec_update(d3, b, t4);
            let (d5, f5) = spec_update(d4, !b, t5);
            let (d6, f6) = spec_update(d5, b, t6);
            &&& !f1
            &&& !f2
            &&& !f3
            &&& !f4
            &&& !f5
            &&& f6
            &&& d6.toggle_count == 0
            &&& d6.first_toggle_time is None
        }),
{
    let (d1, f1) = spec_update(d0, !b, t1);
    let (d2, f2) = spec_update(d1, b, t2);
    let (d3, f3) = spec_update(d2, !b, t3);
    let (d4, f4) = spec_update(d3, b, t4);
    let (d5, f5) = spec_update(d4, !b, t5);
    let (d6, f6) = spec_update(d5, b, t6);
    assert(d1.toggle_count == 1 && d1.first_toggle_time == Some(t1));
    assert(d2.toggle_count == 2);
    assert(d3.toggle_count == 3);
    assert(d4.toggle_count == 4);
    assert(d5.toggle_count == 5);
    assert(f6);
}

} // verus!
