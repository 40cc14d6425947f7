//! The input-side decision logic: the button press/hold state machine and
//! the thermal throttle computed from the temperature sensor.

use vstd::prelude::*;

use crate::orchestrator::TaskCommand;

verus! {

/// Debounce floor: presses shorter than this are ignored as bounce.
pub const BUTTON_SHORT_MS: u64 = 50;

/// Presses held this long fire a long press immediately, without waiting
/// for the release.
pub const BUTTON_LONG_MS: u64 = 1000;

/// Where the button tracker stands.
#[derive(Clone, Copy, PartialEq, Eq, Structural, Debug)]
pub enum ButtonState {
    Released,
    /// Held since `since` (absolute milliseconds); `long_sent` once the
    /// long press has fired, so that the release emits nothing more.
    Held { since: u64, long_sent: bool },
}

/// The button press/hold tracker, polled with the current level.
#[derive(Clone, Copy, PartialEq, Eq, Structural, Debug)]
pub struct ButtonMachine {
    pub state: ButtonState,
}

/// The tracker never claims to have been pressed in the future.
pub open spec fn spec_button_ok_at(m: ButtonMachine, now: u64) -> bool {
    match m.state {
        ButtonState::Released => true,
        ButtonState::Held { since, long_sent } => since <= now,
    }
}

/// The button transition relation: on a press edge the timer starts; a
/// hold reaching the long threshold fires exactly one long press; a release
/// after at least the debounce floor but before the long threshold fires
/// exactly one short press; shorter holds and everything after a long press
/// fire nothing.
pub open spec fn spec_button_step(
    pre: ButtonState,
    now: u64,
    pressed: bool,
    post: ButtonState,
    event: Option<TaskCommand>,
) -> bool {
    match pre {
        ButtonState::Released => {
            if pressed {
                post == (ButtonState::Held { since: now, long_sent: false }) && event is None
            } else {
                post == pre && event is None
            }
        },
        ButtonState::Held { since, long_sent } => {
            if pressed {
                if !long_sent && now - since >= BUTTON_LONG_MS {
                    &&& post == (ButtonState::Held { since, long_sent: true })
                    &&& event == Some(TaskCommand::LongButtonPress)
                } else {
                    post == pre && event is None
                }
            } else {
                &&& post is Released
                &&& event == (if long_sent {
                    Option::<TaskCommand>::None
                } else if now - since >= BUTTON_LONG_MS {
                    Some(TaskCommand::LongButtonPress)
                } else if now - since >= BUTTON_SHORT_MS {
                    Some(TaskCommand::ShortButtonPress)
                } else {
                    Option::<TaskCommand>::None
                })
            }
        },
    }
}

impl ButtonMachine {
    pub fn new() -> (m: Self)
        ensures
            m.state is Released,
    {
        ButtonMachine { state: ButtonState::Released }
    }

    /// Poll the tracker with the button level (`pressed` is true while the
    /// button is down) at absolute time `now`.
    pub fn step(&mut self, now: u64, pressed: bool) -> (event: Option<TaskCommand>)
        requires
            spec_button_ok_at(*old(self), now),
        ensures
            spec_button_step(old(self).state, now, pressed, final(self).state, event),
            spec_button_ok_at(*final(self), now),
    {
        match self.state {
            ButtonState::Released => {
                if pressed {
                    self.state = ButtonState::Held { since: now, long_sent: false };
                }
                None
            },
            ButtonState::Held { since, long_sent } => {
                if pressed {
                    if !long_sent && now - since >= BUTTON_LONG_MS {
                        self.state = ButtonState::Held { since, long_sent: true };
                        Some(TaskCommand::LongButtonPress)
                    } else {
                        None
                    }
                } else {
                    self.state = ButtonState::Released;
                    let held = now - since;
                    if long_sent {
                        None
                    } else if held >= BUTTON_LONG_MS {
                        Some(TaskCommand::LongButtonPress)
                    } else if held >= BUTTON_SHORT_MS {
                        Some(TaskCommand::ShortButtonPress)
                    } else {
                        None
                    }
                }
            },
        }
    }
}

/// The temperature, in thousandths of a degree Celsius, that a raw
/// 12-bit reading of the on-die sensor stands for: the reading scaled to
/// microvolts against a 3.3 V reference, then the sensor's documented
/// slope of 1.721 mV per degree below the 0.706 V point at 27 degrees.
pub open spec fn spec_temp_millicelsius(raw: u16) -> int {
    let uv = raw * 3300000 / 4096;
    let dv = uv - 706000;
    if dv >= 0 {
        27000 - dv * 1000 / 1721
    } else {
        27000 + (-dv) * 1000 / 1721
    }
}

/// Convert a raw temperature-sensor reading to thousandths of a degree.
pub fn temp_millicelsius(raw: u16) -> (t: i64)
    ensures
        t == spec_temp_millicelsius(raw),
        -60000000 <= t <= 60000000,
{
    let uv: i64 = raw as i64 * 3300000 / 4096;
    let dv: i64 = uv - 706000;
    if dv >= 0 {
        27000 - dv * 1000 / 1721
    } else {
        27000 + (-dv) * 1000 / 1721
    }
}

/// The thermal throttle: no event at or below 50 degrees (the last
/// multiplier stays in effect); above that, a multiplier in thousandths
/// that falls linearly from 1.0 at 55 degrees to the 0.1 floor at 65
/// degrees and beyond, never below the floor and never above 1.0.
pub open spec fn spec_thermal_multiplier(temp_mc: int) -> Option<u32> {
    if temp_mc <= 50000 {
        None
    } else {
        let raw = if temp_mc >= 55000 {
            1000 - (temp_mc - 55000) / 10
        } else {
            1000 + (55000 - temp_mc) / 10
        };
        if raw < 100 {
            Some(100u32)
        } else if raw > 1000 {
            Some(1000u32)
        } else {
            Some(raw as u32)
        }
    }
}

/// Decide the thermal event for one 1 Hz sample, from the temperature in
/// thousandths of a degree.
pub fn thermal_multiplier(temp_mc: i64) -> (r: Option<u32>)
    requires
        -1000000000 <= temp_mc <= 1000000000,
    ensures
        r == spec_thermal_multiplier(temp_mc as int),
        temp_mc <= 50000 <==> r is None,
        r is Some ==> 100 <= r->0 <= 1000,
{
    if temp_mc <= 50000 {
        None
    } else {
        let raw: i64 = if temp_mc >= 55000 {
            1000 - (temp_mc - 55000) / 10
        } else {
            1000 + (55000 - temp_mc) / 10
        };
        if raw < 100 {
            Some(100)
        } else if raw > 1000 {
            Some(1000)
        } else {
            Some(raw as u32)
        }
    }
}

/// The whole 1 Hz sample step: from the raw sensor reading to the event to
/// publish, if any.
pub fn thermal_event(raw: u16) -> (r: Option<TaskCommand>)
    ensures
        ({
            let m = spec_thermal_multiplier(spec_temp_millicelsius(raw));
            match m {
                Some(g) => r == Some(TaskCommand::ThermalThrottleMultiplier(g)),
                None => r is None,
            }
        }),
{
    let t = temp_millicelsius(raw);
    match thermal_multiplier(t) {
        Some(g) => Some(TaskCommand::ThermalThrottleMultiplier(g)),
        None => None,
    }
}

} // verus!
