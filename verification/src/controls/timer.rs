//! A countdown timer on one encoder: turning adjusts the configured
//! duration in steps, pressing starts the countdown or resets it, and
//! every tick while running takes one second off.

use vstd::prelude::*;
use vstd::string::StringExecFns;

use crate::controls::{ControlError, EncoderController, Tickable};
use crate::hardware::model::{DisplayPipeline, DisplayView, EncoderDisplay, EncoderId};
use crate::util;


verus! {

/// Tint for the progress bar when under a tenth of the time is left.
pub const PROGRESS_ALERT_RED: u8 = 64;

pub const PROGRESS_ALERT_GREEN: u8 = 130;

pub const PROGRESS_ALERT_BLUE: u8 = 255;

/// Which phase the timer shows.
#[derive(Debug, Clone, Copy, PartialEq, Eq, Structural)]
pub enum TimerDisplayState {
    Setting,
    Running,
    Finished,
}

/// The configured color triple for the low-time alert.
pub fn progress_alert_color() -> (r: [u8; 3])
    ensures
        r == spec_alert_color(),
{
    let r = [PROGRESS_ALERT_RED, PROGRESS_ALERT_GREEN, PROGRESS_ALERT_BLUE];
    proof {
        assert(r =~= spec_alert_color());
    }
    r
}

pub open spec fn spec_alert_color() -> [u8; 3] {
    [PROGRESS_ALERT_RED, PROGRESS_ALERT_GREEN, PROGRESS_ALERT_BLUE]
}

/// The timer controller for one encoder.
pub struct TimerController<D: DisplayPipeline> {
    pub display: D,
    pub encoder: EncoderId,
    pub configured: u64,
    pub remaining: u64,
    pub step: u64,
    pub min: u64,
    pub max: u64,
    pub state: TimerDisplayState,
}

/// `v` clamped into `[lo, hi]`.
pub open spec fn spec_clamp(v: int, lo: u64, hi: u64) -> u64 {
    if v < lo {
        lo
    } else if v > hi {
        hi
    } else {
        v as u64
    }
}

/// What one turn does: nothing for a zero delta or while running, else
/// the configured duration moves by whole steps, clamped into bounds,
/// and the countdown resets to it in the setting phase.
pub open spec fn spec_turned<D: DisplayPipeline>(
    pre: TimerController<D>,
    post: TimerController<D>,
    delta: int,
) -> bool {
    if delta == 0 || pre.state == TimerDisplayState::Running {
        post == pre
    } else {
        post == TimerController {
            configured: spec_clamp(pre.configured + delta * pre.step, pre.min, pre.max),
            remaining: spec_clamp(pre.configured + delta * pre.step, pre.min, pre.max),
            state: TimerDisplayState::Setting,
            ..pre
        }
    }
}

/// What one press does: from the setting phase it starts the countdown
/// (a zero duration stays put); from the running or finished phase it
/// resets to the setting phase without restarting.
pub open spec fn spec_pressed<D: DisplayPipeline>(
    pre: TimerController<D>,
    post: TimerController<D>,
) -> bool {
    if pre.state == TimerDisplayState::Setting {
        if pre.configured == 0 {
            post == pre
        } else {
            post == TimerController {
                remaining: pre.configured,
                state: TimerDisplayState::Running,
                ..pre
            }
        }
    } else {
        post == TimerController {
            remaining: pre.configured,
            state: TimerDisplayState::Setting,
            ..pre
        }
    }
}

/// What one tick does: outside the running phase nothing; while running
/// one second comes off, and reaching zero finishes.
pub open spec fn spec_ticked<D: DisplayPipeline>(
    pre: TimerController<D>,
    post: TimerController<D>,
) -> bool {
    if pre.state != TimerDisplayState::Running {
        post == pre
    } else if pre.remaining <= 1 {
        post == TimerController {
            remaining: 0u64,
            state: TimerDisplayState::Finished,
            ..pre
        }
    } else {
        post == TimerController { remaining: (pre.remaining - 1) as u64, ..pre }
    }
}

impl<D: DisplayPipeline> TimerController<D> {
    /// The bounds are ordered, the step positive, and the countdown
    /// never exceeds its configured duration, which stays in bounds.
    pub open spec fn wf(self) -> bool {
        1 <= self.step && self.min <= self.max && self.min <= self.configured <= self.max
            && self.remaining <= self.configured
    }

    /// The value string the display shows in each phase.
    pub open spec fn spec_value(self) -> Seq<char> {
        match self.state {
            TimerDisplayState::Running => util::spec_duration(self.remaining as nat),
            TimerDisplayState::Finished => util::spec_duration(0),
            TimerDisplayState::Setting => util::spec_duration(self.configured as nat),
        }
    }

    /// Remaining time as a permille of the configured duration.
    pub open spec fn spec_ratio(self) -> u16 {
        if self.configured > 0 {
            ((self.remaining * 1000) / (self.configured as int)) as u16
        } else {
            0
        }
    }

    pub open spec fn spec_progress(self) -> u16 {
        match self.state {
            TimerDisplayState::Setting => if self.configured > 0 {
                1000
            } else {
                0
            },
            TimerDisplayState::Running => self.spec_ratio(),
            TimerDisplayState::Finished => 0,
        }
    }

    pub open spec fn spec_status(self) -> Seq<char> {
        match self.state {
            TimerDisplayState::Setting => "set"@,
            TimerDisplayState::Running => "run"@,
            TimerDisplayState::Finished => "done"@,
        }
    }

    /// The full display description derived from the current state: the
    /// alert tint appears only while running with a tenth or less left.
    pub open spec fn spec_display(self) -> DisplayView {
        DisplayView {
            title: "timer"@,
            value: self.spec_value(),
            status: Some(self.spec_status()),
            progress: Some(self.spec_progress()),
            progress_color: if self.state == TimerDisplayState::Running && self.spec_ratio()
                <= 100 {
                Some(spec_alert_color())
            } else {
                None
            },
            value_color: None,
        }
    }

    /// Normalises the bounds as the constructor does.
    pub open spec fn spec_bounds(step: u64, min: u64, max: u64) -> (u64, u64, u64) {
        let step1 = if step >= 1 {
            step
        } else {
            1
        };
        let min_bound = if min <= max {
            min
        } else {
            max
        };
        let mb = if max >= min_bound {
            max
        } else {
            min_bound
        };
        let max_bound = if mb < step1 {
            step1
        } else {
            mb
        };
        (step1, min_bound, max_bound)
    }

    /// The initial configured duration: the default clamped into bounds,
    /// but never under the smallest sensible value (one step, within
    /// bounds).
    pub open spec fn spec_initial(step: u64, min: u64, max: u64, default: u64) -> u64 {
        let (step1, min_bound, max_bound) = Self::spec_bounds(step, min, max);
        let raw_fallback = if min_bound >= step1 {
            min_bound
        } else {
            step1
        };
        let fallback = if raw_fallback <= max_bound {
            raw_fallback
        } else {
            max_bound
        };
        let clamped = spec_clamp(default as int, min_bound, max_bound);
        if clamped < fallback {
            fallback
        } else {
            clamped
        }
    }

    /// A timer in the setting phase, showing its initial duration. `Err`
    /// only where the display sink refuses the first push.
    pub fn new(display: D, encoder: EncoderId, step: u64, min: u64, max: u64, default: u64) -> (r:
        Result<TimerController<D>, ControlError>)
        ensures
            match r {
                Ok(c) => {
                    let (step1, min_bound, max_bound) = Self::spec_bounds(step, min, max);
                    c.wf() && c.step == step1 && c.min == min_bound && c.max == max_bound
                        && c.configured == Self::spec_initial(step, min, max, default)
                        && c.remaining == c.configured && c.state == TimerDisplayState::Setting
                },
                Err(_) => true,
            },
    {
        let step1 = if step >= 1 {
            step
        } else {
            1
        };
        let min_bound = if min <= max {
            min
        } else {
            max
        };
        let mb = if max >= min_bound {
            max
        } else {
            min_bound
        };
        let max_bound = if mb < step1 {
            step1
        } else {
            mb
        };
        let raw_fallback = if min_bound >= step1 {
            min_bound
        } else {
            step1
        };
        let fallback = if raw_fallback <= max_bound {
            raw_fallback
        } else {
            max_bound
        };
        let mut configured = if default < min_bound {
            min_bound
        } else if default > max_bound {
            max_bound
        } else {
            default
        };
        if configured < fallback {
            configured = fallback;
        }
        let controller = TimerController {
            display,
            encoder,
            configured,
            remaining: configured,
            step: step1,
            min: min_bound,
            max: max_bound,
            state: TimerDisplayState::Setting,
        };
        match controller.push_display() {
            Ok(()) => Ok(controller),
            Err(e) => Err(e),
        }
    }

    /// Hands the display derived from the current state to the sink.
    fn push_display(&self) -> (r: Result<(), ControlError>)
        requires
            self.wf(),
    {
        let value_chars: String = match self.state {
            TimerDisplayState::Running => util::format_duration(self.remaining),
            TimerDisplayState::Finished => util::format_duration(0),
            TimerDisplayState::Setting => util::format_duration(self.configured),
        };
        let mut display = EncoderDisplay::new(String::from_str("timer"), value_chars);
        let ratio: u16 = if self.configured > 0 {
            ((self.remaining as u128 * 1000) / (self.configured as u128)) as u16
        } else {
            0
        };
        proof {
            assert(ratio == self.spec_ratio());
        }
        let progress: u16 = match self.state {
            TimerDisplayState::Setting => if self.configured > 0 {
                1000
            } else {
                0
            },
            TimerDisplayState::Running => ratio,
            TimerDisplayState::Finished => 0,
        };
        display.progress = Some(progress);
        if matches!(self.state, TimerDisplayState::Running) && ratio <= 100 {
            display.progress_color = Some(progress_alert_color());
        }
        let status = match self.state {
            TimerDisplayState::Setting => String::from_str("set"),
            TimerDisplayState::Running => String::from_str("run"),
            TimerDisplayState::Finished => String::from_str("done"),
        };
        display.status = Some(status);
        proof {
            assert(display@ == self.spec_display());
        }
        match self.display.update_encoder(self.encoder, display) {
            Ok(()) => Ok(()),
            Err(e) => Err(ControlError::Pipeline(e)),
        }
    }

    fn start(&mut self) -> (r: Result<(), ControlError>)
        requires
            old(self).wf(),
        ensures
            final(self).wf(),
            old(self).configured == 0 ==> *final(self) == *old(self) && (r matches Ok(_)),
            old(self).configured > 0 ==> *final(self) == (TimerController {
                remaining: old(self).configured,
                state: TimerDisplayState::Running,
                ..*old(self)
            }),
    {
        if self.configured == 0 {
            return Ok(());
        }
        self.remaining = self.configured;
        self.state = TimerDisplayState::Running;
        self.push_display()
    }

    fn reset_to_setting(&mut self) -> (r: Result<(), ControlError>)
        requires
            old(self).wf(),
        ensures
            final(self).wf(),
            *final(self) == (TimerController {
                remaining: old(self).configured,
                state: TimerDisplayState::Setting,
                ..*old(self)
            }),
    {
        self.remaining = self.configured;
        self.state = TimerDisplayState::Setting;
        self.push_display()
    }

    fn finish(&mut self) -> (r: Result<(), ControlError>)
        requires
            old(self).wf(),
        ensures
            final(self).wf(),
            *final(self) == (TimerController {
                remaining: 0u64,
                state: TimerDisplayState::Finished,
                ..*old(self)
            }),
    {
        self.remaining = 0;
        self.state = TimerDisplayState::Finished;
        self.push_display()
    }
}

impl<D: DisplayPipeline> EncoderController for TimerController<D> {
    open spec fn inv(&self) -> bool {
        self.wf()
    }

    /// Turning while setting moves the configured duration by whole
    /// steps, clamped into bounds, and resets the countdown to it;
    /// turning while running is ignored.
    fn on_turn(&mut self, delta: i32) -> (r: Result<(), ControlError>)
        ensures
            spec_turned(*old(self), *final(self), delta as int),
            delta == 0 ==> (r matches Ok(_)),
            old(self).state == TimerDisplayState::Running && delta != 0 ==> (r matches Ok(_)),
    {
        if delta == 0 {
            return Ok(());
        }
        if matches!(self.state, TimerDisplayState::Running) {
            return Ok(());
        }
        let wide_delta: i128 = delta as i128;
        let wide_step: i128 = self.step as i128;
        proof {
            assert(wide_delta * wide_step <= 0x80000000i128 * 0xffffffffffffffffi128
                && wide_delta * wide_step >= -0x80000000i128 * 0xffffffffffffffffi128)
                by (nonlinear_arith)
                requires
                    -0x80000000 <= wide_delta <= 0x7fffffff,
                    0 <= wide_step <= 0xffffffffffffffffi128,
            ;
        }
        let delta_steps: i128 = wide_delta * wide_step;
        let new_value: i128 = (self.configured as i128) + delta_steps;
        let clamped: u64 = if new_value < self.min as i128 {
            self.min
        } else if new_value > self.max as i128 {
            self.max
        } else {
            new_value as u64
        };
        self.configured = clamped;
        self.remaining = self.configured;
        self.state = TimerDisplayState::Setting;
        self.push_display()
    }

    /// Pressing starts the countdown from the setting phase, and resets
    /// to the setting phase from the running or finished phase without
    /// restarting.
    fn on_press(&mut self) -> (r: Result<(), ControlError>)
        ensures
            spec_pressed(*old(self), *final(self)),
            old(self).state == TimerDisplayState::Setting && old(self).configured == 0 ==> (
            r matches Ok(_)),
    {
        match self.state {
            TimerDisplayState::Setting => self.start(),
            TimerDisplayState::Running => self.reset_to_setting(),
            TimerDisplayState::Finished => self.reset_to_setting(),
        }
    }

    fn on_release(&mut self) -> (r: Result<(), ControlError>)
        ensures
            *final(self) == *old(self),
            (r matches Ok(_)),
    {
        Ok(())
    }
}

impl<D: DisplayPipeline> Tickable for TimerController<D> {
    open spec fn tick_inv(&self) -> bool {
        self.wf()
    }

    /// While running, a tick takes one second off; reaching zero moves
    /// to the finished phase. Outside the running phase ticks change
    /// nothing.
    fn on_tick(&mut self) -> (r: Result<(), ControlError>)
        ensures
            spec_ticked(*old(self), *final(self)),
            old(self).state != TimerDisplayState::Running ==> (r matches Ok(_)),
    {
        if !matches!(self.state, TimerDisplayState::Running) {
            return Ok(());
        }
        if self.remaining == 0 {
            return self.finish();
        }
        self.remaining = self.remaining - 1;
        if self.remaining == 0 {
            self.finish()
        } else {
            self.push_display()
        }
    }
}

} // verus!
