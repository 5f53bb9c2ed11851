//! The brightness control on one encoder, with the asynchronous-apply
//! pattern: turning only previews a pending level; pressing commits it
//! by starting one slow backend write off-thread, whose result is polled
//! without blocking on every subsequent call. At most one write is in
//! flight at a time; a commit while one is pending is ignored.
//!
//! Every entry point's contract is a relation from the state before the
//! call to the state after it, split at the two outside decisions it
//! cannot pin: what one poll of the apply channel yielded (`poll_settles`)
//! and whether the tool reported itself available (the `available` flag
//! in the final state).

use vstd::prelude::*;
use vstd::string::StringExecFns;

use crate::controls::{ControlError, EncoderController, Tickable};
use crate::hardware::channels::{chan_try_recv, TryRecv};
use crate::hardware::model::{DisplayPipeline, DisplayView, EncoderDisplay, EncoderId};
use crate::system::brightness::BrightnessBackend;
use crate::system::BackendError;
use crate::util;

verus! {

/// What one non-blocking poll of the apply channel yielded: nothing yet,
/// the applied value, or a failed or abandoned write.
pub enum ApplyPoll {
    Pending,
    Done(u8),
    Failed,
}

/// The brightness controller for one encoder.
pub struct BrightnessController<B: BrightnessBackend, D: DisplayPipeline> {
    pub backend: B,
    pub display: D,
    pub encoder: EncoderId,
    pub step: u8,
    pub min_level: u8,
    pub max_level: u8,
    /// The last confirmed level.
    pub level: u8,
    /// The previewed level, authoritative while `pending_dirty`.
    pub pending_level: u8,
    pub pending_dirty: bool,
    /// The target of the write in flight, shown as `apply`.
    pub apply_inflight: Option<u8>,
    /// The one-shot channel of the write in flight.
    pub apply_rx: Option<crossbeam_channel::Receiver<Result<u8, BackendError>>>,
    pub night_level: u8,
    /// The level to restore when leaving night mode.
    pub previous_level: u8,
    pub available: bool,
}

/// `v` clamped into `[lo, hi]`.
pub open spec fn spec_clamp8(v: int, lo: u8, hi: u8) -> u8 {
    if v < lo {
        lo
    } else if v > hi {
        hi
    } else {
        v as u8
    }
}

impl<B: BrightnessBackend, D: DisplayPipeline> BrightnessController<B, D> {
    /// The step is positive, the range proper, and night mode inside it.
    pub open spec fn wf(self) -> bool {
        1 <= self.step && self.min_level < self.max_level && self.min_level <= self.night_level
            <= self.max_level
    }

    /// The level the display shows: the preview while dirty, else the
    /// confirmed level.
    pub open spec fn spec_shown_level(self) -> u8 {
        if self.pending_dirty {
            self.pending_level
        } else {
            self.level
        }
    }

    /// The status line: a preview beats an in-flight write, which beats
    /// night mode.
    pub open spec fn spec_status(self) -> Option<Seq<char>> {
        if self.pending_dirty {
            Some("pending"@)
        } else if self.apply_inflight is Some {
            Some("apply"@)
        } else if self.spec_shown_level() <= self.night_level {
            Some("night"@)
        } else {
            None
        }
    }

    /// The display derived from the current state while available.
    pub open spec fn spec_display(self) -> DisplayView {
        DisplayView {
            title: "bright"@,
            value: util::spec_percent3(self.spec_shown_level() as nat),
            status: self.spec_status(),
            progress: Some(spec_range_permille(self.spec_shown_level(), self.min_level,
                self.max_level)),
            progress_color: None,
            value_color: None,
        }
    }

    /// The placeholder shown while the tool is unavailable.
    pub open spec fn spec_unavailable_display(self) -> DisplayView {
        DisplayView {
            title: "bright"@,
            value: "N/A"@,
            status: Some("ddc disabled"@),
            progress: Some(0u16),
            progress_color: None,
            value_color: None,
        }
    }

    /// The target of a turn: the preview moved by whole steps (saturated
    /// at the largest level) and clamped into the configured range.
    pub open spec fn spec_step_target(self, delta: int) -> u8 {
        let raw = (if delta >= 0 {
            delta
        } else {
            -delta
        }) * self.step;
        let magnitude: int = if raw > 255 {
            255
        } else {
            raw
        };
        let moved: int = if delta > 0 {
            self.pending_level + magnitude
        } else {
            self.pending_level - magnitude
        };
        spec_clamp8(moved, self.min_level, self.max_level)
    }

    /// Preview law: only the pending value, its dirty flag (exactly
    /// "pending differs from confirmed") and the in-flight marker (a new
    /// preview supersedes it) change; no write begins.
    pub open spec fn spec_previewed(mid: Self, post: Self, target: u8) -> bool {
        frame_kept(mid, post) && post.available && post.level == mid.level
            && post.pending_level == target && post.pending_dirty == (target != mid.level)
            && post.apply_inflight == (if target != mid.level {
            None
        } else {
            mid.apply_inflight
        }) && post.apply_rx == mid.apply_rx && post.previous_level == mid.previous_level
    }

    /// The level a press commits: the dirty preview; else, inside night
    /// mode, the remembered level (at least one above the threshold);
    /// else the night level. Always clamped into range.
    pub open spec fn spec_press_target(self) -> u8 {
        if self.pending_dirty {
            spec_clamp8(self.pending_level as int, self.min_level, self.max_level)
        } else if self.level <= self.night_level {
            let floor: int = if self.night_level == 255 {
                255
            } else {
                self.night_level + 1
            };
            let restore: int = if self.previous_level >= floor {
                self.previous_level as int
            } else {
                floor
            };
            spec_clamp8(restore, self.min_level, self.max_level)
        } else {
            spec_clamp8(self.night_level as int, self.min_level, self.max_level)
        }
    }

    /// A press entering night mode first remembers the level to restore.
    pub open spec fn spec_press_base(self) -> Self {
        if !self.pending_dirty && self.level > self.night_level {
            BrightnessController { previous_level: self.level, ..self }
        } else {
            self
        }
    }

    /// Commit law: exactly one write for `target` is in flight, the
    /// target becomes the confirmed and previewed level, and the preview
    /// flag clears.
    pub open spec fn spec_committed(base: Self, post: Self, target: u8) -> bool {
        frame_kept(base, post) && post.apply_inflight == Some(target) && (post.apply_rx is Some)
            && !post.pending_dirty && post.pending_level == target && post.level == target
            && post.previous_level == (if target > base.night_level {
            target
        } else {
            base.previous_level
        })
    }

    /// A controller initialised from the backend's current reading (or
    /// the top of the range when the read fails), in the idle state.
    pub fn new(
        backend: B,
        display: D,
        encoder: EncoderId,
        step: u8,
        min_level: u8,
        max_level: u8,
        night_level: u8,
    ) -> (r: Result<BrightnessController<B, D>, ControlError>)
        requires
            min_level < u8::MAX,
        ensures
            match r {
                Ok(c) => c.wf() && c.encoder == encoder && !c.pending_dirty && (
                c.apply_inflight is None) && (c.apply_rx is None) && c.pending_level == c.level
                    && c.previous_level == c.level && c.min_level <= c.level <= c.max_level,
                Err(_) => true,
            },
    {
        let initial_available = backend.is_available();
        let step1 = if step >= 1 {
            step
        } else {
            1
        };
        let max2 = if max_level >= min_level + 1 {
            max_level
        } else {
            min_level + 1
        };
        let night = if night_level < min_level {
            min_level
        } else if night_level > max2 {
            max2
        } else {
            night_level
        };
        let mut controller = BrightnessController {
            backend,
            display,
            encoder,
            step: step1,
            min_level,
            max_level: max2,
            level: min_level,
            pending_level: min_level,
            pending_dirty: false,
            apply_inflight: None,
            apply_rx: None,
            night_level: night,
            previous_level: max2,
            available: initial_available,
        };
        match controller.refresh_state() {
            Ok(()) => Ok(controller),
            Err(e) => Err(e),
        }
    }

    /// Takes one brightness reading as a plain value: it is clamped into
    /// the configured range and becomes the whole idle state, which is
    /// then shown (or the placeholder, while the flag says unavailable).
    pub fn absorb_reading(&mut self, current: u8) -> (r: Result<(), ControlError>)
        requires
            old(self).wf(),
        ensures
            final(self).wf(),
            *final(self) == (BrightnessController {
                level: old(self).spec_clamped(current),
                pending_level: old(self).spec_clamped(current),
                pending_dirty: false,
                apply_inflight: None,
                apply_rx: None,
                previous_level: old(self).spec_clamped(current),
                ..*old(self)
            }),
    {
        let clamped = if current < self.min_level {
            self.min_level
        } else if current > self.max_level {
            self.max_level
        } else {
            current
        };
        self.reset_to(clamped);
        if self.available {
            self.push_display()
        } else {
            self.push_unavailable_display()
        }
    }

    pub open spec fn spec_clamped(self, v: u8) -> u8 {
        spec_clamp8(v as int, self.min_level, self.max_level)
    }

    /// Reads the backend and resets to the idle state on its answer: a
    /// failed read falls back to the top of the range, an unavailable
    /// tool to the bottom. The exact law of one reading is
    /// `absorb_reading`, which this hands the read value to.
    fn refresh_state(&mut self) -> (r: Result<(), ControlError>)
        requires
            old(self).wf(),
        ensures
            final(self).wf(),
            frame_kept(*old(self), *final(self)),
            !final(self).pending_dirty && (final(self).apply_inflight is None) && (final(self).apply_rx is None) && final(self).pending_level == final(self).level && final(self).previous_level == final(self).level && final(self).min_level <= final(self).level <= final(self).max_level,
    {
        self.available = self.backend.is_available();
        if !self.available {
            self.reset_to(self.min_level);
            return self.push_unavailable_display();
        }
        let current: u8 = match self.backend.get_brightness() {
            Ok(value) => value,
            Err(_) => {
                self.available = self.backend.is_available();
                self.max_level
            },
        };
        self.absorb_reading(current)
    }

    /// Makes `level` the confirmed and previewed level, idle.
    fn reset_to(&mut self, level: u8)
        ensures
            *final(self) == (BrightnessController {
                level,
                pending_level: level,
                pending_dirty: false,
                apply_inflight: None,
                apply_rx: None,
                previous_level: level,
                ..*old(self)
            }),
    {
        self.level = level;
        self.pending_level = level;
        self.pending_dirty = false;
        self.apply_inflight = None;
        self.apply_rx = None;
        self.previous_level = level;
    }

    /// Pushes the display derived from the current state.
    fn push_display(&self) -> (r: Result<(), ControlError>)
        requires
            self.wf(),
    {
        let shown: u8 = if self.pending_dirty {
            self.pending_level
        } else {
            self.level
        };
        let mut display = EncoderDisplay::new(
            String::from_str("bright"),
            util::format_percent3(shown as u64),
        );
        display.progress = Some(range_permille(shown, self.min_level, self.max_level));
        if self.pending_dirty {
            display.status = Some(String::from_str("pending"));
        } else if self.apply_inflight.is_some() {
            display.status = Some(String::from_str("apply"));
        } else if shown <= self.night_level {
            display.status = Some(String::from_str("night"));
        }
        proof {
            assert(display@ == self.spec_display());
        }
        match self.display.update_encoder(self.encoder, display) {
            Ok(()) => Ok(()),
            Err(e) => Err(ControlError::Pipeline(e)),
        }
    }

    fn push_unavailable_display(&self) -> (r: Result<(), ControlError>)
    {
        let display = EncoderDisplay::new(String::from_str("bright"), String::from_str("N/A"))
            .with_status(String::from_str("ddc disabled")).with_progress(0);
        proof {
            assert(display@ == self.spec_unavailable_display());
        }
        match self.display.update_encoder(self.encoder, display) {
            Ok(()) => Ok(()),
            Err(e) => Err(ControlError::Pipeline(e)),
        }
    }

    /// Async-apply law, stated over every poll outcome: polling while
    /// the write is still pending changes nothing at all; a completed
    /// write makes the worker's reported value — never the requested
    /// one — the confirmed and previewed level and returns to idle; a
    /// failed write returns to idle keeping the last confirmed value.
    pub fn absorb_apply(&mut self, poll: ApplyPoll) -> (r: Result<(), ControlError>)
        requires
            old(self).wf(),
        ensures
            final(self).wf(),
            frame_kept(*old(self), *final(self)),
            match poll {
                ApplyPoll::Pending => *final(self) == *old(self) && (r matches Ok(_)),
                ApplyPoll::Done(applied) => spec_done(*old(self), *final(self), applied),
                ApplyPoll::Failed => spec_failed_settle(*old(self), *final(self)),
            },
    {
        match poll {
            ApplyPoll::Pending => Ok(()),
            ApplyPoll::Done(applied) => {
                self.apply_rx = None;
                self.apply_inflight = None;
                self.level = applied;
                self.pending_level = applied;
                if applied > self.night_level {
                    self.previous_level = applied;
                }
                self.available = self.backend.is_available();
                if !self.available {
                    self.push_unavailable_display()
                } else {
                    self.push_display()
                }
            },
            ApplyPoll::Failed => {
                self.apply_rx = None;
                self.apply_inflight = None;
                self.available = self.backend.is_available();
                if !self.available {
                    self.push_unavailable_display()
                } else {
                    self.push_display()
                }
            },
        }
    }

    /// One non-blocking poll of the apply channel, absorbed as above;
    /// with no channel to poll, nothing at all happens.
    fn poll_apply(&mut self) -> (r: Result<(), ControlError>)
        requires
            old(self).wf(),
        ensures
            final(self).wf(),
            frame_kept(*old(self), *final(self)),
            poll_settles(*old(self), *final(self)),
            old(self).apply_rx is None ==> *final(self) == *old(self) && (r matches Ok(_)),
    {
        let poll = match &self.apply_rx {
            Option::None => ApplyPoll::Pending,
            Option::Some(rx) => match chan_try_recv(rx) {
                TryRecv::Got(result) => match result {
                    Ok(applied) => ApplyPoll::Done(applied),
                    Err(_) => ApplyPoll::Failed,
                },
                TryRecv::Empty => ApplyPoll::Pending,
                TryRecv::Closed => ApplyPoll::Failed,
            },
        };
        self.absorb_apply(poll)
    }

    /// Starts the one in-flight write for `target` and shows `apply` at
    /// once, without waiting for the worker.
    fn enqueue_apply(&mut self, target: u8) -> (r: Result<(), ControlError>)
        requires
            old(self).wf(),
            old(self).apply_rx is None,
        ensures
            final(self).wf(),
            Self::spec_committed(*old(self), *final(self), target),
    {
        let rx = self.backend.start_apply(target);
        self.apply_rx = Some(rx);
        self.apply_inflight = Some(target);
        self.pending_dirty = false;
        self.pending_level = target;
        self.level = target;
        if target > self.night_level {
            self.previous_level = target;
        }
        self.available = self.backend.is_available();
        if self.available {
            self.push_display()
        } else {
            self.push_unavailable_display()
        }
    }
}

/// The fields no call ever changes: the configuration, the backend
/// handle and the display sink.
pub open spec fn frame_kept<B: BrightnessBackend, D: DisplayPipeline>(
    a: BrightnessController<B, D>,
    b: BrightnessController<B, D>,
) -> bool {
    a.encoder == b.encoder && a.step == b.step && a.min_level == b.min_level && a.max_level
        == b.max_level && a.night_level == b.night_level && a.backend == b.backend && a.display
        == b.display
}

/// A completed write settled: the worker's reported value is confirmed
/// and previewed, the write is no longer in flight, and the remembered
/// restore level follows the report when it leaves night mode.
pub open spec fn spec_done<B: BrightnessBackend, D: DisplayPipeline>(
    pre: BrightnessController<B, D>,
    post: BrightnessController<B, D>,
    applied: u8,
) -> bool {
    frame_kept(pre, post) && post.level == applied && post.pending_level == applied && (
    post.apply_inflight is None) && (post.apply_rx is None) && post.pending_dirty
        == pre.pending_dirty && post.previous_level == (if applied > pre.night_level {
        applied
    } else {
        pre.previous_level
    })
}

/// A failed or abandoned write settled: back to idle, keeping the last
/// confirmed value.
pub open spec fn spec_failed_settle<B: BrightnessBackend, D: DisplayPipeline>(
    pre: BrightnessController<B, D>,
    post: BrightnessController<B, D>,
) -> bool {
    frame_kept(pre, post) && post.level == pre.level && post.pending_level == pre.pending_level
        && (post.apply_inflight is None) && (post.apply_rx is None) && post.pending_dirty
        == pre.pending_dirty && post.previous_level == pre.previous_level
}

/// What one poll of the apply channel can do to the state: nothing while
/// no channel exists or nothing arrived; else it settles the write with
/// some reported value, or as failed.
pub open spec fn poll_settles<B: BrightnessBackend, D: DisplayPipeline>(
    pre: BrightnessController<B, D>,
    post: BrightnessController<B, D>,
) -> bool {
    if pre.apply_rx is None {
        post == pre
    } else {
        post == pre || spec_failed_settle(pre, post) || (exists|applied: u8|
            spec_done(pre, post, applied))
    }
}

/// Everything a turn can have done: one poll settled, then either the
/// placeholder (tool unavailable), a no-op (zero delta), or the preview
/// law at the stepped target.
pub open spec fn spec_turn_post<B: BrightnessBackend, D: DisplayPipeline>(
    pre: BrightnessController<B, D>,
    post: BrightnessController<B, D>,
    delta: int,
) -> bool {
    exists|mid: BrightnessController<B, D>|
        poll_settles(pre, mid) && (if !post.available {
            post == BrightnessController { available: false, ..mid }
        } else if delta == 0 {
            post == BrightnessController { available: true, ..mid }
        } else {
            BrightnessController::spec_previewed(mid, post, mid.spec_step_target(delta))
        })
}

/// Everything a press can have done: one poll settled, then either the
/// placeholder, an ignored commit (a write already in flight), or the
/// commit law at the press target.
pub open spec fn spec_press_post<B: BrightnessBackend, D: DisplayPipeline>(
    pre: BrightnessController<B, D>,
    post: BrightnessController<B, D>,
) -> bool {
    exists|mid: BrightnessController<B, D>|
        poll_settles(pre, mid) && ((post == BrightnessController { available: false, ..mid })
            || ((mid.apply_rx is Some) && post == BrightnessController {
            available: true,
            ..mid.spec_press_base()
        }) || ((mid.apply_rx is None) && BrightnessController::spec_committed(
            mid.spec_press_base(),
            post,
            mid.spec_press_target(),
        )))
}

/// Position of `shown` in `[lo, hi]` as a permille, clamped.
pub open spec fn spec_range_permille(shown: u8, lo: u8, hi: u8) -> u16 {
    if lo >= hi {
        0
    } else if shown <= lo {
        0
    } else if shown >= hi {
        1000
    } else {
        (((shown - lo) * 1000) / ((hi - lo) as int)) as u16
    }
}

fn range_permille(shown: u8, lo: u8, hi: u8) -> (r: u16)
    ensures
        r == spec_range_permille(shown, lo, hi),
{
    if lo >= hi {
        0
    } else if shown <= lo {
        0
    } else if shown >= hi {
        1000
    } else {
        let num: u32 = (shown - lo) as u32 * 1000;
        (num / ((hi - lo) as u32)) as u16
    }
}

impl<B: BrightnessBackend, D: DisplayPipeline> EncoderController for BrightnessController<B, D> {
    open spec fn inv(&self) -> bool {
        self.wf()
    }

    /// Turning first absorbs any finished write, then — while the tool
    /// says available — previews the pending level moved by whole steps,
    /// clamped into range; no backend write happens, and an unavailable
    /// tool only gets the placeholder shown.
    fn on_turn(&mut self, delta: i32) -> (r: Result<(), ControlError>)
        ensures
            frame_kept(*old(self), *final(self)),
            (r matches Ok(_)) ==> spec_turn_post(*old(self), *final(self), delta as int),
    {
        match self.poll_apply() {
            Ok(()) => {},
            Err(e) => {
                return Err(e);
            },
        }
        let ghost mid = *self;
        self.available = self.backend.is_available();
        if !self.available {
            let pushed = self.push_unavailable_display();
            return match pushed {
                Ok(()) => Ok(()),
                Err(e) => Err(e),
            };
        }
        if delta == 0 {
            return Ok(());
        }
        let wide: i64 = delta as i64;
        let magnitude64: i64 = if wide >= 0 {
            wide
        } else {
            -wide
        };
        proof {
            assert(magnitude64 * (self.step as i64) <= 0x80000000i64 * 0x100i64 && magnitude64 * (
            self.step as i64) >= 0) by (nonlinear_arith)
                requires
                    0 <= magnitude64 <= 0x80000000i64,
                    1 <= self.step as i64 <= 0xff,
            ;
        }
        let stepped: i64 = magnitude64 * (self.step as i64);
        let magnitude: i32 = if stepped > 255 {
            255
        } else {
            stepped as i32
        };
        let delta_value: i32 = if delta > 0 {
            magnitude
        } else {
            -magnitude
        };
        let target: i32 = self.pending_level as i32 + delta_value;
        let clamped: u8 = if target < self.min_level as i32 {
            self.min_level
        } else if target > self.max_level as i32 {
            self.max_level
        } else {
            target as u8
        };
        proof {
            assert(clamped == mid.spec_step_target(delta as int));
        }
        self.pending_level = clamped;
        self.pending_dirty = clamped != self.level;
        if self.pending_dirty {
            self.apply_inflight = None;
        }
        proof {
            assert(Self::spec_previewed(mid, *self, clamped));
        }
        self.push_display()
    }

    /// Pressing first absorbs any finished write, then — while the tool
    /// says available — commits the dirty preview, or toggles night
    /// mode; the write begins only when none is already in flight, else
    /// the commit is ignored. An unavailable tool only gets the
    /// placeholder shown.
    fn on_press(&mut self) -> (r: Result<(), ControlError>)
        ensures
            frame_kept(*old(self), *final(self)),
            (r matches Ok(_)) ==> spec_press_post(*old(self), *final(self)),
    {
        match self.poll_apply() {
            Ok(()) => {},
            Err(e) => {
                return Err(e);
            },
        }
        let ghost mid = *self;
        self.available = self.backend.is_available();
        if !self.available {
            let pushed = self.push_unavailable_display();
            return match pushed {
                Ok(()) => Ok(()),
                Err(e) => Err(e),
            };
        }
        let raw_target: u8 = if self.pending_dirty {
            self.pending_level
        } else if self.level <= self.night_level {
            let floor: u8 = if self.night_level == 255 {
                255
            } else {
                self.night_level + 1
            };
            if self.previous_level >= floor {
                self.previous_level
            } else {
                floor
            }
        } else {
            self.previous_level = self.level;
            self.night_level
        };
        let target: u8 = if raw_target < self.min_level {
            self.min_level
        } else if raw_target > self.max_level {
            self.max_level
        } else {
            raw_target
        };
        proof {
            assert(*self == (BrightnessController { available: true, ..mid.spec_press_base() }));
            assert(target == mid.spec_press_target());
        }
        if self.apply_rx.is_some() {
            let pushed = self.push_display();
            proof {
                assert(poll_settles(*old(self), mid) && (mid.apply_rx is Some) && *self
                    == (BrightnessController { available: true, ..mid.spec_press_base() }));
            }
            return pushed;
        }
        let committed = self.enqueue_apply(target);
        proof {
            assert(poll_settles(*old(self), mid) && (mid.apply_rx is None)
                && Self::spec_committed(mid.spec_press_base(), *self, mid.spec_press_target()));
        }
        committed
    }

    /// A release only absorbs a finished write, if any.
    fn on_release(&mut self) -> (r: Result<(), ControlError>)
        ensures
            frame_kept(*old(self), *final(self)),
            poll_settles(*old(self), *final(self)),
            old(self).apply_rx is None ==> *final(self) == *old(self) && (r matches Ok(_)),
    {
        self.poll_apply()
    }
}

impl<B: BrightnessBackend, D: DisplayPipeline> Tickable for BrightnessController<B, D> {
    open spec fn tick_inv(&self) -> bool {
        self.wf()
    }

    /// A tick only absorbs a finished write, if any.
    fn on_tick(&mut self) -> (r: Result<(), ControlError>)
        ensures
            frame_kept(*old(self), *final(self)),
            poll_settles(*old(self), *final(self)),
            old(self).apply_rx is None ==> *final(self) == *old(self) && (r matches Ok(_)),
    {
        self.poll_apply()
    }
}

} // verus!
