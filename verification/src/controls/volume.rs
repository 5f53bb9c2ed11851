//! The volume control on one encoder: turning adjusts the volume in
//! steps, pressing toggles mute; an unavailable audio backend shows a
//! placeholder instead.

use vstd::prelude::*;
use vstd::string::StringExecFns;

use crate::controls::{ControlError, EncoderController};
use crate::hardware::model::{DisplayPipeline, DisplayView, EncoderDisplay, EncoderId};
use crate::system::audio::AudioBackend;
use crate::util;

verus! {

/// Volume never exceeds this percentage.
pub const VOLUME_CAP: u32 = 150;

/// The change a turn hands to the backend: the whole-step product,
/// saturated into the signed range the backend accepts.
pub open spec fn spec_step_change(delta: int, step: int) -> int {
    let wide = delta * step;
    if wide > 0x7fffffff {
        0x7fffffff
    } else if wide < -0x80000000 {
        -0x80000000
    } else {
        wide
    }
}

/// Computes the saturated whole-step change.
pub fn step_change(delta: i32, step: i32) -> (r: i32)
    ensures
        r == spec_step_change(delta as int, step as int),
{
    let wide_delta: i64 = delta as i64;
    let wide_step: i64 = step as i64;
    proof {
        assert(wide_delta * wide_step <= 0x80000000i64 * 0x80000000i64 && wide_delta
            * wide_step >= -0x80000000i64 * 0x80000000i64) by (nonlinear_arith)
            requires
                -0x80000000 <= wide_delta <= 0x7fffffff,
                -0x80000000 <= wide_step <= 0x7fffffff,
        ;
    }
    let wide: i64 = wide_delta * wide_step;
    if wide > 0x7fffffffi64 {
        0x7fffffff
    } else if wide < -0x80000000i64 {
        -0x80000000
    } else {
        wide as i32
    }
}

/// The volume controller for one encoder.
pub struct VolumeController<A: AudioBackend, D: DisplayPipeline> {
    pub audio: A,
    pub display: D,
    pub encoder: EncoderId,
    pub step: i32,
    pub muted: bool,
    pub volume: u32,
    pub available: bool,
}

impl<A: AudioBackend, D: DisplayPipeline> VolumeController<A, D> {
    /// The step is positive and the volume capped.
    pub open spec fn wf(self) -> bool {
        1 <= self.step && self.volume <= VOLUME_CAP
    }

    /// The display shown while the backend is usable: the volume
    /// right-aligned with a percent sign, the filled fraction of the
    /// bar, and a `muted` status when muted.
    pub open spec fn spec_display(self) -> DisplayView {
        DisplayView {
            title: "volume"@,
            value: util::spec_percent3(self.volume as nat),
            status: if self.muted {
                Some("muted"@)
            } else {
                None
            },
            progress: Some(self.spec_progress()),
            progress_color: None,
            value_color: None,
        }
    }

    /// The bar fills fully at one hundred percent.
    pub open spec fn spec_progress(self) -> u16 {
        if self.volume >= 100 {
            1000
        } else {
            (self.volume * 10) as u16
        }
    }

    /// The placeholder shown while the backend is unavailable.
    pub open spec fn spec_unavailable_display(self) -> DisplayView {
        DisplayView {
            title: "volume"@,
            value: "N/A"@,
            status: Some("audio disabled"@),
            progress: Some(0u16),
            progress_color: None,
            value_color: None,
        }
    }

    /// A controller showing the backend's current state, or the
    /// placeholder when it is unavailable. `Err` only where the backend
    /// or the display sink fails.
    pub fn new(audio: A, display: D, encoder: EncoderId, step: i32) -> (r: Result<
        VolumeController<A, D>,
        ControlError,
    >)
        ensures
            match r {
                Ok(c) => c.wf() && c.step == (if step >= 1 {
                    step
                } else {
                    1
                }) && c.encoder == encoder,
                Err(_) => true,
            },
    {
        let available = audio.is_available();
        let mut controller = VolumeController {
            audio,
            display,
            encoder,
            step: if step >= 1 {
                step
            } else {
                1
            },
            muted: false,
            volume: 0,
            available,
        };
        let outcome = if controller.available {
            controller.refresh_state()
        } else {
            controller.push_unavailable_display()
        };
        match outcome {
            Ok(()) => Ok(controller),
            Err(e) => Err(e),
        }
    }

    /// Takes one backend reading as plain values: the capped volume and
    /// the muted flag become the controller's state, and the display is
    /// pushed from exactly that state.
    pub fn apply_reading(&mut self, volume: u32, muted: bool) -> (r: Result<(), ControlError>)
        requires
            old(self).wf(),
        ensures
            final(self).wf(),
            *final(self) == (VolumeController {
                volume: if volume <= VOLUME_CAP {
                    volume
                } else {
                    VOLUME_CAP
                },
                muted,
                ..*old(self)
            }),
    {
        self.volume = if volume <= VOLUME_CAP {
            volume
        } else {
            VOLUME_CAP
        };
        self.muted = muted;
        self.push_display()
    }

    /// Re-reads volume and mute from the backend and shows them, for
    /// callers that changed the output behind this controller's back.
    pub fn sync(&mut self) -> (r: Result<(), ControlError>)
        requires
            old(self).wf(),
        ensures
            final(self).wf(),
            vol_frame(*old(self), *final(self)),
            (r matches Ok(_)) ==> spec_press_post(*old(self), *final(self)),
    {
        self.refresh_state()
    }

    /// Reads volume and mute from the backend and shows them; on a
    /// backend failure the error is carried up unchanged.
    fn refresh_state(&mut self) -> (r: Result<(), ControlError>)
        requires
            old(self).wf(),
        ensures
            final(self).wf(),
            vol_frame(*old(self), *final(self)),
            (r matches Ok(_)) ==> spec_press_post(*old(self), *final(self)),
    {
        self.available = self.audio.is_available();
        if !self.available {
            let pushed = self.push_unavailable_display();
            proof {
                assert(*self == (VolumeController { available: false, ..*old(self) }));
            }
            return pushed;
        }
        let volume = match self.audio.get_volume() {
            Ok(v) => v,
            Err(e) => {
                return Err(ControlError::Backend(e));
            },
        };
        let muted = match self.audio.is_muted() {
            Ok(m) => m,
            Err(e) => {
                return Err(ControlError::Backend(e));
            },
        };
        let applied = self.apply_reading(volume, muted);
        proof {
            assert(spec_read_back(*old(self), *self, volume, muted));
        }
        applied
    }

    /// Pushes the display derived from the current state.
    fn push_display(&self) -> (r: Result<(), ControlError>)
        requires
            self.wf(),
    {
        let mut display = EncoderDisplay::new(
            String::from_str("volume"),
            util::format_percent3(self.volume as u64),
        );
        let progress: u16 = if self.volume >= 100 {
            1000
        } else {
            (self.volume * 10) as u16
        };
        display.progress = Some(progress);
        if self.muted {
            display.status = Some(String::from_str("muted"));
        }
        proof {
            assert(display@ == self.spec_display());
        }
        match self.display.update_encoder(self.encoder, display) {
            Ok(()) => Ok(()),
            Err(e) => Err(ControlError::Pipeline(e)),
        }
    }

    /// Pushes the placeholder for an unavailable backend.
    fn push_unavailable_display(&self) -> (r: Result<(), ControlError>)
    {
        let display = EncoderDisplay::new(String::from_str("volume"), String::from_str("N/A"))
            .with_status(String::from_str("audio disabled")).with_progress(0);
        proof {
            assert(display@ == self.spec_unavailable_display());
        }
        match self.display.update_encoder(self.encoder, display) {
            Ok(()) => Ok(()),
            Err(e) => Err(ControlError::Pipeline(e)),
        }
    }
}

impl<A: AudioBackend, D: DisplayPipeline> EncoderController for VolumeController<A, D> {
    open spec fn inv(&self) -> bool {
        self.wf()
    }

    /// Turning adjusts the volume through the backend by the saturated
    /// whole-step change (`spec_step_change`) and then shows what the
    /// backend reports, read back through `apply_reading`; a muted
    /// backend is unmuted first; an unavailable one only shows the
    /// placeholder, and a zero delta changes nothing.
    fn on_turn(&mut self, delta: i32) -> (r: Result<(), ControlError>)
        ensures
            vol_frame(*old(self), *final(self)),
            (r matches Ok(_)) ==> spec_turn_post(*old(self), *final(self), delta as int),
    {
        self.available = self.audio.is_available();
        if !self.available {
            let pushed = self.push_unavailable_display();
            proof {
                assert(spec_went_unavailable(*old(self), *self, old(self).muted));
            }
            return pushed;
        }
        if delta == 0 {
            return Ok(());
        }
        if self.muted {
            self.muted = match self.audio.toggle_mute() {
                Ok(m) => m,
                Err(e) => {
                    return Err(ControlError::Backend(e));
                },
            };
        }
        let change: i32 = step_change(delta, self.step);
        match self.audio.adjust_volume(change) {
            Ok(_) => {},
            Err(e) => {
                return Err(ControlError::Backend(e));
            },
        }
        let ghost pre = *self;
        let refreshed = self.refresh_state();
        proof {
            if refreshed matches Ok(_) {
                if *self == (VolumeController { available: false, ..pre }) {
                    assert(spec_went_unavailable(*old(self), *self, pre.muted));
                } else {
                    let (v, m) = choose|v: u32, m: bool| spec_read_back(pre, *self, v, m);
                    assert(spec_read_back(*old(self), *self, v, m));
                }
            }
        }
        refreshed
    }

    /// Pressing toggles mute through the backend and shows the state the
    /// backend then reports, read back through `apply_reading`; an
    /// unavailable backend only shows the placeholder.
    fn on_press(&mut self) -> (r: Result<(), ControlError>)
        ensures
            vol_frame(*old(self), *final(self)),
            (r matches Ok(_)) ==> spec_press_post(*old(self), *final(self)),
    {
        self.available = self.audio.is_available();
        if !self.available {
            let pushed = self.push_unavailable_display();
            proof {
                assert(*self == (VolumeController { available: false, ..*old(self) }));
            }
            return pushed;
        }
        match self.audio.toggle_mute() {
            Ok(_) => {},
            Err(e) => {
                return Err(ControlError::Backend(e));
            },
        }
        let ghost pre = *self;
        let refreshed = self.refresh_state();
        proof {
            if refreshed matches Ok(_) {
                if *self == (VolumeController { available: false, ..pre }) {
                    assert(*self == (VolumeController { available: false, ..*old(self) }));
                } else {
                    let (v, m) = choose|v: u32, m: bool| spec_read_back(pre, *self, v, m);
                    assert(spec_read_back(*old(self), *self, v, m));
                }
            }
        }
        refreshed
    }

    fn on_release(&mut self) -> (r: Result<(), ControlError>)
        ensures
            *final(self) == *old(self),
            (r matches Ok(_)),
    {
        Ok(())
    }
}

/// The fields no call ever changes: the configuration, the backend
/// handle and the display sink.
pub open spec fn vol_frame<A: AudioBackend, D: DisplayPipeline>(
    a: VolumeController<A, D>,
    b: VolumeController<A, D>,
) -> bool {
    a.step == b.step && a.encoder == b.encoder && a.audio == b.audio && a.display == b.display
}

/// A reading of `v` percent (capped) and muted flag `m` was absorbed
/// while the backend stayed available.
pub open spec fn spec_read_back<A: AudioBackend, D: DisplayPipeline>(
    pre: VolumeController<A, D>,
    post: VolumeController<A, D>,
    v: u32,
    m: bool,
) -> bool {
    post == VolumeController {
        volume: if v <= VOLUME_CAP {
            v
        } else {
            VOLUME_CAP
        },
        muted: m,
        available: true,
        ..pre
    }
}

/// Everything a turn can have done, whatever the backend answered.
pub open spec fn spec_turn_post<A: AudioBackend, D: DisplayPipeline>(
    pre: VolumeController<A, D>,
    post: VolumeController<A, D>,
    delta: int,
) -> bool {
    (exists|m2: bool| spec_went_unavailable(pre, post, m2)) || (delta == 0 && post
        == VolumeController { available: true, ..pre }) || (delta != 0 && exists|v: u32, m: bool|
        spec_read_back(pre, post, v, m))
}

/// Everything a press or a resync can have done, whatever the backend
/// answered.
pub open spec fn spec_press_post<A: AudioBackend, D: DisplayPipeline>(
    pre: VolumeController<A, D>,
    post: VolumeController<A, D>,
) -> bool {
    (post == VolumeController { available: false, ..pre }) || (exists|v: u32, m: bool|
        spec_read_back(pre, post, v, m))
}

/// The backend went unavailable: only the placeholder was shown; the
/// volume is untouched and the muted flag is `m2` (it may have been
/// toggled just before the tool vanished).
pub open spec fn spec_went_unavailable<A: AudioBackend, D: DisplayPipeline>(
    pre: VolumeController<A, D>,
    post: VolumeController<A, D>,
    m2: bool,
) -> bool {
    post == VolumeController { muted: m2, available: false, ..pre }
}

} // verus!
