//! The dispatch loop's decision core: which controller each hardware
//! event belongs to, and the fixed order ticks run in. The blocking
//! multiplexed receive itself (events, the one-second ticker, the
//! shutdown signal) runs outside the library and hands each occurrence
//! here, one at a time, so controllers observe a total order.

use vstd::prelude::*;
use vstd::string::StringExecFns;

use crate::controls::audio_toggle::{press_outcome, spec_owns, AudioToggleController,
    SwitchOutcome};
use crate::controls::brightness;
use crate::controls::brightness::BrightnessController;
use crate::controls::launcher::LauncherController;
use crate::controls::now_playing::spec_absorbed;
use crate::controls::now_playing::NowPlayingController;
use crate::controls::timer;
use crate::controls::timer::TimerController;
use crate::controls::volume;
use crate::system::now_playing::PlayView;
use crate::controls::volume::VolumeController;
use crate::controls::{ControlError, EncoderController, Tickable};
use crate::hardware::model::{DisplayPipeline, EncoderId, HardwareConfig, HardwareEvent};
use crate::system::audio::AudioBackend;
use crate::system::audio_switch::AudioSwitchBackend;
use crate::system::brightness::BrightnessBackend;
use crate::system::now_playing::NowPlayingBackend;

verus! {

/// Everything the application is configured with.
#[derive(Debug, Clone)]
pub struct AppConfig {
    pub volume_step_percent: i32,
    pub brightness_step_percent: u8,
    pub brightness_min: u8,
    pub brightness_max: u8,
    pub brightness_night: u8,
    pub timer_step_secs: u64,
    pub timer_min_secs: u64,
    pub timer_max_secs: u64,
    pub timer_default_secs: u64,
    pub pulse_sink: Option<String>,
    pub monitor_display: Option<String>,
    pub monitor_bus: Option<u8>,
    pub now_playing_player: Option<String>,
    pub hardware: HardwareConfig,
}

impl Default for AppConfig {
    /// The stock configuration: a three percent volume step, brightness
    /// ten to one hundred in fives with night mode at fifteen, and a
    /// twenty-five minute timer adjustable up to an hour.
    fn default() -> (r: AppConfig)
        ensures
            r.volume_step_percent == 3,
            r.brightness_step_percent == 5,
            r.brightness_min == 10,
            r.brightness_max == 100,
            r.brightness_night == 15,
            r.timer_step_secs == 30,
            r.timer_min_secs == 30,
            r.timer_max_secs == 3600,
            r.timer_default_secs == 1500,
            (r.pulse_sink is None),
            (r.monitor_display is None),
            (r.monitor_bus is None),
            (r.now_playing_player matches Some(p) && p@ == "spotify,%any"@),
    {
        AppConfig {
            volume_step_percent: 3,
            brightness_step_percent: 5,
            brightness_min: 10,
            brightness_max: 100,
            brightness_night: 15,
            timer_step_secs: 30,
            timer_min_secs: 30,
            timer_max_secs: 3600,
            timer_default_secs: 1500,
            pulse_sink: None,
            monitor_display: None,
            monitor_bus: None,
            now_playing_player: Some(String::from_str("spotify,%any")),
            hardware: HardwareConfig { serial: None, device_brightness: 40 },
        }
    }
}

/// The controllers, one per encoder and button group, routed to from the
/// loop outside.
pub struct Dispatcher<
    A: AudioBackend,
    B: BrightnessBackend,
    N: NowPlayingBackend,
    S: AudioSwitchBackend,
    D: DisplayPipeline,
> {
    pub volume: VolumeController<A, D>,
    pub brightness: BrightnessController<B, D>,
    pub timer: TimerController<D>,
    pub audio_toggle: Option<AudioToggleController<S, D>>,
    pub now_playing: Option<NowPlayingController<N, D>>,
    pub launchers: Option<LauncherController>,
}

impl<
    A: AudioBackend,
    B: BrightnessBackend,
    N: NowPlayingBackend,
    S: AudioSwitchBackend,
    D: DisplayPipeline,
> Dispatcher<A, B, N, S, D> {
    pub open spec fn wf(self) -> bool {
        self.volume.wf() && self.brightness.wf() && self.timer.wf() && (match self.audio_toggle {
            Some(t) => t.wf(),
            None => true,
        }) && (match self.now_playing {
            Some(n) => n.wf(),
            None => true,
        })
    }

    /// Routes one event to the one controller it targets: each encoder
    /// is owned by exactly one controller, so handling an event for one
    /// encoder leaves every other controller untouched, and the target
    /// ends related to its old state by that controller's own law.
    /// Button releases and touches are absorbed.
    pub fn handle_event(&mut self, event: HardwareEvent) -> (r: Result<(), ControlError>)
        requires
            old(self).wf(),
        ensures
            final(self).wf(),
            match event {
                HardwareEvent::EncoderTurned { encoder, delta } => others_kept(
                    *old(self),
                    *final(self),
                    encoder,
                ) && turn_target_rel(*old(self), *final(self), encoder, delta as int, r),
                HardwareEvent::EncoderPressed { encoder } => others_kept(
                    *old(self),
                    *final(self),
                    encoder,
                ) && press_target_rel(*old(self), *final(self), encoder, r),
                HardwareEvent::EncoderReleased { encoder } => others_kept(
                    *old(self),
                    *final(self),
                    encoder,
                ) && release_target_rel(*old(self), *final(self), encoder),
                HardwareEvent::ButtonPressed(index) => encoders_kept(*old(self), *final(self))
                    && ((r matches Ok(_)) ==> exists|o: PressOutcome|
                    button_press_rel(*old(self), *final(self), index, o)),
                HardwareEvent::ButtonReleased(_) => *final(self) == *old(self) && (
                r matches Ok(_)),
                HardwareEvent::Touch => *final(self) == *old(self) && (r matches Ok(_)),
            },
    {
        match event {
            HardwareEvent::EncoderTurned { encoder, delta } => self.handle_turn(encoder, delta),
            HardwareEvent::EncoderPressed { encoder } => self.handle_press(encoder),
            HardwareEvent::EncoderReleased { encoder } => self.handle_release(encoder),
            HardwareEvent::ButtonPressed(index) => {
                let pressed = self.handle_button_press(index);
                proof {
                    match pressed {
                        Ok(o) => {
                            assert(button_press_rel(*old(self), *self, index, o));
                        },
                        Err(_) => {},
                    }
                }
                match pressed {
                    Ok(_) => Ok(()),
                    Err(e) => Err(e),
                }
            },
            HardwareEvent::ButtonReleased(_) => Ok(()),
            HardwareEvent::Touch => Ok(()),
        }
    }

    /// A turn goes to the controller that owns the encoder, which ends
    /// related to its old state by its own turn law.
    pub fn handle_turn(&mut self, encoder: EncoderId, delta: i32) -> (r: Result<
        (),
        ControlError,
    >)
        requires
            old(self).wf(),
        ensures
            final(self).wf(),
            others_kept(*old(self), *final(self), encoder),
            turn_target_rel(*old(self), *final(self), encoder, delta as int, r),
    {
        match encoder {
            EncoderId::One => self.volume.on_turn(delta),
            EncoderId::Two => self.brightness.on_turn(delta),
            EncoderId::Three => self.timer.on_turn(delta),
            EncoderId::Four => match &mut self.now_playing {
                Option::Some(now_playing) => now_playing.on_turn(delta),
                Option::None => Ok(()),
            },
        }
    }

    /// A press goes to the controller that owns the encoder.
    pub fn handle_press(&mut self, encoder: EncoderId) -> (r: Result<(), ControlError>)
        requires
            old(self).wf(),
        ensures
            final(self).wf(),
            others_kept(*old(self), *final(self), encoder),
            press_target_rel(*old(self), *final(self), encoder, r),
    {
        match encoder {
            EncoderId::One => self.volume.on_press(),
            EncoderId::Two => self.brightness.on_press(),
            EncoderId::Three => self.timer.on_press(),
            EncoderId::Four => Ok(()),
        }
    }

    /// A release goes to the controller that owns the encoder; only the
    /// brightness control reacts (it absorbs a finished write).
    pub fn handle_release(&mut self, encoder: EncoderId) -> (r: Result<(), ControlError>)
        requires
            old(self).wf(),
        ensures
            final(self).wf(),
            others_kept(*old(self), *final(self), encoder),
            release_target_rel(*old(self), *final(self), encoder),
    {
        match encoder {
            EncoderId::One => self.volume.on_release(),
            EncoderId::Two => self.brightness.on_release(),
            EncoderId::Three => self.timer.on_release(),
            EncoderId::Four => Ok(()),
        }
    }

    /// A button press walks the fixed chain: the output toggle is
    /// offered the press first; only when it does not own the button is
    /// the launcher consulted; the launcher's activation itself happens
    /// outside the library. A press the toggle owns also resyncs the
    /// volume display (the default output may just have changed).
    pub fn handle_button_press(&mut self, index: u8) -> (r: Result<PressOutcome, ControlError>)
        requires
            old(self).wf(),
        ensures
            final(self).wf(),
            encoders_kept(*old(self), *final(self)),
            match r {
                Ok(o) => button_press_rel(*old(self), *final(self), index, o),
                Err(_) => true,
            },
    {
        let ghost pre = *old(self);
        match &mut self.audio_toggle {
            Option::Some(toggle) => {
                let ghost a = *toggle;
                match toggle.on_button_pressed(index) {
                    Ok(switch) => {
                        let ghost b = *toggle;
                        if switch.handled() {
                            match self.volume.sync() {
                                Ok(()) => {},
                                Err(_) => {},
                            }
                            let outcome = match switch {
                                SwitchOutcome::Switched => PressOutcome::ToggleSwitched,
                                SwitchOutcome::Failed => PressOutcome::ToggleFailed,
                                SwitchOutcome::Deferred => PressOutcome::ToggleDeferred,
                                SwitchOutcome::NotMine => PressOutcome::Unhandled,
                            };
                            proof {
                                assert(pre.audio_toggle == Some(a));
                                assert(self.audio_toggle == Some(b));
                                let now0 = choose|now: u64|
                                    press_outcome(a, b, index, now, switch);
                                match switch {
                                    SwitchOutcome::Switched => {
                                        assert(press_outcome(
                                            pre.audio_toggle->Some_0,
                                            self.audio_toggle->Some_0,
                                            index,
                                            now0,
                                            SwitchOutcome::Switched,
                                        ));
                                    },
                                    SwitchOutcome::Failed => {
                                        assert(press_outcome(
                                            pre.audio_toggle->Some_0,
                                            self.audio_toggle->Some_0,
                                            index,
                                            now0,
                                            SwitchOutcome::Failed,
                                        ));
                                    },
                                    SwitchOutcome::Deferred => {
                                        assert(press_outcome(
                                            pre.audio_toggle->Some_0,
                                            self.audio_toggle->Some_0,
                                            index,
                                            now0,
                                            SwitchOutcome::Deferred,
                                        ));
                                    },
                                    SwitchOutcome::NotMine => {},
                                }
                            }
                            return Ok(outcome);
                        }
                    },
                    Err(e) => {
                        return Err(e);
                    },
                }
            },
            Option::None => {},
        }
        let launcher_owns_it = match &self.launchers {
            Option::Some(launchers) => launchers.on_button_pressed(index),
            Option::None => false,
        };
        if launcher_owns_it {
            Ok(PressOutcome::Launcher)
        } else {
            Ok(PressOutcome::Unhandled)
        }
    }

    /// A tick runs every periodic controller once, in a fixed order:
    /// timer, brightness, output toggle, now playing. A failing tick of
    /// one controller does not keep the others from running, and each
    /// controller ends related to its old state by its own tick law.
    pub fn handle_tick(&mut self)
        requires
            old(self).wf(),
        ensures
            final(self).wf(),
            timer::spec_ticked(old(self).timer, final(self).timer),
            brightness::poll_settles(old(self).brightness, final(self).brightness),
            final(self).launchers == old(self).launchers,
            final(self).volume == old(self).volume,
    {
        match self.timer.on_tick() {
            Ok(()) => {},
            Err(_) => {},
        }
        match self.brightness.on_tick() {
            Ok(()) => {},
            Err(_) => {},
        }
        match &mut self.audio_toggle {
            Option::Some(toggle) => {
                match toggle.on_tick() {
                    Ok(()) => {},
                    Err(_) => {},
                }
            },
            Option::None => {},
        }
        match &mut self.now_playing {
            Option::Some(now_playing) => {
                match now_playing.on_tick() {
                    Ok(()) => {},
                    Err(_) => {},
                }
            },
            Option::None => {},
        }
    }
}

/// What a button press decided: the toggle switched, failed, or
/// deferred inside its backoff window; the press belongs to a launcher
/// button; or nobody owns it.
#[derive(Debug, Clone, Copy, PartialEq, Eq, Structural)]
pub enum PressOutcome {
    ToggleSwitched,
    ToggleFailed,
    ToggleDeferred,
    Launcher,
    Unhandled,
}

/// The output toggle owns this button index.
pub open spec fn toggle_owns<
    A: AudioBackend,
    B: BrightnessBackend,
    N: NowPlayingBackend,
    S: AudioSwitchBackend,
    D: DisplayPipeline,
>(d: Dispatcher<A, B, N, S, D>, index: u8) -> bool {
    match d.audio_toggle {
        Some(t) => spec_owns(t.outputs@, index),
        None => false,
    }
}

/// A launcher button is registered for this index.
pub open spec fn launcher_owns<
    A: AudioBackend,
    B: BrightnessBackend,
    N: NowPlayingBackend,
    S: AudioSwitchBackend,
    D: DisplayPipeline,
>(d: Dispatcher<A, B, N, S, D>, index: u8) -> bool {
    match d.launchers {
        Some(l) => exists|i: int| 0 <= i < l.buttons@.len() && (#[trigger] l.buttons@[i]).0
            == index,
        None => false,
    }
}

/// The chain law of one button press: the toggle outcomes imply the
/// toggle owns the button and relate it by its own press law at some
/// time; `Launcher` holds exactly when the toggle does not own the
/// button but a launcher does; `Unhandled` touches nothing. The volume
/// is resynced only when the toggle owned the press.
pub open spec fn button_press_rel<
    A: AudioBackend,
    B: BrightnessBackend,
    N: NowPlayingBackend,
    S: AudioSwitchBackend,
    D: DisplayPipeline,
>(
    d: Dispatcher<A, B, N, S, D>,
    post: Dispatcher<A, B, N, S, D>,
    index: u8,
    outcome: PressOutcome,
) -> bool {
    post.brightness == d.brightness && post.timer == d.timer && post.launchers == d.launchers
        && post.now_playing == d.now_playing && ((d.audio_toggle is Some) == (post.audio_toggle
        is Some)) && ((d.audio_toggle is Some) ==> (match outcome {
        PressOutcome::ToggleSwitched => exists|now: u64|
            press_outcome(
                d.audio_toggle->Some_0,
                post.audio_toggle->Some_0,
                index,
                now,
                SwitchOutcome::Switched,
            ),
        PressOutcome::ToggleFailed => exists|now: u64|
            press_outcome(
                d.audio_toggle->Some_0,
                post.audio_toggle->Some_0,
                index,
                now,
                SwitchOutcome::Failed,
            ),
        PressOutcome::ToggleDeferred => exists|now: u64|
            press_outcome(
                d.audio_toggle->Some_0,
                post.audio_toggle->Some_0,
                index,
                now,
                SwitchOutcome::Deferred,
            ),
        PressOutcome::Launcher => post.audio_toggle == d.audio_toggle,
        PressOutcome::Unhandled => post.audio_toggle == d.audio_toggle,
    })) && ((d.audio_toggle is None) ==> outcome == PressOutcome::Launcher || outcome
        == PressOutcome::Unhandled) && ((outcome == PressOutcome::Launcher || outcome
        == PressOutcome::Unhandled)
        ==> post.volume == d.volume) && ((outcome == PressOutcome::Launcher) == (!toggle_owns(
        d,
        index,
    ) && launcher_owns(d, index))) && (outcome == PressOutcome::Unhandled ==> !toggle_owns(
        d,
        index,
    )) && ((outcome == PressOutcome::ToggleSwitched || outcome == PressOutcome::ToggleFailed
        || outcome == PressOutcome::ToggleDeferred) ==> toggle_owns(d, index)
        && volume::vol_frame(d.volume, post.volume))
}

/// The target of a turn ends related to its old state by its own law;
/// a missing now-playing controller absorbs the event.
pub open spec fn turn_target_rel<
    A: AudioBackend,
    B: BrightnessBackend,
    N: NowPlayingBackend,
    S: AudioSwitchBackend,
    D: DisplayPipeline,
>(
    d: Dispatcher<A, B, N, S, D>,
    post: Dispatcher<A, B, N, S, D>,
    encoder: EncoderId,
    delta: int,
    r: Result<(), ControlError>,
) -> bool {
    match encoder {
        EncoderId::One => volume::vol_frame(d.volume, post.volume) && ((r matches Ok(_))
            ==> volume::spec_turn_post(d.volume, post.volume, delta)),
        EncoderId::Two => brightness::frame_kept(d.brightness, post.brightness) && ((
        r matches Ok(_)) ==> brightness::spec_turn_post(d.brightness, post.brightness, delta)),
        EncoderId::Three => timer::spec_turned(d.timer, post.timer, delta),
        EncoderId::Four => match (d.now_playing, post.now_playing) {
            (Some(a), Some(b)) => b.encoder == a.encoder && b.display == a.display && ((
            r matches Ok(_)) ==> exists|st: PlayView| spec_absorbed(a, b, st, false)),
            (None, None) => post == d && (r matches Ok(_)),
            _ => false,
        },
    }
}

/// The target of a press ends related to its old state by its own law.
pub open spec fn press_target_rel<
    A: AudioBackend,
    B: BrightnessBackend,
    N: NowPlayingBackend,
    S: AudioSwitchBackend,
    D: DisplayPipeline,
>(
    d: Dispatcher<A, B, N, S, D>,
    post: Dispatcher<A, B, N, S, D>,
    encoder: EncoderId,
    r: Result<(), ControlError>,
) -> bool {
    match encoder {
        EncoderId::One => volume::vol_frame(d.volume, post.volume) && ((r matches Ok(_))
            ==> volume::spec_press_post(d.volume, post.volume)),
        EncoderId::Two => brightness::frame_kept(d.brightness, post.brightness) && ((
        r matches Ok(_)) ==> brightness::spec_press_post(d.brightness, post.brightness)),
        EncoderId::Three => timer::spec_pressed(d.timer, post.timer),
        EncoderId::Four => post == d && (r matches Ok(_)),
    }
}

/// The target of a release ends related to its old state by its own
/// law: only the brightness control reacts, absorbing a finished write.
pub open spec fn release_target_rel<
    A: AudioBackend,
    B: BrightnessBackend,
    N: NowPlayingBackend,
    S: AudioSwitchBackend,
    D: DisplayPipeline,
>(
    d: Dispatcher<A, B, N, S, D>,
    post: Dispatcher<A, B, N, S, D>,
    encoder: EncoderId,
) -> bool {
    match encoder {
        EncoderId::One => post.volume == d.volume,
        EncoderId::Two => brightness::poll_settles(d.brightness, post.brightness),
        EncoderId::Three => post.timer == d.timer,
        EncoderId::Four => post == d,
    }
}

/// Every controller except the one owning `encoder` is untouched.
pub open spec fn others_kept<
    A: AudioBackend,
    B: BrightnessBackend,
    N: NowPlayingBackend,
    S: AudioSwitchBackend,
    D: DisplayPipeline,
>(
    a: Dispatcher<A, B, N, S, D>,
    b: Dispatcher<A, B, N, S, D>,
    encoder: EncoderId,
) -> bool {
    (encoder != EncoderId::One ==> b.volume == a.volume) && (encoder != EncoderId::Two
        ==> b.brightness == a.brightness) && (encoder != EncoderId::Three ==> b.timer == a.timer)
        && (encoder != EncoderId::Four ==> b.now_playing == a.now_playing) && b.audio_toggle
        == a.audio_toggle && b.launchers == a.launchers
}

/// The encoder controllers a button press can never reach (only the
/// volume display may be resynced after a handled toggle press).
pub open spec fn encoders_kept<
    A: AudioBackend,
    B: BrightnessBackend,
    N: NowPlayingBackend,
    S: AudioSwitchBackend,
    D: DisplayPipeline,
>(a: Dispatcher<A, B, N, S, D>, b: Dispatcher<A, B, N, S, D>) -> bool {
    b.brightness == a.brightness && b.timer == a.timer && b.launchers == a.launchers
        && b.now_playing == a.now_playing
}

} // verus!
