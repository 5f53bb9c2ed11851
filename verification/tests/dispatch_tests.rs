use std::cell::RefCell;
use std::rc::Rc;

use streamdeck_ctrl::app::{AppConfig, Dispatcher};
use streamdeck_ctrl::controls::brightness::BrightnessController;
use streamdeck_ctrl::controls::timer::TimerController;
use streamdeck_ctrl::controls::volume::VolumeController;
use streamdeck_ctrl::hardware::model::{ButtonImage, DisplayPipeline, EncoderDisplay, EncoderId,
    HardwareEvent, PipelineError};
use streamdeck_ctrl::system::audio::AudioBackend;
use streamdeck_ctrl::system::audio_switch::{AudioSwitchBackend, SinkInfo, SinkSelector};
use streamdeck_ctrl::system::brightness::{parse_brightness_output, BrightnessBackend,
    DdcutilBackend};
use streamdeck_ctrl::system::now_playing::{NowPlayingBackend, PlaybackState};
use streamdeck_ctrl::system::BackendError;

struct NullDisplay;

impl DisplayPipeline for &NullDisplay {
    fn update_encoder(&self, _encoder: EncoderId, _display: EncoderDisplay) -> Result<
        (),
        PipelineError,
    > {
        Ok(())
    }

    fn update_button_icon(&self, _index: u8, _icon: Option<ButtonImage>) -> Result<
        (),
        PipelineError,
    > {
        Ok(())
    }
}

#[derive(Clone)]
struct FixedAudio {
    calls: Rc<RefCell<Vec<&'static str>>>,
}

impl AudioBackend for FixedAudio {
    fn get_volume(&self) -> Result<u32, BackendError> {
        self.calls.borrow_mut().push("get_volume");
        Ok(40)
    }

    fn adjust_volume(&self, _delta_percent: i32) -> Result<u32, BackendError> {
        self.calls.borrow_mut().push("adjust_volume");
        Ok(40)
    }

    fn is_muted(&self) -> Result<bool, BackendError> {
        Ok(false)
    }

    fn toggle_mute(&self) -> Result<bool, BackendError> {
        self.calls.borrow_mut().push("toggle_mute");
        Ok(true)
    }

    fn is_available(&self) -> bool {
        true
    }
}

#[derive(Clone)]
struct FixedBrightness;

impl BrightnessBackend for FixedBrightness {
    fn get_brightness(&self) -> Result<u8, BackendError> {
        Ok(60)
    }

    fn start_apply(&self, value: u8) -> crossbeam_channel::Receiver<Result<u8, BackendError>> {
        let (tx, rx) = crossbeam_channel::bounded(1);
        let _ = tx.send(Ok(value));
        rx
    }

    fn is_available(&self) -> bool {
        true
    }
}

struct NoPlayer;

impl NowPlayingBackend for NoPlayer {
    fn now_playing(&mut self) -> Result<PlaybackState, BackendError> {
        Ok(PlaybackState::stopped())
    }

    fn next(&mut self) -> Result<(), BackendError> {
        Ok(())
    }

    fn previous(&mut self) -> Result<(), BackendError> {
        Ok(())
    }
}

struct NoSwitch;

impl AudioSwitchBackend for NoSwitch {
    fn set_default_sink(&self, _selector: &SinkSelector) -> Result<SinkInfo, BackendError> {
        Err(BackendError { message: "unused".into() })
    }

    fn current_default_sink(&self) -> Result<Option<SinkInfo>, BackendError> {
        Ok(None)
    }

    fn list_sinks(&self) -> Result<Vec<SinkInfo>, BackendError> {
        Ok(Vec::new())
    }
}

#[test]
fn events_route_to_the_owning_controller() {
    let display = NullDisplay;
    let audio = FixedAudio { calls: Rc::new(RefCell::new(Vec::new())) };
    let mut dispatcher: Dispatcher<FixedAudio, FixedBrightness, NoPlayer, NoSwitch, &NullDisplay>
        = Dispatcher {
        volume: VolumeController::new(audio.clone(), &display, EncoderId::One, 3).unwrap(),
        brightness: BrightnessController::new(
            FixedBrightness,
            &display,
            EncoderId::Two,
            5,
            10,
            100,
            15,
        )
        .unwrap(),
        timer: TimerController::new(&display, EncoderId::Three, 30, 30, 3600, 120).unwrap(),
        audio_toggle: None,
        now_playing: None,
        launchers: None,
    };

    let timer_before = dispatcher.timer.configured;
    dispatcher
        .handle_event(HardwareEvent::EncoderTurned { encoder: EncoderId::Three, delta: 1 })
        .unwrap();
    assert_eq!(dispatcher.timer.configured, timer_before + 30);
    // The volume backend saw nothing from the timer's event.
    assert!(!audio.calls.borrow().iter().any(|c| *c == "adjust_volume"));

    dispatcher
        .handle_event(HardwareEvent::EncoderTurned { encoder: EncoderId::One, delta: 2 })
        .unwrap();
    assert!(audio.calls.borrow().iter().any(|c| *c == "adjust_volume"));

    // An unhandled button press is absorbed without error.
    dispatcher.handle_event(HardwareEvent::ButtonPressed(6)).unwrap();
    dispatcher.handle_event(HardwareEvent::Touch).unwrap();
    dispatcher.handle_tick();
}

#[test]
fn default_app_config_matches_stock_values() {
    let config = AppConfig::default();
    assert_eq!(config.volume_step_percent, 3);
    assert_eq!(config.brightness_min, 10);
    assert_eq!(config.brightness_max, 100);
    assert_eq!(config.timer_default_secs, 1500);
    assert!(config.pulse_sink.is_none());
    assert_eq!(config.now_playing_player.as_deref(), Some("spotify,%any"));
}

#[test]
fn parses_ddcutil_brightness_output() {
    let output = "VCP code 0x10 (Brightness): current value =    47, max value =   100";
    assert_eq!(parse_brightness_output(output), Some(47));
    assert_eq!(parse_brightness_output("no reading"), None);
}

#[test]
fn ddcutil_args_carry_display_and_bus() {
    let backend = DdcutilBackend::new(Some("1".to_string()), Some(4), true);
    let get: Vec<String> = backend.getvcp_args();
    assert_eq!(get, vec!["getvcp", "10", "--display", "1", "--bus", "4"]);
    let set: Vec<String> = backend.setvcp_args(130);
    assert_eq!(set, vec!["setvcp", "10", "100", "--display", "1", "--bus", "4"]);
}
