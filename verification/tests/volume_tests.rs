use std::cell::RefCell;
use std::rc::Rc;

use streamdeck_ctrl::controls::volume::VolumeController;
use streamdeck_ctrl::controls::EncoderController;
use streamdeck_ctrl::hardware::model::{ButtonImage, DisplayPipeline, EncoderDisplay, EncoderId,
    PipelineError};
use streamdeck_ctrl::system::audio::{parse_mute_output, parse_volume_output, AudioBackend,
    PulseAudioBackend};
use streamdeck_ctrl::system::BackendError;

struct TestDisplay {
    inner: RefCell<Vec<(EncoderId, EncoderDisplay)>>,
}

impl TestDisplay {
    fn new() -> Self {
        Self { inner: RefCell::new(Vec::new()) }
    }
}

impl DisplayPipeline for &TestDisplay {
    fn update_encoder(&self, encoder: EncoderId, display: EncoderDisplay) -> Result<
        (),
        PipelineError,
    > {
        self.inner.borrow_mut().push((encoder, display));
        Ok(())
    }

    fn update_button_icon(&self, _index: u8, _icon: Option<ButtonImage>) -> Result<
        (),
        PipelineError,
    > {
        Ok(())
    }
}

struct MockAudioState {
    volume: u32,
    muted: bool,
    history: Vec<String>,
}

impl Default for MockAudioState {
    fn default() -> Self {
        Self { volume: 50, muted: false, history: Vec::new() }
    }
}

#[derive(Clone)]
struct MockAudioBackend {
    inner: Rc<RefCell<MockAudioState>>,
}

impl MockAudioBackend {
    fn new(state: MockAudioState) -> Self {
        Self { inner: Rc::new(RefCell::new(state)) }
    }
}

impl AudioBackend for MockAudioBackend {
    fn get_volume(&self) -> Result<u32, BackendError> {
        Ok(self.inner.borrow().volume)
    }

    fn adjust_volume(&self, delta_percent: i32) -> Result<u32, BackendError> {
        let mut state = self.inner.borrow_mut();
        state.history.push(format!("adjust:{delta_percent}"));
        let new_volume = (state.volume as i64 + delta_percent as i64).clamp(0, 150) as u32;
        state.volume = new_volume;
        Ok(new_volume)
    }

    fn is_muted(&self) -> Result<bool, BackendError> {
        Ok(self.inner.borrow().muted)
    }

    fn toggle_mute(&self) -> Result<bool, BackendError> {
        let mut state = self.inner.borrow_mut();
        state.history.push("toggle_mute".into());
        state.muted = !state.muted;
        Ok(state.muted)
    }

    fn is_available(&self) -> bool {
        true
    }
}

#[test]
fn turning_encoder_updates_volume() {
    let audio_backend = MockAudioBackend::new(MockAudioState::default());
    let display = TestDisplay::new();
    let mut controller =
        VolumeController::new(audio_backend.clone(), &display, EncoderId::One, 2)
            .expect("init");

    controller.on_turn(3).expect("turn");

    let events = display.inner.borrow();
    assert!(!events.is_empty());
    let (_, last) = events.last().unwrap();
    assert!(last.value.contains('%'));
}

#[test]
fn pressing_toggles_mute_status() {
    let audio_backend = MockAudioBackend::new(MockAudioState {
        muted: false,
        ..Default::default()
    });
    let display = TestDisplay::new();
    let mut controller =
        VolumeController::new(audio_backend.clone(), &display, EncoderId::One, 2)
            .expect("init");

    controller.on_press().expect("press");
    let events = display.inner.borrow();
    let (_, last) = events.last().unwrap();
    assert!(matches!(last.status.as_deref(), Some("muted")));
}

#[test]
fn parses_pactl_volume_output() {
    let output = "Volume: front-left: 32768 /  50% / -18.06 dB,   front-right: 32768 /  50%";
    assert_eq!(parse_volume_output(output), Some(50));
    assert_eq!(parse_volume_output("no reading here"), None);
    assert_eq!(parse_volume_output("broken 12x% then 75%"), Some(75));
}

#[test]
fn parses_pactl_mute_output() {
    assert_eq!(parse_mute_output("Mute: yes"), Some(true));
    assert_eq!(parse_mute_output("  Mute:   no"), Some(false));
    assert_eq!(parse_mute_output("Mute:maybe"), None);
    assert_eq!(parse_mute_output("nothing"), None);
}

#[test]
fn pulse_backend_tracks_availability() {
    let mut backend = PulseAudioBackend::new("@DEFAULT_SINK@".to_string(), true);
    assert!(backend.is_available());
    assert_eq!(backend.sink_arg(), "@DEFAULT_SINK@");
    assert!(backend.mark_unavailable());
    assert!(!backend.is_available());
    assert!(!backend.mark_unavailable());
}
