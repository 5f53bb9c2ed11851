use std::cell::RefCell;
use std::rc::Rc;

use streamdeck_ctrl::controls::audio_toggle::{normalize_id, tinted_variant,
    AudioOutputConfig, AudioToggleController, OutputEntry, OutputIcons, OutputProfile,
    OutputState, SwitchOutcome, SWITCH_BACKOFF_SECS};
use streamdeck_ctrl::hardware::model::{ButtonImage, DisplayPipeline, EncoderDisplay, EncoderId,
    PipelineError, SharedPixels};
use streamdeck_ctrl::system::audio_switch::{AudioSwitchBackend, SinkInfo, SinkSelector};
use streamdeck_ctrl::system::BackendError;

struct RecordingHardware {
    inner: RefCell<Vec<(u8, Option<String>)>>,
}

impl RecordingHardware {
    fn new() -> Self {
        Self { inner: RefCell::new(Vec::new()) }
    }
}

impl DisplayPipeline for &RecordingHardware {
    fn update_encoder(&self, _encoder: EncoderId, _display: EncoderDisplay) -> Result<
        (),
        PipelineError,
    > {
        Ok(())
    }

    fn update_button_icon(&self, index: u8, icon: Option<ButtonImage>) -> Result<
        (),
        PipelineError,
    > {
        let id = icon.map(|value| value.id);
        self.inner.borrow_mut().push((index, id));
        Ok(())
    }
}

struct FakeState {
    current: Option<SinkInfo>,
    set_calls: usize,
    fail: bool,
}

#[derive(Clone)]
struct FakeBackend {
    sinks: Vec<SinkInfo>,
    state: Rc<RefCell<FakeState>>,
}

impl FakeBackend {
    fn new(sinks: Vec<SinkInfo>, current: Option<SinkInfo>) -> Self {
        Self {
            sinks,
            state: Rc::new(RefCell::new(FakeState { current, set_calls: 0, fail: false })),
        }
    }
}

impl AudioSwitchBackend for FakeBackend {
    fn set_default_sink(&self, selector: &SinkSelector) -> Result<SinkInfo, BackendError> {
        let mut state = self.state.borrow_mut();
        state.set_calls += 1;
        if state.fail {
            return Err(BackendError { message: "switch tool exited nonzero".into() });
        }
        let sink = self
            .sinks
            .iter()
            .find(|sink| selector.matches(sink))
            .cloned()
            .ok_or(BackendError { message: "no sink matches selector".into() })?;
        state.current = Some(sink.clone());
        Ok(sink)
    }

    fn current_default_sink(&self) -> Result<Option<SinkInfo>, BackendError> {
        Ok(self.state.borrow().current.clone())
    }

    fn list_sinks(&self) -> Result<Vec<SinkInfo>, BackendError> {
        Ok(self.sinks.clone())
    }
}

fn pixels() -> SharedPixels {
    SharedPixels::from_rgba(1, 1, vec![0, 0, 0, 255]).expect("one pixel")
}

fn profile(selector: SinkSelector, label: &str, button_index: u8, position: u8) -> OutputEntry {
    let base = ButtonImage { id: label.to_string(), image: pixels(), tint: None };
    let base_id = normalize_id(&base.id);
    let icons = OutputIcons {
        available_selected: tinted_variant(&base, button_index, position, &base_id, "active", [
            0, 200, 150,
        ]),
        available_inactive: tinted_variant(
            &base,
            button_index,
            position,
            &base_id,
            "available",
            [120, 185, 255],
        ),
        unavailable_selected: tinted_variant(
            &base,
            button_index,
            position,
            &base_id,
            "unavailable-active",
            [230, 170, 90],
        ),
        unavailable_inactive: tinted_variant(
            &base,
            button_index,
            position,
            &base_id,
            "unavailable",
            [110, 110, 125],
        ),
    };
    OutputEntry {
        profile: OutputProfile { selector, icons, label: label.to_string(), button_index },
        state: OutputState { available: false, active: false },
    }
}

fn sink(id: u32, name: &str, description: &str) -> SinkInfo {
    SinkInfo { id: Some(id), name: name.into(), description: Some(description.into()) }
}

#[test]
fn controller_initialises_with_current_sink() {
    let backend = FakeBackend::new(
        vec![
            sink(1, "sink_a", "HDMI/DisplayPort - HDA NVidia"),
            sink(2, "sink_b", "Digital Output - A50"),
        ],
        Some(sink(2, "sink_b", "Digital Output - A50")),
    );
    let hardware = RecordingHardware::new();
    let outputs = vec![
        profile(SinkSelector::by_id(1), "HDMI/DisplayPort - HDA NVidia", 2, 0),
        profile(SinkSelector::by_id(2), "Digital Output - A50", 2, 1),
    ];
    let controller = AudioToggleController::new(backend, &hardware, outputs).unwrap();
    assert!(controller.outputs[0].state.available);
    assert!(controller.outputs[1].state.active);
}

#[test]
fn toggles_between_outputs() {
    let backend = FakeBackend::new(
        vec![
            sink(1, "sink_monitor", "HDMI/DisplayPort - HDA NVidia"),
            sink(2, "sink_headset", "Digital Output - A50"),
        ],
        Some(sink(1, "sink_monitor", "HDMI/DisplayPort - HDA NVidia")),
    );
    let hardware = RecordingHardware::new();
    let outputs = vec![
        profile(SinkSelector::by_id(1), "HDMI/DisplayPort - HDA NVidia", 2, 0),
        profile(SinkSelector::by_id(2), "Digital Output - A50", 2, 1),
    ];
    let mut controller = AudioToggleController::new(backend, &hardware, outputs).unwrap();
    assert!(controller.outputs[0].state.active);
    assert!(controller.on_button_pressed(2).unwrap().handled());
    assert!(controller.outputs[1].state.active);
    let updates = hardware.inner.borrow();
    assert!(!updates.is_empty());
    assert_eq!(updates.last().unwrap().0, 2);
}

#[test]
fn selects_individual_buttons() {
    let backend = FakeBackend::new(
        vec![
            sink(1, "sink_monitor", "Monitor"),
            sink(2, "sink_headset", "Headset"),
            sink(3, "sink_earbuds", "Earbuds"),
        ],
        Some(sink(1, "sink_monitor", "Monitor")),
    );
    let hardware = RecordingHardware::new();
    let outputs = vec![
        profile(SinkSelector::by_name("sink_monitor".to_string()), "Monitor", 0, 0),
        profile(SinkSelector::by_name("sink_headset".to_string()), "Headset", 1, 1),
        profile(SinkSelector::by_name("sink_earbuds".to_string()), "Earbuds", 2, 2),
    ];
    let mut controller = AudioToggleController::new(backend, &hardware, outputs).unwrap();

    assert!(controller.outputs[0].state.active);
    assert!(controller.outputs[1].state.available);
    assert!(controller.outputs[2].state.available);

    assert!(controller.on_button_pressed(2).unwrap().handled());
    assert!(controller.outputs[2].state.active);

    assert!(controller.on_button_pressed(1).unwrap().handled());
    assert!(controller.outputs[1].state.active);
}

#[test]
fn failed_switch_backs_off_then_retries_once() {
    let backend = FakeBackend::new(
        vec![sink(1, "sink_a", "First"), sink(2, "sink_b", "Second")],
        Some(sink(1, "sink_a", "First")),
    );
    backend.state.borrow_mut().fail = true;
    let hardware = RecordingHardware::new();
    let outputs = vec![
        profile(SinkSelector::by_id(1), "First", 0, 0),
        profile(SinkSelector::by_id(2), "Second", 0, 1),
    ];
    let mut controller =
        AudioToggleController::new(backend.clone(), &hardware, outputs).unwrap();

    let start = 1_000;
    assert_eq!(
        controller.on_button_pressed_at(0, start).unwrap(),
        SwitchOutcome::Failed
    );
    assert_eq!(backend.state.borrow().set_calls, 1);

    // Presses inside the backoff window never reach the tool.
    assert_eq!(
        controller.on_button_pressed_at(0, start + 1).unwrap(),
        SwitchOutcome::Deferred
    );
    assert_eq!(
        controller
            .on_button_pressed_at(0, start + SWITCH_BACKOFF_SECS - 1)
            .unwrap(),
        SwitchOutcome::Deferred
    );
    assert_eq!(backend.state.borrow().set_calls, 1);

    // Once the deadline passes, exactly one retry is attempted.
    assert_eq!(
        controller
            .on_button_pressed_at(0, start + SWITCH_BACKOFF_SECS)
            .unwrap(),
        SwitchOutcome::Failed
    );
    assert_eq!(backend.state.borrow().set_calls, 2);

    // A press aimed at no configured button is not handled.
    assert!(!controller
        .on_button_pressed_at(7, start + SWITCH_BACKOFF_SECS)
        .unwrap()
        .handled());
}

#[test]
fn normalize_id_slugs_identities() {
    assert_eq!(normalize_id("My Icon--Name"), "myicon-name");
    assert_eq!(normalize_id("***"), "icon");
    assert_eq!(
        normalize_id("abcdefghijklmnopqrstuvwxyz0123456789"),
        "abcdefghijklmnopqrstuvwxyz012345"
    );
}

#[test]
fn output_config_selector_and_label() {
    let by_id = AudioOutputConfig {
        button_index: None,
        id: Some(7),
        name: None,
        description: None,
        icon: None,
    };
    assert!(by_id.selector().is_ok());
    assert_eq!(by_id.label(), "sink #7");

    let nothing = AudioOutputConfig {
        button_index: None,
        id: None,
        name: None,
        description: None,
        icon: None,
    };
    assert!(nothing.selector().is_err());
    assert_eq!(nothing.label(), "unnamed sink");
}
