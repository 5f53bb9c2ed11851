use std::cell::RefCell;

use streamdeck_ctrl::controls::timer::{progress_alert_color, TimerController,
    TimerDisplayState};
use streamdeck_ctrl::controls::{EncoderController, Tickable};
use streamdeck_ctrl::hardware::model::{ButtonImage, DisplayPipeline, EncoderDisplay, EncoderId,
    PipelineError};

struct TestDisplay {
    updates: RefCell<Vec<EncoderDisplay>>,
}

impl TestDisplay {
    fn new() -> Self {
        Self { updates: RefCell::new(Vec::new()) }
    }
}

impl DisplayPipeline for &TestDisplay {
    fn update_encoder(&self, _encoder: EncoderId, display: EncoderDisplay) -> Result<
        (),
        PipelineError,
    > {
        self.updates.borrow_mut().push(display);
        Ok(())
    }

    fn update_button_icon(&self, _index: u8, _icon: Option<ButtonImage>) -> Result<
        (),
        PipelineError,
    > {
        Ok(())
    }
}

#[test]
fn rotation_adjusts_configuration() {
    let display = TestDisplay::new();
    let mut controller =
        TimerController::new(&display, EncoderId::Three, 60, 60, 3600, 120).unwrap();

    controller.on_turn(1).unwrap();
    let updates = display.updates.borrow();
    let last = updates.last().unwrap();
    assert_eq!(last.value, "03:00");
    assert_eq!(last.status.as_deref(), Some("set"));
}

#[test]
fn press_starts_and_counts_down() {
    let display = TestDisplay::new();
    let mut controller =
        TimerController::new(&display, EncoderId::Three, 10, 10, 600, 100).unwrap();

    controller.on_press().unwrap();
    controller.on_tick().unwrap();
    controller.on_tick().unwrap();

    {
        let updates = display.updates.borrow();
        assert!(updates.iter().any(|d| d.status.as_deref() == Some("run")));
    }

    let before = controller.remaining;
    controller.on_turn(1).unwrap();
    assert_eq!(controller.remaining, before);
}

#[test]
fn pressing_while_running_resets_without_restarting() {
    let display = TestDisplay::new();
    let mut controller =
        TimerController::new(&display, EncoderId::Three, 60, 60, 3600, 120).unwrap();

    controller.on_press().unwrap();
    controller.on_tick().unwrap();
    assert!(controller.remaining < controller.configured);

    controller.on_press().unwrap();
    assert_eq!(controller.remaining, controller.configured);
    assert!(matches!(controller.state, TimerDisplayState::Setting));

    let updates = display.updates.borrow();
    let last = updates.last().unwrap();
    assert_eq!(last.value, "02:00");
    assert_eq!(last.status.as_deref(), Some("set"));
}

#[test]
fn progress_bar_turns_blue_under_ten_percent() {
    let display = TestDisplay::new();
    let mut controller =
        TimerController::new(&display, EncoderId::Three, 5, 5, 600, 100).unwrap();

    controller.on_press().unwrap();
    for _ in 0..90 {
        controller.on_tick().unwrap();
    }

    let updates = display.updates.borrow();
    let blue = updates
        .iter()
        .rev()
        .find(|d| d.progress_color.is_some())
        .expect("blue update present");

    assert_eq!(blue.status.as_deref(), Some("run"));
    assert!(blue
        .progress
        .map(|p| (p as f32 / 1000.0 - 0.1).abs() < f32::EPSILON)
        .unwrap_or(false));
    assert_eq!(blue.progress_color, Some(progress_alert_color()));
}

#[test]
fn pressing_after_finish_resets_without_restarting() {
    let display = TestDisplay::new();
    let mut controller =
        TimerController::new(&display, EncoderId::Three, 1, 1, 600, 3).unwrap();

    controller.on_press().unwrap();
    for _ in 0..3 {
        controller.on_tick().unwrap();
    }
    assert!(matches!(controller.state, TimerDisplayState::Finished));

    controller.on_press().unwrap();
    assert!(matches!(controller.state, TimerDisplayState::Setting));
    assert_eq!(controller.remaining, controller.configured);

    let updates = display.updates.borrow();
    let last = updates.last().unwrap();
    assert_eq!(last.status.as_deref(), Some("set"));
}

#[test]
fn format_duration_pads_minutes_and_seconds() {
    assert_eq!(streamdeck_ctrl::util::format_duration(0), "00:00");
    assert_eq!(streamdeck_ctrl::util::format_duration(61), "01:01");
    assert_eq!(streamdeck_ctrl::util::format_duration(3600), "60:00");
    assert_eq!(streamdeck_ctrl::util::format_duration(7265), "121:05");
}
