use std::cell::RefCell;
use std::rc::Rc;

use streamdeck_ctrl::controls::brightness::{ApplyPoll, BrightnessController};
use streamdeck_ctrl::controls::{EncoderController, Tickable};
use streamdeck_ctrl::hardware::model::{ButtonImage, DisplayPipeline, EncoderDisplay, EncoderId,
    PipelineError};
use streamdeck_ctrl::system::brightness::BrightnessBackend;
use streamdeck_ctrl::system::BackendError;

struct TestDisplay {
    updates: RefCell<Vec<EncoderDisplay>>,
}

impl TestDisplay {
    fn new() -> Self {
        Self { updates: RefCell::new(Vec::new()) }
    }
}

impl DisplayPipeline for &TestDisplay {
    fn update_encoder(&self, _encoder: EncoderId, display: EncoderDisplay) -> Result<
        (),
        PipelineError,
    > {
        self.updates.borrow_mut().push(display);
        Ok(())
    }

    fn update_button_icon(&self, _index: u8, _icon: Option<ButtonImage>) -> Result<
        (),
        PipelineError,
    > {
        Ok(())
    }
}

#[derive(Default)]
struct MockBrightnessState {
    level: u8,
    history: Vec<u8>,
}

#[derive(Clone)]
struct MockBrightnessBackend {
    inner: Rc<RefCell<MockBrightnessState>>,
}

impl MockBrightnessBackend {
    fn with_level(level: u8) -> Self {
        Self { inner: Rc::new(RefCell::new(MockBrightnessState { level, history: Vec::new() })) }
    }
}

impl BrightnessBackend for MockBrightnessBackend {
    fn get_brightness(&self) -> Result<u8, BackendError> {
        Ok(self.inner.borrow().level)
    }

    fn start_apply(&self, value: u8) -> crossbeam_channel::Receiver<Result<u8, BackendError>> {
        let (tx, rx) = crossbeam_channel::bounded(1);
        {
            let mut state = self.inner.borrow_mut();
            state.history.push(value);
            state.level = value;
        }
        let _ = tx.send(Ok(value));
        rx
    }

    fn is_available(&self) -> bool {
        true
    }
}

fn wait_for_apply(controller: &mut BrightnessController<MockBrightnessBackend, &TestDisplay>) {
    for _ in 0..3 {
        controller.on_tick().unwrap();
    }
}

#[test]
fn rotation_applies_step_changes() {
    let backend = MockBrightnessBackend::with_level(60);
    let display = TestDisplay::new();
    let mut controller = BrightnessController::new(
        backend.clone(),
        &display,
        EncoderId::Two,
        5,
        10,
        100,
        15,
    )
    .expect("init");

    controller.on_turn(-1).expect("turn");
    let updates = display.updates.borrow();
    assert!(!updates.is_empty());
}

#[test]
fn rotation_defers_backend_updates_until_press() {
    let backend = MockBrightnessBackend::with_level(60);
    let display = TestDisplay::new();
    let mut controller = BrightnessController::new(
        backend.clone(),
        &display,
        EncoderId::Two,
        5,
        10,
        100,
        15,
    )
    .expect("init");

    controller.on_turn(-2).expect("preview turn");
    {
        let state = backend.inner.borrow();
        assert!(state.history.is_empty());
        assert_eq!(state.level, 60);
    }

    {
        let updates = display.updates.borrow();
        let last = updates.last().expect("display updated");
        assert_eq!(last.value, " 50%");
        assert!(matches!(last.status.as_deref(), Some("pending")));
    }

    controller.on_press().expect("commit press");
    wait_for_apply(&mut controller);
    {
        let state = backend.inner.borrow();
        assert_eq!(state.history, vec![50]);
        assert_eq!(state.level, 50);
    }

    // After one successful poll the worker's value is confirmed, the
    // preview flag is gone, and the status line clears.
    assert_eq!(controller.level, 50);
    assert!(!controller.pending_dirty);
    let updates = display.updates.borrow();
    let last = updates.last().unwrap();
    assert_eq!(last.value, " 50%");
    assert!(last.status.is_none());
}

#[test]
fn press_toggles_night_mode() {
    let backend = MockBrightnessBackend::with_level(50);
    let display = TestDisplay::new();
    let mut controller = BrightnessController::new(
        backend.clone(),
        &display,
        EncoderId::Two,
        5,
        10,
        100,
        15,
    )
    .expect("init");

    controller.on_press().expect("press");
    wait_for_apply(&mut controller);
    let updates = display.updates.borrow();
    let status = updates.last().unwrap().status.clone();
    assert!(matches!(status.as_deref(), Some("night")));
}

#[test]
fn commit_shows_applying_and_poll_outcomes_settle() {
    let backend = MockBrightnessBackend::with_level(60);
    let display = TestDisplay::new();
    let mut controller = BrightnessController::new(
        backend.clone(),
        &display,
        EncoderId::Two,
        5,
        10,
        100,
        15,
    )
    .expect("init");

    controller.on_turn(-2).expect("preview");
    controller.on_press().expect("commit");
    {
        let updates = display.updates.borrow();
        let last = updates.last().unwrap();
        assert_eq!(last.status.as_deref(), Some("apply"));
    }

    let before = (controller.level, controller.pending_level, controller.pending_dirty);
    controller.absorb_apply(ApplyPoll::Pending).unwrap();
    let after = (controller.level, controller.pending_level, controller.pending_dirty);
    assert_eq!(before, after);

    controller.absorb_apply(ApplyPoll::Done(47)).unwrap();
    assert_eq!(controller.level, 47);
    assert_eq!(controller.pending_level, 47);
    assert!(controller.apply_inflight.is_none());

    controller.absorb_apply(ApplyPoll::Failed).unwrap();
    assert_eq!(controller.level, 47);
}
