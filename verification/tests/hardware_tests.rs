use streamdeck_ctrl::hardware::channels::{drain_commands, HardwareHandle};
use streamdeck_ctrl::hardware::device::{headless_accept, select_device, DeviceCandidate,
    SelectError};
use streamdeck_ctrl::hardware::input::{DebounceState, InputReport};
use streamdeck_ctrl::hardware::model::{DisplayPipeline, EncoderDisplay, EncoderId,
    HardwareCommand, HardwareEvent, SharedPixels};
use streamdeck_ctrl::hardware::panel::PanelState;

#[test]
fn encoder_ids_are_stable_ordinals() {
    assert_eq!(EncoderId::from_index(0), Some(EncoderId::One));
    assert_eq!(EncoderId::from_index(3), Some(EncoderId::Four));
    assert_eq!(EncoderId::from_index(4), None);
    for (i, id) in EncoderId::all().into_iter().enumerate() {
        assert_eq!(id.index(), i);
    }
}

#[test]
fn rotation_reports_become_one_event_each() {
    let mut debounce = DebounceState::new(8);
    let events = debounce.translate(InputReport::EncoderTwists(vec![1, -3, 0, 2]));
    assert_eq!(
        events,
        vec![
            HardwareEvent::EncoderTurned { encoder: EncoderId::One, delta: 1 },
            HardwareEvent::EncoderTurned { encoder: EncoderId::Two, delta: -3 },
            HardwareEvent::EncoderTurned { encoder: EncoderId::Four, delta: 2 },
        ]
    );
    // A second identical report emits again: detents are never debounced.
    let again = debounce.translate(InputReport::EncoderTwists(vec![1, -3, 0, 2]));
    assert_eq!(again.len(), 3);
}

#[test]
fn press_then_release_emit_exactly_one_edge_each() {
    let mut debounce = DebounceState::new(4);

    let pressed = debounce.translate(InputReport::ButtonStates(vec![false, true, false, false]));
    assert_eq!(pressed, vec![HardwareEvent::ButtonPressed(1)]);

    let repeated = debounce.translate(InputReport::ButtonStates(vec![false, true, false, false]));
    assert_eq!(repeated, Vec::<HardwareEvent>::new());

    let released = debounce.translate(InputReport::ButtonStates(vec![false, false, false, false]));
    assert_eq!(released, vec![HardwareEvent::ButtonReleased(1)]);

    let encoder_press = debounce.translate(InputReport::EncoderStates(vec![true, false]));
    assert_eq!(
        encoder_press,
        vec![HardwareEvent::EncoderPressed { encoder: EncoderId::One }]
    );
    let still_pressed = debounce.translate(InputReport::EncoderStates(vec![true, false]));
    assert_eq!(still_pressed, Vec::<HardwareEvent>::new());
    let encoder_release = debounce.translate(InputReport::EncoderStates(vec![false, false]));
    assert_eq!(
        encoder_release,
        vec![HardwareEvent::EncoderReleased { encoder: EncoderId::One }]
    );
}

#[test]
fn no_data_reports_emit_nothing() {
    let mut debounce = DebounceState::new(4);
    assert!(debounce.translate(InputReport::NoData).is_empty());
    assert!(debounce.translate(InputReport::Other).is_empty());
}

fn display(value: &str) -> EncoderDisplay {
    EncoderDisplay::new("timer".to_string(), value.to_string())
}

#[test]
fn draining_nothing_or_identical_commands_never_rerenders() {
    let mut panel = PanelState::new(8);

    let plan = panel.apply_commands(Vec::new());
    assert!(!plan.displays_changed);
    assert!(plan.buttons_changed.is_empty());

    let plan = panel.apply_commands(vec![HardwareCommand::UpdateEncoderDisplay {
        encoder: EncoderId::One,
        display: display("01:00"),
    }]);
    assert!(plan.displays_changed);

    // The same display again changes nothing, so nothing is re-rendered.
    let plan = panel.apply_commands(vec![HardwareCommand::UpdateEncoderDisplay {
        encoder: EncoderId::One,
        display: display("01:00"),
    }]);
    assert!(!plan.displays_changed);

    let pixels = SharedPixels::from_rgba(1, 1, vec![1, 2, 3, 4]).unwrap();
    let icon = streamdeck_ctrl::hardware::model::ButtonImage {
        id: "icon-a".to_string(),
        image: pixels,
        tint: None,
    };
    let plan = panel.apply_commands(vec![HardwareCommand::UpdateButtonIcon {
        index: 3,
        icon: Some(icon.duplicate()),
    }]);
    assert_eq!(plan.buttons_changed, vec![3]);

    let plan = panel.apply_commands(vec![HardwareCommand::UpdateButtonIcon {
        index: 3,
        icon: Some(icon),
    }]);
    assert!(plan.buttons_changed.is_empty());
}

#[test]
fn out_of_range_icon_commands_are_dropped() {
    let mut panel = PanelState::new(2);
    let plan = panel.apply_commands(vec![HardwareCommand::UpdateButtonIcon {
        index: 9,
        icon: None,
    }]);
    assert!(!plan.displays_changed);
    assert!(plan.buttons_changed.is_empty());
}

#[test]
fn no_matching_device_means_headless_and_silent() {
    let devices: Vec<DeviceCandidate> = Vec::new();
    assert_eq!(select_device(&devices, &None), Err(SelectError::NoDevice));

    let devices = vec![DeviceCandidate { plus: false, serial: "X1".to_string() }];
    assert_eq!(select_device(&devices, &None), Err(SelectError::NoDevice));

    // Headless mode accepts any command and never produces an event.
    let events = headless_accept(HardwareCommand::UpdateEncoderDisplay {
        encoder: EncoderId::Two,
        display: display("00:10"),
    });
    assert!(events.is_empty());
}

#[test]
fn device_selection_prefers_first_match() {
    let devices = vec![
        DeviceCandidate { plus: false, serial: "A".to_string() },
        DeviceCandidate { plus: true, serial: "B".to_string() },
        DeviceCandidate { plus: true, serial: "C".to_string() },
    ];
    assert_eq!(select_device(&devices, &None), Ok(1));
    assert_eq!(select_device(&devices, &Some("C".to_string())), Ok(2));
    assert_eq!(
        select_device(&devices, &Some("missing".to_string())),
        Err(SelectError::SerialNotFound)
    );
}

#[test]
fn handle_forwards_commands_through_the_channel() {
    let (tx, rx) = crossbeam_channel::unbounded();
    let handle = HardwareHandle::new(tx);
    let copy = handle.duplicate();
    handle
        .update_encoder(EncoderId::Three, display("05:00"))
        .unwrap();
    copy.update_button_icon(2, None).unwrap();

    let (commands, closed) = drain_commands(&rx, 16);
    assert!(!closed);
    assert_eq!(commands.len(), 2);
    match &commands[0] {
        HardwareCommand::UpdateEncoderDisplay { encoder, display } => {
            assert_eq!(*encoder, EncoderId::Three);
            assert_eq!(display.value, "05:00");
        },
        _ => panic!("unexpected command"),
    }

    drop(handle);
    drop(copy);
    let (rest, closed) = drain_commands(&rx, 16);
    assert!(rest.is_empty());
    assert!(closed);
}

#[test]
fn shared_pixels_round_trip_dimensions_and_bytes() {
    let pixels = SharedPixels::from_rgba(2, 1, vec![1, 2, 3, 4, 5, 6, 7, 8]).unwrap();
    assert_eq!(pixels.dimensions(), (2, 1));
    assert_eq!(pixels.rgba_bytes(), vec![1, 2, 3, 4, 5, 6, 7, 8]);
    assert!(SharedPixels::from_rgba(2, 2, vec![0, 0]).is_none());
}
