use streamdeck_ctrl::system::audio_switch::{parse_default_sink, parse_sink_inputs, parse_sinks,
    select_sink, SinkInfo, SinkSelector};

#[test]
fn parses_multiple_sinks() {
    let output = r#"
Sink #1
    State: RUNNING
    Name: alsa_output.pci-0000_09_00.3.hdmi-stereo-extra2
    Description: HDMI/DisplayPort 3 (HDA NVidia Digital Stereo (HDMI))
    Properties:
        device.description = "HDMI/DisplayPort - HDA NVidia"

Sink #2
    State: IDLE
    Name: alsa_output.usb-SteelSeries_Arctis_Pro-00.analog-stereo
    Properties:
        device.description = "Digital Output (SteelSeries Arctis Pro)"
"#;

    let sinks = parse_sinks(output);
    assert_eq!(sinks.len(), 2);
    assert_eq!(sinks[0].id, Some(1));
    assert_eq!(
        sinks[0].name,
        "alsa_output.pci-0000_09_00.3.hdmi-stereo-extra2"
    );
    assert_eq!(
        sinks[0].description.as_deref(),
        Some("HDMI/DisplayPort - HDA NVidia")
    );
    assert_eq!(sinks[1].id, Some(2));
    assert_eq!(
        sinks[1].description.as_deref(),
        Some("Digital Output (SteelSeries Arctis Pro)")
    );
}

#[test]
fn parses_default_sink() {
    let output = r#"
Server String: /run/user/1000/pulse/native
Default Sink: alsa_output.usb-SteelSeries_Arctis_Pro-00.analog-stereo
Default Source: alsa_input.usb-SteelSeries_Arctis_Pro-00.mono-fallback
"#;
    let default = parse_default_sink(output);
    assert_eq!(
        default,
        Some("alsa_output.usb-SteelSeries_Arctis_Pro-00.analog-stereo".to_string())
    );
}

#[test]
fn selects_by_description_substring() {
    let sinks = vec![
        SinkInfo {
            id: Some(1),
            name: "sink_a".into(),
            description: Some("First Sink".into()),
        },
        SinkInfo {
            id: Some(2),
            name: "sink_b".into(),
            description: Some("Second Device".into()),
        },
    ];

    let selector = SinkSelector::by_description("second".to_string());
    let selected = select_sink(&sinks, &selector).unwrap();
    assert_eq!(selected.name, "sink_b");
}

#[test]
fn parse_sink_inputs_extracts_ids() {
    let output = r#"
36  123 sink_b  protocol-native.c  s16le 2ch 44100Hz
37  321 sink_a  protocol-native.c  s16le 2ch 44100Hz
"#;
    let inputs = parse_sink_inputs(output);
    assert_eq!(inputs, vec!["36".to_string(), "37".to_string()]);
}

#[test]
fn selects_by_id() {
    let sinks = vec![
        SinkInfo {
            id: Some(11),
            name: "sink_a".into(),
            description: Some("First Sink".into()),
        },
        SinkInfo {
            id: Some(12),
            name: "sink_b".into(),
            description: Some("Second Device".into()),
        },
    ];

    let selector = SinkSelector::by_id(12);
    let selected = select_sink(&sinks, &selector).unwrap();
    assert_eq!(selected.name, "sink_b");
}

#[test]
fn selector_matches_name_case_insensitively() {
    let sink = SinkInfo {
        id: None,
        name: "ALSA_Output.HDMI".into(),
        description: Some("Living Room TV".into()),
    };
    assert!(SinkSelector::by_name("alsa_output.hdmi".to_string()).matches(&sink));
    assert!(SinkSelector::by_name("room tv".to_string()).matches(&sink));
    assert!(!SinkSelector::by_name("headset".to_string()).matches(&sink));
    assert_eq!(SinkSelector::by_id(3).describe(), "specified sink id");
}

#[test]
fn select_sink_reports_no_match() {
    let sinks = vec![SinkInfo { id: Some(1), name: "only".into(), description: None }];
    let selector = SinkSelector::by_id(9);
    assert!(select_sink(&sinks, &selector).is_err());
}
