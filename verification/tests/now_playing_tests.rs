use std::cell::RefCell;

use streamdeck_ctrl::controls::now_playing::{ellipsize, NowPlayingController, MAX_TITLE_CHARS};
use streamdeck_ctrl::controls::Tickable;
use streamdeck_ctrl::hardware::model::{ButtonImage, DisplayPipeline, EncoderDisplay, EncoderId,
    PipelineError};
use streamdeck_ctrl::system::now_playing::{NowPlayingBackend, PlaybackState, PlaybackStatus,
    PlayerctlBackend};
use streamdeck_ctrl::system::BackendError;

#[test]
fn playback_status_parses_known_states() {
    assert_eq!(
        PlaybackStatus::from_status_string("Playing"),
        Some(PlaybackStatus::Playing)
    );
    assert_eq!(
        PlaybackStatus::from_status_string("paused"),
        Some(PlaybackStatus::Paused)
    );
    assert_eq!(
        PlaybackStatus::from_status_string("STOPPED"),
        Some(PlaybackStatus::Stopped)
    );
    assert_eq!(PlaybackStatus::from_status_string("unknown"), None);
}

#[test]
fn parse_metadata_extracts_fields() {
    let backend = PlayerctlBackend::new("spotify".to_string(), true);
    let state = backend
        .parse_metadata("Playing\u{1F}Song Name\u{1F}Artist Name")
        .expect("metadata parsed");

    assert_eq!(state.status, PlaybackStatus::Playing);
    assert_eq!(state.title.as_deref(), Some("Song Name"));
    assert_eq!(state.artist.as_deref(), Some("Artist Name"));
}

#[test]
fn parse_metadata_handles_missing_fields() {
    let backend = PlayerctlBackend::new("spotify".to_string(), true);
    let state = backend
        .parse_metadata("Paused\u{1F}\u{1F}")
        .expect("metadata parsed");

    assert_eq!(state.status, PlaybackStatus::Paused);
    assert!(state.title.is_none());
    assert!(state.artist.is_none());
}

#[test]
fn parse_metadata_joins_artists_with_commas() {
    let backend = PlayerctlBackend::new("spotify".to_string(), true);
    let state = backend
        .parse_metadata("Playing\u{1F}Duet\u{1F}First;Second")
        .expect("metadata parsed");
    assert_eq!(state.artist.as_deref(), Some("First, Second"));
}

struct RecordingDisplay {
    inner: RefCell<Vec<(EncoderId, EncoderDisplay)>>,
}

impl RecordingDisplay {
    fn new() -> Self {
        Self { inner: RefCell::new(Vec::new()) }
    }
}

impl DisplayPipeline for &RecordingDisplay {
    fn update_encoder(&self, encoder: EncoderId, display: EncoderDisplay) -> Result<
        (),
        PipelineError,
    > {
        self.inner.borrow_mut().push((encoder, display));
        Ok(())
    }

    fn update_button_icon(&self, _index: u8, _icon: Option<ButtonImage>) -> Result<
        (),
        PipelineError,
    > {
        Ok(())
    }
}

struct MockBackend {
    states: Vec<PlaybackState>,
    index: usize,
}

impl MockBackend {
    fn new(states: Vec<PlaybackState>) -> Self {
        Self { states, index: 0 }
    }
}

impl NowPlayingBackend for MockBackend {
    fn now_playing(&mut self) -> Result<PlaybackState, BackendError> {
        Ok(match self.states.get(self.index) {
            Some(state) => state.duplicate(),
            None => PlaybackState::stopped(),
        })
    }

    fn next(&mut self) -> Result<(), BackendError> {
        Ok(())
    }

    fn previous(&mut self) -> Result<(), BackendError> {
        Ok(())
    }
}

#[test]
fn initial_refresh_pushes_display() {
    let backend = MockBackend::new(vec![PlaybackState {
        status: PlaybackStatus::Playing,
        title: Some("Track A".into()),
        artist: Some("Artist A".into()),
    }]);

    let display = RecordingDisplay::new();
    let _controller =
        NowPlayingController::new(backend, &display, EncoderId::Four).expect("init");

    let events = display.inner.borrow();
    assert_eq!(events.len(), 1);
    let (_, event) = &events[0];
    assert!(event.value.starts_with("Track A"));
    assert_eq!(event.status.as_deref(), Some("Artist A"));
}

#[test]
fn unavailable_shows_playerctl_missing() {
    let backend = MockBackend::new(vec![PlaybackState::unavailable()]);
    let display = RecordingDisplay::new();
    let _controller =
        NowPlayingController::new(backend, &display, EncoderId::Four).expect("init");

    let events = display.inner.borrow();
    assert_eq!(events.len(), 1);
    let (_, event) = &events[0];
    assert_eq!(event.value, "playerctl missing");
    assert!(event.status.is_none());
}

#[test]
fn long_titles_scroll_across_display() {
    let backend = MockBackend::new(vec![PlaybackState {
        status: PlaybackStatus::Playing,
        title: Some("An Incredibly Long Song Title That Keeps Going".into()),
        artist: None,
    }]);

    let display = RecordingDisplay::new();
    let mut controller =
        NowPlayingController::new(backend, &display, EncoderId::Four).expect("init");

    {
        let events = display.inner.borrow();
        assert_eq!(events.len(), 1);
        let (_, event) = &events[0];
        assert_eq!(event.value.chars().count(), MAX_TITLE_CHARS);
    }

    controller.on_tick().unwrap();

    {
        let events = display.inner.borrow();
        assert_eq!(events.len(), 2);
        let first = &events[0].1.value;
        let second = &events[1].1.value;
        assert_ne!(first, second);
        assert_eq!(second.chars().count(), MAX_TITLE_CHARS);
    }
}

#[test]
fn short_titles_scroll_as_marquee() {
    let backend = MockBackend::new(vec![PlaybackState {
        status: PlaybackStatus::Playing,
        title: Some("Short Title".into()),
        artist: None,
    }]);

    let display = RecordingDisplay::new();
    let mut controller =
        NowPlayingController::new(backend, &display, EncoderId::Four).expect("init");

    controller.on_tick().unwrap();
    controller.on_tick().unwrap();

    let events = display.inner.borrow();
    assert!(events.len() >= 3);
    let first = &events[0].1.value;
    let second = &events[1].1.value;
    let third = &events[2].1.value;
    assert_ne!(first, second);
    assert_ne!(second, third);
}

#[test]
fn ellipsize_cuts_long_text() {
    assert_eq!(ellipsize("short", 10), "short");
    assert_eq!(ellipsize("exactly-ten", 11), "exactly-ten");
    assert_eq!(ellipsize("a very long sentence", 8), "a very \u{2026}");
    assert_eq!(ellipsize("ab", 1), "\u{2026}");
    assert_eq!(ellipsize("anything", 0), "");
}
