//! The now-playing display on one encoder: shows title and artist,
//! scrolls long titles as a marquee, and skips tracks on turns.

use vstd::prelude::*;
use vstd::string::StringExecFns;

use crate::controls::{ControlError, Tickable};
use crate::hardware::model::{DisplayPipeline, EncoderDisplay, EncoderId};
use crate::system::now_playing::{NowPlayingBackend, PlaybackState, PlaybackStatus, PlayView};
use crate::text;

verus! {

/// Characters the display region fits.
pub const MAX_TITLE_CHARS: usize = 22;

/// Blank columns between the end of a scrolled title and its repeat.
pub const MARQUEE_GAP: usize = 6;

/// Characters the marquee moves per advance.
pub const MARQUEE_STEP: usize = 2;

/// A scrolled rendering of one title: the looped character buffer, the
/// window shown, and the current scroll offset.
pub struct Marquee {
    pub chars: Vec<char>,
    pub window: usize,
    pub offset: usize,
}

/// The title a playing or paused state scrolls: its own, or the
/// placeholder text when it is absent or empty.
pub open spec fn spec_effective_title(st: PlayView) -> Seq<char> {
    match st.title {
        Some(t) => if t.len() == 0 {
            "No title"@
        } else {
            t
        },
        None => "No title"@,
    }
}

/// The looped buffer a title scrolls through: short titles repeat after
/// the gap, long ones get only the gap appended.
pub open spec fn spec_marquee_buffer(title: Seq<char>, window: nat) -> Seq<char> {
    let gap = Seq::new(MARQUEE_GAP as nat, |i: int| ' ');
    if title.len() <= window {
        title + gap + title
    } else {
        title + gap
    }
}

impl Marquee {
    pub open spec fn wf(self) -> bool {
        self.window >= 1 && self.chars@.len() >= 1 && self.offset < self.chars@.len()
    }

    /// The window of characters shown at the current offset, wrapping
    /// around the buffer.
    pub open spec fn spec_window(self) -> Seq<char> {
        Seq::new(self.window as nat, |i: int| self.chars@[(self.offset + i) % (
        self.chars@.len() as int)])
    }

    /// A marquee for a playing or paused title (scrolling the
    /// placeholder text where the title is absent or empty); stopped and
    /// unavailable states do not scroll.
    pub fn from_state(state: &PlaybackState, window: usize) -> (r: Option<Marquee>)
        ensures
            match state@.status {
                PlaybackStatus::Playing | PlaybackStatus::Paused => match r {
                    Some(m) => m.wf() && m.window == window && m.offset == 0 && m.chars@
                        == spec_marquee_buffer(spec_effective_title(state@), window as nat),
                    None => window == 0,
                },
                _ => r is None,
            },
    {
        match state.status {
            PlaybackStatus::Playing | PlaybackStatus::Paused => {
                proof {
                    reveal_strlit("No title");
                }
                let title: Vec<char> = match &state.title {
                    Option::Some(t) => {
                        let chars = text::chars_of(t.as_str());
                        if chars.len() == 0 {
                            text::chars_of("No title")
                        } else {
                            chars
                        }
                    },
                    Option::None => text::chars_of("No title"),
                };
                proof {
                    assert(title@ == spec_effective_title(state@));
                    assert("No title"@.len() == 8);
                }
                Marquee::new(title, window)
            },
            _ => None,
        }
    }

    /// A marquee over the looped buffer for `title`, or nothing for an
    /// empty title or window.
    pub fn new(title: Vec<char>, window: usize) -> (r: Option<Marquee>)
        ensures
            match r {
                Some(m) => title@.len() > 0 && window >= 1 && m.wf() && m.window == window
                    && m.offset == 0 && m.chars@ == spec_marquee_buffer(title@, window as nat),
                None => window == 0 || title@.len() == 0,
            },
    {
        if window == 0 {
            return None;
        }
        if title.len() == 0 {
            return None;
        }
        let mut buffer = title;
        let ghost t = buffer@;
        let title_len = buffer.len();
        let short = buffer.len() <= window;
        let mut g: usize = 0;
        while g < MARQUEE_GAP
            invariant
                g <= MARQUEE_GAP,
                buffer@ == t + Seq::new(g as nat, |i: int| ' '),
            decreases MARQUEE_GAP - g,
        {
            buffer.push(' ');
            g = g + 1;
            proof {
                assert(buffer@ =~= t + Seq::new(g as nat, |i: int| ' '));
            }
        }
        if short {
            let mut k: usize = 0;
            let ghost base = buffer@;
            while k < title_len
                invariant
                    title_len == t.len(),
                    k <= t.len(),
                    buffer@ == base + t.take(k as int),
                    base == t + Seq::new(MARQUEE_GAP as nat, |i: int| ' '),
                decreases t.len() - k,
            {
                proof {
                    assert(base[k as int] == t[k as int]);
                }
                let c = buffer[k];
                buffer.push(c);
                proof {
                    assert(buffer@ =~= base + t.take(k as int + 1));
                }
                k = k + 1;
            }
            proof {
                assert(t.take(t.len() as int) =~= t);
                assert(buffer@ =~= spec_marquee_buffer(t, window as nat));
            }
        } else {
            proof {
                assert(buffer@ =~= spec_marquee_buffer(t, window as nat));
            }
        }
        Some(Marquee { chars: buffer, window, offset: 0 })
    }

    /// The window at the current offset, first moved two characters on
    /// when asked to advance.
    pub fn render(&mut self, advance: bool) -> (r: String)
        requires
            old(self).wf(),
        ensures
            final(self).wf(),
            final(self).chars == old(self).chars,
            final(self).window == old(self).window,
            advance ==> final(self).offset == (old(self).offset + MARQUEE_STEP) % (old(
                self,
            ).chars@.len() as int),
            !advance ==> final(self).offset == old(self).offset,
            r@ == final(self).spec_window(),
    {
        let len = self.chars.len();
        if advance {
            self.offset = mod_add(self.offset, MARQUEE_STEP, len);
        }
        let mut value: Vec<char> = Vec::new();
        let mut step: usize = 0;
        while step < self.window
            invariant
                self.wf(),
                len == self.chars@.len(),
                step <= self.window,
                value@ == self.spec_window().take(step as int),
            decreases self.window - step,
        {
            let idx = mod_add(self.offset, step, len);
            value.push(self.chars[idx]);
            step = step + 1;
            proof {
                assert(value@ =~= self.spec_window().take(step as int));
            }
        }
        proof {
            assert(self.spec_window().take(self.window as int) =~= self.spec_window());
        }
        text::string_of(&value)
    }
}

/// `(offset + add) % len`, computed without overflowing.
fn mod_add(offset: usize, add: usize, len: usize) -> (r: usize)
    requires
        len >= 1,
        offset < len,
    ensures
        r == (offset + add) % (len as int),
        r < len,
{
    let a = add % len;
    proof {
        vstd::arithmetic::div_mod::lemma_add_mod_noop(offset as int, add as int, len as int);
        vstd::arithmetic::div_mod::lemma_small_mod(offset as nat, len as nat);
    }
    if offset >= len - a {
        let r = offset - (len - a);
        proof {
            vstd::arithmetic::div_mod::lemma_mod_add_multiples_vanish(
                offset + a - len,
                len as int,
            );
            vstd::arithmetic::div_mod::lemma_small_mod((offset + a - len) as nat, len as nat);
            assert((offset + a) % (len as int) == (offset + a - len) % (len as int));
        }
        r
    } else {
        let r = offset + a;
        proof {
            vstd::arithmetic::div_mod::lemma_small_mod((offset + a) as nat, len as nat);
        }
        r
    }
}

/// `input` unchanged when it fits, else cut to `max_chars` with a
/// trailing ellipsis (or just the ellipsis at width one).
pub open spec fn spec_ellipsized(input: Seq<char>, max_chars: nat) -> Seq<char> {
    if max_chars == 0 {
        Seq::empty()
    } else if input.len() <= max_chars {
        input
    } else if max_chars == 1 {
        seq!['\u{2026}']
    } else {
        input.take(max_chars - 1) + seq!['\u{2026}']
    }
}

pub fn ellipsize(input: &str, max_chars: usize) -> (r: String)
    ensures
        r@ == spec_ellipsized(input@, max_chars as nat),
{
    let chars = text::chars_of(input);
    if max_chars == 0 {
        return String::new();
    }
    if chars.len() <= max_chars {
        return text::string_of(&chars);
    }
    if max_chars == 1 {
        let mut one: Vec<char> = Vec::new();
        one.push('\u{2026}');
        proof {
            assert(one@ =~= seq!['\u{2026}']);
        }
        return text::string_of(&one);
    }
    let mut cut = text::slice_range(&chars, 0, max_chars - 1);
    cut.push('\u{2026}');
    proof {
        assert(cut@ =~= input@.take(max_chars - 1) + seq!['\u{2026}']);
    }
    text::string_of(&cut)
}

/// The now-playing controller for one encoder.
pub struct NowPlayingController<B: NowPlayingBackend, D: DisplayPipeline> {
    pub backend: B,
    pub display: D,
    pub encoder: EncoderId,
    pub last_state: Option<PlaybackState>,
    pub marquee: Option<Marquee>,
}

/// The playback view a stored state holds.
pub open spec fn last_view(o: Option<PlaybackState>) -> Option<PlayView> {
    match o {
        Some(s) => Some(s@),
        None => None,
    }
}

/// The marquee a freshly absorbed state carries: scrolling the
/// effective title from offset zero while playing or paused, nothing
/// otherwise.
pub open spec fn marquee_fresh(m: Option<Marquee>, st: PlayView) -> bool {
    match st.status {
        PlaybackStatus::Playing | PlaybackStatus::Paused => match m {
            Some(mq) => mq.wf() && mq.offset == 0 && mq.window == MAX_TITLE_CHARS && mq.chars@
                == spec_marquee_buffer(spec_effective_title(st), MAX_TITLE_CHARS as nat),
            None => false,
        },
        _ => m is None,
    }
}

/// How one absorbed reading relates the stored state before and after:
/// an unchanged reading keeps the stored state and only scrolls the
/// marquee (by one step when asked); a changed reading is stored and
/// restarts the marquee.
pub open spec fn spec_absorbed<B: NowPlayingBackend, D: DisplayPipeline>(
    pre: NowPlayingController<B, D>,
    post: NowPlayingController<B, D>,
    st: PlayView,
    advance: bool,
) -> bool {
    post.encoder == pre.encoder && post.display == pre.display && (if last_view(pre.last_state)
        == Some(st) {
        post.last_state == pre.last_state && (match (pre.marquee, post.marquee) {
            (Some(a), Some(b)) => b.chars == a.chars && b.window == a.window && (if advance {
                b.offset == (a.offset + MARQUEE_STEP) % (a.chars@.len() as int)
            } else {
                b.offset == a.offset
            }),
            (None, None) => true,
            _ => false,
        })
    } else {
        last_view(post.last_state) == Some(st) && marquee_fresh(post.marquee, st)
    })
}

/// The base value line of a state: the title while playing or paused,
/// and fixed texts otherwise.
pub open spec fn spec_base_value(state: PlayView) -> Seq<char> {
    match state.status {
        PlaybackStatus::Playing | PlaybackStatus::Paused => match state.title {
            Some(t) => if t.len() == 0 {
                "No title"@
            } else {
                t
            },
            None => "No title"@,
        },
        PlaybackStatus::Stopped => "Not playing"@,
        PlaybackStatus::Unavailable => "playerctl missing"@,
    }
}

/// The status line of a state: the phase word, joined with the artist.
pub open spec fn spec_status_line(state: PlayView) -> Option<Seq<char>> {
    let phase: Option<Seq<char>> = match state.status {
        PlaybackStatus::Playing => None,
        PlaybackStatus::Paused => Some("paused"@),
        PlaybackStatus::Stopped => Some("stopped"@),
        PlaybackStatus::Unavailable => None,
    };
    match state.artist {
        Some(artist) => if artist.len() == 0 {
            phase
        } else {
            match phase {
                Some(p) => Some(p + " \u{b7} "@ + artist),
                None => Some(artist),
            }
        },
        None => phase,
    }
}

impl<B: NowPlayingBackend, D: DisplayPipeline> NowPlayingController<B, D> {
    pub open spec fn wf(self) -> bool {
        match self.marquee {
            Some(m) => m.wf(),
            None => true,
        }
    }

    /// A controller showing the backend's current state.
    pub fn new(backend: B, display: D, encoder: EncoderId) -> (r: Result<
        NowPlayingController<B, D>,
        ControlError,
    >)
        ensures
            match r {
                Ok(c) => c.wf() && c.encoder == encoder && (exists|st: PlayView|
                    last_view(c.last_state) == Some(st) && marquee_fresh(c.marquee, st)),
                Err(_) => true,
            },
    {
        let mut controller = NowPlayingController {
            backend,
            display,
            encoder,
            last_state: None,
            marquee: None,
        };
        match controller.refresh_display(false) {
            Ok(()) => Ok(controller),
            Err(e) => Err(e),
        }
    }

    /// Takes one playback reading as a plain value: an unchanged reading
    /// only scrolls the marquee (when asked); a changed one is stored,
    /// restarts the marquee, and is pushed; an unchanged reading with no
    /// marquee pushes nothing.
    pub fn absorb_state(&mut self, state: PlaybackState, advance_scroll: bool) -> (r: Result<
        (),
        ControlError,
    >)
        requires
            old(self).wf(),
        ensures
            final(self).wf(),
            final(self).backend == old(self).backend,
            spec_absorbed(*old(self), *final(self), state@, advance_scroll),
    {
        let state_changed = match &self.last_state {
            Option::Some(previous) => !previous.same_as(&state),
            Option::None => true,
        };
        if state_changed {
            self.marquee = Marquee::from_state(&state, MAX_TITLE_CHARS);
            self.last_state = Some(state.duplicate());
        }
        let has_marquee = self.marquee.is_some();
        if !state_changed && !has_marquee {
            return Ok(());
        }
        self.push_display(&state, advance_scroll && !state_changed)
    }

    /// Reads the backend and absorbs the reading as `absorb_state` says.
    fn refresh_display(&mut self, advance_scroll: bool) -> (r: Result<(), ControlError>)
        requires
            old(self).wf(),
        ensures
            final(self).wf(),
            final(self).encoder == old(self).encoder,
            final(self).display == old(self).display,
            (r matches Ok(_)) ==> exists|st: PlayView|
                spec_absorbed(*old(self), *final(self), st, advance_scroll),
            (r matches Err(_)) ==> (final(self).last_state == old(self).last_state
                && final(self).marquee == old(self).marquee) || (exists|st: PlayView|
                spec_absorbed(*old(self), *final(self), st, advance_scroll)),
    {
        let state = match self.backend.now_playing() {
            Ok(s) => s,
            Err(e) => {
                return Err(ControlError::Backend(e));
            },
        };
        let ghost st = state@;
        let absorbed = self.absorb_state(state, advance_scroll);
        proof {
            assert(spec_absorbed(*old(self), *self, st, advance_scroll));
        }
        absorbed
    }

    /// Pushes the display for `state`: the marquee window where one
    /// scrolls, else the ellipsized base value; the status line carries
    /// the phase and artist.
    fn push_display(&mut self, state: &PlaybackState, advance_marquee: bool) -> (r: Result<
        (),
        ControlError,
    >)
        requires
            old(self).wf(),
        ensures
            final(self).wf(),
            final(self).encoder == old(self).encoder,
            final(self).backend == old(self).backend,
            final(self).display == old(self).display,
            final(self).last_state == old(self).last_state,
            (match (old(self).marquee, final(self).marquee) {
                (Some(a), Some(b)) => b.chars == a.chars && b.window == a.window && (
                if advance_marquee {
                    b.offset == (a.offset + MARQUEE_STEP) % (a.chars@.len() as int)
                } else {
                    b.offset == a.offset
                }),
                (None, None) => true,
                _ => false,
            }),
    {
        let base_value = spec_base_value_exec(state);
        let value: String = match &mut self.marquee {
            Option::Some(marquee) => marquee.render(advance_marquee),
            Option::None => ellipsize(base_value.as_str(), MAX_TITLE_CHARS),
        };
        let mut display = EncoderDisplay::new(String::from_str("spotify"), value);
        display.status = status_line_exec(state);
        proof {
            assert(display@.status == spec_status_line(state@));
            assert(display@.title == "spotify"@);
        }
        match self.display.update_encoder(self.encoder, display) {
            Ok(()) => Ok(()),
            Err(e) => Err(ControlError::Pipeline(e)),
        }
    }

    /// Turning skips forward or back through the backend, then absorbs a
    /// fresh reading as `absorb_state` says.
    pub fn on_turn(&mut self, delta: i32) -> (r: Result<(), ControlError>)
        requires
            old(self).wf(),
        ensures
            final(self).wf(),
            final(self).encoder == old(self).encoder,
            final(self).display == old(self).display,
            (r matches Ok(_)) ==> exists|st: PlayView|
                spec_absorbed(*old(self), *final(self), st, false),
    {
        if delta > 0 {
            match self.backend.next() {
                Ok(()) => {},
                Err(e) => {
                    return Err(ControlError::Backend(e));
                },
            }
        } else if delta < 0 {
            match self.backend.previous() {
                Ok(()) => {},
                Err(e) => {
                    return Err(ControlError::Backend(e));
                },
            }
        }
        let ghost pre = *self;
        let refreshed = self.refresh_display(false);
        proof {
            if refreshed matches Ok(_) {
                let st = choose|st: PlayView| spec_absorbed(pre, *self, st, false);
                assert(spec_absorbed(*old(self), *self, st, false));
            }
        }
        refreshed
    }
}

/// The base value, as a `String`.
fn spec_base_value_exec(state: &PlaybackState) -> (r: String)
    ensures
        r@ == spec_base_value(state@),
{
    proof {
        reveal_strlit("No title");
        reveal_strlit("Not playing");
        reveal_strlit("playerctl missing");
    }
    match state.status {
        PlaybackStatus::Playing | PlaybackStatus::Paused => match &state.title {
            Option::Some(t) => {
                if t.as_str().unicode_len() == 0 {
                    String::from_str("No title")
                } else {
                    t.clone()
                }
            },
            Option::None => String::from_str("No title"),
        },
        PlaybackStatus::Stopped => String::from_str("Not playing"),
        PlaybackStatus::Unavailable => String::from_str("playerctl missing"),
    }
}

/// The status line, as a `String`.
fn status_line_exec(state: &PlaybackState) -> (r: Option<String>)
    ensures
        match (r, spec_status_line(state@)) {
            (Some(a), Some(b)) => a@ == b,
            (None, None) => true,
            _ => false,
        },
{
    let phase: Option<String> = match state.status {
        PlaybackStatus::Playing => None,
        PlaybackStatus::Paused => Some(String::from_str("paused")),
        PlaybackStatus::Stopped => Some(String::from_str("stopped")),
        PlaybackStatus::Unavailable => None,
    };
    match &state.artist {
        Option::Some(artist) => {
            if artist.as_str().unicode_len() == 0 {
                phase
            } else {
                match phase {
                    Option::Some(p) => {
                        let mut joined = p;
                        joined.append(" \u{b7} ");
                        joined.append(artist.as_str());
                        Some(joined)
                    },
                    Option::None => Some(artist.clone()),
                }
            }
        },
        Option::None => phase,
    }
}

impl<B: NowPlayingBackend, D: DisplayPipeline> Tickable for NowPlayingController<B, D> {
    open spec fn tick_inv(&self) -> bool {
        self.wf()
    }

    /// Every tick re-reads the backend and absorbs the reading as
    /// `absorb_state` says, scrolling the marquee.
    fn on_tick(&mut self) -> (r: Result<(), ControlError>)
        ensures
            final(self).encoder == old(self).encoder,
            final(self).display == old(self).display,
            (r matches Ok(_)) ==> exists|st: PlayView|
                spec_absorbed(*old(self), *final(self), st, true),
    {
        self.refresh_display(true)
    }
}

} // verus!
