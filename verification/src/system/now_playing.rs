//! The media-player backend: playback state, the parser for the player
//! tool's metadata output, and the availability decisions around its
//! exit status. The process invocation lives outside the library.

use vstd::prelude::*;
use vstd::string::StrSliceExecFns;
use vstd::string::StringExecFns;

use crate::system::availability::RetryableAvailability;
use crate::system::BackendError;
use crate::text;

verus! {

/// How long the player tool rests after a failure before a retry.
pub const PLAYER_BACKOFF_SECS: u64 = 10;

#[derive(Debug, Clone, Copy, PartialEq, Eq, Structural)]
pub enum PlaybackStatus {
    Playing,
    Paused,
    Stopped,
    Unavailable,
}

/// The status a metadata line names, compared case-insensitively.
pub open spec fn spec_status_of(s: Seq<char>) -> Option<PlaybackStatus> {
    let l = text::spec_lower(s);
    if l == "playing"@ {
        Some(PlaybackStatus::Playing)
    } else if l == "paused"@ {
        Some(PlaybackStatus::Paused)
    } else if l == "stopped"@ {
        Some(PlaybackStatus::Stopped)
    } else {
        None
    }
}

impl PlaybackStatus {
    pub fn from_status_string(value: &str) -> (r: Option<PlaybackStatus>)
        ensures
            r == spec_status_of(value@),
    {
        let l = text::lower_chars(&text::chars_of(value));
        proof {
            reveal_strlit("playing");
            reveal_strlit("paused");
            reveal_strlit("stopped");
        }
        if text::eq_chars(&l, &text::chars_of("playing")) {
            Some(PlaybackStatus::Playing)
        } else if text::eq_chars(&l, &text::chars_of("paused")) {
            Some(PlaybackStatus::Paused)
        } else if text::eq_chars(&l, &text::chars_of("stopped")) {
            Some(PlaybackStatus::Stopped)
        } else {
            None
        }
    }
}

/// Mathematical image of a playback state.
#[verifier::ext_equal]
pub ghost struct PlayView {
    pub status: PlaybackStatus,
    pub title: Option<Seq<char>>,
    pub artist: Option<Seq<char>>,
}

/// What the player reports: a status and, where known, title and artist.
#[derive(Debug)]
pub struct PlaybackState {
    pub status: PlaybackStatus,
    pub title: Option<String>,
    pub artist: Option<String>,
}

impl View for PlaybackState {
    type V = PlayView;

    open spec fn view(&self) -> PlayView {
        PlayView {
            status: self.status,
            title: match self.title {
                Some(t) => Some(t@),
                None => None,
            },
            artist: match self.artist {
                Some(a) => Some(a@),
                None => None,
            },
        }
    }
}

impl PlaybackState {
    pub fn unavailable() -> (r: PlaybackState)
        ensures
            r@ == (PlayView { status: PlaybackStatus::Unavailable, title: None, artist: None }),
    {
        PlaybackState { status: PlaybackStatus::Unavailable, title: None, artist: None }
    }

    pub fn stopped() -> (r: PlaybackState)
        ensures
            r@ == (PlayView { status: PlaybackStatus::Stopped, title: None, artist: None }),
    {
        PlaybackState { status: PlaybackStatus::Stopped, title: None, artist: None }
    }

    /// A copy with the same view.
    pub fn duplicate(&self) -> (r: PlaybackState)
        ensures
            r@ == self@,
    {
        PlaybackState {
            status: self.status,
            title: dup_opt_string(&self.title),
            artist: dup_opt_string(&self.artist),
        }
    }

    /// View equality, decided field by field.
    pub fn same_as(&self, other: &PlaybackState) -> (r: bool)
        ensures
            r == (self@ == other@),
    {
        let fields = self.status == other.status && same_opt(&self.title, &other.title)
            && same_opt(&self.artist, &other.artist);
        proof {
            if fields {
                assert(self@ =~= other@);
            }
        }
        fields
    }
}

fn dup_opt_string(o: &Option<String>) -> (r: Option<String>)
    ensures
        match (o, r) {
            (Some(a), Some(b)) => a@ == b@,
            (None, None) => true,
            _ => false,
        },
{
    match o {
        Option::Some(s) => Some(s.clone()),
        Option::None => None,
    }
}

fn same_opt(a: &Option<String>, b: &Option<String>) -> (r: bool)
    ensures
        r == (match (a, b) {
            (Some(x), Some(y)) => Some(x@) == Some::<Seq<char>>(y@),
            (None, None) => true,
            _ => false,
        }),
{
    match (a, b) {
        (Option::None, Option::None) => true,
        (Option::Some(x), Option::Some(y)) => x.eq(y),
        _ => false,
    }
}

/// What a now-playing backend offers.
pub trait NowPlayingBackend {
    fn now_playing(&mut self) -> Result<PlaybackState, BackendError>;

    /// Skips to the next track.
    fn next(&mut self) -> Result<(), BackendError>;

    /// Skips to the previous track.
    fn previous(&mut self) -> Result<(), BackendError>;
}

/// The state the library keeps about the player CLI: which player it
/// addresses, guarded by an availability tracker with timed backoff.
pub struct PlayerctlBackend {
    pub player: String,
    pub availability: RetryableAvailability,
}

impl PlayerctlBackend {
    pub fn new(player: String, initially_available: bool) -> (r: PlayerctlBackend)
        ensures
            r.player@ == player@,
            r.availability.spec_available() == initially_available,
            r.availability.spec_retry_after() == 0,
            r.availability.spec_backoff_secs() == PLAYER_BACKOFF_SECS,
    {
        PlayerctlBackend {
            player,
            availability: RetryableAvailability::new(initially_available, PLAYER_BACKOFF_SECS),
        }
    }

    /// Disables the backend with the usual backoff; true on the
    /// transition, so the caller logs the reason once.
    pub fn mark_unavailable(&mut self) -> (r: bool)
        ensures
            !final(self).availability.spec_available(),
            final(self).player@ == old(self).player@,
            r == old(self).availability.spec_available(),
    {
        self.availability.mark_unavailable()
    }

    /// Re-enables the backend; true on the recovery transition.
    pub fn mark_available(&mut self) -> (r: bool)
        ensures
            final(self).availability == old(self).availability.spec_marked_available(),
            final(self).player@ == old(self).player@,
            r == !old(self).availability.spec_available(),
    {
        self.availability.mark_available()
    }

    /// Whether a query should be attempted now: available, or the
    /// backoff deadline has passed (granting exactly one probe).
    pub fn should_attempt(&mut self) -> (r: bool)
        ensures
            r == final(self).availability.spec_available(),
            final(self).player@ == old(self).player@,
            !r ==> *final(self) == *old(self),
    {
        let (available, _became) = self.availability.try_acquire();
        available
    }

    /// The arguments of one metadata query.
    pub fn metadata_query_args(&self) -> (r: Vec<String>)
        ensures
            r.deep_view() == seq![
                "--player"@,
                self.player@,
                "metadata"@,
                "--format"@,
                "{{status}}\u{1f}{{xesam:title}}\u{1f}{{xesam:artist}}"@,
            ],
    {
        let mut args: Vec<String> = Vec::new();
        args.push(String::from_str("--player"));
        args.push(self.player.clone());
        args.push(String::from_str("metadata"));
        args.push(String::from_str("--format"));
        args.push(String::from_str("{{status}}\u{1f}{{xesam:title}}\u{1f}{{xesam:artist}}"));
        proof {
            assert(args.deep_view() =~~= seq![
                "--player"@,
                self.player@,
                "metadata"@,
                "--format"@,
                "{{status}}\u{1f}{{xesam:title}}\u{1f}{{xesam:artist}}"@,
            ]);
        }
        args
    }

    /// Reads one metadata line `status ␟ title ␟ artist`: an unknown
    /// status refuses the line; empty fields disappear; semicolons in
    /// the artist list turn into comma-spaces.
    pub fn parse_metadata(&self, output: &str) -> (r: Option<PlaybackState>)
        ensures
            ({
                let parts = spec_metadata_parts(output@);
                match r {
                    Some(state) => spec_status_of(parts.0) matches Some(st) && state@
                        == (PlayView {
                        status: st,
                        title: if parts.1.len() == 0 {
                            None
                        } else {
                            Some(parts.1)
                        },
                        artist: if parts.2.len() == 0 {
                            None
                        } else {
                            Some(spec_replace_semis(parts.2))
                        },
                    }),
                    None => spec_status_of(parts.0) is None,
                }
            }),
    {
        let chars = text::chars_of(output);
        let (first, second, third) = split3(&chars);
        let status_chars = text::trim_chars(&first);
        let title_chars = text::trim_chars(&second);
        let artist_chars = text::trim_chars(&third);
        let status = match PlaybackStatus::from_status_string(
            text::string_of(&status_chars).as_str(),
        ) {
            Option::Some(s) => s,
            Option::None => {
                return None;
            },
        };
        let title = if title_chars.len() == 0 {
            None
        } else {
            Some(text::string_of(&title_chars))
        };
        let artist = if artist_chars.len() == 0 {
            None
        } else {
            Some(text::string_of(&replace_semis(&artist_chars)))
        };
        Some(PlaybackState { status, title, artist })
    }
}

/// The three fields of a metadata line, trimmed: the text before the
/// first separator, between the first and second, and after the second
/// (empty where a separator is missing).
pub open spec fn spec_metadata_parts(s: Seq<char>) -> (Seq<char>, Seq<char>, Seq<char>) {
    let sep = '\u{1f}';
    let i = text::spec_find(s, sep);
    if i >= s.len() {
        (text::spec_trim(s), Seq::empty(), Seq::empty())
    } else {
        let rest = s.skip(i + 1);
        let j = text::spec_find(rest, sep);
        if j >= rest.len() {
            (text::spec_trim(s.take(i)), text::spec_trim(rest), Seq::empty())
        } else {
            (
                text::spec_trim(s.take(i)),
                text::spec_trim(rest.take(j)),
                text::spec_trim(rest.skip(j + 1)),
            )
        }
    }
}

/// Splits at the first two separators; the third piece keeps any later
/// separators.
fn split3(s: &Vec<char>) -> (r: (Vec<char>, Vec<char>, Vec<char>))
    ensures
        ({
            let sep = '\u{1f}';
            let i = text::spec_find(s@, sep);
            if i >= s@.len() {
                r.0@ == s@ && r.1@ == Seq::<char>::empty() && r.2@ == Seq::<char>::empty()
            } else {
                let rest = s@.skip(i + 1);
                let j = text::spec_find(rest, sep);
                if j >= rest.len() {
                    r.0@ == s@.take(i) && r.1@ == rest && r.2@ == Seq::<char>::empty()
                } else {
                    r.0@ == s@.take(i) && r.1@ == rest.take(j) && r.2@ == rest.skip(j + 1)
                }
            }
        }),
{
    let sep = '\u{1f}';
    let n = s.len();
    proof {
        text::lemma_find(s@, sep);
        assert(n == s@.len());
    }
    match text::find_char_from(s, sep, 0) {
        Option::None => {
            proof {
                assert(s@.skip(0) =~= s@);
            }
            let first = text::slice_range(s, 0, n);
            proof {
                assert(first@ =~= s@);
            }
            (first, Vec::new(), Vec::new())
        },
        Option::Some(i) => {
            let first = text::slice_range(s, 0, i);
            let ghost rest = s@.skip(i + 1);
            proof {
                assert(s@.skip(0) =~= s@);
                assert(first@ =~= s@.take(i as int));
                text::lemma_find(rest, sep);
            }
            match text::find_char_from(s, sep, i + 1) {
                Option::None => {
                    let second = text::slice_range(s, i + 1, n);
                    proof {
                        assert(second@ =~= rest);
                    }
                    (first, second, Vec::new())
                },
                Option::Some(j) => {
                    let second = text::slice_range(s, i + 1, j);
                    let third = text::slice_range(s, j + 1, n);
                    proof {
                        assert(second@ =~= rest.take(j - i - 1));
                        assert(third@ =~= rest.skip(j - i - 1 + 1));
                    }
                    (first, second, third)
                },
            }
        },
    }
}

/// Each semicolon becomes a comma and a space; all else is kept.
pub open spec fn spec_replace_semis(s: Seq<char>) -> Seq<char>
    decreases s.len(),
{
    if s.len() == 0 {
        Seq::empty()
    } else {
        (if s[0] == ';' {
            seq![',', ' ']
        } else {
            seq![s[0]]
        }) + spec_replace_semis(s.skip(1))
    }
}

fn replace_semis(s: &Vec<char>) -> (r: Vec<char>)
    ensures
        r@ == spec_replace_semis(s@),
{
    let mut out: Vec<char> = Vec::new();
    let mut i: usize = 0;
    proof {
        assert(s@.skip(0) =~= s@);
        assert(out@ + spec_replace_semis(s@) =~= spec_replace_semis(s@));
    }
    while i < s.len()
        invariant
            i <= s@.len(),
            spec_replace_semis(s@) == out@ + spec_replace_semis(s@.skip(i as int)),
        decreases s.len() - i,
    {
        let ghost pre = out@;
        let c = s[i];
        proof {
            assert(s@.skip(i as int)[0] == c);
            assert(s@.skip(i as int).skip(1) =~= s@.skip(i as int + 1));
        }
        if c == ';' {
            out.push(',');
            out.push(' ');
            proof {
                assert(out@ =~= pre + seq![',', ' ']);
            }
        } else {
            out.push(c);
            proof {
                assert(out@ =~= pre + seq![c]);
            }
        }
        i = i + 1;
        proof {
            assert(spec_replace_semis(s@) =~= out@ + spec_replace_semis(s@.skip(i as int)));
        }
    }
    proof {
        assert(spec_replace_semis(s@.skip(s@.len() as int)) =~= Seq::<char>::empty());
        assert(out@ =~= spec_replace_semis(s@));
    }
    out
}

/// Sorts a finished query into the next state and availability
/// decision: a successful run parses (an unreadable line counts as
/// stopped); a failure whose message names a missing player keeps the
/// tool available and counts as stopped; any other failure disables the
/// tool until its backoff passes.
pub fn classify_query(
    backend: &mut PlayerctlBackend,
    success: bool,
    stdout: &str,
    stderr: &str,
) -> (r: PlaybackState)
    ensures
        final(backend).player@ == old(backend).player@,
        success ==> final(backend).availability == old(
            backend,
        ).availability.spec_marked_available() && (match backend_parse(
            *old(backend),
            stdout@,
        ) {
            Some(v) => r@ == v,
            None => r@ == (PlayView {
                status: PlaybackStatus::Stopped,
                title: None,
                artist: None,
            }),
        }),
        !success ==> ({
            let message = stderr@ + stdout@;
            if spec_benign_failure(message) {
                final(backend).availability == old(backend).availability.spec_marked_available()
                    && r@ == (PlayView {
                    status: PlaybackStatus::Stopped,
                    title: None,
                    artist: None,
                })
            } else {
                !final(backend).availability.spec_available() && r@ == (PlayView {
                    status: PlaybackStatus::Unavailable,
                    title: None,
                    artist: None,
                })
            }
        }),
{
    if success {
        backend.mark_available();
        let trimmed = text::string_of(&text::trim_chars(&text::chars_of(stdout)));
        match backend.parse_metadata(trimmed.as_str()) {
            Option::Some(state) => state,
            Option::None => PlaybackState::stopped(),
        }
    } else {
        let mut message = text::chars_of(stderr);
        let mut tail = text::chars_of(stdout);
        let ghost pre = message@;
        let mut k: usize = 0;
        while k < tail.len()
            invariant
                k <= tail@.len(),
                message@ == pre + tail@.take(k as int),
            decreases tail.len() - k,
        {
            message.push(tail[k]);
            k = k + 1;
            proof {
                assert(message@ =~= pre + tail@.take(k as int));
            }
        }
        proof {
            assert(tail@.take(tail@.len() as int) =~= tail@);
        }
        proof {
            reveal_strlit("No players found");
            reveal_strlit("No player could satisfy");
            reveal_strlit("Command 'metadata' is not valid");
        }
        let benign = text::contains_chars(&message, &text::chars_of("No players found"))
            || text::contains_chars(&message, &text::chars_of("No player could satisfy"))
            || text::contains_chars(
            &message,
            &text::chars_of("Command 'metadata' is not valid"),
        );
        if benign {
            backend.mark_available();
            PlaybackState::stopped()
        } else {
            backend.mark_unavailable();
            PlaybackState::unavailable()
        }
    }
}

/// A failure message that only means no player is running.
pub open spec fn spec_benign_failure(message: Seq<char>) -> bool {
    text::spec_contains(message, "No players found"@) || text::spec_contains(
        message,
        "No player could satisfy"@,
    ) || text::spec_contains(message, "Command 'metadata' is not valid"@)
}

/// What a successful query's output parses to.
pub open spec fn backend_parse(backend: PlayerctlBackend, stdout: Seq<char>) -> Option<
    PlayView,
> {
    let parts = spec_metadata_parts(text::spec_trim(stdout));
    match spec_status_of(parts.0) {
        Some(st) => Some(
            PlayView {
                status: st,
                title: if parts.1.len() == 0 {
                    None
                } else {
                    Some(parts.1)
                },
                artist: if parts.2.len() == 0 {
                    None
                } else {
                    Some(spec_replace_semis(parts.2))
                },
            },
        ),
        None => None,
    }
}

} // verus!
