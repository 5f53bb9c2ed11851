//! The volume backend: the capability interface the volume controller
//! calls, and the decision logic around the PulseAudio command-line
//! tool — which arguments to pass and how to read its output. The
//! process invocation itself happens outside the library.

use vstd::prelude::*;
use vstd::string::StrSliceExecFns;
use vstd::string::StringExecFns;

use crate::system::BackendError;
use crate::text;

verus! {

/// What a volume backend offers: cheap availability, reads, and writes.
/// Implementations may be slow and unreliable; nothing is assumed of
/// their results beyond the types.
pub trait AudioBackend {
    /// Volume in percent (`0..=150`).
    fn get_volume(&self) -> Result<u32, BackendError>;

    /// Adjusts by a signed percentage and reports the volume actually
    /// applied, which may differ from the requested change.
    fn adjust_volume(&self, delta_percent: i32) -> Result<u32, BackendError>;

    fn is_muted(&self) -> Result<bool, BackendError>;

    /// Toggles mute and reports the new muted state.
    fn toggle_mute(&self) -> Result<bool, BackendError>;

    /// Cheap, non-blocking check.
    fn is_available(&self) -> bool;
}

/// The state the library keeps about the PulseAudio CLI: which sink it
/// addresses and whether the tool is currently usable. The process
/// invocation lives outside; the argument building and output parsing
/// here are what decide its meaning.
pub struct PulseAudioBackend {
    pub sink: String,
    pub available: bool,
}

impl PulseAudioBackend {
    pub fn new(sink: String, initially_available: bool) -> (r: PulseAudioBackend)
        ensures
            r.sink@ == sink@,
            r.available == initially_available,
    {
        PulseAudioBackend { sink, available: initially_available }
    }

    pub fn is_available(&self) -> (r: bool)
        ensures
            r == self.available,
    {
        self.available
    }

    /// The sink argument handed to the tool.
    pub fn sink_arg(&self) -> (r: String)
        ensures
            r@ == self.sink@,
    {
        clone_str(&self.sink)
    }

    /// Drops the availability flag; true on the transition so the caller
    /// logs the reason once.
    pub fn mark_unavailable(&mut self) -> (r: bool)
        ensures
            !final(self).available,
            final(self).sink@ == old(self).sink@,
            r == old(self).available,
    {
        let was = self.available;
        self.available = false;
        was
    }
}

fn clone_str(s: &String) -> (r: String)
    ensures
        r@ == s@,
{
    s.clone()
}

/// A percent reading ends here: a digit followed by `'%'`.
pub open spec fn pct_hit(s: Seq<char>, j: int) -> bool {
    0 < j < s.len() && s[j] == '%' && text::is_digit_char(s[j - 1])
}

/// First index at or after `j` where a percent reading ends, or the
/// length of `s` when there is none.
pub open spec fn spec_pct_find(s: Seq<char>, j: int) -> int
    decreases s.len() - j,
{
    if j < 0 || j >= s.len() {
        s.len() as int
    } else if pct_hit(s, j) {
        j
    } else {
        spec_pct_find(s, j + 1)
    }
}

/// Start of the maximal digit run ending just before `j`.
pub open spec fn spec_run_start(s: Seq<char>, j: int) -> int
    decreases j,
{
    if 0 < j <= s.len() && text::is_digit_char(s[j - 1]) {
        spec_run_start(s, j - 1)
    } else {
        j
    }
}

/// Reads the first percentage from the tool's volume output: the first
/// digit run directly followed by `'%'`. `None` when no such reading
/// exists, or its value does not fit.
pub fn parse_volume_output(output: &str) -> (r: Option<u32>)
    ensures
        ({
            let s = output@;
            let j = spec_pct_find(s, 0);
            match r {
                Some(n) => j < s.len() && text::digits_val(s.subrange(spec_run_start(s, j), j))
                    <= u32::MAX && n == text::digits_val(s.subrange(spec_run_start(s, j), j)),
                None => j == s.len() || text::digits_val(s.subrange(spec_run_start(s, j), j))
                    > u32::MAX,
            }
        }),
{
    let chars = text::chars_of(output);
    let n = chars.len();
    let mut j: usize = 0;
    while j < n
        invariant
            n == chars@.len(),
            chars@ == output@,
            j <= n,
            spec_pct_find(output@, 0) == spec_pct_find(output@, j as int),
        decreases n - j,
    {
        if j > 0 && chars[j] == '%' && is_digit(chars[j - 1]) {
            proof {
                assert(pct_hit(output@, j as int));
                assert(spec_pct_find(output@, j as int) == j);
            }
            let mut k: usize = j;
            while k > 0 && is_digit(chars[k - 1])
                invariant
                    k <= j <= n,
                    n == chars@.len(),
                    chars@ == output@,
                    spec_run_start(output@, j as int) == spec_run_start(output@, k as int),
                decreases k,
            {
                k = k - 1;
            }
            proof {
                assert(spec_run_start(output@, k as int) == k);
            }
            let run = text::slice_range(&chars, k, j);
            return match text::parse_u32_chars(&run) {
                Some(v) => Some(v),
                None => {
                    proof {
                        assert(run@[run@.len() - 1] == output@[j - 1]);
                        assert(text::all_digits(run@)) by {
                            assert(forall|m: int|
                                k <= m < j ==> text::is_digit_char(#[trigger] output@[m]))
                                by {
                                lemma_run_digits(output@, j as int, k as int);
                            }
                        }
                        assert(run@.len() > 0);
                    }
                    None
                },
            };
        }
        j = j + 1;
        proof {
            assert(spec_pct_find(output@, 0) == spec_pct_find(output@, j as int));
        }
    }
    None
}

/// Every position inside a maximal digit run holds a digit.
proof fn lemma_run_digits(s: Seq<char>, j: int, k: int)
    requires
        0 <= k <= j <= s.len(),
        spec_run_start(s, j) == k,
    ensures
        forall|m: int| k <= m < j ==> text::is_digit_char(#[trigger] s[m]),
    decreases j,
{
    if 0 < j <= s.len() && text::is_digit_char(s[j - 1]) {
        lemma_run_start_bounds(s, j - 1);
        lemma_run_digits(s, j - 1, k);
    }
}

/// The start of a digit run lies between zero and its end.
proof fn lemma_run_start_bounds(s: Seq<char>, j: int)
    requires
        0 <= j <= s.len(),
    ensures
        0 <= spec_run_start(s, j) <= j,
    decreases j,
{
    if 0 < j && text::is_digit_char(s[j - 1]) {
        lemma_run_start_bounds(s, j - 1);
    }
}

fn is_digit(c: char) -> (r: bool)
    ensures
        r == text::is_digit_char(c),
{
    '0' <= c && c <= '9'
}

/// A mute reading starts here: `Mute:`, at least one space, then `yes`
/// or `no` at the first non-space character.
pub open spec fn mute_hit(s: Seq<char>, j: int) -> bool {
    text::is_prefix("Mute:"@, s.skip(j)) && ({
        let after = j + 5;
        let w = spec_ws_end(s, after);
        w > after && (text::is_prefix("yes"@, s.skip(w)) || text::is_prefix("no"@, s.skip(w)))
    })
}

/// First index at or after `k` holding a character that is not a space
/// or tab (the whitespace the tool emits inside a line).
pub open spec fn spec_ws_end(s: Seq<char>, k: int) -> int
    decreases s.len() - k,
{
    if k < 0 || k >= s.len() {
        s.len() as int
    } else if s[k] == ' ' || s[k] == '\t' || s[k] == '\n' || s[k] == '\r' {
        spec_ws_end(s, k + 1)
    } else {
        k
    }
}

/// First index at or after `j` where a mute reading starts.
pub open spec fn spec_mute_find(s: Seq<char>, j: int) -> int
    decreases s.len() - j,
{
    if j < 0 || j >= s.len() {
        s.len() as int
    } else if mute_hit(s, j) {
        j
    } else {
        spec_mute_find(s, j + 1)
    }
}

/// Reads the first `Mute: yes` / `Mute: no` line from the tool's
/// output; `None` when no such reading exists.
pub fn parse_mute_output(output: &str) -> (r: Option<bool>)
    ensures
        ({
            let s = output@;
            let j = spec_mute_find(s, 0);
            match r {
                Some(muted) => j < s.len() && muted == text::is_prefix(
                    "yes"@,
                    s.skip(spec_ws_end(s, j + 5)),
                ),
                None => j == s.len(),
            }
        }),
{
    let chars = text::chars_of(output);
    let marker = text::chars_of("Mute:");
    let yes = text::chars_of("yes");
    let no = text::chars_of("no");
    proof {
        reveal_strlit("Mute:");
        reveal_strlit("yes");
        reveal_strlit("no");
    }
    let n = chars.len();
    let mut j: usize = 0;
    while j < n
        invariant
            n == chars@.len(),
            chars@ == output@,
            marker@ == "Mute:"@,
            yes@ == "yes"@,
            no@ == "no"@,
            "Mute:"@.len() == 5,
            j <= n,
            spec_mute_find(output@, 0) == spec_mute_find(output@, j as int),
        decreases n - j,
    {
        let tail = text::slice_range(&chars, j, n);
        proof {
            assert(tail@ =~= output@.skip(j as int));
        }
        if text::has_prefix(&tail, &marker) {
            let after = j + 5;
            let mut w: usize = after;
            while w < n && (chars[w] == ' ' || chars[w] == '\t' || chars[w] == '\n' || chars[w]
                == '\r')
                invariant
                    n == chars@.len(),
                    chars@ == output@,
                    after <= w <= n,
                    spec_ws_end(output@, after as int) == spec_ws_end(output@, w as int),
                decreases n - w,
            {
                w = w + 1;
            }
            proof {
                assert(spec_ws_end(output@, w as int) == w);
            }
            if w > after {
                let rest = text::slice_range(&chars, w, n);
                proof {
                    assert(rest@ =~= output@.skip(w as int));
                }
                if text::has_prefix(&rest, &yes) {
                    proof {
                        assert(mute_hit(output@, j as int));
                        assert(spec_mute_find(output@, j as int) == j);
                    }
                    return Some(true);
                }
                if text::has_prefix(&rest, &no) {
                    proof {
                        assert(mute_hit(output@, j as int));
                        assert(spec_mute_find(output@, j as int) == j);
                    }
                    return Some(false);
                }
            }
        }
        proof {
            assert(!mute_hit(output@, j as int));
        }
        j = j + 1;
        proof {
            assert(spec_mute_find(output@, 0) == spec_mute_find(output@, j as int));
        }
    }
    None
}

} // verus!
