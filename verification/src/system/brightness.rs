//! The monitor-brightness backend: the capability interface the
//! brightness controller calls, and the decision logic around the DDC
//! command-line tool — which arguments to pass and how to read its
//! output. Writes are slow, so the interface starts them off-thread and
//! hands back the single-slot channel their result arrives on.

use vstd::prelude::*;
use vstd::string::StrSliceExecFns;
use vstd::string::StringExecFns;

use crate::system::audio::spec_ws_end;
use crate::system::BackendError;
use crate::text;

verus! {

/// What a brightness backend offers. A write may take long: it runs
/// elsewhere and reports the value actually applied through the returned
/// one-shot channel. Nothing is assumed of implementations.
pub trait BrightnessBackend {
    /// Brightness in percent (`0..=100`).
    fn get_brightness(&self) -> Result<u8, BackendError>;

    /// Begins one slow write and returns the single-slot channel the
    /// result (the value actually applied) will arrive on.
    fn start_apply(&self, value: u8) -> crossbeam_channel::Receiver<Result<u8, BackendError>>;

    /// Cheap, non-blocking check.
    fn is_available(&self) -> bool;
}

/// The state the library keeps about the DDC CLI: which display and bus
/// it addresses and whether the tool is currently usable. The process
/// invocation lives outside; the argument building and output parsing
/// here decide its meaning.
pub struct DdcutilBackend {
    pub display: Option<String>,
    pub bus: Option<u8>,
    pub available: bool,
}

impl DdcutilBackend {
    pub fn new(display: Option<String>, bus: Option<u8>, initially_available: bool) -> (r:
        DdcutilBackend)
        ensures
            r.display.deep_view() == display.deep_view(),
            r.bus == bus,
            r.available == initially_available,
    {
        DdcutilBackend { display, bus, available: initially_available }
    }

    pub fn is_available(&self) -> (r: bool)
        ensures
            r == self.available,
    {
        self.available
    }

    /// Drops the availability flag; true on the transition so the caller
    /// logs the reason once.
    pub fn mark_unavailable(&mut self) -> (r: bool)
        ensures
            !final(self).available,
            final(self).display.deep_view() == old(self).display.deep_view(),
            final(self).bus == old(self).bus,
            r == old(self).available,
    {
        let was = self.available;
        self.available = false;
        was
    }

    /// The trailing `--display` / `--bus` selectors of every invocation.
    pub open spec fn spec_target_args(self) -> Seq<Seq<char>> {
        (match self.display {
            Some(d) => seq!["--display"@, d@],
            None => Seq::<Seq<char>>::empty(),
        }) + (match self.bus {
            Some(b) => seq!["--bus"@, text::spec_decimal(b as nat)],
            None => Seq::<Seq<char>>::empty(),
        })
    }

    /// Arguments of a brightness read: `getvcp 10`, then the selectors.
    pub fn getvcp_args(&self) -> (r: Vec<String>)
        ensures
            r.deep_view() == seq!["getvcp"@, "10"@] + self.spec_target_args(),
    {
        let mut args: Vec<String> = Vec::new();
        args.push(String::from_str("getvcp"));
        args.push(String::from_str("10"));
        self.push_target_args(&mut args);
        proof {
            assert(args.deep_view() =~~= seq!["getvcp"@, "10"@] + self.spec_target_args());
        }
        args
    }

    /// Arguments of a brightness write: `setvcp 10 <value>` with the
    /// value capped at one hundred, then the selectors.
    pub fn setvcp_args(&self, value: u8) -> (r: Vec<String>)
        ensures
            r.deep_view() == seq!["setvcp"@, "10"@, text::spec_decimal(
                (if value <= 100 {
                    value
                } else {
                    100
                }) as nat,
            )] + self.spec_target_args(),
    {
        let capped: u8 = if value <= 100 {
            value
        } else {
            100
        };
        let mut args: Vec<String> = Vec::new();
        args.push(String::from_str("setvcp"));
        args.push(String::from_str("10"));
        args.push(text::string_of(&text::decimal_chars(capped as u64)));
        self.push_target_args(&mut args);
        proof {
            assert(args.deep_view() =~~= seq!["setvcp"@, "10"@, text::spec_decimal(
                capped as nat,
            )] + self.spec_target_args());
        }
        args
    }

    fn push_target_args(&self, args: &mut Vec<String>)
        ensures
            final(args).deep_view() == old(args).deep_view() + self.spec_target_args(),
    {
        let ghost pre = args.deep_view();
        match &self.display {
            Option::Some(d) => {
                args.push(String::from_str("--display"));
                args.push(clone_str(d));
            },
            Option::None => {},
        }
        match &self.bus {
            Option::Some(b) => {
                args.push(String::from_str("--bus"));
                args.push(text::string_of(&text::decimal_chars(*b as u64)));
            },
            Option::None => {},
        }
        proof {
            assert(args.deep_view() =~~= pre + self.spec_target_args());
        }
    }
}

fn clone_str(s: &String) -> (r: String)
    ensures
        r@ == s@,
{
    s.clone()
}

/// A brightness reading starts here: `current value`, optional spaces,
/// `=`, optional spaces, then a digit.
pub open spec fn bright_hit(s: Seq<char>, j: int) -> bool {
    text::is_prefix("current value"@, s.skip(j)) && ({
        let w1 = spec_ws_end(s, j + 13);
        w1 < s.len() && s[w1] == '=' && ({
            let w2 = spec_ws_end(s, w1 + 1);
            w2 < s.len() && text::is_digit_char(s[w2])
        })
    })
}

/// First index at or after `j` where a brightness reading starts.
pub open spec fn spec_bright_find(s: Seq<char>, j: int) -> int
    decreases s.len() - j,
{
    if j < 0 || j >= s.len() {
        s.len() as int
    } else if bright_hit(s, j) {
        j
    } else {
        spec_bright_find(s, j + 1)
    }
}

/// End of the digit run starting at `k`.
pub open spec fn spec_run_end(s: Seq<char>, k: int) -> int
    decreases s.len() - k,
{
    if 0 <= k < s.len() && text::is_digit_char(s[k]) {
        spec_run_end(s, k + 1)
    } else {
        k
    }
}

/// The digits of the first `current value = <n>` reading in the tool's
/// output; `None` when no reading exists or its value does not fit.
pub fn parse_brightness_output(output: &str) -> (r: Option<u32>)
    ensures
        ({
            let s = output@;
            let j = spec_bright_find(s, 0);
            let w2 = spec_ws_end(s, spec_ws_end(s, j + 13) + 1);
            let e = spec_run_end(s, w2);
            match r {
                Some(n) => j < s.len() && text::digits_val(s.subrange(w2, e)) <= u32::MAX && n
                    == text::digits_val(s.subrange(w2, e)),
                None => j == s.len() || text::digits_val(s.subrange(w2, e)) > u32::MAX,
            }
        }),
{
    let chars = text::chars_of(output);
    let marker = text::chars_of("current value");
    proof {
        reveal_strlit("current value");
    }
    let n = chars.len();
    let mut j: usize = 0;
    while j < n
        invariant
            n == chars@.len(),
            chars@ == output@,
            marker@ == "current value"@,
            "current value"@.len() == 13,
            j <= n,
            spec_bright_find(output@, 0) == spec_bright_find(output@, j as int),
        decreases n - j,
    {
        let tail = text::slice_range(&chars, j, n);
        proof {
            assert(tail@ =~= output@.skip(j as int));
        }
        if text::has_prefix(&tail, &marker) {
            let w1 = skip_ws(&chars, j + 13);
            if w1 < n && chars[w1] == '=' {
                let w2 = skip_ws(&chars, w1 + 1);
                if w2 < n && is_digit(chars[w2]) {
                    proof {
                        assert(bright_hit(output@, j as int));
                        assert(spec_bright_find(output@, j as int) == j);
                    }
                    let mut e: usize = w2;
                    while e < n && is_digit(chars[e])
                        invariant
                            w2 <= e <= n,
                            n == chars@.len(),
                            chars@ == output@,
                            spec_run_end(output@, w2 as int) == spec_run_end(output@, e as int),
                        decreases n - e,
                    {
                        e = e + 1;
                    }
                    proof {
                        assert(spec_run_end(output@, e as int) == e);
                    }
                    let run = text::slice_range(&chars, w2, e);
                    return match text::parse_u32_chars(&run) {
                        Some(v) => Some(v),
                        None => {
                            proof {
                                assert(run@.len() > 0);
                                assert(text::all_digits(run@)) by {
                                    assert(forall|m: int|
                                        w2 <= m < e ==> text::is_digit_char(
                                            #[trigger] output@[m],
                                        )) by {
                                        lemma_run_end_digits(output@, w2 as int, e as int);
                                    }
                                }
                            }
                            None
                        },
                    };
                }
            }
        }
        proof {
            assert(!bright_hit(output@, j as int));
        }
        j = j + 1;
        proof {
            assert(spec_bright_find(output@, 0) == spec_bright_find(output@, j as int));
        }
    }
    None
}

/// Every position inside a forward digit run holds a digit.
proof fn lemma_run_end_digits(s: Seq<char>, k: int, e: int)
    requires
        0 <= k <= e <= s.len(),
        spec_run_end(s, k) == e,
    ensures
        forall|m: int| k <= m < e ==> text::is_digit_char(#[trigger] s[m]),
    decreases s.len() - k,
{
    if 0 <= k < s.len() && text::is_digit_char(s[k]) {
        lemma_run_end_bounds(s, k + 1);
        lemma_run_end_digits(s, k + 1, e);
    }
}

proof fn lemma_run_end_bounds(s: Seq<char>, k: int)
    requires
        0 <= k <= s.len(),
    ensures
        k <= spec_run_end(s, k) <= s.len(),
    decreases s.len() - k,
{
    if 0 <= k < s.len() && text::is_digit_char(s[k]) {
        lemma_run_end_bounds(s, k + 1);
    }
}

/// First index at or after `from` holding a character outside the
/// tool's in-line whitespace.
fn skip_ws(chars: &Vec<char>, from: usize) -> (r: usize)
    ensures
        from > chars@.len() ==> r == from,
        from <= chars@.len() ==> from <= r <= chars@.len() && r == spec_ws_end(
            chars@,
            from as int,
        ),
{
    if from > chars.len() {
        return from;
    }
    let mut w: usize = from;
    while w < chars.len() && (chars[w] == ' ' || chars[w] == '\t' || chars[w] == '\n' || chars[w]
        == '\r')
        invariant
            from <= w <= chars@.len(),
            spec_ws_end(chars@, from as int) == spec_ws_end(chars@, w as int),
        decreases chars@.len() - w,
    {
        w = w + 1;
    }
    proof {
        assert(spec_ws_end(chars@, w as int) == w);
    }
    w
}

fn is_digit(c: char) -> (r: bool)
    ensures
        r == text::is_digit_char(c),
{
    '0' <= c && c <= '9'
}

} // verus!
