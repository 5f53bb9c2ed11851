//! Switching the default audio output: sink descriptions, the selector
//! that picks one, and the parsers for the PulseAudio tool's `list
//! sinks`, `info` and `sink-inputs` output. The process invocation
//! lives outside the library.

use vstd::prelude::*;
use vstd::string::StrSliceExecFns;
use vstd::string::StringExecFns;

use crate::system::BackendError;
use crate::text;

verus! {

/// Mathematical image of a sink.
#[verifier::ext_equal]
pub ghost struct SinkView {
    pub id: Option<u32>,
    pub name: Seq<char>,
    pub description: Option<Seq<char>>,
}

/// One audio sink as the tool reports it.
#[derive(Debug, Clone)]
pub struct SinkInfo {
    pub id: Option<u32>,
    pub name: String,
    pub description: Option<String>,
}

impl View for SinkInfo {
    type V = SinkView;

    open spec fn view(&self) -> SinkView {
        SinkView {
            id: self.id,
            name: self.name@,
            description: match self.description {
                Some(d) => Some(d@),
                None => None,
            },
        }
    }
}

impl DeepView for SinkInfo {
    type V = SinkView;

    open spec fn deep_view(&self) -> SinkView {
        self.view()
    }
}

/// How a wanted output is described in configuration: by numeric id, by
/// sink name, or by a human-readable description.
#[derive(Debug, Clone)]
pub enum SinkSelector {
    Id(u32),
    Name(String),
    Description(String),
}

/// Mathematical image of a selector.
pub ghost enum SelectorView {
    Id(u32),
    Name(Seq<char>),
    Description(Seq<char>),
}

impl View for SinkSelector {
    type V = SelectorView;

    open spec fn view(&self) -> SelectorView {
        match self {
            SinkSelector::Id(id) => SelectorView::Id(*id),
            SinkSelector::Name(n) => SelectorView::Name(n@),
            SinkSelector::Description(d) => SelectorView::Description(d@),
        }
    }
}

/// Whether a selector accepts a sink. Name and description matching is
/// case-insensitive (ASCII) and accepts substrings; a name selector also
/// looks into the description, and a description selector also accepts
/// an exactly matching name.
pub open spec fn spec_selector_matches(sel: SelectorView, sink: SinkView) -> bool {
    match sel {
        SelectorView::Id(expected) => sink.id == Some(expected),
        SelectorView::Name(raw) => {
            let e = text::spec_lower(raw);
            let name_l = text::spec_lower(sink.name);
            name_l == e || text::spec_contains(name_l, e) || (match sink.description {
                Some(d) => text::spec_contains(text::spec_lower(d), e),
                None => false,
            })
        },
        SelectorView::Description(raw) => {
            let e = text::spec_lower(raw);
            text::spec_lower(sink.name) == e || (match sink.description {
                Some(d) => {
                    let d_l = text::spec_lower(d);
                    d_l == e || text::spec_contains(d_l, e)
                },
                None => false,
            })
        },
    }
}

impl SinkSelector {
    pub fn by_id(id: u32) -> (r: SinkSelector)
        ensures
            r@ == SelectorView::Id(id),
    {
        SinkSelector::Id(id)
    }

    pub fn by_name(name: String) -> (r: SinkSelector)
        ensures
            r@ == SelectorView::Name(name@),
    {
        SinkSelector::Name(name)
    }

    pub fn by_description(description: String) -> (r: SinkSelector)
        ensures
            r@ == SelectorView::Description(description@),
    {
        SinkSelector::Description(description)
    }

    /// How the selector reads in a log line.
    pub fn describe(&self) -> (r: &str)
        ensures
            match self@ {
                SelectorView::Id(_) => r@ == "specified sink id"@,
                SelectorView::Name(n) => r@ == n,
                SelectorView::Description(d) => r@ == d,
            },
    {
        match self {
            SinkSelector::Id(_) => "specified sink id",
            SinkSelector::Name(name) => name.as_str(),
            SinkSelector::Description(description) => description.as_str(),
        }
    }

    /// Whether this selector accepts the sink.
    pub fn matches(&self, sink: &SinkInfo) -> (r: bool)
        ensures
            r == spec_selector_matches(self@, sink@),
    {
        match self {
            SinkSelector::Id(expected) => match &sink.id {
                Option::Some(id) => *id == *expected,
                Option::None => false,
            },
            SinkSelector::Name(raw) => {
                let e = text::lower_chars(&text::chars_of(raw.as_str()));
                let name_l = text::lower_chars(&text::chars_of(sink.name.as_str()));
                if text::eq_chars(&name_l, &e) || text::contains_chars(&name_l, &e) {
                    true
                } else {
                    match &sink.description {
                        Option::Some(d) => {
                            let d_l = text::lower_chars(&text::chars_of(d.as_str()));
                            text::contains_chars(&d_l, &e)
                        },
                        Option::None => false,
                    }
                }
            },
            SinkSelector::Description(raw) => {
                let e = text::lower_chars(&text::chars_of(raw.as_str()));
                let name_l = text::lower_chars(&text::chars_of(sink.name.as_str()));
                if text::eq_chars(&name_l, &e) {
                    true
                } else {
                    match &sink.description {
                        Option::Some(d) => {
                            let d_l = text::lower_chars(&text::chars_of(d.as_str()));
                            text::eq_chars(&d_l, &e) || text::contains_chars(&d_l, &e)
                        },
                        Option::None => false,
                    }
                }
            },
        }
    }
}

/// The PulseAudio command-line switch tool, as the library knows it:
/// a stateless handle. The process invocations live outside; the
/// parsers below give their output meaning.
#[derive(Debug, Clone)]
pub struct PulseAudioSwitch {
}

impl PulseAudioSwitch {
    pub fn new() -> PulseAudioSwitch {
        PulseAudioSwitch {  }
    }
}

/// What a sink-switching backend offers.
pub trait AudioSwitchBackend {
    /// Makes the selected sink the default and reports the sink chosen,
    /// which may differ from what was asked for.
    fn set_default_sink(&self, selector: &SinkSelector) -> Result<SinkInfo, BackendError>;

    fn current_default_sink(&self) -> Result<Option<SinkInfo>, BackendError>;

    fn list_sinks(&self) -> Result<Vec<SinkInfo>, BackendError>;
}

/// Picks the first listed sink the selector accepts.
pub fn select_sink<'a>(sinks: &'a Vec<SinkInfo>, selector: &SinkSelector) -> (r: Result<
    &'a SinkInfo,
    BackendError,
>)
    ensures
        match r {
            Ok(s) => exists|i: int|
                0 <= i < sinks@.len() && *s == sinks@[i] && spec_selector_matches(
                    selector@,
                    #[trigger] sinks@[i]@,
                ) && (forall|j: int|
                    0 <= j < i ==> !spec_selector_matches(selector@, #[trigger] sinks@[j]@)),
            Err(_) => forall|i: int|
                0 <= i < sinks@.len() ==> !spec_selector_matches(
                    selector@,
                    #[trigger] sinks@[i]@,
                ),
        },
{
    let mut i: usize = 0;
    while i < sinks.len()
        invariant
            i <= sinks@.len(),
            forall|j: int|
                0 <= j < i ==> !spec_selector_matches(selector@, #[trigger] sinks@[j]@),
        decreases sinks@.len() - i,
    {
        if selector.matches(&sinks[i]) {
            return Ok(&sinks[i]);
        }
        i = i + 1;
    }
    Err(BackendError { message: String::from_str("no matching sink found") })
}

/// Running state of the sink-list parser: finished sinks, and the
/// fields of the sink being read.
#[verifier::ext_equal]
pub ghost struct SinkParse {
    pub sinks: Seq<SinkView>,
    pub cur_id: Option<u32>,
    pub cur_name: Option<Seq<char>>,
    pub cur_desc: Option<Seq<char>>,
}

/// First index at or after `k` holding whitespace.
pub open spec fn spec_tok_end(s: Seq<char>, k: int) -> int
    decreases s.len() - k,
{
    if k < 0 || k >= s.len() {
        s.len() as int
    } else if text::is_space_char(s[k]) {
        k
    } else {
        spec_tok_end(s, k + 1)
    }
}

/// The first whitespace-delimited token of `s`.
pub open spec fn spec_first_token(s: Seq<char>) -> Seq<char> {
    let t = text::drop_leading(s);
    t.take(spec_tok_end(t, 0))
}

/// The number a token denotes, if it is all digits and fits.
pub open spec fn spec_token_number(tok: Seq<char>) -> Option<u32> {
    if tok.len() > 0 && text::all_digits(tok) && text::digits_val(tok) <= u32::MAX {
        Some(text::digits_val(tok) as u32)
    } else {
        None
    }
}

/// The first whitespace-delimited token: leading whitespace skipped,
/// then everything up to the next whitespace.
fn first_token(s: &Vec<char>) -> (r: Vec<char>)
    ensures
        r@ == spec_first_token(s@),
{
    let mut a: usize = 0;
    proof {
        assert(s@.skip(0) =~= s@);
    }
    while a < s.len() && text::is_space(s[a])
        invariant
            a <= s@.len(),
            text::drop_leading(s@) == text::drop_leading(s@.skip(a as int)),
        decreases s.len() - a,
    {
        proof {
            assert(s@.skip(a as int).skip(1) =~= s@.skip(a as int + 1));
        }
        a = a + 1;
    }
    let ghost d = s@.skip(a as int);
    proof {
        assert(text::drop_leading(s@) == d);
    }
    let mut e: usize = a;
    while e < s.len() && !text::is_space(s[e])
        invariant
            a <= e <= s@.len(),
            d == s@.skip(a as int),
            spec_tok_end(d, 0) == spec_tok_end(d, e - a),
        decreases s.len() - e,
    {
        proof {
            assert(d[e - a] == s@[e as int]);
        }
        e = e + 1;
    }
    proof {
        if e < s@.len() {
            assert(d[e - a] == s@[e as int]);
        }
        assert(spec_tok_end(d, e - a) == e - a);
    }
    let r = text::slice_range(s, a, e);
    proof {
        assert(r@ =~= d.take(spec_tok_end(d, 0)));
    }
    r
}

/// The finished sink flushed when a new `Sink #` header begins (and at
/// the end of the output): only a sink with a name counts.
pub open spec fn spec_flush(st: SinkParse) -> Seq<SinkView> {
    match st.cur_name {
        Some(n) => st.sinks + seq![
            SinkView { id: st.cur_id, name: n, description: st.cur_desc },
        ],
        None => st.sinks,
    }
}

/// `s` with every leading and trailing `'"'` removed.
pub open spec fn spec_trim_quotes(s: Seq<char>) -> Seq<char> {
    drop_trailing_quotes(drop_leading_quotes(s))
}

pub open spec fn drop_leading_quotes(s: Seq<char>) -> Seq<char>
    decreases s.len(),
{
    if s.len() > 0 && s[0] == '"' {
        drop_leading_quotes(s.skip(1))
    } else {
        s
    }
}

pub open spec fn drop_trailing_quotes(s: Seq<char>) -> Seq<char>
    decreases s.len(),
{
    if s.len() > 0 && s.last() == '"' {
        drop_trailing_quotes(s.drop_last())
    } else {
        s
    }
}

/// One line's effect on the parser state.
pub open spec fn spec_sink_step(st: SinkParse, line: Seq<char>) -> SinkParse {
    let t = text::spec_trim(line);
    if text::is_prefix("Sink #"@, t) {
        SinkParse {
            sinks: spec_flush(st),
            cur_name: None,
            cur_desc: None,
            cur_id: spec_token_number(spec_first_token(t.skip(6))),
        }
    } else if text::is_prefix("Name:"@, t) {
        SinkParse { cur_name: Some(text::spec_trim(t.skip(5))), ..st }
    } else if text::is_prefix("Description:"@, t) {
        SinkParse { cur_desc: Some(text::spec_trim(t.skip(12))), ..st }
    } else if text::is_prefix("device.description ="@, t) {
        let v = spec_trim_quotes(text::spec_trim(t.skip(20)));
        if v.len() > 0 {
            SinkParse { cur_desc: Some(v), ..st }
        } else {
            st
        }
    } else {
        st
    }
}

/// The parser state after a sequence of lines.
pub open spec fn spec_sink_run(st: SinkParse, lines: Seq<Seq<char>>) -> SinkParse
    decreases lines.len(),
{
    if lines.len() == 0 {
        st
    } else {
        spec_sink_run(spec_sink_step(st, lines[0]), lines.skip(1))
    }
}

/// The sinks the whole output describes.
pub open spec fn spec_parse_sinks(s: Seq<char>) -> Seq<SinkView> {
    spec_flush(
        spec_sink_run(
            SinkParse { sinks: Seq::empty(), cur_id: None, cur_name: None, cur_desc: None },
            text::spec_split(s, '\n'),
        ),
    )
}

/// Reads the sink list from the tool's `list sinks` output: each
/// `Sink #` block contributes one sink with its id, `Name:` line and
/// `Description:` (or quoted `device.description`) line.
pub fn parse_sinks(output: &str) -> (r: Vec<SinkInfo>)
    ensures
        r.deep_view() == spec_parse_sinks(output@),
{
    let chars = text::chars_of(output);
    let lines = text::split_char(&chars, '\n');
    proof {
        reveal_strlit("Sink #");
        reveal_strlit("Name:");
        reveal_strlit("Description:");
        reveal_strlit("device.description =");
    }
    let p_sink = text::chars_of("Sink #");
    let p_name = text::chars_of("Name:");
    let p_desc = text::chars_of("Description:");
    let p_dev = text::chars_of("device.description =");
    let mut sinks: Vec<SinkInfo> = Vec::new();
    let mut cur_id: Option<u32> = None;
    let mut cur_name: Option<Vec<char>> = None;
    let mut cur_desc: Option<Vec<char>> = None;
    let ghost st0 = SinkParse {
        sinks: Seq::empty(),
        cur_id: None,
        cur_name: None,
        cur_desc: None,
    };
    let mut li: usize = 0;
    proof {
        assert(lines.deep_view().skip(0) =~= lines.deep_view());
        assert(SinkParse {
            sinks: sinks.deep_view(),
            cur_id,
            cur_name: opt_chars_view(cur_name@),
            cur_desc: opt_chars_view(cur_desc@),
        } =~~= st0);
    }
    while li < lines.len()
        invariant
            li <= lines@.len(),
            lines.deep_view() == text::spec_split(output@, '\n'),
            p_sink@ == "Sink #"@ && p_name@ == "Name:"@ && p_desc@ == "Description:"@ && p_dev@
                == "device.description ="@,
            "Sink #"@.len() == 6 && "Name:"@.len() == 5 && "Description:"@.len() == 12
                && "device.description ="@.len() == 20,
            spec_sink_run(st0, lines.deep_view()) == spec_sink_run(
                SinkParse {
                    sinks: sinks.deep_view(),
                    cur_id,
                    cur_name: opt_chars_view(cur_name@),
                    cur_desc: opt_chars_view(cur_desc@),
                },
                lines.deep_view().skip(li as int),
            ),
        decreases lines@.len() - li,
    {
        let ghost pre = SinkParse {
            sinks: sinks.deep_view(),
            cur_id,
            cur_name: opt_chars_view(cur_name@),
            cur_desc: opt_chars_view(cur_desc@),
        };
        let line = &lines[li];
        let t = text::trim_chars(line);
        proof {
            assert(lines.deep_view()[li as int] == line@);
            assert(t@ == text::spec_trim(line@));
        }
        if text::has_prefix(&t, &p_sink) {
            match take_name(&mut cur_name) {
                Option::Some(name) => {
                    let description = take_desc(&mut cur_desc);
                    sinks.push(SinkInfo { id: cur_id, name, description });
                },
                Option::None => {
                    cur_desc = None;
                },
            }
            let rest = text::slice_range(&t, 6, t.len());
            proof {
                assert(rest@ =~= t@.skip(6));
            }
            let token = first_token(&rest);
            cur_id = text::parse_u32_chars(&token);
            cur_name = None;
            cur_desc = None;
            proof {
                assert(cur_id == spec_token_number(spec_first_token(t@.skip(6))));
                assert(SinkParse {
                    sinks: sinks.deep_view(),
                    cur_id,
                    cur_name: opt_chars_view(cur_name@),
                    cur_desc: opt_chars_view(cur_desc@),
                } =~~= spec_sink_step(pre, line@)) by {
                    assert(sinks.deep_view() =~~= spec_flush(pre));
                }
            }
        } else if text::has_prefix(&t, &p_name) {
            let rest = text::slice_range(&t, 5, t.len());
            proof {
                assert(rest@ =~= t@.skip(5));
            }
            cur_name = Some(text::trim_chars(&rest));
            proof {
                assert(SinkParse {
                    sinks: sinks.deep_view(),
                    cur_id,
                    cur_name: opt_chars_view(cur_name@),
                    cur_desc: opt_chars_view(cur_desc@),
                } =~~= spec_sink_step(pre, line@));
            }
        } else if text::has_prefix(&t, &p_desc) {
            let rest = text::slice_range(&t, 12, t.len());
            proof {
                assert(rest@ =~= t@.skip(12));
            }
            cur_desc = Some(text::trim_chars(&rest));
            proof {
                assert(SinkParse {
                    sinks: sinks.deep_view(),
                    cur_id,
                    cur_name: opt_chars_view(cur_name@),
                    cur_desc: opt_chars_view(cur_desc@),
                } =~~= spec_sink_step(pre, line@));
            }
        } else if text::has_prefix(&t, &p_dev) {
            let rest = text::slice_range(&t, 20, t.len());
            proof {
                assert(rest@ =~= t@.skip(20));
            }
            let trimmed = text::trim_chars(&rest);
            let unquoted = trim_quote_chars(&trimmed);
            if unquoted.len() > 0 {
                cur_desc = Some(unquoted);
            }
            proof {
                assert(SinkParse {
                    sinks: sinks.deep_view(),
                    cur_id,
                    cur_name: opt_chars_view(cur_name@),
                    cur_desc: opt_chars_view(cur_desc@),
                } =~~= spec_sink_step(pre, line@));
            }
        } else {
            proof {
                assert(spec_sink_step(pre, line@) == pre);
            }
        }
        li = li + 1;
        proof {
            assert(lines.deep_view().skip(li - 1).skip(1) =~= lines.deep_view().skip(li as int));
            assert(lines.deep_view().skip(li - 1)[0] == line@);
        }
    }
    match take_name(&mut cur_name) {
        Option::Some(name) => {
            let description = take_desc(&mut cur_desc);
            sinks.push(SinkInfo { id: cur_id, name, description });
        },
        Option::None => {},
    }
    proof {
        assert(lines.deep_view().skip(lines@.len() as int).len() == 0);
        assert(sinks.deep_view() =~~= spec_parse_sinks(output@));
    }
    sinks
}

/// View of the pending-name/description option.
pub open spec fn opt_chars_view(o: Option<Vec<char>>) -> Option<Seq<char>> {
    match o {
        Some(v) => Some(v@),
        None => None,
    }
}

/// Moves the pending name out as a `String`.
fn take_name(cur: &mut Option<Vec<char>>) -> (r: Option<String>)
    ensures
        final(cur)@ is None,
        match r {
            Some(s) => old(cur)@ matches Some(v) && s@ == v@,
            None => old(cur)@ is None,
        },
{
    let taken = cur.take();
    match taken {
        Option::Some(v) => Some(text::string_of(&v)),
        Option::None => None,
    }
}

/// Moves the pending description out as a `String`.
fn take_desc(cur: &mut Option<Vec<char>>) -> (r: Option<String>)
    ensures
        final(cur)@ is None,
        match r {
            Some(s) => old(cur)@ matches Some(v) && s@ == v@,
            None => old(cur)@ is None,
        },
{
    let taken = cur.take();
    match taken {
        Option::Some(v) => Some(text::string_of(&v)),
        Option::None => None,
    }
}

/// Removes every leading and trailing double quote.
fn trim_quote_chars(s: &Vec<char>) -> (r: Vec<char>)
    ensures
        r@ == spec_trim_quotes(s@),
{
    let mut a: usize = 0;
    proof {
        assert(s@.skip(0) =~= s@);
    }
    while a < s.len() && s[a] == '"'
        invariant
            a <= s@.len(),
            drop_leading_quotes(s@) == drop_leading_quotes(s@.skip(a as int)),
        decreases s.len() - a,
    {
        proof {
            assert(s@.skip(a as int).skip(1) =~= s@.skip(a as int + 1));
        }
        a = a + 1;
    }
    proof {
        assert(drop_leading_quotes(s@.skip(a as int)) == s@.skip(a as int));
        assert(s@.skip(a as int) =~= s@.subrange(a as int, s@.len() as int));
    }
    let mut b: usize = s.len();
    while b > a && s[b - 1] == '"'
        invariant
            a <= b <= s@.len(),
            drop_leading_quotes(s@) == s@.skip(a as int),
            drop_trailing_quotes(s@.skip(a as int)) == drop_trailing_quotes(
                s@.subrange(a as int, b as int),
            ),
        decreases b,
    {
        proof {
            assert(s@.subrange(a as int, b as int).last() == s@[b - 1]);
            assert(s@.subrange(a as int, b as int).drop_last() =~= s@.subrange(
                a as int,
                b as int - 1,
            ));
        }
        b = b - 1;
    }
    proof {
        if b > a {
            assert(s@.subrange(a as int, b as int).last() == s@[b - 1]);
        }
        assert(drop_trailing_quotes(s@.subrange(a as int, b as int)) == s@.subrange(
            a as int,
            b as int,
        ));
    }
    text::slice_range(s, a, b)
}

/// The line the `Default Sink:` reading stands on, scanning from `i`.
pub open spec fn spec_default_sink_from(lines: Seq<Seq<char>>, i: int) -> Option<Seq<char>>
    decreases lines.len() - i,
{
    if i < 0 || i >= lines.len() {
        None
    } else {
        let t = text::spec_trim(lines[i]);
        if text::is_prefix("Default Sink:"@, t) {
            Some(text::spec_trim(t.skip(13)))
        } else {
            spec_default_sink_from(lines, i + 1)
        }
    }
}

/// The name on the first `Default Sink:` line of the tool's `info`
/// output, trimmed; `None` when no such line exists.
pub fn parse_default_sink(output: &str) -> (r: Option<String>)
    ensures
        ({
            let found = spec_default_sink_from(text::spec_split(output@, '\n'), 0);
            match r {
                Some(s) => found matches Some(v) && s@ == v,
                None => found is None,
            }
        }),
{
    let chars = text::chars_of(output);
    let lines = text::split_char(&chars, '\n');
    proof {
        reveal_strlit("Default Sink:");
    }
    let marker = text::chars_of("Default Sink:");
    let mut li: usize = 0;
    while li < lines.len()
        invariant
            li <= lines@.len(),
            lines.deep_view() == text::spec_split(output@, '\n'),
            marker@ == "Default Sink:"@,
            "Default Sink:"@.len() == 13,
            spec_default_sink_from(lines.deep_view(), 0) == spec_default_sink_from(
                lines.deep_view(),
                li as int,
            ),
        decreases lines@.len() - li,
    {
        let t = text::trim_chars(&lines[li]);
        proof {
            assert(lines.deep_view()[li as int] == lines@[li as int]@);
            assert(t@ == text::spec_trim(lines.deep_view()[li as int]));
        }
        if text::has_prefix(&t, &marker) {
            let rest = text::slice_range(&t, 13, t.len());
            proof {
                assert(rest@ =~= t@.skip(13));
            }
            let value = text::trim_chars(&rest);
            return Some(text::string_of(&value));
        }
        li = li + 1;
    }
    None
}

/// The first tokens of the nonempty lines, scanning from `i`: the
/// sink-input identifiers of the tool's short listing.
pub open spec fn spec_sink_inputs_from(lines: Seq<Seq<char>>, i: int) -> Seq<Seq<char>>
    decreases lines.len() - i,
{
    if i < 0 || i >= lines.len() {
        Seq::empty()
    } else {
        let t = text::spec_trim(lines[i]);
        let head: Seq<Seq<char>> = if t.len() == 0 {
            Seq::empty()
        } else {
            seq![t.take(spec_tok_end(t, 0))]
        };
        head + spec_sink_inputs_from(lines, i + 1)
    }
}

/// The identifier column of the tool's short sink-input listing: the
/// first whitespace-delimited token of every nonempty line.
pub fn parse_sink_inputs(output: &str) -> (r: Vec<String>)
    ensures
        r.deep_view() == spec_sink_inputs_from(text::spec_split(output@, '\n'), 0),
{
    let chars = text::chars_of(output);
    let lines = text::split_char(&chars, '\n');
    let mut out: Vec<String> = Vec::new();
    let mut li: usize = 0;
    proof {
        assert(out.deep_view() + spec_sink_inputs_from(lines.deep_view(), 0)
            =~~= spec_sink_inputs_from(lines.deep_view(), 0));
    }
    while li < lines.len()
        invariant
            li <= lines@.len(),
            lines.deep_view() == text::spec_split(output@, '\n'),
            spec_sink_inputs_from(lines.deep_view(), 0) == out.deep_view()
                + spec_sink_inputs_from(lines.deep_view(), li as int),
        decreases lines@.len() - li,
    {
        let ghost pre = out.deep_view();
        let t = text::trim_chars(&lines[li]);
        proof {
            assert(lines.deep_view()[li as int] == lines@[li as int]@);
            assert(t@ == text::spec_trim(lines.deep_view()[li as int]));
        }
        if t.len() > 0 {
            let mut e: usize = 0;
            while e < t.len() && !text::is_space(t[e])
                invariant
                    e <= t@.len(),
                    spec_tok_end(t@, 0) == spec_tok_end(t@, e as int),
                decreases t@.len() - e,
            {
                e = e + 1;
            }
            proof {
                assert(spec_tok_end(t@, e as int) == e);
            }
            let token = text::slice_range(&t, 0, e);
            out.push(text::string_of(&token));
            proof {
                assert(out.deep_view() =~~= pre.push(token@));
                assert(token@ =~= t@.take(spec_tok_end(t@, 0)));
            }
        }
        li = li + 1;
        proof {
            assert(spec_sink_inputs_from(lines.deep_view(), 0) =~~= out.deep_view()
                + spec_sink_inputs_from(lines.deep_view(), li as int));
        }
    }
    out
}

} // verus!
