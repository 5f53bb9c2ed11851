//! Launcher buttons: parsing a desktop entry's command line into a
//! program and arguments (quote-aware, with field codes removed), and
//! the per-button table the dispatch loop consults. Spawning the
//! process happens outside the library.

use vstd::prelude::*;
use vstd::string::StringExecFns;

use crate::hardware::model::{ButtonImage, DisplayPipeline, PipelineError};
use crate::system::desktop::DesktopEntry;
use crate::text;

verus! {

/// A parsed command: the program and its arguments.
pub struct ExecSpec {
    pub program: String,
    pub args: Vec<String>,
}

/// Running state of the quote-aware splitter.
#[verifier::ext_equal]
pub ghost struct SplitState {
    pub args: Seq<Seq<char>>,
    pub cur: Seq<char>,
    pub in_single: bool,
    pub in_double: bool,
    pub escaped: bool,
}

/// One character's effect: backslash escapes the next character (outside
/// single quotes), quotes toggle their mode, unquoted whitespace ends
/// the current argument, everything else joins it.
pub open spec fn spec_split_step(st: SplitState, c: char) -> SplitState {
    if st.escaped {
        SplitState { cur: st.cur.push(c), escaped: false, ..st }
    } else if c == '\'' && !st.in_double {
        SplitState { in_single: !st.in_single, ..st }
    } else if c == '"' && !st.in_single {
        SplitState { in_double: !st.in_double, ..st }
    } else if c == '\\' && !st.in_single {
        SplitState { escaped: true, ..st }
    } else if text::is_space_char(c) && !st.in_single && !st.in_double {
        if st.cur.len() > 0 {
            SplitState { args: st.args.push(st.cur), cur: Seq::empty(), ..st }
        } else {
            st
        }
    } else {
        SplitState { cur: st.cur.push(c), ..st }
    }
}

pub open spec fn spec_split_run(st: SplitState, s: Seq<char>) -> SplitState
    decreases s.len(),
{
    if s.len() == 0 {
        st
    } else {
        spec_split_run(spec_split_step(st, s[0]), s.skip(1))
    }
}

pub open spec fn spec_split_start() -> SplitState {
    SplitState {
        args: Seq::empty(),
        cur: Seq::empty(),
        in_single: false,
        in_double: false,
        escaped: false,
    }
}

/// The arguments of a command line: quote-aware splitting on
/// whitespace, with a pending argument flushed at the end.
pub open spec fn spec_split_exec(s: Seq<char>) -> Seq<Seq<char>> {
    let st = spec_split_run(spec_split_start(), s);
    if st.cur.len() > 0 {
        st.args.push(st.cur)
    } else {
        st.args
    }
}

/// Splits a command line into whitespace-separated arguments, honouring
/// single and double quotes and backslash escapes.
pub fn split_exec(command: &str) -> (r: Vec<String>)
    ensures
        r.deep_view() == spec_split_exec(command@),
{
    let chars = text::chars_of(command);
    let mut args: Vec<String> = Vec::new();
    let mut cur: Vec<char> = Vec::new();
    let mut in_single = false;
    let mut in_double = false;
    let mut escaped = false;
    let mut i: usize = 0;
    proof {
        assert(chars@.skip(0) =~= chars@);
        assert(SplitState {
            args: args.deep_view(),
            cur: cur@,
            in_single,
            in_double,
            escaped,
        } =~~= spec_split_start());
    }
    while i < chars.len()
        invariant
            i <= chars@.len(),
            chars@ == command@,
            spec_split_run(spec_split_start(), command@) == spec_split_run(
                SplitState { args: args.deep_view(), cur: cur@, in_single, in_double, escaped },
                command@.skip(i as int),
            ),
        decreases chars@.len() - i,
    {
        let ghost pre = SplitState {
            args: args.deep_view(),
            cur: cur@,
            in_single,
            in_double,
            escaped,
        };
        let c = chars[i];
        proof {
            assert(command@.skip(i as int)[0] == c);
            assert(command@.skip(i as int).skip(1) =~= command@.skip(i as int + 1));
        }
        if escaped {
            cur.push(c);
            escaped = false;
        } else if c == '\'' && !in_double {
            in_single = !in_single;
        } else if c == '"' && !in_single {
            in_double = !in_double;
        } else if c == '\\' && !in_single {
            escaped = true;
        } else if text::is_space(c) && !in_single && !in_double {
            if cur.len() > 0 {
                let ghost finished = cur@;
                args.push(text::string_of(&cur));
                cur = Vec::new();
                proof {
                    assert(args.deep_view() =~~= pre.args.push(finished));
                }
            }
        } else {
            cur.push(c);
        }
        i = i + 1;
        proof {
            assert(SplitState {
                args: args.deep_view(),
                cur: cur@,
                in_single,
                in_double,
                escaped,
            } =~~= spec_split_step(pre, c));
        }
    }
    proof {
        assert(command@.skip(command@.len() as int).len() == 0);
    }
    if cur.len() > 0 {
        let ghost finished = cur@;
        let ghost pre_args = args.deep_view();
        args.push(text::string_of(&cur));
        proof {
            assert(args.deep_view() =~~= pre_args.push(finished));
        }
    }
    proof {
        assert(args.deep_view() =~~= spec_split_exec(command@));
    }
    args
}

/// Running state of the field-code scanner.
#[verifier::ext_equal]
pub ghost struct CodeScan {
    pub out: Seq<char>,
    pub pending: bool,
    pub dropped: bool,
}

/// One character's effect: after a percent sign, another percent becomes
/// a literal one and anything else drops the whole token; otherwise a
/// percent starts a code and all else is kept.
pub open spec fn spec_code_step(st: CodeScan, c: char) -> CodeScan {
    if st.dropped {
        st
    } else if st.pending {
        if c == '%' {
            CodeScan { out: st.out.push('%'), pending: false, ..st }
        } else {
            CodeScan { dropped: true, ..st }
        }
    } else if c == '%' {
        CodeScan { pending: true, ..st }
    } else {
        CodeScan { out: st.out.push(c), ..st }
    }
}

pub open spec fn spec_code_run(st: CodeScan, s: Seq<char>) -> CodeScan
    decreases s.len(),
{
    if s.len() == 0 {
        st
    } else {
        spec_code_run(spec_code_step(st, s[0]), s.skip(1))
    }
}

/// A token with its field codes handled: `%%` becomes `%`, a trailing
/// lone `%` stays, and any other `%`-code drops the token.
pub open spec fn spec_stripped(s: Seq<char>) -> Option<Seq<char>> {
    let st = spec_code_run(CodeScan { out: Seq::empty(), pending: false, dropped: false }, s);
    if st.dropped {
        None
    } else if st.pending {
        Some(st.out.push('%'))
    } else {
        Some(st.out)
    }
}

/// Removes field codes from one argument, or drops it entirely when it
/// carries a placeholder the launcher cannot fill.
pub fn strip_field_codes(token: &str) -> (r: Option<String>)
    ensures
        match (r, spec_stripped(token@)) {
            (Some(a), Some(b)) => a@ == b,
            (None, None) => true,
            _ => false,
        },
{
    let chars = text::chars_of(token);
    let mut out: Vec<char> = Vec::new();
    let mut pending = false;
    let mut i: usize = 0;
    proof {
        assert(chars@.skip(0) =~= chars@);
        assert(CodeScan { out: out@, pending, dropped: false } =~~= (CodeScan {
            out: Seq::empty(),
            pending: false,
            dropped: false,
        }));
    }
    while i < chars.len()
        invariant
            i <= chars@.len(),
            chars@ == token@,
            spec_code_run(
                CodeScan { out: Seq::empty(), pending: false, dropped: false },
                token@,
            ) == spec_code_run(
                CodeScan { out: out@, pending, dropped: false },
                token@.skip(i as int),
            ),
        decreases chars@.len() - i,
    {
        let ghost pre = CodeScan { out: out@, pending, dropped: false };
        let c = chars[i];
        proof {
            assert(token@.skip(i as int)[0] == c);
            assert(token@.skip(i as int).skip(1) =~= token@.skip(i as int + 1));
        }
        if pending {
            if c == '%' {
                out.push('%');
                pending = false;
            } else {
                proof {
                    lemma_dropped_stays(
                        spec_code_step(pre, c),
                        token@.skip(i as int + 1),
                    );
                }
                return None;
            }
        } else if c == '%' {
            pending = true;
        } else {
            out.push(c);
        }
        i = i + 1;
        proof {
            assert(CodeScan { out: out@, pending, dropped: false } =~~= spec_code_step(pre, c));
        }
    }
    proof {
        assert(token@.skip(token@.len() as int).len() == 0);
    }
    if pending {
        out.push('%');
    }
    Some(text::string_of(&out))
}

/// Once dropped, the scanner stays dropped.
proof fn lemma_dropped_stays(st: CodeScan, s: Seq<char>)
    requires
        st.dropped,
    ensures
        spec_code_run(st, s).dropped,
    decreases s.len(),
{
    if s.len() > 0 {
        lemma_dropped_stays(st, s.skip(1));
    }
}

/// The surviving arguments of a command line: split, stripped of field
/// codes, with dropped and empty results removed.
pub open spec fn spec_processed(tokens: Seq<Seq<char>>) -> Seq<Seq<char>>
    decreases tokens.len(),
{
    if tokens.len() == 0 {
        Seq::empty()
    } else {
        let head: Seq<Seq<char>> = match spec_stripped(tokens[0]) {
            Some(clean) => if clean.len() > 0 {
                seq![clean]
            } else {
                Seq::empty()
            },
            None => Seq::empty(),
        };
        head + spec_processed(tokens.skip(1))
    }
}

/// Parses an entry's command line: the first surviving argument is the
/// program, the rest its arguments; `None` when the entry has no
/// command or nothing survives.
pub fn parse_exec(entry: &DesktopEntry) -> (r: Option<ExecSpec>)
    ensures
        ({
            match &entry.exec_command {
                Some(command) => {
                    let processed = spec_processed(spec_split_exec(command@));
                    match r {
                        Some(spec) => processed.len() > 0 && spec.program@ == processed[0]
                            && spec.args.deep_view() == processed.skip(1),
                        None => processed.len() == 0,
                    }
                },
                None => r is None,
            }
        }),
{
    let command = match &entry.exec_command {
        Option::Some(c) => c,
        Option::None => {
            return None;
        },
    };
    let tokens = split_exec(command.as_str());
    let ghost token_views = tokens.deep_view();
    let mut processed: Vec<String> = Vec::new();
    let mut i: usize = 0;
    proof {
        assert(token_views.skip(0) =~= token_views);
        assert(processed.deep_view() + spec_processed(token_views) =~~= spec_processed(
            token_views,
        ));
    }
    while i < tokens.len()
        invariant
            i <= tokens@.len(),
            token_views == tokens.deep_view(),
            spec_processed(token_views) == processed.deep_view() + spec_processed(
                token_views.skip(i as int),
            ),
        decreases tokens@.len() - i,
    {
        let ghost pre = processed.deep_view();
        proof {
            assert(token_views.skip(i as int)[0] == token_views[i as int]);
            assert(token_views.skip(i as int).skip(1) =~= token_views.skip(i as int + 1));
        }
        match strip_field_codes(tokens[i].as_str()) {
            Option::Some(clean) => {
                if clean.as_str().unicode_len() > 0 {
                    let ghost cv = clean@;
                    processed.push(clean);
                    proof {
                        assert(processed.deep_view() =~~= pre.push(cv));
                    }
                }
            },
            Option::None => {},
        }
        i = i + 1;
        proof {
            assert(spec_processed(token_views) =~~= processed.deep_view() + spec_processed(
                token_views.skip(i as int),
            ));
        }
    }
    proof {
        assert(token_views.skip(tokens@.len() as int).len() == 0);
        assert(processed.deep_view() =~~= spec_processed(token_views));
    }
    if processed.len() == 0 {
        return None;
    }
    let mut rest = processed;
    let program = rest.remove(0);
    proof {
        assert(rest.deep_view() =~~= spec_processed(token_views).skip(1));
    }
    Some(ExecSpec { program, args: rest })
}

/// One configured launcher button, ready to activate.
pub struct LauncherButton {
    pub desktop_id: String,
    pub name: Option<String>,
    pub icon: Option<ButtonImage>,
    pub exec_spec: Option<ExecSpec>,
    pub working_dir: Option<String>,
    pub terminal: bool,
    pub source_path: String,
}

impl LauncherButton {
    /// Builds a button from a parsed entry and its already decoded icon.
    /// An entry whose type is present and not `application` (compared
    /// case-insensitively) is refused.
    pub fn from_entry(entry: DesktopEntry, icon: Option<ButtonImage>) -> (r: Option<
        LauncherButton,
    >)
    {
        match &entry.entry_type {
            Option::Some(entry_type) => {
                proof {
                    reveal_strlit("application");
                }
                let l = text::lower_chars(&text::chars_of(entry_type.as_str()));
                if !text::eq_chars(&l, &text::chars_of("application")) {
                    return None;
                }
            },
            Option::None => {},
        }
        let exec_spec = parse_exec(&entry);
        Some(
            LauncherButton {
                desktop_id: entry.desktop_id,
                name: entry.name,
                icon,
                exec_spec,
                working_dir: entry.working_dir,
                terminal: entry.terminal,
                source_path: entry.source_path,
            },
        )
    }
}

/// The launcher's button table: each index owned by at most one button.
pub struct LauncherController {
    pub buttons: Vec<(u8, LauncherButton)>,
}

impl LauncherController {
    /// No index appears twice.
    pub open spec fn wf(self) -> bool {
        forall|i: int, j: int|
            0 <= i < j < self.buttons@.len() ==> (#[trigger] self.buttons@[i]).0 != (
            #[trigger] self.buttons@[j]).0
    }

    /// A controller over the prepared buttons (later entries replace
    /// earlier ones for the same index), with each icon pushed once.
    /// `None` when no button is configured.
    pub fn new<H: DisplayPipeline>(buttons: Vec<(u8, LauncherButton)>, hardware: &H) -> (r:
        Result<Option<LauncherController>, PipelineError>)
        ensures
            match r {
                Ok(Some(c)) => c.wf(),
                Ok(None) => buttons@.len() == 0,
                Err(_) => true,
            },
    {
        let ghost given = buttons@.len();
        let mut buttons = buttons;
        let mut table: Vec<(u8, LauncherButton)> = Vec::new();
        while buttons.len() > 0
            invariant
                buttons@.len() == given || table@.len() > 0,
                forall|i: int, j: int|
                    0 <= i < j < table@.len() ==> (#[trigger] table@[i]).0 != (
                    #[trigger] table@[j]).0,
            decreases buttons@.len(),
        {
            let (index, button) = buttons.remove(0);
            let mut pos: Option<usize> = None;
            let mut k: usize = 0;
            while k < table.len()
                invariant
                    k <= table@.len(),
                    forall|i: int, j: int|
                        0 <= i < j < table@.len() ==> (#[trigger] table@[i]).0 != (
                        #[trigger] table@[j]).0,
                    match pos {
                        Some(p) => p < table@.len() && table@[p as int].0 == index,
                        None => forall|i: int|
                            0 <= i < k ==> (#[trigger] table@[i]).0 != index,
                    },
                decreases table@.len() - k,
            {
                if table[k].0 == index {
                    pos = Some(k);
                    k = table.len();
                } else {
                    k = k + 1;
                }
            }
            match pos {
                Option::Some(p) => {
                    table.set(p, (index, button));
                },
                Option::None => {
                    table.push((index, button));
                },
            }
        }
        if table.len() == 0 {
            return Ok(None);
        }
        let controller = LauncherController { buttons: table };
        let mut k: usize = 0;
        while k < controller.buttons.len()
            invariant
                controller.wf(),
                k <= controller.buttons@.len(),
            decreases controller.buttons@.len() - k,
        {
            let index = controller.buttons[k].0;
            match &controller.buttons[k].1.icon {
                Option::Some(icon) => {
                    match hardware.update_button_icon(index, Some(icon.duplicate())) {
                        Ok(()) => {},
                        Err(e) => {
                            return Err(e);
                        },
                    }
                },
                Option::None => {},
            }
            k = k + 1;
        }
        Ok(Some(controller))
    }

    /// The button registered for an index, if any.
    pub fn lookup(&self, index: u8) -> (r: Option<&LauncherButton>)
        ensures
            match r {
                Some(b) => exists|i: int|
                    0 <= i < self.buttons@.len() && (#[trigger] self.buttons@[i]).0 == index
                        && *b == self.buttons@[i].1,
                None => forall|i: int|
                    0 <= i < self.buttons@.len() ==> (#[trigger] self.buttons@[i]).0 != index,
            },
    {
        let mut k: usize = 0;
        while k < self.buttons.len()
            invariant
                k <= self.buttons@.len(),
                forall|i: int| 0 <= i < k ==> (#[trigger] self.buttons@[i]).0 != index,
            decreases self.buttons@.len() - k,
        {
            if self.buttons[k].0 == index {
                return Some(&self.buttons[k].1);
            }
            k = k + 1;
        }
        None
    }

    /// Whether a press on this index belongs to the launcher: the
    /// dispatch loop stops the chain when it does, and the caller then
    /// activates the button's command outside the library.
    pub fn on_button_pressed(&self, index: u8) -> (r: bool)
        ensures
            r == exists|i: int|
                0 <= i < self.buttons@.len() && (#[trigger] self.buttons@[i]).0 == index,
    {
        match self.lookup(index) {
            Option::Some(_) => true,
            Option::None => false,
        }
    }
}

} // verus!
