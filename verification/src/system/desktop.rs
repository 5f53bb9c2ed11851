//! Desktop-entry files: the line parser for their key/value format and
//! the entry record the launcher builds buttons from. Reading the file
//! itself happens outside the library.

use vstd::prelude::*;
use vstd::string::StrSliceExecFns;
use vstd::string::StringExecFns;

use crate::text;

verus! {

/// Why a desktop-entry file was refused.
#[derive(Debug, Clone, Copy, PartialEq, Eq, Structural)]
pub enum DesktopError {
    /// A line inside the entry section has an empty key.
    InvalidLine,
    /// No key/value line stands inside a `[Desktop Entry]` section.
    MissingSection,
    /// The path has no file name to use as the entry's identity.
    NoFileName,
}

/// The fields read from a desktop-entry file.
#[verifier::ext_equal]
pub ghost struct DesktopFieldsView {
    pub name: Option<Seq<char>>,
    pub icon: Option<Seq<char>>,
    pub exec_command: Option<Seq<char>>,
    pub try_exec: Option<Seq<char>>,
    pub path: Option<Seq<char>>,
    pub terminal: Option<Seq<char>>,
    pub startup_wm_class: Option<Seq<char>>,
    pub entry_type: Option<Seq<char>>,
}

#[derive(Debug)]
pub struct DesktopFields {
    pub name: Option<String>,
    pub icon: Option<String>,
    pub exec_command: Option<String>,
    pub try_exec: Option<String>,
    pub path: Option<String>,
    pub terminal: Option<String>,
    pub startup_wm_class: Option<String>,
    pub entry_type: Option<String>,
}

impl View for DesktopFields {
    type V = DesktopFieldsView;

    open spec fn view(&self) -> DesktopFieldsView {
        DesktopFieldsView {
            name: ov(self.name),
            icon: ov(self.icon),
            exec_command: ov(self.exec_command),
            try_exec: ov(self.try_exec),
            path: ov(self.path),
            terminal: ov(self.terminal),
            startup_wm_class: ov(self.startup_wm_class),
            entry_type: ov(self.entry_type),
        }
    }
}

pub open spec fn ov(o: Option<String>) -> Option<Seq<char>> {
    match o {
        Some(s) => Some(s@),
        None => None,
    }
}

/// Running state of the desktop-entry parser.
#[verifier::ext_equal]
pub ghost struct DesktopParse {
    pub in_section: bool,
    pub seen: bool,
    pub failed: bool,
    pub fields: DesktopFieldsView,
}

/// One line's effect: comments and blanks do nothing; `[...]` switches
/// the section; inside `[Desktop Entry]`, `key=value` (both trimmed)
/// stores the known keys, the last occurrence winning; a line with an
/// empty key fails the file.
pub open spec fn spec_desktop_step(st: DesktopParse, line: Seq<char>) -> DesktopParse {
    if st.failed {
        st
    } else {
        let t = text::spec_trim(line);
        if t.len() == 0 || t[0] == '#' {
            st
        } else if t.len() >= 2 && t[0] == '[' && t.last() == ']' {
            DesktopParse {
                in_section: text::spec_trim(t.subrange(1, t.len() - 1)) == "Desktop Entry"@,
                ..st
            }
        } else if !st.in_section {
            st
        } else {
            let i = text::spec_find(t, '=');
            let key = text::spec_trim(t.take(i));
            let value = if i < t.len() {
                text::spec_trim(t.skip(i + 1))
            } else {
                Seq::<char>::empty()
            };
            if key.len() == 0 {
                DesktopParse { failed: true, ..st }
            } else {
                DesktopParse { seen: true, fields: spec_store(st.fields, key, value), ..st }
            }
        }
    }
}

/// Stores a known key's value; unknown keys only mark the section as
/// populated.
pub open spec fn spec_store(f: DesktopFieldsView, key: Seq<char>, value: Seq<char>)
    -> DesktopFieldsView {
    if key == "Name"@ {
        DesktopFieldsView { name: Some(value), ..f }
    } else if key == "Icon"@ {
        DesktopFieldsView { icon: Some(value), ..f }
    } else if key == "Exec"@ {
        DesktopFieldsView { exec_command: Some(value), ..f }
    } else if key == "TryExec"@ {
        DesktopFieldsView { try_exec: Some(value), ..f }
    } else if key == "Path"@ {
        DesktopFieldsView { path: Some(value), ..f }
    } else if key == "Terminal"@ {
        DesktopFieldsView { terminal: Some(value), ..f }
    } else if key == "StartupWMClass"@ {
        DesktopFieldsView { startup_wm_class: Some(value), ..f }
    } else if key == "Type"@ {
        DesktopFieldsView { entry_type: Some(value), ..f }
    } else {
        f
    }
}

pub open spec fn spec_desktop_run(st: DesktopParse, lines: Seq<Seq<char>>) -> DesktopParse
    decreases lines.len(),
{
    if lines.len() == 0 {
        st
    } else {
        spec_desktop_run(spec_desktop_step(st, lines[0]), lines.skip(1))
    }
}

pub open spec fn spec_desktop_start() -> DesktopParse {
    DesktopParse {
        in_section: false,
        seen: false,
        failed: false,
        fields: DesktopFieldsView {
            name: None,
            icon: None,
            exec_command: None,
            try_exec: None,
            path: None,
            terminal: None,
            startup_wm_class: None,
            entry_type: None,
        },
    }
}

/// Reads the `[Desktop Entry]` section's fields. A line with an empty
/// key fails the file; a file whose entry section holds no key/value
/// line at all is refused.
pub fn parse_desktop_entry(contents: &str) -> (r: Result<DesktopFields, DesktopError>)
    ensures
        ({
            let st = spec_desktop_run(
                spec_desktop_start(),
                text::spec_split(contents@, '\n'),
            );
            match r {
                Ok(f) => !st.failed && st.seen && f@ == st.fields,
                Err(DesktopError::InvalidLine) => st.failed,
                Err(DesktopError::MissingSection) => !st.failed && !st.seen,
                Err(DesktopError::NoFileName) => false,
            }
        }),
{
    let chars = text::chars_of(contents);
    let lines = text::split_char(&chars, '\n');
    proof {
        reveal_strlit("Desktop Entry");
        reveal_strlit("Name");
        reveal_strlit("Icon");
        reveal_strlit("Exec");
        reveal_strlit("TryExec");
        reveal_strlit("Path");
        reveal_strlit("Terminal");
        reveal_strlit("StartupWMClass");
        reveal_strlit("Type");
    }
    let section_name = text::chars_of("Desktop Entry");
    let mut in_section = false;
    let mut seen = false;
    let mut fields = DesktopFields {
        name: None,
        icon: None,
        exec_command: None,
        try_exec: None,
        path: None,
        terminal: None,
        startup_wm_class: None,
        entry_type: None,
    };
    let mut li: usize = 0;
    proof {
        assert(lines.deep_view().skip(0) =~= lines.deep_view());
        assert(DesktopParse { in_section, seen, failed: false, fields: fields@ }
            =~~= spec_desktop_start());
    }
    while li < lines.len()
        invariant
            li <= lines@.len(),
            lines.deep_view() == text::spec_split(contents@, '\n'),
            section_name@ == "Desktop Entry"@,
            spec_desktop_run(spec_desktop_start(), lines.deep_view()) == spec_desktop_run(
                DesktopParse { in_section, seen, failed: false, fields: fields@ },
                lines.deep_view().skip(li as int),
            ),
        decreases lines@.len() - li,
    {
        let ghost pre = DesktopParse { in_section, seen, failed: false, fields: fields@ };
        let t = text::trim_chars(&lines[li]);
        proof {
            assert(lines.deep_view()[li as int] == lines@[li as int]@);
            assert(t@ == text::spec_trim(lines.deep_view()[li as int]));
        }
        if t.len() == 0 || t[0] == '#' {
            proof {
                assert(spec_desktop_step(pre, lines.deep_view()[li as int]) == pre);
            }
        } else if t.len() >= 2 && t[0] == '[' && t[t.len() - 1] == ']' {
            let inner = text::slice_range(&t, 1, t.len() - 1);
            proof {
                assert(inner@ =~= t@.subrange(1, t@.len() - 1));
                assert(t@.last() == ']');
            }
            let trimmed_inner = text::trim_chars(&inner);
            in_section = text::eq_chars(&trimmed_inner, &section_name);
            proof {
                assert(DesktopParse { in_section, seen, failed: false, fields: fields@ }
                    =~~= spec_desktop_step(pre, lines.deep_view()[li as int]));
            }
        } else if !in_section {
            proof {
                assert(spec_desktop_step(pre, lines.deep_view()[li as int]) == pre);
            }
        } else {
            proof {
                text::lemma_find(t@, '=');
            }
            let eq_pos = match text::find_char_from(&t, '=', 0) {
                Option::Some(p) => p,
                Option::None => t.len(),
            };
            proof {
                assert(t@.skip(0) =~= t@);
                assert(eq_pos == text::spec_find(t@, '='));
            }
            let key_part = text::slice_range(&t, 0, eq_pos);
            let key = text::trim_chars(&key_part);
            proof {
                assert(key_part@ =~= t@.take(eq_pos as int));
            }
            if key.len() == 0 {
                proof {
                    assert(spec_desktop_run(spec_desktop_start(), lines.deep_view()).failed)
                        by {
                        lemma_failed_stays(
                            spec_desktop_step(pre, lines.deep_view()[li as int]),
                            lines.deep_view().skip(li + 1),
                        );
                        assert(lines.deep_view().skip(li as int).skip(1) =~= lines.deep_view()
                            .skip(li + 1));
                        assert(lines.deep_view().skip(li as int)[0] == lines.deep_view()[
                        li as int]);
                    }
                }
                return Err(DesktopError::InvalidLine);
            }
            let value: Vec<char> = if eq_pos < t.len() {
                let value_part = text::slice_range(&t, eq_pos + 1, t.len());
                proof {
                    assert(value_part@ =~= t@.skip(eq_pos + 1));
                }
                text::trim_chars(&value_part)
            } else {
                Vec::new()
            };
            seen = true;
            store_field(&mut fields, &key, &value);
            proof {
                assert(DesktopParse { in_section, seen, failed: false, fields: fields@ }
                    =~~= spec_desktop_step(pre, lines.deep_view()[li as int]));
            }
        }
        li = li + 1;
        proof {
            assert(lines.deep_view().skip(li - 1).skip(1) =~= lines.deep_view().skip(li as int));
            assert(lines.deep_view().skip(li - 1)[0] == lines.deep_view()[li - 1]);
        }
    }
    proof {
        assert(lines.deep_view().skip(lines@.len() as int).len() == 0);
    }
    if seen {
        Ok(fields)
    } else {
        Err(DesktopError::MissingSection)
    }
}

/// Once failed, the parser stays failed.
proof fn lemma_failed_stays(st: DesktopParse, lines: Seq<Seq<char>>)
    requires
        st.failed,
    ensures
        spec_desktop_run(st, lines).failed,
    decreases lines.len(),
{
    if lines.len() > 0 {
        lemma_failed_stays(st, lines.skip(1));
    }
}

fn store_field(fields: &mut DesktopFields, key: &Vec<char>, value: &Vec<char>)
    ensures
        final(fields)@ == spec_store(old(fields)@, key@, value@),
{
    let v = text::string_of(value);
    if text::eq_chars(key, &text::chars_of("Name")) {
        fields.name = Some(v);
    } else if text::eq_chars(key, &text::chars_of("Icon")) {
        fields.icon = Some(v);
    } else if text::eq_chars(key, &text::chars_of("Exec")) {
        fields.exec_command = Some(v);
    } else if text::eq_chars(key, &text::chars_of("TryExec")) {
        fields.try_exec = Some(v);
    } else if text::eq_chars(key, &text::chars_of("Path")) {
        fields.path = Some(v);
    } else if text::eq_chars(key, &text::chars_of("Terminal")) {
        fields.terminal = Some(v);
    } else if text::eq_chars(key, &text::chars_of("StartupWMClass")) {
        fields.startup_wm_class = Some(v);
    } else if text::eq_chars(key, &text::chars_of("Type")) {
        fields.entry_type = Some(v);
    }
    proof {
        reveal_strlit("Name");
        reveal_strlit("Icon");
        reveal_strlit("Exec");
        reveal_strlit("TryExec");
        reveal_strlit("Path");
        reveal_strlit("Terminal");
        reveal_strlit("StartupWMClass");
        reveal_strlit("Type");
        assert(final(fields)@ =~~= spec_store(old(fields)@, key@, value@));
    }
}

/// One launchable application, read from a desktop-entry file. Paths are
/// held as plain strings.
#[derive(Debug, Clone)]
pub struct DesktopEntry {
    pub source_path: String,
    pub desktop_id: String,
    pub name: Option<String>,
    pub icon: Option<String>,
    pub exec_command: Option<String>,
    pub try_exec: Option<String>,
    pub working_dir: Option<String>,
    pub terminal: bool,
    pub startup_wm_class: Option<String>,
    pub entry_type: Option<String>,
}

/// The file-name component of a path: everything after the last slash.
pub open spec fn spec_file_name(path: Seq<char>) -> Seq<char>
    decreases path.len(),
{
    if path.len() == 0 {
        Seq::empty()
    } else if path.last() == '/' {
        Seq::empty()
    } else {
        let i = spec_last_slash(path);
        path.skip(i + 1)
    }
}

/// Index of the last slash, or `-1` when there is none.
pub open spec fn spec_last_slash(path: Seq<char>) -> int
    decreases path.len(),
{
    if path.len() == 0 {
        -1
    } else if path.last() == '/' {
        path.len() - 1
    } else {
        spec_last_slash(path.drop_last())
    }
}

/// A path is absolute when it starts with a slash.
pub open spec fn spec_is_absolute(path: Seq<char>) -> bool {
    path.len() > 0 && path[0] == '/'
}

/// Resolves a possibly relative path against the directory of `source`:
/// an absolute value stands alone; otherwise it is joined to the part of
/// `source` before its last slash, or stands alone when `source` has
/// none.
pub open spec fn spec_resolved(value: Seq<char>, source: Seq<char>) -> Seq<char> {
    if spec_is_absolute(value) {
        value
    } else {
        let i = spec_last_slash(source);
        if i < 0 {
            value
        } else {
            source.take(i) + seq!['/'] + value
        }
    }
}

pub fn resolve_relative_path(value: &str, source: &str) -> (r: String)
    ensures
        r@ == spec_resolved(value@, source@),
{
    let value_chars = text::chars_of(value);
    let source_chars = text::chars_of(source);
    if value_chars.len() > 0 && value_chars[0] == '/' {
        return text::string_of(&value_chars);
    }
    match last_slash(&source_chars) {
        Option::Some(i) => {
            let mut joined = text::slice_range(&source_chars, 0, i);
            proof {
                assert(joined@ =~= source@.take(i as int));
            }
            let ghost base = joined@;
            joined.push('/');
            let mut k: usize = 0;
            while k < value_chars.len()
                invariant
                    k <= value_chars@.len(),
                    joined@ == base + seq!['/'] + value_chars@.take(k as int),
                decreases value_chars@.len() - k,
            {
                joined.push(value_chars[k]);
                k = k + 1;
                proof {
                    assert(joined@ =~= base + seq!['/'] + value_chars@.take(k as int));
                }
            }
            proof {
                assert(value_chars@.take(value_chars@.len() as int) =~= value_chars@);
                assert(joined@ =~= spec_resolved(value@, source@));
            }
            text::string_of(&joined)
        },
        Option::None => text::string_of(&value_chars),
    }
}

/// Index of the last slash, scanning from the back.
fn last_slash(s: &Vec<char>) -> (r: Option<usize>)
    ensures
        match r {
            Some(i) => i < s@.len() && spec_last_slash(s@) == i,
            None => spec_last_slash(s@) == -1,
        },
{
    let mut b: usize = s.len();
    proof {
        assert(s@.take(b as int) =~= s@);
    }
    while b > 0 && s[b - 1] != '/'
        invariant
            b <= s@.len(),
            spec_last_slash(s@) == spec_last_slash(s@.take(b as int)),
        decreases b,
    {
        proof {
            assert(s@.take(b as int).last() == s@[b - 1]);
            assert(s@.take(b as int).drop_last() =~= s@.take(b as int - 1));
        }
        b = b - 1;
    }
    if b == 0 {
        proof {
            assert(s@.take(0).len() == 0);
        }
        None
    } else {
        proof {
            assert(s@.take(b as int).last() == s@[b - 1]);
        }
        Some(b - 1)
    }
}

impl DesktopEntry {
    /// Builds the entry record from a file's path and contents: the
    /// file-name component becomes the identity, `Path` is resolved
    /// against the file's directory, and `Terminal` accepts a
    /// case-insensitive `true` or `1`.
    pub fn from_contents(source_path: String, contents: &str) -> (r: Result<
        DesktopEntry,
        DesktopError,
    >)
        ensures
            match r {
                Ok(entry) => entry.source_path@ == source_path@ && entry.desktop_id@
                    == spec_file_name(source_path@) && spec_file_name(source_path@).len() > 0,
                Err(_) => true,
            },
    {
        let fields = match parse_desktop_entry(contents) {
            Ok(f) => f,
            Err(e) => {
                return Err(e);
            },
        };
        let path_chars = text::chars_of(source_path.as_str());
        let desktop_id: String = if path_chars.len() == 0 {
            return Err(DesktopError::NoFileName);
        } else if path_chars[path_chars.len() - 1] == '/' {
            return Err(DesktopError::NoFileName);
        } else {
            match last_slash(&path_chars) {
                Option::Some(i) => {
                    let tail = text::slice_range(&path_chars, i + 1, path_chars.len());
                    proof {
                        assert(tail@ =~= source_path@.skip(spec_last_slash(source_path@) + 1));
                    }
                    if tail.len() == 0 {
                        return Err(DesktopError::NoFileName);
                    }
                    text::string_of(&tail)
                },
                Option::None => text::string_of(&path_chars),
            }
        };
        proof {
            if spec_last_slash(source_path@) < 0 {
                assert(source_path@.skip(spec_last_slash(source_path@) + 1) =~= source_path@);
            }
        }
        let working_dir = match &fields.path {
            Option::Some(value) => Some(
                resolve_relative_path(value.as_str(), source_path.as_str()),
            ),
            Option::None => None,
        };
        let terminal = match &fields.terminal {
            Option::Some(value) => {
                proof {
                    reveal_strlit("true");
                    reveal_strlit("1");
                }
                let l = text::lower_chars(&text::chars_of(value.as_str()));
                text::eq_chars(&l, &text::chars_of("true")) || text::eq_chars(
                    &text::chars_of(value.as_str()),
                    &text::chars_of("1"),
                )
            },
            Option::None => false,
        };
        Ok(
            DesktopEntry {
                source_path,
                desktop_id,
                name: fields.name,
                icon: fields.icon,
                exec_command: fields.exec_command,
                try_exec: fields.try_exec,
                working_dir,
                terminal,
                startup_wm_class: fields.startup_wm_class,
                entry_type: fields.entry_type,
            },
        )
    }
}

} // verus!
