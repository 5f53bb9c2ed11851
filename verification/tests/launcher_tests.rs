use streamdeck_ctrl::controls::launcher::{parse_exec, split_exec, strip_field_codes};
use streamdeck_ctrl::system::desktop::{parse_desktop_entry, DesktopEntry, DesktopError,
    resolve_relative_path};

#[test]
fn parses_exec_without_placeholders() {
    let entry = DesktopEntry {
        source_path: "/tmp/app.desktop".to_string(),
        desktop_id: "app.desktop".into(),
        name: Some("App".into()),
        icon: None,
        exec_command: Some("env VAR=1 /usr/bin/app --flag".into()),
        try_exec: None,
        working_dir: None,
        terminal: false,
        startup_wm_class: None,
        entry_type: Some("Application".into()),
    };
    let spec = parse_exec(&entry).expect("exec should parse");
    assert_eq!(spec.program, "env");
    assert_eq!(spec.args, vec!["VAR=1", "/usr/bin/app", "--flag"]);
}

#[test]
fn removes_field_codes_from_exec() {
    let entry = DesktopEntry {
        source_path: "/tmp/app.desktop".to_string(),
        desktop_id: "app.desktop".into(),
        name: Some("App".into()),
        icon: None,
        exec_command: Some("\"/usr/bin/app\" %f --option=%u".into()),
        try_exec: None,
        working_dir: None,
        terminal: false,
        startup_wm_class: None,
        entry_type: Some("Application".into()),
    };
    let spec = parse_exec(&entry).expect("exec should parse");
    assert_eq!(spec.program, "/usr/bin/app");
    assert_eq!(spec.args, Vec::<String>::new());
}

#[test]
fn split_exec_honours_quotes_and_escapes() {
    assert_eq!(split_exec("a b  c"), vec!["a", "b", "c"]);
    assert_eq!(split_exec("'one arg' two"), vec!["one arg", "two"]);
    assert_eq!(split_exec("\"spaced out\" tail"), vec!["spaced out", "tail"]);
    assert_eq!(split_exec("escaped\\ space"), vec!["escaped space"]);
    assert_eq!(split_exec(""), Vec::<String>::new());
}

#[test]
fn strip_field_codes_keeps_literals() {
    assert_eq!(strip_field_codes("plain").as_deref(), Some("plain"));
    assert_eq!(strip_field_codes("100%%").as_deref(), Some("100%"));
    assert_eq!(strip_field_codes("tail%").as_deref(), Some("tail%"));
    assert_eq!(strip_field_codes("%f"), None);
    assert_eq!(strip_field_codes("--opt=%u"), None);
}

#[test]
fn parses_desktop_entry_from_text() {
    let contents = "[Desktop Entry]\nName=Sample App\nExec=/usr/bin/sample --flag\nIcon=/usr/share/icons/sample.svg\nStartupWMClass=sample\nTerminal=false\nType=Application\n";
    let entry = DesktopEntry::from_contents("/apps/example.desktop".to_string(), contents)
        .unwrap();
    assert_eq!(entry.desktop_id, "example.desktop");
    assert_eq!(entry.name.as_deref(), Some("Sample App"));
    assert_eq!(entry.icon.as_deref(), Some("/usr/share/icons/sample.svg"));
    assert_eq!(entry.exec_command.as_deref(), Some("/usr/bin/sample --flag"));
    assert_eq!(entry.startup_wm_class.as_deref(), Some("sample"));
    assert!(!entry.terminal);
    assert_eq!(entry.entry_type.as_deref(), Some("Application"));
}

#[test]
fn resolves_relative_working_dir_against_source() {
    assert_eq!(resolve_relative_path("tools", "/apps/example.desktop"), "/apps/tools");
    assert_eq!(resolve_relative_path("/abs/dir", "/apps/example.desktop"), "/abs/dir");
    assert_eq!(resolve_relative_path("tools", "bare.desktop"), "tools");
}

#[test]
fn desktop_parser_flags_bad_files() {
    assert_eq!(
        parse_desktop_entry("[Desktop Entry]\n=oops\n").unwrap_err(),
        DesktopError::InvalidLine
    );
    assert_eq!(
        parse_desktop_entry("# only a comment\n").unwrap_err(),
        DesktopError::MissingSection
    );
    assert_eq!(
        parse_desktop_entry("[Other]\nName=Hidden\n").unwrap_err(),
        DesktopError::MissingSection
    );
}
