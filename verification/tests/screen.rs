use zellij_action::files::{has_kdl_extension, kdl_names, name_comes_before};
use zellij_action::screen::{key_hints, to_upper, Hint, Pane, Row};
use zellij_action::number::{decimal, signed_decimal_of};
use zellij_action::{Action, App, InputMode, KdlFile, Key, ListType, Session};

fn row(text: &str, selected: bool) -> Row {
    Row { text: text.to_string(), selected }
}

fn caption(text: &str) -> Hint {
    Hint { text: text.to_string(), key: false }
}

fn key(text: &str) -> Hint {
    Hint { text: text.to_string(), key: true }
}

fn file(name: &str) -> KdlFile {
    KdlFile { name: name.to_string(), path: format!("/etc/{}", name) }
}

#[test]
fn test_render_no_panic() {
    let mut app = App::default();
    app.sessions = vec![Session {
        name: "test".to_string(),
        time: 0,
        exited: true,
    }];
    for width in [173, 100] {
        let hints = key_hints(width);
        assert!(!hints.is_empty());
        let pane = app.session_pane();
        assert_eq!(pane.rows, vec![row("1. test - 0s ago (EXITED)", true)]);
        app.layout_pane();
        app.config_pane();
        assert_eq!(app.shown_status(), None);
    }
}

#[test]
fn nothing_to_show_is_shown_too() {
    for action in zellij_action::actions() {
        let mut app = App::default();
        app.action = action;
        for width in [0, 1, 100, 171, 172, 173, u16::MAX] {
            assert!(key_hints(width).len() >= 9);
        }
        let sessions = app.session_pane();
        assert_eq!(
            sessions,
            Pane {
                title: " Zellij Sessions ".to_string(),
                typing: false,
                focused: true,
                rows: Vec::new(),
                note: "There are no sessions for this action".to_string(),
            }
        );
        assert!(app.layout_pane().rows.is_empty());
        assert!(app.config_pane().rows.is_empty());
        assert!(app.get_visible_sessions().is_empty());
        assert_eq!(app.selected(), None);
        assert_eq!(app.shown_status(), None);
    }
}

#[test]
fn the_key_line_is_compact_on_a_narrow_screen() {
    let compact = vec![
        caption("Nav: "),
        key("<Tab>"),
        key("<L/R>"),
        key("<Q> "),
        caption(" Actions: "),
        key("<A>"),
        key("<K>"),
        key("<D>"),
        key("<N>"),
    ];
    assert_eq!(key_hints(171), compact);
    assert_eq!(key_hints(0), compact);
    let wide = vec![
        caption(" Switch Action "),
        key("<Tab>"),
        caption(" Switch List "),
        key("<Left/Right>"),
        caption(" Select Item "),
        key("<Up/Down>"),
        caption(" Go to "),
        key("<G>"),
        caption(" Execute "),
        key("<Enter>"),
        caption(" Refresh "),
        key("<R>"),
        caption(" Quit "),
        key("<Q> "),
        caption(" Attach "),
        key("<A>"),
        caption(" Kill "),
        key("<K>"),
        caption(" Delete "),
        key("<D>"),
        caption(" New Session "),
        key("<N>"),
    ];
    assert_eq!(key_hints(172), wide);
    assert_eq!(key_hints(u16::MAX), wide);
}

#[test]
fn session_rows_show_position_name_age_and_state() {
    let mut app = App::default();
    app.action = Action::kill();
    app.sessions = vec![
        Session { name: "gone".to_string(), time: 5, exited: true },
        Session { name: "one".to_string(), time: 93784, exited: false },
        Session { name: "two".to_string(), time: -3, exited: false },
        Session { name: "".to_string(), time: i64::MIN, exited: false },
    ];
    app.selected_session = 1;
    let pane = app.session_pane();
    assert_eq!(
        pane.rows,
        vec![
            row("1. one - 93784s ago", false),
            row("2. two - -3s ago", true),
            row("3.  - -9223372036854775808s ago", false),
        ]
    );
    assert_eq!(pane.title, " Zellij Sessions ");
    assert!(!pane.typing && pane.focused);
    assert_eq!(pane.note, "");

    app.action = Action::attach();
    app.selected_session = 0;
    assert_eq!(app.session_pane().rows, vec![row("1. gone - 5s ago (EXITED)", true)]);
}

#[test]
fn the_title_shows_the_position_that_is_typed_in() {
    let mut app = App::default();
    app.sessions = vec![Session { name: "a".to_string(), time: 0, exited: true }];
    app.handle_key_event(Key::Char('g'));
    assert_eq!(app.session_pane().title, " Go to index: _ ");
    app.handle_key_event(Key::Char('4'));
    app.handle_key_event(Key::Char('2'));
    let pane = app.session_pane();
    assert_eq!(pane.title, " Go to index: 42_ ");
    assert!(pane.typing);
    app.handle_key_event(Key::Esc);
    assert_eq!(app.session_pane().title, " Zellij Sessions ");

    // Without sessions the note stands under the plain title.
    app.sessions.clear();
    app.handle_key_event(Key::Char('g'));
    let empty = app.session_pane();
    assert_eq!(empty.title, " Zellij Sessions ");
    assert!(!empty.typing);
}

#[test]
fn file_panes_follow_the_focus() {
    let mut app = App::default();
    app.handle_key_event(Key::Char('n'));
    app.layouts = vec![file("a.kdl"), file("b.kdl")];
    app.configs = vec![file("c.kdl")];
    app.selected_layout = 1;
    let layouts = app.layout_pane();
    assert_eq!(
        layouts,
        Pane {
            title: " Zellij Layouts ".to_string(),
            typing: false,
            focused: true,
            rows: vec![row("1. a.kdl", false), row("2. b.kdl", true)],
            note: String::new(),
        }
    );
    let configs = app.config_pane();
    assert_eq!(
        configs,
        Pane {
            title: " Zellij Configs ".to_string(),
            typing: false,
            focused: false,
            rows: vec![row("1. c.kdl", true)],
            note: String::new(),
        }
    );

    app.handle_key_event(Key::Right);
    app.handle_key_event(Key::Char('g'));
    app.handle_key_event(Key::Char('7'));
    assert_eq!(app.focused_list, ListType::Config);
    assert_eq!(app.input_mode, InputMode::GoToIndex);
    let layouts = app.layout_pane();
    assert_eq!(
        (layouts.title.as_str(), layouts.typing, layouts.focused),
        (" Zellij Layouts ", false, false)
    );
    let configs = app.config_pane();
    assert_eq!(
        (configs.title.as_str(), configs.typing, configs.focused),
        (" Go to index: 7_ ", true, true)
    );
}

#[test]
fn the_status_is_shown_until_a_key_is_pressed() {
    let mut app = App::default();
    app.input_mode = InputMode::Status("killed".to_string());
    assert_eq!(app.shown_status().map(|s| s.as_str()), Some("killed"));
    app.handle_key_event(Key::Other);
    assert_eq!(app.shown_status(), None);
    app.input_mode = InputMode::GoToIndex;
    assert_eq!(app.shown_status(), None);
}

#[test]
fn a_row_number_typed_in_selects_that_row() {
    let mut app = App::default();
    app.sessions = (0..120)
        .map(|i| Session { name: format!("s{}", i), time: 0, exited: true })
        .collect();
    let rows = app.session_pane().rows;
    for (i, shown) in rows.iter().enumerate() {
        let number = shown.text.split('.').next().unwrap().to_string();
        app.handle_key_event(Key::Char('g'));
        for c in number.chars() {
            app.handle_key_event(Key::Char(c));
        }
        app.handle_key_event(Key::Enter);
        assert_eq!(app.selected_session, i);
    }
}

#[test]
fn numbers_are_written_in_base_ten() {
    for n in [0u64, 1, 9, 10, 11, 99, 100, 101, 12345, u32::MAX as u64, u64::MAX - 1, u64::MAX] {
        assert_eq!(decimal(n), n.to_string());
    }
    for n in 0..2000u64 {
        assert_eq!(decimal(n), n.to_string());
    }
    for n in [0i64, 1, -1, 10, -10, 93784, -93784, i64::MAX, i64::MIN, i64::MIN + 1] {
        assert_eq!(signed_decimal_of(n), n.to_string());
    }
}

#[test]
fn upper_case_of_ascii_letters() {
    for code in 0..=0x10FFFFu32 {
        if let Some(c) = char::from_u32(code) {
            assert_eq!(to_upper(c), c.to_ascii_uppercase());
            assert_eq!(zellij_action::action::to_lower(c), c.to_ascii_lowercase());
        }
    }
}

#[test]
fn definition_files_end_with_kdl() {
    for name in ["a.kdl", "default.kdl", "..kdl", "a.b.kdl", " .kdl", "kdl.kdl", "é.kdl"] {
        assert!(has_kdl_extension(name), "{:?}", name);
    }
    let others =
        ["", ".kdl", "kdl", "akdl", "a.kdl ", "a.KDL", "a.kdl.bak", "a.kd", "a.kdll", "a."];
    for name in others {
        assert!(!has_kdl_extension(name), "{:?}", name);
    }
    for name in ["a.kdl", ".kdl", "..kdl", "x", "a.b.kdl", "a.kdl.x", "kdl", "", "ä.kdl"] {
        let by_path = std::path::Path::new(name).extension().map_or(false, |e| e == "kdl");
        assert_eq!(has_kdl_extension(name), by_path, "{:?}", name);
    }
}

#[test]
fn definition_files_are_listed_in_order() {
    let names: Vec<String> = [
        "zeta.kdl", "alpha.kdl", "notes.txt", "Beta.kdl", "alpha.kdl", ".kdl", "be.kdl",
        "beta.kdl", "b.kdl", "é.kdl", "default.kdl", "10.kdl", "9.kdl", "a.kdl.bak", "𝒶.kdl",
        "\u{ffff}.kdl", "a b.kdl",
    ]
    .iter()
    .map(|s| s.to_string())
    .collect();
    let mut expected: Vec<String> = names
        .iter()
        .filter(|n| std::path::Path::new(n).extension().map_or(false, |e| e == "kdl"))
        .cloned()
        .collect();
    expected.sort();
    assert_eq!(kdl_names(&names), expected);
    assert_eq!(kdl_names(&Vec::new()), Vec::<String>::new());
    assert_eq!(kdl_names(&vec!["x".to_string()]), Vec::<String>::new());
}

#[test]
fn names_are_compared_like_strings() {
    let names =
        ["", "a", "A", "ab", "b", "aa", "é", "z", "\u{ffff}", "𝒶", "a.kdl", "a_kdl", "10", "9"];
    for a in names {
        for b in names {
            assert_eq!(name_comes_before(a, b), a <= b, "{:?} {:?}", a, b);
        }
    }
}
