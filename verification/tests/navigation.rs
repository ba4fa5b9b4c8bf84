use zellij_action::selection;
use zellij_action::{actions, Action, App, InputMode, KdlFile, ListType, Session};

fn session(name: &str, exited: bool) -> Session {
    Session { name: name.to_string(), time: 0, exited }
}

fn file(name: &str) -> KdlFile {
    KdlFile { name: name.to_string(), path: name.to_string() }
}

fn app_with(action: Action, sessions: Vec<Session>, focused_list: ListType) -> App {
    App {
        action,
        sessions,
        layouts: Vec::new(),
        configs: Vec::new(),
        selected_session: 0,
        selected_layout: 0,
        selected_config: 0,
        focused_list,
        input_mode: InputMode::Normal,
        goto_buffer: String::new(),
        status_message: String::new(),
        exit: false,
    }
}

#[test]
fn test_session_navigation() {
    let mut app = App {
        action: actions()[0], // Attach
        sessions: vec![
            Session {
                name: "s1".to_string(),
                time: 0,
                exited: true,
            },
            Session {
                name: "s2".to_string(),
                time: 0,
                exited: true,
            },
        ],
        layouts: Vec::new(),
        configs: Vec::new(),
        selected_session: 0,
        selected_layout: 0,
        selected_config: 0,
        focused_list: ListType::Session,
        input_mode: InputMode::Normal,
        goto_buffer: String::new(),
        status_message: String::new(),
        exit: false,
    };

    app.next_item();
    assert_eq!(app.selected_session, 1);
    app.next_item();
    assert_eq!(app.selected_session, 0); // Wrap around

    app.previous_item();
    assert_eq!(app.selected_session, 1); // Wrap around
}

#[test]
fn test_file_navigation() {
    let mut app = App {
        action: actions()[3], // New Session
        sessions: Vec::new(),
        layouts: vec![
            KdlFile {
                name: "l1.kdl".to_string(),
                path: "l1.kdl".to_string(),
            },
            KdlFile {
                name: "l2.kdl".to_string(),
                path: "l2.kdl".to_string(),
            },
        ],
        configs: vec![KdlFile {
            name: "c1.kdl".to_string(),
            path: "c1.kdl".to_string(),
        }],
        selected_session: 0,
        selected_layout: 0,
        selected_config: 0,
        focused_list: ListType::Layout,
        input_mode: InputMode::Normal,
        goto_buffer: String::new(),
        status_message: String::new(),
        exit: false,
    };

    app.next_item();
    assert_eq!(app.selected_layout, 1);

    // Switch focus
    app.focused_list = ListType::Config;
    app.next_item();
    assert_eq!(app.selected_config, 0); // Only one item
}

#[test]
fn test_clamp_selection_empty() {
    let mut app = App::default();
    app.sessions = vec![Session {
        name: "s1".to_string(),
        time: 0,
        exited: true,
    }];
    app.selected_session = 0;

    // Simulate deletion
    app.sessions.clear();
    app.clamp_selection();
    assert_eq!(app.selected_session, 0);
}

#[test]
fn clamp_selection_after_a_list_has_shrunk() {
    let mut app = app_with(
        Action::attach(),
        (0..5).map(|i| session(&format!("s{}", i), true)).collect(),
        ListType::Session,
    );
    app.layouts = (0..4).map(|i| file(&format!("l{}", i))).collect();
    app.configs = (0..3).map(|i| file(&format!("c{}", i))).collect();
    app.selected_session = 4;
    app.selected_layout = 3;
    app.selected_config = 1;

    app.sessions.truncate(2);
    app.layouts.truncate(1);
    app.configs.truncate(2);
    app.clamp_selection();
    assert_eq!(app.selected_session, 1);
    assert_eq!(app.selected_layout, 0);
    assert_eq!(app.selected_config, 1);

    app.sessions.clear();
    app.layouts.clear();
    app.configs.clear();
    app.clamp_selection();
    assert_eq!(
        (app.selected_session, app.selected_layout, app.selected_config),
        (0, 0, 0)
    );
}

#[test]
fn clamp_selection_counts_the_visible_sessions_only() {
    let mut app = app_with(
        Action::kill(),
        vec![session("a", true), session("b", false), session("c", true), session("d", false)],
        ListType::Session,
    );
    app.selected_session = 3;
    app.clamp_selection();
    assert_eq!(app.selected_session, 1);
}

#[test]
fn visible_sessions_follow_the_action() {
    let sessions =
        || vec![session("a", true), session("b", false), session("c", true), session("d", false)];
    let names = |app: &App| -> Vec<String> {
        app.get_visible_sessions().iter().map(|s| s.name.clone()).collect()
    };
    let attach = app_with(Action::attach(), sessions(), ListType::Session);
    assert_eq!(names(&attach), ["a", "c"]);
    assert_eq!(attach.visible_count(), 2);
    let kill = app_with(Action::kill(), sessions(), ListType::Session);
    assert_eq!(names(&kill), ["b", "d"]);
    let delete = app_with(Action::delete(), sessions(), ListType::Session);
    assert_eq!(names(&delete), ["a", "c"]);
    let new_session = app_with(Action::new_session(), sessions(), ListType::Layout);
    assert_eq!(names(&new_session), ["a", "b", "c", "d"]);
    let none = app_with(Action::attach(), Vec::new(), ListType::Session);
    assert!(none.get_visible_sessions().is_empty());
    assert_eq!(none.visible_count(), 0);
}

#[test]
fn selected_is_the_visible_session_under_the_cursor() {
    let mut app = app_with(
        Action::kill(),
        vec![session("a", true), session("b", false), session("c", true), session("d", false)],
        ListType::Session,
    );
    assert_eq!(app.selected().map(|s| s.name.as_str()), Some("b"));
    app.selected_session = 1;
    assert_eq!(app.selected().map(|s| s.name.as_str()), Some("d"));
    app.selected_session = 2;
    assert_eq!(app.selected(), None);
    app.sessions.clear();
    app.selected_session = 0;
    assert_eq!(app.selected(), None);
}

#[test]
fn next_item_comes_back_after_as_many_steps_as_items() {
    for len in 1..7usize {
        for start in 0..len {
            let mut app = app_with(
                Action::attach(),
                (0..len).map(|i| session(&format!("s{}", i), true)).collect(),
                ListType::Session,
            );
            app.selected_session = start;
            for _ in 0..len {
                app.next_item();
            }
            assert_eq!(app.selected_session, start);
            app.next_item();
            app.previous_item();
            assert_eq!(app.selected_session, start);
            app.previous_item();
            app.next_item();
            assert_eq!(app.selected_session, start);
        }
    }
}

#[test]
fn navigation_does_nothing_in_an_empty_list() {
    let mut app = app_with(Action::attach(), vec![session("a", false)], ListType::Session);
    app.next_item();
    app.previous_item();
    app.page_up();
    app.page_down();
    assert_eq!(app.selected_session, 0);
    let mut files = app_with(Action::new_session(), Vec::new(), ListType::Layout);
    files.next_item();
    files.previous_item();
    files.focused_list = ListType::Config;
    files.next_item();
    files.previous_item();
    assert_eq!((files.selected_layout, files.selected_config), (0, 0));
}

#[test]
fn pages_move_by_ten_and_stop_at_the_ends() {
    let mut app = app_with(
        Action::attach(),
        (0..25).map(|i| session(&format!("s{}", i), true)).collect(),
        ListType::Session,
    );
    app.page_down();
    assert_eq!(app.selected_session, 10);
    app.page_down();
    assert_eq!(app.selected_session, 20);
    app.page_down();
    assert_eq!(app.selected_session, 24);
    app.page_down();
    assert_eq!(app.selected_session, 24);
    app.page_up();
    assert_eq!(app.selected_session, 14);
    app.page_up();
    assert_eq!(app.selected_session, 4);
    app.page_up();
    assert_eq!(app.selected_session, 0);
    app.page_up();
    assert_eq!(app.selected_session, 0);
}

#[test]
fn pages_leave_the_file_lists_alone() {
    let mut app = app_with(Action::new_session(), Vec::new(), ListType::Layout);
    app.layouts = (0..30).map(|i| file(&format!("l{}", i))).collect();
    app.selected_layout = 15;
    app.page_down();
    app.page_up();
    app.page_up();
    assert_eq!(app.selected_layout, 15);
}

#[test]
fn actions_cycle_in_the_order_of_the_catalog() {
    let mut app = App::default();
    let mut titles = Vec::new();
    for _ in 0..5 {
        titles.push(app.action.title);
        app.next_action();
    }
    assert_eq!(titles, ["Attach", "Kill", "Delete", "New Session", "Attach"]);
    let mut back = Vec::new();
    for _ in 0..5 {
        app.previous_action();
        back.push(app.action.title);
    }
    assert_eq!(back, ["Attach", "New Session", "Delete", "Kill", "Attach"]);
}

#[test]
fn choosing_an_action_moves_the_focus_and_clamps() {
    let mut app = app_with(
        Action::attach(),
        vec![session("a", true), session("b", true), session("c", false)],
        ListType::Session,
    );
    app.selected_session = 1;
    app.next_action(); // Kill: one running session
    assert_eq!(app.action, Action::kill());
    assert_eq!(app.focused_list, ListType::Session);
    assert_eq!(app.selected_session, 0);
    app.next_action();
    app.next_action(); // New Session
    assert_eq!(app.action, Action::new_session());
    assert_eq!(app.focused_list, ListType::Layout);
    app.switch_list();
    assert_eq!(app.focused_list, ListType::Config);
    app.do_action('N');
    assert_eq!(app.focused_list, ListType::Layout);
    app.do_action('d');
    assert_eq!(app.action, Action::delete());
    assert_eq!(app.focused_list, ListType::Session);
    app.do_action('x');
    assert_eq!(app.action, Action::delete());
}

#[test]
fn the_catalog_holds_four_actions() {
    let all = actions();
    assert_eq!(all.len(), 4);
    let codes: Vec<u8> = all.iter().map(|a| a.code).collect();
    assert_eq!(codes, [0, 1, 2, 3]);
    let shortcuts: Vec<char> = all.iter().map(|a| a.shortcut).collect();
    assert_eq!(shortcuts, ['a', 'k', 'd', 'n']);
    let titles: Vec<&str> = all.iter().map(|a| a.title).collect();
    assert_eq!(titles, ["Attach", "Kill", "Delete", "New Session"]);
    for (i, action) in all.iter().enumerate() {
        assert_eq!(Action::at(i), *action);
        assert_eq!(Action::of_shortcut(action.shortcut), Some(*action));
        assert_eq!(Action::of_shortcut(action.shortcut.to_ascii_uppercase()), Some(*action));
        assert_eq!(action.next().previous(), *action);
        assert_eq!(action.next(), all[(i + 1) % 4]);
        assert_eq!(action.previous(), all[(i + 3) % 4]);
    }
    assert_eq!(Action::of_shortcut('z'), None);
    // An action equals its shortcut, letter for letter.
    assert!(Action::kill() == 'k' && 'k' == Action::kill());
    assert!(Action::kill() != 'K' && 'a' != Action::kill());
    // Two actions are equal when their codes are.
    assert_eq!(Action { code: 1, shortcut: 'x', title: "Other" }, Action::kill());
    assert_ne!(Action { code: 2, shortcut: 'k', title: "Kill" }, Action::kill());
}

#[test]
fn cursor_steps_on_their_own() {
    assert_eq!(selection::next(0, 0), 0);
    assert_eq!(selection::previous(0, 0), 0);
    assert_eq!(selection::next(2, 3), 0);
    assert_eq!(selection::previous(0, 3), 2);
    assert_eq!(selection::next(7, 3), 2);
    assert_eq!(selection::previous(7, 3), 0);
    assert_eq!(selection::next(usize::MAX, 10), (usize::MAX % 10 + 1) % 10);
    assert_eq!(selection::previous(usize::MAX, usize::MAX), usize::MAX - 1);
    assert_eq!(selection::page_up(9, 20), 0);
    assert_eq!(selection::page_up(10, 20), 0);
    assert_eq!(selection::page_up(11, 20), 1);
    assert_eq!(selection::page_down(9, 20), 19);
    assert_eq!(selection::page_down(8, 20), 18);
    assert_eq!(selection::page_down(usize::MAX, 20), 19);
    assert_eq!(selection::page_down(0, usize::MAX), 10);
    assert_eq!(selection::clamp(5, 0), 0);
    assert_eq!(selection::clamp(5, 5), 4);
    assert_eq!(selection::clamp(4, 5), 4);
}
