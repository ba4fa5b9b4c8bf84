use zellij_action::{
    actions, Action, App, InputMode, KdlFile, Key, ListType, Request, Session,
};

fn sessions(count: usize, exited: bool) -> Vec<Session> {
    (0..count).map(|i| Session { name: format!("s{}", i), time: 0, exited }).collect()
}

fn files(prefix: &str, count: usize) -> Vec<KdlFile> {
    (0..count)
        .map(|i| KdlFile {
            name: format!("{}{}.kdl", prefix, i),
            path: format!("/etc/{}{}.kdl", prefix, i),
        })
        .collect()
}

fn attach_app(count: usize) -> App {
    let mut app = App::default();
    app.sessions = sessions(count, true);
    app
}

fn files_app(layouts: usize, configs: usize) -> App {
    let mut app = App::default();
    app.action = Action::new_session();
    app.focused_list = ListType::Layout;
    app.layouts = files("l", layouts);
    app.configs = files("c", configs);
    app
}

fn type_keys(app: &mut App, text: &str) {
    for c in text.chars() {
        assert_eq!(app.handle_key_event(Key::Char(c)), Request::Continue);
    }
}

#[test]
fn test_goto_index_session() {
    let mut app = App {
        action: actions()[0],
        sessions: (0..20)
            .map(|i| Session {
                name: format!("s{}", i),
                time: 0,
                exited: true,
            })
            .collect(),
        layouts: Vec::new(),
        configs: Vec::new(),
        selected_session: 0,
        selected_layout: 0,
        selected_config: 0,
        focused_list: ListType::Session,
        input_mode: InputMode::Normal,
        goto_buffer: String::new(),
        status_message: String::new(),
        exit: false,
    };

    app.handle_key_event(Key::Char('g'));
    app.handle_key_event(Key::Char('1'));
    app.handle_key_event(Key::Char('5'));
    app.handle_key_event(Key::Enter);
    assert_eq!(app.selected_session, 14);
}

#[test]
fn arrows_step_through_two_visible_sessions() {
    let mut app = attach_app(2);
    assert_eq!(app.handle_key_event(Key::Down), Request::Continue);
    assert_eq!(app.selected_session, 1);
    app.handle_key_event(Key::Down);
    assert_eq!(app.selected_session, 0);
    app.handle_key_event(Key::Up);
    assert_eq!(app.selected_session, 1);
}

#[test]
fn go_to_is_one_based_and_stops_at_the_last_item() {
    let mut app = attach_app(20);
    type_keys(&mut app, "g1");
    assert_eq!(app.input_mode, InputMode::GoToIndex);
    assert_eq!(app.goto_buffer, "1");
    app.handle_key_event(Key::Enter);
    assert_eq!(app.input_mode, InputMode::Normal);
    assert_eq!(app.selected_session, 0);

    type_keys(&mut app, "G20");
    app.handle_key_event(Key::Enter);
    assert_eq!(app.selected_session, 19);

    type_keys(&mut app, "g21");
    app.handle_key_event(Key::Enter);
    assert_eq!(app.selected_session, 19);

    type_keys(&mut app, "g007");
    app.handle_key_event(Key::Enter);
    assert_eq!(app.selected_session, 6);
}

#[test]
fn go_to_without_a_position_moves_nothing() {
    let mut app = attach_app(20);
    app.selected_session = 5;
    type_keys(&mut app, "g");
    app.handle_key_event(Key::Enter);
    assert_eq!((app.selected_session, &app.input_mode), (5, &InputMode::Normal));

    type_keys(&mut app, "g0");
    app.handle_key_event(Key::Enter);
    assert_eq!((app.selected_session, &app.input_mode), (5, &InputMode::Normal));

    type_keys(&mut app, "g000");
    app.handle_key_event(Key::Enter);
    assert_eq!(app.selected_session, 5);

    // More than any cursor can hold.
    type_keys(&mut app, "g99999999999999999999999999");
    app.handle_key_event(Key::Enter);
    assert_eq!((app.selected_session, &app.input_mode), (5, &InputMode::Normal));
}

#[test]
fn go_to_the_largest_position() {
    let mut app = attach_app(3);
    type_keys(&mut app, &format!("g{}", usize::MAX));
    app.handle_key_event(Key::Enter);
    assert_eq!(app.selected_session, 2);
}

#[test]
fn go_to_in_an_empty_list_selects_nothing() {
    let mut app = attach_app(0);
    type_keys(&mut app, "g3");
    app.handle_key_event(Key::Enter);
    assert_eq!(app.selected_session, 0);
}

#[test]
fn go_to_counts_visible_sessions() {
    let mut app = App::default();
    app.sessions = sessions(4, true);
    app.sessions.extend(sessions(2, false));
    type_keys(&mut app, "g6");
    app.handle_key_event(Key::Enter);
    assert_eq!(app.selected_session, 3);
}

#[test]
fn go_to_moves_the_focused_file_list() {
    let mut app = files_app(5, 4);
    type_keys(&mut app, "g3");
    app.handle_key_event(Key::Enter);
    assert_eq!((app.selected_layout, app.selected_config), (2, 0));
    app.handle_key_event(Key::Right);
    type_keys(&mut app, "g9");
    app.handle_key_event(Key::Enter);
    assert_eq!((app.selected_layout, app.selected_config), (2, 3));
}

#[test]
fn go_to_buffer_takes_digits_only() {
    let mut app = attach_app(20);
    type_keys(&mut app, "g1a2q-3 +४");
    assert_eq!(app.goto_buffer, "123");
    assert_eq!(app.input_mode, InputMode::GoToIndex);
    assert!(!app.exit);
    for key in [Key::Tab, Key::BackTab, Key::Left, Key::Right, Key::Up, Key::Down, Key::Other] {
        assert_eq!(app.handle_key_event(key), Request::Continue);
    }
    assert_eq!(app.goto_buffer, "123");
    assert_eq!(app.input_mode, InputMode::GoToIndex);
    assert_eq!(app.selected_session, 0);
    assert_eq!(app.action, Action::attach());
}

#[test]
fn backspace_takes_the_last_digit_away() {
    let mut app = attach_app(20);
    type_keys(&mut app, "g15");
    app.handle_key_event(Key::Backspace);
    assert_eq!(app.goto_buffer, "1");
    app.handle_key_event(Key::Backspace);
    app.handle_key_event(Key::Backspace);
    assert_eq!(app.goto_buffer, "");
    assert_eq!(app.input_mode, InputMode::GoToIndex);
    type_keys(&mut app, "7");
    app.handle_key_event(Key::Enter);
    assert_eq!(app.selected_session, 6);
}

#[test]
fn esc_gives_the_position_up() {
    let mut app = attach_app(20);
    app.selected_session = 3;
    type_keys(&mut app, "g15");
    assert_eq!(app.handle_key_event(Key::Esc), Request::Continue);
    assert_eq!(app.input_mode, InputMode::Normal);
    assert_eq!(app.goto_buffer, "");
    assert_eq!(app.selected_session, 3);
}

#[test]
fn g_opens_an_empty_buffer() {
    let mut app = attach_app(20);
    type_keys(&mut app, "g15");
    app.handle_key_event(Key::Enter);
    type_keys(&mut app, "g");
    assert_eq!(app.goto_buffer, "");
    type_keys(&mut app, "2");
    app.handle_key_event(Key::Enter);
    assert_eq!(app.selected_session, 1);
}

#[test]
fn q_ends_the_run() {
    for c in ['q', 'Q'] {
        let mut app = attach_app(2);
        assert_eq!(app.handle_key_event(Key::Char(c)), Request::Continue);
        assert!(app.exit);
    }
}

#[test]
fn r_asks_for_a_refresh() {
    for c in ['r', 'R'] {
        let mut app = attach_app(2);
        app.selected_session = 1;
        assert_eq!(app.handle_key_event(Key::Char(c)), Request::Refresh);
        assert_eq!(app.selected_session, 1);
        assert_eq!(app.input_mode, InputMode::Normal);
        assert!(!app.exit);
    }
}

#[test]
fn tab_cycles_the_actions() {
    let mut app = attach_app(2);
    app.handle_key_event(Key::Tab);
    assert_eq!(app.action, Action::kill());
    app.handle_key_event(Key::BackTab);
    app.handle_key_event(Key::BackTab);
    assert_eq!(app.action, Action::new_session());
    assert_eq!(app.focused_list, ListType::Layout);
    app.handle_key_event(Key::Tab);
    assert_eq!(app.action, Action::attach());
    assert_eq!(app.focused_list, ListType::Session);
}

#[test]
fn shortcuts_choose_their_action() {
    let mut app = attach_app(2);
    for (keys, action) in [
        ("kK", Action::kill()),
        ("dD", Action::delete()),
        ("nN", Action::new_session()),
        ("aA", Action::attach()),
    ] {
        for c in keys.chars() {
            app.action = Action::attach();
            assert_eq!(app.handle_key_event(Key::Char(c)), Request::Continue);
            assert_eq!(app.action, action);
            assert_eq!(app.action.title, action.title);
            assert_eq!(
                app.focused_list == ListType::Layout,
                action == Action::new_session()
            );
        }
    }
}

#[test]
fn side_keys_do_nothing_while_sessions_are_listed() {
    for action in [Action::attach(), Action::kill(), Action::delete()] {
        let mut app = App::default();
        app.action = action;
        app.sessions = sessions(3, true);
        app.sessions.extend(sessions(3, false));
        app.selected_session = 1;
        for key in [Key::Left, Key::Right, Key::Right, Key::Left, Key::Left] {
            assert_eq!(app.handle_key_event(key), Request::Continue);
            assert_eq!(app.focused_list, ListType::Session);
            assert_eq!(app.selected_session, 1);
        }
        app.handle_key_event(Key::Down);
        assert_eq!(app.selected_session, 2);
    }
}

#[test]
fn side_keys_move_between_the_file_lists() {
    let mut app = files_app(3, 3);
    app.handle_key_event(Key::Right);
    assert_eq!(app.focused_list, ListType::Config);
    app.handle_key_event(Key::Down);
    assert_eq!((app.selected_layout, app.selected_config), (0, 1));
    app.handle_key_event(Key::Right);
    assert_eq!(app.focused_list, ListType::Layout);
    app.handle_key_event(Key::Left);
    assert_eq!(app.focused_list, ListType::Config);
    app.handle_key_event(Key::Left);
    assert_eq!(app.focused_list, ListType::Layout);
    app.handle_key_event(Key::Up);
    assert_eq!((app.selected_layout, app.selected_config), (2, 1));
}

#[test]
fn page_keys_move_the_session_cursor() {
    let mut app = attach_app(25);
    app.handle_key_event(Key::PageDown);
    assert_eq!(app.selected_session, 10);
    app.handle_key_event(Key::PageDown);
    app.handle_key_event(Key::PageDown);
    assert_eq!(app.selected_session, 24);
    app.handle_key_event(Key::PageUp);
    assert_eq!(app.selected_session, 14);
}

#[test]
fn any_key_puts_a_status_away_and_does_nothing_else() {
    for key in [
        Key::Char('q'),
        Key::Char('r'),
        Key::Char('g'),
        Key::Char('k'),
        Key::Tab,
        Key::Down,
        Key::Enter,
        Key::Esc,
        Key::Other,
    ] {
        let mut app = attach_app(3);
        app.input_mode = InputMode::Status("done".to_string());
        app.status_message = "done".to_string();
        assert_eq!(app.handle_key_event(key), Request::Continue);
        assert_eq!(app.input_mode, InputMode::Normal);
        assert_eq!(app.action, Action::attach());
        assert_eq!(app.selected_session, 0);
        assert!(!app.exit);
    }
}

#[test]
fn unknown_keys_do_nothing() {
    let mut app = attach_app(3);
    app.selected_session = 1;
    let keys =
        [Key::Other, Key::Backspace, Key::Esc, Key::Char('z'), Key::Char('1'), Key::Char(' ')];
    for key in keys {
        assert_eq!(app.handle_key_event(key), Request::Continue);
        assert_eq!(app.input_mode, InputMode::Normal);
        assert_eq!(app.selected_session, 1);
        assert_eq!(app.action, Action::attach());
        assert!(!app.exit);
    }
}

#[test]
fn the_state_at_the_start() {
    let app = App::default();
    assert_eq!(app.action, Action::attach());
    assert!(app.sessions.is_empty() && app.layouts.is_empty() && app.configs.is_empty());
    assert_eq!((app.selected_session, app.selected_layout, app.selected_config), (0, 0, 0));
    assert_eq!(app.focused_list, ListType::Session);
    assert_eq!(app.input_mode, InputMode::Normal);
    assert_eq!(app.input_mode, InputMode::default());
    assert_eq!(ListType::default(), ListType::Layout);
    assert_eq!(app.goto_buffer, "");
    assert_eq!(app.status_message, "");
    assert!(!app.exit);
}
