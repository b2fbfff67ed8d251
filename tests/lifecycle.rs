use smartcal::events::{
    action_for, menu_action, tray_action, Action, ButtonState, Event, MouseButton, TrayEvent,
    MAIN_WINDOW, QUIT_EXIT_CODE, QUIT_ID, SHOW_ID,
};
use smartcal::menu::{tray_menu, tray_tooltip};
use smartcal::session::{MainWindow, Session, WindowState};
use smartcal::text::same_text;

fn menu(id: &str) -> Event {
    Event::Menu { id: id.to_string() }
}

fn close(label: &str) -> Event {
    Event::CloseRequested { label: label.to_string() }
}

fn tray(event: TrayEvent) -> Event {
    Event::Tray { event }
}

fn left_up() -> TrayEvent {
    TrayEvent::Click { button: MouseButton::Left, button_state: ButtonState::Up }
}

fn visible_focused() -> Option<MainWindow> {
    Some(MainWindow { state: WindowState::Visible, focused: true })
}

fn hidden() -> Option<MainWindow> {
    Some(MainWindow { state: WindowState::Hidden, focused: false })
}

fn all_tray_events() -> Vec<TrayEvent> {
    let buttons = [MouseButton::Left, MouseButton::Right, MouseButton::Middle];
    let mut evs = vec![TrayEvent::Enter, TrayEvent::Move, TrayEvent::Leave];
    for b in buttons {
        evs.push(TrayEvent::DoubleClick { button: b });
        evs.push(TrayEvent::Click { button: b, button_state: ButtonState::Up });
        evs.push(TrayEvent::Click { button: b, button_state: ButtonState::Down });
    }
    evs
}

#[test]
fn close_then_tray_click_restores_window() {
    let mut s = Session::new(true);
    assert_eq!(s.step(&close(MAIN_WINDOW)), Action::HideWindow);
    assert_eq!(s.main, hidden());
    assert_eq!(s.exit_code, None);
    assert_eq!(s.step(&tray(left_up())), Action::RevealMain);
    assert_eq!(s.main, visible_focused());
    assert_eq!(s.exit_code, None);
}

#[test]
fn exit_from_tray_menu_while_hidden() {
    let mut s = Session::new(true);
    s.step(&close(MAIN_WINDOW));
    assert_eq!(s.main, hidden());
    assert_eq!(s.step(&menu("quit")), Action::Exit { code: 0 });
    assert_eq!(s.exit_code, Some(0));
    assert_eq!(s.main, hidden());
}

#[test]
fn many_close_requests_never_terminate() {
    let mut s = Session::new(true);
    for _ in 0..100 {
        assert_eq!(s.step(&close(MAIN_WINDOW)), Action::HideWindow);
        assert_eq!(s.exit_code, None);
        assert!(s.main.is_some());
    }
    for label in ["settings", "", "Main"] {
        assert_eq!(s.step(&close(label)), Action::HideWindow);
        assert_eq!(s.exit_code, None);
    }
}

#[test]
fn only_quit_reaches_termination() {
    let mut s = Session::new(true);
    let mut evs = vec![menu("show"), menu("exit"), menu("Quit"), close(MAIN_WINDOW)];
    for t in all_tray_events() {
        evs.push(tray(t));
    }
    for ev in &evs {
        s.step(ev);
        assert_eq!(s.exit_code, None);
    }
    s.step(&menu("quit"));
    assert_eq!(s.exit_code, Some(0));
}

#[test]
fn show_menu_after_close_restores_minimized_window() {
    let mut s = Session {
        main: Some(MainWindow { state: WindowState::Minimized, focused: false }),
        exit_code: None,
    };
    s.step(&close(MAIN_WINDOW));
    assert_eq!(s.main, hidden());
    assert_eq!(s.step(&menu("show")), Action::RevealMain);
    assert_eq!(s.main, visible_focused());
}

#[test]
fn show_restores_minimized_window_directly() {
    let mut s = Session {
        main: Some(MainWindow { state: WindowState::Minimized, focused: false }),
        exit_code: None,
    };
    s.step(&tray(left_up()));
    assert_eq!(s.main, visible_focused());
}

#[test]
fn show_without_main_window_is_noop() {
    let mut s = Session::new(false);
    assert_eq!(s.step(&menu("show")), Action::RevealMain);
    assert_eq!(s, Session::new(false));
    assert_eq!(s.step(&tray(left_up())), Action::RevealMain);
    assert_eq!(s, Session::new(false));
}

#[test]
fn quit_exits_zero_in_every_state() {
    let states = [
        None,
        Some(MainWindow { state: WindowState::Visible, focused: true }),
        Some(MainWindow { state: WindowState::Visible, focused: false }),
        Some(MainWindow { state: WindowState::Hidden, focused: false }),
        Some(MainWindow { state: WindowState::Minimized, focused: false }),
    ];
    for main in states {
        let mut s = Session { main, exit_code: None };
        assert_eq!(s.step(&menu("quit")), Action::Exit { code: 0 });
        assert_eq!(s.exit_code, Some(0));
        assert_eq!(s.main, main);
    }
}

#[test]
fn unknown_menu_ids_do_nothing() {
    for id in ["", "Show", "QUIT", "shows", "qui", "settings", "show ", "mở"] {
        assert_eq!(menu_action(id), Action::Nothing);
        let before = Session::new(true);
        let mut s = before;
        assert_eq!(s.step(&menu(id)), Action::Nothing);
        assert_eq!(s, before);
    }
}

#[test]
fn other_tray_events_do_nothing() {
    let mut n = 0;
    for t in all_tray_events() {
        if t == left_up() {
            continue;
        }
        n += 1;
        assert_eq!(tray_action(&t), Action::Nothing);
        let before = Session { main: hidden(), exit_code: None };
        let mut s = before;
        assert_eq!(s.step(&tray(t)), Action::Nothing);
        assert_eq!(s, before);
    }
    assert_eq!(n, 11);
}

#[test]
fn dispatch_of_known_ids_and_left_release() {
    assert_eq!(menu_action(SHOW_ID), Action::RevealMain);
    assert_eq!(menu_action(QUIT_ID), Action::Exit { code: QUIT_EXIT_CODE });
    assert_eq!(tray_action(&left_up()), Action::RevealMain);
    assert_eq!(action_for(&close("main")), Action::HideWindow);
    assert_eq!(action_for(&menu("quit")), Action::Exit { code: 0 });
    assert_eq!(action_for(&tray(TrayEvent::Enter)), Action::Nothing);
}

#[test]
fn close_of_another_window_leaves_main_alone() {
    let mut s = Session::new(true);
    assert_eq!(s.step(&close("about")), Action::HideWindow);
    assert_eq!(s, Session::new(true));
}

#[test]
fn new_session_is_running() {
    assert_eq!(
        Session::new(true),
        Session {
            main: Some(MainWindow { state: WindowState::Visible, focused: false }),
            exit_code: None,
        }
    );
    assert_eq!(Session::new(false), Session { main: None, exit_code: None });
}

#[test]
fn text_comparison() {
    assert!(same_text("", ""));
    assert!(same_text("show", "show"));
    assert!(same_text("Lịch", "Lịch"));
    assert!(!same_text("show", "shoW"));
    assert!(!same_text("show", "shows"));
    assert!(!same_text("Lịch", "Lich"));
}

#[test]
fn tray_menu_entries() {
    let m = tray_menu();
    assert_eq!(m.len(), 2);
    assert_eq!(m[0].id, "show");
    assert_eq!(m[0].label, "Mở SmartCal");
    assert!(m[0].enabled);
    assert_eq!(m[1].id, "quit");
    assert_eq!(m[1].label, "Thoát");
    assert!(m[1].enabled);
    assert_eq!(tray_tooltip(), "SmartCal - Lịch thông minh");
}
