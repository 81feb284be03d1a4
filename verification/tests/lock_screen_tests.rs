use active_lock::config::DEFAULT_HASH;
use active_lock::lock_screen::{
    Action, App, EventAction, FramePlan, KeyInput, WindowInput, WindowRecord,
};

fn text(s: &str) -> KeyInput {
    KeyInput::Other(Some(s.to_string()))
}

fn app_with_windows() -> App {
    let mut app = App::new(0);
    app.add_window(WindowRecord { id: 7, is_primary: false, width: 800, height: 600 });
    app.add_window(WindowRecord { id: 9, is_primary: true, width: 1920, height: 1080 });
    app.mark_engaged();
    app
}

#[test]
fn typing_editing_and_clearing() {
    let mut app = App::new(0);
    assert_eq!(app.handle_key(&text("ab")), Action::RedrawPrimary);
    assert_eq!(app.handle_key(&text("é")), Action::RedrawPrimary);
    assert_eq!(app.password(), "abé");
    assert_eq!(app.handle_key(&KeyInput::Backspace), Action::RedrawPrimary);
    assert_eq!(app.password(), "ab");
    assert_eq!(app.handle_key(&text("")), Action::Nothing);
    assert_eq!(app.handle_key(&text("\u{8}")), Action::Nothing);
    assert_eq!(app.handle_key(&text("x\ty")), Action::Nothing);
    assert_eq!(app.handle_key(&KeyInput::Other(None)), Action::Nothing);
    assert_eq!(app.password(), "ab");
    assert_eq!(app.handle_key(&KeyInput::Escape), Action::RedrawPrimary);
    assert_eq!(app.password(), "");
    assert_eq!(app.handle_key(&KeyInput::Backspace), Action::RedrawPrimary);
    assert_eq!(app.password(), "");
    assert_eq!(app.handle_key(&KeyInput::Enter), Action::CheckPassword);
}

#[test]
fn escape_then_typing_starts_over() {
    let mut app = App::new(0);
    app.handle_key(&text("garbage"));
    app.handle_key(&KeyInput::Escape);
    app.handle_key(&text("unlock"));
    assert_eq!(app.password(), "unlock");
}

#[test]
fn right_password_unlocks() {
    let mut app = app_with_windows();
    for c in ["u", "n", "l", "o", "c", "k"] {
        app.handle_key(&text(c));
    }
    assert_eq!(app.handle_key(&KeyInput::Enter), Action::CheckPassword);
    assert_eq!(app.submit_password(DEFAULT_HASH), Action::Unlock);
    assert!(app.is_unlocked());
    assert!(!app.is_engaged());
}

#[test]
fn wrong_password_clears_and_flashes() {
    let mut app = app_with_windows();
    app.handle_key(&text("letmein"));
    assert_eq!(app.submit_password(DEFAULT_HASH), Action::RedrawPrimary);
    assert!(!app.is_unlocked());
    assert!(app.is_engaged());
    assert_eq!(app.password(), "");
    assert_eq!(app.error_flash_remaining(), 30);
}

#[test]
fn malformed_stored_hash_never_unlocks() {
    let mut app = app_with_windows();
    app.handle_key(&text("unlock"));
    assert_eq!(app.submit_password("garbage"), Action::RedrawPrimary);
    assert!(!app.is_unlocked());
}

#[test]
fn verdict_applies() {
    let mut app = app_with_windows();
    app.handle_key(&text("x"));
    assert_eq!(app.apply_verdict(false), Action::RedrawPrimary);
    assert_eq!(app.error_flash_remaining(), 30);
    assert_eq!(app.apply_verdict(true), Action::Unlock);
    assert!(app.is_unlocked());
}

#[test]
fn error_border_lasts_thirty_primary_frames() {
    let mut app = app_with_windows();
    app.apply_verdict(false);
    for _ in 0..30 {
        assert_eq!(
            app.begin_frame(9),
            Some(FramePlan::LockScreen { width: 1920, height: 1080, password_len: 0, error: true })
        );
        // other windows neither show nor consume the flash
        assert_eq!(app.begin_frame(7), Some(FramePlan::Black { width: 800, height: 600 }));
    }
    assert_eq!(
        app.begin_frame(9),
        Some(FramePlan::LockScreen { width: 1920, height: 1080, password_len: 0, error: false })
    );
    assert_eq!(app.error_flash_remaining(), 0);
}

#[test]
fn dots_count_bytes() {
    let mut app = app_with_windows();
    app.handle_key(&text("aé€"));
    assert_eq!(
        app.begin_frame(9),
        Some(FramePlan::LockScreen { width: 1920, height: 1080, password_len: 6, error: false })
    );
}

#[test]
fn frames_of_unknown_or_empty_windows() {
    let mut app = app_with_windows();
    assert_eq!(app.begin_frame(1), None);
    app.add_window(WindowRecord { id: 3, is_primary: true, width: 0, height: 10 });
    assert_eq!(app.begin_frame(3), None);
}

#[test]
fn window_events() {
    let mut app = app_with_windows();
    assert_eq!(app.window_event(7, &WindowInput::CloseRequested), EventAction::Nothing);
    assert_eq!(app.window_event(7, &WindowInput::Focused(false)), EventAction::Focus(7));
    assert_eq!(app.window_event(5, &WindowInput::Focused(false)), EventAction::Nothing);
    assert_eq!(app.window_event(7, &WindowInput::Focused(true)), EventAction::Nothing);
    assert_eq!(
        app.window_event(7, &WindowInput::Key { pressed: true, key: text("a") }),
        EventAction::Key(Action::RedrawPrimary)
    );
    assert_eq!(
        app.window_event(7, &WindowInput::Key { pressed: false, key: text("b") }),
        EventAction::Nothing
    );
    assert_eq!(app.password(), "a");
    assert_eq!(
        app.window_event(7, &WindowInput::Resized { width: 1024, height: 768 }),
        EventAction::Redraw(7)
    );
    assert_eq!(
        app.window_event(7, &WindowInput::RedrawRequested),
        EventAction::Draw(FramePlan::Black { width: 1024, height: 768 })
    );
    assert_eq!(
        app.window_event(9, &WindowInput::RedrawRequested),
        EventAction::Draw(FramePlan::LockScreen {
            width: 1920,
            height: 1080,
            password_len: 1,
            error: false
        })
    );
    assert_eq!(
        app.window_event(4, &WindowInput::Resized { width: 1, height: 1 }),
        EventAction::Nothing
    );
    assert_eq!(app.window_event(4, &WindowInput::Other), EventAction::Nothing);
}

#[test]
fn window_lists() {
    let mut app = App::new(0);
    assert!(app.needs_overlays());
    app.add_window(WindowRecord { id: 1, is_primary: true, width: 1, height: 1 });
    app.add_window(WindowRecord { id: 2, is_primary: false, width: 1, height: 1 });
    app.add_window(WindowRecord { id: 3, is_primary: true, width: 1, height: 1 });
    assert!(!app.needs_overlays());
    assert_eq!(app.window_ids(), vec![1, 2, 3]);
    assert_eq!(app.primary_window_ids(), vec![1, 3]);
    assert_eq!(app.windows().len(), 3);
}

#[test]
fn idle_plan_and_focus_timer() {
    let ms = 1_000_000u64;
    let mut app = app_with_windows();
    let p = app.about_to_wait(100 * ms);
    assert_eq!((p.wait_ms, p.redraw_primary, p.refocus_all), (500, false, false));
    let p = app.about_to_wait(500 * ms);
    assert!(p.refocus_all);
    let p = app.about_to_wait(999 * ms);
    assert!(!p.refocus_all);
    let p = app.about_to_wait(1000 * ms);
    assert!(p.refocus_all);
    // a clock that goes backwards never refocuses
    let p = app.about_to_wait(10 * ms);
    assert!(!p.refocus_all);
    app.apply_verdict(false);
    let p = app.about_to_wait(1001 * ms);
    assert_eq!((p.wait_ms, p.redraw_primary, p.refocus_all), (16, true, false));
}
