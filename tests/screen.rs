use store_tournament_tracker::config::AppConfig;
use store_tournament_tracker::screen::{Action, AppScreen, StoreTournamentTracker, UiEvent};

fn config(username: &str, password: &str) -> AppConfig {
    AppConfig::new(
        username.to_string(),
        password.to_string(),
        "missing.png".to_string(),
        "missing_ok.png".to_string(),
    )
}

fn attempt(t: &mut StoreTournamentTracker, username: &str, password: &str) -> Action {
    t.handle_event(UiEvent::UsernameEdited(username.to_string()));
    t.handle_event(UiEvent::PasswordEdited(password.to_string()));
    t.handle_event(UiEvent::LoginClicked)
}

#[test]
fn starts_on_login_with_empty_fields() {
    let t = StoreTournamentTracker::new(config("u", "p"), None, None);
    assert_eq!(t.current_screen(), AppScreen::Login);
    assert_eq!(t.input_username(), "");
    assert_eq!(t.input_password(), "");
    assert!(t.login_image().is_none());
    assert!(t.success_image().is_none());
}

#[test]
fn right_credentials_open_the_dashboard() {
    let mut t = StoreTournamentTracker::new(config("u", "p"), None, None);
    assert_eq!(attempt(&mut t, "u", "p"), Action::LoginSucceeded);
    assert_eq!(t.current_screen(), AppScreen::Dashboard);
}

#[test]
fn wrong_credentials_keep_the_login_screen() {
    for (u, p) in [("u", "x"), ("x", "p"), ("", ""), ("p", "u"), ("u ", "p"), ("U", "p")] {
        let mut t = StoreTournamentTracker::new(config("u", "p"), None, None);
        assert_eq!(attempt(&mut t, u, p), Action::LoginFailed);
        assert_eq!(t.current_screen(), AppScreen::Login);
    }
}

#[test]
fn non_image_file_gives_no_login_image() {
    let t = StoreTournamentTracker::new(
        config("u", "p"),
        Some(b"{\"not\": \"an image\"}".to_vec()),
        Some(Vec::new()),
    );
    assert_eq!(t.current_screen(), AppScreen::Login);
    assert!(t.login_image().is_none());
    assert!(t.success_image().is_none());
}

#[test]
fn dashboard_is_never_left() {
    let mut t = StoreTournamentTracker::new(config("u", "p"), None, None);
    attempt(&mut t, "u", "p");
    assert_eq!(attempt(&mut t, "x", "y"), Action::Nothing);
    assert_eq!(t.handle_event(UiEvent::LoginClicked), Action::Nothing);
    assert_eq!(t.handle_event(UiEvent::Frame), Action::Nothing);
    assert_eq!(t.current_screen(), AppScreen::Dashboard);
    assert_eq!(t.input_username(), "u");
    assert_eq!(t.input_password(), "p");
}

#[test]
fn repeated_failures_change_nothing() {
    let mut t = StoreTournamentTracker::new(config("u", "p"), None, None);
    assert_eq!(attempt(&mut t, "u", "wrong"), Action::LoginFailed);
    for _ in 0..5 {
        assert_eq!(t.handle_event(UiEvent::LoginClicked), Action::LoginFailed);
        assert_eq!(t.handle_event(UiEvent::Frame), Action::Nothing);
        assert_eq!(t.current_screen(), AppScreen::Login);
        assert_eq!(t.input_username(), "u");
        assert_eq!(t.input_password(), "wrong");
    }
}

#[test]
fn frames_change_nothing() {
    let mut t = StoreTournamentTracker::new(config("u", "p"), None, None);
    t.handle_event(UiEvent::UsernameEdited("u".to_string()));
    for _ in 0..5 {
        assert_eq!(t.handle_event(UiEvent::Frame), Action::Nothing);
    }
    assert_eq!(t.current_screen(), AppScreen::Login);
    assert_eq!(t.input_username(), "u");
    assert_eq!(t.input_password(), "");
}

#[test]
fn corrected_password_then_succeeds() {
    let mut t = StoreTournamentTracker::new(config("u", "p"), None, None);
    assert_eq!(attempt(&mut t, "u", "q"), Action::LoginFailed);
    t.handle_event(UiEvent::PasswordEdited("p".to_string()));
    assert_eq!(t.handle_event(UiEvent::LoginClicked), Action::LoginSucceeded);
    assert_eq!(t.current_screen(), AppScreen::Dashboard);
}

#[test]
fn admin_secret_end_to_end() {
    let text = r#"{"username":"admin","password":"secret","image_path":"missing.png","image_login_success":"missing.png"}"#;
    let c = AppConfig::from_json(text).unwrap();
    assert_eq!(c.image_path(), "missing.png");
    let mut t = StoreTournamentTracker::new(c.clone(), None, None);
    assert!(t.login_image().is_none());
    assert_eq!(attempt(&mut t, "admin", "secret"), Action::LoginSucceeded);
    assert_eq!(t.current_screen(), AppScreen::Dashboard);

    let mut t = StoreTournamentTracker::new(c, None, None);
    assert_eq!(attempt(&mut t, "admin", "wrong"), Action::LoginFailed);
    assert_eq!(t.current_screen(), AppScreen::Login);
}
