use phishvault::app::{App, CurrentScreen, Effect, Key, LoginField};
use phishvault::events::AppEvent;

fn type_str(app: &mut App, s: &str) {
    for c in s.chars() {
        app.on_key(Key::Char(c));
    }
}

fn login(app: &mut App) {
    type_str(app, "phishvault");
    app.on_key(Key::Tab);
    type_str(app, "phishvault-tp2");
    app.on_key(Key::Enter);
}

#[test]
fn initial_state() {
    let app = App::new();
    assert_eq!(app.screen, CurrentScreen::Login);
    assert_eq!(app.login_field, LoginField::Username);
    assert_eq!(app.username_input, "");
    assert_eq!(app.password_input, "");
    assert_eq!(app.login_error, "");
    assert!(!app.scan_active);
    assert_eq!(app.scan_progress, 0);
    assert_eq!(app.scan_status, "LOCKED");
    assert_eq!(app.url_input, "https://");
    assert_eq!(app.window, (0, 100000));
    assert_eq!(app.selected, 0);
    assert!(!app.should_quit);
    let v = app.logs.visible(10);
    assert_eq!(v.len(), 1);
    assert_eq!(v[0].level, "INFO");
    assert_eq!(v[0].message, "Authentication Required.");
}

#[test]
fn login_with_exact_credentials_unlocks_table() {
    let mut app = App::new();
    login(&mut app);
    assert_eq!(app.screen, CurrentScreen::Table);
    assert_eq!(app.scan_status, "IDLE");
    assert_eq!(app.login_error, "");
    let v = app.logs.visible(1);
    assert_eq!(v[0].level, "SUCCESS");
    assert_eq!(v[0].message, "Admin Authenticated.");
}

#[test]
fn login_with_wrong_pair_stays_and_clears_password() {
    let mut app = App::new();
    type_str(&mut app, "phishvault");
    app.on_key(Key::Tab);
    type_str(&mut app, "wrong");
    app.on_key(Key::Enter);
    assert_eq!(app.screen, CurrentScreen::Login);
    assert_eq!(app.login_error, "Invalid Credentials!");
    assert_eq!(app.password_input, "");
    assert_eq!(app.username_input, "phishvault");
}

#[test]
fn login_editing_and_focus() {
    let mut app = App::new();
    type_str(&mut app, "ab");
    app.on_key(Key::Backspace);
    assert_eq!(app.username_input, "a");
    // Enter on the username field only moves focus.
    app.on_key(Key::Enter);
    assert_eq!(app.login_field, LoginField::Password);
    assert_eq!(app.screen, CurrentScreen::Login);
    type_str(&mut app, "xy");
    assert_eq!(app.password_input, "xy");
    // Tab toggles focus back.
    app.on_key(Key::Tab);
    assert_eq!(app.login_field, LoginField::Username);
}

#[test]
fn esc_on_login_requests_quit() {
    let mut app = App::new();
    app.on_key(Key::Esc);
    assert!(app.should_quit);
}

#[test]
fn cursor_wraps_both_ways() {
    let mut app = App::new();
    login(&mut app);
    assert_eq!(app.selected, 0);
    app.on_key(Key::Up);
    assert_eq!(app.selected, 6);
    app.on_key(Key::Down);
    assert_eq!(app.selected, 0);
    for _ in 0..7 {
        app.on_key(Key::Char('j'));
    }
    assert_eq!(app.selected, 0);
    app.on_key(Key::Char('k'));
    assert_eq!(app.selected, 6);
}

#[test]
fn table_and_monitor_navigation() {
    let mut app = App::new();
    login(&mut app);
    app.on_key(Key::Tab);
    assert_eq!(app.screen, CurrentScreen::Monitor);
    app.on_key(Key::Esc);
    assert_eq!(app.screen, CurrentScreen::Table);
    app.on_key(Key::Tab);
    app.on_key(Key::Tab);
    assert_eq!(app.screen, CurrentScreen::Table);
    app.on_key(Key::Char('q'));
    assert!(app.should_quit);
}

#[test]
fn quit_from_monitor() {
    let mut app = App::new();
    login(&mut app);
    app.on_key(Key::Tab);
    app.on_key(Key::Char('q'));
    assert!(app.should_quit);
}

#[test]
fn enter_on_scan_target_opens_url_prompt() {
    let mut app = App::new();
    login(&mut app);
    app.selected = 0;
    let eff = app.on_key(Key::Enter);
    assert!(matches!(eff, Effect::NoOp));
    assert_eq!(app.screen, CurrentScreen::UrlInput);
    assert_eq!(app.url_input, "https://");
}

#[test]
fn enter_on_infra_rows_hands_out_compose_commands() {
    let mut app = App::new();
    login(&mut app);
    app.selected = 1;
    let eff = app.on_key(Key::Enter);
    match eff {
        Effect::RunDocker(args) => {
            assert_eq!(
                args,
                vec!["compose", "-f", "deploy/docker-compose.yml", "up", "-d"]
            );
        }
        _ => panic!("expected a docker effect"),
    }
    let v = app.logs.visible(1);
    assert_eq!(v[0].level, "CMD");
    assert_eq!(
        v[0].message,
        "Running Docker: [\"compose\", \"-f\", \"deploy/docker-compose.yml\", \"up\", \"-d\"]"
    );
    app.selected = 2;
    let eff = app.on_key(Key::Enter);
    match eff {
        Effect::RunDocker(args) => {
            assert_eq!(args, vec!["compose", "-f", "deploy/docker-compose.yml", "down"]);
        }
        _ => panic!("expected a docker effect"),
    }
}

#[test]
fn enter_on_dashboard_rows_opens_browser() {
    let mut app = App::new();
    login(&mut app);
    let expected = [
        (3usize, "http://localhost:7474"),
        (4, "http://localhost:9001"),
        (5, "http://localhost:15672"),
    ];
    for (row, url) in expected {
        app.selected = row;
        let eff = app.on_key(Key::Enter);
        match eff {
            Effect::OpenBrowser(u) => assert_eq!(u, url),
            _ => panic!("expected a browser effect"),
        }
        let v = app.logs.visible(1);
        assert_eq!(v[0].level, "CMD");
        assert_eq!(v[0].message, format!("Opening Browser: {}", url));
    }
}

#[test]
fn enter_on_run_tests_hands_out_test_run() {
    let mut app = App::new();
    login(&mut app);
    app.selected = 6;
    let eff = app.on_key(Key::Enter);
    assert!(matches!(eff, Effect::RunTests));
    let v = app.logs.visible(1);
    assert_eq!(v[0].level, "CMD");
    assert_eq!(v[0].message, "Running Unit Tests...");
}

#[test]
fn url_submit_launches_exactly_one_scan() {
    let mut app = App::new();
    login(&mut app);
    app.selected = 0;
    app.on_key(Key::Enter);
    type_str(&mut app, "target.example");
    let eff = app.on_key(Key::Enter);
    match eff {
        Effect::StartScan(url) => assert_eq!(url, "https://target.example"),
        _ => panic!("expected a scan launch"),
    }
    assert_eq!(app.screen, CurrentScreen::Table);
    assert!(app.scan_active);
    assert_eq!(app.scan_progress, 0);
    assert_eq!(app.scan_status, "SCANNING");
    // Submitting again while the scan runs is a no-op: no second task.
    app.selected = 0;
    app.on_key(Key::Enter);
    let eff = app.on_key(Key::Enter);
    assert!(matches!(eff, Effect::NoOp));
    assert!(app.scan_active);
    assert_eq!(app.scan_status, "SCANNING");
}

#[test]
fn url_prompt_editing_and_escape() {
    let mut app = App::new();
    login(&mut app);
    app.selected = 0;
    app.on_key(Key::Enter);
    type_str(&mut app, "ab");
    assert_eq!(app.url_input, "https://ab");
    app.on_key(Key::Backspace);
    assert_eq!(app.url_input, "https://a");
    let eff = app.on_key(Key::Esc);
    assert!(matches!(eff, Effect::NoOp));
    assert_eq!(app.screen, CurrentScreen::Table);
    assert!(!app.scan_active);
}

#[test]
fn scan_complete_event_resets_scan_state() {
    let mut app = App::new();
    login(&mut app);
    app.selected = 0;
    app.on_key(Key::Enter);
    app.on_key(Key::Enter);
    assert!(app.scan_active);
    app.on_event(AppEvent::ScanComplete);
    assert!(!app.scan_active);
    assert_eq!(app.scan_progress, 1000);
    assert_eq!(app.scan_status, "COMPLETE");
}

#[test]
fn tick_is_skipped_on_login_screen() {
    let mut app = App::new();
    app.on_tick(5000);
    assert_eq!(app.cpu_data.len(), 0);
    assert_eq!(app.mem_data.len(), 0);
    assert_eq!(app.window, (0, 100000));
}

#[test]
fn tick_samples_and_slides_window() {
    let mut app = App::new();
    login(&mut app);
    app.on_tick(0);
    assert_eq!(app.cpu_data.len(), 1);
    assert_eq!(app.cpu_data.sample(0), (0, 1000));
    assert_eq!(app.mem_data.sample(0), (0, 2800));
    assert_eq!(app.window, (0, 0));
    app.on_tick(60000);
    assert_eq!(app.window, (10000, 60000));
    app.on_tick(1000);
    assert_eq!(app.window, (0, 1000));
}

#[test]
fn progress_advances_only_while_active_and_clamps() {
    let mut app = App::new();
    login(&mut app);
    app.on_tick(100);
    assert_eq!(app.scan_progress, 0);
    app.selected = 0;
    app.on_key(Key::Enter);
    app.on_key(Key::Enter);
    app.on_tick(200);
    assert_eq!(app.scan_progress, 5);
    app.on_tick(300);
    assert_eq!(app.scan_progress, 10);
    for t in 0..400u64 {
        app.on_tick(400 + t);
    }
    assert_eq!(app.scan_progress, 1000);
}
