use pulsos::theme::{health_tone, theme_for, HealthTone, ThemeKind};
use pulsos::cli::{
    daemon_status_line, daemon_stopped_line, groups_command_or_default, health_url, parse_port, AuthArgs, AuthCommand,
    ConfigArgs, ConfigCommand, GroupsCommand, ReposArgs, ReposCommand, ViewsArgs, ViewsCommand,
};
use pulsos::screen::{
    check_multiselect_defaults, screen_confirm, screen_input, screen_multiselect, screen_password_masked, screen_select,
    ScreenSession, ScreenSeverity, ScreenSpec,
};

#[test]
fn default_commands() {
    let auth = AuthArgs { command: None, from_env: false, ci: false, github_token: None, railway_token: None, vercel_token: None };
    assert!(matches!(auth.command_or_default(), AuthCommand::Status));
    assert!(matches!(ReposArgs { command: None }.command_or_default(), ReposCommand::Sync));
    assert!(matches!(ViewsArgs { command: None }.command_or_default(), ViewsCommand::List));
    assert!(matches!(ViewsArgs { command: Some(ViewsCommand::Templates) }.command_or_default(), ViewsCommand::Templates));
    assert_eq!(ConfigArgs { command: None }.command_or_default(), ConfigCommand::Show);
    assert_eq!(ConfigArgs { command: Some(ConfigCommand::Path) }.command_or_default(), ConfigCommand::Path);
    assert!(matches!(groups_command_or_default(None), GroupsCommand::List));
}

#[test]
fn daemon_texts() {
    assert_eq!(parse_port(" 8080\n"), Some(8080));
    assert_eq!(parse_port("70000"), None);
    assert_eq!(parse_port(""), None);
    assert_eq!(health_url(8080), "http://127.0.0.1:8080/health");
    assert_eq!(daemon_status_line(None, false), "Daemon is not running (no port file found).");
    assert_eq!(daemon_status_line(Some(9), true), "Daemon is running on port 9.");
    assert_eq!(daemon_status_line(Some(9), false), "Daemon port file exists (port 9) but health check failed.");
    assert_eq!(daemon_stopped_line(42), "Daemon (PID 42) stopped.");
}

#[test]
fn screen_session_pages() {
    let session = ScreenSession::new(false);
    assert_eq!(session.width, 76);
    let spec = ScreenSpec::new("Token").body_lines(&["Paste your token."]);
    let page = session.render_with_prompt(&spec, "Token");
    assert!(page.contains("Prompt: Token"));
    assert_eq!(session.render(&spec), pulsos::screen::format_screen(&spec, 76));
    let (page, answer) = screen_password_masked(&session, &spec, Ok("secret".into())).unwrap();
    assert!(page.contains("Input captured."));
    assert_eq!(answer.value.as_deref(), Some("secret"));
    let (page, answer) = screen_password_masked(&session, &spec, Err("Authentication cancelled.".into())).unwrap();
    assert!(page.contains("Cancelled by user."));
    assert!(answer.cancelled);
    assert!(screen_password_masked(&session, &spec, Err("io error".into())).is_err());
    let _ = ScreenSeverity::Info;
}

#[test]
fn theme_choice_and_health_tones() {
    assert_eq!(theme_for(false, None, "dark"), ThemeKind::Dark);
    assert_eq!(theme_for(false, None, "Light"), ThemeKind::Light);
    assert_eq!(theme_for(false, Some("ANSI16"), "light"), ThemeKind::Ansi16);
    assert_eq!(theme_for(true, Some("light"), "light"), ThemeKind::Ansi16);
    assert_eq!(theme_for(false, None, "solarized"), ThemeKind::Dark);
    assert_eq!(health_tone(100), HealthTone::Success);
    assert_eq!(health_tone(90), HealthTone::Success);
    assert_eq!(health_tone(89), HealthTone::Warning);
    assert_eq!(health_tone(70), HealthTone::Warning);
    assert_eq!(health_tone(69), HealthTone::Failure);
    assert_eq!(health_tone(0), HealthTone::Failure);
}

#[test]
fn prompt_outcomes() {
    let session = ScreenSession::new(true);
    let spec = ScreenSpec::new("Choose");
    let (page, answer) = screen_confirm(&session, &spec, "Save?", Ok(Some(false))).unwrap();
    assert!(page.contains("○ Save?"));
    assert_eq!(answer.value, Some(false));
    let (page, answer) = screen_confirm(&session, &spec, "Save?", Ok(None)).unwrap();
    assert!(page.contains("Cancelled by user."));
    assert!(answer.cancelled);
    assert!(screen_confirm(&session, &spec, "Save?", Err("broken pipe".into())).is_err());
    let (page, answer) = screen_input(&session, &spec, Ok("x".into())).unwrap();
    assert!(page.contains("Input captured."));
    assert_eq!(answer.value.as_deref(), Some("x"));
    let items = vec!["GitHub".to_string(), "All platforms".to_string()];
    let (page, answer) = screen_select(&session, &spec, &items, Ok(Some(1))).unwrap();
    assert!(page.contains("Selected: All platforms"));
    assert_eq!(answer.value, Some(1));
    let (page, answer) = screen_multiselect(&session, &spec, Ok(Some(vec![0, 2]))).unwrap();
    assert!(page.contains("Selected 2 item(s)."));
    assert_eq!(answer.value, Some(vec![0, 2]));
    let (_, answer) = screen_multiselect(&session, &spec, Err("Operation interrupted".into())).unwrap();
    assert!(answer.cancelled);
    assert!(check_multiselect_defaults(2, 2).is_ok());
    assert_eq!(
        check_multiselect_defaults(3, 2).unwrap_err(),
        "screen_multiselect: items (3) and defaults (2) lengths differ"
    );
}
