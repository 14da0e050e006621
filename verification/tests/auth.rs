use pulsos::auth::{
    auth_page, auth_screen_spec, authenticated_lines, check_ci_tokens, direct_token, entered_token, env_reminder_lines,
    env_var_names, logout_platforms, parse_platform_name, refresh_targets, token_help_lines, AuthError, AuthPage,
};
use pulsos::auth::status_lines;
use pulsos::domain::{PlatformHealthDetails, PlatformHealthReport, PlatformHealthState, PlatformKind};
use pulsos::screen::ScreenSeverity;
use pulsos::auth::{masked_entry_key, MaskedStep};
use pulsos::keys::{KeyCode, KeyEvent, KeyModifiers};

#[test]
fn platform_names_parse_ignoring_case() {
    assert_eq!(parse_platform_name("GitHub").unwrap(), PlatformKind::GitHub);
    assert_eq!(parse_platform_name("VERCEL").unwrap(), PlatformKind::Vercel);
    let e = parse_platform_name("Netlify").unwrap_err();
    assert_eq!(e.message(), "Unknown platform: netlify. Use 'github', 'railway', or 'vercel'.");
    assert_eq!(refresh_targets(&None).unwrap().len(), 3);
    assert_eq!(refresh_targets(&Some("railway".into())).unwrap(), vec![PlatformKind::Railway]);
    assert!(refresh_targets(&Some("x".into())).is_err());
}

#[test]
fn logout_menu_choices() {
    assert_eq!(logout_platforms(0), vec![PlatformKind::GitHub]);
    assert_eq!(logout_platforms(2), vec![PlatformKind::Vercel]);
    assert_eq!(logout_platforms(3), vec![PlatformKind::GitHub, PlatformKind::Railway, PlatformKind::Vercel]);
}

#[test]
fn token_text_checks() {
    assert_eq!(direct_token("  ghp_x \n").unwrap(), "ghp_x");
    assert_eq!(direct_token("   ").unwrap_err().message(), "Token value cannot be empty.");
    assert_eq!(entered_token("").unwrap_err().message(), "No token provided. Authentication cancelled.");
    assert!(check_ci_tokens(&None, &None, &None).is_err());
    assert_eq!(
        check_ci_tokens(&None, &None, &None).unwrap_err().message(),
        "--ci requires at least one token flag: --github-token, --railway-token, or --vercel-token"
    );
    assert!(check_ci_tokens(&None, &Some("t".into()), &None).is_ok());
}

#[test]
fn env_vars_and_messages() {
    assert_eq!(env_var_names(PlatformKind::GitHub), vec!["GH_TOKEN".to_string(), "GITHUB_TOKEN".to_string()]);
    assert_eq!(
        AuthError::NoEnvToken { platform: PlatformKind::Railway }.message(),
        "No Railway token found in environment. Set RAILWAY_TOKEN or RAILWAY_API_TOKEN before using --from-env."
    );
    assert_eq!(AuthError::ValidationsFailed.message(), "One or more token validations failed.");
    assert!(env_reminder_lines(&vec![]).is_empty());
    let lines = env_reminder_lines(&vec!["VERCEL_TOKEN".into()]);
    assert_eq!(lines[2], "    VERCEL_TOKEN");
    assert_eq!(lines.len(), 4);
}

#[test]
fn login_pages() {
    assert_eq!(token_help_lines(PlatformKind::Vercel), vec!["Create a token:".to_string(), "https://vercel.com/account/tokens".to_string()]);
    let spec = auth_screen_spec(PlatformKind::GitHub, Some((1, 1)), vec!["x".into()], vec![]);
    assert_eq!(spec.title, "GitHub");
    assert_eq!(spec.subtitle.as_deref(), Some("Authentication"));
    assert_eq!(spec.step_total, Some(1));
    let stored = auth_page(
        PlatformKind::GitHub,
        None,
        AuthPage::Stored { identity: "octocat".into(), warnings: vec!["scope read:org missing".into()] },
    );
    assert_eq!(stored.severity, ScreenSeverity::Success);
    assert_eq!(stored.body_lines[0], "✓ Authenticated as octocat");
    assert_eq!(stored.body_lines[2], "warning: scope read:org missing");
    let failed = auth_page(PlatformKind::Railway, None, AuthPage::Failed { error: "401".into() });
    assert_eq!(failed.hints, vec!["Check your token and try again.".to_string()]);
    assert_eq!(failed.severity, ScreenSeverity::Error);
    let stored_already = auth_page(PlatformKind::Vercel, None, AuthPage::AlreadyStored);
    assert_eq!(stored_already.body_lines[0], "A token is already stored for Vercel.");
    assert_eq!(authenticated_lines("me", &vec![]).len(), 2);
}

#[test]
fn status_lines_per_provider() {
    let report = PlatformHealthReport {
        platform: PlatformKind::Railway,
        state: PlatformHealthState::NoToken,
        reason: "no token found".into(),
        next_action: "Run pulsos auth railway".into(),
        token_source: None,
        details: PlatformHealthDetails::Unknown,
    };
    let lines = status_lines(&report, "none");
    assert_eq!(lines[0], format!("  {:<12} {} {:<16} via {}", "Railway:", "○", "No Token", "none"));
    assert_eq!(lines[1], format!("  {:<12}  {}", "", "no token found"));
    assert_eq!(lines[2], format!("  {:<12}  next: {}", "", "Run pulsos auth railway"));
    let done = PlatformHealthReport { next_action: "No action needed.".into(), ..report };
    assert_eq!(status_lines(&done, "keyring").len(), 2);
}

#[test]
fn masked_entry_edits_and_finishes() {
    let mut input = String::new();
    assert_eq!(masked_entry_key(&mut input, KeyEvent::plain(KeyCode::Char('a'))), MaskedStep::Typed);
    assert_eq!(masked_entry_key(&mut input, KeyEvent::plain(KeyCode::Char('b'))), MaskedStep::Typed);
    assert_eq!(input, "ab");
    assert_eq!(masked_entry_key(&mut input, KeyEvent::plain(KeyCode::Backspace)), MaskedStep::Erased);
    assert_eq!(input, "a");
    let alt = KeyModifiers { control: false, alt: true, shift: false };
    assert_eq!(masked_entry_key(&mut input, KeyEvent::new(KeyCode::Char('x'), alt)), MaskedStep::Ignored);
    assert_eq!(masked_entry_key(&mut input, KeyEvent::new(KeyCode::Char('c'), KeyModifiers::control())), MaskedStep::Cancel);
    assert_eq!(input, "a");
    assert_eq!(masked_entry_key(&mut input, KeyEvent::plain(KeyCode::Enter)), MaskedStep::Submit);
    let mut empty = String::new();
    assert_eq!(masked_entry_key(&mut empty, KeyEvent::plain(KeyCode::Backspace)), MaskedStep::Ignored);
}
