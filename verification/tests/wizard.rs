use pulsos::config::{CorrelationConfig, OrgConfig, PulsosConfig, TeamConfig};
use pulsos::domain::{PlatformHealthReport, PlatformHealthState, PlatformKind, PlatformHealthDetails};
use pulsos::screen::ScreenSeverity;
use pulsos::wizard::{
    auth_step, chosen_kinds, needs_wizard_prompt, platform_is_enabled, platform_items, provider_state, readiness_badges,
    readiness_summary_lines, retry_page, WizardProgress, WizardStep,
};

fn base_config() -> PulsosConfig {
    PulsosConfig::default()
}

fn report(platform: PlatformKind, state: PlatformHealthState) -> PlatformHealthReport {
    PlatformHealthReport { platform, state, reason: String::new(), next_action: String::new(), token_source: None, details: PlatformHealthDetails::Unknown }
}

#[test]
fn enabled_platform_detection() {
    let mut cfg = base_config();
    assert!(!platform_is_enabled(&cfg, PlatformKind::GitHub));

    cfg.github.organizations.push(OrgConfig {
        name: "my-org".to_string(),
        include_patterns: vec![],
        exclude_patterns: vec![],
        auto_discover: true,
    });

    assert!(platform_is_enabled(&cfg, PlatformKind::GitHub));
}

#[test]
fn enabled_by_correlations_or_sections() {
    let mut cfg = base_config();
    cfg.correlations.push(CorrelationConfig {
        name: "app".into(),
        github_repo: None,
        railway_project: Some("rw".into()),
        railway_workspace: None,
        railway_environment: None,
        vercel_project: None,
        vercel_team: None,
    });
    assert!(platform_is_enabled(&cfg, PlatformKind::Railway));
    assert!(!platform_is_enabled(&cfg, PlatformKind::Vercel));
    cfg.vercel.teams.push(TeamConfig { name: "team".into() });
    assert!(platform_is_enabled(&cfg, PlatformKind::Vercel));
}

#[test]
fn wizard_prompt_needed_only_for_providers_in_use() {
    let mut cfg = base_config();
    let reports = vec![report(PlatformKind::GitHub, PlatformHealthState::NoToken)];
    assert!(!needs_wizard_prompt(&cfg, &reports));
    cfg.github.organizations.push(OrgConfig {
        name: "o".into(),
        include_patterns: vec![],
        exclude_patterns: vec![],
        auto_discover: false,
    });
    assert!(needs_wizard_prompt(&cfg, &reports));
    let ok = vec![report(PlatformKind::GitHub, PlatformHealthState::Ready)];
    assert!(!needs_wizard_prompt(&cfg, &ok));
    let bad = vec![report(PlatformKind::GitHub, PlatformHealthState::InvalidToken)];
    assert!(needs_wizard_prompt(&cfg, &bad));
}

#[test]
fn wizard_progress_records_each_step_once() {
    let mut p = WizardProgress::new();
    p.start(WizardStep::SelectPlatforms);
    p.finish();
    p.start(WizardStep::SelectPlatforms);
    p.finish();
    p.finish();
    p.start(WizardStep::Recheck);
    p.finish();
    assert_eq!(p.completed, vec![WizardStep::SelectPlatforms, WizardStep::Recheck]);
    assert!(p.current.is_none());
}

#[test]
fn wizard_login_pages() {
    assert_eq!(chosen_kinds(&[2, 0]), vec![PlatformKind::Vercel, PlatformKind::GitHub]);
    assert_eq!(auth_step(0, 0), (1, 1));
    assert_eq!(auth_step(1, 3), (2, 3));
    let page = retry_page(PlatformKind::Railway, (2, 3), "bad token");
    assert_eq!(page.title, "Railway");
    assert_eq!(page.body_lines, vec!["Auth failed: bad token".to_string()]);
    assert_eq!(page.severity, ScreenSeverity::Error);
    assert_eq!(page.step_index, Some(2));
}

#[test]
fn provider_states_and_summary() {
    let reports = vec![
        report(PlatformKind::Vercel, PlatformHealthState::InvalidToken),
        report(PlatformKind::GitHub, PlatformHealthState::Ready),
    ];
    assert_eq!(provider_state(&reports, PlatformKind::Railway), PlatformHealthState::NoToken);
    assert_eq!(
        platform_items(&reports),
        vec!["GitHub [✓ Ready]".to_string(), "Railway [○ No Token]".to_string(), "Vercel [✗ Invalid Token]".to_string()]
    );
    assert_eq!(readiness_badges(&reports), vec!["GH✓".to_string(), "RW○".to_string(), "VC✗".to_string()]);
    let lines = readiness_summary_lines(&reports, true);
    assert_eq!(lines.len(), 6);
    assert_eq!(lines[1], "─".repeat(50));
    assert_eq!(lines[2], "Discovery skipped: no platform tokens are configured.");
    assert_eq!(lines[4], format!("✗ {:<8} {:<16} {}", "Vercel", "Invalid Token", ""));
}
