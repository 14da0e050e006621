use pulsos::app::{App, DataSnapshot};
use pulsos::config::TuiConfig;
use pulsos::domain::{PlatformHealthDetails, PlatformHealthReport, PlatformHealthState, PlatformKind};
use pulsos::log_buffer::LogRingBuffer;
use pulsos::settings_detail::{render_detail, stats_line};
use pulsos::tabs::SettingsFlowState;

fn health_report(token_source: Option<&str>) -> PlatformHealthReport {
    PlatformHealthReport {
        platform: PlatformKind::GitHub,
        state: PlatformHealthState::Ready,
        reason: "ready".to_string(),
        next_action: "none".to_string(),
        token_source: token_source.map(str::to_string),
        details: PlatformHealthDetails::Unknown,
    }
}

fn app_with(report: PlatformHealthReport) -> App {
    let mut data = DataSnapshot::default();
    data.platform_health = vec![report];
    App::new(data, TuiConfig::default(), LogRingBuffer::new())
}

#[test]
fn detail_copy_uses_normalized_sections_and_actions() {
    let report = health_report(Some("keyring"));
    let app = app_with(health_report(Some("keyring")));

    let detail = render_detail(&report, &app);
    for heading in ["Provider", "Token Source", "Reason", "Next Action", "Actions", "Result", "Provider Stats"] {
        assert!(detail.contains(heading), "missing heading {heading}");
    }
    assert!(detail.contains("t set/replace token   v validate"));
    assert!(detail.contains("x remove token        o onboard"));
    assert!(detail.contains("Enter select providers"));
}

#[test]
fn detail_shows_env_override_warning_when_env_token_is_active() {
    let report = health_report(Some("GITHUB_TOKEN"));
    let app = app_with(health_report(Some("GITHUB_TOKEN")));

    let detail = render_detail(&report, &app);
    assert!(detail.contains("env token is read-only; press T to store override"));
}

#[test]
fn detail_lines_follow_the_onboarding_step() {
    let report = health_report(None);
    let mut app = app_with(health_report(None));
    let detail = render_detail(&report, &app);
    assert!(detail.starts_with("Provider\n  GitHub (✓ Ready)\nToken Source\n  none\n"));
    assert!(detail.ends_with("Provider Stats\n  no provider-specific details"));
    app.settings_flow = SettingsFlowState::TokenEntry;
    app.token_input = "abc".into();
    let detail = render_detail(&report, &app);
    assert!(detail.contains("\nToken Input\n  •••\n"));
    app.settings_flow = SettingsFlowState::ProviderActions;
    let detail = render_detail(&report, &app);
    assert!(detail.contains("\n > [ ] GitHub\n   [ ] Railway\n   [ ] Vercel\n"));
    app.settings_flow = SettingsFlowState::ResourceSelection;
    let detail = render_detail(&report, &app);
    assert!(detail.contains("  (no resources found)"));
}

#[test]
fn stats_line_per_provider() {
    let d = PlatformHealthDetails::Railway {
        identity: Some("me".into()),
        accessible_workspaces: 1,
        configured_workspace_checks: 2,
        accessible_projects: 3,
        configured_project_checks: 4,
    };
    assert_eq!(stats_line(&d), "identity=me  workspaces 1/2 accessible  projects 3/4 accessible");
    let g = PlatformHealthDetails::GitHub {
        identity: None,
        accessible_repos: 5,
        configured_repo_checks: 5,
        accessible_orgs: 0,
        configured_org_checks: 1,
    };
    assert_eq!(stats_line(&g), "identity=unknown  repos 5/5 accessible  orgs 0/1 accessible");
}
