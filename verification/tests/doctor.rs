use pulsos::config::{CorrelationConfig, PulsosConfig};
use pulsos::doctor::{
    cache_checks, cli_tool_check, daemon_checks, version_line,
    check_auth, check_connectivity, check_correlations, check_tracked_resources, collect_auth_suggestions,
    collect_correlation_suggestions, format_groups, github_rate_limit_check,
};
use pulsos::doctor_fmt::{CheckResult, CheckStatus};
use pulsos::domain::{PlatformHealthReport, PlatformHealthState, PlatformKind, PlatformHealthDetails};
use pulsos::doctor::system_checks;

fn corr(name: &str, gh: Option<&str>, rw: Option<&str>, ws: Option<&str>, vc: Option<&str>, team: Option<&str>) -> CorrelationConfig {
    CorrelationConfig {
        name: name.into(),
        github_repo: gh.map(String::from),
        railway_project: rw.map(String::from),
        railway_workspace: ws.map(String::from),
        railway_environment: None,
        vercel_project: vc.map(String::from),
        vercel_team: team.map(String::from),
    }
}

fn config(correlations: Vec<CorrelationConfig>) -> PulsosConfig {
    PulsosConfig { correlations, ..Default::default() }
}

#[test]
fn check_tracked_resources_no_config() {
    let results = check_tracked_resources(&None);
    assert_eq!(results.len(), 1);
    assert_eq!(results[0].status, CheckStatus::Warning);
}

#[test]
fn check_tracked_resources_with_correlations() {
    let config = config(vec![
        corr("proj-a", Some("myorg/proj-a"), Some("proj-a-api"), Some("lambda-prod"), Some("proj-a-web"), Some("Lambda")),
        corr("proj-b", Some("myorg/proj-b"), None, None, None, None),
    ]);
    let results = check_tracked_resources(&Some(config));
    assert_eq!(results.len(), 3);
    assert!(results[0].value.contains("2 repos"));
    assert!(results[1].value.contains("1 project"));
    assert!(results[2].value.contains("1 project"));
    assert_eq!(results[0].value, "2 repos (myorg: 2)");
    assert_eq!(results[1].value, "1 project (lambda-prod: 1)");
    assert_eq!(results[2].value, "1 project (Lambda: 1)");
}

#[test]
fn tracked_resources_group_and_sort() {
    let config = config(vec![
        corr("a", Some("zeta/a"), Some("p1"), None, None, None),
        corr("b", Some("alpha/b"), Some("p2"), None, None, None),
        corr("c", Some("zeta/c"), None, None, Some("web"), None),
        corr("d", Some("solo"), None, None, None, None),
    ]);
    let results = check_tracked_resources(&Some(config));
    assert_eq!(results.len(), 3);
    assert_eq!(results[0].label, "GitHub repos");
    assert_eq!(results[0].value, "4 repos (alpha: 1, solo: 1, zeta: 2)");
    assert_eq!(results[1].value, "2 projects (default: 2)");
    assert_eq!(results[2].label, "Vercel");
    assert_eq!(results[2].value, "1 project (personal: 1)");

    let empty = check_tracked_resources(&Some(config_empty()));
    assert_eq!(empty.len(), 1);
    assert_eq!(empty[0].label, "Resources");
}

fn config_empty() -> PulsosConfig {
    PulsosConfig::default()
}

#[test]
fn format_groups_sorts_parts() {
    let groups = vec![("b".to_string(), 2), ("a-b".to_string(), 1), ("a".to_string(), 3)];
    assert_eq!(format_groups(&groups), "a-b: 1, a: 3, b: 2");
    assert_eq!(format_groups(&vec![]), "");
}

#[test]
fn check_correlations_no_config() {
    let results = check_correlations(&None);
    assert_eq!(results.len(), 1);
    assert_eq!(results[0].status, CheckStatus::Skipped);
}

#[test]
fn check_correlations_all_matched() {
    let config = config(vec![corr("proj-a", Some("myorg/proj-a"), Some("proj-a-api"), None, None, None)]);
    let results = check_correlations(&Some(config));
    assert_eq!(results.len(), 2);
    assert!(results[0].value.contains("1 project groups"));
    assert_eq!(results[1].value, "none");
}

#[test]
fn check_correlations_with_standalone() {
    let config = config(vec![
        corr("proj-a", Some("myorg/proj-a"), Some("proj-a-api"), None, None, None),
        corr("solo-proj", Some("myorg/solo"), None, None, None, None),
    ]);
    let results = check_correlations(&Some(config));
    assert_eq!(results.len(), 2);
    assert!(results[0].value.contains("1 project groups"));
    assert_eq!(results[1].status, CheckStatus::Warning);
    assert!(results[1].value.contains("solo-proj"));
    assert_eq!(results[1].value, "1 projects (solo-proj)");
    assert_eq!(results[1].detail.as_deref(), Some("Run `pulsos repos sync` to link platforms"));

    let mut suggestions = Vec::new();
    collect_correlation_suggestions(&results[1], &mut suggestions);
    collect_correlation_suggestions(&results[0], &mut suggestions);
    assert_eq!(suggestions, vec!["Run `pulsos repos sync` to link unmatched projects.".to_string()]);
}

fn report(platform: PlatformKind, state: PlatformHealthState, reason: &str) -> PlatformHealthReport {
    PlatformHealthReport { platform, state, reason: reason.into(), next_action: "do x".into(), token_source: None, details: PlatformHealthDetails::Unknown }
}

#[test]
fn auth_checks_and_suggestions() {
    let reports = vec![
        report(PlatformKind::GitHub, PlatformHealthState::Ready, "ok"),
        report(PlatformKind::Railway, PlatformHealthState::NoToken, "missing"),
        report(PlatformKind::Vercel, PlatformHealthState::InvalidToken, "expired"),
    ];
    let results = check_auth(&reports);
    assert_eq!(results.len(), 3);
    assert_eq!(results[0].status, CheckStatus::Okay);
    assert_eq!(results[0].label, "GitHub");
    assert_eq!(results[0].value, "Ready");
    assert_eq!(results[0].detail.as_deref(), Some("ok Next: do x"));
    assert_eq!(results[1].status, CheckStatus::Warning);
    assert_eq!(results[2].status, CheckStatus::Error);

    let mut suggestions = Vec::new();
    for r in &results {
        collect_auth_suggestions(r, &mut suggestions);
    }
    assert_eq!(
        suggestions,
        vec![
            "Run `pulsos auth railway` to authenticate.".to_string(),
            "Run `pulsos auth vercel` to refresh token.".to_string(),
        ]
    );
}

#[test]
fn connectivity_per_provider() {
    let reports = vec![
        report(PlatformKind::Railway, PlatformHealthState::ConnectivityError, "timeout"),
        report(PlatformKind::GitHub, PlatformHealthState::NoToken, "missing"),
    ];
    let results = check_connectivity(&reports);
    assert_eq!(results.len(), 3);
    assert_eq!(results[0].label, "api.github.com");
    assert_eq!(results[0].status, CheckStatus::Skipped);
    assert_eq!(results[0].value, "skipped (no token)");
    assert_eq!(results[1].status, CheckStatus::Error);
    assert_eq!(results[1].value, "unreachable — timeout");
    assert_eq!(results[2].label, "api.vercel.com");
    assert_eq!(results[2].value, "no health report");
}

#[test]
fn rate_limit_warns_below_a_tenth() {
    let low = github_rate_limit_check(499, 5000, "12:30");
    assert_eq!(low.status, CheckStatus::Warning);
    assert_eq!(low.value, "499 / 5000 remaining (resets 12:30)");
    let fine = github_rate_limit_check(500, 5000, "12:30");
    assert_eq!(fine.status, CheckStatus::Okay);
    let r = CheckResult::ok("x", "y");
    assert!(r.detail.is_none());
}

#[test]
fn cache_check_values() {
    let r = cache_checks("/home/u/.cache/pulsos", 2048, 3, Some(7200));
    assert_eq!(r.len(), 3);
    assert_eq!(r[0].value, "/home/u/.cache/pulsos");
    assert_eq!(r[1].value, "2.0 KB (3 entries)");
    assert_eq!(r[2].value, "2 hours ago");
    assert_eq!(cache_checks("x", 0, 0, Some(59))[2].value, "just now");
    assert_eq!(cache_checks("x", 0, 0, Some(600))[2].value, "10 minutes ago");
    assert_eq!(cache_checks("x", 0, 0, None)[2].value, "empty cache");
}

#[test]
fn cli_tool_checks() {
    let found = cli_tool_check("gh CLI", &Some("gh version 2.45.0".into()), true);
    assert_eq!(found.status, CheckStatus::Okay);
    assert_eq!(found.value, "gh version 2.45.0 (token detected and reusable)");
    let missing = cli_tool_check("vercel CLI", &None, false);
    assert_eq!(missing.status, CheckStatus::Skipped);
    assert_eq!(missing.value, "not installed (not required)");
    assert_eq!(version_line("railway 3.9.0\nmore\n"), Some("railway 3.9.0".to_string()));
    assert_eq!(version_line("  \n"), None);
    assert_eq!(version_line(""), None);
}

#[test]
fn daemon_check_steps() {
    let r = daemon_checks(None, false, &None, &None);
    assert_eq!((r.len(), r[0].value.as_str()), (1, "not running"));
    let r = daemon_checks(Some(4000), false, &None, &None);
    assert_eq!(r[0].status, CheckStatus::Warning);
    assert_eq!(r[0].value, "port file exists (port 4000) but /health did not respond");
    let r = daemon_checks(Some(4000), true, &None, &None);
    assert_eq!(r[1].value, "daemon.token missing");
    let r = daemon_checks(Some(4000), true, &Some("/t".into()), &Some(Ok(0o100600)));
    assert_eq!(r[2].value, "0600 (secure)");
    let r = daemon_checks(Some(4000), true, &Some("/t".into()), &Some(Ok(0o644)));
    assert_eq!(r[2].value, "0644 (expected 0600)");
    assert_eq!(r[2].status, CheckStatus::Warning);
    let r = daemon_checks(Some(4000), true, &Some("/t".into()), &Some(Err("denied".into())));
    assert_eq!(r[2].value, "could not read metadata: denied");
}

#[test]
fn check_system_returns_results() {
    let results = system_checks("linux", "x86_64", "zsh", "xterm-256color");
    assert!(results.len() >= 3);
    assert!(results.iter().all(|r| r.status == CheckStatus::Okay));
    assert_eq!(results[0].label, "OS");
    assert_eq!(results[0].value, "linux (x86_64)");
    assert_eq!(results[1].label, "Shell");
    assert_eq!(results[1].value, "zsh");
    assert_eq!(results[2].label, "Terminal");
}
