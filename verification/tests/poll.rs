use pulsos::config::{CorrelationConfig, PlatformResources, PulsosConfig};
use pulsos::domain::{CorrelatedEvent, DeploymentEvent, DeploymentStatus, EventMetadata, Platform, PlatformKind};
use pulsos::poll::{
    after_fetch,
    apply_command, check_due, combine_events, fetch_due, fetch_warning, merge_dora_history, no_token_warning,
    ping_target, poll_interval_secs, rate_limit_warning, record_health, skip_first_wait, PollerCommand,
    DORA_HISTORY_CAP, HEALTH_HISTORY_CAP,
};

const NOW: i64 = 1_700_000_000_000;

fn test_event(id: &str, platform: Platform, seconds_ago: i64) -> DeploymentEvent {
    let ts = NOW - seconds_ago * 1000;
    DeploymentEvent {
        id: id.to_string(),
        platform,
        status: DeploymentStatus::Success,
        commit_sha: None,
        branch: None,
        title: Some(id.to_string()),
        actor: None,
        created_at: ts,
        updated_at: Some(ts),
        duration_secs: None,
        url: None,
        metadata: EventMetadata::empty(),
        is_from_cache: false,
    }
}

fn corr(name: &str, gh: Option<&str>, rw: Option<&str>, ws: Option<&str>, vc: Option<&str>, team: Option<&str>) -> CorrelationConfig {
    CorrelationConfig {
        name: name.into(),
        github_repo: gh.map(String::from),
        railway_project: rw.map(String::from),
        railway_workspace: ws.map(String::from),
        railway_environment: None,
        vercel_project: vc.map(String::from),
        vercel_team: team.map(String::from),
    }
}

fn group(project: &str, sha: &str) -> CorrelatedEvent {
    CorrelatedEvent {
        commit_sha: Some(sha.into()),
        project_name: Some(project.into()),
        github: None,
        railway: None,
        vercel: None,
        timestamp: NOW,
        is_stale: false,
    }
}

#[test]
fn platform_resources_from_correlations() {
    let correlations = vec![
        corr("my-saas", Some("myorg/my-saas"), Some("proj:svc:env"), Some("lambda-prod"), Some("prj-001"), Some("Lambda")),
        corr("api-core", Some("myorg/api-core"), None, None, None, None),
    ];

    let resources = PlatformResources::from_correlations(&correlations);
    assert_eq!(resources.github.len(), 2);
    assert_eq!(resources.railway.len(), 1);
    assert_eq!(resources.vercel.len(), 1);
    assert_eq!(resources.github[0].platform_id, "myorg/my-saas");
    assert_eq!(resources.github[0].display_name, "my-saas");
    assert_eq!(resources.railway[0].display_name, "my-saas");
    assert_eq!(resources.vercel[0].group, Some("Lambda".into()));
}

#[test]
fn health_history_ring_buffer_caps_at_limit() {
    let mut history: Vec<(String, Vec<u8>)> = Vec::new();
    for i in 0..25 {
        record_health(&mut history, &vec![("test-project".to_string(), i as u8)]);
    }
    let entry = &history.iter().find(|(n, _)| n == "test-project").unwrap().1;
    assert_eq!(entry.len(), HEALTH_HISTORY_CAP);
    // Should contain the last 20 entries: 5..25
    assert_eq!(entry[0], 5);
    assert_eq!(entry[19], 24);
}

#[test]
fn health_history_keeps_one_history_per_project() {
    let mut history: Vec<(String, Vec<u8>)> = Vec::new();
    record_health(&mut history, &vec![("a".to_string(), 90), ("b".to_string(), 40)]);
    record_health(&mut history, &vec![("b".to_string(), 45)]);
    assert_eq!(history.len(), 2);
    assert_eq!(history[0], ("a".to_string(), vec![90]));
    assert_eq!(history[1], ("b".to_string(), vec![40, 45]));
}

#[test]
fn combine_events_keeps_data_from_all_platform_caches() {
    let gh = vec![test_event("gh1", Platform::GitHub, 10)];
    let rw = vec![test_event("rw1", Platform::Railway, 5)];
    let vc = vec![test_event("vc1", Platform::Vercel, 1)];

    let combined = combine_events(gh, rw, vc);
    assert_eq!(combined.len(), 3);
    assert_eq!(combined[0].id, "vc1");
    assert_eq!(combined[1].id, "rw1");
    assert_eq!(combined[2].id, "gh1");
}

#[test]
fn combine_events_preserves_previous_platform_data_when_others_update() {
    let gh_cached = vec![test_event("gh_cached", Platform::GitHub, 20)];
    let rw_new = vec![test_event("rw_new", Platform::Railway, 1)];

    let combined = combine_events(gh_cached, rw_new, vec![]);
    assert_eq!(combined.len(), 2);
    assert!(combined.iter().any(|e| e.id == "gh_cached"));
    assert!(combined.iter().any(|e| e.id == "rw_new"));
}

#[test]
fn combine_events_keeps_arrival_order_for_equal_times() {
    let gh = vec![test_event("a", Platform::GitHub, 3), test_event("b", Platform::GitHub, 3)];
    let rw = vec![test_event("c", Platform::Railway, 3)];
    let combined = combine_events(gh, rw, vec![]);
    let ids: Vec<&str> = combined.iter().map(|e| e.id.as_str()).collect();
    assert_eq!(ids, vec!["a", "b", "c"]);
}

#[test]
fn dora_history_skips_known_groups_and_caps() {
    let mut history = vec![group("app", "s1")];
    merge_dora_history(&mut history, &vec![group("app", "s1"), group("app", "s2"), group("api", "s1"), group("app", "s2")]);
    assert_eq!(history.len(), 3);
    assert_eq!(history[1].commit_sha.as_deref(), Some("s2"));
    assert_eq!(history[2].project_name.as_deref(), Some("api"));

    let many: Vec<CorrelatedEvent> = (0..250).map(|i| group("p", &format!("sha-{i}"))).collect();
    let mut history = Vec::new();
    merge_dora_history(&mut history, &many);
    assert_eq!(history.len(), DORA_HISTORY_CAP);
    assert_eq!(history[0].commit_sha.as_deref(), Some("sha-50"));
}

#[test]
fn ping_target_prefers_project_events() {
    let mut other = test_event("v0", Platform::Vercel, 1);
    other.metadata.source_id = Some("prj-other".into());
    other.url = Some("https://other.example".into());
    let mut mine = test_event("v1", Platform::Vercel, 2);
    mine.metadata.source_id = Some("prj-001".into());
    mine.metadata.preview_url = Some("https://preview.example".into());
    let c = corr("app", None, None, None, Some("prj-001"), None);
    assert_eq!(ping_target(&c, &vec![other, mine], &vec![]), Some("https://preview.example".into()));

    // Without any event of the project, the first address of any event is used.
    let mut rw = test_event("r", Platform::Railway, 1);
    rw.metadata.source_id = Some("svc".into());
    rw.url = Some("https://rw.example".into());
    let c2 = corr("x", None, Some("nope"), None, Some("zzz"), None);
    assert_eq!(ping_target(&c2, &vec![], &vec![rw]), Some("https://rw.example".into()));
    assert_eq!(ping_target(&c2, &vec![], &vec![]), None);
}

#[test]
fn poller_decisions() {
    assert!(check_due(true, 0, 30));
    assert!(check_due(false, 30, 30));
    assert!(!check_due(false, 29, 30));
    assert!(!fetch_due(false, true, 100, 15));
    assert!(fetch_due(true, false, 15, 15));
    assert_eq!(poll_interval_secs(0), 1);
    assert_eq!(poll_interval_secs(5), 5);
    let mut first = true;
    assert!(skip_first_wait(&mut first));
    assert!(!skip_first_wait(&mut first));

    let mut config = PulsosConfig::default();
    let mut resources = PlatformResources::from_correlations(&config.correlations);
    assert!(apply_command(PollerCommand::ForceRefresh, &mut config, &mut resources));
    let mut next = PulsosConfig::default();
    next.correlations.push(corr("app", Some("o/app"), None, None, None, None));
    assert!(apply_command(PollerCommand::ReplaceConfig(next), &mut config, &mut resources));
    assert_eq!(config.correlations.len(), 1);
    assert_eq!(resources.github.len(), 1);
}

#[test]
fn poller_warnings() {
    assert_eq!(no_token_warning(PlatformKind::Railway), "Railway: no token available");
    assert_eq!(fetch_warning(PlatformKind::GitHub, "timed out"), "GitHub: timed out");
    assert_eq!(rate_limit_warning(42), "GitHub rate limit exhausted. Showing cached data. Resets in 42s.");
}

#[test]
fn failed_fetch_keeps_last_good_events() {
    let cached = vec![1u32, 2];
    let (kept, warnings) = after_fetch(cached, vec![Ok(vec![7u32]), Err("timeout".to_string())], PlatformKind::GitHub);
    assert_eq!(kept, vec![1, 2]);
    assert_eq!(warnings, vec!["GitHub: timeout".to_string()]);
}

#[test]
fn successful_fetch_replaces_the_cache_in_order() {
    let (kept, warnings) = after_fetch(vec![1u32], vec![Ok(vec![7u32, 8]), Ok(vec![9])], PlatformKind::Railway);
    assert_eq!(kept, vec![7, 8, 9]);
    assert!(warnings.is_empty());
    let (kept, warnings) = after_fetch(vec![1u32], vec![], PlatformKind::Vercel);
    assert!(kept.is_empty());
    assert!(warnings.is_empty());
}
