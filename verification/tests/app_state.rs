use pulsos::actions::ActionResult;
use pulsos::app::{App, DataSnapshot};
use pulsos::config::TuiConfig;
use pulsos::domain::{DeploymentEvent, DeploymentStatus, EventMetadata, HealthBreakdown, Platform, PlatformKind};
use pulsos::log_buffer::LogRingBuffer;
use pulsos::settings_flow::DiscoveryPayload;
use pulsos::tabs::{HealthGroup, PlatformSubtab, SettingsFlowState, Tab};

fn rw_event(id: &str, sha: &str, title: &str, created_at: i64, duration: u64, url: &str) -> DeploymentEvent {
    let mut metadata = EventMetadata::empty();
    metadata.source_id = Some("proj:svc:prod".into());
    DeploymentEvent {
        id: id.into(),
        platform: Platform::Railway,
        status: DeploymentStatus::Success,
        commit_sha: Some(sha.into()),
        branch: Some("main".into()),
        title: Some(title.into()),
        actor: None,
        created_at,
        updated_at: None,
        duration_secs: Some(duration),
        url: Some(url.into()),
        metadata,
        is_from_cache: false,
    }
}

#[test]
fn app_default_tab_from_config() {
    let app = App::new(DataSnapshot::default(), TuiConfig::default(), LogRingBuffer::new());
    assert_eq!(app.active_tab, Tab::Unified);

    let config = TuiConfig { default_tab: "platform".into(), ..Default::default() };
    let app = App::new(DataSnapshot::default(), config, LogRingBuffer::new());
    assert_eq!(app.active_tab, Tab::Platform);

    let config = TuiConfig { default_tab: "health".into(), ..Default::default() };
    let app = App::new(DataSnapshot::default(), config, LogRingBuffer::new());
    assert_eq!(app.active_tab, Tab::Health);

    let config = TuiConfig { default_tab: "settings".into(), ..Default::default() };
    let app = App::new(DataSnapshot::default(), config, LogRingBuffer::new());
    assert_eq!(app.active_tab, Tab::Settings);
}

#[test]
fn default_tab_names_documented_in_config() {
    for (name, tab) in [("unified", Tab::Unified), ("by_platform", Tab::Platform), ("logs", Tab::Logs), ("other", Tab::Unified)] {
        let config = TuiConfig { default_tab: name.into(), ..Default::default() };
        let app = App::new(DataSnapshot::default(), config, LogRingBuffer::new());
        assert_eq!(app.active_tab, tab, "{name}");
    }
}

#[test]
fn app_clamp_selection() {
    let mut app = App::new(DataSnapshot::default(), TuiConfig::default(), LogRingBuffer::new());
    app.selected_row = 10;
    app.clamp_selection();
    assert_eq!(app.selected_row, 0);
    app.selected_row = 0;
    app.clamp_selection();
    assert_eq!(app.selected_row, 0);
}

#[test]
fn clamp_selection_keeps_last_row() {
    let data = DataSnapshot {
        health_scores: vec![("a".into(), 1), ("b".into(), 2)],
        ..DataSnapshot::default()
    };
    let mut app = App::new(data, TuiConfig::default(), LogRingBuffer::new());
    app.active_tab = Tab::Health;
    app.selected_row = 7;
    app.clamp_selection();
    assert_eq!(app.selected_row, 1);
}

#[test]
fn data_snapshot_default() {
    let snap = DataSnapshot::default();
    assert!(snap.events.is_empty());
    assert!(snap.correlated.is_empty());
    assert!(snap.health_scores.is_empty());
    assert!(snap.health_breakdowns.is_empty());
    assert!(snap.warnings.is_empty());
}

#[test]
fn platform_latest_rows_keeps_newest_per_source_id() {
    let now = 1_700_000_000_000;
    let data = DataSnapshot {
        events: vec![
            rw_event("rw-older", "1111111", "old", now - 5 * 60_000, 10, "https://old.example.com"),
            rw_event("rw-newer", "2222222", "new", now, 8, "https://new.example.com"),
        ],
        ..DataSnapshot::default()
    };
    let mut app = App::new(data, TuiConfig::default(), LogRingBuffer::new());
    app.active_tab = Tab::Platform;
    app.platform_subtab = PlatformSubtab::Railway;
    let rows = app.platform_latest_rows();
    assert_eq!(rows.len(), 1);
    let event = app.data.events.get(rows[0].event_idx).expect("event");
    assert_eq!(event.id, "rw-newer");
}

#[test]
fn platform_rows_follow_search_and_sort_newest_first() {
    let mut a = rw_event("a", "1", "deploy api", 100, 1, "u");
    a.metadata.source_id = Some("svc-a".into());
    let mut b = rw_event("b", "2", "deploy web", 300, 1, "u");
    b.metadata.source_id = Some("svc-b".into());
    let mut c = rw_event("c", "3", "deploy api again", 200, 1, "u");
    c.metadata.source_id = Some("svc-a".into());
    let data = DataSnapshot { events: vec![a, b, c], ..DataSnapshot::default() };
    let mut app = App::new(data, TuiConfig::default(), LogRingBuffer::new());
    app.active_tab = Tab::Platform;
    app.platform_subtab = PlatformSubtab::Railway;
    let rows: Vec<usize> = app.platform_latest_rows().iter().map(|r| r.event_idx).collect();
    assert_eq!(rows, vec![1, 2]);
    assert_eq!(app.row_count(), 2);

    app.search_query = "API".into();
    assert_eq!(app.platform_filtered_event_indices(), vec![0, 2]);
    let rows: Vec<usize> = app.platform_latest_rows().iter().map(|r| r.event_idx).collect();
    assert_eq!(rows, vec![2]);

    app.platform_subtab = PlatformSubtab::GitHub;
    assert_eq!(app.row_count(), 0);
}

#[test]
fn health_grouped_rows_follow_provider_precedence() {
    let data = DataSnapshot {
        health_scores: vec![("rw-project".into(), 92), ("vc-project".into(), 84), ("gh-project".into(), 76)],
        health_project_groups: vec![
            ("rw-project".into(), HealthGroup::Railway),
            ("vc-project".into(), HealthGroup::Vercel),
            ("gh-project".into(), HealthGroup::GitHubOnly),
        ],
        ..DataSnapshot::default()
    };
    let app = App::new(data, TuiConfig::default(), LogRingBuffer::new());
    let rows = app.health_grouped_rows();
    assert_eq!(rows.len(), 3);
    assert_eq!(rows[0].name, "rw-project");
    assert_eq!(rows[1].name, "vc-project");
    assert_eq!(rows[2].name, "gh-project");
}

#[test]
fn health_group_inferred_from_breakdown_weights() {
    let breakdown = |railway_weight: u8, vercel_score: Option<u8>| HealthBreakdown {
        total: 80,
        github_score: Some(80),
        railway_score: None,
        vercel_score,
        github_weight: 50,
        railway_weight,
        vercel_weight: 0,
    };
    let data = DataSnapshot {
        health_scores: vec![("gh".into(), 70), ("vc".into(), 80), ("rw".into(), 90)],
        health_breakdowns: vec![("vc".into(), breakdown(0, Some(90))), ("rw".into(), breakdown(30, None))],
        ..DataSnapshot::default()
    };
    let mut app = App::new(data, TuiConfig::default(), LogRingBuffer::new());
    let names: Vec<String> = app.health_grouped_rows().into_iter().map(|r| r.name).collect();
    assert_eq!(names, vec!["rw", "vc", "gh"]);
    app.active_tab = Tab::Health;
    app.selected_row = 9;
    let picked = app.selected_health_project().expect("row");
    assert_eq!(picked.name, "gh");
    assert_eq!(picked.group, HealthGroup::GitHubOnly);
}

#[test]
fn worker_results_update_settings_flow() {
    let mut app = App::new(DataSnapshot::default(), TuiConfig::default(), LogRingBuffer::new());
    app.token_input = "secret".into();
    app.settings_action_in_flight = true;
    let outcome = app.handle_action_result(ActionResult::TokenStored {
        platform: PlatformKind::GitHub,
        identity: "octocat".into(),
        warnings: vec![],
    });
    assert!(outcome.force_refresh);
    assert!(!app.settings_action_in_flight);
    assert!(app.token_input.is_empty());
    assert_eq!(app.settings_flow, SettingsFlowState::ValidationResult);
    assert_eq!(app.settings_message.as_deref(), Some("ok: GitHub token saved (octocat)"));

    let outcome = app.handle_action_result(ActionResult::PlatformValidated {
        platform: PlatformKind::Vercel,
        identity: "team".into(),
        warnings: vec!["scope a".into(), "scope b".into()],
    });
    assert!(outcome.force_refresh);
    assert_eq!(
        app.settings_message.as_deref(),
        Some("warn: Vercel token valid (team) with warnings: scope a; scope b")
    );

    let mut payload = DiscoveryPayload::empty();
    payload.warnings.push("rate limited".into());
    let outcome = app.handle_action_result(ActionResult::DiscoveryCompleted { payload });
    assert!(!outcome.force_refresh);
    assert_eq!(app.settings_flow, SettingsFlowState::ResourceSelection);
    assert_eq!(app.settings_message.as_deref(), Some("warn: discovery completed with 1 warning(s)"));

    app.handle_action_result(ActionResult::DaemonStarted);
    assert!(app.daemon_running);
    assert_eq!(app.settings_flow, SettingsFlowState::Idle);
    assert_eq!(app.settings_message.as_deref(), Some("daemon started"));

    app.handle_action_result(ActionResult::Error { context: "store".into(), message: "denied".into() });
    assert_eq!(app.settings_message.as_deref(), Some("error: store: denied"));
    assert_eq!(app.last_error.as_deref(), Some("denied"));
    assert_eq!(app.settings_flow, SettingsFlowState::ValidationResult);
}
