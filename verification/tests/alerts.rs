use pulsos::alerts::{compute_tray_state, notification_text, tray_tooltip, NotificationState, TrayState};
use pulsos::app::DataSnapshot;
use pulsos::domain::{CorrelatedEvent, DeploymentEvent, DeploymentStatus, EventMetadata, Platform, PingResult};

fn event(id: &str, platform: Platform, status: DeploymentStatus) -> DeploymentEvent {
    DeploymentEvent {
        id: id.into(),
        platform,
        status,
        commit_sha: None,
        branch: Some("main".into()),
        title: Some("Deploy".into()),
        actor: None,
        created_at: 1_700_000_000_000,
        updated_at: None,
        duration_secs: None,
        url: None,
        metadata: EventMetadata::empty(),
        is_from_cache: false,
    }
}

fn ping(url: &str, up: bool) -> Option<PingResult> {
    Some(PingResult { url: url.into(), is_up: up })
}

#[test]
fn notification_texts_per_provider() {
    let mut gh = event("1", Platform::GitHub, DeploymentStatus::Success);
    gh.metadata.workflow_name = Some("CI".into());
    assert_eq!(notification_text(&gh, "succeeded"), ("CI succeeded".to_string(), "branch: main".to_string()));
    let mut rw = event("2", Platform::Railway, DeploymentStatus::Failed);
    rw.metadata.service_name = Some("api".into());
    assert_eq!(notification_text(&rw, "failed"), ("api failed".to_string(), String::new()));
    rw.metadata.environment_name = Some("production".into());
    assert_eq!(notification_text(&rw, "failed").1, "env: production");
    let vc = event("3", Platform::Vercel, DeploymentStatus::InProgress);
    assert_eq!(notification_text(&vc, "running"), ("Deploy running".to_string(), "target: preview".to_string()));
}

#[test]
fn notifications_follow_changes_between_snapshots() {
    let mut state = NotificationState::new();
    let first = DataSnapshot {
        events: vec![event("run", Platform::Vercel, DeploymentStatus::Queued)],
        telemetry: vec![("app".into(), ping("https://app.example", true))],
        ..DataSnapshot::default()
    };
    // The first snapshot only sets the baseline.
    assert!(state.check(&first).is_empty());

    let second = DataSnapshot {
        events: vec![
            event("run", Platform::Vercel, DeploymentStatus::InProgress),
            event("new", Platform::Vercel, DeploymentStatus::Failed),
        ],
        telemetry: vec![("app".into(), ping("https://app.example", false))],
        ..DataSnapshot::default()
    };
    let alerts = state.check(&second);
    assert_eq!(
        alerts,
        vec![
            ("API Offline".to_string(), "https://app.example is unreachable".to_string()),
            ("Deploy running".to_string(), "target: preview".to_string()),
        ]
    );

    let third = DataSnapshot {
        events: vec![event("run", Platform::Vercel, DeploymentStatus::Cancelled)],
        telemetry: vec![("app".into(), None)],
        ..DataSnapshot::default()
    };
    assert_eq!(state.check(&third), vec![("API Restored".to_string(), "app is back online".to_string())]);
}

#[test]
fn tray_state_priorities() {
    let syncing = DataSnapshot { is_syncing: true, ..DataSnapshot::default() };
    assert!(matches!(compute_tray_state(&syncing), TrayState::Syncing));
    let down = DataSnapshot { telemetry: vec![("a".into(), ping("https://a.example", false))], ..DataSnapshot::default() };
    let state = compute_tray_state(&down);
    assert_eq!(tray_tooltip(&state), "\u{1f6a8} https://a.example is DOWN");
    let failed = DataSnapshot {
        correlated: vec![CorrelatedEvent {
            commit_sha: None,
            project_name: None,
            github: Some(event("g", Platform::GitHub, DeploymentStatus::Failed)),
            railway: None,
            vercel: None,
            timestamp: 0,
            is_stale: false,
        }],
        ..DataSnapshot::default()
    };
    assert_eq!(tray_tooltip(&compute_tray_state(&failed)), "\u{1f6a8} Deployment Failed on main");
    let calm = DataSnapshot::default();
    assert_eq!(tray_tooltip(&compute_tray_state(&calm)), "Pulsos: All Systems Operational");
    assert_eq!(tray_tooltip(&TrayState::Syncing), "Pulsos: Syncing\u{2026}");
}
