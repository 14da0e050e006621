use pulsos::domain::{CorrelatedEvent, DeploymentEvent, DeploymentStatus, EventMetadata, JobSummary, Platform};
use pulsos::tables::{github_row, pipeline_stages, railway_row, unified_order, unified_row, vercel_row};
use pulsos::tabs::UnifiedSort;
use pulsos::tables::{group_message, overall_badge, recent_for_project};

const NOW: i64 = 10_000_000;

fn event(id: &str, platform: Platform, status: DeploymentStatus) -> DeploymentEvent {
    DeploymentEvent {
        id: id.into(),
        platform,
        status,
        commit_sha: Some("abc1234def".into()),
        branch: Some("main".into()),
        title: Some("fix login".into()),
        actor: Some("dev".into()),
        created_at: NOW - 120_000,
        updated_at: None,
        duration_secs: Some(65),
        url: Some("https://app.example".into()),
        metadata: EventMetadata::empty(),
        is_from_cache: false,
    }
}

fn group(gh: bool, rw: bool, vc: bool, stale: bool) -> CorrelatedEvent {
    CorrelatedEvent {
        commit_sha: Some("abc1234def".into()),
        project_name: None,
        github: if gh { Some(event("g", Platform::GitHub, DeploymentStatus::Success)) } else { None },
        railway: if rw { Some(event("r", Platform::Railway, DeploymentStatus::Failed)) } else { None },
        vercel: if vc { Some(event("v", Platform::Vercel, DeploymentStatus::Queued)) } else { None },
        timestamp: NOW - 30_000,
        is_stale: stale,
    }
}

#[test]
fn unified_order_groups_by_platform_stably() {
    let cs = vec![
        group(true, false, false, false),
        group(false, false, true, false),
        group(false, true, false, false),
        group(true, false, false, false),
        group(false, true, true, false),
    ];
    assert_eq!(unified_order(&cs, UnifiedSort::ByTime), vec![0, 1, 2, 3, 4]);
    assert_eq!(unified_order(&cs, UnifiedSort::ByPlatform), vec![2, 4, 1, 0, 3]);
}

#[test]
fn unified_row_cells() {
    let row = unified_row(&group(true, false, true, true), NOW);
    assert_eq!(row.project, "fix login");
    assert_eq!(row.sha, "abc1234");
    assert_eq!(row.message, "fix login");
    assert_eq!(row.github, Some(("● ".to_string(), "passed".to_string())));
    assert_eq!(row.railway, None);
    assert_eq!(row.vercel, Some(("◌ ".to_string(), "queued".to_string())));
    assert_eq!(row.branch, "main");
    assert_eq!(row.age, "just now ●");
}

#[test]
fn github_row_cells() {
    let mut e = event("run-1234567890abcdef", Platform::GitHub, DeploymentStatus::Success);
    e.title = None;
    e.metadata.source_id = Some("myorg/my-saas".into());
    e.metadata.trigger_event = Some("push".into());
    let row = github_row(&e, NOW);
    assert_eq!(row.status, ("● ".to_string(), "passed".to_string()));
    assert_eq!(
        row.cells,
        vec!["run-12345678", "my-saas", "abc1234", "main", "dev", "2m ago", "1m 5s", " (push)"]
    );
    e.metadata.workflow_name = Some("CI".into());
    assert_eq!(github_row(&e, NOW).cells[0], "CI");
    assert_eq!(github_row(&e, NOW).cells[7], "CI (push)");
}

#[test]
fn railway_row_falls_back_to_source_pieces() {
    let mut e = event("d1", Platform::Railway, DeploymentStatus::Failed);
    e.metadata.source_id = Some("proj:api:production".into());
    e.duration_secs = None;
    let row = railway_row(&e, NOW);
    assert_eq!(row.status, ("✕ ".to_string(), "failed".to_string()));
    assert_eq!(
        row.cells,
        vec!["api", "production", "abc1234", "main", "https://app.example", "2m ago", "-", "fix login"]
    );
    e.metadata.service_name = Some("worker".into());
    e.metadata.source_id = Some("proj".into());
    let row = railway_row(&e, NOW);
    assert_eq!(row.cells[0], "worker");
    assert_eq!(row.cells[1], "-");
}

#[test]
fn vercel_row_uses_preview_when_no_url() {
    let mut e = event("v1", Platform::Vercel, DeploymentStatus::Success);
    e.url = None;
    e.commit_sha = None;
    e.metadata.preview_url = Some("https://preview.example".into());
    e.metadata.deploy_target = Some("production".into());
    let row = vercel_row(&e, NOW);
    assert_eq!(
        row.cells,
        vec!["-", "production", "https://preview.example", "-", "main", "2m ago", "1m 5s", "fix login"]
    );
}

#[test]
fn pipeline_stages_render() {
    let jobs = vec![
        JobSummary { name: "Build".into(), status: DeploymentStatus::Success },
        JobSummary { name: "Test".into(), status: DeploymentStatus::Success },
        JobSummary { name: "Deploy to production".into(), status: DeploymentStatus::Failed },
    ];
    let stages = pipeline_stages(&jobs, NOW);
    assert_eq!(stages, vec!["● Build", "● Test", "✕ Deploy …"]);
    assert!(stages.join(" › ").contains(" › "));
}

#[test]
fn recent_events_for_a_project() {
    let mut cs = Vec::new();
    for i in 0..7 {
        let mut g = group(i % 2 == 0, true, false, false);
        g.project_name = Some(if i == 1 { "other".into() } else { "app".into() });
        cs.push(g);
    }
    assert_eq!(recent_for_project(&cs, "app"), vec![0, 2, 3, 4]);
    assert_eq!(recent_for_project(&cs, "other"), vec![1]);
    assert_eq!(recent_for_project(&cs, "none"), Vec::<usize>::new());
    assert_eq!(overall_badge(&cs[0], NOW), ("● ".to_string(), "passed".to_string()));
    assert_eq!(overall_badge(&cs[1], NOW), ("✕ ".to_string(), "failed".to_string()));
    let empty = group(false, false, false, false);
    assert_eq!(overall_badge(&empty, NOW), ("? ".to_string(), "unknown".to_string()));
    assert_eq!(group_message(&empty), "-");
}
