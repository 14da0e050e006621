use pulsos::config::{CorrelationConfig, GroupConfig, PulsosConfig};
use pulsos::domain::{DiscoveredResource, PlatformHealthDetails, PlatformHealthReport, PlatformHealthState, PlatformKind};
use pulsos::repos::{
    active_linked, active_resources, add_resource, create_group, derive_name, edit_prompt, edit_summary_lines,
    edited_correlation, group_lines, locate_group, normalize_input, parse_resource, picked_resources,
    proposal_lines, remove_resource, selection_label, skipped_notice, sync_summary, tracked_lines,
    upsert_correlation, CorrelationCandidate, MatchConfidence, ResourceError,
    github_untokened_line, project_access_line, repo_access_line, split_repo, token_verdict_line, RepoAccess,
};

fn corr(name: &str, gh: Option<&str>, rw: Option<&str>, ws: Option<&str>, vc: Option<&str>, team: Option<&str>) -> CorrelationConfig {
    CorrelationConfig {
        name: name.into(),
        github_repo: gh.map(String::from),
        railway_project: rw.map(String::from),
        railway_workspace: ws.map(String::from),
        railway_environment: None,
        vercel_project: vc.map(String::from),
        vercel_team: team.map(String::from),
    }
}

fn config(correlations: Vec<CorrelationConfig>) -> PulsosConfig {
    PulsosConfig { correlations, ..Default::default() }
}

fn resource(name: &str, group: &str, archived: bool, disabled: bool) -> DiscoveredResource {
    DiscoveredResource {
        platform: PlatformKind::GitHub,
        platform_id: format!("{group}/{name}"),
        display_name: name.into(),
        group: group.into(),
        archived,
        disabled,
    }
}

#[test]
fn parse_resource_splits_at_first_colon_and_lowercases_platform() {
    let (p, id) = parse_resource("GitHub:myorg/repo:extra").unwrap();
    assert_eq!(p, "github");
    assert_eq!(id, "myorg/repo:extra");
    let (p, id) = parse_resource("railway:").unwrap();
    assert_eq!(p, "railway");
    assert_eq!(id, "");
}

#[test]
fn parse_resource_errors() {
    let e = parse_resource("myorg/repo").unwrap_err();
    assert!(matches!(e, ResourceError::InvalidFormat { .. }));
    assert_eq!(
        e.message(),
        "Invalid resource format 'myorg/repo'. Expected platform:id (e.g., github:myorg/repo)"
    );
    let e = parse_resource("Netlify:site").unwrap_err();
    assert_eq!(e.message(), "Unknown platform 'netlify'. Use github, railway, or vercel.");
}

#[test]
fn derive_name_takes_repo_name_for_github_only() {
    assert_eq!(derive_name("github", "myorg/my-saas"), "my-saas");
    assert_eq!(derive_name("github", "plain"), "plain");
    assert_eq!(derive_name("railway", "team/project"), "team/project");
}

#[test]
fn normalize_input_trims_and_clears() {
    assert_eq!(normalize_input("  myorg/app \n"), Some("myorg/app".to_string()));
    assert_eq!(normalize_input("   "), None);
    assert_eq!(normalize_input(" - "), None);
    assert_eq!(normalize_input("--"), Some("--".to_string()));
}

#[test]
fn add_resource_fills_existing_or_appends() {
    let mut cfg = config(vec![corr("My-Saas", None, Some("rw-1"), None, None, None)]);
    let name = add_resource(&mut cfg, "github", "myorg/my-saas");
    assert_eq!(name, "my-saas");
    assert_eq!(cfg.correlations.len(), 1);
    assert_eq!(cfg.correlations[0].github_repo.as_deref(), Some("myorg/my-saas"));
    assert_eq!(cfg.correlations[0].railway_project.as_deref(), Some("rw-1"));

    let name = add_resource(&mut cfg, "vercel", "web-app");
    assert_eq!(name, "web-app");
    assert_eq!(cfg.correlations.len(), 2);
    assert_eq!(cfg.correlations[1].name, "web-app");
    assert_eq!(cfg.correlations[1].vercel_project.as_deref(), Some("web-app"));
    assert_eq!(cfg.correlations[1].github_repo, None);
}

#[test]
fn remove_resource_clears_companions_and_drops_empty() {
    let mut cfg = config(vec![
        corr("a", None, Some("rw-a"), Some("ws"), None, None),
        corr("b", Some("org/b"), None, None, Some("vc-b"), Some("team")),
    ]);
    remove_resource(&mut cfg, "vercel", "vc-b").unwrap();
    assert_eq!(cfg.correlations.len(), 2);
    assert_eq!(cfg.correlations[1].vercel_project, None);
    assert_eq!(cfg.correlations[1].vercel_team, None);
    assert_eq!(cfg.correlations[1].github_repo.as_deref(), Some("org/b"));

    remove_resource(&mut cfg, "railway", "rw-a").unwrap();
    assert_eq!(cfg.correlations.len(), 1);
    assert_eq!(cfg.correlations[0].name, "b");

    let e = remove_resource(&mut cfg, "github", "org/none").unwrap_err();
    assert_eq!(e.message(), "Resource github:org/none not found in any correlation.");
    assert_eq!(cfg.correlations.len(), 1);
}

#[test]
fn tracked_lines_list_each_correlation() {
    let lines = tracked_lines(&[corr("app", Some("org/app"), None, None, Some("web"), None)]);
    let expected = vec![
        "Tracked Resources".to_string(),
        "=".repeat(44),
        String::new(),
        "  app".to_string(),
        "    GitHub:  org/app".to_string(),
        "    Vercel:  web".to_string(),
        String::new(),
    ];
    assert_eq!(lines, expected);
    assert_eq!(tracked_lines(&[]), vec!["No tracked resources. Run `pulsos repos sync` to get started.".to_string()]);
}

#[test]
fn group_lines_pad_names_and_join_resources() {
    let groups = vec![
        GroupConfig { name: "core".into(), resources: vec!["github:o/a".into(), "vercel:web".into()] },
        GroupConfig { name: "spare".into(), resources: vec![] },
    ];
    let lines = group_lines(&groups);
    assert_eq!(lines.len(), 4);
    assert_eq!(lines[0], format!("{:<24}  Resources", "Name"));
    assert_eq!(lines[1], "─".repeat(60));
    assert_eq!(lines[2], format!("{:<24}  {}", "core", "github:o/a, vercel:web"));
    assert_eq!(lines[3], format!("{:<24}  {}", "spare", "(empty)"));
    assert_eq!(group_lines(&[]).len(), 1);
}

#[test]
fn groups_create_and_locate() {
    let mut cfg = PulsosConfig::default();
    assert_eq!(create_group(&mut cfg, "Core", vec!["github:o/a".into()]).unwrap(), 1);
    let e = create_group(&mut cfg, "core", vec![]).unwrap_err();
    assert_eq!(e.message(), "A group named 'core' already exists.");
    assert_eq!(cfg.groups.len(), 1);
    assert_eq!(locate_group(&cfg.groups, "CORE").unwrap(), 0);
    let e = locate_group(&cfg.groups, "other").unwrap_err();
    assert_eq!(e.message(), "Group 'other' not found.");
}

#[test]
fn correlation_edit_flow() {
    let current = corr("app", Some("org/app"), Some("rw"), Some("ws"), None, None);
    assert_eq!(edit_prompt("GitHub repo", &current.github_repo), "GitHub repo (current: org/app)");
    assert_eq!(edit_prompt("Vercel team", &current.vercel_team), "Vercel team (current: not set)");
    let updated = edited_correlation(&current, "org/app2", "-", "", " web ", "");
    assert_eq!(updated.github_repo.as_deref(), Some("org/app2"));
    assert_eq!(updated.railway_project, None);
    assert_eq!(updated.vercel_project.as_deref(), Some("web"));
    assert_eq!(
        edit_summary_lines(&updated),
        vec![
            "Updated correlation for 'app':".to_string(),
            "  GitHub:  org/app2".to_string(),
            "  Railway: (not set)".to_string(),
            "  Vercel:  web  team: ".to_string(),
        ]
    );
    let mut cfg = config(vec![current]);
    upsert_correlation(&mut cfg, "APP", updated);
    assert_eq!(cfg.correlations.len(), 1);
    assert_eq!(cfg.correlations[0].github_repo.as_deref(), Some("org/app2"));
    upsert_correlation(&mut cfg, "new", corr("new", None, None, None, Some("v"), None));
    assert_eq!(cfg.correlations.len(), 2);
}

#[test]
fn sync_selection_helpers() {
    let rs = vec![resource("a", "org", false, false), resource("b", "org", true, false), resource("c", "org", false, true)];
    let active = active_resources(rs);
    assert_eq!(active.len(), 1);
    assert_eq!(active[0].display_name, "a");
    assert_eq!(selection_label(&active[0], &None), "a (org)");
    assert_eq!(selection_label(&active[0], &Some("org/a".into())), "a (org) → org/a");
    let linked = active_linked(vec![(resource("w", "team", false, false), Some("org/w".into())), (resource("x", "team", true, false), None)]);
    assert_eq!(linked.len(), 1);
    assert_eq!(linked[0].1.as_deref(), Some("org/w"));
    let all = vec![resource("a", "o", false, false), resource("b", "o", false, false)];
    let picked = picked_resources(&all, &[1, 0]);
    assert_eq!(picked[0].display_name, "b");
    assert_eq!(picked[1].display_name, "a");
    assert_eq!(
        skipped_notice(&vec!["GitHub".into(), "Vercel".into()]),
        "  Skipped (no token): GitHub, Vercel. Run `pulsos auth <platform>` first."
    );
    assert_eq!(sync_summary(3, 2, 1), "Saved 3 correlations (2 new, 1 updated) to config.");
}

#[test]
fn proposal_lines_number_candidates() {
    let c = CorrelationCandidate {
        name: "app".into(),
        confidence: MatchConfidence::LinkedRepo,
        github: Some(resource("app", "org", false, false)),
        railway: None,
        vercel: Some(resource("app-web", "team", false, false)),
    };
    let d = CorrelationCandidate {
        name: "solo".into(),
        confidence: MatchConfidence::Unmatched,
        github: None,
        railway: Some(resource("solo-api", "ws", false, false)),
        vercel: None,
    };
    assert_eq!(
        proposal_lines(&[c, d]),
        vec![
            "  1. app (linked)".to_string(),
            "     GitHub:  org/app".to_string(),
            "     Vercel:  app-web".to_string(),
            "  2. solo (standalone)".to_string(),
            "     Railway: solo-api".to_string(),
        ]
    );
    assert_eq!(MatchConfidence::ExactStem.label(), "name match");
}

#[test]
fn verify_lines() {
    let report = PlatformHealthReport {
        platform: PlatformKind::Railway,
        state: PlatformHealthState::AccessOrConfigIncomplete,
        reason: "workspace not found".into(),
        next_action: String::new(),
        token_source: None,
        details: PlatformHealthDetails::Unknown,
    };
    assert_eq!(token_verdict_line(PlatformKind::Railway, Some(&report)), ("[ok] Railway: workspace not found".to_string(), true));
    assert_eq!(token_verdict_line(PlatformKind::Vercel, None), ("[--] Vercel: no token configured".to_string(), false));
    let bad = PlatformHealthReport { state: PlatformHealthState::InvalidToken, ..report };
    assert_eq!(token_verdict_line(PlatformKind::Railway, Some(&bad)).1, false);
    assert_eq!(github_untokened_line(Some(&bad)), "[--] GitHub: Invalid Token (workspace not found)");
    assert_eq!(github_untokened_line(None), "[--] GitHub: no token configured");
    assert_eq!(split_repo("org/app/sub"), Some(("org".to_string(), "app/sub".to_string())));
    assert_eq!(split_repo("plain"), None);
    assert_eq!(repo_access_line("org/app", &RepoAccess::Permission("admin".into())), "    [ok] GitHub:org/app  (permission: admin)");
    assert_eq!(repo_access_line("bad", &RepoAccess::Malformed), "    [!!] GitHub:bad  (malformed repo name)");
    assert_eq!(project_access_line(PlatformKind::Vercel, "web", false, false), "    [--] Vercel:web  (no token)");
    assert_eq!(project_access_line(PlatformKind::Railway, "api", false, true), "    [!!] Railway:api  (auth failed)");
    assert_eq!(project_access_line(PlatformKind::Railway, "api", true, true), "    [ok] Railway:api");
}
