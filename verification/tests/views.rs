use pulsos::config::{CorrelationConfig, ViewConfig};
use pulsos::views::{
    check_import, check_new_name, check_renamed, chosen_platforms, edited_view, locate_view, new_view,
    platform_defaults, split_projects, template_lines, validate_lines, view_detail_lines, view_list_lines,
    view_summary_lines, ViewError,
};

fn view(name: &str, projects: &[&str], platforms: &[&str], branch: Option<&str>) -> ViewConfig {
    ViewConfig {
        name: name.into(),
        description: None,
        projects: projects.iter().map(|s| s.to_string()).collect(),
        platforms: platforms.iter().map(|s| s.to_string()).collect(),
        branch_filter: branch.map(String::from),
        status_filter: vec![],
        refresh_interval: 5,
        vercel_include_previews: false,
    }
}

fn corr(name: &str, gh: Option<&str>) -> CorrelationConfig {
    CorrelationConfig {
        name: name.into(),
        github_repo: gh.map(String::from),
        railway_project: None,
        railway_workspace: None,
        railway_environment: None,
        vercel_project: None,
        vercel_team: None,
    }
}

#[test]
fn split_projects_trims_and_drops_empty_pieces() {
    assert_eq!(split_projects(" api , web,,  "), vec!["api".to_string(), "web".to_string()]);
    assert!(split_projects("").is_empty());
    assert_eq!(split_projects("solo"), vec!["solo".to_string()]);
}

#[test]
fn view_names_are_checked() {
    let views = vec![view("Prod", &[], &[], None)];
    assert!(matches!(check_new_name(&views, "   "), Err(ViewError::EmptyName)));
    let e = check_new_name(&views, " prod ").unwrap_err();
    assert_eq!(e.message(), "A view named 'prod' already exists.");
    assert_eq!(check_new_name(&views, " staging ").unwrap(), "staging");
    // Keeping the view's own name, in another case, is allowed.
    assert_eq!(check_renamed(&views, "Prod", "PROD").unwrap(), "PROD");
    let more = vec![view("Prod", &[], &[], None), view("Dev", &[], &[], None)];
    assert!(check_renamed(&more, "Prod", "dev").is_err());
    assert!(check_import(&more, "DEV").is_err());
    assert!(check_import(&more, "qa").is_ok());
}

#[test]
fn locate_view_messages() {
    let views = vec![view("Prod", &[], &[], None)];
    assert_eq!(locate_view(&views, "prod", true).unwrap(), 0);
    assert_eq!(
        locate_view(&views, "x", true).unwrap_err().message(),
        "View 'x' not found. Run `pulsos views list` to see available views."
    );
    assert_eq!(locate_view(&views, "x", false).unwrap_err().message(), "View 'x' not found.");
}

#[test]
fn views_built_from_answers() {
    let v = new_view("prod".into(), "  ", &[2, 0], "api, web", " main ");
    assert_eq!(v.description, None);
    assert_eq!(v.platforms, vec!["vercel".to_string(), "github".to_string()]);
    assert_eq!(v.projects, vec!["api".to_string(), "web".to_string()]);
    assert_eq!(v.branch_filter.as_deref(), Some("main"));
    assert_eq!(v.refresh_interval, 5);
    let mut old = view("prod", &[], &["railway"], None);
    old.status_filter = vec!["failed".into()];
    old.refresh_interval = 30;
    let e = edited_view(&old, "prod2".into(), "team view", &[1], "", "");
    assert_eq!(e.description.as_deref(), Some("team view"));
    assert_eq!(e.status_filter, vec!["failed".to_string()]);
    assert_eq!(e.refresh_interval, 30);
    assert_eq!(platform_defaults(&old.platforms), vec![false, true, false]);
    assert_eq!(chosen_platforms(&[0, 1, 2]).len(), 3);
}

#[test]
fn view_listings() {
    let lines = view_list_lines(&[view("prod", &["api"], &[], Some("main"))]);
    assert_eq!(lines.len(), 3);
    assert_eq!(
        lines[0],
        format!("{:<20}  {:<30}  {:<20}  {:<20}  {}", "Name", "Description", "Projects", "Platforms", "Branch")
    );
    assert_eq!(lines[1], "─".repeat(100));
    assert_eq!(lines[2], format!("{:<20}  {:<30}  {:<20}  {:<20}  {}", "prod", "-", "api", "all", "main"));
    let details = view_detail_lines(&view("prod", &[], &["github", "vercel"], None));
    assert_eq!(
        details,
        vec![
            "View: prod".to_string(),
            "─".repeat(44),
            "  Projects:     (all)".to_string(),
            "  Platforms:    github, vercel".to_string(),
            "  Refresh:      5s".to_string(),
        ]
    );
    let summary = view_summary_lines("New view summary:", &view("prod", &["api"], &[], Some("main")));
    assert_eq!(
        summary,
        vec![
            "New view summary:".to_string(),
            "  Name:      prod".to_string(),
            "  Projects:  api".to_string(),
            "  Branch:    main".to_string(),
        ]
    );
    let templates = template_lines();
    assert_eq!(templates.len(), 2 + 4 * 6 + 1);
    assert_eq!(templates[3], "  full-stack-production");
}

#[test]
fn validation_reports_each_check() {
    let cs = vec![corr("api", Some("o/api")), corr("empty", None)];
    let all = validate_lines(&view("all", &[], &[], None), &cs);
    assert_eq!(all[2], "  [ok] api");
    assert_eq!(all[3], "  [!!] empty — no platform fields set");
    assert_eq!(all.last().unwrap(), "  Summary: 1 ok, 1 issue(s)");
    let listed = validate_lines(&view("some", &["API", "ghost"], &[], None), &cs);
    assert_eq!(listed[2], "  [ok] API");
    assert_eq!(listed[3], "  [!!] ghost — not found in correlations");
    let none = validate_lines(&view("all", &[], &[], None), &[]);
    assert_eq!(none[2], "  (no correlations to validate)");
    assert_eq!(none.last().unwrap(), "  Summary: 0 ok, 0 issue(s)");
}
