use pulsos::app::{App, DataSnapshot};
use pulsos::config::TuiConfig;
use pulsos::domain::DeploymentStatus;
use pulsos::log_buffer::LogRingBuffer;
use pulsos::tabs::{InputMode, SettingsFlowState, Tab, UnifiedSort};
use pulsos::widgets::{
    footer_truncate, format_sync_status, header_sync_status, health_status_label, help_text, render_sparkline_text,
    render_help_text, settings_help_text, short_sha, shorten_target, spinner_frame, status_badge,
};

#[test]
fn truncate_latest_warning_summary() {
    let msg = footer_truncate("this is a very long warning message", 10);
    assert_eq!(msg.chars().count(), 10);
    assert!(msg.ends_with('…'));
}

#[test]
fn truncate_keeps_short_and_drops_zero_width() {
    assert_eq!(footer_truncate("short", 10), "short");
    assert_eq!(footer_truncate("anything", 0), "");
}

#[test]
fn health_status_labels() {
    assert_eq!(health_status_label(100), "Healthy");
    assert_eq!(health_status_label(90), "Healthy");
    assert_eq!(health_status_label(89), "Degraded");
    assert_eq!(health_status_label(70), "Degraded");
    assert_eq!(health_status_label(69), "Critical");
    assert_eq!(health_status_label(0), "Critical");
}

#[test]
fn sparkline_text_rendering() {
    let history = vec![("proj".to_string(), vec![0, 50, 100])];
    let text = render_sparkline_text("proj", &history);
    assert_eq!(text.chars().count(), 3);
    assert!(text.starts_with('▁'));
    assert!(text.ends_with('█'));

    let empty = render_sparkline_text("nonexistent", &history);
    assert_eq!(empty, "—");
}

#[test]
fn sparkline_keeps_last_eight_points() {
    let history = vec![("p".to_string(), vec![100, 100, 0, 0, 0, 0, 0, 0, 0, 100])];
    assert_eq!(render_sparkline_text("p", &history), "▁▁▁▁▁▁▁█");
    let none = vec![("p".to_string(), vec![])];
    assert_eq!(render_sparkline_text("p", &none), "—");
}

#[test]
fn refresh_age_just_now() {
    assert_eq!(format_sync_status(false, 0, 0), "just now");
}

#[test]
fn refresh_age_old_data() {
    assert_eq!(format_sync_status(false, 0, 120), "2m ago");
    assert_eq!(format_sync_status(false, 0, 45), "45s ago");
    assert_eq!(format_sync_status(false, 0, 7200), "2h ago");
}

#[test]
fn footer_sync_status_shows_spinner_when_syncing() {
    let status = format_sync_status(true, 0, 0);
    assert!(status.contains("syncing"));
    assert_eq!(status, "⠋ syncing");
    assert_eq!(spinner_frame(85), "⠙");
}

#[test]
fn header_sync_status_shows_spinner_when_syncing() {
    assert!(header_sync_status(true, 0, 0).contains("syncing"));
}

#[test]
fn sync_status_shows_last_age_when_idle() {
    assert!(header_sync_status(false, 0, 30).contains("last: "));
    assert_eq!(header_sync_status(false, 0, 30), "last: 30s ago");
}

#[test]
fn footer_help_text_per_tab() {
    let logs = help_text(InputMode::Normal, Tab::Logs, SettingsFlowState::Idle, UnifiedSort::ByTime, "");
    assert!(logs.contains("[f]") && logs.contains("filter"));
    let platform = help_text(InputMode::Normal, Tab::Platform, SettingsFlowState::Idle, UnifiedSort::ByTime, "");
    assert!(!platform.contains("[f]"));
    let unified = help_text(InputMode::Normal, Tab::Unified, SettingsFlowState::Idle, UnifiedSort::ByTime, "");
    assert!(unified.contains("[s]") && unified.contains("sort: time"));
    let by_platform = help_text(InputMode::Normal, Tab::Unified, SettingsFlowState::Idle, UnifiedSort::ByPlatform, "");
    assert!(by_platform.contains("sort: platform"));
    let search = help_text(InputMode::Search, Tab::Unified, SettingsFlowState::Idle, UnifiedSort::ByTime, "prod");
    assert!(search.contains("Filter: prod") && search.contains("cancel"));
    let normal = help_text(InputMode::Normal, Tab::Health, SettingsFlowState::Idle, UnifiedSort::ByTime, "");
    assert!(normal.contains("[q]") && normal.contains("quit") && normal.contains("[/]") && normal.contains("search"));
}

#[test]
fn settings_legends() {
    assert!(settings_help_text(SettingsFlowState::Idle).contains("[Enter] onboard"));
    assert!(settings_help_text(SettingsFlowState::ProviderActions).contains("[Enter] discover"));
    assert!(settings_help_text(SettingsFlowState::ResourceSelection).contains("[Enter] preview"));
    assert_eq!(settings_help_text(SettingsFlowState::CorrelationReview), "[Enter] apply  [Esc] back");
    assert_eq!(settings_help_text(SettingsFlowState::Applying), "[... ] working");
}

#[test]
fn logs_target_is_shortened() {
    assert_eq!(shorten_target("pulsos_core::platform::github::client"), "platform::github::client");
    assert_eq!(shorten_target("pulsos_cli::tui::keys"), "tui::keys");
    assert_eq!(shorten_target("other::thing"), "other::thing");
}

#[test]
fn status_badges() {
    assert_eq!(status_badge(&DeploymentStatus::Success, 0), ("● ".to_string(), "passed".to_string()));
    assert_eq!(status_badge(&DeploymentStatus::Failed, 0), ("✕ ".to_string(), "failed".to_string()));
    assert_eq!(status_badge(&DeploymentStatus::InProgress, 120), ("◓ ".to_string(), "running".to_string()));
    assert_eq!(status_badge(&DeploymentStatus::Unknown("odd".into()), 0), ("? ".to_string(), "odd".to_string()));
}

#[test]
fn short_sha_keeps_seven_bytes() {
    assert_eq!(short_sha(Some("abc1234def")), "abc1234");
    assert_eq!(short_sha(Some("abc1234")), "abc1234");
    assert_eq!(short_sha(Some("ab")), "ab");
    assert_eq!(short_sha(None), "-");
}

fn footer_app() -> App {
    App::new(DataSnapshot::default(), TuiConfig::default(), LogRingBuffer::new())
}

#[test]
fn footer_shows_normal_mode_help() {
    let app = footer_app();
    let text = render_help_text(&app);
    assert!(text.contains("[q]"));
    assert!(text.contains("quit"));
    assert!(text.contains("[/]"));
    assert!(text.contains("search"));
}

#[test]
fn footer_shows_search_mode_help() {
    let mut app = footer_app();
    app.input_mode = InputMode::Search;
    app.search_query = "prod".into();
    let text = render_help_text(&app);
    assert!(text.contains("Filter: prod"));
    assert!(text.contains("cancel"));
}

#[test]
fn settings_idle_result_legend_is_terse() {
    let mut app = footer_app();
    app.active_tab = Tab::Settings;
    app.settings_flow = SettingsFlowState::Idle;
    assert_eq!(render_help_text(&app), "[Enter] onboard  [t/T] token  [v] validate  [x] remove  [r] refresh");
    app.settings_flow = SettingsFlowState::ValidationResult;
    assert_eq!(render_help_text(&app), "[Enter] onboard  [t/T] token  [v] validate  [x] remove  [r] refresh");
}

#[test]
fn settings_provider_select_legend() {
    let mut app = footer_app();
    app.active_tab = Tab::Settings;
    app.settings_flow = SettingsFlowState::ProviderActions;
    assert_eq!(render_help_text(&app), "[↑↓] move  [Space] toggle  [Enter] discover  [Esc] cancel");
}

#[test]
fn settings_resource_select_legend() {
    let mut app = footer_app();
    app.active_tab = Tab::Settings;
    app.settings_flow = SettingsFlowState::ResourceSelection;
    assert_eq!(render_help_text(&app), "[↑↓] move  [Space] toggle  [Enter] preview  [Esc] cancel");
}

#[test]
fn settings_preview_legend() {
    let mut app = footer_app();
    app.active_tab = Tab::Settings;
    app.settings_flow = SettingsFlowState::CorrelationReview;
    assert_eq!(render_help_text(&app), "[Enter] apply  [Esc] back");
}

#[test]
fn settings_busy_legend() {
    let mut app = footer_app();
    app.active_tab = Tab::Settings;
    app.settings_flow = SettingsFlowState::Applying;
    assert_eq!(render_help_text(&app), "[... ] working");
}

#[test]
fn footer_shows_filter_hint_on_logs_tab() {
    let mut app = footer_app();
    app.active_tab = Tab::Logs;
    let text = render_help_text(&app);
    assert!(text.contains("[f]"));
    assert!(text.contains("filter"));
}

#[test]
fn footer_no_filter_hint_on_other_tabs() {
    let mut app = footer_app();
    app.active_tab = Tab::Platform;
    let text = render_help_text(&app);
    assert!(!text.contains("[f]"));
}

#[test]
fn footer_shows_sort_hint_on_unified_tab() {
    let mut app = footer_app();
    app.active_tab = Tab::Unified;
    let text = render_help_text(&app);
    assert!(text.contains("[s]"), "should contain sort key");
    assert!(text.contains("sort: time"), "should show default sort mode");
}

#[test]
fn footer_sort_hint_updates_when_sort_changes() {
    let mut app = footer_app();
    app.active_tab = Tab::Unified;
    app.unified_sort = UnifiedSort::ByPlatform;
    let text = render_help_text(&app);
    assert!(text.contains("sort: platform"));
}
