use pulsos::actions::ActionRequest;
use pulsos::app::{App, DataSnapshot};
use pulsos::config::TuiConfig;
use pulsos::domain::{
    DeploymentEvent, DeploymentStatus, EventMetadata, JobDetail, JobStepSummary, Platform, PlatformHealthReport,
    PlatformHealthDetails, PlatformHealthState, PlatformKind,
};
use pulsos::keys::{handle_key, KeyAction, KeyCode, KeyEvent, KeyModifiers};
use pulsos::log_buffer::{LogEntry, LogRingBuffer};
use pulsos::tabs::{InputMode, Level, LogFilter, PlatformSubtab, SettingsFlowState, Tab, UnifiedSort};

fn make_key(code: KeyCode) -> KeyEvent {
    KeyEvent::new(code, KeyModifiers::none())
}

fn make_key_with_mod(code: KeyCode, modifiers: KeyModifiers) -> KeyEvent {
    KeyEvent::new(code, modifiers)
}

fn press(app: &mut App, key: KeyEvent) {
    // The clipboard is not reached in tests: a copy request counts as done.
    if let KeyAction::CopyToClipboard(_) = handle_key(app, key) {
        app.record_copy(Ok(()));
    }
}

fn test_app() -> App {
    let data = DataSnapshot {
        health_scores: vec![("proj-a".into(), 90), ("proj-b".into(), 50), ("proj-c".into(), 10)],
        ..DataSnapshot::default()
    };
    App::new(data, TuiConfig::default(), LogRingBuffer::new())
}

fn event(id: &str, platform: Platform, metadata: EventMetadata) -> DeploymentEvent {
    DeploymentEvent {
        id: id.into(),
        platform,
        status: DeploymentStatus::Success,
        commit_sha: Some("abc123".into()),
        branch: Some("main".into()),
        title: Some("CI".into()),
        actor: Some("vivallo".into()),
        created_at: 1_700_000_000_000,
        updated_at: None,
        duration_secs: Some(10),
        url: None,
        metadata,
        is_from_cache: false,
    }
}

fn platform_app_with_event(platform: Platform) -> App {
    let data = DataSnapshot { events: vec![event("evt-1", platform, EventMetadata::empty())], ..DataSnapshot::default() };
    let mut app = App::new(data, TuiConfig::default(), LogRingBuffer::new());
    app.active_tab = Tab::Platform;
    app
}

fn platform_app_with_github_tree() -> App {
    let mut metadata = EventMetadata::empty();
    metadata.source_id = Some("myorg/my-saas".into());
    metadata.job_details = vec![JobDetail {
        job_id: Some(700001),
        name: "build".into(),
        status: DeploymentStatus::Success,
        html_url: Some("https://github.com/myorg/my-saas/actions/runs/100001/job/700001".into()),
        steps: vec![JobStepSummary {
            number: 1,
            name: "Checkout".into(),
            status: DeploymentStatus::Success,
            duration_secs: Some(2),
            started_at: Some("2024-01-01 00:00:00 UTC".into()),
            completed_at: Some("2024-01-01 00:00:02 UTC".into()),
        }],
    }];
    let data = DataSnapshot { events: vec![event("100001", Platform::GitHub, metadata)], ..DataSnapshot::default() };
    let mut app = App::new(data, TuiConfig::default(), LogRingBuffer::new());
    app.active_tab = Tab::Platform;
    app
}

fn report(state: PlatformHealthState, reason: &str, next_action: &str, token_source: Option<&str>) -> PlatformHealthReport {
    PlatformHealthReport {
        platform: PlatformKind::GitHub,
        state,
        reason: reason.into(),
        next_action: next_action.into(),
        token_source: token_source.map(|s| s.to_string()),
        details: PlatformHealthDetails::Unknown,
    }
}

fn settings_app() -> App {
    let data = DataSnapshot {
        platform_health: vec![report(PlatformHealthState::NoToken, "no token", "set token", None)],
        ..DataSnapshot::default()
    };
    let mut app = App::new(data, TuiConfig::default(), LogRingBuffer::new());
    app.active_tab = Tab::Settings;
    app
}

fn env_settings_app() -> App {
    let data = DataSnapshot {
        platform_health: vec![report(PlatformHealthState::Ready, "env token", "none", Some("GITHUB_TOKEN"))],
        ..DataSnapshot::default()
    };
    let mut app = App::new(data, TuiConfig::default(), LogRingBuffer::new());
    app.active_tab = Tab::Settings;
    app
}

fn describe(action: Option<ActionRequest>) -> String {
    action.map(|a| a.describe()).unwrap_or_else(|| "None".to_string())
}

#[test]
fn quit_on_q() {
    let mut app = test_app();
    press(&mut app, make_key(KeyCode::Char('q')));
    assert!(app.should_quit);
}

#[test]
fn quit_on_ctrl_c() {
    let mut app = test_app();
    press(&mut app, make_key_with_mod(KeyCode::Char('c'), KeyModifiers::control()));
    assert!(app.should_quit);
}

#[test]
fn navigate_down_j() {
    let mut app = test_app();
    app.active_tab = Tab::Health;
    assert_eq!(app.selected_row, 0);
    press(&mut app, make_key(KeyCode::Char('j')));
    assert_eq!(app.selected_row, 1);
    press(&mut app, make_key(KeyCode::Char('j')));
    assert_eq!(app.selected_row, 2);
    press(&mut app, make_key(KeyCode::Char('j')));
    assert_eq!(app.selected_row, 2);
}

#[test]
fn navigate_up_k() {
    let mut app = test_app();
    app.active_tab = Tab::Health;
    app.selected_row = 2;
    press(&mut app, make_key(KeyCode::Char('k')));
    assert_eq!(app.selected_row, 1);
    press(&mut app, make_key(KeyCode::Char('k')));
    assert_eq!(app.selected_row, 0);
    press(&mut app, make_key(KeyCode::Char('k')));
    assert_eq!(app.selected_row, 0);
}

#[test]
fn navigate_with_arrow_keys() {
    let mut app = test_app();
    app.active_tab = Tab::Health;
    press(&mut app, make_key(KeyCode::Down));
    assert_eq!(app.selected_row, 1);
    press(&mut app, make_key(KeyCode::Up));
    assert_eq!(app.selected_row, 0);
}

#[test]
fn switch_tabs_with_numbers() {
    let mut app = test_app();
    assert_eq!(app.active_tab, Tab::Unified);
    press(&mut app, make_key(KeyCode::Char('2')));
    assert_eq!(app.active_tab, Tab::Platform);
    press(&mut app, make_key(KeyCode::Char('3')));
    assert_eq!(app.active_tab, Tab::Health);
    press(&mut app, make_key(KeyCode::Char('4')));
    assert_eq!(app.active_tab, Tab::Settings);
    press(&mut app, make_key(KeyCode::Char('1')));
    assert_eq!(app.active_tab, Tab::Unified);
}

#[test]
fn switch_tabs_resets_selection() {
    let mut app = test_app();
    app.active_tab = Tab::Health;
    app.selected_row = 2;
    press(&mut app, make_key(KeyCode::Char('1')));
    assert_eq!(app.selected_row, 0);
}

#[test]
fn cycle_tabs_with_tab_key() {
    let mut app = test_app();
    assert_eq!(app.active_tab, Tab::Unified);
    press(&mut app, make_key(KeyCode::Tab));
    assert_eq!(app.active_tab, Tab::Platform);
    press(&mut app, make_key(KeyCode::Tab));
    assert_eq!(app.active_tab, Tab::Health);
    press(&mut app, make_key(KeyCode::Tab));
    assert_eq!(app.active_tab, Tab::Settings);
    press(&mut app, make_key(KeyCode::Tab));
    assert_eq!(app.active_tab, Tab::Logs);
    press(&mut app, make_key(KeyCode::Tab));
    assert_eq!(app.active_tab, Tab::Unified);
}

#[test]
fn cycle_tabs_backward_with_backtab() {
    let mut app = test_app();
    assert_eq!(app.active_tab, Tab::Unified);
    press(&mut app, make_key(KeyCode::BackTab));
    assert_eq!(app.active_tab, Tab::Logs);
    press(&mut app, make_key(KeyCode::BackTab));
    assert_eq!(app.active_tab, Tab::Settings);
    press(&mut app, make_key(KeyCode::BackTab));
    assert_eq!(app.active_tab, Tab::Health);
    press(&mut app, make_key(KeyCode::BackTab));
    assert_eq!(app.active_tab, Tab::Platform);
}

#[test]
fn switch_to_logs_with_key_5() {
    let mut app = test_app();
    press(&mut app, make_key(KeyCode::Char('5')));
    assert_eq!(app.active_tab, Tab::Logs);
    assert_eq!(app.selected_row, 0);
}

#[test]
fn force_refresh() {
    let mut app = test_app();
    assert!(!app.force_refresh);
    press(&mut app, make_key(KeyCode::Char('r')));
    assert!(app.force_refresh);
}

#[test]
fn enter_search_mode() {
    let mut app = test_app();
    assert_eq!(app.input_mode, InputMode::Normal);
    press(&mut app, make_key(KeyCode::Char('/')));
    assert_eq!(app.input_mode, InputMode::Search);
    assert!(app.search_query.is_empty());
}

#[test]
fn search_mode_typing() {
    let mut app = test_app();
    app.input_mode = InputMode::Search;
    press(&mut app, make_key(KeyCode::Char('m')));
    press(&mut app, make_key(KeyCode::Char('y')));
    assert_eq!(app.search_query, "my");
    press(&mut app, make_key(KeyCode::Backspace));
    assert_eq!(app.search_query, "m");
}

#[test]
fn search_mode_esc_clears_and_exits() {
    let mut app = test_app();
    app.input_mode = InputMode::Search;
    app.search_query = "test".into();
    press(&mut app, make_key(KeyCode::Esc));
    assert_eq!(app.input_mode, InputMode::Normal);
    assert!(app.search_query.is_empty());
}

#[test]
fn search_mode_enter_applies_and_exits() {
    let mut app = test_app();
    app.input_mode = InputMode::Search;
    app.search_query = "prod".into();
    press(&mut app, make_key(KeyCode::Enter));
    assert_eq!(app.input_mode, InputMode::Normal);
    assert_eq!(app.search_query, "prod");
}

#[test]
fn settings_token_entry_queues_store_action() {
    let mut app = settings_app();
    press(&mut app, make_key(KeyCode::Char('t')));
    assert_eq!(app.settings_flow, SettingsFlowState::TokenEntry);
    press(&mut app, make_key(KeyCode::Char('a')));
    press(&mut app, make_key(KeyCode::Char('b')));
    press(&mut app, make_key(KeyCode::Char('c')));
    press(&mut app, make_key(KeyCode::Enter));
    assert_eq!(app.settings_flow, SettingsFlowState::ValidatingToken);
    match app.pending_action.take() {
        Some(ActionRequest::ValidateAndStoreToken { platform, token }) => {
            assert_eq!(platform, PlatformKind::GitHub);
            assert_eq!(token, "abc");
        }
        other => panic!("unexpected action queued: {}", describe(other)),
    }
}

#[test]
fn settings_onboarding_discovery_requires_selection() {
    let mut app = settings_app();
    press(&mut app, make_key(KeyCode::Char('o')));
    assert_eq!(app.settings_flow, SettingsFlowState::ProviderActions);
    press(&mut app, make_key(KeyCode::Enter));
    assert!(app.pending_action.is_none());
    press(&mut app, make_key(KeyCode::Char(' ')));
    press(&mut app, make_key(KeyCode::Enter));
    match app.pending_action.take() {
        Some(ActionRequest::Discover { platforms }) => {
            assert_eq!(platforms, vec![PlatformKind::GitHub]);
        }
        other => panic!("unexpected action queued: {}", describe(other)),
    }
}

#[test]
fn settings_messages_use_normalized_validation_copy() {
    let mut app = settings_app();
    press(&mut app, make_key(KeyCode::Char('t')));
    press(&mut app, make_key(KeyCode::Enter));
    assert_eq!(app.settings_message.as_deref(), Some("token cannot be empty"));

    app.settings_flow = SettingsFlowState::ProviderActions;
    app.onboarding.reset();
    press(&mut app, make_key(KeyCode::Enter));
    assert_eq!(app.settings_message.as_deref(), Some("select at least one provider"));

    app.settings_flow = SettingsFlowState::ResourceSelection;
    app.onboarding.reset();
    press(&mut app, make_key(KeyCode::Enter));
    assert_eq!(app.settings_message.as_deref(), Some("select at least one resource"));
}

#[test]
fn settings_messages_explain_env_token_limits() {
    let mut app = env_settings_app();
    press(&mut app, make_key(KeyCode::Char('t')));
    assert_eq!(
        app.settings_message.as_deref(),
        Some("env token is active; unset env var or press T to store override")
    );
    press(&mut app, make_key(KeyCode::Char('x')));
    assert_eq!(app.settings_message.as_deref(), Some("cannot remove env token; unset it in shell"));
}

fn log_entry(level: Level, message: &str) -> LogEntry {
    LogEntry { timestamp: 1_700_000_000_000, level, target: String::new(), message: message.into() }
}

fn logs_app() -> App {
    let mut log_buffer = LogRingBuffer::new();
    log_buffer.push(log_entry(Level::ERROR, "error msg"));
    log_buffer.push(log_entry(Level::WARN, "warn msg"));
    log_buffer.push(log_entry(Level::INFO, "info msg"));
    let mut app = App::new(DataSnapshot::default(), TuiConfig::default(), log_buffer);
    app.active_tab = Tab::Logs;
    app
}

#[test]
fn logs_filter_cycles_with_f() {
    let mut app = logs_app();
    assert_eq!(app.log_filter, LogFilter::All);
    press(&mut app, make_key(KeyCode::Char('f')));
    assert_eq!(app.log_filter, LogFilter::Error);
    assert_eq!(app.selected_row, 0);
    press(&mut app, make_key(KeyCode::Char('f')));
    assert_eq!(app.log_filter, LogFilter::Warn);
    press(&mut app, make_key(KeyCode::Char('f')));
    assert_eq!(app.log_filter, LogFilter::Info);
    press(&mut app, make_key(KeyCode::Char('f')));
    assert_eq!(app.log_filter, LogFilter::All);
}

#[test]
fn f_key_does_nothing_on_other_tabs() {
    let mut app = test_app();
    app.active_tab = Tab::Unified;
    let filter_before = app.log_filter;
    press(&mut app, make_key(KeyCode::Char('f')));
    assert_eq!(app.log_filter, filter_before);
    app.active_tab = Tab::Health;
    press(&mut app, make_key(KeyCode::Char('f')));
    assert_eq!(app.log_filter, filter_before);
}

#[test]
fn c_copies_selected_log_message_on_logs_tab() {
    let mut app = logs_app();
    let before_len = app.log_buffer.len();
    app.selected_row = 0;
    press(&mut app, make_key(KeyCode::Char('c')));
    let latest = app.log_buffer.latest().expect("latest log entry");
    assert!(latest.message.contains("copied selected log message"));
    assert_eq!(latest.level, Level::INFO);
    assert_eq!(app.log_buffer.len(), before_len + 1);
}

#[test]
fn c_does_nothing_on_non_logs_tabs() {
    let mut app = test_app();
    let before_len = app.log_buffer.len();
    app.active_tab = Tab::Unified;
    press(&mut app, make_key(KeyCode::Char('c')));
    assert_eq!(app.log_buffer.len(), before_len);
}

#[test]
fn s_key_cycles_unified_sort() {
    let mut app = test_app();
    app.active_tab = Tab::Unified;
    assert_eq!(app.unified_sort, UnifiedSort::ByTime);
    press(&mut app, make_key(KeyCode::Char('s')));
    assert_eq!(app.unified_sort, UnifiedSort::ByPlatform);
    assert_eq!(app.selected_row, 0);
    press(&mut app, make_key(KeyCode::Char('s')));
    assert_eq!(app.unified_sort, UnifiedSort::ByTime);
}

#[test]
fn s_key_does_nothing_on_other_tabs() {
    let mut app = test_app();
    app.active_tab = Tab::Platform;
    press(&mut app, make_key(KeyCode::Char('s')));
    assert_eq!(app.unified_sort, UnifiedSort::ByTime);
    app.active_tab = Tab::Health;
    press(&mut app, make_key(KeyCode::Char('s')));
    assert_eq!(app.unified_sort, UnifiedSort::ByTime);
    app.active_tab = Tab::Logs;
    press(&mut app, make_key(KeyCode::Char('s')));
    assert_eq!(app.unified_sort, UnifiedSort::ByTime);
}

#[test]
fn d_toggles_github_details_on_platform_tab() {
    let mut app = platform_app_with_event(Platform::GitHub);
    app.platform_subtab = PlatformSubtab::GitHub;
    assert!(app.platform_details_mode.is_none());
    press(&mut app, make_key(KeyCode::Char('d')));
    assert!(app.platform_details_active());
    press(&mut app, make_key(KeyCode::Char('d')));
    assert!(!app.platform_details_active());
}

#[test]
fn enter_opens_github_details_panel() {
    let mut app = platform_app_with_event(Platform::GitHub);
    app.platform_subtab = PlatformSubtab::GitHub;
    press(&mut app, make_key(KeyCode::Enter));
    assert!(app.platform_details_active());
}

#[test]
fn enter_keeps_details_closed_when_not_toggled() {
    let mut app = platform_app_with_event(Platform::GitHub);
    app.set_platform_subtab(PlatformSubtab::Railway);
    press(&mut app, make_key(KeyCode::Enter));
    assert!(app.platform_details_mode.is_none());
}

#[test]
fn platform_left_right_switches_subtabs_when_details_closed() {
    let mut app = platform_app_with_event(Platform::GitHub);
    app.platform_subtab = PlatformSubtab::GitHub;
    press(&mut app, make_key(KeyCode::Right));
    assert_eq!(app.platform_subtab, PlatformSubtab::Railway);
    press(&mut app, make_key(KeyCode::Right));
    assert_eq!(app.platform_subtab, PlatformSubtab::Vercel);
    press(&mut app, make_key(KeyCode::Left));
    assert_eq!(app.platform_subtab, PlatformSubtab::Railway);
}

#[test]
fn platform_gwv_shortcuts_select_subtabs() {
    let mut app = platform_app_with_event(Platform::GitHub);
    app.platform_subtab = PlatformSubtab::Railway;
    press(&mut app, make_key(KeyCode::Char('v')));
    assert_eq!(app.platform_subtab, PlatformSubtab::Vercel);
    press(&mut app, make_key(KeyCode::Char('g')));
    assert_eq!(app.platform_subtab, PlatformSubtab::GitHub);
    press(&mut app, make_key(KeyCode::Char('w')));
    assert_eq!(app.platform_subtab, PlatformSubtab::Railway);
}

#[test]
fn switching_platform_subtab_closes_details_and_resets_selection() {
    let mut app = platform_app_with_github_tree();
    app.selected_row = 3;
    press(&mut app, make_key(KeyCode::Char('d')));
    assert!(app.platform_details_mode.is_some());
    press(&mut app, make_key(KeyCode::Esc));
    assert!(app.platform_details_mode.is_none());
    press(&mut app, make_key(KeyCode::Right));
    assert_eq!(app.platform_subtab, PlatformSubtab::Railway);
    assert_eq!(app.selected_row, 0);
}

#[test]
fn right_expands_job_then_left_collapses() {
    let mut app = platform_app_with_github_tree();
    press(&mut app, make_key(KeyCode::Char('d')));

    let expanded = app.platform_details_mode.as_ref().map(|d| d.expanded_jobs.contains(&700001)).unwrap_or(false);
    assert!(!expanded, "Job should start collapsed");

    press(&mut app, make_key(KeyCode::Down));
    press(&mut app, make_key(KeyCode::Right));
    let expanded = app.platform_details_mode.as_ref().map(|d| d.expanded_jobs.contains(&700001)).unwrap_or(false);
    assert!(expanded, "Right on collapsed job should expand it");

    press(&mut app, make_key(KeyCode::Left));
    let expanded = app.platform_details_mode.as_ref().map(|d| d.expanded_jobs.contains(&700001)).unwrap_or(false);
    assert!(!expanded, "Left on LeftTree with expanded job should collapse it");
}

#[test]
fn esc_closes_platform_details_mode() {
    let mut app = platform_app_with_event(Platform::GitHub);
    press(&mut app, make_key(KeyCode::Char('d')));
    assert!(app.platform_details_mode.is_some());
    press(&mut app, make_key(KeyCode::Esc));
    assert!(app.platform_details_mode.is_none());
}

#[test]
fn busy_settings_flow_swallows_every_key() {
    for flow in [SettingsFlowState::ValidatingToken, SettingsFlowState::DiscoveryScanning, SettingsFlowState::Applying] {
        for code in [KeyCode::Char('q'), KeyCode::Esc, KeyCode::Enter, KeyCode::Char('t')] {
            let mut app = settings_app();
            app.settings_flow = flow;
            let act = handle_key(&mut app, make_key(code));
            assert!(matches!(act, KeyAction::Nothing));
            assert!(!app.should_quit);
            assert_eq!(app.settings_flow, flow);
            assert!(app.pending_action.is_none());
            assert_eq!(app.active_tab, Tab::Settings);
        }
    }
}
