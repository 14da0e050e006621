use pulsos::actions::ActionResult;
use pulsos::app::{App, DataSnapshot};
use pulsos::config::{PulsosConfig, TuiConfig};
use pulsos::keys::{KeyAction, KeyCode, KeyEvent, KeyModifiers};
use pulsos::log_buffer::LogRingBuffer;
use pulsos::main_loop::{daemon_tick, tick_interval_ms};
use pulsos::poll::PollerCommand;
use pulsos::tabs::Tab;

fn app() -> App {
    let data = DataSnapshot {
        health_scores: vec![("a".into(), 1), ("b".into(), 2), ("c".into(), 3)],
        ..DataSnapshot::default()
    };
    App::new(data, TuiConfig::default(), LogRingBuffer::new())
}

#[test]
fn key_outcomes_hand_out_refresh_and_requests() {
    let mut app = app();
    let out = app.after_key(KeyEvent::new(KeyCode::Char('r'), KeyModifiers::none()));
    assert!(out.force_refresh);
    assert!(out.request.is_none());
    assert!(matches!(out.action, KeyAction::Nothing));
    // The flag is handed out once.
    assert!(!app.force_refresh);
    let out = app.after_key(KeyEvent::new(KeyCode::Char('j'), KeyModifiers::none()));
    assert!(!out.force_refresh);
}

#[test]
fn new_snapshots_clamp_the_selection() {
    let mut app = app();
    app.active_tab = Tab::Health;
    app.selected_row = 2;
    let smaller = DataSnapshot { health_scores: vec![("only".into(), 50)], ..DataSnapshot::default() };
    app.accept_snapshot(smaller);
    assert_eq!(app.selected_row, 0);
    assert_eq!(app.data.health_scores.len(), 1);
}

#[test]
fn refused_requests_and_worker_results() {
    let mut app = app();
    app.settings_action_in_flight = true;
    app.request_refused();
    assert!(!app.settings_action_in_flight);
    assert_eq!(app.last_error.as_deref(), Some("Action queue is busy; try again."));
    let cmds = app.after_result(ActionResult::CorrelationsApplied {
        added: 1,
        updated: 0,
        total: 1,
        config: Box::new(PulsosConfig::default()),
    });
    assert!(matches!(cmds[0], PollerCommand::ReplaceConfig(_)));
    assert!(matches!(cmds.last().unwrap(), PollerCommand::ForceRefresh));
    let cmds = app.after_result(ActionResult::DaemonStopped);
    assert!(cmds.iter().all(|c| matches!(c, PollerCommand::ForceRefresh)));
}

#[test]
fn tick_decisions() {
    assert_eq!(daemon_tick(false, 3, 10), (10, false));
    assert_eq!(daemon_tick(true, 10, 10), (0, true));
    assert_eq!(daemon_tick(true, 2, 10), (3, false));
    assert_eq!(daemon_tick(true, u32::MAX, 10), (0, true));
    assert_eq!(tick_interval_ms(0), 1000);
    assert_eq!(tick_interval_ms(30), 33);
}
