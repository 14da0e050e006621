use pulsos::actions::ActionResult;
use pulsos::config::{PulsosConfig, TuiConfig};
use pulsos::domain::{DiscoveredResource, PlatformKind};
use pulsos::repos::{CorrelationCandidate, MatchConfidence};
use pulsos::settings_flow::DiscoveryPayload;
use pulsos::worker::{
    after_removal, after_store, after_validation, applied_result, check_candidates, parse_pid, platform_check_result,
    preview_lines, record_discovery, start_result, stop_result, stop_step, token_to_validate, tui_saved_result,
    with_tui, DiscoveryOutcome, StopStep, TokenStatus,
};

fn error_parts(r: &ActionResult) -> (String, String) {
    match r {
        ActionResult::Error { context, message } => (context.clone(), message.clone()),
        _ => panic!("not an error"),
    }
}

fn resource(name: &str, archived: bool) -> DiscoveredResource {
    DiscoveredResource {
        platform: PlatformKind::GitHub,
        platform_id: name.into(),
        display_name: name.into(),
        group: "org".into(),
        archived,
        disabled: false,
    }
}

#[test]
fn token_requests() {
    let e = token_to_validate(PlatformKind::GitHub, "   ").unwrap_err();
    assert_eq!(error_parts(&e), ("GitHub token".to_string(), "Token cannot be empty.".to_string()));
    assert_eq!(token_to_validate(PlatformKind::GitHub, " abc ").unwrap(), "abc");
    let e = after_validation(PlatformKind::Vercel, Err("bad token".into())).unwrap_err();
    assert_eq!(error_parts(&e), ("validate Vercel".to_string(), "bad token".to_string()));
    let status = after_validation(PlatformKind::Vercel, Ok(TokenStatus { identity: "me".into(), warnings: vec![] })).unwrap();
    assert!(matches!(after_store(PlatformKind::Vercel, status, Ok(())), ActionResult::TokenStored { .. }));
    let status = TokenStatus { identity: "me".into(), warnings: vec![] };
    let e = after_store(PlatformKind::Railway, status, Err("locked".into()));
    assert_eq!(error_parts(&e).0, "store Railway");
    assert!(matches!(after_removal(PlatformKind::GitHub, Ok(())), ActionResult::TokenRemoved { .. }));
    assert_eq!(error_parts(&after_removal(PlatformKind::GitHub, Err("x".into()))).0, "remove GitHub");
    let e = platform_check_result(PlatformKind::GitHub, None);
    assert_eq!(error_parts(&e).1, "No token is configured for this platform.");
}

#[test]
fn discovery_outcomes() {
    let mut payload = DiscoveryPayload::empty();
    record_discovery(&mut payload, PlatformKind::Railway, DiscoveryOutcome::NoToken);
    record_discovery(&mut payload, PlatformKind::Vercel, DiscoveryOutcome::Failed("timeout".into()));
    record_discovery(&mut payload, PlatformKind::GitHub, DiscoveryOutcome::Found(vec![resource("a", false), resource("b", true)]));
    assert_eq!(
        payload.warnings,
        vec!["Railway skipped: no token configured.".to_string(), "Vercel discovery failed: timeout".to_string()]
    );
    assert_eq!(payload.github.len(), 1);
    record_discovery(&mut payload, PlatformKind::Vercel, DiscoveryOutcome::FoundLinked(vec![(resource("w", false), None)]));
    assert_eq!(payload.vercel.len(), 1);
}

#[test]
fn correlation_requests() {
    assert_eq!(preview_lines(&[]), vec!["No correlation candidates produced from selected resources.".to_string()]);
    let c = CorrelationCandidate { name: "app".into(), confidence: MatchConfidence::ExactStem, github: None, railway: None, vercel: None };
    assert_eq!(preview_lines(&[c]), vec!["app (ExactStem)".to_string()]);
    let e = check_candidates(0).unwrap();
    assert_eq!(error_parts(&e), ("apply correlations".to_string(), "No correlation candidates to save.".to_string()));
    assert!(check_candidates(2).is_none());
    match applied_result(1, 2, PulsosConfig::default(), Ok(())) {
        ActionResult::CorrelationsApplied { added, updated, total, .. } => assert_eq!((added, updated, total), (1, 2, 0)),
        _ => panic!("expected applied"),
    }
    assert_eq!(error_parts(&applied_result(0, 0, PulsosConfig::default(), Err("disk full".into()))).0, "save config");
}

#[test]
fn daemon_and_settings_requests() {
    assert_eq!(parse_pid(" 4242\n"), Some(4242));
    assert_eq!(parse_pid("+7"), Some(7));
    assert_eq!(parse_pid("4294967296"), None);
    assert_eq!(parse_pid("pid"), None);
    assert!(matches!(start_result(true, None), ActionResult::DaemonAlreadyRunning));
    assert!(matches!(start_result(false, Some(Ok(()))), ActionResult::DaemonStarted));
    assert_eq!(error_parts(&start_result(false, Some(Err("denied".into())))).0, "start daemon");
    assert!(matches!(stop_step(None, true), StopStep::NotRunning));
    assert!(matches!(stop_step(Some(9), false), StopStep::ForgetStalePid));
    assert!(matches!(stop_step(Some(9), true), StopStep::Terminate(9)));
    assert!(matches!(stop_result(true), ActionResult::DaemonStopped));
    assert!(matches!(stop_result(false), ActionResult::DaemonNotRunning));
    let mut tui = TuiConfig::default();
    tui.fps = 30;
    assert_eq!(with_tui(PulsosConfig::default(), tui).tui.fps, 30);
    assert!(matches!(tui_saved_result(Ok(())), ActionResult::TuiConfigSaved));
}
