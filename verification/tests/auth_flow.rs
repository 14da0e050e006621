use pulsos::auth::AuthPage;
use pulsos::auth_flow::{auth_step, AuthAction, AuthEvent, AuthState};

#[test]
fn given_token_is_trimmed_validated_then_stored() {
    let (s, a) = auth_step(AuthState::Begin { given: Some("  abc  ".to_string()), from_env: false }, AuthEvent::Start);
    assert!(matches!(&a, AuthAction::Validate { token } if token == "abc"));
    let (s, a) = auth_step(s, AuthEvent::Validated { result: Ok(("octocat".to_string(), vec![])) });
    assert!(matches!(&a, AuthAction::Store { token } if token == "abc"));
    let (s, a) = auth_step(s, AuthEvent::Stored { result: Ok(()) });
    assert!(matches!(&a, AuthAction::Show { page: AuthPage::Stored { identity, .. } } if identity == "octocat"));
    let (s, a) = auth_step(s, AuthEvent::Shown);
    assert!(matches!(s, AuthState::Done));
    assert!(matches!(a, AuthAction::Finish { result: Ok(()) }));
}

#[test]
fn empty_given_token_fails_at_once() {
    let (s, a) = auth_step(AuthState::Begin { given: Some("   ".to_string()), from_env: false }, AuthEvent::Start);
    assert!(matches!(s, AuthState::Done));
    assert!(matches!(&a, AuthAction::Finish { result: Err(m) } if m == "Token value cannot be empty."));
}

#[test]
fn invalid_token_shows_failure_then_errors() {
    let (s, _) = auth_step(AuthState::Begin { given: Some("x".to_string()), from_env: false }, AuthEvent::Start);
    let (s, a) = auth_step(s, AuthEvent::Validated { result: Err("bad token".to_string()) });
    assert!(matches!(&a, AuthAction::Show { page: AuthPage::Failed { error } } if error == "bad token"));
    let (_, a) = auth_step(s, AuthEvent::Shown);
    assert!(matches!(&a, AuthAction::Finish { result: Err(m) } if m == "bad token"));
}

#[test]
fn store_failure_is_reported() {
    let (s, _) = auth_step(AuthState::Begin { given: Some("x".to_string()), from_env: false }, AuthEvent::Start);
    let (s, _) = auth_step(s, AuthEvent::Validated { result: Ok(("me".to_string(), vec![])) });
    let (_, a) = auth_step(s, AuthEvent::Stored { result: Err("locked".to_string()) });
    assert!(matches!(&a, AuthAction::Finish { result: Err(m) }
        if m == "Token is valid but failed to store in keyring: locked"));
}

#[test]
fn interactive_flow_detects_cli_then_falls_back_to_typing() {
    let (s, a) = auth_step(AuthState::Begin { given: None, from_env: false }, AuthEvent::Start);
    assert!(matches!(a, AuthAction::CheckStored));
    let (s, a) = auth_step(s, AuthEvent::StoreChecked { has_token: true });
    assert!(matches!(a, AuthAction::Show { page: AuthPage::AlreadyStored }));
    let (s, a) = auth_step(s, AuthEvent::Shown);
    assert!(matches!(a, AuthAction::DetectCli));
    let (s, a) = auth_step(s, AuthEvent::CliFound { found: Some(("cli-token".to_string(), "gh".to_string())) });
    assert!(matches!(&a, AuthAction::AskReuse { source } if source == "gh"));
    let (s, a) = auth_step(s, AuthEvent::ReuseAnswer { answer: Some(true) });
    assert!(matches!(&a, AuthAction::Validate { token } if token == "cli-token"));
    let (s, a) = auth_step(s, AuthEvent::Validated { result: Err("expired".to_string()) });
    assert!(matches!(&a, AuthAction::Show { page: AuthPage::DetectedInvalid { error } } if error == "expired"));
    let (s, a) = auth_step(s, AuthEvent::Shown);
    assert!(matches!(a, AuthAction::AskToken));
    let (s, a) = auth_step(s, AuthEvent::Typed { answer: Some("  ".to_string()) });
    assert!(matches!(s, AuthState::Done));
    assert!(matches!(&a, AuthAction::Finish { result: Err(m) } if m == "No token provided. Authentication cancelled."));
}

#[test]
fn from_env_and_cancel_paths() {
    let (s, _) = auth_step(AuthState::Begin { given: None, from_env: true }, AuthEvent::Start);
    let (s, a) = auth_step(s, AuthEvent::StoreChecked { has_token: false });
    assert!(matches!(a, AuthAction::FromEnv));
    let (_, a) = auth_step(s, AuthEvent::EnvDone { result: Err("none".to_string()) });
    assert!(matches!(&a, AuthAction::Finish { result: Err(m) } if m == "none"));
    let (_, a) = auth_step(AuthState::Typing, AuthEvent::Typed { answer: None });
    assert!(matches!(a, AuthAction::Finish { result: Ok(()) }));
    let (_, a) = auth_step(AuthState::Typing, AuthEvent::Shown);
    assert!(matches!(&a, AuthAction::Finish { result: Err(m) } if m == "authentication flow out of order"));
}
