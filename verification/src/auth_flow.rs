//! The login flow of one provider as a state machine: the caller performs
//! each action (validating or storing a token, asking the user, showing a
//! page) and hands back what came of it; `auth_step` decides what follows.
//! A token is stored only right after it validated, and a given or typed
//! token is validated trimmed, or refused when nothing is left of it.

use vstd::prelude::*;
use crate::auth::{direct_token, entered_token, AuthError, AuthPage};
use crate::text::{owned, push_str, trimmed};

verus! {

/// Where a login stands.
#[derive(Debug)]
pub enum AuthState {
    /// Nothing done yet: the token given on the command line, if any, and
    /// whether the token is to be read from the environment.
    Begin { given: Option<String>, from_env: bool },
    /// A token is being validated; `detected` when it came from a provider CLI.
    Validating { token: String, detected: bool },
    /// A valid token is being stored.
    Storing { identity: String, warnings: Vec<String> },
    /// Looking for a token stored already.
    CheckingStore { from_env: bool },
    /// Past the check for a stored token.
    AfterStoreCheck { from_env: bool },
    /// The environment's token is being validated by the caller.
    FromEnv,
    /// Looking for a token held by the provider's CLI.
    Detecting,
    /// Asking whether to reuse the CLI's token.
    AskingReuse { token: String },
    /// The CLI's token did not validate; the page says so.
    DetectedInvalidShown,
    /// Asking for a token to be typed.
    Typing,
    /// The token did not validate; the page says so.
    FailedShown { error: String },
    /// The token is stored; the page says so.
    StoredShown,
    /// The login is over.
    Done,
}

/// What the caller is to do next.
#[derive(Debug)]
pub enum AuthAction {
    /// Validate the token with the provider.
    Validate { token: String },
    /// Store the token in the credential store.
    Store { token: String },
    /// Look for a token stored already.
    CheckStored,
    /// Show a page of the login.
    Show { page: AuthPage },
    /// Validate the token of the provider's environment variables.
    FromEnv,
    /// Look for a token held by the provider's CLI.
    DetectCli,
    /// Ask whether to reuse the CLI's token.
    AskReuse { source: String },
    /// Ask for a token to be typed.
    AskToken,
    /// The login is over, with this outcome.
    Finish { result: Result<(), String> },
}

/// What came of the last action.
#[derive(Debug)]
pub enum AuthEvent {
    /// The flow starts.
    Start,
    /// The validation's outcome: the identity and warnings, or an error.
    Validated { result: Result<(String, Vec<String>), String> },
    /// The store's outcome.
    Stored { result: Result<(), String> },
    /// Whether a token is stored already.
    StoreChecked { has_token: bool },
    /// The page was shown.
    Shown,
    /// The outcome of logging in from the environment.
    EnvDone { result: Result<(), String> },
    /// The CLI's token and where it was found, if any.
    CliFound { found: Option<(String, String)> },
    /// The answer to reusing the CLI's token; `None` when cancelled.
    ReuseAnswer { answer: Option<bool> },
    /// The typed token; `None` when cancelled.
    Typed { answer: Option<String> },
}

/// The text of a failure to store a valid token.
pub open spec fn store_failure(e: Seq<char>) -> Seq<char> {
    "Token is valid but failed to store in keyring: "@ + e
}

/// The text of an event that does not fit the state.
pub open spec fn out_of_order() -> Seq<char> {
    "authentication flow out of order"@
}

/// `r` finishes the login with the error text `msg`.
pub open spec fn fails_with(r: (AuthState, AuthAction), msg: Seq<char>) -> bool {
    &&& r.0 is Done
    &&& r.1 matches AuthAction::Finish { result: Err(m) } && m@ == msg
}

/// `r` finishes the login successfully.
pub open spec fn succeeds(r: (AuthState, AuthAction)) -> bool {
    &&& r.0 is Done
    &&& r.1 matches AuthAction::Finish { result: Ok(()) }
}

/// After the stored-token check: from the environment, or look at the CLI.
pub open spec fn after_check(from_env: bool, r: (AuthState, AuthAction)) -> bool {
    if from_env {
        r.0 is FromEnv && r.1 is FromEnv
    } else {
        r.0 is Detecting && r.1 is DetectCli
    }
}

/// `r` validates `token`, trimmed from what was given or typed.
pub open spec fn validates_trimmed(r: (AuthState, AuthAction), text: Seq<char>) -> bool {
    &&& r.0 matches AuthState::Validating { token, detected } && !detected && token@ == trimmed(text)
    &&& r.1 matches AuthAction::Validate { token } && token@ == trimmed(text)
    &&& trimmed(text).len() > 0
}

/// What the login does next, given where it stands and what came of the
/// last action.
pub open spec fn auth_next(s: AuthState, e: AuthEvent, r: (AuthState, AuthAction)) -> bool {
    match (s, e) {
        (AuthState::Begin { given, from_env }, AuthEvent::Start) => match given {
            Some(g) => if trimmed(g@).len() == 0 {
                fails_with(r, AuthError::EmptyToken.message_of())
            } else {
                validates_trimmed(r, g@)
            },
            None => r.0 == AuthState::CheckingStore { from_env } && r.1 is CheckStored,
        },
        (AuthState::Validating { token, detected }, AuthEvent::Validated { result }) => match result {
            Ok((identity, warnings)) => r.0 == AuthState::Storing { identity, warnings } && r.1
                == AuthAction::Store { token },
            Err(error) => if detected {
                r.0 is DetectedInvalidShown && r.1 == AuthAction::Show { page: AuthPage::DetectedInvalid { error } }
            } else {
                r.0 matches AuthState::FailedShown { error: kept } && kept@ == error@ && r.1
                    == AuthAction::Show { page: AuthPage::Failed { error } }
            },
        },
        (AuthState::Storing { identity, warnings }, AuthEvent::Stored { result }) => match result {
            Ok(()) => r.0 is StoredShown && r.1 == AuthAction::Show { page: AuthPage::Stored { identity, warnings } },
            Err(error) => fails_with(r, store_failure(error@)),
        },
        (AuthState::CheckingStore { from_env }, AuthEvent::StoreChecked { has_token }) => if has_token {
            r.0 == AuthState::AfterStoreCheck { from_env } && r.1 == AuthAction::Show { page: AuthPage::AlreadyStored }
        } else {
            after_check(from_env, r)
        },
        (AuthState::AfterStoreCheck { from_env }, AuthEvent::Shown) => after_check(from_env, r),
        (AuthState::FromEnv, AuthEvent::EnvDone { result }) => r.0 is Done && r.1 == AuthAction::Finish { result },
        (AuthState::Detecting, AuthEvent::CliFound { found }) => match found {
            Some((token, source)) => r.0 == AuthState::AskingReuse { token } && r.1 == AuthAction::AskReuse { source },
            None => r.0 is Typing && r.1 is AskToken,
        },
        (AuthState::AskingReuse { token }, AuthEvent::ReuseAnswer { answer }) => match answer {
            None => succeeds(r),
            Some(true) => r.0 matches AuthState::Validating { token: t, detected } && detected && t@ == token@
                && r.1 == AuthAction::Validate { token },
            Some(false) => r.0 is Typing && r.1 is AskToken,
        },
        (AuthState::DetectedInvalidShown, AuthEvent::Shown) => r.0 is Typing && r.1 is AskToken,
        (AuthState::Typing, AuthEvent::Typed { answer }) => match answer {
            None => succeeds(r),
            Some(t) => if trimmed(t@).len() == 0 {
                fails_with(r, AuthError::NoTokenProvided.message_of())
            } else {
                validates_trimmed(r, t@)
            },
        },
        (AuthState::FailedShown { error }, AuthEvent::Shown) => fails_with(r, error@),
        (AuthState::StoredShown, AuthEvent::Shown) => succeeds(r),
        _ => fails_with(r, out_of_order()),
    }
}

fn finish_err(msg: String) -> (r: (AuthState, AuthAction))
    ensures
        fails_with(r, msg@),
{
    (AuthState::Done, AuthAction::Finish { result: Err(msg) })
}

fn validate_trimmed(text: &str) -> (r: (AuthState, AuthAction))
    requires
        trimmed(text@).len() > 0,
    ensures
        validates_trimmed(r, text@),
{
    let t = crate::text::trim(text);
    let t2 = t.clone();
    (AuthState::Validating { token: t, detected: false }, AuthAction::Validate { token: t2 })
}

/// One step of a login: where it goes and what the caller is to do, given
/// where it stands and what came of the last action.
pub fn auth_step(s: AuthState, e: AuthEvent) -> (r: (AuthState, AuthAction))
    ensures
        auth_next(s, e, r),
{
    match (s, e) {
        (AuthState::Begin { given, from_env }, AuthEvent::Start) => match given {
            Some(g) => match direct_token(g.as_str()) {
                Ok(_) => validate_trimmed(g.as_str()),
                Err(err) => finish_err(err.message()),
            },
            None => (AuthState::CheckingStore { from_env }, AuthAction::CheckStored),
        },
        (AuthState::Validating { token, detected }, AuthEvent::Validated { result }) => match result {
            Ok((identity, warnings)) => (AuthState::Storing { identity, warnings }, AuthAction::Store { token }),
            Err(error) => if detected {
                (AuthState::DetectedInvalidShown, AuthAction::Show { page: AuthPage::DetectedInvalid { error } })
            } else {
                let kept = error.clone();
                (AuthState::FailedShown { error: kept }, AuthAction::Show { page: AuthPage::Failed { error } })
            },
        },
        (AuthState::Storing { identity, warnings }, AuthEvent::Stored { result }) => match result {
            Ok(()) => (AuthState::StoredShown, AuthAction::Show { page: AuthPage::Stored { identity, warnings } }),
            Err(error) => {
                let mut msg = owned("Token is valid but failed to store in keyring: ");
                push_str(&mut msg, error.as_str());
                finish_err(msg)
            },
        },
        (AuthState::CheckingStore { from_env }, AuthEvent::StoreChecked { has_token }) => if has_token {
            (AuthState::AfterStoreCheck { from_env }, AuthAction::Show { page: AuthPage::AlreadyStored })
        } else if from_env {
            (AuthState::FromEnv, AuthAction::FromEnv)
        } else {
            (AuthState::Detecting, AuthAction::DetectCli)
        },
        (AuthState::AfterStoreCheck { from_env }, AuthEvent::Shown) => if from_env {
            (AuthState::FromEnv, AuthAction::FromEnv)
        } else {
            (AuthState::Detecting, AuthAction::DetectCli)
        },
        (AuthState::FromEnv, AuthEvent::EnvDone { result }) => (AuthState::Done, AuthAction::Finish { result }),
        (AuthState::Detecting, AuthEvent::CliFound { found }) => match found {
            Some((token, source)) => (AuthState::AskingReuse { token }, AuthAction::AskReuse { source }),
            None => (AuthState::Typing, AuthAction::AskToken),
        },
        (AuthState::AskingReuse { token }, AuthEvent::ReuseAnswer { answer }) => match answer {
            None => (AuthState::Done, AuthAction::Finish { result: Ok(()) }),
            Some(true) => {
                let t = token.clone();
                (AuthState::Validating { token: t, detected: true }, AuthAction::Validate { token })
            },
            Some(false) => (AuthState::Typing, AuthAction::AskToken),
        },
        (AuthState::DetectedInvalidShown, AuthEvent::Shown) => (AuthState::Typing, AuthAction::AskToken),
        (AuthState::Typing, AuthEvent::Typed { answer }) => match answer {
            None => (AuthState::Done, AuthAction::Finish { result: Ok(()) }),
            Some(t) => match entered_token(t.as_str()) {
                Ok(_) => validate_trimmed(t.as_str()),
                Err(err) => finish_err(err.message()),
            },
        },
        (AuthState::FailedShown { error }, AuthEvent::Shown) => finish_err(error),
        (AuthState::StoredShown, AuthEvent::Shown) => (AuthState::Done, AuthAction::Finish { result: Ok(()) }),
        _ => finish_err(owned("authentication flow out of order")),
    }
}

/// A token is stored only right after it validated: the only step that
/// asks to store a token is the successful validation of that same token,
/// and a given or typed token is validated as its trimmed, non-empty text.
pub proof fn store_follows_validation(s: AuthState, e: AuthEvent, r: (AuthState, AuthAction))
    requires
        auth_next(s, e, r),
        (r.1 is Store),
    ensures
        (s matches AuthState::Validating { token, .. } && r.1 == (AuthAction::Store { token })),
        (e matches AuthEvent::Validated { result } && (result is Ok)),
{
}

/// Entering validation always asks to validate the very token the state
/// then holds, so a `Store` of that token follows its own validation.
pub proof fn validating_holds_the_validated_token(s: AuthState, e: AuthEvent, r: (AuthState, AuthAction))
    requires
        auth_next(s, e, r),
        (r.0 is Validating),
    ensures
        r.1 matches AuthAction::Validate { token } && token@ == r.0->Validating_token@,
{
}

/// A token given on the command line that is empty once trimmed ends the
/// login at once with "Token value cannot be empty.", and a typed one with
/// "No token provided. Authentication cancelled.".
pub proof fn empty_token_ends_with_error(s: AuthState, e: AuthEvent, r: (AuthState, AuthAction))
    requires
        auth_next(s, e, r),
        (s matches AuthState::Begin { given: Some(g), .. } && (e is Start) && trimmed(g@).len() == 0) || ((s is Typing)
            && (e matches AuthEvent::Typed { answer: Some(t) } && trimmed(t@).len() == 0)),
    ensures
        (r.0 is Done),
        r.1 matches AuthAction::Finish { result: Err(m) } && (m@ == AuthError::EmptyToken.message_of() || m@
            == AuthError::NoTokenProvided.message_of()),
{
}

} // verus!
