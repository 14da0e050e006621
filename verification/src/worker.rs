//! The decisions of the background worker: what a request needs checked
//! before any outside work, and which result each outcome of that work
//! gives. The worker loop performs the outside work (token checks with the
//! providers, the credential store, discovery, files, processes) and hands
//! each outcome to these functions.

use vstd::prelude::*;
use crate::actions::ActionResult;
use crate::config::{PulsosConfig, TuiConfig};
use crate::domain::{DiscoveredResource, PlatformKind};
use crate::repos::{active_linked, active_resources, is_active, CorrelationCandidate, MatchConfidence};
use crate::settings_flow::DiscoveryPayload;
use crate::sorting::{push_line, texts};
use crate::text::{char_count, concat, decimal, owned, parse_u64, parsed_u64, push_str, trim, trimmed};

verus! {

/// Who a token belongs to, as a provider reports it.
#[derive(Debug)]
pub struct TokenStatus {
    pub identity: String,
    pub warnings: Vec<String>,
}

/// An error result: what was being done, and what went wrong.
pub open spec fn is_error(r: ActionResult, context: Seq<char>, message: Seq<char>) -> bool {
    r matches ActionResult::Error { context: c, message: m } && c@ == context && m@ == message
}

fn error(context: String, message: String) -> (r: ActionResult)
    ensures
        is_error(r, context@, message@),
{
    ActionResult::Error { context, message }
}

/// The token to validate: the one typed, trimmed; an empty one is refused
/// before anything is sent.
pub fn token_to_validate(platform: PlatformKind, token: &str) -> (r: Result<String, ActionResult>)
    ensures
        match r {
            Ok(t) => t@ == trimmed(token@) && t@.len() > 0,
            Err(e) => trimmed(token@).len() == 0 && is_error(
                e,
                platform.name_of() + " token"@,
                "Token cannot be empty."@,
            ),
        },
{
    let t = trim(token);
    if char_count(t.as_str()) == 0 {
        Err(error(concat(platform.display_name(), " token"), owned("Token cannot be empty.")))
    } else {
        Ok(t)
    }
}

/// After validating a token to store: on success the token is stored next,
/// on failure the provider's message is the result.
pub fn after_validation(platform: PlatformKind, validation: Result<TokenStatus, String>) -> (r: Result<
    TokenStatus,
    ActionResult,
>)
    ensures
        match validation {
            Ok(s) => r == Ok::<TokenStatus, ActionResult>(s),
            Err(m) => r matches Err(e) && is_error(e, "validate "@ + platform.name_of(), m@),
        },
{
    match validation {
        Ok(s) => Ok(s),
        Err(m) => Err(error(concat("validate ", platform.display_name()), m)),
    }
}

/// The result of storing a validated token.
pub fn after_store(platform: PlatformKind, status: TokenStatus, stored: Result<(), String>) -> (r: ActionResult)
    ensures
        match stored {
            Ok(()) => r == ActionResult::TokenStored {
                platform,
                identity: status.identity,
                warnings: status.warnings,
            },
            Err(m) => is_error(r, "store "@ + platform.name_of(), m@),
        },
{
    match stored {
        Ok(()) => ActionResult::TokenStored { platform, identity: status.identity, warnings: status.warnings },
        Err(m) => error(concat("store ", platform.display_name()), m),
    }
}

/// The result of removing a stored token.
pub fn after_removal(platform: PlatformKind, removed: Result<(), String>) -> (r: ActionResult)
    ensures
        match removed {
            Ok(()) => r == ActionResult::TokenRemoved { platform },
            Err(m) => is_error(r, "remove "@ + platform.name_of(), m@),
        },
{
    match removed {
        Ok(()) => ActionResult::TokenRemoved { platform },
        Err(m) => error(concat("remove ", platform.display_name()), m),
    }
}

/// The result of re-validating a provider: without a token nothing is
/// sent; otherwise the provider's answer.
pub fn platform_check_result(platform: PlatformKind, validation: Option<Result<TokenStatus, String>>) -> (r:
    ActionResult)
    ensures
        match validation {
            None => is_error(r, "validate "@ + platform.name_of(), "No token is configured for this platform."@),
            Some(Ok(s)) => r == ActionResult::PlatformValidated {
                platform,
                identity: s.identity,
                warnings: s.warnings,
            },
            Some(Err(m)) => is_error(r, "validate "@ + platform.name_of(), m@),
        },
{
    match validation {
        None => error(
            concat("validate ", platform.display_name()),
            owned("No token is configured for this platform."),
        ),
        Some(Ok(s)) => ActionResult::PlatformValidated { platform, identity: s.identity, warnings: s.warnings },
        Some(Err(m)) => error(concat("validate ", platform.display_name()), m),
    }
}

/// What discovering one provider's resources came to.
#[derive(Debug)]
pub enum DiscoveryOutcome {
    /// No token is configured; the provider is skipped.
    NoToken,
    /// The provider's client could not be set up.
    InitFailed(String),
    /// Discovery itself failed.
    Failed(String),
    /// GitHub or Railway resources found.
    Found(Vec<DiscoveredResource>),
    /// Vercel projects found, with the repository each links to.
    FoundLinked(Vec<(DiscoveredResource, Option<String>)>),
}

/// Adds one provider's discovery to the payload: the resources found that
/// are neither archived nor disabled replace that provider's list; a
/// problem becomes a warning.
pub fn record_discovery(payload: &mut DiscoveryPayload, platform: PlatformKind, outcome: DiscoveryOutcome)
    requires
        outcome is Found ==> platform != PlatformKind::Vercel,
        outcome is FoundLinked ==> platform == PlatformKind::Vercel,
    ensures
        match outcome {
            DiscoveryOutcome::NoToken => {
                &&& texts(final(payload).warnings@) == texts(old(payload).warnings@).push(
                    platform.name_of() + " skipped: no token configured."@,
                )
                &&& final(payload).github == old(payload).github
                &&& final(payload).railway == old(payload).railway
                &&& final(payload).vercel == old(payload).vercel
            },
            DiscoveryOutcome::InitFailed(m) => {
                &&& texts(final(payload).warnings@) == texts(old(payload).warnings@).push(
                    platform.name_of() + " init failed: "@ + m@,
                )
                &&& final(payload).github == old(payload).github
                &&& final(payload).railway == old(payload).railway
                &&& final(payload).vercel == old(payload).vercel
            },
            DiscoveryOutcome::Failed(m) => {
                &&& texts(final(payload).warnings@) == texts(old(payload).warnings@).push(
                    platform.name_of() + " discovery failed: "@ + m@,
                )
                &&& final(payload).github == old(payload).github
                &&& final(payload).railway == old(payload).railway
                &&& final(payload).vercel == old(payload).vercel
            },
            DiscoveryOutcome::Found(rs) => {
                &&& final(payload).warnings == old(payload).warnings
                &&& final(payload).vercel == old(payload).vercel
                &&& if platform == PlatformKind::GitHub {
                    final(payload).github@ == rs@.filter(|x: DiscoveredResource| is_active(x))
                        && final(payload).railway == old(payload).railway
                } else {
                    final(payload).railway@ == rs@.filter(|x: DiscoveredResource| is_active(x))
                        && final(payload).github == old(payload).github
                }
            },
            DiscoveryOutcome::FoundLinked(rs) => {
                &&& final(payload).warnings == old(payload).warnings
                &&& final(payload).github == old(payload).github
                &&& final(payload).railway == old(payload).railway
                &&& final(payload).vercel@.map_values(
                    |p: (DiscoveredResource, Option<String>)| (p.0, crate::config::opt_view(p.1)),
                ) == rs@.filter(|p: (DiscoveredResource, Option<String>)| is_active(p.0)).map_values(
                    |p: (DiscoveredResource, Option<String>)| (p.0, crate::config::opt_view(p.1)),
                )
            },
        },
{
    match outcome {
        DiscoveryOutcome::NoToken => {
            push_line(&mut payload.warnings, concat(platform.display_name(), " skipped: no token configured."));
        },
        DiscoveryOutcome::InitFailed(m) => {
            let mut w = concat(platform.display_name(), " init failed: ");
            push_str(&mut w, m.as_str());
            push_line(&mut payload.warnings, w);
        },
        DiscoveryOutcome::Failed(m) => {
            let mut w = concat(platform.display_name(), " discovery failed: ");
            push_str(&mut w, m.as_str());
            push_line(&mut payload.warnings, w);
        },
        DiscoveryOutcome::Found(rs) => {
            match platform {
                PlatformKind::GitHub => {
                    payload.github = active_resources(rs);
                },
                _ => {
                    payload.railway = active_resources(rs);
                },
            }
        },
        DiscoveryOutcome::FoundLinked(rs) => {
            payload.vercel = active_linked(rs);
        },
    }
}

/// A candidate's confidence as the preview writes it.
pub open spec fn confidence_name(c: MatchConfidence) -> Seq<char> {
    match c {
        MatchConfidence::LinkedRepo => "LinkedRepo"@,
        MatchConfidence::ExactStem => "ExactStem"@,
        MatchConfidence::Unmatched => "Unmatched"@,
    }
}

/// The preview of the correlations a discovery would give: one line per
/// candidate, or a note that there are none.
pub open spec fn preview_of(cs: Seq<CorrelationCandidate>) -> Seq<Seq<char>> {
    if cs.len() == 0 {
        seq!["No correlation candidates produced from selected resources."@]
    } else {
        cs.map_values(|c: CorrelationCandidate| c.name@ + " ("@ + confidence_name(c.confidence) + ")"@)
    }
}

/// The preview of the correlations a discovery would give.
pub fn preview_lines(cs: &[CorrelationCandidate]) -> (r: Vec<String>)
    ensures
        texts(r@) == preview_of(cs@),
{
    let mut lines: Vec<String> = Vec::new();
    if cs.len() == 0 {
        push_line(&mut lines, owned("No correlation candidates produced from selected resources."));
        assert(texts(lines@) =~= preview_of(cs@));
        return lines;
    }
    let mut i: usize = 0;
    while i < cs.len()
        invariant
            i <= cs@.len(),
            texts(lines@) == cs@.take(i as int).map_values(
                |c: CorrelationCandidate| c.name@ + " ("@ + confidence_name(c.confidence) + ")"@,
            ),
        decreases cs@.len() - i,
    {
        let c = &cs[i];
        let mut line = concat(c.name.as_str(), " (");
        let name = match c.confidence {
            MatchConfidence::LinkedRepo => "LinkedRepo",
            MatchConfidence::ExactStem => "ExactStem",
            MatchConfidence::Unmatched => "Unmatched",
        };
        push_str(&mut line, name);
        push_str(&mut line, ")");
        push_line(&mut lines, line);
        assert(cs@.take(i + 1).map_values(
            |c: CorrelationCandidate| c.name@ + " ("@ + confidence_name(c.confidence) + ")"@,
        ) =~= cs@.take(i as int).map_values(
            |c: CorrelationCandidate| c.name@ + " ("@ + confidence_name(c.confidence) + ")"@,
        ).push(cs@[i as int].name@ + " ("@ + confidence_name(cs@[i as int].confidence) + ")"@));
        i = i + 1;
    }
    assert(cs@.take(cs@.len() as int) =~= cs@);
    lines
}

/// Applying correlations needs at least one candidate.
pub fn check_candidates(count: usize) -> (r: Option<ActionResult>)
    ensures
        count == 0 ==> (r matches Some(e) && is_error(e, "apply correlations"@, "No correlation candidates to save."@)),
        count > 0 ==> r is None,
{
    if count == 0 {
        Some(error(owned("apply correlations"), owned("No correlation candidates to save.")))
    } else {
        None
    }
}

/// The result of saving merged correlations.
pub fn applied_result(added: usize, updated: usize, merged: PulsosConfig, saved: Result<(), String>) -> (r:
    ActionResult)
    ensures
        match saved {
            Ok(()) => r matches ActionResult::CorrelationsApplied { added: a, updated: u, total: t, config: c } && a
                == added && u == updated && t == merged.correlations@.len() && *c == merged,
            Err(m) => is_error(r, "save config"@, m@),
        },
{
    match saved {
        Ok(()) => {
            let total = merged.correlations.len();
            ActionResult::CorrelationsApplied { added, updated, total, config: Box::new(merged) }
        },
        Err(m) => error(owned("save config"), m),
    }
}

/// The configuration with new dashboard settings.
pub fn with_tui(config: PulsosConfig, tui: TuiConfig) -> (r: PulsosConfig)
    ensures
        r.correlations == config.correlations,
        r.views == config.views,
        r.groups == config.groups,
        r.tui == tui,
{
    let mut c = config;
    c.tui = tui;
    c
}

/// The result of saving the dashboard settings.
pub fn tui_saved_result(saved: Result<(), String>) -> (r: ActionResult)
    ensures
        match saved {
            Ok(()) => r is TuiConfigSaved,
            Err(m) => is_error(r, "save config"@, m@),
        },
{
    match saved {
        Ok(()) => ActionResult::TuiConfigSaved,
        Err(m) => error(owned("save config"), m),
    }
}

/// The process id a pid file holds: its trimmed text as a `u32`.
pub open spec fn pid_in(text: Seq<char>) -> Option<u32> {
    match parsed_u64(trimmed(text)) {
        Some(v) => if v <= u32::MAX {
            Some(v as u32)
        } else {
            None
        },
        None => None,
    }
}

/// The process id a pid file holds.
pub fn parse_pid(text: &str) -> (r: Option<u32>)
    ensures
        r == pid_in(text@),
{
    let t = trim(text);
    match parse_u64(t.as_str()) {
        Some(v) => if v <= 0xffff_ffff {
            Some(v as u32)
        } else {
            None
        },
        None => None,
    }
}

/// The result of starting the background service: nothing is spawned when
/// one runs already.
pub fn start_result(already_running: bool, spawned: Option<Result<(), String>>) -> (r: ActionResult)
    requires
        already_running <==> spawned is None,
    ensures
        already_running ==> r is DaemonAlreadyRunning,
        spawned matches Some(Ok(())) ==> r is DaemonStarted,
        spawned matches Some(Err(m)) ==> is_error(r, "start daemon"@, m@),
{
    match spawned {
        None => ActionResult::DaemonAlreadyRunning,
        Some(Ok(())) => ActionResult::DaemonStarted,
        Some(Err(m)) => error(owned("start daemon"), m),
    }
}

/// What stopping the background service does once its pid is known:
/// a pid that is not the service's is forgotten; otherwise the service is
/// asked to stop.
pub enum StopStep {
    /// No pid file, or no pid in it.
    NotRunning,
    /// The pid belongs to another process: remove the stale pid file.
    ForgetStalePid,
    /// Send the termination signal to this pid.
    Terminate(u32),
}

pub fn stop_step(pid: Option<u32>, is_ours: bool) -> (r: StopStep)
    ensures
        pid is None ==> r is NotRunning,
        pid is Some && !is_ours ==> r is ForgetStalePid,
        pid is Some && is_ours ==> r == StopStep::Terminate(pid.unwrap()),
{
    match pid {
        None => StopStep::NotRunning,
        Some(p) => if is_ours {
            StopStep::Terminate(p)
        } else {
            StopStep::ForgetStalePid
        },
    }
}

/// The result of the termination signal: stopped when it was delivered.
pub fn stop_result(signalled: bool) -> (r: ActionResult)
    ensures
        signalled ==> r is DaemonStopped,
        !signalled ==> r is DaemonNotRunning,
{
    if signalled {
        ActionResult::DaemonStopped
    } else {
        ActionResult::DaemonNotRunning
    }
}

} // verus!
