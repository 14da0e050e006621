//! Requests the dashboard hands to its background worker, and the results
//! the worker sends back.

use vstd::prelude::*;
use crate::config::{PulsosConfig, TuiConfig};
use crate::domain::PlatformKind;
use crate::settings_flow::DiscoveryPayload;
use crate::text::{owned, push_str};

verus! {

/// Work the settings tab asks the background worker to do.
pub enum ActionRequest {
    ValidateAndStoreToken { platform: PlatformKind, token: String },
    RemoveToken { platform: PlatformKind },
    ValidatePlatform { platform: PlatformKind },
    Discover { platforms: Vec<PlatformKind> },
    BuildCorrelationPreview { discovery: DiscoveryPayload },
    ApplyCorrelations { discovery: DiscoveryPayload },
    StartDaemon,
    StopDaemon,
    SaveTuiConfig { tui: Box<TuiConfig> },
}

/// What the background worker reports back.
#[derive(Debug)]
pub enum ActionResult {
    TokenStored { platform: PlatformKind, identity: String, warnings: Vec<String> },
    TokenRemoved { platform: PlatformKind },
    PlatformValidated { platform: PlatformKind, identity: String, warnings: Vec<String> },
    DiscoveryCompleted { payload: DiscoveryPayload },
    CorrelationPreview { lines: Vec<String> },
    CorrelationsApplied { added: usize, updated: usize, total: usize, config: Box<PulsosConfig> },
    Error { context: String, message: String },
    DaemonStarted,
    DaemonStopped,
    DaemonAlreadyRunning,
    DaemonNotRunning,
    TuiConfigSaved,
}

/// Provider names separated by ", ".
pub open spec fn names_joined(ps: Seq<PlatformKind>) -> Seq<char>
    decreases ps.len(),
{
    if ps.len() == 0 {
        Seq::empty()
    } else if ps.len() == 1 {
        ps[0].name_of()
    } else {
        names_joined(ps.drop_last()) + ", "@ + ps.last().name_of()
    }
}

/// The debugging text of a request; a token is never shown.
pub open spec fn request_text(r: ActionRequest) -> Seq<char> {
    match r {
        ActionRequest::ValidateAndStoreToken { platform, .. } =>
            "ValidateAndStoreToken { platform: "@ + platform.name_of() + ", token: \"[REDACTED]\" }"@,
        ActionRequest::RemoveToken { platform } => "RemoveToken { platform: "@ + platform.name_of() + " }"@,
        ActionRequest::ValidatePlatform { platform } =>
            "ValidatePlatform { platform: "@ + platform.name_of() + " }"@,
        ActionRequest::Discover { platforms } =>
            "Discover { platforms: ["@ + names_joined(platforms@) + "] }"@,
        ActionRequest::BuildCorrelationPreview { .. } => "BuildCorrelationPreview { .. }"@,
        ActionRequest::ApplyCorrelations { .. } => "ApplyCorrelations { .. }"@,
        ActionRequest::StartDaemon => "StartDaemon"@,
        ActionRequest::StopDaemon => "StopDaemon"@,
        ActionRequest::SaveTuiConfig { .. } => "SaveTuiConfig { .. }"@,
    }
}

fn push_names(out: &mut String, ps: &Vec<PlatformKind>)
    ensures
        final(out)@ == old(out)@ + names_joined(ps@),
{
    let ghost start = out@;
    let mut i: usize = 0;
    while i < ps.len()
        invariant
            i <= ps@.len(),
            out@ == start + names_joined(ps@.take(i as int)),
        decreases ps@.len() - i,
    {
        if i > 0 {
            push_str(out, ", ");
        }
        push_str(out, ps[i].display_name());
        i = i + 1;
        proof {
            assert(ps@.take(i as int).drop_last() =~= ps@.take((i - 1) as int));
            if i == 1 {
                assert(names_joined(ps@.take(0)) =~= Seq::<char>::empty());
            }
        }
    }
    assert(ps@.take(i as int) =~= ps@);
}

impl ActionRequest {
    /// The request as debugging text, with the token withheld.
    pub fn describe(&self) -> (r: String)
        ensures
            r@ == request_text(*self),
    {
        match self {
            ActionRequest::ValidateAndStoreToken { platform, .. } => {
                let mut out = owned("ValidateAndStoreToken { platform: ");
                push_str(&mut out, platform.display_name());
                push_str(&mut out, ", token: \"[REDACTED]\" }");
                out
            },
            ActionRequest::RemoveToken { platform } => {
                let mut out = owned("RemoveToken { platform: ");
                push_str(&mut out, platform.display_name());
                push_str(&mut out, " }");
                out
            },
            ActionRequest::ValidatePlatform { platform } => {
                let mut out = owned("ValidatePlatform { platform: ");
                push_str(&mut out, platform.display_name());
                push_str(&mut out, " }");
                out
            },
            ActionRequest::Discover { platforms } => {
                let mut out = owned("Discover { platforms: [");
                push_names(&mut out, platforms);
                push_str(&mut out, "] }");
                out
            },
            ActionRequest::BuildCorrelationPreview { .. } => owned("BuildCorrelationPreview { .. }"),
            ActionRequest::ApplyCorrelations { .. } => owned("ApplyCorrelations { .. }"),
            ActionRequest::StartDaemon => owned("StartDaemon"),
            ActionRequest::StopDaemon => owned("StopDaemon"),
            ActionRequest::SaveTuiConfig { .. } => owned("SaveTuiConfig { .. }"),
        }
    }
}

} // verus!
