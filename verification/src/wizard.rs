//! The decisions of the setup wizard: whether setup is needed, which
//! providers count as in use, the wizard's progress, and the pages it shows
//! around each login.

use vstd::prelude::*;
use crate::config::{opt_view, CorrelationConfig, PulsosConfig};
use crate::domain::{PlatformHealthReport, PlatformHealthState, PlatformKind};
use crate::screen::{views, ScreenSeverity, ScreenSpec};
use crate::sorting::{push_line, texts};
use crate::text::{concat, owned};

verus! {

/// A provider is in use when its section names something to discover or
/// some correlation names a resource on it.
pub open spec fn enabled(c: PulsosConfig, p: PlatformKind) -> bool {
    match p {
        PlatformKind::GitHub => c.github.organizations@.len() > 0 || exists|i: int|
            0 <= i < c.correlations@.len() && (#[trigger] c.correlations@[i]).github_repo is Some,
        PlatformKind::Railway => c.railway.workspaces@.len() > 0 || exists|i: int|
            0 <= i < c.correlations@.len() && (#[trigger] c.correlations@[i]).railway_project is Some,
        PlatformKind::Vercel => c.vercel.teams@.len() > 0 || exists|i: int|
            0 <= i < c.correlations@.len() && (#[trigger] c.correlations@[i]).vercel_project is Some,
    }
}

fn names_resource_on(c: &CorrelationConfig, p: PlatformKind) -> (r: bool)
    ensures
        r == match p {
            PlatformKind::GitHub => c.github_repo is Some,
            PlatformKind::Railway => c.railway_project is Some,
            PlatformKind::Vercel => c.vercel_project is Some,
        },
{
    match p {
        PlatformKind::GitHub => c.github_repo.is_some(),
        PlatformKind::Railway => c.railway_project.is_some(),
        PlatformKind::Vercel => c.vercel_project.is_some(),
    }
}

/// Whether the provider is in use by the configuration.
pub fn platform_is_enabled(config: &PulsosConfig, p: PlatformKind) -> (r: bool)
    ensures
        r == enabled(*config, p),
{
    let section_set = match p {
        PlatformKind::GitHub => config.github.organizations.len() > 0,
        PlatformKind::Railway => config.railway.workspaces.len() > 0,
        PlatformKind::Vercel => config.vercel.teams.len() > 0,
    };
    if section_set {
        return true;
    }
    let mut i: usize = 0;
    while i < config.correlations.len()
        invariant
            i <= config.correlations@.len(),
            forall|j: int|
                0 <= j < i ==> !(match p {
                    PlatformKind::GitHub => (#[trigger] config.correlations@[j]).github_repo is Some,
                    PlatformKind::Railway => config.correlations@[j].railway_project is Some,
                    PlatformKind::Vercel => config.correlations@[j].vercel_project is Some,
                }),
        decreases config.correlations@.len() - i,
    {
        if names_resource_on(&config.correlations[i], p) {
            return true;
        }
        i = i + 1;
    }
    false
}

/// Setup is needed when a provider in use has no token or an invalid one.
pub open spec fn setup_needed(c: PulsosConfig, reports: Seq<PlatformHealthReport>) -> bool {
    exists|i: int|
        0 <= i < reports.len() && enabled(c, (#[trigger] reports[i]).platform) && (reports[i].state
            == PlatformHealthState::NoToken || reports[i].state == PlatformHealthState::InvalidToken)
}

/// Whether to offer the setup wizard, from the readiness reports.
pub fn needs_wizard_prompt(config: &PulsosConfig, reports: &[PlatformHealthReport]) -> (r: bool)
    ensures
        r == setup_needed(*config, reports@),
{
    let mut i: usize = 0;
    while i < reports.len()
        invariant
            i <= reports@.len(),
            forall|j: int|
                0 <= j < i ==> !(enabled(*config, (#[trigger] reports@[j]).platform) && (reports@[j].state
                    == PlatformHealthState::NoToken || reports@[j].state == PlatformHealthState::InvalidToken)),
        decreases reports@.len() - i,
    {
        let r = &reports[i];
        let missing = match r.state {
            PlatformHealthState::NoToken => true,
            PlatformHealthState::InvalidToken => true,
            _ => false,
        };
        if missing && platform_is_enabled(config, r.platform) {
            return true;
        }
        i = i + 1;
    }
    false
}

/// The steps of the wizard.
#[derive(Debug, Clone, Copy, PartialEq, Eq, Structural)]
pub enum WizardStep {
    SelectPlatforms,
    Authenticate,
    DiscoverAndTrack,
    Recheck,
}

/// Where the wizard is: the step under way and the steps done, each once.
#[derive(Debug)]
pub struct WizardProgress {
    pub current: Option<WizardStep>,
    pub completed: Vec<WizardStep>,
}

impl WizardProgress {
    /// No step started or done.
    pub fn new() -> (r: Self)
        ensures
            r.current is None,
            r.completed@.len() == 0,
    {
        WizardProgress { current: None, completed: Vec::new() }
    }

    /// Starts a step.
    pub fn start(&mut self, step: WizardStep)
        ensures
            final(self).current == Some(step),
            final(self).completed@ == old(self).completed@,
    {
        self.current = Some(step);
    }

    /// Ends the step under way, recording it as done unless it was already.
    pub fn finish(&mut self)
        ensures
            final(self).current is None,
            match old(self).current {
                None => final(self).completed@ == old(self).completed@,
                Some(s) => if old(self).completed@.contains(s) {
                    final(self).completed@ == old(self).completed@
                } else {
                    final(self).completed@ == old(self).completed@.push(s)
                },
            },
    {
        let current = self.current;
        self.current = None;
        match current {
            None => {},
            Some(step) => {
                let mut i: usize = 0;
                while i < self.completed.len() && self.completed[i] != step
                    invariant
                        i <= self.completed@.len(),
                        forall|j: int| 0 <= j < i ==> self.completed@[j] != step,
                    decreases self.completed@.len() - i,
                {
                    i = i + 1;
                }
                if i == self.completed.len() {
                    self.completed.push(step);
                } else {
                    assert(self.completed@.contains(step)) by {
                        assert(self.completed@[i as int] == step);
                    }
                }
            },
        }
    }
}

/// Every step is recorded as done at most once, whatever the order of
/// starts and finishes: finishing keeps a list without repeats free of them.
pub proof fn finished_steps_never_repeat(before: Seq<WizardStep>, after: Seq<WizardStep>, current: Option<WizardStep>)
    requires
        before.no_duplicates(),
        match current {
            None => after == before,
            Some(s) => if before.contains(s) {
                after == before
            } else {
                after == before.push(s)
            },
        },
    ensures
        after.no_duplicates(),
{
    match current {
        None => {},
        Some(s) => {
            if !before.contains(s) {
                assert forall|i: int, j: int| 0 <= i < j < after.len() implies after[i] != after[j] by {
                    if j == before.len() {
                        assert(after[i] == before[i]);
                    }
                }
            }
        },
    }
}

/// The providers chosen by their positions in the fixed provider order.
pub fn chosen_kinds(selected: &[usize]) -> (r: Vec<PlatformKind>)
    requires
        forall|k: int| 0 <= k < selected@.len() ==> #[trigger] selected@[k] < 3,
    ensures
        r@ == selected@.map_values(|i: usize| PlatformKind::spec_at(i as int)),
{
    let mut out: Vec<PlatformKind> = Vec::new();
    let mut k: usize = 0;
    while k < selected.len()
        invariant
            k <= selected@.len(),
            forall|j: int| 0 <= j < selected@.len() ==> #[trigger] selected@[j] < 3,
            out@ == selected@.take(k as int).map_values(|i: usize| PlatformKind::spec_at(i as int)),
        decreases selected@.len() - k,
    {
        out.push(PlatformKind::at(selected[k]));
        assert(selected@.take(k + 1).map_values(|i: usize| PlatformKind::spec_at(i as int)) =~= selected@.take(
            k as int,
        ).map_values(|i: usize| PlatformKind::spec_at(i as int)).push(PlatformKind::spec_at(selected@[k as int] as int)));
        k = k + 1;
    }
    assert(selected@.take(selected@.len() as int) =~= selected@);
    out
}

/// The step number shown while logging in to the `i`-th chosen provider of
/// `total`: counted from one, out of at least one.
pub fn auth_step(i: usize, total: usize) -> (r: (usize, usize))
    requires
        i < usize::MAX,
    ensures
        r.0 == i + 1,
        r.1 == if total >= 1 {
            total
        } else {
            1
        },
{
    (i + 1, if total >= 1 { total } else { 1 })
}

/// The page offering to retry a failed login.
pub fn retry_page(p: PlatformKind, step: (usize, usize), error: &str) -> (r: ScreenSpec)
    ensures
        r.title@ == p.name_of(),
        r.subtitle matches Some(s) && s@ == "Authentication"@,
        r.step_index == Some(step.0),
        r.step_total == Some(step.1),
        views(r.body_lines@) == seq!["Auth failed: "@ + error@],
        views(r.hints@) == seq!["Retry this platform?"@],
        r.severity == ScreenSeverity::Error,
{
    let mut body: Vec<String> = Vec::new();
    push_line(&mut body, concat("Auth failed: ", error));
    let mut hints: Vec<String> = Vec::new();
    push_line(&mut hints, owned("Retry this platform?"));
    let r = ScreenSpec {
        title: owned(p.display_name()),
        subtitle: Some(owned("Authentication")),
        step_index: Some(step.0),
        step_total: Some(step.1),
        body_lines: body,
        hints,
        severity: ScreenSeverity::Error,
    };
    assert(views(r.body_lines@) =~= texts(r.body_lines@));
    assert(views(r.hints@) =~= texts(r.hints@));
    r
}


/// The state a provider is shown in: that of its first report, no token
/// when there is none.
pub open spec fn state_for(reports: Seq<PlatformHealthReport>, p: PlatformKind) -> PlatformHealthState
    decreases reports.len(),
{
    if reports.len() == 0 {
        PlatformHealthState::NoToken
    } else if reports[0].platform == p {
        reports[0].state
    } else {
        state_for(reports.skip(1), p)
    }
}

/// The state a provider is shown in.
pub fn provider_state(reports: &[PlatformHealthReport], p: PlatformKind) -> (r: PlatformHealthState)
    ensures
        r == state_for(reports@, p),
{
    let mut i: usize = 0;
    assert(reports@.skip(0) =~= reports@);
    while i < reports.len()
        invariant
            i <= reports@.len(),
            state_for(reports@, p) == state_for(reports@.skip(i as int), p),
        decreases reports@.len() - i,
    {
        assert(reports@.skip(i as int)[0] == reports@[i as int]);
        if reports[i].platform == p {
            return reports[i].state;
        }
        assert(reports@.skip(i as int).skip(1) =~= reports@.skip(i + 1));
        i = i + 1;
    }
    PlatformHealthState::NoToken
}

/// How a provider is offered in the wizard: name, then its state's mark
/// and words.
pub open spec fn platform_item(p: PlatformKind, s: PlatformHealthState) -> Seq<char> {
    p.name_of() + " ["@ + s.icon_of() + " "@ + s.label_of() + "]"@
}

/// The providers offered by the wizard, in their fixed order.
pub fn platform_items(reports: &[PlatformHealthReport]) -> (r: Vec<String>)
    ensures
        texts(r@) == Seq::new(3, |i: int| platform_item(PlatformKind::spec_at(i), state_for(reports@, PlatformKind::spec_at(i)))),
{
    let mut out: Vec<String> = Vec::new();
    let mut i: usize = 0;
    while i < 3
        invariant
            i <= 3,
            texts(out@) == Seq::new(
                3,
                |k: int| platform_item(PlatformKind::spec_at(k), state_for(reports@, PlatformKind::spec_at(k))),
            ).take(i as int),
        decreases 3 - i,
    {
        let p = PlatformKind::at(i);
        let s = provider_state(reports, p);
        let mut item = owned(p.display_name());
        crate::text::push_str(&mut item, " [");
        crate::text::push_str(&mut item, s.icon());
        crate::text::push_str(&mut item, " ");
        crate::text::push_str(&mut item, s.label());
        crate::text::push_str(&mut item, "]");
        push_line(&mut out, item);
        assert(Seq::new(
            3,
            |k: int| platform_item(PlatformKind::spec_at(k), state_for(reports@, PlatformKind::spec_at(k))),
        ).take(i + 1) =~= Seq::new(
            3,
            |k: int| platform_item(PlatformKind::spec_at(k), state_for(reports@, PlatformKind::spec_at(k))),
        ).take(i as int).push(platform_item(p, s)));
        i = i + 1;
    }
    assert(Seq::new(
        3,
        |k: int| platform_item(PlatformKind::spec_at(k), state_for(reports@, PlatformKind::spec_at(k))),
    ).take(3) =~= Seq::new(
        3,
        |k: int| platform_item(PlatformKind::spec_at(k), state_for(reports@, PlatformKind::spec_at(k))),
    ));
    out
}

/// The short provider codes of the header.
pub open spec fn short_name(p: PlatformKind) -> Seq<char> {
    match p {
        PlatformKind::GitHub => "GH"@,
        PlatformKind::Railway => "RW"@,
        PlatformKind::Vercel => "VC"@,
    }
}

/// The readiness marks of the header: each provider's code and state mark.
pub fn readiness_badges(reports: &[PlatformHealthReport]) -> (r: Vec<String>)
    ensures
        texts(r@) == Seq::new(
            3,
            |i: int| short_name(PlatformKind::spec_at(i)) + state_for(reports@, PlatformKind::spec_at(i)).icon_of(),
        ),
{
    let mut out: Vec<String> = Vec::new();
    let mut i: usize = 0;
    while i < 3
        invariant
            i <= 3,
            texts(out@) == Seq::new(
                3,
                |k: int| short_name(PlatformKind::spec_at(k)) + state_for(reports@, PlatformKind::spec_at(k)).icon_of(),
            ).take(i as int),
        decreases 3 - i,
    {
        let p = PlatformKind::at(i);
        let code = match p {
            PlatformKind::GitHub => "GH",
            PlatformKind::Railway => "RW",
            PlatformKind::Vercel => "VC",
        };
        push_line(&mut out, concat(code, provider_state(reports, p).icon()));
        assert(Seq::new(
            3,
            |k: int| short_name(PlatformKind::spec_at(k)) + state_for(reports@, PlatformKind::spec_at(k)).icon_of(),
        ).take(i + 1) =~= Seq::new(
            3,
            |k: int| short_name(PlatformKind::spec_at(k)) + state_for(reports@, PlatformKind::spec_at(k)).icon_of(),
        ).take(i as int).push(short_name(p) + state_for(reports@, p).icon_of()));
        i = i + 1;
    }
    assert(Seq::new(
        3,
        |k: int| short_name(PlatformKind::spec_at(k)) + state_for(reports@, PlatformKind::spec_at(k)).icon_of(),
    ).take(3) =~= Seq::new(
        3,
        |k: int| short_name(PlatformKind::spec_at(k)) + state_for(reports@, PlatformKind::spec_at(k)).icon_of(),
    ));
    out
}

/// One line of the readiness summary.
pub open spec fn summary_line(r: PlatformHealthReport) -> Seq<char> {
    r.state.icon_of() + " "@ + crate::text::pad_right(r.platform.name_of(), 8) + " "@ + crate::text::pad_right(
        r.state.label_of(),
        16,
    ) + " "@ + r.reason@
}

/// The readiness summary at the end of the wizard.
pub open spec fn readiness_summary(reports: Seq<PlatformHealthReport>, skipped: bool) -> Seq<Seq<char>> {
    seq!["Platform readiness summary"@, crate::text::repeat("─"@, 50)] + if skipped {
        seq!["Discovery skipped: no platform tokens are configured."@, Seq::empty()]
    } else {
        Seq::empty()
    } + reports.map_values(|r: PlatformHealthReport| summary_line(r))
}

/// The readiness summary at the end of the wizard, one line per entry.
pub fn readiness_summary_lines(reports: &[PlatformHealthReport], discovery_skipped: bool) -> (r: Vec<String>)
    ensures
        texts(r@) == readiness_summary(reports@, discovery_skipped),
{
    let mut out: Vec<String> = Vec::new();
    push_line(&mut out, owned("Platform readiness summary"));
    let mut rule = String::new();
    crate::text::push_repeat(&mut rule, "─", 50);
    push_line(&mut out, rule);
    if discovery_skipped {
        push_line(&mut out, owned("Discovery skipped: no platform tokens are configured."));
        push_line(&mut out, String::new());
    }
    let ghost head = texts(out@);
    let mut i: usize = 0;
    while i < reports.len()
        invariant
            i <= reports@.len(),
            texts(out@) == head + reports@.take(i as int).map_values(|r: PlatformHealthReport| summary_line(r)),
        decreases reports@.len() - i,
    {
        let r = &reports[i];
        let mut line = owned(r.state.icon());
        crate::text::push_str(&mut line, " ");
        let name = crate::text::padded_right(r.platform.display_name(), 8);
        crate::text::push_str(&mut line, name.as_str());
        crate::text::push_str(&mut line, " ");
        let label = crate::text::padded_right(r.state.label(), 16);
        crate::text::push_str(&mut line, label.as_str());
        crate::text::push_str(&mut line, " ");
        crate::text::push_str(&mut line, r.reason.as_str());
        push_line(&mut out, line);
        assert(reports@.take(i + 1).map_values(|r: PlatformHealthReport| summary_line(r)) =~= reports@.take(
            i as int,
        ).map_values(|r: PlatformHealthReport| summary_line(r)).push(summary_line(reports@[i as int])));
        i = i + 1;
    }
    assert(reports@.take(reports@.len() as int) =~= reports@);
    assert(texts(out@) =~= readiness_summary(reports@, discovery_skipped));
    out
}

} // verus!
