//! The details pane of the settings tab: the selected provider's report,
//! the actions offered, the step of the onboarding under way, and the
//! provider's account statistics.

use vstd::prelude::*;
use crate::app::{join_strings, lemma_joined_texts, App};
use crate::config::opt_view;
use crate::doctor::joined_texts;
use crate::domain::{PlatformHealthDetails, PlatformHealthReport, PlatformKind};
use crate::repos::or_text;
use crate::settings_flow::{OnboardingState, SelectableResource, SelectableVercelResource};
use crate::sorting::{push_line, texts};
use crate::tabs::SettingsFlowState;
use crate::text::{char_count, concat, decimal, owned, push_decimal, push_repeat, push_str, repeat, truncate, truncate_chars};

verus! {

/// `yes` when `b`, a space otherwise.
pub open spec fn mark(b: bool, yes: Seq<char>) -> Seq<char> {
    if b {
        yes
    } else {
        " "@
    }
}

/// The report part of the pane: provider, token source, reason, next
/// action, the actions offered, and the last result.
pub open spec fn detail_head(r: PlatformHealthReport, env_warning: bool, message: Option<Seq<char>>) -> Seq<Seq<char>> {
    seq![
        "Provider"@,
        "  "@ + r.platform.name_of() + " ("@ + r.state.icon_of() + " "@ + r.state.label_of() + ")"@,
        "Token Source"@,
        "  "@ + or_text(opt_view(r.token_source), "none"@),
        "Reason"@,
        "  "@ + r.reason@,
        "Next Action"@,
        "  "@ + r.next_action@,
        Seq::empty(),
        "Actions"@,
        "  t set/replace token   v validate"@,
        "  x remove token        o onboard"@,
        "  Enter select providers"@,
    ] + if env_warning {
        seq!["  env token is read-only; press T to store override"@]
    } else {
        Seq::empty()
    } + seq![Seq::empty(), "Result"@, "  "@ + or_text(message, "(none)"@)]
}

/// One provider of the onboarding list.
pub open spec fn provider_line(idx: int, cursor: usize, selected: Seq<bool>) -> Seq<char> {
    " "@ + mark(idx == cursor, ">"@) + " ["@ + mark(0 <= idx < selected.len() && selected[idx], "x"@) + "] "@
        + PlatformKind::spec_at(idx).name_of()
}

/// One discovered resource of the onboarding list, at its position among
/// all providers' resources.
pub open spec fn resource_line(flat: int, cursor: usize, prefix: Seq<char>, display: Seq<char>, selected: bool) -> Seq<
    char,
> {
    " "@ + mark(flat == cursor, ">"@) + " ["@ + mark(selected, "x"@) + "] "@ + prefix + " "@ + truncate_chars(
        display,
        80,
    )
}

pub open spec fn plain_lines(items: Seq<SelectableResource>, base: int, cursor: usize, prefix: Seq<char>) -> Seq<
    Seq<char>,
> {
    Seq::new(
        items.len(),
        |i: int| resource_line(base + i, cursor, prefix, items[i].resource.display_name@, items[i].selected),
    )
}

/// How a Vercel project is listed: with the repository it links to.
pub open spec fn vercel_display(v: SelectableVercelResource) -> Seq<char> {
    match opt_view(v.linked_repo) {
        Some(l) => v.resource.display_name@ + " -> "@ + l,
        None => v.resource.display_name@,
    }
}

pub open spec fn vercel_lines(items: Seq<SelectableVercelResource>, base: int, cursor: usize) -> Seq<Seq<char>> {
    Seq::new(items.len(), |i: int| resource_line(base + i, cursor, "VC"@, vercel_display(items[i]), items[i].selected))
}

/// The resources offered for tracking, GitHub then Railway then Vercel.
pub open spec fn resource_section(o: OnboardingState) -> Seq<Seq<char>> {
    let g = o.github@.len() as int;
    let r = o.railway@.len() as int;
    plain_lines(o.github@, 0, o.resource_cursor, "GH"@) + plain_lines(o.railway@, g, o.resource_cursor, "RW"@)
        + vercel_lines(o.vercel@, g + r, o.resource_cursor) + if g + r + o.vercel@.len() == 0 {
        seq!["  (no resources found)"@]
    } else {
        Seq::empty()
    }
}

/// The part of the pane for the onboarding step under way.
pub open spec fn flow_section(a: App) -> Seq<Seq<char>> {
    match a.settings_flow {
        SettingsFlowState::TokenEntry => seq![
            Seq::empty(),
            "Token Input"@,
            "  "@ + repeat(
                "•"@,
                if a.token_input@.len() <= 64 {
                    a.token_input@.len()
                } else {
                    64
                },
            ),
            "  enter token, Enter to validate+save"@,
            "  Esc to cancel"@,
        ],
        SettingsFlowState::ValidatingToken => seq![Seq::empty(), "validating token..."@],
        SettingsFlowState::ProviderActions => seq![Seq::empty(), "Onboard: Select providers"@] + Seq::new(
            3,
            |i: int| provider_line(i, a.onboarding.platform_cursor, a.onboarding.platform_selected@),
        ) + seq!["  Space toggle  Enter discover  Esc cancel"@],
        SettingsFlowState::DiscoveryScanning => seq![Seq::empty(), "discovering resources..."@],
        SettingsFlowState::ResourceSelection => seq![Seq::empty(), "Onboard: Select resources"@] + resource_section(
            a.onboarding,
        ) + seq!["  Space toggle  Enter preview  Esc cancel"@],
        SettingsFlowState::CorrelationReview => seq![Seq::empty(), "Correlation Preview"@] + texts(
            a.onboarding.correlation_preview@,
        ).take(
            if a.onboarding.correlation_preview@.len() <= 16 {
                a.onboarding.correlation_preview@.len() as int
            } else {
                16
            },
        ).map_values(|l: Seq<char>| "  - "@ + l) + seq!["  Enter apply  Esc back"@],
        SettingsFlowState::Applying => seq![Seq::empty(), "Applying changes..."@],
        _ => Seq::empty(),
    }
}

/// The account statistics of a report.
pub open spec fn stats_text(d: PlatformHealthDetails) -> Seq<char> {
    match d {
        PlatformHealthDetails::GitHub {
            identity,
            accessible_repos,
            configured_repo_checks,
            accessible_orgs,
            configured_org_checks,
        } => "identity="@ + or_text(opt_view(identity), "unknown"@) + "  repos "@ + decimal(accessible_repos as nat) + "/"@
            + decimal(configured_repo_checks as nat) + " accessible  orgs "@ + decimal(accessible_orgs as nat) + "/"@
            + decimal(configured_org_checks as nat) + " accessible"@,
        PlatformHealthDetails::Railway {
            identity,
            accessible_workspaces,
            configured_workspace_checks,
            accessible_projects,
            configured_project_checks,
        } => "identity="@ + or_text(opt_view(identity), "unknown"@) + "  workspaces "@ + decimal(
            accessible_workspaces as nat,
        ) + "/"@ + decimal(configured_workspace_checks as nat) + " accessible  projects "@ + decimal(
            accessible_projects as nat,
        ) + "/"@ + decimal(configured_project_checks as nat) + " accessible"@,
        PlatformHealthDetails::Vercel {
            identity,
            accessible_teams,
            configured_team_checks,
            accessible_projects,
            configured_project_checks,
        } => "identity="@ + or_text(opt_view(identity), "unknown"@) + "  teams "@ + decimal(accessible_teams as nat) + "/"@
            + decimal(configured_team_checks as nat) + " accessible  projects "@ + decimal(accessible_projects as nat)
            + "/"@ + decimal(configured_project_checks as nat) + " accessible"@,
        PlatformHealthDetails::Unknown => "no provider-specific details"@,
    }
}

/// Every line of the pane.
pub open spec fn detail_lines(r: PlatformHealthReport, a: App) -> Seq<Seq<char>> {
    detail_head(r, a.spec_token_from_env(), opt_view(a.settings_message)) + flow_section(a) + seq![
        Seq::empty(),
        "Provider Stats"@,
        "  "@ + stats_text(r.details),
    ]
}

fn push_or_text(out: &mut String, o: &Option<String>, default: &str)
    ensures
        final(out)@ == old(out)@ + or_text(opt_view(*o), default@),
{
    match o {
        Some(v) => push_str(out, v.as_str()),
        None => push_str(out, default),
    }
}

fn push_head(lines: &mut Vec<String>, r: &PlatformHealthReport, env_warning: bool, message: &Option<String>)
    ensures
        texts(final(lines)@) == texts(old(lines)@) + detail_head(*r, env_warning, opt_view(*message)),
{
    let ghost start = texts(lines@);
    push_line(lines, owned("Provider"));
    let mut p = concat("  ", r.platform.display_name());
    push_str(&mut p, " (");
    push_str(&mut p, r.state.icon());
    push_str(&mut p, " ");
    push_str(&mut p, r.state.label());
    push_str(&mut p, ")");
    push_line(lines, p);
    push_line(lines, owned("Token Source"));
    let mut src = owned("  ");
    push_or_text(&mut src, &r.token_source, "none");
    push_line(lines, src);
    push_line(lines, owned("Reason"));
    push_line(lines, concat("  ", r.reason.as_str()));
    push_line(lines, owned("Next Action"));
    push_line(lines, concat("  ", r.next_action.as_str()));
    push_line(lines, String::new());
    push_line(lines, owned("Actions"));
    push_line(lines, owned("  t set/replace token   v validate"));
    push_line(lines, owned("  x remove token        o onboard"));
    push_line(lines, owned("  Enter select providers"));
    if env_warning {
        push_line(lines, owned("  env token is read-only; press T to store override"));
    }
    push_line(lines, String::new());
    push_line(lines, owned("Result"));
    let mut res = owned("  ");
    push_or_text(&mut res, message, "(none)");
    push_line(lines, res);
    assert(texts(lines@) =~= start + detail_head(*r, env_warning, opt_view(*message)));
}

fn push_resource_line(lines: &mut Vec<String>, flat: usize, cursor: usize, prefix: &str, display: &str, selected: bool)
    ensures
        texts(final(lines)@) == texts(old(lines)@).push(
            resource_line(flat as int, cursor, prefix@, display@, selected),
        ),
{
    let mut line = owned(" ");
    push_str(&mut line, if flat == cursor { ">" } else { " " });
    push_str(&mut line, " [");
    push_str(&mut line, if selected { "x" } else { " " });
    push_str(&mut line, "] ");
    push_str(&mut line, prefix);
    push_str(&mut line, " ");
    let t = truncate(display, 80);
    push_str(&mut line, t.as_str());
    push_line(lines, line);
}

fn push_plain(lines: &mut Vec<String>, items: &Vec<SelectableResource>, base: usize, cursor: usize, prefix: &str)
    requires
        base + items@.len() <= usize::MAX,
    ensures
        texts(final(lines)@) == texts(old(lines)@) + plain_lines(items@, base as int, cursor, prefix@),
{
    let ghost start = texts(lines@);
    let mut i: usize = 0;
    while i < items.len()
        invariant
            i <= items@.len(),
            base + items@.len() <= usize::MAX,
            texts(lines@) == start + plain_lines(items@, base as int, cursor, prefix@).take(i as int),
        decreases items@.len() - i,
    {
        push_resource_line(lines, base + i, cursor, prefix, items[i].resource.display_name.as_str(), items[i].selected);
        assert(plain_lines(items@, base as int, cursor, prefix@).take(i + 1) =~= plain_lines(
            items@,
            base as int,
            cursor,
            prefix@,
        ).take(i as int).push(plain_lines(items@, base as int, cursor, prefix@)[i as int]));
        i = i + 1;
    }
    assert(plain_lines(items@, base as int, cursor, prefix@).take(i as int) =~= plain_lines(
        items@,
        base as int,
        cursor,
        prefix@,
    ));
}

fn push_vercel(lines: &mut Vec<String>, items: &Vec<SelectableVercelResource>, base: usize, cursor: usize)
    requires
        base + items@.len() <= usize::MAX,
    ensures
        texts(final(lines)@) == texts(old(lines)@) + vercel_lines(items@, base as int, cursor),
{
    let ghost start = texts(lines@);
    let mut i: usize = 0;
    while i < items.len()
        invariant
            i <= items@.len(),
            base + items@.len() <= usize::MAX,
            texts(lines@) == start + vercel_lines(items@, base as int, cursor).take(i as int),
        decreases items@.len() - i,
    {
        let item = &items[i];
        let display = match &item.linked_repo {
            Some(l) => {
                let mut d = concat(item.resource.display_name.as_str(), " -> ");
                push_str(&mut d, l.as_str());
                d
            },
            None => item.resource.display_name.clone(),
        };
        push_resource_line(lines, base + i, cursor, "VC", display.as_str(), item.selected);
        assert(vercel_lines(items@, base as int, cursor).take(i + 1) =~= vercel_lines(items@, base as int, cursor).take(
            i as int,
        ).push(vercel_lines(items@, base as int, cursor)[i as int]));
        i = i + 1;
    }
    assert(vercel_lines(items@, base as int, cursor).take(i as int) =~= vercel_lines(items@, base as int, cursor));
}

fn push_resources(lines: &mut Vec<String>, o: &OnboardingState)
    requires
        o.github@.len() + o.railway@.len() + o.vercel@.len() <= usize::MAX,
    ensures
        texts(final(lines)@) == texts(old(lines)@) + resource_section(*o),
{
    let ghost start = texts(lines@);
    let g = o.github.len();
    let r = o.railway.len();
    let v = o.vercel.len();
    push_plain(lines, &o.github, 0, o.resource_cursor, "GH");
    push_plain(lines, &o.railway, g, o.resource_cursor, "RW");
    push_vercel(lines, &o.vercel, g + r, o.resource_cursor);
    if g + r + v == 0 {
        push_line(lines, owned("  (no resources found)"));
    }
    assert(texts(lines@) =~= start + resource_section(*o));
}


fn push_flow(lines: &mut Vec<String>, a: &App)
    requires
        a.onboarding.github@.len() + a.onboarding.railway@.len() + a.onboarding.vercel@.len() <= usize::MAX,
    ensures
        texts(final(lines)@) == texts(old(lines)@) + flow_section(*a),
{
    let ghost start = texts(lines@);
    match a.settings_flow {
        SettingsFlowState::TokenEntry => {
            push_line(lines, String::new());
            push_line(lines, owned("Token Input"));
            let n = char_count(a.token_input.as_str());
            let shown: usize = if n <= 64 { n } else { 64 };
            let mut dots = owned("  ");
            push_repeat(&mut dots, "•", shown);
            push_line(lines, dots);
            push_line(lines, owned("  enter token, Enter to validate+save"));
            push_line(lines, owned("  Esc to cancel"));
        },
        SettingsFlowState::ValidatingToken => {
            push_line(lines, String::new());
            push_line(lines, owned("validating token..."));
        },
        SettingsFlowState::ProviderActions => {
            push_line(lines, String::new());
            push_line(lines, owned("Onboard: Select providers"));
            let ghost mid = texts(lines@);
            let o = &a.onboarding;
            let mut idx: usize = 0;
            while idx < 3
                invariant
                    idx <= 3,
                    texts(lines@) == mid + Seq::new(
                        3,
                        |i: int| provider_line(i, o.platform_cursor, o.platform_selected@),
                    ).take(idx as int),
                decreases 3 - idx,
            {
                let mut line = owned(" ");
                push_str(&mut line, if idx == o.platform_cursor { ">" } else { " " });
                push_str(&mut line, " [");
                let checked = idx < o.platform_selected.len() && o.platform_selected[idx];
                push_str(&mut line, if checked { "x" } else { " " });
                push_str(&mut line, "] ");
                push_str(&mut line, PlatformKind::at(idx).display_name());
                push_line(lines, line);
                assert(Seq::new(3, |i: int| provider_line(i, o.platform_cursor, o.platform_selected@)).take(
                    idx + 1,
                ) =~= Seq::new(3, |i: int| provider_line(i, o.platform_cursor, o.platform_selected@)).take(
                    idx as int,
                ).push(provider_line(idx as int, o.platform_cursor, o.platform_selected@)));
                idx = idx + 1;
            }
            assert(Seq::new(3, |i: int| provider_line(i, o.platform_cursor, o.platform_selected@)).take(3) =~= Seq::new(
                3,
                |i: int| provider_line(i, o.platform_cursor, o.platform_selected@),
            ));
            push_line(lines, owned("  Space toggle  Enter discover  Esc cancel"));
        },
        SettingsFlowState::DiscoveryScanning => {
            push_line(lines, String::new());
            push_line(lines, owned("discovering resources..."));
        },
        SettingsFlowState::ResourceSelection => {
            push_line(lines, String::new());
            push_line(lines, owned("Onboard: Select resources"));
            push_resources(lines, &a.onboarding);
            push_line(lines, owned("  Space toggle  Enter preview  Esc cancel"));
        },
        SettingsFlowState::CorrelationReview => {
            push_line(lines, String::new());
            push_line(lines, owned("Correlation Preview"));
            let preview = &a.onboarding.correlation_preview;
            let shown: usize = if preview.len() <= 16 { preview.len() } else { 16 };
            let ghost mid = texts(lines@);
            let ghost want = texts(preview@).take(shown as int).map_values(|l: Seq<char>| "  - "@ + l);
            let mut i: usize = 0;
            while i < shown
                invariant
                    i <= shown,
                    shown <= preview@.len(),
                    want == texts(preview@).take(shown as int).map_values(|l: Seq<char>| "  - "@ + l),
                    texts(lines@) == mid + want.take(i as int),
                decreases shown - i,
            {
                push_line(lines, concat("  - ", preview[i].as_str()));
                assert(want.take(i + 1) =~= want.take(i as int).push(want[i as int]));
                i = i + 1;
            }
            assert(want.take(shown as int) =~= want);
            push_line(lines, owned("  Enter apply  Esc back"));
        },
        SettingsFlowState::Applying => {
            push_line(lines, String::new());
            push_line(lines, owned("Applying changes..."));
        },
        _ => {},
    }
    assert(texts(lines@) =~= start + flow_section(*a));
}

fn push_count_pair(out: &mut String, label: &str, accessible: u64, configured: u64)
    ensures
        final(out)@ == old(out)@ + label@ + decimal(accessible as nat) + "/"@ + decimal(configured as nat),
{
    push_str(out, label);
    push_decimal(out, accessible);
    push_str(out, "/");
    push_decimal(out, configured);
}

/// The account statistics of a report.
pub fn stats_line(d: &PlatformHealthDetails) -> (r: String)
    ensures
        r@ == stats_text(*d),
{
    match d {
        PlatformHealthDetails::GitHub {
            identity,
            accessible_repos,
            configured_repo_checks,
            accessible_orgs,
            configured_org_checks,
        } => {
            let mut out = owned("identity=");
            push_or_text(&mut out, identity, "unknown");
            push_count_pair(&mut out, "  repos ", *accessible_repos, *configured_repo_checks);
            push_count_pair(&mut out, " accessible  orgs ", *accessible_orgs, *configured_org_checks);
            push_str(&mut out, " accessible");
            out
        },
        PlatformHealthDetails::Railway {
            identity,
            accessible_workspaces,
            configured_workspace_checks,
            accessible_projects,
            configured_project_checks,
        } => {
            let mut out = owned("identity=");
            push_or_text(&mut out, identity, "unknown");
            push_count_pair(&mut out, "  workspaces ", *accessible_workspaces, *configured_workspace_checks);
            push_count_pair(&mut out, " accessible  projects ", *accessible_projects, *configured_project_checks);
            push_str(&mut out, " accessible");
            out
        },
        PlatformHealthDetails::Vercel {
            identity,
            accessible_teams,
            configured_team_checks,
            accessible_projects,
            configured_project_checks,
        } => {
            let mut out = owned("identity=");
            push_or_text(&mut out, identity, "unknown");
            push_count_pair(&mut out, "  teams ", *accessible_teams, *configured_team_checks);
            push_count_pair(&mut out, " accessible  projects ", *accessible_projects, *configured_project_checks);
            push_str(&mut out, " accessible");
            out
        },
        PlatformHealthDetails::Unknown => owned("no provider-specific details"),
    }
}

/// The details pane for a provider's report, as one text of lines.
pub fn render_detail(report: &PlatformHealthReport, app: &App) -> (r: String)
    requires
        app.onboarding.github@.len() + app.onboarding.railway@.len() + app.onboarding.vercel@.len() <= usize::MAX,
    ensures
        r@ == joined_texts(detail_lines(*report, *app), "\n"@),
{
    let mut lines: Vec<String> = Vec::new();
    let env_warning = app.selected_token_from_env();
    push_head(&mut lines, report, env_warning, &app.settings_message);
    push_flow(&mut lines, app);
    push_line(&mut lines, String::new());
    push_line(&mut lines, owned("Provider Stats"));
    let stats = stats_line(&report.details);
    push_line(&mut lines, concat("  ", stats.as_str()));
    assert(texts(lines@) =~= detail_lines(*report, *app));
    let out = join_strings(&lines, "\n");
    proof {
        lemma_joined_texts(lines@, "\n"@);
    }
    out
}

} // verus!
