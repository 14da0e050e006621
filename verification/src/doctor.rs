//! The doctor report's checks that read the configuration and the
//! providers' readiness reports: authentication, API connectivity, rate
//! limits, tracked resources and correlations, with the suggestions they
//! lead to.

use vstd::prelude::*;
use crate::app::{joined, join_strings, opt_text};
use crate::config::{CorrelationConfig, PulsosConfig};
use crate::doctor_fmt::{CheckResult, CheckStatus};
use crate::domain::{PlatformHealthReport, PlatformHealthState, PlatformKind};
use crate::sorting::{lex_sorted, same_texts, sort_texts, texts};
use crate::text::{contains, contains_str, decimal, lowercase_of, owned, push_decimal, push_str, to_lowercase};

verus! {

/// A check as (status, label, value, detail).
pub open spec fn check_view(r: CheckResult) -> (CheckStatus, Seq<char>, Seq<char>, Option<Seq<char>>) {
    (r.status, r.label@, r.value@, opt_text(r.detail))
}

pub open spec fn checks_view(v: Seq<CheckResult>) -> Seq<(CheckStatus, Seq<char>, Seq<char>, Option<Seq<char>>)> {
    v.map_values(|r: CheckResult| check_view(r))
}

fn push_check(v: &mut Vec<CheckResult>, r: CheckResult)
    ensures
        checks_view(final(v)@) == checks_view(old(v)@).push(check_view(r)),
{
    let ghost before = v@;
    v.push(r);
    assert(checks_view(v@) =~= checks_view(before).push(check_view(r)));
}

fn check_with(status: CheckStatus, label: &str, value: &str) -> (r: CheckResult)
    ensures
        check_view(r) == (status, label@, value@, None::<Seq<char>>),
{
    match status {
        CheckStatus::Okay => CheckResult::ok(label, value),
        CheckStatus::Warning => CheckResult::warning(label, value),
        CheckStatus::Error => CheckResult::error(label, value),
        CheckStatus::Skipped => CheckResult::skipped(label, value),
    }
}

// ------------------------------------------------------- authentication

/// How a readiness state shows as a check: ready passes, a missing token
/// or incomplete access warns, a bad token or no connection fails.
pub open spec fn auth_status(s: PlatformHealthState) -> CheckStatus {
    match s {
        PlatformHealthState::Ready => CheckStatus::Okay,
        PlatformHealthState::NoToken | PlatformHealthState::AccessOrConfigIncomplete => CheckStatus::Warning,
        PlatformHealthState::InvalidToken | PlatformHealthState::ConnectivityError => CheckStatus::Error,
    }
}

/// The authentication check of one report.
pub open spec fn auth_check(rep: PlatformHealthReport) -> (CheckStatus, Seq<char>, Seq<char>, Option<Seq<char>>) {
    (auth_status(rep.state), rep.platform.name_of(), rep.state.label_of(), Some(rep.reason@ + " Next: "@ + rep.next_action@))
}

/// One authentication check per readiness report, in order.
pub fn check_auth(reports: &Vec<PlatformHealthReport>) -> (r: Vec<CheckResult>)
    ensures
        checks_view(r@) == reports@.map_values(|rep: PlatformHealthReport| auth_check(rep)),
{
    let mut results: Vec<CheckResult> = Vec::new();
    let mut i: usize = 0;
    while i < reports.len()
        invariant
            i <= reports@.len(),
            checks_view(results@) == reports@.take(i as int).map_values(|rep: PlatformHealthReport| auth_check(rep)),
        decreases reports@.len() - i,
    {
        let report = &reports[i];
        let status = match report.state {
            PlatformHealthState::Ready => CheckStatus::Okay,
            PlatformHealthState::NoToken | PlatformHealthState::AccessOrConfigIncomplete => CheckStatus::Warning,
            PlatformHealthState::InvalidToken | PlatformHealthState::ConnectivityError => CheckStatus::Error,
        };
        let base = check_with(status, report.platform.display_name(), report.state.label());
        let mut detail = report.reason.clone();
        push_str(&mut detail, " Next: ");
        push_str(&mut detail, report.next_action.as_str());
        let result = base.with_detail(detail.as_str());
        push_check(&mut results, result);
        i = i + 1;
        assert(reports@.take(i as int) =~= reports@.take(i - 1).push(reports@[i - 1]));
        assert(checks_view(results@) =~= reports@.take(i as int).map_values(
            |rep: PlatformHealthReport| auth_check(rep),
        ));
    }
    assert(reports@.take(i as int) =~= reports@);
    results
}

/// The suggestions an authentication check leads to.
pub open spec fn auth_suggestions(r: CheckResult) -> Seq<Seq<char>> {
    (if contains(r.value@, "No Token"@) {
        seq!["Run `pulsos auth "@ + lowercase_of(r.label@) + "` to authenticate."@]
    } else {
        Seq::empty()
    }) + (if contains(r.value@, "Invalid Token"@) {
        seq!["Run `pulsos auth "@ + lowercase_of(r.label@) + "` to refresh token."@]
    } else {
        Seq::empty()
    })
}

/// Add the suggestions of an authentication check.
pub fn collect_auth_suggestions(result: &CheckResult, suggestions: &mut Vec<String>)
    ensures
        texts(final(suggestions)@) == texts(old(suggestions)@) + auth_suggestions(*result),
{
    let ghost start = texts(suggestions@);
    if contains_str(result.value.as_str(), "No Token") {
        let mut m = owned("Run `pulsos auth ");
        let l = to_lowercase(result.label.as_str());
        push_str(&mut m, l.as_str());
        push_str(&mut m, "` to authenticate.");
        let ghost before = suggestions@;
        suggestions.push(m);
        assert(texts(suggestions@) =~= texts(before).push(m@));
    }
    let ghost mid = texts(suggestions@);
    if contains_str(result.value.as_str(), "Invalid Token") {
        let mut m = owned("Run `pulsos auth ");
        let l = to_lowercase(result.label.as_str());
        push_str(&mut m, l.as_str());
        push_str(&mut m, "` to refresh token.");
        let ghost before = suggestions@;
        suggestions.push(m);
        assert(texts(suggestions@) =~= texts(before).push(m@));
    }
    assert(texts(suggestions@) =~= start + auth_suggestions(*result));
}

// --------------------------------------------------------- connectivity

/// The first report about provider `p`, if any.
pub open spec fn first_report(reports: Seq<PlatformHealthReport>, p: PlatformKind) -> Option<PlatformHealthReport>
    decreases reports.len(),
{
    if reports.len() == 0 {
        None
    } else if reports[0].platform == p {
        Some(reports[0])
    } else {
        first_report(reports.skip(1), p)
    }
}

/// The API host checked for a provider.
pub open spec fn host_of(p: PlatformKind) -> Seq<char> {
    match p {
        PlatformKind::GitHub => "api.github.com"@,
        PlatformKind::Railway => "backboard.railway.com"@,
        PlatformKind::Vercel => "api.vercel.com"@,
    }
}

/// The connectivity check of a provider: skipped without a report or a
/// token, failed when unreachable, else passed.
pub open spec fn connectivity_check(reports: Seq<PlatformHealthReport>, p: PlatformKind) -> (
    CheckStatus,
    Seq<char>,
    Seq<char>,
    Option<Seq<char>>,
) {
    match first_report(reports, p) {
        None => (CheckStatus::Skipped, host_of(p), "no health report"@, None),
        Some(rep) => match rep.state {
            PlatformHealthState::NoToken => (CheckStatus::Skipped, host_of(p), "skipped (no token)"@, None),
            PlatformHealthState::ConnectivityError => (
                CheckStatus::Error,
                host_of(p),
                "unreachable — "@ + rep.reason@,
                None,
            ),
            _ => (CheckStatus::Okay, host_of(p), "reachable (validated auth endpoint)"@, None),
        },
    }
}

fn find_report(reports: &Vec<PlatformHealthReport>, p: PlatformKind) -> (r: Option<usize>)
    ensures
        match r {
            Some(i) => i < reports@.len() && first_report(reports@, p) == Some(reports@[i as int]),
            None => first_report(reports@, p) is None,
        },
{
    let mut i: usize = 0;
    assert(reports@.skip(0) =~= reports@);
    while i < reports.len()
        invariant
            i <= reports@.len(),
            first_report(reports@, p) == first_report(reports@.skip(i as int), p),
        decreases reports@.len() - i,
    {
        assert(reports@.skip(i as int)[0] == reports@[i as int]);
        if reports[i].platform == p {
            return Some(i);
        }
        assert(reports@.skip(i as int).skip(1) =~= reports@.skip(i + 1));
        i = i + 1;
    }
    None
}

fn connectivity_for(reports: &Vec<PlatformHealthReport>, p: PlatformKind, host: &str) -> (r: CheckResult)
    requires
        host@ == host_of(p),
    ensures
        check_view(r) == connectivity_check(reports@, p),
{
    match find_report(reports, p) {
        None => CheckResult::skipped(host, "no health report"),
        Some(i) => {
            let report = &reports[i];
            match report.state {
                PlatformHealthState::NoToken => CheckResult::skipped(host, "skipped (no token)"),
                PlatformHealthState::ConnectivityError => {
                    let mut v = owned("unreachable — ");
                    push_str(&mut v, report.reason.as_str());
                    CheckResult::error(host, v.as_str())
                },
                _ => CheckResult::ok(host, "reachable (validated auth endpoint)"),
            }
        },
    }
}

/// Whether each provider's API answered, in the order GitHub, Railway,
/// Vercel.
pub fn check_connectivity(reports: &Vec<PlatformHealthReport>) -> (r: Vec<CheckResult>)
    ensures
        checks_view(r@) == seq![
            connectivity_check(reports@, PlatformKind::GitHub),
            connectivity_check(reports@, PlatformKind::Railway),
            connectivity_check(reports@, PlatformKind::Vercel),
        ],
{
    let mut results: Vec<CheckResult> = Vec::new();
    push_check(&mut results, connectivity_for(reports, PlatformKind::GitHub, "api.github.com"));
    push_check(&mut results, connectivity_for(reports, PlatformKind::Railway, "backboard.railway.com"));
    push_check(&mut results, connectivity_for(reports, PlatformKind::Vercel, "api.vercel.com"));
    assert(checks_view(results@) =~= seq![
        connectivity_check(reports@, PlatformKind::GitHub),
        connectivity_check(reports@, PlatformKind::Railway),
        connectivity_check(reports@, PlatformKind::Vercel),
    ]);
    results
}

/// The GitHub rate-limit check: a warning when less than a tenth of the
/// limit remains.
pub open spec fn rate_limit_check(remaining: u64, limit: u64, resets: Seq<char>) -> (
    CheckStatus,
    Seq<char>,
    Seq<char>,
    Option<Seq<char>>,
) {
    (
        if remaining < limit / 10 { CheckStatus::Warning } else { CheckStatus::Okay },
        "GitHub"@,
        decimal(remaining as nat) + " / "@ + decimal(limit as nat) + " remaining (resets "@ + resets + ")"@,
        None,
    )
}

/// The GitHub rate-limit check for a reported `remaining` of `limit`
/// calls, resetting at `resets` (already rendered).
pub fn github_rate_limit_check(remaining: u64, limit: u64, resets: &str) -> (r: CheckResult)
    ensures
        check_view(r) == rate_limit_check(remaining, limit, resets@),
{
    let mut v = String::new();
    push_decimal(&mut v, remaining);
    push_str(&mut v, " / ");
    push_decimal(&mut v, limit);
    push_str(&mut v, " remaining (resets ");
    push_str(&mut v, resets);
    push_str(&mut v, ")");
    if remaining < limit / 10 {
        CheckResult::warning("GitHub", v.as_str())
    } else {
        CheckResult::ok("GitHub", v.as_str())
    }
}

// ---------------------------------------------------- tracked resources

/// The part of a repository path before its first `/`.
pub open spec fn org_of(repo: Seq<char>) -> Seq<char>
    decreases repo.len(),
{
    if repo.len() == 0 || repo[0] == '/' {
        Seq::empty()
    } else {
        seq![repo[0]] + org_of(repo.skip(1))
    }
}

fn org_text(repo: &str) -> (r: String)
    ensures
        r@ == org_of(repo@),
{
    let n = crate::text::char_count(repo);
    let mut k: usize = 0;
    assert(repo@.skip(0) =~= repo@);
    while k < n && crate::text::char_at(repo, k) != '/'
        invariant
            k <= n,
            n == repo@.len(),
            org_of(repo@) == repo@.take(k as int) + org_of(repo@.skip(k as int)),
        decreases n - k,
    {
        assert(repo@.skip(k as int)[0] == repo@[k as int]);
        assert(repo@.skip(k as int).skip(1) =~= repo@.skip(k + 1));
        assert(repo@.take(k + 1) =~= repo@.take(k as int) + seq![repo@[k as int]]);
        k = k + 1;
    }
    let mut out = String::new();
    crate::text::push_prefix(&mut out, repo, k);
    assert(out@ =~= repo@.take(k as int));
    out
}

/// Organisation keys of the tracked GitHub repositories.
pub open spec fn github_keys(cs: Seq<CorrelationConfig>) -> Seq<Seq<char>>
    decreases cs.len(),
{
    if cs.len() == 0 {
        Seq::empty()
    } else {
        github_keys(cs.drop_last()) + match cs.last().github_repo {
            Some(r) => seq![org_of(r@)],
            None => Seq::empty(),
        }
    }
}

/// Workspace keys of the tracked Railway projects ("default" when none).
pub open spec fn railway_keys(cs: Seq<CorrelationConfig>) -> Seq<Seq<char>>
    decreases cs.len(),
{
    if cs.len() == 0 {
        Seq::empty()
    } else {
        railway_keys(cs.drop_last()) + if cs.last().railway_project is Some {
            seq![
                match cs.last().railway_workspace {
                    Some(w) => w@,
                    None => "default"@,
                },
            ]
        } else {
            Seq::empty()
        }
    }
}

/// Team keys of the tracked Vercel projects ("personal" when none).
pub open spec fn vercel_keys(cs: Seq<CorrelationConfig>) -> Seq<Seq<char>>
    decreases cs.len(),
{
    if cs.len() == 0 {
        Seq::empty()
    } else {
        vercel_keys(cs.drop_last()) + if cs.last().vercel_project is Some {
            seq![
                match cs.last().vercel_team {
                    Some(t) => t@,
                    None => "personal"@,
                },
            ]
        } else {
            Seq::empty()
        }
    }
}

/// `g` with key `k` counted once more: its entry's count raised, or a new
/// entry with count 1 at the end.
pub open spec fn bump(g: Seq<(Seq<char>, nat)>, k: Seq<char>) -> Seq<(Seq<char>, nat)>
    decreases g.len(),
{
    if g.len() == 0 {
        seq![(k, 1nat)]
    } else if g[0].0 == k {
        g.update(0, (k, g[0].1 + 1))
    } else {
        seq![g[0]] + bump(g.skip(1), k)
    }
}

/// Each distinct key with how often it occurs, in order of first
/// appearance.
pub open spec fn tally(keys: Seq<Seq<char>>) -> Seq<(Seq<char>, nat)>
    decreases keys.len(),
{
    if keys.len() == 0 {
        Seq::empty()
    } else {
        bump(tally(keys.drop_last()), keys.last())
    }
}

/// "name: count" for each group.
pub open spec fn group_parts(groups: Seq<(Seq<char>, nat)>) -> Seq<Seq<char>> {
    groups.map_values(|g: (Seq<char>, nat)| g.0 + ": "@ + decimal(g.1))
}

/// Texts joined by `sep`.
pub open spec fn joined_texts(ts: Seq<Seq<char>>, sep: Seq<char>) -> Seq<char>
    decreases ts.len(),
{
    if ts.len() == 0 {
        Seq::empty()
    } else if ts.len() == 1 {
        ts[0]
    } else {
        joined_texts(ts.drop_last(), sep) + sep + ts.last()
    }
}

/// `text` lists the groups as "name: count", sorted, separated by ", ".
pub open spec fn groups_text(groups: Seq<(Seq<char>, nat)>, text: Seq<char>) -> bool {
    exists|ps: Seq<Seq<char>>|
        lex_sorted(ps) && ps.to_multiset() == group_parts(groups).to_multiset() && text == joined_texts(ps, ", "@)
}

/// Groups with their counts as "name: count", sorted, separated by ", ".
pub fn format_groups(groups: &Vec<(String, usize)>) -> (r: String)
    ensures
        groups_text(groups@.map_values(|g: (String, usize)| (g.0@, g.1 as nat)), r@),
{
    let ghost gs = groups@.map_values(|g: (String, usize)| (g.0@, g.1 as nat));
    let mut parts: Vec<String> = Vec::new();
    let mut i: usize = 0;
    while i < groups.len()
        invariant
            i <= groups@.len(),
            gs == groups@.map_values(|g: (String, usize)| (g.0@, g.1 as nat)),
            texts(parts@) == group_parts(gs.take(i as int)),
        decreases groups@.len() - i,
    {
        let mut p = groups[i].0.clone();
        push_str(&mut p, ": ");
        push_decimal(&mut p, groups[i].1 as u64);
        let ghost before = parts@;
        parts.push(p);
        proof {
            assert(texts(parts@) =~= texts(before).push(p@));
            assert(gs.take(i + 1) =~= gs.take(i as int).push(gs[i as int]));
            assert(group_parts(gs.take(i + 1)) =~= group_parts(gs.take(i as int)).push(gs[i as int].0 + ": "@ + decimal(gs[i as int].1)));
        }
        i = i + 1;
    }
    assert(gs.take(i as int) =~= gs);
    let sorted = sort_texts(parts);
    let out = join_strings(&sorted, ", ");
    proof {
        lemma_joined_same(sorted@, ", "@);
    }
    out
}

proof fn lemma_joined_same(v: Seq<String>, sep: Seq<char>)
    ensures
        joined(v, sep) == joined_texts(texts(v), sep),
    decreases v.len(),
{
    if v.len() > 1 {
        lemma_joined_same(v.drop_last(), sep);
        assert(texts(v.drop_last()) =~= texts(v).drop_last());
    }
}

/// The tracked-resources section: a warning without a configuration or
/// without tracked resources; else, per provider with resources, their
/// number and their groups (GitHub by organisation, Railway by workspace,
/// Vercel by team).
pub open spec fn tracked_ok(config: Option<PulsosConfig>, r: Seq<CheckResult>) -> bool {
    match config {
        None => checks_view(r) == seq![
            (CheckStatus::Warning, "Config"@, "no config — run `pulsos repos sync`"@, None::<Seq<char>>),
        ],
        Some(c) => if c.correlations@.len() == 0 {
            checks_view(r) == seq![
                (CheckStatus::Warning, "Resources"@, "no tracked resources — run `pulsos repos sync`"@, None::<Seq<char>>),
            ]
        } else {
            let gk = github_keys(c.correlations@);
            let rk = railway_keys(c.correlations@);
            let vk = vercel_keys(c.correlations@);
            let n = (if gk.len() > 0 { 1int } else { 0 }) + (if rk.len() > 0 { 1int } else { 0 }) + (if vk.len() > 0 { 1int } else { 0 });
            let gi = 0int;
            let ri = if gk.len() > 0 { 1int } else { 0 };
            let vi = ri + if rk.len() > 0 { 1int } else { 0 };
            &&& r.len() == n
            &&& gk.len() > 0 ==> resource_line(checks_view(r)[gi], "GitHub repos"@, gk, " repos ("@, " repos ("@)
            &&& rk.len() > 0 ==> resource_line(checks_view(r)[ri], "Railway"@, rk, " project ("@, " projects ("@)
            &&& vk.len() > 0 ==> resource_line(checks_view(r)[vi], "Vercel"@, vk, " project ("@, " projects ("@)
        },
    }
}

/// A passing line `label` with "<total> <noun> (<groups>)", where `one`
/// and `many` hold the text between the total and the groups.
pub open spec fn resource_line(
    r: (CheckStatus, Seq<char>, Seq<char>, Option<Seq<char>>),
    label: Seq<char>,
    keys: Seq<Seq<char>>,
    one: Seq<char>,
    many: Seq<char>,
) -> bool {
    exists|detail: Seq<char>|
        groups_text(tally(keys), detail) && r == (
            CheckStatus::Okay,
            label,
            decimal(keys.len()) + (if keys.len() == 1 { one } else { many }) + detail + ")"@,
            None::<Seq<char>>,
        )
}

pub open spec fn groups_view(g: Seq<(String, usize)>) -> Seq<(Seq<char>, nat)> {
    g.map_values(|e: (String, usize)| (e.0@, e.1 as nat))
}

proof fn lemma_tally_counts(keys: Seq<Seq<char>>)
    ensures
        forall|i: int| 0 <= i < tally(keys).len() ==> (#[trigger] tally(keys)[i]).1 <= keys.len(),
    decreases keys.len(),
{
    if keys.len() > 0 {
        lemma_tally_counts(keys.drop_last());
        lemma_bump_counts(tally(keys.drop_last()), keys.last(), (keys.len() - 1) as nat);
    }
}

proof fn lemma_bump_counts(g: Seq<(Seq<char>, nat)>, k: Seq<char>, bound: nat)
    requires
        forall|i: int| 0 <= i < g.len() ==> (#[trigger] g[i]).1 <= bound,
    ensures
        forall|i: int| 0 <= i < bump(g, k).len() ==> (#[trigger] bump(g, k)[i]).1 <= bound + 1,
    decreases g.len(),
{
    if g.len() > 0 && g[0].0 != k {
        lemma_bump_counts(g.skip(1), k, bound);
        assert forall|i: int| 0 <= i < bump(g, k).len() implies (#[trigger] bump(g, k)[i]).1 <= bound + 1 by {
            if i > 0 {
                assert(bump(g, k)[i] == bump(g.skip(1), k)[i - 1]);
            }
        }
    }
}

/// Count `key` once more in `groups`.
fn add_key(groups: &mut Vec<(String, usize)>, key: String)
    requires
        forall|i: int| 0 <= i < old(groups)@.len() ==> (#[trigger] old(groups)@[i]).1 < usize::MAX,
    ensures
        groups_view(final(groups)@) == bump(groups_view(old(groups)@), key@),
{
    let ghost before = groups_view(groups@);
    let ghost k = key@;
    let mut i: usize = 0;
    assert(before.skip(0) =~= before);
    assert(before.take(0) + bump(before.skip(0), k) =~= bump(before, k));
    while i < groups.len()
        invariant
            i <= groups@.len(),
            k == key@,
            before == groups_view(old(groups)@),
            groups_view(groups@) == before,
            forall|j: int| 0 <= j < groups@.len() ==> (#[trigger] groups@[j]).1 < usize::MAX,
            bump(before, k) == before.take(i as int) + bump(before.skip(i as int), k),
        decreases groups@.len() - i,
    {
        assert(before.skip(i as int)[0] == before[i as int]);
        assert(before[i as int] == (groups@[i as int].0@, groups@[i as int].1 as nat));
        let same = crate::text::str_eq(groups[i].0.as_str(), key.as_str());
        if same {
            let ghost g_before = groups@;
            assert(g_before[i as int].0@ == k);
            let removed = groups.remove(i);
            assert(removed == g_before[i as int]);
            let (name, count) = removed;
            groups.insert(i, (name, count + 1));
            proof {
                let x = (name, (count + 1) as usize);
                assert(groups@ =~= g_before.update(i as int, x));
                assert(name@ == k);
                assert(count as nat == before[i as int].1);
                assert(groups_view(g_before.update(i as int, x)) =~= groups_view(g_before).update(
                    i as int,
                    (x.0@, x.1 as nat),
                ));
                assert(groups_view(groups@) =~= before.update(i as int, (k, before[i as int].1 + 1)));
                assert(bump(before.skip(i as int), k) == before.skip(i as int).update(0, (k, before[i as int].1 + 1)));
                assert(before.take(i as int) + before.skip(i as int).update(0, (k, before[i as int].1 + 1)) =~= before.update(
                    i as int,
                    (k, before[i as int].1 + 1),
                ));
            }
            return;
        }
        proof {
            assert(before.skip(i as int).skip(1) =~= before.skip(i + 1));
            assert(before.take(i + 1) =~= before.take(i as int) + seq![before[i as int]]);
        }
        i = i + 1;
    }
    let ghost g0 = groups@;
    groups.push((key, 1));
    proof {
        assert(before.skip(i as int).len() == 0);
        assert(groups_view(groups@) =~= groups_view(g0).push((k, 1nat)));
        assert(before.take(i as int) =~= before);
    }
}

/// Tally the keys of `keys` (see `tally`).
fn tally_keys(keys: Vec<String>) -> (r: Vec<(String, usize)>)
    ensures
        groups_view(r@) == tally(texts(keys@)),
{
    let ghost all = texts(keys@);
    let mut groups: Vec<(String, usize)> = Vec::new();
    let mut rest = keys;
    let ghost done: Seq<Seq<char>> = Seq::empty();
    let n = rest.len();
    while rest.len() > 0
        invariant
            all == done + texts(rest@),
            groups_view(groups@) == tally(done),
            done.len() + rest@.len() == n,
            n == all.len(),
        decreases rest@.len(),
    {
        let key = rest.remove(0);
        proof {
            lemma_tally_counts(done);
            assert forall|i: int| 0 <= i < groups@.len() implies (#[trigger] groups@[i]).1 < usize::MAX by {
                assert(groups_view(groups@)[i] == tally(done)[i]);
            }
        }
        let ghost k = key@;
        add_key(&mut groups, key);
        proof {
            assert(done.push(k).drop_last() =~= done);
            assert(done.push(k) + texts(rest@) =~= all);
            done = done.push(k);
        }
    }
    proof {
        assert(done =~= all);
    }
    groups
}

/// The line for one provider's tracked resources.
fn resource_check(label: &str, keys: Vec<String>, one: &str, many: &str) -> (r: CheckResult)
    requires
        keys@.len() > 0,
    ensures
        resource_line(check_view(r), label@, texts(keys@), one@, many@),
{
    let ghost ks = texts(keys@);
    let n = keys.len();
    let groups = tally_keys(keys);
    let detail = format_groups(&groups);
    let mut v = String::new();
    push_decimal(&mut v, n as u64);
    push_str(&mut v, if n == 1 { one } else { many });
    push_str(&mut v, detail.as_str());
    push_str(&mut v, ")");
    let r = CheckResult::ok(label, v.as_str());
    proof {
        assert(groups_text(tally(ks), detail@));
        assert(v@ =~= decimal(ks.len()) + (if ks.len() == 1 { one@ } else { many@ }) + detail@ + ")"@);
    }
    r
}

/// The tracked-resources section of the report (see `tracked_ok`).
pub fn check_tracked_resources(config: &Option<PulsosConfig>) -> (r: Vec<CheckResult>)
    ensures
        tracked_ok(*config, r@),
{
    let mut results: Vec<CheckResult> = Vec::new();
    let c = match config {
        None => {
            push_check(&mut results, CheckResult::warning("Config", "no config — run `pulsos repos sync`"));
            assert(checks_view(results@) =~= seq![
                (CheckStatus::Warning, "Config"@, "no config — run `pulsos repos sync`"@, None::<Seq<char>>),
            ]);
            return results;
        },
        Some(c) => c,
    };
    if c.correlations.len() == 0 {
        push_check(&mut results, CheckResult::warning("Resources", "no tracked resources — run `pulsos repos sync`"));
        assert(checks_view(results@) =~= seq![
            (CheckStatus::Warning, "Resources"@, "no tracked resources — run `pulsos repos sync`"@, None::<Seq<char>>),
        ]);
        return results;
    }
    let mut gk: Vec<String> = Vec::new();
    let mut rk: Vec<String> = Vec::new();
    let mut vk: Vec<String> = Vec::new();
    let mut i: usize = 0;
    while i < c.correlations.len()
        invariant
            i <= c.correlations@.len(),
            texts(gk@) == github_keys(c.correlations@.take(i as int)),
            texts(rk@) == railway_keys(c.correlations@.take(i as int)),
            texts(vk@) == vercel_keys(c.correlations@.take(i as int)),
        decreases c.correlations@.len() - i,
    {
        let corr = &c.correlations[i];
        let ghost (g0, r0, v0) = (gk@, rk@, vk@);
        if let Some(repo) = &corr.github_repo {
            gk.push(org_text(repo.as_str()));
        }
        if corr.railway_project.is_some() {
            let ws = match &corr.railway_workspace {
                Some(w) => w.clone(),
                None => owned("default"),
            };
            rk.push(ws);
        }
        if corr.vercel_project.is_some() {
            let team = match &corr.vercel_team {
                Some(t) => t.clone(),
                None => owned("personal"),
            };
            vk.push(team);
        }
        proof {
            assert(c.correlations@.take(i + 1).drop_last() =~= c.correlations@.take(i as int));
            assert(texts(gk@) =~= github_keys(c.correlations@.take(i + 1)));
            assert(texts(rk@) =~= railway_keys(c.correlations@.take(i + 1)));
            assert(texts(vk@) =~= vercel_keys(c.correlations@.take(i + 1)));
        }
        i = i + 1;
    }
    assert(c.correlations@.take(i as int) =~= c.correlations@);
    let gn = gk.len();
    let rn = rk.len();
    let vn = vk.len();
    let ghost gkeys = texts(gk@);
    let ghost rkeys = texts(rk@);
    let ghost vkeys = texts(vk@);
    let ghost mut lines: Seq<(CheckStatus, Seq<char>, Seq<char>, Option<Seq<char>>)> = Seq::empty();
    assert(checks_view(results@) =~= lines);
    if gn > 0 {
        let line = resource_check("GitHub repos", gk, " repos (", " repos (");
        proof {
            lines = lines.push(check_view(line));
        }
        push_check(&mut results, line);
    }
    let ghost gl = lines;
    if rn > 0 {
        let line = resource_check("Railway", rk, " project (", " projects (");
        proof {
            lines = lines.push(check_view(line));
        }
        push_check(&mut results, line);
    }
    let ghost rl = lines;
    if vn > 0 {
        let line = resource_check("Vercel", vk, " project (", " projects (");
        proof {
            lines = lines.push(check_view(line));
        }
        push_check(&mut results, line);
    }
    proof {
        assert(checks_view(results@).len() == results@.len());
        if rn > 0 {
            assert(lines[gl.len() as int] == rl[gl.len() as int]);
        }
        if gn > 0 {
            assert(lines[0] == gl[0]);
        }
    }
    results
}

// --------------------------------------------------------- correlations

/// How many providers a correlation links.
pub open spec fn linked(c: CorrelationConfig) -> nat {
    (if c.github_repo is Some { 1nat } else { 0 }) + (if c.railway_project is Some { 1nat } else { 0 }) + (if c.vercel_project
        is Some {
        1nat
    } else {
        0
    })
}

/// Names of the correlations linking fewer than two providers, in order.
pub open spec fn standalone_names(cs: Seq<CorrelationConfig>) -> Seq<Seq<char>>
    decreases cs.len(),
{
    if cs.len() == 0 {
        Seq::empty()
    } else {
        standalone_names(cs.drop_last()) + if linked(cs.last()) < 2 {
            seq![cs.last().name@]
        } else {
            Seq::empty()
        }
    }
}

/// The correlations section: skipped without a configuration or
/// correlations; else how many link two or more providers, and which link
/// fewer (a warning with a hint), or that none do.
pub open spec fn correlations_report(config: Option<PulsosConfig>) -> Seq<(CheckStatus, Seq<char>, Seq<char>, Option<Seq<char>>)> {
    match config {
        None => seq![(CheckStatus::Skipped, "Correlations"@, "no config"@, None)],
        Some(c) => if c.correlations@.len() == 0 {
            seq![(CheckStatus::Skipped, "Correlations"@, "none configured"@, None)]
        } else {
            let names = standalone_names(c.correlations@);
            let matched = c.correlations@.len() - names.len();
            seq![
                (CheckStatus::Okay, "Matched"@, decimal(matched as nat) + " project groups across 2+ platforms"@, None),
                if names.len() > 0 {
                    (
                        CheckStatus::Warning,
                        "Standalone"@,
                        decimal(names.len()) + " projects ("@ + joined_texts(names, ", "@) + ")"@,
                        Some("Run `pulsos repos sync` to link platforms"@),
                    )
                } else {
                    (CheckStatus::Okay, "Standalone"@, "none"@, None)
                },
            ]
        },
    }
}

proof fn lemma_standalone_len(cs: Seq<CorrelationConfig>)
    ensures
        standalone_names(cs).len() <= cs.len(),
    decreases cs.len(),
{
    if cs.len() > 0 {
        lemma_standalone_len(cs.drop_last());
    }
}

/// The correlations section of the report (see `correlations_report`).
pub fn check_correlations(config: &Option<PulsosConfig>) -> (r: Vec<CheckResult>)
    ensures
        checks_view(r@) == correlations_report(*config),
{
    let mut results: Vec<CheckResult> = Vec::new();
    let c = match config {
        None => {
            push_check(&mut results, CheckResult::skipped("Correlations", "no config"));
            assert(checks_view(results@) =~= correlations_report(*config));
            return results;
        },
        Some(c) => c,
    };
    if c.correlations.len() == 0 {
        push_check(&mut results, CheckResult::skipped("Correlations", "none configured"));
        assert(checks_view(results@) =~= correlations_report(*config));
        return results;
    }
    let mut names: Vec<String> = Vec::new();
    let mut i: usize = 0;
    while i < c.correlations.len()
        invariant
            i <= c.correlations@.len(),
            texts(names@) == standalone_names(c.correlations@.take(i as int)),
        decreases c.correlations@.len() - i,
    {
        let corr = &c.correlations[i];
        let count: usize = (if corr.github_repo.is_some() { 1 } else { 0 }) + (if corr.railway_project.is_some() {
            1
        } else {
            0
        }) + (if corr.vercel_project.is_some() { 1 } else { 0 });
        let ghost before = names@;
        if count < 2 {
            names.push(corr.name.clone());
        }
        proof {
            assert(c.correlations@.take(i + 1).drop_last() =~= c.correlations@.take(i as int));
            assert(texts(names@) =~= standalone_names(c.correlations@.take(i + 1)));
        }
        i = i + 1;
    }
    assert(c.correlations@.take(i as int) =~= c.correlations@);
    proof {
        lemma_standalone_len(c.correlations@);
    }
    let standalone = names.len();
    let matched = c.correlations.len() - standalone;
    let mut m = String::new();
    push_decimal(&mut m, matched as u64);
    push_str(&mut m, " project groups across 2+ platforms");
    push_check(&mut results, CheckResult::ok("Matched", m.as_str()));
    if standalone > 0 {
        let mut v = String::new();
        push_decimal(&mut v, standalone as u64);
        push_str(&mut v, " projects (");
        let joined_names = join_strings(&names, ", ");
        proof {
            lemma_joined_same(names@, ", "@);
        }
        push_str(&mut v, joined_names.as_str());
        push_str(&mut v, ")");
        let w = CheckResult::warning("Standalone", v.as_str()).with_detail("Run `pulsos repos sync` to link platforms");
        push_check(&mut results, w);
    } else {
        push_check(&mut results, CheckResult::ok("Standalone", "none"));
    }
    assert(checks_view(results@) =~= correlations_report(*config));
    results
}

/// Add the suggestion a correlations check leads to: linking the
/// standalone projects.
pub fn collect_correlation_suggestions(result: &CheckResult, suggestions: &mut Vec<String>)
    ensures
        texts(final(suggestions)@) == texts(old(suggestions)@) + if result.status == CheckStatus::Warning
            && result.label@ == "Standalone"@ {
            seq!["Run `pulsos repos sync` to link unmatched projects."@]
        } else {
            Seq::empty()
        },
{
    let ghost before = suggestions@;
    if result.status == CheckStatus::Warning && crate::text::str_eq(result.label.as_str(), "Standalone") {
        suggestions.push(owned("Run `pulsos repos sync` to link unmatched projects."));
        assert(texts(suggestions@) =~= texts(before).push("Run `pulsos repos sync` to link unmatched projects."@));
    } else {
        assert(texts(suggestions@) =~= texts(before) + Seq::<Seq<char>>::empty());
    }
}


/// How old the oldest cache entry is, in words.
pub open spec fn age_words(secs: u64) -> Seq<char> {
    if secs < 60 {
        "just now"@
    } else if secs < 3600 {
        decimal((secs / 60) as nat) + " minutes ago"@
    } else {
        decimal((secs / 3600) as nat) + " hours ago"@
    }
}

/// The cache checks: where the cache is, its size and entry count, and how
/// old its oldest entry is.
pub open spec fn cache_report(location: Seq<char>, size: u64, entries: u64, oldest: Option<u64>) -> Seq<
    (CheckStatus, Seq<char>, Seq<char>, Option<Seq<char>>),
> {
    seq![
        (CheckStatus::Okay, "Location"@, location, None),
        (CheckStatus::Okay, "Size"@, crate::doctor_fmt::bytes_text(size as nat) + " ("@ + decimal(entries as nat) + " entries)"@, None),
        (CheckStatus::Okay, "Oldest entry"@, match oldest {
            Some(secs) => age_words(secs),
            None => "empty cache"@,
        }, None),
    ]
}

/// The cache checks.
pub fn cache_checks(location: &str, size: u64, entries: u64, oldest_secs: Option<u64>) -> (r: Vec<CheckResult>)
    ensures
        checks_view(r@) == cache_report(location@, size, entries, oldest_secs),
{
    let mut out: Vec<CheckResult> = Vec::new();
    out.push(CheckResult::ok("Location", location));
    let mut size_text = crate::doctor_fmt::format_bytes(size);
    push_str(&mut size_text, " (");
    push_decimal(&mut size_text, entries);
    push_str(&mut size_text, " entries)");
    out.push(CheckResult::ok("Size", size_text.as_str()));
    let age = match oldest_secs {
        Some(secs) => {
            if secs < 60 {
                owned("just now")
            } else if secs < 3600 {
                let mut t = crate::text::decimal_string(secs / 60);
                push_str(&mut t, " minutes ago");
                t
            } else {
                let mut t = crate::text::decimal_string(secs / 3600);
                push_str(&mut t, " hours ago");
                t
            }
        },
        None => owned("empty cache"),
    };
    out.push(CheckResult::ok("Oldest entry", age.as_str()));
    assert(checks_view(out@) =~= cache_report(location@, size, entries, oldest_secs));
    out
}

/// The check of an optional provider CLI: its version and whether its
/// token can be reused, or that it is not installed.
pub open spec fn cli_tool_report(label: Seq<char>, version: Option<Seq<char>>, token_reusable: bool) -> (
    CheckStatus,
    Seq<char>,
    Seq<char>,
    Option<Seq<char>>,
) {
    match version {
        Some(v) => (CheckStatus::Okay, label, v + " ("@ + if token_reusable {
            "token detected and reusable"@
        } else {
            "no token detected"@
        } + ")"@, None),
        None => (CheckStatus::Skipped, label, "not installed (not required)"@, None),
    }
}

/// The check of an optional provider CLI.
pub fn cli_tool_check(label: &str, version: &Option<String>, token_reusable: bool) -> (r: CheckResult)
    ensures
        check_view(r) == cli_tool_report(label@, opt_text(*version), token_reusable),
{
    match version {
        Some(v) => {
            let mut value = v.clone();
            push_str(&mut value, " (");
            push_str(&mut value, if token_reusable { "token detected and reusable" } else { "no token detected" });
            push_str(&mut value, ")");
            CheckResult::ok(label, value.as_str())
        },
        None => CheckResult::skipped(label, "not installed (not required)"),
    }
}

/// The first line of a tool's `--version` output, trimmed; nothing when
/// that is empty.
pub open spec fn version_in(output: Seq<char>) -> Option<Seq<char>> {
    let first = if exists|i: int| 0 <= i < output.len() && output[i] == '\n' {
        output.take(choose|i: int| 0 <= i < output.len() && output[i] == '\n' && forall|j: int| 0 <= j < i ==> output[j] != '\n')
    } else {
        output
    };
    if crate::text::trimmed(first).len() == 0 {
        None
    } else {
        Some(crate::text::trimmed(first))
    }
}

/// The version a tool reports.
pub fn version_line(output: &str) -> (r: Option<String>)
    ensures
        opt_text(r) == version_in(output@),
{
    let n = crate::text::char_count(output);
    let mut k: usize = 0;
    while k < n && crate::text::char_at(output, k) != '\n'
        invariant
            k <= n,
            n == output@.len(),
            forall|j: int| 0 <= j < k ==> output@[j] != '\n',
        decreases n - k,
    {
        k = k + 1;
    }
    let first = crate::text::substring(output, 0, k);
    proof {
        if k < n {
            let c = choose|i: int| 0 <= i < output@.len() && output@[i] == '\n' && forall|j: int| 0 <= j < i ==> output@[j] != '\n';
            assert(c == k as int) by {
                if c < k as int {
                } else if c > k as int {
                }
            }
            assert(first@ == output@.take(k as int));
        } else {
            assert(first@ =~= output@);
        }
    }
    let t = crate::text::trim(first.as_str());
    if crate::text::char_count(t.as_str()) == 0 {
        None
    } else {
        Some(t)
    }
}

/// A number in four octal digits.
pub open spec fn octal4(mode: u32) -> Seq<char> {
    let m = (mode % 4096) as nat;
    seq![
        crate::text::digit_char(m / 512),
        crate::text::digit_char((m / 64) % 8),
        crate::text::digit_char((m / 8) % 8),
        crate::text::digit_char(m % 8),
    ]
}

fn digit(d: u32) -> (c: char)
    requires
        d < 10,
    ensures
        c == crate::text::digit_char(d as nat),
{
    ((d + 48) as u8) as char
}

/// What the daemon check learned: the port file, whether the service
/// answered, the token file, and its permission bits.
pub open spec fn daemon_report(
    port: Option<u16>,
    alive: bool,
    token_path: Option<Seq<char>>,
    mode: Option<Result<u32, Seq<char>>>,
) -> Seq<(CheckStatus, Seq<char>, Seq<char>, Option<Seq<char>>)> {
    match port {
        None => seq![(CheckStatus::Okay, "Status"@, "not running"@, None)],
        Some(p) => if !alive {
            seq![
                (
                    CheckStatus::Warning,
                    "Status"@,
                    "port file exists (port "@ + decimal(p as nat) + ") but /health did not respond"@,
                    Some("Run `pulsos daemon stop` to clean up stale files, then `pulsos daemon start`"@),
                ),
            ]
        } else {
            seq![(CheckStatus::Okay, "Status"@, "running on port "@ + decimal(p as nat), None)] + match token_path {
                None => seq![
                    (
                        CheckStatus::Warning,
                        "Token file"@,
                        "daemon.token missing"@,
                        Some("The SSE stream cannot be authenticated. Restart the daemon."@),
                    ),
                ],
                Some(path) => seq![(CheckStatus::Okay, "Token file"@, path, None)] + match mode {
                    None => Seq::empty(),
                    Some(Ok(m)) => if m % 512 == 384 {
                        seq![(CheckStatus::Okay, "Token permissions"@, "0600 (secure)"@, None)]
                    } else {
                        seq![
                            (
                                CheckStatus::Warning,
                                "Token permissions"@,
                                octal4(m % 512) + " (expected 0600)"@,
                                Some("Fix with: chmod 600 ~/.config/pulsos/daemon.token"@),
                            ),
                        ]
                    },
                    Some(Err(e)) => seq![
                        (CheckStatus::Warning, "Token permissions"@, "could not read metadata: "@ + e, None),
                    ],
                },
            }
        },
    }
}

/// The daemon checks. `mode` is the token file's permission bits where the
/// system has them (`Err` when they could not be read).
pub fn daemon_checks(port: Option<u16>, alive: bool, token_path: &Option<String>, mode: &Option<Result<u32, String>>) -> (r:
    Vec<CheckResult>)
    ensures
        checks_view(r@) == daemon_report(
            port,
            alive,
            opt_text(*token_path),
            match mode {
                None => None,
                Some(Ok(m)) => Some(Ok(*m)),
                Some(Err(e)) => Some(Err(e@)),
            },
        ),
{
    let mut out: Vec<CheckResult> = Vec::new();
    let ghost m_view = match mode {
        None => None,
        Some(Ok(m)) => Some(Ok(*m)),
        Some(Err(e)) => Some(Err::<u32, Seq<char>>(e@)),
    };
    let p = match port {
        None => {
            out.push(CheckResult::ok("Status", "not running"));
            assert(checks_view(out@) =~= daemon_report(port, alive, opt_text(*token_path), m_view));
            return out;
        },
        Some(p) => p,
    };
    if !alive {
        let mut value = owned("port file exists (port ");
        push_decimal(&mut value, p as u64);
        push_str(&mut value, ") but /health did not respond");
        out.push(
            CheckResult::warning("Status", value.as_str()).with_detail(
                "Run `pulsos daemon stop` to clean up stale files, then `pulsos daemon start`",
            ),
        );
        assert(checks_view(out@) =~= daemon_report(port, alive, opt_text(*token_path), m_view));
        return out;
    }
    let mut running = owned("running on port ");
    push_decimal(&mut running, p as u64);
    out.push(CheckResult::ok("Status", running.as_str()));
    let path = match token_path {
        None => {
            out.push(
                CheckResult::warning("Token file", "daemon.token missing").with_detail(
                    "The SSE stream cannot be authenticated. Restart the daemon.",
                ),
            );
            assert(checks_view(out@) =~= daemon_report(port, alive, opt_text(*token_path), m_view));
            return out;
        },
        Some(path) => path,
    };
    out.push(CheckResult::ok("Token file", path.as_str()));
    match mode {
        None => {},
        Some(Ok(m)) => {
            let bits = *m % 512;
            if bits == 384 {
                out.push(CheckResult::ok("Token permissions", "0600 (secure)"));
            } else {
                let mut value = String::new();
                crate::text::push_char(&mut value, digit(bits / 512));
                crate::text::push_char(&mut value, digit((bits / 64) % 8));
                crate::text::push_char(&mut value, digit((bits / 8) % 8));
                crate::text::push_char(&mut value, digit(bits % 8));
                assert((bits as nat) % 4096 == bits as nat);
                assert(value@ =~= octal4(bits));
                push_str(&mut value, " (expected 0600)");
                out.push(
                    CheckResult::warning("Token permissions", value.as_str()).with_detail(
                        "Fix with: chmod 600 ~/.config/pulsos/daemon.token",
                    ),
                );
            }
        },
        Some(Err(e)) => {
            let mut value = owned("could not read metadata: ");
            push_str(&mut value, e.as_str());
            out.push(CheckResult::warning("Token permissions", value.as_str()));
        },
    }
    assert(checks_view(out@) =~= daemon_report(port, alive, opt_text(*token_path), m_view));
    out
}

/// The System section: the operating system with its architecture, the
/// shell's program name and the terminal, all reported as fine.
pub open spec fn system_report(os: Seq<char>, arch: Seq<char>, shell: Seq<char>, terminal: Seq<char>) -> Seq<
    (CheckStatus, Seq<char>, Seq<char>, Option<Seq<char>>),
> {
    seq![
        (CheckStatus::Okay, "OS"@, os + " ("@ + arch + ")"@, None),
        (CheckStatus::Okay, "Shell"@, shell, None),
        (CheckStatus::Okay, "Terminal"@, terminal, None),
    ]
}

/// The checks of the System section.
pub fn system_checks(os: &str, arch: &str, shell: &str, terminal: &str) -> (r: Vec<CheckResult>)
    ensures
        checks_view(r@) == system_report(os@, arch@, shell@, terminal@),
{
    let mut out: Vec<CheckResult> = Vec::new();
    let mut os_info = owned(os);
    push_str(&mut os_info, " (");
    push_str(&mut os_info, arch);
    push_str(&mut os_info, ")");
    push_check(&mut out, CheckResult::ok("OS", os_info.as_str()));
    push_check(&mut out, CheckResult::ok("Shell", shell));
    push_check(&mut out, CheckResult::ok("Terminal", terminal));
    assert(checks_view(out@) =~= system_report(os@, arch@, shell@, terminal@));
    out
}

} // verus!
