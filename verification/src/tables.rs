//! The rows of the dashboard's tables: the order and cells of the Unified
//! table, and the cells of the GitHub, Railway and Vercel tables of the
//! Platform tab, with the pipeline stages of a CI run.

use vstd::prelude::*;
use crate::config::{after_last, last_segment, opt_view};
use crate::domain::{CorrelatedEvent, DeploymentEvent, JobSummary};
use crate::output::{age_of, chars_within, duration_text, format_age, format_duration, leading_bytes, project_label, project_name_of, title_of};
use crate::screen::{byte_len, utf8_len};
use crate::sorting::{push_line, texts};
use crate::tabs::UnifiedSort;
use crate::text::{char_at, char_count, owned, pop_char, push_char, push_str};
use crate::widgets::{badge_of, detail_of, platform_detail_text, platform_sort_key, short_sha, short_sha_of, status_badge};

verus! {

// ── Unified table ───────────────────────────────────────────────────────────

/// The group of a row when the table is sorted by platform: Railway first,
/// then Vercel, then GitHub-only, then the rest.
pub open spec fn sort_key(c: CorrelatedEvent) -> u8 {
    if c.railway is Some {
        0
    } else if c.vercel is Some {
        1
    } else if c.github is Some {
        2
    } else {
        3
    }
}

/// The positions of the groups whose key is `k`, in order.
pub open spec fn positions_with(cs: Seq<CorrelatedEvent>, k: u8) -> Seq<usize>
    decreases cs.len(),
{
    if cs.len() == 0 {
        Seq::empty()
    } else {
        let p = positions_with(cs.drop_last(), k);
        if sort_key(cs.last()) == k {
            p.push((cs.len() - 1) as usize)
        } else {
            p
        }
    }
}

/// The order in which the Unified table lists the groups: as they come
/// (newest first) by time, or stably grouped by platform.
pub open spec fn unified_order_of(cs: Seq<CorrelatedEvent>, sort: UnifiedSort) -> Seq<usize> {
    match sort {
        UnifiedSort::ByTime => Seq::new(cs.len(), |i: int| i as usize),
        UnifiedSort::ByPlatform => positions_with(cs, 0) + positions_with(cs, 1) + positions_with(cs, 2)
            + positions_with(cs, 3),
    }
}

fn push_positions(out: &mut Vec<usize>, cs: &Vec<CorrelatedEvent>, k: u8)
    requires
        old(out)@.len() + cs@.len() <= usize::MAX,
    ensures
        final(out)@ == old(out)@ + positions_with(cs@, k),
{
    let ghost start = out@;
    let mut i: usize = 0;
    proof {
        lemma_positions_len(cs@.take(0), k);
    }
    while i < cs.len()
        invariant
            i <= cs@.len(),
            out@ == start + positions_with(cs@.take(i as int), k),
    decreases cs@.len() - i,
    {
        assert(cs@.take(i + 1).drop_last() =~= cs@.take(i as int));
        assert(cs@.take(i + 1).last() == cs@[i as int]);
        if platform_sort_key(&cs[i]) == k {
            out.push(i);
        }
        i = i + 1;
    }
    assert(cs@.take(cs@.len() as int) =~= cs@);
}

proof fn lemma_positions_len(cs: Seq<CorrelatedEvent>, k: u8)
    ensures
        positions_with(cs, k).len() <= cs.len(),
    decreases cs.len(),
{
    if cs.len() > 0 {
        lemma_positions_len(cs.drop_last(), k);
    }
}

/// The rows of the Unified table, as positions in `correlated`.
pub fn unified_order(correlated: &Vec<CorrelatedEvent>, sort: UnifiedSort) -> (r: Vec<usize>)
    requires
        4 * correlated@.len() <= usize::MAX,
    ensures
        r@ == unified_order_of(correlated@, sort),
{
    let mut out: Vec<usize> = Vec::new();
    match sort {
        UnifiedSort::ByTime => {
            let mut i: usize = 0;
            while i < correlated.len()
                invariant
                    i <= correlated@.len(),
                    out@ == Seq::new(i as nat, |j: int| j as usize),
                decreases correlated@.len() - i,
            {
                out.push(i);
                i = i + 1;
                assert(out@ =~= Seq::new(i as nat, |j: int| j as usize));
            }
            assert(out@ =~= unified_order_of(correlated@, sort));
        },
        UnifiedSort::ByPlatform => {
            proof {
                lemma_positions_len(correlated@, 0);
                lemma_positions_len(correlated@, 1);
                lemma_positions_len(correlated@, 2);
            }
            push_positions(&mut out, correlated, 0);
            push_positions(&mut out, correlated, 1);
            push_positions(&mut out, correlated, 2);
            push_positions(&mut out, correlated, 3);
            assert(out@ =~= unified_order_of(correlated@, sort));
        },
    }
    out
}

/// A status cell: its icon and word.
pub open spec fn cell_view(c: Option<(String, String)>) -> Option<(Seq<char>, Seq<char>)> {
    match c {
        Some((a, b)) => Some((a@, b@)),
        None => None,
    }
}

/// The status cell of a provider's event in a group, if it has one.
pub open spec fn badge_cell(e: Option<DeploymentEvent>, now_ms: int) -> Option<(Seq<char>, Seq<char>)> {
    match e {
        Some(ev) => Some(badge_of(ev.status, now_ms)),
        None => None,
    }
}

/// The message cell: the GitHub, Railway or Vercel title, else "-".
pub open spec fn message_of(c: CorrelatedEvent) -> Seq<char> {
    match title_of(c.github) {
        Some(t) => t,
        None => match title_of(c.railway) {
            Some(t) => t,
            None => match title_of(c.vercel) {
                Some(t) => t,
                None => "-"@,
            },
        },
    }
}

/// The branch of an optional event.
pub open spec fn branch_of(e: Option<DeploymentEvent>) -> Option<Seq<char>> {
    match e {
        Some(ev) => opt_view(ev.branch),
        None => None,
    }
}

/// The branch cell: GitHub's branch, else Vercel's, else "-".
pub open spec fn unified_branch(c: CorrelatedEvent) -> Seq<char> {
    match branch_of(c.github) {
        Some(b) => b,
        None => match branch_of(c.vercel) {
            Some(b) => b,
            None => "-"@,
        },
    }
}

/// The Unified row's branch cell: the GitHub event's branch when it has
/// one; otherwise the Vercel event's branch when that has one; else "-".
pub proof fn unified_branch_prefers_github_then_vercel(c: CorrelatedEvent)
    ensures
        c.github matches Some(g) ==> (g.branch matches Some(b) ==> unified_branch(c) == b@),
        !(c.github matches Some(g) && g.branch is Some) ==> (c.vercel matches Some(v) ==> (v.branch matches Some(b)
            ==> unified_branch(c) == b@)),
        !(c.github matches Some(g) && g.branch is Some) && !(c.vercel matches Some(v) && v.branch is Some)
            ==> unified_branch(c) == "-"@,
{
}

/// The age cell, with a dot when the group is stale.
pub open spec fn unified_age(c: CorrelatedEvent, now_ms: int) -> Seq<char> {
    age_of(c.timestamp as int, now_ms) + if c.is_stale {
        " ●"@
    } else {
        Seq::empty()
    }
}

/// Cutting `s` after `n` bytes does not split a character.
pub open spec fn cuts_cleanly(s: Seq<char>, n: nat) -> bool {
    utf8_len(s) > n ==> utf8_len(s.take(chars_within(s, n as int) as int)) == n
}

/// The cells of one row of the Unified table.
#[derive(Debug)]
pub struct UnifiedRow {
    pub project: String,
    pub sha: String,
    pub message: String,
    pub github: Option<(String, String)>,
    pub railway: Option<(String, String)>,
    pub vercel: Option<(String, String)>,
    pub branch: String,
    pub age: String,
}

fn event_badge(e: &Option<DeploymentEvent>, now_ms: i64) -> (r: Option<(String, String)>)
    requires
        now_ms >= 0,
    ensures
        cell_view(r) == badge_cell(*e, now_ms as int),
{
    match e {
        Some(ev) => Some(status_badge(&ev.status, now_ms)),
        None => None,
    }
}

fn event_title(e: &Option<DeploymentEvent>) -> (r: Option<String>)
    ensures
        opt_view(r) == title_of(*e),
{
    match e {
        Some(ev) => match &ev.title {
            Some(t) => Some(t.clone()),
            None => None,
        },
        None => None,
    }
}

fn event_branch(e: &Option<DeploymentEvent>) -> (r: Option<String>)
    ensures
        opt_view(r) == branch_of(*e),
{
    match e {
        Some(ev) => match &ev.branch {
            Some(b) => Some(b.clone()),
            None => None,
        },
        None => None,
    }
}

/// The cells of a group's row at time `now_ms`.
pub fn unified_row(c: &CorrelatedEvent, now_ms: i64) -> (r: UnifiedRow)
    requires
        now_ms >= 0,
        c.commit_sha matches Some(s) ==> cuts_cleanly(s@, 7),
    ensures
        r.project@ == project_label(*c),
        r.sha@ == short_sha_of(opt_view(c.commit_sha)),
        r.message@ == message_of(*c),
        cell_view(r.github) == badge_cell(c.github, now_ms as int),
        cell_view(r.railway) == badge_cell(c.railway, now_ms as int),
        cell_view(r.vercel) == badge_cell(c.vercel, now_ms as int),
        r.branch@ == unified_branch(*c),
        r.age@ == unified_age(*c, now_ms as int),
{
    let sha = match &c.commit_sha {
        Some(s) => short_sha(Some(s.as_str())),
        None => short_sha(None),
    };
    let message = group_message(c);
    let branch = match event_branch(&c.github) {
        Some(b) => b,
        None => match event_branch(&c.vercel) {
            Some(b) => b,
            None => owned("-"),
        },
    };
    let mut age = format_age(c.timestamp, now_ms);
    if c.is_stale {
        push_str(&mut age, " ●");
    }
    UnifiedRow {
        project: project_name_of(c),
        sha,
        message,
        github: event_badge(&c.github, now_ms),
        railway: event_badge(&c.railway, now_ms),
        vercel: event_badge(&c.vercel, now_ms),
        branch,
        age,
    }
}

// ── Provider tables ─────────────────────────────────────────────────────────

/// The first `n` bytes of `s` when it is longer, else `s`.
pub open spec fn byte_prefix(s: Seq<char>, n: nat) -> Seq<char> {
    if utf8_len(s) > n {
        s.take(chars_within(s, n as int) as int)
    } else {
        s
    }
}

fn prefix_bytes(s: &str, n: u32) -> (r: String)
    ensures
        r@ == byte_prefix(s@, n as nat),
{
    if byte_len(s) > n as u128 {
        leading_bytes(s, n)
    } else {
        owned(s)
    }
}

/// An optional text, or "-".
pub open spec fn or_dash(o: Option<String>) -> Seq<char> {
    match o {
        Some(s) => s@,
        None => "-"@,
    }
}

fn text_or_dash(o: &Option<String>) -> (r: String)
    ensures
        r@ == or_dash(*o),
{
    match o {
        Some(s) => s.clone(),
        None => owned("-"),
    }
}

/// The duration cell: the formatted duration, or "-".
pub open spec fn duration_cell(d: Option<u64>) -> Seq<char> {
    match d {
        Some(s) => duration_text(s as nat),
        None => "-"@,
    }
}

fn duration_or_dash(d: Option<u64>) -> (r: String)
    ensures
        r@ == duration_cell(d),
{
    match d {
        Some(s) => format_duration(s),
        None => owned("-"),
    }
}

/// The pieces of `s` between the separators, as `str::split` gives them.
pub open spec fn split_on(s: Seq<char>, sep: char) -> Seq<Seq<char>>
    decreases s.len(),
{
    if s.len() == 0 {
        seq![Seq::empty()]
    } else {
        let rest = split_on(s.drop_last(), sep);
        if s.last() == sep {
            rest.push(Seq::empty())
        } else {
            rest.update(rest.len() - 1, rest.last().push(s.last()))
        }
    }
}

proof fn lemma_split_nonempty(s: Seq<char>, sep: char)
    ensures
        split_on(s, sep).len() >= 1,
    decreases s.len(),
{
    if s.len() > 0 {
        lemma_split_nonempty(s.drop_last(), sep);
    }
}

/// The pieces of `s` between `sep`s.
fn split_text(s: &str, sep: char) -> (r: Vec<String>)
    ensures
        texts(r@) == split_on(s@, sep),
{
    let n = char_count(s);
    let mut parts: Vec<String> = Vec::new();
    parts.push(String::new());
    let mut i: usize = 0;
    assert(texts(parts@) =~= split_on(s@.take(0), sep));
    while i < n
        invariant
            i <= n,
            n == s@.len(),
            texts(parts@) == split_on(s@.take(i as int), sep),
            parts@.len() >= 1,
        decreases n - i,
    {
        let c = char_at(s, i);
        let ghost before = texts(parts@);
        proof {
            assert(s@.take(i + 1).drop_last() =~= s@.take(i as int));
            assert(s@.take(i + 1).last() == c);
        }
        if c == sep {
            parts.push(String::new());
            assert(texts(parts@) =~= before.push(Seq::empty()));
        } else {
            let mut last = match parts.pop() {
                Some(l) => l,
                None => String::new(),
            };
            push_char(&mut last, c);
            parts.push(last);
            assert(texts(parts@) =~= before.update(before.len() - 1, before.last().push(c)));
        }
        i = i + 1;
    }
    assert(s@.take(n as int) =~= s@);
    parts
}

/// Piece `k` of `s` split at `sep`, when there is one.
pub open spec fn piece(s: Seq<char>, sep: char, k: nat) -> Option<Seq<char>> {
    if k < split_on(s, sep).len() {
        Some(split_on(s, sep)[k as int])
    } else {
        None
    }
}

fn piece_of(s: &str, sep: char, k: usize) -> (r: Option<String>)
    ensures
        opt_view(r) == piece(s@, sep, k as nat),
{
    let mut parts = split_text(s, sep);
    if k < parts.len() {
        let ghost all = texts(parts@);
        let p = parts.swap_remove(k);
        assert(p@ == all[k as int]);
        Some(p)
    } else {
        None
    }
}

/// An optional text, else a piece of the key, else "-".
pub open spec fn named_or_piece(name: Option<String>, key: Option<String>, k: nat) -> Seq<char> {
    match name {
        Some(n) => n@,
        None => match piece(or_empty_key(key), ':', k) {
            Some(p) => p,
            None => "-"@,
        },
    }
}

/// The key, or empty without one.
pub open spec fn or_empty_key(o: Option<String>) -> Seq<char> {
    match o {
        Some(s) => s@,
        None => Seq::empty(),
    }
}

fn name_or_piece(name: &Option<String>, key: &Option<String>, k: usize) -> (r: String)
    ensures
        r@ == named_or_piece(*name, *key, k as nat),
{
    match name {
        Some(n) => n.clone(),
        None => {
            let found = match key {
                Some(s) => piece_of(s.as_str(), ':', k),
                None => piece_of("", ':', k),
            };
            proof {
                reveal_strlit("");
            }
            match found {
                Some(p) => p,
                None => owned("-"),
            }
        },
    }
}

/// The name of a CI job as a pipeline stage: longer than eight bytes, its
/// first seven bytes and an ellipsis.
pub open spec fn stage_name(name: Seq<char>) -> Seq<char> {
    if utf8_len(name) > 8 {
        name.take(chars_within(name, 7) as int).push('…')
    } else {
        name
    }
}

/// The pipeline stages of a CI run: each job's status icon and name.
pub open spec fn stages_of(jobs: Seq<JobSummary>, now_ms: int) -> Seq<Seq<char>> {
    jobs.map_values(|j: JobSummary| badge_of(j.status, now_ms).0 + stage_name(j.name@))
}

/// The pipeline stages of a CI run, one text per job (drawn joined by
/// " › "). Names longer than eight bytes must cut cleanly after seven.
pub fn pipeline_stages(jobs: &Vec<JobSummary>, now_ms: i64) -> (r: Vec<String>)
    requires
        now_ms >= 0,
        forall|i: int| 0 <= i < jobs@.len() ==> #[trigger] utf8_len(jobs@[i].name@) > 8 ==> utf8_len(
            jobs@[i].name@.take(chars_within(jobs@[i].name@, 7) as int),
        ) == 7,
    ensures
        texts(r@) == stages_of(jobs@, now_ms as int),
{
    let mut out: Vec<String> = Vec::new();
    let mut i: usize = 0;
    while i < jobs.len()
        invariant
            i <= jobs@.len(),
            now_ms >= 0,
            texts(out@) == stages_of(jobs@.take(i as int), now_ms as int),
        decreases jobs@.len() - i,
    {
        let job = &jobs[i];
        let (icon, _) = status_badge(&job.status, now_ms);
        let mut text = icon;
        if byte_len(job.name.as_str()) > 8 {
            let cut = leading_bytes(job.name.as_str(), 7);
            push_str(&mut text, cut.as_str());
            push_char(&mut text, '…');
        } else {
            push_str(&mut text, job.name.as_str());
        }
        push_line(&mut out, text);
        proof {
            assert(jobs@.take(i + 1) =~= jobs@.take(i as int).push(jobs@[i as int]));
            assert(texts(out@) =~= stages_of(jobs@.take(i + 1), now_ms as int));
        }
        i = i + 1;
    }
    assert(jobs@.take(jobs@.len() as int) =~= jobs@);
    out
}

/// One row of a provider table: the status cell and the other cells.
#[derive(Debug)]
pub struct EventRow {
    pub status: (String, String),
    pub cells: Vec<String>,
}

/// The title cell of a GitHub run: its workflow, else its title, else the
/// first twelve bytes of its id.
pub open spec fn run_title(e: DeploymentEvent) -> Seq<char> {
    match e.metadata.workflow_name {
        Some(w) => w@,
        None => match e.title {
            Some(t) => t@,
            None => byte_prefix(e.id@, 12),
        },
    }
}

/// The repository cell: the last path segment of the source, or "-".
pub open spec fn repo_cell(e: DeploymentEvent) -> Seq<char> {
    match e.metadata.source_id {
        Some(s) => last_segment(s@, '/'),
        None => "-"@,
    }
}

/// The cells of a GitHub run after its status: workflow, repository,
/// commit, branch, actor, age, duration and detail.
pub open spec fn github_cells(e: DeploymentEvent, now_ms: int) -> Seq<Seq<char>> {
    seq![
        run_title(e),
        repo_cell(e),
        short_sha_of(opt_view(e.commit_sha)),
        or_dash(e.branch),
        or_dash(e.actor),
        age_of(e.created_at as int, now_ms),
        duration_cell(e.duration_secs),
        detail_of(e),
    ]
}

/// The cells of a Railway deployment after its status: service,
/// environment, commit, branch, address, age, duration and message.
pub open spec fn railway_cells(e: DeploymentEvent, now_ms: int) -> Seq<Seq<char>> {
    seq![
        named_or_piece(e.metadata.service_name, e.metadata.source_id, 1),
        named_or_piece(e.metadata.environment_name, e.metadata.source_id, 2),
        short_sha_of(opt_view(e.commit_sha)),
        or_dash(e.branch),
        or_dash(e.url),
        age_of(e.created_at as int, now_ms),
        duration_cell(e.duration_secs),
        or_dash(e.title),
    ]
}

/// The address of a Vercel deployment: its URL, else its preview URL.
pub open spec fn vercel_address(e: DeploymentEvent) -> Seq<char> {
    match e.url {
        Some(u) => u@,
        None => or_dash(e.metadata.preview_url),
    }
}

/// The cells of a Vercel deployment after its status: project, target,
/// address, commit, branch, age, duration and message.
pub open spec fn vercel_cells(e: DeploymentEvent, now_ms: int) -> Seq<Seq<char>> {
    seq![
        or_dash(e.metadata.source_id),
        or_dash(e.metadata.deploy_target),
        vercel_address(e),
        short_sha_of(opt_view(e.commit_sha)),
        or_dash(e.branch),
        age_of(e.created_at as int, now_ms),
        duration_cell(e.duration_secs),
        or_dash(e.title),
    ]
}

fn event_sha(e: &DeploymentEvent) -> (r: String)
    requires
        e.commit_sha matches Some(s) ==> cuts_cleanly(s@, 7),
    ensures
        r@ == short_sha_of(opt_view(e.commit_sha)),
{
    match &e.commit_sha {
        Some(s) => short_sha(Some(s.as_str())),
        None => short_sha(None),
    }
}

/// A row of the GitHub table.
pub fn github_row(e: &DeploymentEvent, now_ms: i64) -> (r: EventRow)
    requires
        now_ms >= 0,
        e.commit_sha matches Some(s) ==> cuts_cleanly(s@, 7),
        e.metadata.workflow_name is None && e.title is None ==> cuts_cleanly(e.id@, 12),
    ensures
        (r.status.0@, r.status.1@) == badge_of(e.status, now_ms as int),
        texts(r.cells@) == github_cells(*e, now_ms as int),
{
    let title = match &e.metadata.workflow_name {
        Some(w) => w.clone(),
        None => match &e.title {
            Some(t) => t.clone(),
            None => prefix_bytes(e.id.as_str(), 12),
        },
    };
    let repo = match &e.metadata.source_id {
        Some(s) => after_last(s.as_str(), '/'),
        None => owned("-"),
    };
    let mut cells: Vec<String> = Vec::new();
    push_line(&mut cells, title);
    push_line(&mut cells, repo);
    push_line(&mut cells, event_sha(e));
    push_line(&mut cells, text_or_dash(&e.branch));
    push_line(&mut cells, text_or_dash(&e.actor));
    push_line(&mut cells, format_age(e.created_at, now_ms));
    push_line(&mut cells, duration_or_dash(e.duration_secs));
    push_line(&mut cells, platform_detail_text(e));
    assert(texts(cells@) =~= github_cells(*e, now_ms as int));
    EventRow { status: status_badge(&e.status, now_ms), cells }
}

/// A row of the Railway table.
pub fn railway_row(e: &DeploymentEvent, now_ms: i64) -> (r: EventRow)
    requires
        now_ms >= 0,
        e.commit_sha matches Some(s) ==> cuts_cleanly(s@, 7),
    ensures
        (r.status.0@, r.status.1@) == badge_of(e.status, now_ms as int),
        texts(r.cells@) == railway_cells(*e, now_ms as int),
{
    let mut cells: Vec<String> = Vec::new();
    push_line(&mut cells, name_or_piece(&e.metadata.service_name, &e.metadata.source_id, 1));
    push_line(&mut cells, name_or_piece(&e.metadata.environment_name, &e.metadata.source_id, 2));
    push_line(&mut cells, event_sha(e));
    push_line(&mut cells, text_or_dash(&e.branch));
    push_line(&mut cells, text_or_dash(&e.url));
    push_line(&mut cells, format_age(e.created_at, now_ms));
    push_line(&mut cells, duration_or_dash(e.duration_secs));
    push_line(&mut cells, text_or_dash(&e.title));
    assert(texts(cells@) =~= railway_cells(*e, now_ms as int));
    EventRow { status: status_badge(&e.status, now_ms), cells }
}

/// A row of the Vercel table.
pub fn vercel_row(e: &DeploymentEvent, now_ms: i64) -> (r: EventRow)
    requires
        now_ms >= 0,
        e.commit_sha matches Some(s) ==> cuts_cleanly(s@, 7),
    ensures
        (r.status.0@, r.status.1@) == badge_of(e.status, now_ms as int),
        texts(r.cells@) == vercel_cells(*e, now_ms as int),
{
    let address = match &e.url {
        Some(u) => u.clone(),
        None => text_or_dash(&e.metadata.preview_url),
    };
    let mut cells: Vec<String> = Vec::new();
    push_line(&mut cells, text_or_dash(&e.metadata.source_id));
    push_line(&mut cells, text_or_dash(&e.metadata.deploy_target));
    push_line(&mut cells, address);
    push_line(&mut cells, event_sha(e));
    push_line(&mut cells, text_or_dash(&e.branch));
    push_line(&mut cells, format_age(e.created_at, now_ms));
    push_line(&mut cells, duration_or_dash(e.duration_secs));
    push_line(&mut cells, text_or_dash(&e.title));
    assert(texts(cells@) =~= vercel_cells(*e, now_ms as int));
    EventRow { status: status_badge(&e.status, now_ms), cells }
}

// ── Health detail ───────────────────────────────────────────────────────────

/// The positions of the groups of project `p`, in order.
pub open spec fn positions_of_project(cs: Seq<CorrelatedEvent>, p: Seq<char>) -> Seq<usize>
    decreases cs.len(),
{
    if cs.len() == 0 {
        Seq::empty()
    } else {
        let q = positions_of_project(cs.drop_last(), p);
        if opt_view(cs.last().project_name) == Some(p) {
            q.push((cs.len() - 1) as usize)
        } else {
            q
        }
    }
}

/// The recent events listed for a project: its first four groups.
pub open spec fn recent_of(cs: Seq<CorrelatedEvent>, p: Seq<char>) -> Seq<usize> {
    let all = positions_of_project(cs, p);
    if all.len() > 4 {
        all.take(4)
    } else {
        all
    }
}

/// The groups of project `project` the Health tab lists as recent events,
/// as positions in `correlated`.
pub fn recent_for_project(correlated: &Vec<CorrelatedEvent>, project: &str) -> (r: Vec<usize>)
    ensures
        r@ == recent_of(correlated@, project@),
{
    let mut out: Vec<usize> = Vec::new();
    let mut i: usize = 0;
    while i < correlated.len() && out.len() < 4
        invariant
            i <= correlated@.len(),
            out@ == positions_of_project(correlated@.take(i as int), project@),
            out@.len() <= 4,
        decreases correlated@.len() - i,
    {
        assert(correlated@.take(i + 1).drop_last() =~= correlated@.take(i as int));
        let named = match &correlated[i].project_name {
            Some(n) => crate::text::str_eq(n.as_str(), project),
            None => false,
        };
        if named {
            out.push(i);
        }
        i = i + 1;
    }
    proof {
        lemma_positions_of_project_grow(correlated@, project@, i as int);
    }
    out
}

proof fn lemma_positions_of_project_grow(cs: Seq<CorrelatedEvent>, p: Seq<char>, i: int)
    requires
        0 <= i <= cs.len(),
        i < cs.len() ==> positions_of_project(cs.take(i), p).len() >= 4,
    ensures
        recent_of(cs, p) == (if positions_of_project(cs.take(i), p).len() > 4 {
            positions_of_project(cs.take(i), p).take(4)
        } else {
            positions_of_project(cs.take(i), p)
        }),
    decreases cs.len() - i,
{
    if i == cs.len() {
        assert(cs.take(i) =~= cs);
    } else {
        lemma_prefix_positions(cs, p, i);
    }
}

proof fn lemma_prefix_positions(cs: Seq<CorrelatedEvent>, p: Seq<char>, i: int)
    requires
        0 <= i <= cs.len(),
    ensures
        positions_of_project(cs, p).len() >= positions_of_project(cs.take(i), p).len(),
        positions_of_project(cs, p).take(positions_of_project(cs.take(i), p).len() as int)
            == positions_of_project(cs.take(i), p),
    decreases cs.len(),
{
    if i == cs.len() {
        assert(cs.take(i) =~= cs);
        assert(positions_of_project(cs, p).take(positions_of_project(cs, p).len() as int) =~= positions_of_project(cs, p));
    } else {
        lemma_prefix_positions(cs.drop_last(), p, i);
        assert(cs.drop_last().take(i) =~= cs.take(i));
        let a = positions_of_project(cs.drop_last(), p);
        let b = positions_of_project(cs.take(i), p);
        if opt_view(cs.last().project_name) == Some(p) {
            assert(a.push((cs.len() - 1) as usize).take(b.len() as int) =~= a.take(b.len() as int));
        }
    }
}

/// The mark of a group in the recent list: the status of its GitHub, else
/// Railway, else Vercel event; "? " and "unknown" with none.
pub open spec fn overall_badge_of(c: CorrelatedEvent, now_ms: int) -> (Seq<char>, Seq<char>) {
    match c.github {
        Some(e) => badge_of(e.status, now_ms),
        None => match c.railway {
            Some(e) => badge_of(e.status, now_ms),
            None => match c.vercel {
                Some(e) => badge_of(e.status, now_ms),
                None => ("? "@, "unknown"@),
            },
        },
    }
}

/// The mark of a group in the recent list.
pub fn overall_badge(c: &CorrelatedEvent, now_ms: i64) -> (r: (String, String))
    requires
        now_ms >= 0,
    ensures
        (r.0@, r.1@) == overall_badge_of(*c, now_ms as int),
{
    match &c.github {
        Some(e) => status_badge(&e.status, now_ms),
        None => match &c.railway {
            Some(e) => status_badge(&e.status, now_ms),
            None => match &c.vercel {
                Some(e) => status_badge(&e.status, now_ms),
                None => (owned("? "), owned("unknown")),
            },
        },
    }
}

/// The message of a group in the recent list (its title, else "-").
pub fn group_message(c: &CorrelatedEvent) -> (r: String)
    ensures
        r@ == message_of(*c),
{
    match event_title(&c.github) {
        Some(t) => t,
        None => match event_title(&c.railway) {
            Some(t) => t,
            None => match event_title(&c.vercel) {
                Some(t) => t,
                None => owned("-"),
            },
        },
    }
}

} // verus!
