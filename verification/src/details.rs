//! The GitHub run tree of the Platform tab: a run header, its jobs and,
//! for expanded jobs, their steps; and the pane beside it that summarises
//! the selected run, job or step.

use vstd::prelude::*;
use std::collections::HashSet;
use crate::app::{pick, same_but_details, App};
use crate::domain::{DeploymentEvent, DeploymentStatus, JobDetail, JobStepSummary, JobSummary, Platform};
use crate::tabs::{DetailsFocus, PlatformSubtab, Tab};
use crate::text::{decimal, owned, parse_u64, parsed_u64, push_decimal, push_str, str_eq};
use crate::widgets::or_empty;

verus! {

broadcast use vstd::std_specs::hash::group_hash_axioms;

/// What a tree line stands for.
#[derive(Debug, Clone, Copy, PartialEq, Eq, Structural)]
pub enum TreeItemKind {
    RunHeader,
    Job { job_id: u64, job_idx: usize },
    Step { job_id: u64, job_idx: usize, step_idx: usize },
}

/// One line of the run tree.
#[derive(Debug)]
pub struct TreeItem {
    pub kind: TreeItemKind,
    pub depth: u8,
    pub label: String,
    pub status: DeploymentStatus,
}

/// What the pane beside the tree shows.
#[derive(Debug)]
pub enum RightContent {
    Summary { lines: Vec<String> },
    Error { message: String },
}

/// The run tree and details pane of one GitHub run.
#[derive(Debug)]
pub struct PlatformDetailsState {
    /// Position of the run among the listed events.
    pub anchor_event_index: usize,
    pub anchor_event_id: String,
    pub repo: String,
    pub run_id: u64,
    pub focus: DetailsFocus,
    pub tree_items: Vec<TreeItem>,
    pub tree_cursor: usize,
    pub expanded_jobs: HashSet<u64>,
    pub tree_scroll: usize,
    pub right_scroll: usize,
    pub right_content: RightContent,
    /// Whether the pane beside the tree is open.
    pub show_logs: bool,
}

/// A tree line as (kind, depth, label, status).
pub open spec fn item_view(t: TreeItem) -> (TreeItemKind, u8, Seq<char>, DeploymentStatus) {
    (t.kind, t.depth, t.label@, t.status)
}

pub open spec fn items_view(s: Seq<TreeItem>) -> Seq<(TreeItemKind, u8, Seq<char>, DeploymentStatus)> {
    s.map_values(|t: TreeItem| item_view(t))
}

/// The id given to the job at position `i` when it reports none
/// (ten billion plus its position, wrapping at 2^64).
pub open spec fn synthetic_id(i: int) -> u64 {
    if i + 10_000_000_000 <= u64::MAX {
        (i + 10_000_000_000) as u64
    } else {
        (i + 10_000_000_000 - 18_446_744_073_709_551_616) as u64
    }
}

fn synthetic_job_id(i: usize) -> (r: u64)
    ensures
        r == synthetic_id(i as int),
{
    let x = i as u64;
    if x <= u64::MAX - 10_000_000_000 {
        x + 10_000_000_000
    } else {
        x - (u64::MAX - 10_000_000_000) - 1
    }
}

pub open spec fn job_id_of(j: JobDetail, i: int) -> u64 {
    match j.job_id {
        Some(id) => id,
        None => synthetic_id(i),
    }
}

/// The step lines of a job: "number. name", depth 2.
pub open spec fn step_items(steps: Seq<JobStepSummary>, job_id: u64, job_idx: int, n: int) -> Seq<
    (TreeItemKind, u8, Seq<char>, DeploymentStatus),
>
    decreases n,
{
    if n <= 0 {
        Seq::empty()
    } else {
        step_items(steps, job_id, job_idx, n - 1) + seq![
            (
                TreeItemKind::Step { job_id, job_idx: job_idx as usize, step_idx: (n - 1) as usize },
                2u8,
                decimal(steps[n - 1].number as nat) + ". "@ + steps[n - 1].name@,
                steps[n - 1].status,
            ),
        ]
    }
}

/// The lines of the first `n` detailed jobs, each followed by its steps
/// when expanded.
pub open spec fn job_items(jobs: Seq<JobDetail>, expanded: Set<u64>, n: int) -> Seq<
    (TreeItemKind, u8, Seq<char>, DeploymentStatus),
>
    decreases n,
{
    if n <= 0 {
        Seq::empty()
    } else {
        let j = jobs[n - 1];
        let id = job_id_of(j, n - 1);
        job_items(jobs, expanded, n - 1) + seq![
            (TreeItemKind::Job { job_id: id, job_idx: (n - 1) as usize }, 1u8, j.name@, j.status),
        ] + (if expanded.contains(id) {
            step_items(j.steps@, id, n - 1, j.steps@.len() as int)
        } else {
            Seq::empty()
        })
    }
}

/// The lines of the first `n` listed jobs (no steps known).
pub open spec fn summary_items(jobs: Seq<JobSummary>, n: int) -> Seq<(TreeItemKind, u8, Seq<char>, DeploymentStatus)>
    decreases n,
{
    if n <= 0 {
        Seq::empty()
    } else {
        summary_items(jobs, n - 1) + seq![
            (
                TreeItemKind::Job { job_id: synthetic_id(n - 1), job_idx: (n - 1) as usize },
                1u8,
                jobs[n - 1].name@,
                jobs[n - 1].status,
            ),
        ]
    }
}

/// The run header's label: the workflow name, else the title, else
/// "run <id>".
pub open spec fn header_label(e: DeploymentEvent) -> Seq<char> {
    match e.metadata.workflow_name {
        Some(w) => w@,
        None => match e.title {
            Some(t) => t@,
            None => "run "@ + e.id@,
        },
    }
}

/// The whole tree of a run with the jobs in `expanded` opened.
pub open spec fn tree_of(e: DeploymentEvent, expanded: Set<u64>) -> Seq<(TreeItemKind, u8, Seq<char>, DeploymentStatus)> {
    seq![(TreeItemKind::RunHeader, 0u8, header_label(e), e.status)] + if e.metadata.job_details@.len() > 0 {
        job_items(e.metadata.job_details@, expanded, e.metadata.job_details@.len() as int)
    } else {
        summary_items(e.metadata.jobs@, e.metadata.jobs@.len() as int)
    }
}

fn push_steps(out: &mut Vec<TreeItem>, steps: &Vec<JobStepSummary>, job_id: u64, job_idx: usize)
    ensures
        items_view(final(out)@) == items_view(old(out)@) + step_items(steps@, job_id, job_idx as int, steps@.len() as int),
{
    let ghost start = items_view(out@);
    let mut i: usize = 0;
    while i < steps.len()
        invariant
            i <= steps@.len(),
            items_view(out@) == start + step_items(steps@, job_id, job_idx as int, i as int),
        decreases steps@.len() - i,
    {
        let step = &steps[i];
        let mut label = String::new();
        push_decimal(&mut label, step.number as u64);
        push_str(&mut label, ". ");
        push_str(&mut label, step.name.as_str());
        let ghost before = out@;
        let item = TreeItem {
            kind: TreeItemKind::Step { job_id, job_idx, step_idx: i },
            depth: 2,
            label,
            status: step.status.duplicate(),
        };
        out.push(item);
        proof {
            assert(items_view(out@) =~= items_view(before).push(item_view(item)));
        }
        i = i + 1;
    }
}

/// The run tree of `event` with the jobs in `expanded` opened.
pub fn build_tree_items(event: &DeploymentEvent, expanded: &HashSet<u64>) -> (r: Vec<TreeItem>)
    ensures
        items_view(r@) == tree_of(*event, expanded@),
{
    let label = match &event.metadata.workflow_name {
        Some(w) => w.clone(),
        None => match &event.title {
            Some(t) => t.clone(),
            None => {
                let mut l = owned("run ");
                push_str(&mut l, event.id.as_str());
                l
            },
        },
    };
    let header = TreeItem { kind: TreeItemKind::RunHeader, depth: 0, label, status: event.status.duplicate() };
    let mut items: Vec<TreeItem> = Vec::new();
    items.push(header);
    assert(items_view(items@) =~= seq![item_view(header)]);
    let details = &event.metadata.job_details;
    if details.len() > 0 {
        let mut j: usize = 0;
        while j < details.len()
            invariant
                j <= details@.len(),
                details@ == event.metadata.job_details@,
                items_view(items@) == seq![item_view(header)] + job_items(details@, expanded@, j as int),
            decreases details@.len() - j,
        {
            let job = &details[j];
            let id = match job.job_id {
                Some(id) => id,
                None => synthetic_job_id(j),
            };
            let ghost before = items@;
            let item = TreeItem {
                kind: TreeItemKind::Job { job_id: id, job_idx: j },
                depth: 1,
                label: job.name.clone(),
                status: job.status.duplicate(),
            };
            items.push(item);
            assert(items_view(items@) =~= items_view(before).push(item_view(item)));
            if expanded.contains(&id) {
                push_steps(&mut items, &job.steps, id, j);
            }
            j = j + 1;
            assert(items_view(items@) =~= seq![item_view(header)] + job_items(details@, expanded@, j as int));
        }
        return items;
    }
    let jobs = &event.metadata.jobs;
    let mut j: usize = 0;
    while j < jobs.len()
        invariant
            j <= jobs@.len(),
            jobs@ == event.metadata.jobs@,
            items_view(items@) == seq![item_view(header)] + summary_items(jobs@, j as int),
        decreases jobs@.len() - j,
    {
        let ghost before = items@;
        let item = TreeItem {
            kind: TreeItemKind::Job { job_id: synthetic_job_id(j), job_idx: j },
            depth: 1,
            label: jobs[j].name.clone(),
            status: jobs[j].status.duplicate(),
        };
        items.push(item);
        assert(items_view(items@) =~= items_view(before).push(item_view(item)));
        j = j + 1;
        assert(items_view(items@) =~= seq![item_view(header)] + summary_items(jobs@, j as int));
    }
    items
}

/// A missing text shown as a dash.
pub open spec fn or_dash(o: Option<String>) -> Seq<char> {
    match o {
        Some(s) => s@,
        None => "-"@,
    }
}

/// The summary of a run.
pub open spec fn run_summary(e: DeploymentEvent, run_id: u64, repo: Seq<char>) -> Seq<Seq<char>> {
    seq![
        "Run: "@ + (if run_id == 0 { e.id@ } else { decimal(run_id as nat) }),
        "Repo: "@ + (if repo.len() == 0 { "-"@ } else { repo }),
        "Workflow: "@ + or_dash(e.metadata.workflow_name),
        "Trigger: "@ + or_dash(e.metadata.trigger_event),
        "Status: "@ + e.status.text_of(),
        "Actor: "@ + or_dash(e.actor),
    ] + (match e.branch {
        Some(b) => seq!["Branch: "@ + b@],
        None => Seq::empty(),
    }) + (match e.url {
        Some(u) => seq!["URL: "@ + u@],
        None => Seq::empty(),
    })
}

/// The summary of a job, and of one of its steps when `step` names one.
pub open spec fn job_summary(job: JobDetail, step: Option<usize>) -> Seq<Seq<char>> {
    seq![
        "Job: "@ + job.name@,
        "Status: "@ + job.status.text_of(),
        "Steps: "@ + decimal(job.steps@.len()),
    ] + (match job.html_url {
        Some(u) => seq!["URL: "@ + u@],
        None => Seq::empty(),
    }) + (match step {
        Some(i) => if i < job.steps@.len() {
            let s = job.steps@[i as int];
            seq!["Step: "@ + decimal(s.number as nat) + ". "@ + s.name@] + (match s.started_at {
                Some(t) => seq!["Step started: "@ + t@],
                None => Seq::empty(),
            }) + (match s.completed_at {
                Some(t) => seq!["Step completed: "@ + t@],
                None => Seq::empty(),
            })
        } else {
            Seq::empty()
        },
        None => Seq::empty(),
    })
}

pub open spec fn lines_view(v: Seq<String>) -> Seq<Seq<char>> {
    v.map_values(|s: String| s@)
}

fn push_line(lines: &mut Vec<String>, line: String)
    ensures
        lines_view(final(lines)@) == lines_view(old(lines)@).push(line@),
{
    let ghost before = lines@;
    lines.push(line);
    assert(lines_view(lines@) =~= lines_view(before).push(line@));
}

fn labelled(label: &str, value: &str) -> (r: String)
    ensures
        r@ == label@ + value@,
{
    let mut s = owned(label);
    push_str(&mut s, value);
    s
}

fn labelled_or_dash(label: &str, value: &Option<String>) -> (r: String)
    ensures
        r@ == label@ + or_dash(*value),
{
    match value {
        Some(v) => labelled(label, v.as_str()),
        None => labelled(label, "-"),
    }
}

/// The summary lines of a run.
pub fn run_summary_lines(event: &DeploymentEvent, run_id: u64, repo: &str) -> (r: Vec<String>)
    ensures
        lines_view(r@) == run_summary(*event, run_id, repo@),
{
    let mut lines: Vec<String> = Vec::new();
    let mut run = owned("Run: ");
    if run_id == 0 {
        push_str(&mut run, event.id.as_str());
    } else {
        push_decimal(&mut run, run_id);
    }
    push_line(&mut lines, run);
    let repo_line = if repo.unicode_len() == 0 { labelled("Repo: ", "-") } else { labelled("Repo: ", repo) };
    push_line(&mut lines, repo_line);
    push_line(&mut lines, labelled_or_dash("Workflow: ", &event.metadata.workflow_name));
    push_line(&mut lines, labelled_or_dash("Trigger: ", &event.metadata.trigger_event));
    let st = event.status.text();
    push_line(&mut lines, labelled("Status: ", st.as_str()));
    push_line(&mut lines, labelled_or_dash("Actor: ", &event.actor));
    let ghost six = lines_view(lines@);
    if let Some(b) = &event.branch {
        push_line(&mut lines, labelled("Branch: ", b.as_str()));
    }
    let ghost seven = lines_view(lines@);
    if let Some(u) = &event.url {
        push_line(&mut lines, labelled("URL: ", u.as_str()));
    }
    assert(lines_view(lines@) =~= run_summary(*event, run_id, repo@));
    lines
}

/// The summary lines of a job, and of its step `step` when there is one.
pub fn job_summary_lines(job: &JobDetail, step: Option<usize>) -> (r: Vec<String>)
    ensures
        lines_view(r@) == job_summary(*job, step),
{
    let mut lines: Vec<String> = Vec::new();
    push_line(&mut lines, labelled("Job: ", job.name.as_str()));
    let st = job.status.text();
    push_line(&mut lines, labelled("Status: ", st.as_str()));
    let mut steps = owned("Steps: ");
    push_decimal(&mut steps, job.steps.len() as u64);
    push_line(&mut lines, steps);
    let ghost three = lines_view(lines@);
    if let Some(u) = &job.html_url {
        push_line(&mut lines, labelled("URL: ", u.as_str()));
    }
    let ghost base = lines_view(lines@);
    if let Some(i) = step {
        if i < job.steps.len() {
            let s = &job.steps[i];
            let mut l = owned("Step: ");
            push_decimal(&mut l, s.number as u64);
            push_str(&mut l, ". ");
            push_str(&mut l, s.name.as_str());
            push_line(&mut lines, l);
            if let Some(t) = &s.started_at {
                push_line(&mut lines, labelled("Step started: ", t.as_str()));
            }
            if let Some(t) = &s.completed_at {
                push_line(&mut lines, labelled("Step completed: ", t.as_str()));
            }
        }
    }
    assert(lines_view(lines@) =~= job_summary(*job, step));
    lines
}

/// The first position holding `k`, if any.
pub open spec fn first_eq(keys: Seq<Seq<char>>, k: Seq<char>) -> Option<int> {
    if exists|i: int| 0 <= i < keys.len() && keys[i] == k {
        Some(choose|i: int| 0 <= i < keys.len() && keys[i] == k && forall|j: int| 0 <= j < i ==> keys[j] != k)
    } else {
        None
    }
}

proof fn lemma_first_eq_found(keys: Seq<Seq<char>>, k: Seq<char>, i: int)
    requires
        0 <= i < keys.len(),
        keys[i] == k,
        forall|j: int| 0 <= j < i ==> keys[j] != k,
    ensures
        first_eq(keys, k) == Some(i),
{
    let c = choose|c: int| 0 <= c < keys.len() && keys[c] == k && forall|j: int| 0 <= j < c ==> keys[j] != k;
    assert(keys[i] == k);
    if c < i {
    } else if c > i {
        assert(keys[i] == k);
    }
}

/// The ids of the events.
pub open spec fn event_ids(events: Seq<DeploymentEvent>) -> Seq<Seq<char>> {
    events.map_values(|e: DeploymentEvent| e.id@)
}

/// The ids of the events at the positions `idx`.
pub open spec fn listed_ids(events: Seq<DeploymentEvent>, idx: Seq<usize>) -> Seq<Seq<char>> {
    idx.map_values(|i: usize| events[i as int].id@)
}

/// The first event whose id is `id`.
fn find_event(events: &Vec<DeploymentEvent>, id: &str) -> (r: Option<usize>)
    ensures
        match r {
            Some(i) => first_eq(event_ids(events@), id@) == Some(i as int) && i < events@.len(),
            None => first_eq(event_ids(events@), id@) is None,
        },
{
    let mut i: usize = 0;
    while i < events.len()
        invariant
            i <= events@.len(),
            forall|j: int| 0 <= j < i ==> event_ids(events@)[j] != id@,
        decreases events@.len() - i,
    {
        if str_eq(events[i].id.as_str(), id) {
            proof {
                lemma_first_eq_found(event_ids(events@), id@, i as int);
            }
            return Some(i);
        }
        i = i + 1;
    }
    None
}

/// The first listed position whose event id is `id`.
fn find_listed(events: &Vec<DeploymentEvent>, idx: &Vec<usize>, id: &str) -> (r: Option<usize>)
    requires
        forall|t: int| 0 <= t < idx@.len() ==> (#[trigger] idx@[t]) < events@.len(),
    ensures
        match r {
            Some(i) => first_eq(listed_ids(events@, idx@), id@) == Some(i as int) && i < idx@.len(),
            None => first_eq(listed_ids(events@, idx@), id@) is None,
        },
{
    let mut i: usize = 0;
    while i < idx.len()
        invariant
            i <= idx@.len(),
            forall|t: int| 0 <= t < idx@.len() ==> (#[trigger] idx@[t]) < events@.len(),
            forall|j: int| 0 <= j < i ==> listed_ids(events@, idx@)[j] != id@,
        decreases idx@.len() - i,
    {
        if str_eq(events[idx[i]].id.as_str(), id) {
            proof {
                lemma_first_eq_found(listed_ids(events@, idx@), id@, i as int);
            }
            return Some(i);
        }
        i = i + 1;
    }
    None
}

/// The run id of an event: its id read as a number, or 0.
pub open spec fn run_id_of(e: DeploymentEvent) -> u64 {
    match parsed_u64(e.id@) {
        Some(v) => v,
        None => 0,
    }
}

/// The pane's text for a run without a repo or a numeric id.
pub open spec fn incomplete_run() -> Seq<char> {
    "Run metadata incomplete (missing repo or non-numeric run id)."@
}

/// A freshly opened tree for run `e` at listed position `fi`: only the
/// run header's jobs shown, the cursor on the header, and the pane
/// summarising the run (or saying its metadata is incomplete).
pub open spec fn fresh_details(d: PlatformDetailsState, e: DeploymentEvent, fi: int, show: bool) -> bool {
    let run_id = run_id_of(e);
    let repo = or_empty(e.metadata.source_id);
    &&& d.anchor_event_index == fi
    &&& d.anchor_event_id@ == e.id@
    &&& d.repo@ == repo
    &&& d.run_id == run_id
    &&& d.focus == DetailsFocus::LeftTree
    &&& items_view(d.tree_items@) == tree_of(e, Set::empty())
    &&& d.tree_cursor == 0
    &&& d.tree_scroll == 0
    &&& d.right_scroll == 0
    &&& d.expanded_jobs@ == Set::<u64>::empty()
    &&& d.show_logs == show
    &&& if run_id == 0 || repo.len() == 0 {
        d.right_content matches RightContent::Error { message } && message@ == incomplete_run()
    } else {
        d.right_content matches RightContent::Summary { lines } && lines_view(lines@) == run_summary(e, run_id, repo)
    }
}

/// A fresh details state for `event` at listed position `anchor`.
pub fn build_platform_details_state(event: &DeploymentEvent, anchor: usize, show_logs: bool) -> (r: PlatformDetailsState)
    ensures
        fresh_details(r, *event, anchor as int, show_logs),
{
    let run_id = match parse_u64(event.id.as_str()) {
        Some(v) => v,
        None => 0,
    };
    let repo = match &event.metadata.source_id {
        Some(s) => s.clone(),
        None => String::new(),
    };
    let expanded_jobs: HashSet<u64> = HashSet::new();
    let tree_items = build_tree_items(event, &expanded_jobs);
    let right_content = if run_id == 0 || repo.as_str().unicode_len() == 0 {
        RightContent::Error { message: owned("Run metadata incomplete (missing repo or non-numeric run id).") }
    } else {
        RightContent::Summary { lines: run_summary_lines(event, run_id, repo.as_str()) }
    };
    PlatformDetailsState {
        anchor_event_index: anchor,
        anchor_event_id: event.id.clone(),
        repo,
        run_id,
        focus: DetailsFocus::LeftTree,
        tree_items,
        tree_cursor: 0,
        expanded_jobs,
        tree_scroll: 0,
        right_scroll: 0,
        right_content,
        show_logs,
    }
}

/// The run the GitHub tree follows: the listed position of the selected
/// row (or the last row), when the Platform tab shows GitHub runs.
pub open spec fn tree_target(a: App) -> Option<int> {
    if a.active_tab != Tab::Platform || a.platform_subtab != PlatformSubtab::GitHub || a.spec_filtered().len() == 0 {
        None
    } else {
        Some(pick(a.selected_row, a.spec_filtered().len()))
    }
}

/// The event at listed position `fi`.
pub open spec fn listed_event(a: App, fi: int) -> DeploymentEvent {
    a.data.events@[a.spec_filtered()[fi] as int]
}

pub open spec fn show_logs_of(o: Option<PlatformDetailsState>) -> bool {
    match o {
        Some(d) => d.show_logs,
        None => false,
    }
}

/// The details after following the selection: none without a GitHub run
/// to follow; the same tree, re-anchored, for the same run; else a fresh
/// tree keeping whether the pane was open.
pub open spec fn followed(a: App, d: Option<PlatformDetailsState>) -> bool {
    match tree_target(a) {
        None => d is None,
        Some(fi) => {
            let e = listed_event(a, fi);
            if e.platform != Platform::GitHub {
                d is None
            } else if a.platform_details_mode is Some && a.platform_details_mode->0.anchor_event_id@ == e.id@ {
                d == Some(PlatformDetailsState { anchor_event_index: fi as usize, ..a.platform_details_mode->0 })
            } else {
                d is Some && fresh_details(d->0, e, fi, show_logs_of(a.platform_details_mode))
            }
        },
    }
}

/// `d` with the pane toggled: open becomes closed and the reverse, the
/// tree keeps the keyboard, and a closed pane scrolls back to the top.
pub open spec fn toggled(d: PlatformDetailsState) -> PlatformDetailsState {
    PlatformDetailsState {
        show_logs: !d.show_logs,
        focus: DetailsFocus::LeftTree,
        right_scroll: if d.show_logs { 0 } else { d.right_scroll },
        ..d
    }
}

/// `d` with the pane closed.
pub open spec fn hidden(d: PlatformDetailsState) -> PlatformDetailsState {
    PlatformDetailsState { show_logs: false, focus: DetailsFocus::LeftTree, right_scroll: 0, ..d }
}

/// `n` less six, not below zero.
pub open spec fn scroll_for(n: int) -> usize {
    if n < 6 {
        0
    } else {
        (n - 6) as usize
    }
}

/// The cursor moved by `delta`, kept on the tree.
pub open spec fn moved_cursor(cursor: int, delta: int, len: int) -> int {
    if cursor + delta < 0 {
        0
    } else if cursor + delta > len - 1 {
        len - 1
    } else {
        cursor + delta
    }
}

/// `v` plus `delta`, kept within `0..=usize::MAX`.
pub open spec fn shifted(v: int, delta: int) -> usize {
    if v + delta < 0 {
        0
    } else if v + delta > usize::MAX {
        usize::MAX
    } else {
        (v + delta) as usize
    }
}

impl App {
    fn anchored_platform_event(&self) -> (r: Option<usize>)
        requires
            self.platform_details_mode is Some,
        ensures
            match r {
                Some(i) => first_eq(event_ids(self.data.events@), self.platform_details_mode->0.anchor_event_id@) == Some(
                    i as int,
                ) && i < self.data.events@.len(),
                None => first_eq(event_ids(self.data.events@), self.platform_details_mode->0.anchor_event_id@) is None,
            },
    {
        match &self.platform_details_mode {
            Some(d) => find_event(&self.data.events, d.anchor_event_id.as_str()),
            None => None,
        }
    }

    /// Follow the selected GitHub run with the tree (see `followed`).
    pub fn ensure_platform_tree_state(&mut self)
        ensures
            followed(*old(self), final(self).platform_details_mode),
            same_but_details(*old(self), *final(self)),
    {
        if self.active_tab != Tab::Platform || self.platform_subtab != PlatformSubtab::GitHub {
            self.platform_details_mode = None;
            return;
        }
        let indices = self.platform_filtered_event_indices();
        if indices.len() == 0 {
            self.platform_details_mode = None;
            return;
        }
        let filtered_idx = if self.selected_row < indices.len() { self.selected_row } else { indices.len() - 1 };
        let event_idx = indices[filtered_idx];
        if self.data.events[event_idx].platform != Platform::GitHub {
            self.platform_details_mode = None;
            return;
        }
        let show_logs = match &self.platform_details_mode {
            Some(d) => d.show_logs,
            None => false,
        };
        let needs_replace = match &self.platform_details_mode {
            Some(d) => !str_eq(d.anchor_event_id.as_str(), self.data.events[event_idx].id.as_str()),
            None => true,
        };
        if needs_replace {
            let fresh = build_platform_details_state(&self.data.events[event_idx], filtered_idx, show_logs);
            self.platform_details_mode = Some(fresh);
        } else {
            let d = self.platform_details_mode.take().unwrap();
            self.platform_details_mode = Some(PlatformDetailsState { anchor_event_index: filtered_idx, ..d });
        }
    }

    /// Open or close the pane beside the GitHub tree (following the
    /// selected run first); nothing happens on the other subtabs.
    pub fn toggle_platform_logs_panel(&mut self)
        ensures
            old(self).platform_subtab != PlatformSubtab::GitHub ==> *final(self) == *old(self),
            old(self).platform_subtab == PlatformSubtab::GitHub ==> {
                &&& same_but_details(*old(self), *final(self))
                &&& toggle_rel(*old(self), final(self).platform_details_mode)
            },
    {
        if self.platform_subtab != PlatformSubtab::GitHub {
            return;
        }
        self.ensure_platform_tree_state();
        let ghost mid = self.platform_details_mode;
        if self.platform_details_mode.is_none() {
            assert(followed(*old(self), mid));
            return;
        }
        let d = self.platform_details_mode.take().unwrap();
        let was_open = d.show_logs;
        let right_scroll = if was_open { 0 } else { d.right_scroll };
        self.platform_details_mode = Some(
            PlatformDetailsState { show_logs: !was_open, focus: DetailsFocus::LeftTree, right_scroll, ..d },
        );
        assert(followed(*old(self), mid));
    }

    /// Move the tree cursor by `delta` lines, kept on the tree, scrolling
    /// so that it stays in view.
    pub fn details_move_tree_cursor(&mut self, delta: i32)
        ensures
            same_but_details(*old(self), *final(self)),
            final(self).platform_details_mode == moved_by(old(self).platform_details_mode, delta as int),
    {
        if self.platform_details_mode.is_none() {
            return;
        }
        let d = self.platform_details_mode.take().unwrap();
        let n = d.tree_items.len();
        if n == 0 {
            self.platform_details_mode = Some(PlatformDetailsState { tree_cursor: 0, ..d });
            return;
        }
        let max = n - 1;
        let cursor = d.tree_cursor;
        let next: usize = if delta < 0 {
            let back = (0i64 - delta as i64) as usize;
            if cursor < back {
                0
            } else if cursor - back > max {
                max
            } else {
                cursor - back
            }
        } else {
            let fwd = delta as usize;
            if cursor >= max || fwd > max - cursor {
                max
            } else {
                cursor + fwd
            }
        };
        let scroll = if next < d.tree_scroll {
            next
        } else if next < 6 {
            0
        } else {
            next - 6
        };
        self.platform_details_mode = Some(PlatformDetailsState { tree_cursor: next, tree_scroll: scroll, ..d });
    }

    /// Give the keyboard to the pane beside the tree.
    pub fn details_focus_right(&mut self)
        ensures
            same_but_details(*old(self), *final(self)),
            final(self).platform_details_mode == focused_right(old(self).platform_details_mode),
    {
        if self.platform_details_mode.is_some() {
            let d = self.platform_details_mode.take().unwrap();
            self.platform_details_mode = Some(PlatformDetailsState { focus: DetailsFocus::RightPanel, ..d });
        }
    }

    /// Scroll the pane by `delta` lines, not above the top.
    pub fn details_scroll_right(&mut self, delta: i32)
        ensures
            same_but_details(*old(self), *final(self)),
            final(self).platform_details_mode == scrolled_by(old(self).platform_details_mode, delta as int),
    {
        if self.platform_details_mode.is_some() {
            let d = self.platform_details_mode.take().unwrap();
            let s = d.right_scroll;
            let next: usize = if delta < 0 {
                let back = (0i64 - delta as i64) as usize;
                if s < back {
                    0
                } else {
                    s - back
                }
            } else {
                let fwd = delta as usize;
                if fwd > usize::MAX - s {
                    usize::MAX
                } else {
                    s + fwd
                }
            };
            self.platform_details_mode = Some(PlatformDetailsState { right_scroll: next, ..d });
        }
    }

    /// The pane or tree that has the keyboard, when the tree is open.
    pub fn details_current_focus(&self) -> (r: Option<DetailsFocus>)
        ensures
            r == match self.platform_details_mode {
                Some(d) => Some(d.focus),
                None => None,
            },
    {
        match &self.platform_details_mode {
            Some(d) => Some(d.focus),
            None => None,
        }
    }

    /// The tree and pane, when open.
    pub fn details_state(&self) -> (r: Option<&PlatformDetailsState>)
        ensures
            r == match self.platform_details_mode {
                Some(d) => Some(&d),
                None => None::<&PlatformDetailsState>,
            },
    {
        match &self.platform_details_mode {
            Some(d) => Some(d),
            None => None,
        }
    }
}

/// What the pane shows for a tree line (`None`: it keeps its content):
/// the run's summary for the header; for a job the job's summary, or its
/// name and status when only listed; for a step the job's summary with
/// the step's.
pub open spec fn pane_lines(events: Seq<DeploymentEvent>, d: PlatformDetailsState, kind: TreeItemKind) -> Option<
    Seq<Seq<char>>,
> {
    match first_eq(event_ids(events), d.anchor_event_id@) {
        None => None,
        Some(i) => {
            let e = events[i];
            let jd = e.metadata.job_details@;
            match kind {
                TreeItemKind::RunHeader => Some(run_summary(e, d.run_id, d.repo@)),
                TreeItemKind::Job { job_idx, .. } => if job_idx < jd.len() {
                    Some(job_summary(jd[job_idx as int], None))
                } else if job_idx < e.metadata.jobs@.len() {
                    Some(
                        seq![
                            "Job: "@ + e.metadata.jobs@[job_idx as int].name@,
                            "Status: "@ + e.metadata.jobs@[job_idx as int].status.text_of(),
                        ],
                    )
                } else {
                    None
                },
                TreeItemKind::Step { job_idx, step_idx, .. } => if job_idx < jd.len() {
                    Some(job_summary(jd[job_idx as int], Some(step_idx)))
                } else {
                    None
                },
            }
        },
    }
}

/// The pane's new content: `old` kept, or a summary of `lines`.
pub open spec fn content_after(new: RightContent, old: RightContent, lines: Option<Seq<Seq<char>>>) -> bool {
    match lines {
        None => new == old,
        Some(ls) => new matches RightContent::Summary { lines } && lines_view(lines@) == ls,
    }
}

/// `n` is `d` with the pane opened on the tree line of kind `kind`.
pub open spec fn opened(events: Seq<DeploymentEvent>, d: PlatformDetailsState, n: PlatformDetailsState, kind: TreeItemKind) -> bool {
    &&& n == PlatformDetailsState {
        focus: DetailsFocus::RightPanel,
        right_scroll: 0,
        right_content: n.right_content,
        ..d
    }
    &&& content_after(n.right_content, d.right_content, pane_lines(events, d, kind))
}

/// `n` is `d` with the jobs in `set` expanded and, when its run is still
/// among the events, the tree rebuilt, the cursor kept on it and scrolled
/// into view.
pub open spec fn reshaped(events: Seq<DeploymentEvent>, d: PlatformDetailsState, n: PlatformDetailsState, set: Set<u64>) -> bool {
    &&& n.expanded_jobs@ == set
    &&& match first_eq(event_ids(events), d.anchor_event_id@) {
        None => n == PlatformDetailsState { expanded_jobs: n.expanded_jobs, ..d },
        Some(i) => {
            let t = tree_of(events[i], set);
            let c = if d.tree_cursor >= t.len() { t.len() - 1 } else { d.tree_cursor as int };
            &&& n == PlatformDetailsState {
                expanded_jobs: n.expanded_jobs,
                tree_items: n.tree_items,
                tree_cursor: c as usize,
                tree_scroll: scroll_for(c),
                ..d
            }
            &&& items_view(n.tree_items@) == t
        },
    }
}

/// A job line of job `id`.
pub open spec fn is_job_line(t: TreeItem, id: u64) -> bool {
    t.kind matches TreeItemKind::Job { job_id, .. } && job_id == id
}

/// The first job line of job `id`, if any.
pub open spec fn first_job_line(items: Seq<TreeItem>, id: u64) -> Option<int> {
    if exists|i: int| 0 <= i < items.len() && is_job_line(items[i], id) {
        Some(
            choose|i: int|
                0 <= i < items.len() && is_job_line(items[i], id) && forall|j: int| 0 <= j < i ==> !is_job_line(items[j], id),
        )
    } else {
        None
    }
}

proof fn lemma_tree_nonempty(e: DeploymentEvent, set: Set<u64>)
    ensures
        tree_of(e, set).len() >= 1,
{
}

/// Rebuild `d`'s tree for run `e` with its expanded jobs.
fn reshape(d: PlatformDetailsState, e: &DeploymentEvent) -> (n: PlatformDetailsState)
    ensures
        ({
            let t = tree_of(*e, d.expanded_jobs@);
            let c = if d.tree_cursor >= t.len() { t.len() - 1 } else { d.tree_cursor as int };
            &&& n == PlatformDetailsState {
                tree_items: n.tree_items,
                tree_cursor: c as usize,
                tree_scroll: scroll_for(c),
                ..d
            }
            &&& items_view(n.tree_items@) == t
        }),
{
    let tree_items = build_tree_items(e, &d.expanded_jobs);
    proof {
        lemma_tree_nonempty(*e, d.expanded_jobs@);
        assert(items_view(tree_items@).len() == tree_items@.len());
    }
    let n = tree_items.len();
    let cursor = if d.tree_cursor >= n { n - 1 } else { d.tree_cursor };
    let scroll = if cursor < 6 { 0 } else { cursor - 6 };
    PlatformDetailsState { tree_items, tree_cursor: cursor, tree_scroll: scroll, ..d }
}

/// The tree after moving its cursor by `delta` lines, kept on the tree,
/// scrolled so that it stays in view.
pub open spec fn moved_by(o: Option<PlatformDetailsState>, delta: int) -> Option<PlatformDetailsState> {
    match o {
        None => None,
        Some(d) => if d.tree_items@.len() == 0 {
            Some(PlatformDetailsState { tree_cursor: 0, ..d })
        } else {
            let c = moved_cursor(d.tree_cursor as int, delta, d.tree_items@.len() as int);
            Some(
                PlatformDetailsState {
                    tree_cursor: c as usize,
                    tree_scroll: if c < d.tree_scroll { c as usize } else { scroll_for(c) },
                    ..d
                },
            )
        },
    }
}

/// The pane scrolled by `delta` lines, not above the top.
pub open spec fn scrolled_by(o: Option<PlatformDetailsState>, delta: int) -> Option<PlatformDetailsState> {
    match o {
        None => None,
        Some(d) => Some(PlatformDetailsState { right_scroll: shifted(d.right_scroll as int, delta), ..d }),
    }
}

/// The pane given the keyboard.
pub open spec fn focused_right(o: Option<PlatformDetailsState>) -> Option<PlatformDetailsState> {
    match o {
        None => None,
        Some(d) => Some(PlatformDetailsState { focus: DetailsFocus::RightPanel, ..d }),
    }
}

/// The details after toggling the pane: the tree follows the selected
/// run, then its pane is opened or closed.
pub open spec fn toggle_rel(a: App, n: Option<PlatformDetailsState>) -> bool {
    exists|d: Option<PlatformDetailsState>|
        followed(a, d) && n == match d {
            Some(x) => Some(toggled(x)),
            None => None,
        }
}

/// The details after the "open" action.
pub open spec fn open_rel(events: Seq<DeploymentEvent>, o: Option<PlatformDetailsState>, n: Option<PlatformDetailsState>) -> bool {
    match o {
        None => n is None,
        Some(d) => if d.tree_cursor >= d.tree_items@.len() {
            n == o
        } else {
            n is Some && open_result(events, d, n->0)
        },
    }
}

/// The details after the "back" action: from the pane back to the tree;
/// on the tree, collapse an expanded job, jump from a step to its job,
/// else close the pane.
pub open spec fn left_rel(events: Seq<DeploymentEvent>, o: Option<PlatformDetailsState>, n: Option<PlatformDetailsState>) -> bool {
    match o {
        None => n is None,
        Some(d) => if d.focus == DetailsFocus::RightPanel {
            n == Some(PlatformDetailsState { focus: DetailsFocus::LeftTree, ..d })
        } else if d.tree_cursor >= d.tree_items@.len() {
            n == o
        } else {
            match d.tree_items@[d.tree_cursor as int].kind {
                TreeItemKind::RunHeader => n == Some(hidden(d)),
                TreeItemKind::Job { job_id, .. } => if d.expanded_jobs@.contains(job_id) {
                    n is Some && reshaped(events, d, n->0, d.expanded_jobs@.remove(job_id))
                } else {
                    n == Some(hidden(d))
                },
                TreeItemKind::Step { job_id, .. } => match first_job_line(d.tree_items@, job_id) {
                    Some(p) => n == Some(
                        PlatformDetailsState { tree_cursor: p as usize, tree_scroll: scroll_for(p), ..d },
                    ),
                    None => n == o,
                },
            }
        },
    }
}

/// `n` is `d` after the "open" action on the line under its cursor.
pub open spec fn open_result(events: Seq<DeploymentEvent>, d: PlatformDetailsState, n: PlatformDetailsState) -> bool {
    let kind = d.tree_items@[d.tree_cursor as int].kind;
    match kind {
        TreeItemKind::Job { job_id, .. } => if !d.expanded_jobs@.contains(job_id) {
            reshaped(events, d, n, d.expanded_jobs@.insert(job_id))
        } else {
            opened(events, d, n, kind)
        },
        _ => opened(events, d, n, kind),
    }
}

fn summary_content(lines: Vec<String>) -> (r: RightContent)
    ensures
        r matches RightContent::Summary { lines: l } && l == lines,
{
    RightContent::Summary { lines }
}

/// `r` is `d` following its run on `a`'s data: gone when the run is no
/// longer listed; else at the run's first listed position, its lines
/// rebuilt for the run and the cursor kept on them.
pub open spec fn resynced_ok(a: App, d: PlatformDetailsState, r: Option<PlatformDetailsState>) -> bool {
    match first_eq(listed_ids(a.data.events@, a.spec_filtered()), d.anchor_event_id@) {
        None => r is None,
        Some(fi) => r is Some && ({
            let n = r->0;
            let t = tree_of(listed_event(a, fi), d.expanded_jobs@);
            &&& n == PlatformDetailsState {
                anchor_event_index: fi as usize,
                tree_items: n.tree_items,
                tree_cursor: n.tree_cursor,
                ..d
            }
            &&& items_view(n.tree_items@) == t
            &&& n.tree_cursor == if d.tree_cursor >= t.len() { t.len() - 1 } else { d.tree_cursor as int }
        }),
    }
}

/// `d` re-anchored at listed position `fi` with its tree rebuilt for the
/// event at `event_idx`.
fn resync(d: PlatformDetailsState, events: &Vec<DeploymentEvent>, event_idx: usize, fi: usize) -> (n: PlatformDetailsState)
    requires
        event_idx < events@.len(),
    ensures
        ({
            let t = tree_of(events@[event_idx as int], d.expanded_jobs@);
            &&& n == PlatformDetailsState {
                anchor_event_index: fi,
                tree_items: n.tree_items,
                tree_cursor: n.tree_cursor,
                ..d
            }
            &&& items_view(n.tree_items@) == t
            &&& n.tree_cursor == if d.tree_cursor >= t.len() { t.len() - 1 } else { d.tree_cursor as int }
        }),
{
    let tree_items = build_tree_items(&events[event_idx], &d.expanded_jobs);
    proof {
        lemma_tree_nonempty(events@[event_idx as int], d.expanded_jobs@);
        assert(items_view(tree_items@).len() == tree_items@.len());
    }
    let n = tree_items.len();
    let cursor = if d.tree_cursor >= n { n - 1 } else { d.tree_cursor };
    PlatformDetailsState { anchor_event_index: fi, tree_items, tree_cursor: cursor, ..d }
}

/// `d` with job `job_id` expanded and its tree rebuilt for the anchored
/// run (at `anchor`, when present).
fn expand_job(d: PlatformDetailsState, events: &Vec<DeploymentEvent>, anchor: Option<usize>, job_id: u64) -> (n: PlatformDetailsState)
    requires
        match anchor {
            Some(i) => first_eq(event_ids(events@), d.anchor_event_id@) == Some(i as int) && i < events@.len(),
            None => first_eq(event_ids(events@), d.anchor_event_id@) is None,
        },
    ensures
        reshaped(events@, d, n, d.expanded_jobs@.insert(job_id)),
{
    let ghost d0 = d;
    let PlatformDetailsState {
        anchor_event_index,
        anchor_event_id,
        repo,
        run_id,
        focus,
        tree_items,
        tree_cursor,
        mut expanded_jobs,
        tree_scroll,
        right_scroll,
        right_content,
        show_logs,
    } = d;
    expanded_jobs.insert(job_id);
    let d2 = PlatformDetailsState {
        anchor_event_index,
        anchor_event_id,
        repo,
        run_id,
        focus,
        tree_items,
        tree_cursor,
        expanded_jobs,
        tree_scroll,
        right_scroll,
        right_content,
        show_logs,
    };
    assert(d2 == PlatformDetailsState { expanded_jobs: d2.expanded_jobs, ..d0 });
    match anchor {
        Some(i) => reshape(d2, &events[i]),
        None => d2,
    }
}

/// `d` with job `job_id` collapsed and its tree rebuilt for the anchored
/// run (at `anchor`, when present).
fn collapse_job(d: PlatformDetailsState, events: &Vec<DeploymentEvent>, anchor: Option<usize>, job_id: u64) -> (n: PlatformDetailsState)
    requires
        match anchor {
            Some(i) => first_eq(event_ids(events@), d.anchor_event_id@) == Some(i as int) && i < events@.len(),
            None => first_eq(event_ids(events@), d.anchor_event_id@) is None,
        },
    ensures
        reshaped(events@, d, n, d.expanded_jobs@.remove(job_id)),
{
    let ghost d0 = d;
    let PlatformDetailsState {
        anchor_event_index,
        anchor_event_id,
        repo,
        run_id,
        focus,
        tree_items,
        tree_cursor,
        mut expanded_jobs,
        tree_scroll,
        right_scroll,
        right_content,
        show_logs,
    } = d;
    expanded_jobs.remove(&job_id);
    let d2 = PlatformDetailsState {
        anchor_event_index,
        anchor_event_id,
        repo,
        run_id,
        focus,
        tree_items,
        tree_cursor,
        expanded_jobs,
        tree_scroll,
        right_scroll,
        right_content,
        show_logs,
    };
    assert(d2 == PlatformDetailsState { expanded_jobs: d2.expanded_jobs, ..d0 });
    match anchor {
        Some(i) => reshape(d2, &events[i]),
        None => d2,
    }
}

/// The pane's lines for a tree line of kind `kind` (see `pane_lines`).
fn pane_text(d: &PlatformDetailsState, events: &Vec<DeploymentEvent>, anchor: Option<usize>, kind: TreeItemKind) -> (r: Option<Vec<String>>)
    requires
        match anchor {
            Some(i) => first_eq(event_ids(events@), d.anchor_event_id@) == Some(i as int) && i < events@.len(),
            None => first_eq(event_ids(events@), d.anchor_event_id@) is None,
        },
    ensures
        match r {
            None => pane_lines(events@, *d, kind) is None,
            Some(ls) => pane_lines(events@, *d, kind) == Some(lines_view(ls@)),
        },
{
    match anchor {
        None => None,
        Some(i) => {
            let e = &events[i];
            match kind {
                TreeItemKind::RunHeader => Some(run_summary_lines(e, d.run_id, d.repo.as_str())),
                TreeItemKind::Job { job_idx, .. } => {
                    if job_idx < e.metadata.job_details.len() {
                        Some(job_summary_lines(&e.metadata.job_details[job_idx], None))
                    } else if job_idx < e.metadata.jobs.len() {
                        let job = &e.metadata.jobs[job_idx];
                        let mut lines: Vec<String> = Vec::new();
                        push_line(&mut lines, labelled("Job: ", job.name.as_str()));
                        let st = job.status.text();
                        push_line(&mut lines, labelled("Status: ", st.as_str()));
                        assert(lines_view(lines@) =~= seq![
                            "Job: "@ + e.metadata.jobs@[job_idx as int].name@,
                            "Status: "@ + e.metadata.jobs@[job_idx as int].status.text_of(),
                        ]);
                        Some(lines)
                    } else {
                        None
                    }
                },
                TreeItemKind::Step { job_idx, step_idx, .. } => {
                    if job_idx < e.metadata.job_details.len() {
                        Some(job_summary_lines(&e.metadata.job_details[job_idx], Some(step_idx)))
                    } else {
                        None
                    }
                },
            }
        },
    }
}

/// `d` with the pane opened on a tree line of kind `kind`.
fn open_pane(d: PlatformDetailsState, events: &Vec<DeploymentEvent>, anchor: Option<usize>, kind: TreeItemKind) -> (n: PlatformDetailsState)
    requires
        match anchor {
            Some(i) => first_eq(event_ids(events@), d.anchor_event_id@) == Some(i as int) && i < events@.len(),
            None => first_eq(event_ids(events@), d.anchor_event_id@) is None,
        },
    ensures
        opened(events@, d, n, kind),
{
    let content = pane_text(&d, events, anchor, kind);
    let ghost d0 = d;
    let right_content = match content {
        Some(lines) => summary_content(lines),
        None => d.right_content,
    };
    PlatformDetailsState { focus: DetailsFocus::RightPanel, right_scroll: 0, right_content, ..d }
}

impl App {
    /// Re-anchor the tree after new data: it follows its run to the run's
    /// new listed position and rebuilds its lines, or closes when the run
    /// is gone (or the subtab is not GitHub).
    /// The details re-anchored on this data (see
    /// `sync_platform_details_with_data`).
    fn resynced(&self, d: PlatformDetailsState) -> (r: Option<PlatformDetailsState>)
        ensures
            resynced_ok(*self, d, r),
    {
        let indices = self.platform_filtered_event_indices();
        let found = find_listed(&self.data.events, &indices, d.anchor_event_id.as_str());
        match found {
            None => None,
            Some(fi) => {
                let event_idx = indices[fi];
                Some(resync(d, &self.data.events, event_idx, fi))
            },
        }
    }

    /// Re-anchor the tree after new data: it follows its run to the run's
    /// new listed position and rebuilds its lines, or closes when the run
    /// is gone (or the subtab is not GitHub).
    pub fn sync_platform_details_with_data(&mut self)
        ensures
            same_but_details(*old(self), *final(self)),
            old(self).platform_subtab != PlatformSubtab::GitHub ==> final(self).platform_details_mode is None,
            old(self).platform_subtab == PlatformSubtab::GitHub ==> match old(self).platform_details_mode {
                None => final(self).platform_details_mode is None,
                Some(d) => resynced_ok(*old(self), d, final(self).platform_details_mode),
            },
    {
        if self.platform_subtab != PlatformSubtab::GitHub {
            self.platform_details_mode = None;
            return;
        }
        if self.platform_details_mode.is_none() {
            return;
        }
        let d = self.platform_details_mode.take().unwrap();
        let r = self.resynced(d);
        self.platform_details_mode = r;
    }

    /// The "open" action on the tree line under the cursor: expand a
    /// closed job; otherwise give the pane the keyboard and show the
    /// line's summary.
    pub fn details_toggle_or_open_right(&mut self)
        ensures
            same_but_details(*old(self), *final(self)),
            open_rel(old(self).data.events@, old(self).platform_details_mode, final(self).platform_details_mode),
    {
        if self.platform_details_mode.is_none() {
            return;
        }
        let anchor = self.anchored_platform_event();
        let d = self.platform_details_mode.take().unwrap();
        if d.tree_cursor >= d.tree_items.len() {
            self.platform_details_mode = Some(d);
            return;
        }
        let kind = d.tree_items[d.tree_cursor].kind;
        if let TreeItemKind::Job { job_id, .. } = kind {
            if !d.expanded_jobs.contains(&job_id) {
                let n = expand_job(d, &self.data.events, anchor, job_id);
                self.platform_details_mode = Some(n);
                return;
            }
        }
        let n = open_pane(d, &self.data.events, anchor, kind);
        self.platform_details_mode = Some(n);
    }

    /// The "back" action: from the pane back to the tree; on the tree,
    /// collapse an expanded job, jump from a step to its job, else close
    /// the pane.
    pub fn details_left_action(&mut self)
        ensures
            same_but_details(*old(self), *final(self)),
            left_rel(old(self).data.events@, old(self).platform_details_mode, final(self).platform_details_mode),
    {
        if self.platform_details_mode.is_none() {
            return;
        }
        let anchor = self.anchored_platform_event();
        let d = self.platform_details_mode.take().unwrap();
        if d.focus == DetailsFocus::RightPanel {
            self.platform_details_mode = Some(PlatformDetailsState { focus: DetailsFocus::LeftTree, ..d });
            return;
        }
        if d.tree_cursor >= d.tree_items.len() {
            self.platform_details_mode = Some(d);
            return;
        }
        let kind = d.tree_items[d.tree_cursor].kind;
        match kind {
            TreeItemKind::RunHeader => {
                self.platform_details_mode = Some(
                    PlatformDetailsState { show_logs: false, focus: DetailsFocus::LeftTree, right_scroll: 0, ..d },
                );
            },
            TreeItemKind::Job { job_id, .. } => {
                if d.expanded_jobs.contains(&job_id) {
                    let n = collapse_job(d, &self.data.events, anchor, job_id);
                    self.platform_details_mode = Some(n);
                } else {
                    self.platform_details_mode = Some(
                        PlatformDetailsState { show_logs: false, focus: DetailsFocus::LeftTree, right_scroll: 0, ..d },
                    );
                }
            },
            TreeItemKind::Step { job_id, .. } => {
                let mut p: usize = 0;
                let mut found = false;
                while p < d.tree_items.len()
                    invariant_except_break
                        !found,
                    invariant
                        p <= d.tree_items@.len(),
                        forall|j: int| 0 <= j < p ==> !is_job_line(d.tree_items@[j], job_id),
                    ensures
                        found ==> p < d.tree_items@.len() && is_job_line(d.tree_items@[p as int], job_id),
                        !found ==> forall|j: int| 0 <= j < d.tree_items@.len() ==> !is_job_line(d.tree_items@[j], job_id),
                    decreases d.tree_items@.len() - p,
                {
                    let hit = match d.tree_items[p].kind {
                        TreeItemKind::Job { job_id: jid, .. } => jid == job_id,
                        _ => false,
                    };
                    if hit {
                        found = true;
                        break;
                    }
                    p = p + 1;
                }
                if found {
                    proof {
                        let c = choose|i: int|
                            0 <= i < d.tree_items@.len() && is_job_line(d.tree_items@[i], job_id) && forall|j: int|
                                0 <= j < i ==> !is_job_line(d.tree_items@[j], job_id);
                        assert(is_job_line(d.tree_items@[p as int], job_id));
                        if c < p {
                        } else if c > p {
                            assert(is_job_line(d.tree_items@[p as int], job_id));
                        }
                    }
                    let scroll = if p < 6 { 0 } else { p - 6 };
                    self.platform_details_mode = Some(PlatformDetailsState { tree_cursor: p, tree_scroll: scroll, ..d });
                } else {
                    self.platform_details_mode = Some(d);
                }
            },
        }
    }
}

/// A viewed tree line that is a job line of job `id`.
pub open spec fn viewed_job_line(x: (TreeItemKind, u8, Seq<char>, DeploymentStatus), id: u64) -> bool {
    x.0 matches TreeItemKind::Job { job_id, .. } && job_id == id
}

proof fn lemma_steps_are_steps(steps: Seq<JobStepSummary>, job_id: u64, job_idx: int, n: int, id: u64)
    ensures
        forall|k: int| 0 <= k < step_items(steps, job_id, job_idx, n).len() ==> !viewed_job_line(
            #[trigger] step_items(steps, job_id, job_idx, n)[k],
            id,
        ),
    decreases n,
{
    if n > 0 {
        lemma_steps_are_steps(steps, job_id, job_idx, n - 1, id);
        let a = step_items(steps, job_id, job_idx, n - 1);
        let b = step_items(steps, job_id, job_idx, n);
        assert forall|k: int| 0 <= k < b.len() implies !viewed_job_line(#[trigger] b[k], id) by {
            if k < a.len() {
                assert(b[k] == a[k]);
            }
        }
    }
}

/// Expanding job `id` changes nothing in a job list without a line of it.
proof fn lemma_expand_absent(jobs: Seq<JobDetail>, set: Set<u64>, id: u64, n: int)
    requires
        !set.contains(id),
        forall|k: int| 0 <= k < job_items(jobs, set, n).len() ==> !viewed_job_line(#[trigger] job_items(jobs, set, n)[k], id),
    ensures
        job_items(jobs, set.insert(id), n) == job_items(jobs, set, n),
    decreases n,
{
    if n > 0 {
        let a0 = job_items(jobs, set, n - 1);
        let a = job_items(jobs, set, n);
        assert forall|k: int| 0 <= k < a0.len() implies !viewed_job_line(#[trigger] a0[k], id) by {
            assert(a[k] == a0[k]);
        }
        lemma_expand_absent(jobs, set, id, n - 1);
        assert(a[a0.len() as int].0 == TreeItemKind::Job { job_id: job_id_of(jobs[n - 1], n - 1), job_idx: (n - 1) as usize });
        assert(job_id_of(jobs[n - 1], n - 1) != id);
    }
}

/// Expanding job `id` keeps every line up to its first job line.
proof fn lemma_expand_keeps_prefix(jobs: Seq<JobDetail>, set: Set<u64>, id: u64, n: int, c: int)
    requires
        !set.contains(id),
        0 <= c < job_items(jobs, set, n).len(),
        viewed_job_line(job_items(jobs, set, n)[c], id),
        forall|k: int| 0 <= k < c ==> !viewed_job_line(#[trigger] job_items(jobs, set, n)[k], id),
    ensures
        c < job_items(jobs, set.insert(id), n).len(),
        job_items(jobs, set.insert(id), n).take(c + 1) == job_items(jobs, set, n).take(c + 1),
    decreases n,
{
    let a = job_items(jobs, set, n);
    let b = job_items(jobs, set.insert(id), n);
    if n > 0 {
        let a0 = job_items(jobs, set, n - 1);
        let b0 = job_items(jobs, set.insert(id), n - 1);
        let j = jobs[n - 1];
        let jid = job_id_of(j, n - 1);
        assert(a[a0.len() as int].0 == TreeItemKind::Job { job_id: jid, job_idx: (n - 1) as usize });
        if c < a0.len() {
            assert(a0[c] == a[c]);
            assert forall|k: int| 0 <= k < c implies !viewed_job_line(#[trigger] a0[k], id) by {
                assert(a0[k] == a[k]);
            }
            lemma_expand_keeps_prefix(jobs, set, id, n - 1, c);
            assert(b.take(c + 1) =~= b0.take(c + 1));
            assert(a.take(c + 1) =~= a0.take(c + 1));
        } else if c == a0.len() {
            assert forall|k: int| 0 <= k < a0.len() implies !viewed_job_line(#[trigger] a0[k], id) by {
                assert(a0[k] == a[k]);
            }
            lemma_expand_absent(jobs, set, id, n - 1);
            assert(b.take(c + 1) =~= a.take(c + 1));
        } else {
            lemma_steps_are_steps(j.steps@, jid, n - 1, j.steps@.len() as int, id);
            let st = step_items(j.steps@, jid, n - 1, j.steps@.len() as int);
            if set.contains(jid) {
                assert(a[c] == st[c - a0.len() - 1]);
            } else {
                assert(a.len() == a0.len() + 1);
            }
        }
    }
}

/// Expanding a job keeps the whole tree up to the job's first line.
proof fn lemma_tree_expand_prefix(e: DeploymentEvent, set: Set<u64>, id: u64, c: int)
    requires
        !set.contains(id),
        0 <= c < tree_of(e, set).len(),
        viewed_job_line(tree_of(e, set)[c], id),
        forall|k: int| 0 <= k < c ==> !viewed_job_line(#[trigger] tree_of(e, set)[k], id),
    ensures
        c < tree_of(e, set.insert(id)).len(),
        tree_of(e, set.insert(id))[c] == tree_of(e, set)[c],
{
    let t = tree_of(e, set);
    let u = tree_of(e, set.insert(id));
    let jobs = e.metadata.job_details@;
    if jobs.len() > 0 {
        let a = job_items(jobs, set, jobs.len() as int);
        let b = job_items(jobs, set.insert(id), jobs.len() as int);
        assert(c >= 1);
        assert(t[c] == a[c - 1]);
        assert forall|k: int| 0 <= k < c - 1 implies !viewed_job_line(#[trigger] a[k], id) by {
            assert(t[k + 1] == a[k]);
        }
        lemma_expand_keeps_prefix(jobs, set, id, jobs.len() as int, c - 1);
        assert(b.take(c) [c - 1] == a.take(c)[c - 1]);
        assert(u[c] == b[c - 1]);
    } else {
        assert(u =~= t);
    }
}

/// "Back" undoes opening a closed job: with the cursor on the first line
/// of a job that is not expanded, and the tree as built for its run, the
/// "open" action and then the "back" action leave the same expanded jobs,
/// the same tree lines, the cursor on the same line and the keyboard on
/// the tree.
pub proof fn back_undoes_opening_a_job(
    events: Seq<DeploymentEvent>,
    d: PlatformDetailsState,
    n1: Option<PlatformDetailsState>,
    n2: Option<PlatformDetailsState>,
)
    requires
        d.focus == DetailsFocus::LeftTree,
        d.tree_cursor < d.tree_items@.len(),
        d.tree_items@[d.tree_cursor as int].kind matches TreeItemKind::Job { job_id, .. } && !d.expanded_jobs@.contains(
            job_id,
        ) && forall|k: int| 0 <= k < d.tree_cursor ==> !is_job_line(#[trigger] d.tree_items@[k], job_id),
        first_eq(event_ids(events), d.anchor_event_id@) matches Some(i) ==> items_view(d.tree_items@) == tree_of(
            events[i],
            d.expanded_jobs@,
        ),
        open_rel(events, Some(d), n1),
        left_rel(events, n1, n2),
    ensures
        n2 is Some,
        n2->0.expanded_jobs@ == d.expanded_jobs@,
        items_view(n2->0.tree_items@) == items_view(d.tree_items@),
        n2->0.tree_cursor == d.tree_cursor,
        n2->0.focus == DetailsFocus::LeftTree,
{
    let c = d.tree_cursor as int;
    let id = d.tree_items@[c].kind->Job_job_id;
    let set = d.expanded_jobs@;
    assert(set.insert(id).remove(id) =~= set);
    let m = n1->0;
    match first_eq(event_ids(events), d.anchor_event_id@) {
        None => {
            assert(m.tree_items == d.tree_items);
        },
        Some(i) => {
            let t = tree_of(events[i], set);
            assert(items_view(d.tree_items@)[c] == t[c]);
            assert forall|k: int| 0 <= k < c implies !viewed_job_line(#[trigger] t[k], id) by {
                assert(items_view(d.tree_items@)[k] == t[k]);
                assert(!is_job_line(d.tree_items@[k], id));
            }
            lemma_tree_expand_prefix(events[i], set, id, c);
            let u = tree_of(events[i], set.insert(id));
            assert(m.tree_cursor == c);
            assert(items_view(m.tree_items@)[c] == u[c]);
            assert(m.tree_items@[c].kind == d.tree_items@[c].kind);
        },
    }
}

} // verus!
