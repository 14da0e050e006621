//! Desktop alerts of the background service: which endpoint and deployment
//! changes between two snapshots deserve a notification, their texts, and
//! the state shown by the tray icon.

use vstd::prelude::*;
use crate::app::DataSnapshot;
use crate::config::opt_view;
use crate::domain::{CorrelatedEvent, DeploymentEvent, DeploymentStatus, Platform, PingResult};
use crate::repos::or_text;
use crate::text::{concat, owned, push_str, str_eq};

verus! {

/// Whether an endpoint counts as up: no probe yet counts as up.
pub open spec fn up_of(p: Option<PingResult>) -> bool {
    match p {
        Some(x) => x.is_up,
        None => true,
    }
}

/// What is remembered of a snapshot to compare the next one with: each
/// project's endpoint state, and each event's status.
pub struct Baseline {
    pub endpoints: Vec<(String, bool)>,
    pub statuses: Vec<(String, DeploymentStatus)>,
}

pub open spec fn endpoints_of(t: Seq<(String, Option<PingResult>)>) -> Seq<(Seq<char>, bool)> {
    t.map_values(|e: (String, Option<PingResult>)| (e.0@, up_of(e.1)))
}

pub open spec fn statuses_of(es: Seq<DeploymentEvent>) -> Seq<(Seq<char>, DeploymentStatus)> {
    es.map_values(|e: DeploymentEvent| (e.id@, e.status))
}

pub open spec fn endpoints_view(v: Seq<(String, bool)>) -> Seq<(Seq<char>, bool)> {
    v.map_values(|e: (String, bool)| (e.0@, e.1))
}

pub open spec fn statuses_view(v: Seq<(String, DeploymentStatus)>) -> Seq<(Seq<char>, DeploymentStatus)> {
    v.map_values(|e: (String, DeploymentStatus)| (e.0@, e.1))
}

/// The endpoint state remembered for `name`: the first entry of that
/// project, up when there is none.
pub open spec fn was_up(endpoints: Seq<(Seq<char>, bool)>, name: Seq<char>) -> bool
    decreases endpoints.len(),
{
    if endpoints.len() == 0 {
        true
    } else if endpoints[0].0 == name {
        endpoints[0].1
    } else {
        was_up(endpoints.skip(1), name)
    }
}

/// The status remembered for event `id`: the last entry of that id.
pub open spec fn status_before(statuses: Seq<(Seq<char>, DeploymentStatus)>, id: Seq<char>) -> Option<DeploymentStatus>
    decreases statuses.len(),
{
    if statuses.len() == 0 {
        None
    } else if statuses.last().0 == id {
        Some(statuses.last().1)
    } else {
        status_before(statuses.drop_last(), id)
    }
}

/// The notification for one project's endpoint, if its state changed.
pub open spec fn endpoint_alert(endpoints: Seq<(Seq<char>, bool)>, name: Seq<char>, p: Option<PingResult>) -> Seq<
    (Seq<char>, Seq<char>),
> {
    let before = was_up(endpoints, name);
    let now = up_of(p);
    if before && !now {
        seq![("API Offline"@, p.unwrap().url@ + " is unreachable"@)]
    } else if !before && now {
        seq![("API Restored"@, name + " is back online"@)]
    } else {
        Seq::empty()
    }
}

pub open spec fn endpoint_alerts(endpoints: Seq<(Seq<char>, bool)>, t: Seq<(String, Option<PingResult>)>) -> Seq<
    (Seq<char>, Seq<char>),
>
    decreases t.len(),
{
    if t.len() == 0 {
        Seq::empty()
    } else {
        endpoint_alerts(endpoints, t.drop_last()) + endpoint_alert(endpoints, t.last().0@, t.last().1)
    }
}

/// The word for a status change worth a notification: a queued run that
/// starts, or a queued or running one that succeeds or fails.
pub open spec fn transition_verb(before: DeploymentStatus, now: DeploymentStatus) -> Option<Seq<char>> {
    match (before, now) {
        (DeploymentStatus::Queued, DeploymentStatus::InProgress) => Some("running"@),
        (DeploymentStatus::InProgress, DeploymentStatus::Success) => Some("succeeded"@),
        (DeploymentStatus::Queued, DeploymentStatus::Success) => Some("succeeded"@),
        (DeploymentStatus::InProgress, DeploymentStatus::Failed) => Some("failed"@),
        (DeploymentStatus::Queued, DeploymentStatus::Failed) => Some("failed"@),
        _ => None,
    }
}

/// The body naming a Railway environment, empty without one.
pub open spec fn environment_line(env: Seq<char>) -> Seq<char> {
    if env.len() == 0 {
        Seq::empty()
    } else {
        "env: "@ + env
    }
}

/// The title and body of a deployment notification: GitHub runs by
/// workflow and branch, Railway deployments by service and environment,
/// Vercel deployments by title and target.
pub open spec fn notification_of(e: DeploymentEvent, verb: Seq<char>) -> (Seq<char>, Seq<char>) {
    let branch = or_text(opt_view(e.branch), "unknown"@);
    let (name, body) = match e.platform {
        Platform::GitHub => (
            or_text(
                match opt_view(e.metadata.workflow_name) {
                    Some(w) => Some(w),
                    None => opt_view(e.title),
                },
                "CI"@,
            ),
            "branch: "@ + branch,
        ),
        Platform::Railway => (
            or_text(
                match opt_view(e.metadata.service_name) {
                    Some(s) => Some(s),
                    None => opt_view(e.title),
                },
                "deployment"@,
            ),
            environment_line(or_text(opt_view(e.metadata.environment_name), Seq::empty())),
        ),
        Platform::Vercel => (
            or_text(opt_view(e.title), "Vercel deployment"@),
            "target: "@ + or_text(opt_view(e.metadata.deploy_target), "preview"@),
        ),
    };
    (name + " "@ + verb, body)
}

/// The notification for one event, if its status changed in a way worth
/// telling; an event not seen before only sets the baseline.
pub open spec fn status_alert(statuses: Seq<(Seq<char>, DeploymentStatus)>, e: DeploymentEvent) -> Seq<
    (Seq<char>, Seq<char>),
> {
    match status_before(statuses, e.id@) {
        None => Seq::empty(),
        Some(before) => if DeploymentStatus::same(before, e.status) {
            Seq::empty()
        } else {
            match transition_verb(before, e.status) {
                Some(verb) => seq![notification_of(e, verb)],
                None => Seq::empty(),
            }
        },
    }
}

pub open spec fn status_alerts(statuses: Seq<(Seq<char>, DeploymentStatus)>, es: Seq<DeploymentEvent>) -> Seq<
    (Seq<char>, Seq<char>),
>
    decreases es.len(),
{
    if es.len() == 0 {
        Seq::empty()
    } else {
        status_alerts(statuses, es.drop_last()) + status_alert(statuses, es.last())
    }
}

pub open spec fn alerts_view(v: Seq<(String, String)>) -> Seq<(Seq<char>, Seq<char>)> {
    v.map_values(|a: (String, String)| (a.0@, a.1@))
}

fn copy_text_opt(o: &Option<String>, default: &str) -> (r: String)
    ensures
        r@ == or_text(opt_view(*o), default@),
{
    match o {
        Some(s) => s.clone(),
        None => owned(default),
    }
}

/// The title and body of a deployment notification.
pub fn notification_text(e: &DeploymentEvent, verb: &str) -> (r: (String, String))
    ensures
        (r.0@, r.1@) == notification_of(*e, verb@),
{
    let branch = copy_text_opt(&e.branch, "unknown");
    let (name, body) = match e.platform {
        Platform::GitHub => {
            let name = match &e.metadata.workflow_name {
                Some(w) => w.clone(),
                None => copy_text_opt(&e.title, "CI"),
            };
            (name, concat("branch: ", branch.as_str()))
        },
        Platform::Railway => {
            let name = match &e.metadata.service_name {
                Some(s) => s.clone(),
                None => copy_text_opt(&e.title, "deployment"),
            };
            let env = copy_text_opt(&e.metadata.environment_name, "");
            proof {
                reveal_strlit("");
            }
            let body = if crate::text::char_count(env.as_str()) == 0 {
                String::new()
            } else {
                concat("env: ", env.as_str())
            };
            (name, body)
        },
        Platform::Vercel => {
            let name = copy_text_opt(&e.title, "Vercel deployment");
            let target = copy_text_opt(&e.metadata.deploy_target, "preview");
            (name, concat("target: ", target.as_str()))
        },
    };
    let mut title = name;
    push_str(&mut title, " ");
    push_str(&mut title, verb);
    (title, body)
}

fn was_up_exec(endpoints: &Vec<(String, bool)>, name: &str) -> (r: bool)
    ensures
        r == was_up(endpoints_view(endpoints@), name@),
{
    let ghost v = endpoints_view(endpoints@);
    let mut i: usize = 0;
    assert(v.skip(0) =~= v);
    while i < endpoints.len()
        invariant
            i <= endpoints@.len(),
            v == endpoints_view(endpoints@),
            was_up(v, name@) == was_up(v.skip(i as int), name@),
        decreases endpoints@.len() - i,
    {
        assert(v.skip(i as int)[0] == v[i as int]);
        if str_eq(endpoints[i].0.as_str(), name) {
            return endpoints[i].1;
        }
        assert(v.skip(i as int).skip(1) =~= v.skip(i + 1));
        i = i + 1;
    }
    true
}

fn status_before_exec<'a>(statuses: &'a Vec<(String, DeploymentStatus)>, id: &str) -> (r: Option<&'a DeploymentStatus>)
    ensures
        match r {
            Some(s) => status_before(statuses_view(statuses@), id@) == Some(*s),
            None => status_before(statuses_view(statuses@), id@) is None,
        },
{
    let ghost v = statuses_view(statuses@);
    let mut i: usize = statuses.len();
    assert(v.take(v.len() as int) =~= v);
    while i > 0
        invariant
            i <= statuses@.len(),
            v == statuses_view(statuses@),
            status_before(v, id@) == status_before(v.take(i as int), id@),
        decreases i,
    {
        assert(v.take(i as int).last() == v[i - 1]);
        if str_eq(statuses[i - 1].0.as_str(), id) {
            return Some(&statuses[i - 1].1);
        }
        assert(v.take(i as int).drop_last() =~= v.take(i - 1));
        i = i - 1;
    }
    None
}

fn verb_exec(before: &DeploymentStatus, now: &DeploymentStatus) -> (r: Option<&'static str>)
    ensures
        match r {
            Some(v) => transition_verb(*before, *now) == Some(v@),
            None => transition_verb(*before, *now) is None,
        },
{
    match (before, now) {
        (DeploymentStatus::Queued, DeploymentStatus::InProgress) => Some("running"),
        (DeploymentStatus::InProgress, DeploymentStatus::Success) => Some("succeeded"),
        (DeploymentStatus::Queued, DeploymentStatus::Success) => Some("succeeded"),
        (DeploymentStatus::InProgress, DeploymentStatus::Failed) => Some("failed"),
        (DeploymentStatus::Queued, DeploymentStatus::Failed) => Some("failed"),
        _ => None,
    }
}

/// The notifications for what changed since the baseline: first the
/// endpoints that went down or came back, then the runs and deployments
/// that started, succeeded or failed.
pub fn alerts_since(baseline: &Baseline, current: &DataSnapshot) -> (r: Vec<(String, String)>)
    ensures
        alerts_view(r@) == endpoint_alerts(endpoints_view(baseline.endpoints@), current.telemetry@) + status_alerts(
            statuses_view(baseline.statuses@),
            current.events@,
        ),
{
    let ghost ep = endpoints_view(baseline.endpoints@);
    let ghost st = statuses_view(baseline.statuses@);
    let mut out: Vec<(String, String)> = Vec::new();
    let mut i: usize = 0;
    while i < current.telemetry.len()
        invariant
            i <= current.telemetry@.len(),
            ep == endpoints_view(baseline.endpoints@),
            alerts_view(out@) == endpoint_alerts(ep, current.telemetry@.take(i as int)),
        decreases current.telemetry@.len() - i,
    {
        let (name, ping) = (&current.telemetry[i].0, &current.telemetry[i].1);
        let before = was_up_exec(&baseline.endpoints, name.as_str());
        let now = match ping {
            Some(p) => p.is_up,
            None => true,
        };
        let ghost prev = out@;
        if before && !now {
            match ping {
                Some(p) => out.push((owned("API Offline"), concat(p.url.as_str(), " is unreachable"))),
                None => {},
            }
        } else if !before && now {
            out.push((owned("API Restored"), concat(name.as_str(), " is back online")));
        }
        proof {
            assert(current.telemetry@.take(i + 1).drop_last() =~= current.telemetry@.take(i as int));
            assert(alerts_view(out@) =~= alerts_view(prev) + endpoint_alert(ep, name@, *ping));
        }
        i = i + 1;
    }
    assert(current.telemetry@.take(current.telemetry@.len() as int) =~= current.telemetry@);
    let ghost head = alerts_view(out@);
    let mut k: usize = 0;
    while k < current.events.len()
        invariant
            k <= current.events@.len(),
            st == statuses_view(baseline.statuses@),
            alerts_view(out@) == head + status_alerts(st, current.events@.take(k as int)),
        decreases current.events@.len() - k,
    {
        let e = &current.events[k];
        let ghost prev = out@;
        match status_before_exec(&baseline.statuses, e.id.as_str()) {
            None => {},
            Some(before) => {
                if !before.same_as(&e.status) {
                    match verb_exec(before, &e.status) {
                        Some(verb) => {
                            let (title, body) = notification_text(e, verb);
                            out.push((title, body));
                        },
                        None => {},
                    }
                }
            },
        }
        proof {
            assert(current.events@.take(k + 1).drop_last() =~= current.events@.take(k as int));
            assert(alerts_view(out@) =~= alerts_view(prev) + status_alert(st, *e));
        }
        k = k + 1;
    }
    assert(current.events@.take(current.events@.len() as int) =~= current.events@);
    out
}

/// What a snapshot leaves as the baseline for the next one.
pub fn baseline_of(current: &DataSnapshot) -> (r: Baseline)
    ensures
        endpoints_view(r.endpoints@) == endpoints_of(current.telemetry@),
        statuses_view(r.statuses@) == statuses_of(current.events@),
{
    let mut endpoints: Vec<(String, bool)> = Vec::new();
    let mut i: usize = 0;
    while i < current.telemetry.len()
        invariant
            i <= current.telemetry@.len(),
            endpoints_view(endpoints@) == endpoints_of(current.telemetry@.take(i as int)),
        decreases current.telemetry@.len() - i,
    {
        let up = match &current.telemetry[i].1 {
            Some(p) => p.is_up,
            None => true,
        };
        let ghost prev = endpoints@;
        endpoints.push((current.telemetry[i].0.clone(), up));
        assert(endpoints_view(endpoints@) =~= endpoints_view(prev).push((current.telemetry@[i as int].0@, up)));
        assert(endpoints_of(current.telemetry@.take(i + 1)) =~= endpoints_of(current.telemetry@.take(i as int)).push(
            (current.telemetry@[i as int].0@, up_of(current.telemetry@[i as int].1)),
        ));
        i = i + 1;
    }
    assert(current.telemetry@.take(current.telemetry@.len() as int) =~= current.telemetry@);
    let mut statuses: Vec<(String, DeploymentStatus)> = Vec::new();
    let mut k: usize = 0;
    while k < current.events.len()
        invariant
            k <= current.events@.len(),
            statuses_view(statuses@) == statuses_of(current.events@.take(k as int)),
        decreases current.events@.len() - k,
    {
        let e = &current.events[k];
        let ghost prev = statuses@;
        statuses.push((e.id.clone(), e.status.duplicate()));
        assert(statuses_view(statuses@) =~= statuses_view(prev).push((e.id@, e.status)));
        assert(statuses_of(current.events@.take(k + 1)) =~= statuses_of(current.events@.take(k as int)).push(
            (e.id@, e.status),
        ));
        k = k + 1;
    }
    assert(current.events@.take(current.events@.len() as int) =~= current.events@);
    Baseline { endpoints, statuses }
}

/// The notifications of the background service: nothing for the first
/// snapshot, then the changes from one snapshot to the next.
pub struct NotificationState {
    pub prev: Option<Baseline>,
}

impl NotificationState {
    pub fn new() -> (r: Self)
        ensures
            r.prev is None,
    {
        NotificationState { prev: None }
    }

    /// The notifications for `current`, which becomes the baseline.
    pub fn check(&mut self, current: &DataSnapshot) -> (r: Vec<(String, String)>)
        ensures
            match old(self).prev {
                None => r@.len() == 0,
                Some(b) => alerts_view(r@) == endpoint_alerts(endpoints_view(b.endpoints@), current.telemetry@)
                    + status_alerts(statuses_view(b.statuses@), current.events@),
            },
            final(self).prev matches Some(b) && endpoints_view(b.endpoints@) == endpoints_of(current.telemetry@)
                && statuses_view(b.statuses@) == statuses_of(current.events@),
    {
        let out = match &self.prev {
            None => Vec::new(),
            Some(b) => alerts_since(b, current),
        };
        self.prev = Some(baseline_of(current));
        out
    }
}

/// What the tray icon shows.
#[derive(Debug)]
pub enum TrayState {
    Neutral,
    Syncing,
    Alert(String),
}

/// The first project whose latest probe found its endpoint down.
pub open spec fn first_down(t: Seq<(String, Option<PingResult>)>) -> Option<Seq<char>>
    decreases t.len(),
{
    if t.len() == 0 {
        None
    } else if !up_of(t[0].1) {
        Some(t[0].1.unwrap().url@)
    } else {
        first_down(t.skip(1))
    }
}

/// A group whose GitHub run on main or master failed.
pub open spec fn failed_on_main(c: CorrelatedEvent) -> bool {
    match c.github {
        Some(g) => (opt_view(g.branch) == Some("main"@) || opt_view(g.branch) == Some("master"@)) && g.status
            == DeploymentStatus::Failed,
        None => false,
    }
}

/// The tray state for a snapshot: syncing while a poll runs, else an alert
/// for the first endpoint that is down, else one for a failed run on the
/// main branch, else neutral.
pub open spec fn tray_state_of(s: DataSnapshot) -> (u8, Seq<char>) {
    if s.is_syncing {
        (1, Seq::empty())
    } else if first_down(s.telemetry@) is Some {
        (2, "\u{1f6a8} "@ + first_down(s.telemetry@).unwrap() + " is DOWN"@)
    } else if exists|i: int| 0 <= i < s.correlated@.len() && failed_on_main(#[trigger] s.correlated@[i]) {
        (2, "\u{1f6a8} Deployment Failed on main"@)
    } else {
        (0, Seq::empty())
    }
}

/// A tray state as (kind, alert text): 0 neutral, 1 syncing, 2 alert.
pub open spec fn tray_view(t: TrayState) -> (u8, Seq<char>) {
    match t {
        TrayState::Neutral => (0, Seq::empty()),
        TrayState::Syncing => (1, Seq::empty()),
        TrayState::Alert(m) => (2, m@),
    }
}

fn is_main_failure(c: &CorrelatedEvent) -> (r: bool)
    ensures
        r == failed_on_main(*c),
{
    match &c.github {
        Some(g) => {
            let on_main = match &g.branch {
                Some(b) => str_eq(b.as_str(), "main") || str_eq(b.as_str(), "master"),
                None => false,
            };
            let failed = match g.status {
                DeploymentStatus::Failed => true,
                _ => false,
            };
            on_main && failed
        },
        None => false,
    }
}

/// The tray state for a snapshot.
pub fn compute_tray_state(s: &DataSnapshot) -> (r: TrayState)
    ensures
        tray_view(r) == tray_state_of(*s),
{
    if s.is_syncing {
        return TrayState::Syncing;
    }
    let ghost t = s.telemetry@;
    let mut i: usize = 0;
    assert(t.skip(0) =~= t);
    while i < s.telemetry.len()
        invariant
            i <= t.len(),
            !s.is_syncing,
            t == s.telemetry@,
            first_down(t) == first_down(t.skip(i as int)),
        decreases t.len() - i,
    {
        assert(t.skip(i as int)[0] == t[i as int]);
        match &s.telemetry[i].1 {
            Some(p) => {
                if !p.is_up {
                    assert(first_down(t.skip(i as int)) == Some(p.url@));
                    let mut msg = owned("\u{1f6a8} ");
                    push_str(&mut msg, p.url.as_str());
                    push_str(&mut msg, " is DOWN");
                    return TrayState::Alert(msg);
                }
            },
            None => {},
        }
        assert(t.skip(i as int).skip(1) =~= t.skip(i + 1));
        i = i + 1;
    }
    assert(t.skip(i as int) =~= Seq::<(String, Option<PingResult>)>::empty());
    let mut k: usize = 0;
    while k < s.correlated.len()
        invariant
            k <= s.correlated@.len(),
            !s.is_syncing,
            first_down(s.telemetry@) is None,
            forall|j: int| 0 <= j < k ==> !failed_on_main(#[trigger] s.correlated@[j]),
        decreases s.correlated@.len() - k,
    {
        if is_main_failure(&s.correlated[k]) {
            assert(failed_on_main(s.correlated@[k as int]));
            return TrayState::Alert(owned("\u{1f6a8} Deployment Failed on main"));
        }
        k = k + 1;
    }
    TrayState::Neutral
}

/// The tooltip of the tray icon.
pub fn tray_tooltip(t: &TrayState) -> (r: String)
    ensures
        r@ == match t {
            TrayState::Neutral => "Pulsos: All Systems Operational"@,
            TrayState::Syncing => "Pulsos: Syncing\u{2026}"@,
            TrayState::Alert(m) => m@,
        },
{
    match t {
        TrayState::Neutral => owned("Pulsos: All Systems Operational"),
        TrayState::Syncing => owned("Pulsos: Syncing\u{2026}"),
        TrayState::Alert(m) => m.clone(),
    }
}


proof fn lemma_was_up_own(t: Seq<(String, Option<PingResult>)>, k: int)
    requires
        0 <= k < t.len(),
        forall|i: int, j: int| 0 <= i < j < t.len() ==> t[i].0@ != t[j].0@,
    ensures
        was_up(endpoints_of(t), t[k].0@) == up_of(t[k].1),
    decreases k,
{
    let e = endpoints_of(t);
    if k > 0 {
        assert(e[0].0 == t[0].0@);
        assert(t.skip(1)[k - 1] == t[k]);
        assert(endpoints_of(t.skip(1)) =~= e.skip(1));
        lemma_was_up_own(t.skip(1), k - 1);
    }
}

proof fn lemma_endpoints_quiet(e: Seq<(Seq<char>, bool)>, t: Seq<(String, Option<PingResult>)>)
    requires
        forall|k: int| 0 <= k < t.len() ==> was_up(e, #[trigger] t[k].0@) == up_of(t[k].1),
    ensures
        endpoint_alerts(e, t) == Seq::<(Seq<char>, Seq<char>)>::empty(),
    decreases t.len(),
{
    if t.len() > 0 {
        assert forall|k: int| 0 <= k < t.drop_last().len() implies was_up(e, #[trigger] t.drop_last()[k].0@) == up_of(
            t.drop_last()[k].1,
        ) by {
            assert(t.drop_last()[k] == t[k]);
        }
        lemma_endpoints_quiet(e, t.drop_last());
        assert(was_up(e, t[t.len() - 1].0@) == up_of(t[t.len() - 1].1));
        assert(endpoint_alerts(e, t) =~= Seq::<(Seq<char>, Seq<char>)>::empty());
    }
}

proof fn lemma_status_own(es: Seq<DeploymentEvent>, k: int)
    requires
        0 <= k < es.len(),
        forall|i: int, j: int| 0 <= i < j < es.len() ==> es[i].id@ != es[j].id@,
    ensures
        status_before(statuses_of(es), es[k].id@) == Some(es[k].status),
    decreases es.len(),
{
    let s = statuses_of(es);
    if k < es.len() - 1 {
        assert(s.last().0 == es.last().id@);
        assert(statuses_of(es.drop_last()) =~= s.drop_last());
        assert(es.drop_last()[k] == es[k]);
        lemma_status_own(es.drop_last(), k);
    }
}

proof fn lemma_statuses_quiet(st: Seq<(Seq<char>, DeploymentStatus)>, es: Seq<DeploymentEvent>)
    requires
        forall|k: int| 0 <= k < es.len() ==> status_before(st, #[trigger] es[k].id@) == Some(es[k].status),
    ensures
        status_alerts(st, es) == Seq::<(Seq<char>, Seq<char>)>::empty(),
    decreases es.len(),
{
    if es.len() > 0 {
        assert forall|k: int| 0 <= k < es.drop_last().len() implies status_before(st, #[trigger] es.drop_last()[k].id@)
            == Some(es.drop_last()[k].status) by {
            assert(es.drop_last()[k] == es[k]);
        }
        lemma_statuses_quiet(st, es.drop_last());
        let e = es[es.len() - 1];
        assert(status_before(st, e.id@) == Some(e.status));
        assert(DeploymentStatus::same(e.status, e.status));
        assert(status_alerts(st, es) =~= Seq::<(Seq<char>, Seq<char>)>::empty());
    }
}

/// Notifications mark changes only: checking the same snapshot twice (its
/// projects and event ids each distinct) notifies nothing the second time.
pub proof fn same_snapshot_twice_is_quiet(t: Seq<(String, Option<PingResult>)>, es: Seq<DeploymentEvent>)
    requires
        forall|i: int, j: int| 0 <= i < j < t.len() ==> t[i].0@ != t[j].0@,
        forall|i: int, j: int| 0 <= i < j < es.len() ==> es[i].id@ != es[j].id@,
    ensures
        endpoint_alerts(endpoints_of(t), t) + status_alerts(statuses_of(es), es) == Seq::<
            (Seq<char>, Seq<char>),
        >::empty(),
{
    assert forall|k: int| 0 <= k < t.len() implies was_up(endpoints_of(t), #[trigger] t[k].0@) == up_of(t[k].1) by {
        lemma_was_up_own(t, k);
    }
    lemma_endpoints_quiet(endpoints_of(t), t);
    assert forall|k: int| 0 <= k < es.len() implies status_before(statuses_of(es), #[trigger] es[k].id@) == Some(
        es[k].status,
    ) by {
        lemma_status_own(es, k);
    }
    lemma_statuses_quiet(statuses_of(es), es);
    assert(endpoint_alerts(endpoints_of(t), t) + status_alerts(statuses_of(es), es) =~= Seq::<
        (Seq<char>, Seq<char>),
    >::empty());
}

/// `s` ends with `suffix`.
pub open spec fn ends_with(s: Seq<char>, suffix: Seq<char>) -> bool {
    s.len() >= suffix.len() && s.subrange(s.len() - suffix.len(), s.len() as int) == suffix
}

/// A run remembered as running or queued that has now failed is announced
/// as failed: one alert, whose title ends in " failed"; for a GitHub run
/// with a workflow name it is that name and " failed", with the run's
/// branch in the body.
pub proof fn failed_run_is_announced_as_failed(statuses: Seq<(Seq<char>, DeploymentStatus)>, e: DeploymentEvent)
    requires
        status_before(statuses, e.id@) == Some(DeploymentStatus::InProgress) || status_before(statuses, e.id@)
            == Some(DeploymentStatus::Queued),
        e.status == DeploymentStatus::Failed,
    ensures
        status_alert(statuses, e).len() == 1,
        ends_with(status_alert(statuses, e)[0].0, " failed"@),
        e.platform == Platform::GitHub ==> (e.metadata.workflow_name matches Some(w) ==> status_alert(statuses, e)[0].0
            == w@ + " failed"@),
        e.platform == Platform::GitHub ==> (e.branch matches Some(b) ==> status_alert(statuses, e)[0].1 == "branch: "@
            + b@),
{
    reveal_strlit(" ");
    reveal_strlit("failed");
    reveal_strlit(" failed");
    let t = status_alert(statuses, e)[0].0;
    assert(t =~= notification_of(e, "failed"@).0);
    assert(t.subrange(t.len() - 7, t.len() as int) =~= " failed"@);
    if e.platform == Platform::GitHub {
        if e.metadata.workflow_name is Some {
            assert(t =~= e.metadata.workflow_name->0@ + " failed"@);
        }
    }
}

/// Only a change to success is announced as succeeded: an alert whose
/// title ends in " succeeded" is for an event that now succeeded.
pub proof fn succeeded_only_on_success(statuses: Seq<(Seq<char>, DeploymentStatus)>, e: DeploymentEvent)
    requires
        status_alert(statuses, e).len() > 0,
        ends_with(status_alert(statuses, e)[0].0, " succeeded"@),
    ensures
        e.status == DeploymentStatus::Success,
{
    reveal_strlit(" ");
    reveal_strlit("failed");
    reveal_strlit("running");
    reveal_strlit("succeeded");
    reveal_strlit(" succeeded");
    let before = status_before(statuses, e.id@)->0;
    let verb = transition_verb(before, e.status)->0;
    let t = status_alert(statuses, e)[0].0;
    assert(t == notification_of(e, verb).0);
    let n = t.len();
    assert(t.subrange(n - 10, n as int)[7] == t[n - 3]);
    assert(" succeeded"@[7] == 'd');
    if verb == "failed"@ {
        assert(t[n - 3] == 'l');
    } else if verb == "running"@ {
        assert(t[n - 1] == 'g');
        assert(t.subrange(n - 10, n as int)[9] == t[n - 1]);
    }
}

/// Every event's alert is among a snapshot's alerts.
pub proof fn each_event_alert_is_reported(statuses: Seq<(Seq<char>, DeploymentStatus)>, es: Seq<DeploymentEvent>, k: int)
    requires
        0 <= k < es.len(),
    ensures
        forall|j: int| 0 <= j < status_alert(statuses, es[k]).len() ==> status_alerts(statuses, es).contains(
            #[trigger] status_alert(statuses, es[k])[j],
        ),
    decreases es.len(),
{
    let rest = status_alerts(statuses, es.drop_last());
    let all = status_alerts(statuses, es);
    let own = status_alert(statuses, es.last());
    assert(all == rest + own);
    if k < es.len() - 1 {
        each_event_alert_is_reported(statuses, es.drop_last(), k);
        assert(es.drop_last()[k] == es[k]);
        assert forall|j: int| 0 <= j < status_alert(statuses, es[k]).len() implies all.contains(
            #[trigger] status_alert(statuses, es[k])[j],
        ) by {
            let x = status_alert(statuses, es[k])[j];
            assert(rest.contains(x));
            let i = choose|i: int| 0 <= i < rest.len() && rest[i] == x;
            assert(all[i] == x);
        }
    } else {
        assert forall|j: int| 0 <= j < status_alert(statuses, es[k]).len() implies all.contains(
            #[trigger] status_alert(statuses, es[k])[j],
        ) by {
            assert(all[rest.len() + j] == own[j]);
        }
    }
}

} // verus!
