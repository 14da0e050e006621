//! The decisions of the background poller: when each provider is due, how
//! the provider caches are merged, the score history kept for sparklines,
//! the grouped events kept for delivery metrics, and which address of a
//! project is probed.

use vstd::prelude::*;
use crate::config::{opt_view, resources_view, github_resources, railway_resources, vercel_resources, CorrelationConfig, PlatformResources, PulsosConfig};
use crate::domain::{CorrelatedEvent, DeploymentEvent, PlatformKind};
use crate::events::{sort_newest_first, stable_newest_first};
use crate::text::{concat, contains, contains_str, decimal, owned, push_decimal, push_str, str_eq};

verus! {

/// Most scores kept per project for its sparkline.
pub const HEALTH_HISTORY_CAP: usize = 20;

/// Most grouped events kept for delivery metrics.
pub const DORA_HISTORY_CAP: usize = 200;

/// The cached events of the three providers as one list, newest first;
/// among equal times GitHub's come before Railway's before Vercel's, each
/// in cache order.
pub fn combine_events(github: Vec<DeploymentEvent>, railway: Vec<DeploymentEvent>, vercel: Vec<DeploymentEvent>) -> (r:
    Vec<DeploymentEvent>)
    ensures
        stable_newest_first(github@ + railway@ + vercel@, r@),
{
    let ghost all = github@ + railway@ + vercel@;
    let mut events = github;
    let mut r = railway;
    let mut v = vercel;
    events.append(&mut r);
    events.append(&mut v);
    assert(events@ =~= all);
    sort_newest_first(events)
}

/// A score history after one more score: the oldest dropped beyond the cap.
pub open spec fn capped(s: Seq<u8>) -> Seq<u8> {
    if s.len() > HEALTH_HISTORY_CAP {
        s.skip(1)
    } else {
        s
    }
}

/// The histories as (project, scores) pairs.
pub open spec fn history_view(h: Seq<(String, Vec<u8>)>) -> Seq<(Seq<char>, Seq<u8>)> {
    h.map_values(|p: (String, Vec<u8>)| (p.0@, p.1@))
}

/// Position of the first history of project `name`, or -1.
pub open spec fn position_of(h: Seq<(Seq<char>, Seq<u8>)>, name: Seq<char>) -> int
    decreases h.len(),
{
    if h.len() == 0 {
        -1
    } else if h[0].0 == name {
        0
    } else {
        let r = position_of(h.skip(1), name);
        if r < 0 {
            -1
        } else {
            r + 1
        }
    }
}

proof fn lemma_position_of(h: Seq<(Seq<char>, Seq<u8>)>, name: Seq<char>, i: int)
    requires
        0 <= i <= h.len(),
        forall|k: int| 0 <= k < i ==> h[k].0 != name,
        i < h.len() ==> h[i].0 == name,
    ensures
        position_of(h, name) == if i < h.len() {
            i
        } else {
            -1
        },
    decreases h.len(),
{
    if h.len() > 0 && i > 0 {
        lemma_position_of(h.skip(1), name, i - 1);
    }
}

/// The histories after one more score of project `name`.
pub open spec fn record_one(h: Seq<(Seq<char>, Seq<u8>)>, name: Seq<char>, score: u8) -> Seq<(Seq<char>, Seq<u8>)> {
    let i = position_of(h, name);
    if i >= 0 {
        h.update(i, (name, capped(h[i].1.push(score))))
    } else {
        h.push((name, seq![score]))
    }
}

/// The histories after recording every score of a poll, in order.
pub open spec fn record_all(h: Seq<(Seq<char>, Seq<u8>)>, scores: Seq<(String, u8)>) -> Seq<(Seq<char>, Seq<u8>)>
    decreases scores.len(),
{
    if scores.len() == 0 {
        h
    } else {
        record_one(record_all(h, scores.drop_last()), scores.last().0@, scores.last().1)
    }
}

/// Histories keyed by distinct project names.
pub open spec fn distinct_names(h: Seq<(Seq<char>, Seq<u8>)>) -> bool {
    forall|i: int, j: int| 0 <= i < j < h.len() ==> h[i].0 != h[j].0
}

/// Every history holds at most the cap.
pub open spec fn within_cap(h: Seq<(Seq<char>, Seq<u8>)>) -> bool {
    forall|i: int| 0 <= i < h.len() ==> #[trigger] h[i].1.len() <= HEALTH_HISTORY_CAP
}

fn record_score(history: &mut Vec<(String, Vec<u8>)>, name: &String, score: u8)
    requires
        distinct_names(history_view(old(history)@)),
    ensures
        history_view(final(history)@) == record_one(history_view(old(history)@), name@, score),
        distinct_names(history_view(final(history)@)),
{
    let ghost h = history_view(history@);
    let mut i: usize = 0;
    while i < history.len() && !str_eq(history[i].0.as_str(), name.as_str())
        invariant
            i <= history@.len(),
            h == history_view(history@),
            forall|k: int| 0 <= k < i ==> h[k].0 != name@,
        decreases history@.len() - i,
    {
        i = i + 1;
    }
    if i == history.len() {
        let mut fresh: Vec<u8> = Vec::new();
        fresh.push(score);
        assert(fresh@ =~= seq![score]);
        history.push((name.clone(), fresh));
        proof {
            lemma_position_of(h, name@, i as int);
            assert(history_view(history@) =~= h.push((name@, seq![score])));
        }
    } else {
        assert(h[i as int].0 == name@);
        let (key, mut scores) = history.remove(i);
        let ghost old_scores = scores@;
        scores.push(score);
        if scores.len() > HEALTH_HISTORY_CAP {
            scores.remove(0);
        }
        history.insert(i, (key, scores));
        proof {
            lemma_position_of(h, name@, i as int);
            assert(capped(old_scores.push(score)) =~= scores@);
            assert(history_view(history@) =~= h.update(i as int, (name@, capped(old_scores.push(score)))));
        }
    }
}

/// Records the scores of a poll: each is appended to its project's history
/// (a new history for a new project), and a history longer than the cap
/// loses its oldest score.
pub fn record_health(history: &mut Vec<(String, Vec<u8>)>, scores: &Vec<(String, u8)>)
    requires
        distinct_names(history_view(old(history)@)),
    ensures
        history_view(final(history)@) == record_all(history_view(old(history)@), scores@),
        distinct_names(history_view(final(history)@)),
        within_cap(history_view(old(history)@)) ==> within_cap(history_view(final(history)@)),
{
    let ghost start = history_view(history@);
    let mut k: usize = 0;
    while k < scores.len()
        invariant
            k <= scores@.len(),
            distinct_names(history_view(history@)),
            history_view(history@) == record_all(start, scores@.take(k as int)),
            within_cap(start) ==> within_cap(history_view(history@)),
        decreases scores@.len() - k,
    {
        let ghost before = history_view(history@);
        record_score(history, &scores[k].0, scores[k].1);
        proof {
            assert(scores@.take(k + 1).drop_last() =~= scores@.take(k as int));
            lemma_record_one_within_cap(before, scores@[k as int].0@, scores@[k as int].1);
        }
        k = k + 1;
    }
    assert(scores@.take(scores@.len() as int) =~= scores@);
}

proof fn lemma_record_one_within_cap(h: Seq<(Seq<char>, Seq<u8>)>, name: Seq<char>, score: u8)
    ensures
        within_cap(h) ==> within_cap(record_one(h, name, score)),
{
    if within_cap(h) {
        lemma_position_bounds(h, name);
        let i = position_of(h, name);
        let r = record_one(h, name, score);
        if i >= 0 {
            assert(h[i].1.len() <= HEALTH_HISTORY_CAP);
        }
        assert forall|j: int| 0 <= j < r.len() implies #[trigger] r[j].1.len() <= HEALTH_HISTORY_CAP by {
            if j != i && j < h.len() {
                assert(r[j] == h[j]);
            }
        }
    }
}

proof fn lemma_position_bounds(h: Seq<(Seq<char>, Seq<u8>)>, name: Seq<char>)
    ensures
        -1 <= position_of(h, name) < h.len(),
        position_of(h, name) >= 0 ==> h[position_of(h, name)].0 == name,
    decreases h.len(),
{
    if h.len() > 0 && h[0].0 != name {
        lemma_position_bounds(h.skip(1), name);
    }
}

/// A score history never grows past the cap: starting from histories within
/// it, recording any scores keeps every history within it.
pub proof fn history_stays_within_cap(h: Seq<(Seq<char>, Seq<u8>)>, scores: Seq<(String, u8)>)
    requires
        within_cap(h),
    ensures
        within_cap(record_all(h, scores)),
    decreases scores.len(),
{
    if scores.len() > 0 {
        history_stays_within_cap(h, scores.drop_last());
        lemma_record_one_within_cap(record_all(h, scores.drop_last()), scores.last().0@, scores.last().1);
    }
}


/// Project `name`'s score history (empty while it has none).
pub open spec fn history_of(h: Seq<(Seq<char>, Seq<u8>)>, name: Seq<char>) -> Seq<u8> {
    let i = position_of(h, name);
    if i >= 0 {
        h[i].1
    } else {
        Seq::empty()
    }
}

/// The scores of project `name` among a poll's scores, in order.
pub open spec fn scores_for(scores: Seq<(String, u8)>, name: Seq<char>) -> Seq<u8>
    decreases scores.len(),
{
    if scores.len() == 0 {
        Seq::empty()
    } else {
        let r = scores_for(scores.drop_last(), name);
        if scores.last().0@ == name {
            r.push(scores.last().1)
        } else {
            r
        }
    }
}

/// The scores of project `name` over a run of polls, oldest first.
pub open spec fn run_scores_for(polls: Seq<Seq<(String, u8)>>, name: Seq<char>) -> Seq<u8>
    decreases polls.len(),
{
    if polls.len() == 0 {
        Seq::empty()
    } else {
        run_scores_for(polls.drop_last(), name) + scores_for(polls.last(), name)
    }
}

/// The histories after a run of polls, each recorded in turn.
pub open spec fn record_polls(h: Seq<(Seq<char>, Seq<u8>)>, polls: Seq<Seq<(String, u8)>>) -> Seq<(Seq<char>, Seq<u8>)>
    decreases polls.len(),
{
    if polls.len() == 0 {
        h
    } else {
        record_all(record_polls(h, polls.drop_last()), polls.last())
    }
}

/// The newest `HEALTH_HISTORY_CAP` scores of a list, oldest first.
pub open spec fn latest_scores(s: Seq<u8>) -> Seq<u8> {
    if s.len() > HEALTH_HISTORY_CAP {
        s.skip(s.len() - HEALTH_HISTORY_CAP)
    } else {
        s
    }
}

proof fn lemma_position_spec(h: Seq<(Seq<char>, Seq<u8>)>, name: Seq<char>)
    ensures
        position_of(h, name) >= 0 ==> forall|k: int| 0 <= k < position_of(h, name) ==> h[k].0 != name,
        position_of(h, name) < 0 ==> forall|k: int| 0 <= k < h.len() ==> h[k].0 != name,
    decreases h.len(),
{
    lemma_position_bounds(h, name);
    if h.len() > 0 && h[0].0 != name {
        lemma_position_spec(h.skip(1), name);
        let r = position_of(h.skip(1), name);
        if r >= 0 {
            assert forall|k: int| 0 <= k < position_of(h, name) implies h[k].0 != name by {
                if k > 0 {
                    assert(h.skip(1)[k - 1] == h[k]);
                }
            }
        } else {
            assert forall|k: int| 0 <= k < h.len() implies h[k].0 != name by {
                if k > 0 {
                    assert(h.skip(1)[k - 1] == h[k]);
                }
            }
        }
    }
}

proof fn lemma_latest_push(s: Seq<u8>, score: u8)
    ensures
        capped(latest_scores(s).push(score)) == latest_scores(s.push(score)),
{
    assert(capped(latest_scores(s).push(score)) =~= latest_scores(s.push(score)));
}

/// One recorded score moves project `name`'s history on exactly when the
/// score is its own.
proof fn lemma_record_one_history(h: Seq<(Seq<char>, Seq<u8>)>, n: Seq<char>, score: u8, name: Seq<char>, s: Seq<u8>)
    requires
        history_of(h, name) == latest_scores(s),
    ensures
        history_of(record_one(h, n, score), name) == latest_scores(if n == name {
            s.push(score)
        } else {
            s
        }),
{
    lemma_position_bounds(h, name);
    lemma_position_spec(h, name);
    lemma_position_bounds(h, n);
    lemma_position_spec(h, n);
    let i = position_of(h, n);
    let j = position_of(h, name);
    let r = record_one(h, n, score);
    if n == name {
        if i >= 0 {
            lemma_position_of(r, name, i);
            lemma_latest_push(s, score);
        } else {
            if s.len() > HEALTH_HISTORY_CAP {
                assert(latest_scores(s).len() == HEALTH_HISTORY_CAP);
            }
            assert(s.len() == 0);
            lemma_position_of(r, name, h.len() as int);
            assert(s.push(score) =~= seq![score]);
        }
    } else {
        if j >= 0 {
            assert forall|k: int| 0 <= k < j implies r[k].0 != name by {
                if i >= 0 && k == i {
                } else {
                    assert(r[k] == h[k]);
                }
            }
            assert(r[j] == h[j]);
            lemma_position_of(r, name, j);
        } else {
            assert forall|k: int| 0 <= k < r.len() implies r[k].0 != name by {
                if i >= 0 && k == i {
                } else if k < h.len() {
                    assert(r[k] == h[k]);
                }
            }
            lemma_position_of(r, name, r.len() as int);
            if s.len() > HEALTH_HISTORY_CAP {
                assert(latest_scores(s).len() == HEALTH_HISTORY_CAP);
            }
        }
    }
}

proof fn lemma_record_all_history(h: Seq<(Seq<char>, Seq<u8>)>, scores: Seq<(String, u8)>, name: Seq<char>, s: Seq<u8>)
    requires
        history_of(h, name) == latest_scores(s),
    ensures
        history_of(record_all(h, scores), name) == latest_scores(s + scores_for(scores, name)),
    decreases scores.len(),
{
    if scores.len() == 0 {
        assert(s + scores_for(scores, name) =~= s);
    } else {
        let rest = scores.drop_last();
        lemma_record_all_history(h, rest, name, s);
        let t = s + scores_for(rest, name);
        lemma_record_one_history(record_all(h, rest), scores.last().0@, scores.last().1, name, t);
        if scores.last().0@ == name {
            assert(t.push(scores.last().1) =~= s + scores_for(scores, name));
        } else {
            assert(t =~= s + scores_for(scores, name));
        }
    }
}

proof fn lemma_record_polls_history(polls: Seq<Seq<(String, u8)>>, name: Seq<char>)
    ensures
        history_of(record_polls(Seq::empty(), polls), name) == latest_scores(run_scores_for(polls, name)),
    decreases polls.len(),
{
    if polls.len() == 0 {
        assert(position_of(Seq::<(Seq<char>, Seq<u8>)>::empty(), name) == -1);
    } else {
        lemma_record_polls_history(polls.drop_last(), name);
        lemma_record_all_history(
            record_polls(Seq::empty(), polls.drop_last()),
            polls.last(),
            name,
            run_scores_for(polls.drop_last(), name),
        );
    }
}

/// Over any run of polls that starts with no history, each project's
/// history holds its newest `HEALTH_HISTORY_CAP` scores of the run, oldest
/// first (all of them while there are no more than that).
pub proof fn history_keeps_newest_scores(polls: Seq<Seq<(String, u8)>>, name: Seq<char>)
    ensures
        history_of(record_polls(Seq::empty(), polls), name) == latest_scores(run_scores_for(polls, name)),
        history_of(record_polls(Seq::empty(), polls), name).len() <= HEALTH_HISTORY_CAP,
{
    lemma_record_polls_history(polls, name);
}

/// Two groups belong to the same project and commit.
pub open spec fn same_key(a: CorrelatedEvent, b: CorrelatedEvent) -> bool {
    opt_view(a.project_name) == opt_view(b.project_name) && opt_view(a.commit_sha) == opt_view(b.commit_sha)
}

/// The delivery history after adding, in order, each group not yet kept
/// for its project and commit.
pub open spec fn history_added(h: Seq<CorrelatedEvent>, evs: Seq<CorrelatedEvent>) -> Seq<CorrelatedEvent>
    decreases evs.len(),
{
    if evs.len() == 0 {
        h
    } else {
        let m = history_added(h, evs.drop_last());
        if exists|k: int| 0 <= k < m.len() && same_key(#[trigger] m[k], evs.last()) {
            m
        } else {
            m.push(evs.last())
        }
    }
}

/// The newest `DORA_HISTORY_CAP` groups of a history.
pub open spec fn history_capped(m: Seq<CorrelatedEvent>) -> Seq<CorrelatedEvent> {
    if m.len() > DORA_HISTORY_CAP {
        m.skip(m.len() - DORA_HISTORY_CAP)
    } else {
        m
    }
}

/// Two lists of groups hold the same values, position by position.
pub open spec fn same_groups(a: Seq<CorrelatedEvent>, b: Seq<CorrelatedEvent>) -> bool {
    a.len() == b.len() && forall|i: int| 0 <= i < a.len() ==> crate::domain::same_group(#[trigger] a[i], b[i])
}

fn same_text_opt(a: &Option<String>, b: &Option<String>) -> (r: bool)
    ensures
        r == (opt_view(*a) == opt_view(*b)),
{
    match (a, b) {
        (Some(x), Some(y)) => str_eq(x.as_str(), y.as_str()),
        (None, None) => true,
        _ => false,
    }
}

/// Adds the groups of a poll to the delivery history: a group whose project
/// and commit are kept already is skipped; then only the newest
/// `DORA_HISTORY_CAP` are kept.
pub fn merge_dora_history(history: &mut Vec<CorrelatedEvent>, correlated: &Vec<CorrelatedEvent>)
    ensures
        same_groups(final(history)@, history_capped(history_added(old(history)@, correlated@))),
{
    let ghost start = history@;
    let mut k: usize = 0;
    assert(correlated@.take(0) =~= Seq::<CorrelatedEvent>::empty());
    while k < correlated.len()
        invariant
            k <= correlated@.len(),
            same_groups(history@, history_added(start, correlated@.take(k as int))),
        decreases correlated@.len() - k,
    {
        let e = &correlated[k];
        let ghost m = history_added(start, correlated@.take(k as int));
        let mut j: usize = 0;
        while j < history.len() && !(same_text_opt(&history[j].project_name, &e.project_name) && same_text_opt(
            &history[j].commit_sha,
            &e.commit_sha,
        ))
            invariant
                j <= history@.len(),
                same_groups(history@, m),
                forall|i: int| 0 <= i < j ==> !same_key(#[trigger] m[i], *e),
            decreases history@.len() - j,
        {
            j = j + 1;
        }
        let present = j < history.len();
        if present {
            assert(same_key(m[j as int], *e));
        }
        proof {
            assert(correlated@.take(k + 1).drop_last() =~= correlated@.take(k as int));
            assert(correlated@.take(k + 1).last() == *e);
        }
        if !present {
            let ghost before = history@;
            history.push(e.duplicate());
            proof {
                assert(!exists|i: int| 0 <= i < m.len() && same_key(#[trigger] m[i], *e));
                assert forall|i: int| 0 <= i < history@.len() implies crate::domain::same_group(
                    #[trigger] history@[i],
                    m.push(*e)[i],
                ) by {
                    if i < before.len() {
                        assert(history@[i] == before[i]);
                    }
                }
            }
        }
        k = k + 1;
    }
    assert(correlated@.take(correlated@.len() as int) =~= correlated@);
    let ghost merged = history_added(start, correlated@);
    if history.len() > DORA_HISTORY_CAP {
        let excess = history.len() - DORA_HISTORY_CAP;
        let mut dropped: usize = 0;
        while dropped < excess
            invariant
                dropped <= excess,
                excess == merged.len() - DORA_HISTORY_CAP,
                merged.len() > DORA_HISTORY_CAP,
                same_groups(history@, merged.skip(dropped as int)),
            decreases excess - dropped,
        {
            let ghost before = history@;
            history.remove(0);
            proof {
                assert forall|i: int| 0 <= i < history@.len() implies crate::domain::same_group(
                    #[trigger] history@[i],
                    merged.skip(dropped + 1)[i],
                ) by {
                    assert(history@[i] == before[i + 1]);
                    assert(merged.skip(dropped + 1)[i] == merged.skip(dropped as int)[i + 1]);
                }
            }
            dropped = dropped + 1;
        }
    }
}


/// The address an event can be reached at: its URL, else its preview URL.
pub open spec fn link_of(e: DeploymentEvent) -> Option<Seq<char>> {
    match opt_view(e.url) {
        Some(u) => Some(u),
        None => opt_view(e.metadata.preview_url),
    }
}

/// An event counts as the project's when its source is the project's Vercel
/// or Railway project, or holds the Vercel project's name (any source does
/// when there is no Vercel project).
pub open spec fn belongs_to(e: DeploymentEvent, c: CorrelationConfig) -> bool {
    match opt_view(e.metadata.source_id) {
        None => false,
        Some(id) => opt_view(c.vercel_project) == Some(id) || opt_view(c.railway_project) == Some(id) || contains(
            id,
            crate::repos::or_text(opt_view(c.vercel_project), Seq::empty()),
        ),
    }
}

/// The first address among `es` of an event that counts (every event counts
/// when `any`).
pub open spec fn first_link(es: Seq<DeploymentEvent>, c: CorrelationConfig, any: bool) -> Option<Seq<char>>
    decreases es.len(),
{
    if es.len() == 0 {
        None
    } else if (any || belongs_to(es[0], c)) && link_of(es[0]) is Some {
        link_of(es[0])
    } else {
        first_link(es.skip(1), c, any)
    }
}

proof fn lemma_first_link_concat(a: Seq<DeploymentEvent>, b: Seq<DeploymentEvent>, c: CorrelationConfig, any: bool)
    ensures
        first_link(a + b, c, any) == match first_link(a, c, any) {
            Some(u) => Some(u),
            None => first_link(b, c, any),
        },
    decreases a.len(),
{
    if a.len() == 0 {
        assert(a + b =~= b);
    } else {
        assert((a + b)[0] == a[0]);
        assert((a + b).skip(1) =~= a.skip(1) + b);
        lemma_first_link_concat(a.skip(1), b, c, any);
    }
}

/// The address a project is probed at: among the cached Vercel then Railway
/// events, the first address of an event of the project, else the first
/// address of any event.
pub open spec fn ping_url(c: CorrelationConfig, vercel: Seq<DeploymentEvent>, railway: Seq<DeploymentEvent>) -> Option<Seq<char>> {
    match first_link(vercel + railway, c, false) {
        Some(u) => Some(u),
        None => first_link(vercel + railway, c, true),
    }
}

fn belongs_to_exec(e: &DeploymentEvent, c: &CorrelationConfig) -> (r: bool)
    ensures
        r == belongs_to(*e, *c),
{
    match &e.metadata.source_id {
        None => false,
        Some(id) => {
            let vercel_match = match &c.vercel_project {
                Some(v) => str_eq(v.as_str(), id.as_str()),
                None => false,
            };
            let railway_match = match &c.railway_project {
                Some(v) => str_eq(v.as_str(), id.as_str()),
                None => false,
            };
            let needle = match &c.vercel_project {
                Some(v) => v.as_str(),
                None => "",
            };
            proof {
                reveal_strlit("");
                assert(needle@ == crate::repos::or_text(opt_view(c.vercel_project), Seq::empty()));
                assert(vercel_match == (opt_view(c.vercel_project) == Some(id@)));
                assert(railway_match == (opt_view(c.railway_project) == Some(id@)));
            }
            vercel_match || railway_match || contains_str(id.as_str(), needle)
        },
    }
}

fn link_exec(e: &DeploymentEvent) -> (r: Option<String>)
    ensures
        opt_view(r) == link_of(*e),
{
    match &e.url {
        Some(u) => Some(u.clone()),
        None => match &e.metadata.preview_url {
            Some(u) => Some(u.clone()),
            None => None,
        },
    }
}

fn scan_links(es: &[DeploymentEvent], c: &CorrelationConfig, any: bool) -> (r: Option<String>)
    ensures
        opt_view(r) == first_link(es@, *c, any),
{
    let mut i: usize = 0;
    assert(es@.skip(0) =~= es@);
    while i < es.len()
        invariant
            i <= es@.len(),
            first_link(es@, *c, any) == first_link(es@.skip(i as int), *c, any),
        decreases es@.len() - i,
    {
        let e = &es[i];
        assert(es@.skip(i as int)[0] == es@[i as int]);
        if any || belongs_to_exec(e, c) {
            let l = link_exec(e);
            if l.is_some() {
                return l;
            }
        }
        assert(es@.skip(i as int).skip(1) =~= es@.skip(i + 1));
        i = i + 1;
    }
    None
}

/// The address a project is probed at, if any event offers one.
pub fn ping_target(c: &CorrelationConfig, vercel: &Vec<DeploymentEvent>, railway: &Vec<DeploymentEvent>) -> (r: Option<
    String,
>)
    ensures
        opt_view(r) == ping_url(*c, vercel@, railway@),
{
    proof {
        lemma_first_link_concat(vercel@, railway@, *c, false);
        lemma_first_link_concat(vercel@, railway@, *c, true);
    }
    match scan_links(vercel.as_slice(), c, false) {
        Some(u) => return Some(u),
        None => {},
    }
    match scan_links(railway.as_slice(), c, false) {
        Some(u) => return Some(u),
        None => {},
    }
    match scan_links(vercel.as_slice(), c, true) {
        Some(u) => return Some(u),
        None => {},
    }
    scan_links(railway.as_slice(), c, true)
}


/// Seconds between GitHub fetches before the rate budget adjusts it.
pub const GITHUB_THROTTLE_SECS: u64 = 30;
/// Seconds between Railway fetches.
pub const RAILWAY_THROTTLE_SECS: u64 = 15;
/// Seconds between Vercel fetches.
pub const VERCEL_THROTTLE_SECS: u64 = 15;
/// Seconds between readiness checks.
pub const HEALTH_THROTTLE_SECS: u64 = 30;
/// Seconds between Railway resource metric fetches.
pub const METRICS_THROTTLE_SECS: u64 = 30;
/// Seconds between probes of deployed addresses.
pub const PING_THROTTLE_SECS: u64 = 8;

/// Whether a periodic task runs this cycle: on a forced refresh, or once its
/// throttle has passed since it last ran.
pub fn check_due(force: bool, elapsed_secs: u64, throttle_secs: u64) -> (r: bool)
    ensures
        r == (force || elapsed_secs >= throttle_secs),
{
    force || elapsed_secs >= throttle_secs
}

/// Whether a provider is fetched this cycle: it must track some resource
/// and be due.
pub fn fetch_due(has_resources: bool, force: bool, elapsed_secs: u64, throttle_secs: u64) -> (r: bool)
    ensures
        r == (has_resources && (force || elapsed_secs >= throttle_secs)),
{
    has_resources && check_due(force, elapsed_secs, throttle_secs)
}

/// Seconds between poll cycles: the configured interval, at least one.
pub fn poll_interval_secs(refresh_interval: u64) -> (r: u64)
    ensures
        r == if refresh_interval >= 1 {
            refresh_interval
        } else {
            1
        },
{
    if refresh_interval >= 1 {
        refresh_interval
    } else {
        1
    }
}

/// The first cycle starts at once; later ones wait for the interval or a
/// command. Returns whether the wait is skipped.
pub fn skip_first_wait(first_cycle: &mut bool) -> (r: bool)
    ensures
        r == *old(first_cycle),
        !*final(first_cycle),
{
    let r = *first_cycle;
    *first_cycle = false;
    r
}

/// What the dashboard asks of the poller.
#[derive(Debug)]
pub enum PollerCommand {
    /// Fetch every provider now.
    ForceRefresh,
    /// Use this configuration from now on.
    ReplaceConfig(PulsosConfig),
}

/// Applies a command; every command forces the next fetch. A new
/// configuration replaces the old one and the tracked resources are derived
/// from it again.
pub fn apply_command(command: PollerCommand, config: &mut PulsosConfig, resources: &mut PlatformResources) -> (force: bool)
    ensures
        force,
        match command {
            PollerCommand::ForceRefresh => *final(config) == *old(config) && *final(resources) == *old(resources),
            PollerCommand::ReplaceConfig(new_config) => {
                &&& *final(config) == new_config
                &&& resources_view(final(resources).github@) == github_resources(new_config.correlations@)
                &&& resources_view(final(resources).railway@) == railway_resources(new_config.correlations@)
                &&& resources_view(final(resources).vercel@) == vercel_resources(new_config.correlations@)
            },
        },
{
    match command {
        PollerCommand::ForceRefresh => true,
        PollerCommand::ReplaceConfig(new_config) => {
            *resources = PlatformResources::from_correlations(new_config.correlations.as_slice());
            *config = new_config;
            true
        },
    }
}

/// The warning for a provider that tracks resources but has no token.
pub fn no_token_warning(p: PlatformKind) -> (r: String)
    ensures
        r@ == p.name_of() + ": no token available"@,
{
    concat(p.display_name(), ": no token available")
}

/// The warning for a failed fetch, with the provider's message.
pub fn fetch_warning(p: PlatformKind, message: &str) -> (r: String)
    ensures
        r@ == p.name_of() + ": "@ + message@,
{
    let mut out = concat(p.display_name(), ": ");
    push_str(&mut out, message);
    out
}

/// Whether every fetch of a provider's round succeeded.
pub open spec fn all_fetched<T>(results: Seq<Result<Vec<T>, String>>) -> bool {
    forall|i: int| 0 <= i < results.len() ==> #[trigger] results[i] is Ok
}

/// The events of a provider's round, in the order of its fetches.
pub open spec fn fetched_events<T>(results: Seq<Result<Vec<T>, String>>) -> Seq<T>
    decreases results.len(),
{
    if results.len() == 0 {
        Seq::empty()
    } else {
        fetched_events(results.drop_last()) + match results.last() {
            Ok(v) => v@,
            Err(_) => Seq::empty(),
        }
    }
}

/// The warnings of a provider's round: one per failed fetch, in order.
pub open spec fn fetch_warnings<T>(results: Seq<Result<Vec<T>, String>>, p: PlatformKind) -> Seq<Seq<char>>
    decreases results.len(),
{
    if results.len() == 0 {
        Seq::empty()
    } else {
        fetch_warnings(results.drop_last(), p) + match results.last() {
            Ok(_) => Seq::empty(),
            Err(m) => seq![p.name_of() + ": "@ + m@],
        }
    }
}

/// A provider's cache after a round of fetches: when every fetch succeeded
/// the fetched events, in order, replace the cache; when any failed the
/// cache keeps its last good events. Returns the new cache and one warning
/// per failed fetch (none exactly when the round succeeded).
pub fn after_fetch<T>(cached: Vec<T>, results: Vec<Result<Vec<T>, String>>, p: PlatformKind) -> (r: (Vec<T>, Vec<String>))
    ensures
        all_fetched(results@) ==> r.0@ == fetched_events(results@),
        !all_fetched(results@) ==> r.0@ == cached@,
        r.1@.map_values(|w: String| w@) == fetch_warnings(results@, p),
        r.1@.len() == 0 <==> all_fetched(results@),
{
    let ghost orig = results@;
    let mut rest = results;
    let total = rest.len();
    let mut fetched: Vec<T> = Vec::new();
    let mut warnings: Vec<String> = Vec::new();
    let mut failed = false;
    let mut k: usize = 0;
    while rest.len() > 0
        invariant
            k + rest@.len() == orig.len(),
            orig.len() == total,
            rest@ == orig.skip(k as int),
            fetched@ == fetched_events(orig.take(k as int)),
            warnings@.map_values(|w: String| w@) == fetch_warnings(orig.take(k as int), p),
            failed == !all_fetched(orig.take(k as int)),
            failed <==> warnings@.len() > 0,
        decreases rest@.len(),
    {
        let ghost before = orig.take(k as int);
        let item = rest.remove(0);
        proof {
            assert(orig.take(k + 1).drop_last() =~= before);
            assert(orig.take(k + 1).last() == orig[k as int]);
            assert(orig[k as int] == item);
            assert(rest@ =~= orig.skip(k + 1));
        }
        match item {
            Ok(v) => {
                let mut v = v;
                let ghost got = v@;
                fetched.append(&mut v);
                proof {
                    assert(fetched@ =~= fetched_events(orig.take(k + 1)));
                    assert(warnings@.map_values(|w: String| w@) =~= fetch_warnings(orig.take(k + 1), p));
                    assert(all_fetched(orig.take(k + 1)) == all_fetched(before)) by {
                        if all_fetched(before) {
                            assert forall|i: int| 0 <= i < k + 1 implies #[trigger] orig.take(k + 1)[i] is Ok by {
                                if i < k {
                                    assert(orig.take(k + 1)[i] == before[i]);
                                }
                            }
                        } else {
                            let i = choose|i: int| 0 <= i < before.len() && !(#[trigger] before[i] is Ok);
                            assert(orig.take(k + 1)[i] == before[i]);
                        }
                    }
                }
            },
            Err(m) => {
                let w = fetch_warning(p, m.as_str());
                let ghost ws = warnings@;
                warnings.push(w);
                failed = true;
                proof {
                    assert(fetched@ =~= fetched_events(orig.take(k + 1)));
                    assert(warnings@.map_values(|w: String| w@) =~= ws.map_values(|w: String| w@).push(w@));
                    assert(warnings@.map_values(|w: String| w@) =~= fetch_warnings(orig.take(k + 1), p));
                    assert(!(orig.take(k + 1)[k as int] is Ok));
                }
            },
        }
        k = k + 1;
    }
    proof {
        assert(orig.take(k as int) =~= orig);
    }
    if failed {
        (cached, warnings)
    } else {
        (fetched, warnings)
    }
}

/// The warning shown while the GitHub rate budget is spent.
pub fn rate_limit_warning(secs_until_reset: u64) -> (r: String)
    ensures
        r@ == "GitHub rate limit exhausted. Showing cached data. Resets in "@ + decimal(secs_until_reset as nat) + "s."@,
{
    let mut out = owned("GitHub rate limit exhausted. Showing cached data. Resets in ");
    push_decimal(&mut out, secs_until_reset);
    push_str(&mut out, "s.");
    out
}


/// No two groups of a history share project and commit.
pub open spec fn keys_distinct(h: Seq<CorrelatedEvent>) -> bool {
    forall|i: int, j: int| 0 <= i < j < h.len() ==> !same_key(#[trigger] h[i], #[trigger] h[j])
}

proof fn lemma_added_distinct(h: Seq<CorrelatedEvent>, evs: Seq<CorrelatedEvent>)
    requires
        keys_distinct(h),
    ensures
        keys_distinct(history_added(h, evs)),
    decreases evs.len(),
{
    if evs.len() > 0 {
        lemma_added_distinct(h, evs.drop_last());
        let m = history_added(h, evs.drop_last());
        let e = evs.last();
        if !exists|k: int| 0 <= k < m.len() && same_key(#[trigger] m[k], e) {
            let n = m.push(e);
            assert forall|i: int, j: int| 0 <= i < j < n.len() implies !same_key(#[trigger] n[i], #[trigger] n[j]) by {
                if j == m.len() {
                    assert(n[i] == m[i]);
                    assert(!same_key(m[i], e));
                } else {
                    assert(n[i] == m[i] && n[j] == m[j]);
                }
            }
        }
    }
}

/// The delivery history never holds a project and commit twice: merging
/// new groups into a history without repeats, then keeping the newest,
/// leaves a history without repeats.
pub proof fn dora_history_keys_stay_distinct(h: Seq<CorrelatedEvent>, evs: Seq<CorrelatedEvent>)
    requires
        keys_distinct(h),
    ensures
        keys_distinct(history_capped(history_added(h, evs))),
{
    lemma_added_distinct(h, evs);
    let m = history_added(h, evs);
    if m.len() > DORA_HISTORY_CAP {
        let c = m.skip(m.len() - DORA_HISTORY_CAP);
        assert forall|i: int, j: int| 0 <= i < j < c.len() implies !same_key(#[trigger] c[i], #[trigger] c[j]) by {
            let d = m.len() - DORA_HISTORY_CAP;
            assert(c[i] == m[i + d] && c[j] == m[j + d]);
        }
    }
}

/// The delivery history after a run of polls that starts empty: each poll's
/// groups are merged in, and the oldest dropped beyond the cap.
pub open spec fn dora_run(polls: Seq<Seq<CorrelatedEvent>>) -> Seq<CorrelatedEvent>
    decreases polls.len(),
{
    if polls.len() == 0 {
        Seq::empty()
    } else {
        history_capped(history_added(dora_run(polls.drop_last()), polls.last()))
    }
}

/// Over any run of polls, the delivery history holds at most
/// `DORA_HISTORY_CAP` groups and never a project and commit twice.
pub proof fn dora_run_stays_bounded(polls: Seq<Seq<CorrelatedEvent>>)
    ensures
        keys_distinct(dora_run(polls)),
        dora_run(polls).len() <= DORA_HISTORY_CAP,
    decreases polls.len(),
{
    if polls.len() > 0 {
        dora_run_stays_bounded(polls.drop_last());
        dora_history_keys_stay_distinct(dora_run(polls.drop_last()), polls.last());
    }
}

} // verus!
