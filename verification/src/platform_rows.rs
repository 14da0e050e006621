//! Which events the Platform tab lists: those of the chosen provider that
//! match the search query, and for Railway and Vercel only the newest
//! event of each service or project, newest first.

use vstd::prelude::*;
use crate::domain::{DeploymentEvent, Platform};
use crate::tabs::PlatformSubtab;
use crate::text::{contains, contains_str, lower, to_lower};
use crate::widgets::or_empty;

verus! {

/// The provider a Platform subtab lists.
pub open spec fn subtab_platform(s: PlatformSubtab) -> Platform {
    match s {
        PlatformSubtab::GitHub => Platform::GitHub,
        PlatformSubtab::Railway => Platform::Railway,
        PlatformSubtab::Vercel => Platform::Vercel,
    }
}

/// A provider's name as the search matches it.
pub open spec fn platform_name(p: Platform) -> Seq<char> {
    match p {
        Platform::GitHub => "GitHub"@,
        Platform::Railway => "Railway"@,
        Platform::Vercel => "Vercel"@,
    }
}

fn platform_name_text(p: Platform) -> (r: &'static str)
    ensures
        r@ == platform_name(p),
{
    match p {
        Platform::GitHub => "GitHub",
        Platform::Railway => "Railway",
        Platform::Vercel => "Vercel",
    }
}

/// The lower-cased query `q` occurs in the event's title, provider name,
/// branch, actor or source (each lower-cased).
pub open spec fn event_matches_query(e: DeploymentEvent, q: Seq<char>) -> bool {
    ||| contains(lower(or_empty(e.title)), q)
    ||| contains(lower(platform_name(e.platform)), q)
    ||| contains(lower(or_empty(e.branch)), q)
    ||| contains(lower(or_empty(e.actor)), q)
    ||| contains(lower(or_empty(e.metadata.source_id)), q)
}

/// The event belongs to the subtab's provider and matches the query
/// (an empty query matches everything).
pub open spec fn event_shown(e: DeploymentEvent, sub: PlatformSubtab, q: Seq<char>) -> bool {
    e.platform == subtab_platform(sub) && (q.len() == 0 || event_matches_query(e, q))
}

/// Positions, among the first `n` events, of the events shown.
pub open spec fn shown_indices(events: Seq<DeploymentEvent>, sub: PlatformSubtab, q: Seq<char>, n: int) -> Seq<usize>
    decreases n,
{
    if n <= 0 {
        Seq::empty()
    } else {
        shown_indices(events, sub, q, n - 1) + (if event_shown(events[n - 1], sub, q) {
            seq![(n - 1) as usize]
        } else {
            Seq::empty()
        })
    }
}

/// Positions of all events shown for the subtab and raw query.
pub open spec fn filtered(events: Seq<DeploymentEvent>, sub: PlatformSubtab, query: Seq<char>) -> Seq<usize> {
    shown_indices(events, sub, lower(query), events.len() as int)
}

/// Shown positions are increasing and below `n`.
pub proof fn lemma_shown_bounds(events: Seq<DeploymentEvent>, sub: PlatformSubtab, q: Seq<char>, n: int)
    requires
        n <= events.len(),
        n <= usize::MAX + 1,
    ensures
        forall|j: int|
            0 <= j < shown_indices(events, sub, q, n).len() ==> (#[trigger] shown_indices(events, sub, q, n)[j]) < n,
        forall|a: int, b: int|
            0 <= a < b < shown_indices(events, sub, q, n).len() ==> shown_indices(events, sub, q, n)[a]
                < shown_indices(events, sub, q, n)[b],
        shown_indices(events, sub, q, n).len() <= if n < 0 { 0 } else { n },
    decreases n,
{
    if n > 0 {
        lemma_shown_bounds(events, sub, q, n - 1);
    }
}

/// Shown positions are exactly the positions of shown events.
pub proof fn lemma_shown_member(events: Seq<DeploymentEvent>, sub: PlatformSubtab, q: Seq<char>, n: int, i: int)
    requires
        0 <= i < n <= events.len(),
        n <= usize::MAX + 1,
    ensures
        shown_indices(events, sub, q, n).contains(i as usize) <==> event_shown(events[i], sub, q),
    decreases n,
{
    lemma_shown_bounds(events, sub, q, n - 1);
    if i < n - 1 {
        lemma_shown_member(events, sub, q, n - 1, i);
        let prev = shown_indices(events, sub, q, n - 1);
        let cur = shown_indices(events, sub, q, n);
        if cur.contains(i as usize) {
            let k = choose|k: int| 0 <= k < cur.len() && cur[k] == i as usize;
            if k < prev.len() {
                assert(prev[k] == i as usize);
            }
        }
        if prev.contains(i as usize) {
            let k = choose|k: int| 0 <= k < prev.len() && prev[k] == i as usize;
            assert(cur[k] == i as usize);
        }
    } else {
        let prev = shown_indices(events, sub, q, n - 1);
        let cur = shown_indices(events, sub, q, n);
        if event_shown(events[i], sub, q) {
            assert(cur[prev.len() as int] == i as usize);
        } else {
            if cur.contains(i as usize) {
                let k = choose|k: int| 0 <= k < cur.len() && cur[k] == i as usize;
                assert(prev[k] < n - 1);
            }
        }
    }
}

/// A search for someone who triggered a run finds it: an event of the
/// subtab's provider whose lower-cased actor contains the lower-cased query
/// is among the filtered positions.
pub proof fn actor_search_finds_event(events: Seq<DeploymentEvent>, sub: PlatformSubtab, query: Seq<char>, i: int)
    requires
        0 <= i < events.len(),
        events.len() <= usize::MAX,
        events[i].platform == subtab_platform(sub),
        events[i].actor matches Some(a) && contains(lower(a@), lower(query)),
    ensures
        filtered(events, sub, query).contains(i as usize),
{
    lemma_shown_member(events, sub, lower(query), events.len() as int, i);
}

fn event_matches(e: &DeploymentEvent, q: &str) -> (r: bool)
    ensures
        r == event_matches_query(*e, q@),
{
    let empty = String::new();
    let title = match &e.title {
        Some(s) => to_lower(s.as_str()),
        None => to_lower(empty.as_str()),
    };
    if contains_str(title.as_str(), q) {
        return true;
    }
    let name = to_lower(platform_name_text(e.platform));
    if contains_str(name.as_str(), q) {
        return true;
    }
    let branch = match &e.branch {
        Some(s) => to_lower(s.as_str()),
        None => to_lower(empty.as_str()),
    };
    if contains_str(branch.as_str(), q) {
        return true;
    }
    let actor = match &e.actor {
        Some(s) => to_lower(s.as_str()),
        None => to_lower(empty.as_str()),
    };
    if contains_str(actor.as_str(), q) {
        return true;
    }
    let source = match &e.metadata.source_id {
        Some(s) => to_lower(s.as_str()),
        None => to_lower(empty.as_str()),
    };
    contains_str(source.as_str(), q)
}

fn shown(e: &DeploymentEvent, sub: PlatformSubtab, q: &str) -> (r: bool)
    ensures
        r == event_shown(*e, sub, q@),
{
    let on_platform = match sub {
        PlatformSubtab::GitHub => e.platform == Platform::GitHub,
        PlatformSubtab::Railway => e.platform == Platform::Railway,
        PlatformSubtab::Vercel => e.platform == Platform::Vercel,
    };
    on_platform && (q.unicode_len() == 0 || event_matches(e, q))
}

/// Positions of the events of the subtab's provider that match `query`
/// (ASCII case ignored), in event order.
pub fn filtered_event_indices(events: &Vec<DeploymentEvent>, sub: PlatformSubtab, query: &str) -> (r: Vec<usize>)
    ensures
        r@ == filtered(events@, sub, query@),
{
    let q = to_lower(query);
    let mut out: Vec<usize> = Vec::new();
    let mut i: usize = 0;
    while i < events.len()
        invariant
            i <= events@.len(),
            q@ == lower(query@),
            out@ == shown_indices(events@, sub, q@, i as int),
        decreases events@.len() - i,
    {
        if shown(&events[i], sub, q.as_str()) {
            out.push(i);
        }
        i = i + 1;
    }
    out
}

/// The key grouping an event into one row: its source id, or its own id.
pub open spec fn event_key(e: DeploymentEvent) -> Seq<char> {
    match e.metadata.source_id {
        Some(s) => s@,
        None => e.id@,
    }
}

/// Some event at a position in `idx` has key `k`.
pub open spec fn key_among(events: Seq<DeploymentEvent>, idx: Seq<usize>, k: Seq<char>) -> bool {
    exists|t: int| 0 <= t < idx.len() && event_key(#[trigger] events[idx[t] as int]) == k
}

/// Number of distinct keys of the events at the positions in `idx`.
pub open spec fn distinct_keys(events: Seq<DeploymentEvent>, idx: Seq<usize>) -> nat
    decreases idx.len(),
{
    if idx.len() == 0 {
        0
    } else {
        distinct_keys(events, idx.drop_last()) + (if key_among(events, idx.drop_last(), event_key(events[idx.last() as int])) {
            0nat
        } else {
            1nat
        })
    }
}

/// Event `i` is a newest among the events at positions `idx` that share
/// its key; of equally new ones it comes first.
pub open spec fn newest_of_key(events: Seq<DeploymentEvent>, idx: Seq<usize>, i: usize) -> bool {
    forall|t: int|
        0 <= t < idx.len() && event_key(#[trigger] events[idx[t] as int]) == event_key(events[i as int]) ==> events[idx[t] as int].created_at
            < events[i as int].created_at || (events[idx[t] as int].created_at == events[i as int].created_at && i
            <= idx[t])
}

/// Every row is one of the positions in `idx`.
#[verifier::opaque]
pub open spec fn rows_from(idx: Seq<usize>, rows: Seq<usize>) -> bool {
    forall|p: int| 0 <= p < rows.len() ==> idx.contains(#[trigger] rows[p])
}

/// No two rows share a key.
#[verifier::opaque]
pub open spec fn rows_distinct(events: Seq<DeploymentEvent>, rows: Seq<usize>) -> bool {
    forall|p: int, r: int|
        0 <= p < rows.len() && 0 <= r < rows.len() && p != r ==> event_key(events[rows[p] as int]) != event_key(
            events[rows[r] as int],
        )
}

/// Every key among the positions in `idx` has a row.
#[verifier::opaque]
pub open spec fn rows_cover(events: Seq<DeploymentEvent>, idx: Seq<usize>, rows: Seq<usize>) -> bool {
    forall|t: int|
        0 <= t < idx.len() ==> exists|p: int|
            0 <= p < rows.len() && event_key(events[rows[p] as int]) == event_key(#[trigger] events[idx[t] as int])
}

/// Every row is a newest event of its key.
#[verifier::opaque]
pub open spec fn rows_newest(events: Seq<DeploymentEvent>, idx: Seq<usize>, rows: Seq<usize>) -> bool {
    forall|p: int| 0 <= p < rows.len() ==> newest_of_key(events, idx, #[trigger] rows[p])
}

/// `rows` holds, for each key among the events at positions `idx`, the
/// newest event of that key, and nothing else.
pub open spec fn latest_per_key(events: Seq<DeploymentEvent>, idx: Seq<usize>, rows: Seq<usize>) -> bool {
    &&& rows.len() == distinct_keys(events, idx)
    &&& rows_from(idx, rows)
    &&& rows_distinct(events, rows)
    &&& rows_cover(events, idx, rows)
    &&& rows_newest(events, idx, rows)
}

/// Rows newest first.
pub open spec fn rows_newest_first(events: Seq<DeploymentEvent>, rows: Seq<usize>) -> bool {
    forall|a: int, b: int| 0 <= a < b < rows.len() ==> events[rows[a] as int].created_at >= events[rows[b] as int].created_at
}

/// Positions in `idx` are increasing and name events.
pub open spec fn valid_positions(events: Seq<DeploymentEvent>, idx: Seq<usize>) -> bool {
    &&& forall|t: int| 0 <= t < idx.len() ==> (#[trigger] idx[t]) < events.len()
    &&& forall|a: int, b: int| 0 <= a < b < idx.len() ==> idx[a] < idx[b]
}

proof fn lemma_from_step(idx: Seq<usize>, j: int, rows: Seq<usize>, nrows: Seq<usize>)
    requires
        0 <= j < idx.len(),
        rows_from(idx.take(j), rows),
        nrows.len() >= rows.len(),
        forall|q: int| 0 <= q < rows.len() ==> nrows[q] == rows[q] || nrows[q] == idx[j],
        forall|q: int| rows.len() <= q < nrows.len() ==> nrows[q] == idx[j],
    ensures
        rows_from(idx.take(j + 1), nrows),
{
    reveal(rows_from);
    let pre = idx.take(j);
    let post = idx.take(j + 1);
    assert forall|q: int| 0 <= q < nrows.len() implies post.contains(#[trigger] nrows[q]) by {
        if nrows[q] == idx[j] {
            assert(post[j] == idx[j]);
        } else {
            assert(pre.contains(rows[q]));
            let t = choose|t: int| 0 <= t < pre.len() && pre[t] == rows[q];
            assert(post[t] == rows[q]);
        }
    }
}

proof fn lemma_key_in_pre(events: Seq<DeploymentEvent>, pre: Seq<usize>, rows: Seq<usize>, p: int)
    requires
        rows_from(pre, rows),
        0 <= p < rows.len(),
    ensures
        key_among(events, pre, event_key(events[rows[p] as int])),
        exists|t: int| 0 <= t < pre.len() && pre[t] == rows[p],
{
    reveal(rows_from);
    assert(pre.contains(rows[p]));
    let t = choose|t: int| 0 <= t < pre.len() && pre[t] == rows[p];
    assert(event_key(events[pre[t] as int]) == event_key(events[rows[p] as int]));
}

proof fn lemma_cover_step(events: Seq<DeploymentEvent>, idx: Seq<usize>, j: int, rows: Seq<usize>, nrows: Seq<usize>, p: int)
    requires
        0 <= j < idx.len(),
        rows_cover(events, idx.take(j), rows),
        nrows.len() >= rows.len(),
        forall|q: int| 0 <= q < rows.len() ==> event_key(events[nrows[q] as int]) == event_key(events[rows[q] as int]),
        0 <= p < nrows.len(),
        event_key(events[nrows[p] as int]) == event_key(events[idx[j] as int]),
    ensures
        rows_cover(events, idx.take(j + 1), nrows),
{
    reveal(rows_cover);
    let pre = idx.take(j);
    let post = idx.take(j + 1);
    assert forall|t: int| 0 <= t < post.len() implies exists|q: int|
        0 <= q < nrows.len() && event_key(events[nrows[q] as int]) == event_key(
            #[trigger] events[post[t] as int],
        ) by {
        if t < pre.len() {
            assert(post[t] == pre[t]);
            let q = choose|q: int|
                0 <= q < rows.len() && event_key(events[rows[q] as int]) == event_key(
                    #[trigger] events[pre[t] as int],
                );
            assert(event_key(events[nrows[q] as int]) == event_key(events[rows[q] as int]));
        } else {
            assert(post[t] == idx[j]);
        }
    }
}

/// Scanning one more position whose key is already in the rows, at row
/// `p`: the rows keep their keys, row `p` moving to the new event when it
/// is strictly newer.
proof fn lemma_step_known(events: Seq<DeploymentEvent>, idx: Seq<usize>, j: int, rows: Seq<usize>, p: int)
    requires
        valid_positions(events, idx),
        0 <= j < idx.len(),
        latest_per_key(events, idx.take(j), rows),
        0 <= p < rows.len(),
        event_key(events[rows[p] as int]) == event_key(events[idx[j] as int]),
    ensures
        latest_per_key(
            events,
            idx.take(j + 1),
            if events[idx[j] as int].created_at > events[rows[p] as int].created_at {
                rows.update(p, idx[j])
            } else {
                rows
            },
        ),
{
    let pre = idx.take(j);
    let post = idx.take(j + 1);
    let x = idx[j];
    let k = event_key(events[x as int]);
    let nrows = if events[x as int].created_at > events[rows[p] as int].created_at {
        rows.update(p, x)
    } else {
        rows
    };
    assert(post.drop_last() =~= pre);
    assert(post.last() == x);
    lemma_key_in_pre(events, pre, rows, p);
    let tp = choose|t: int| 0 <= t < pre.len() && pre[t] == rows[p];
    assert(distinct_keys(events, post) == distinct_keys(events, pre));
    lemma_from_step(idx, j, rows, nrows);
    assert(rows_distinct(events, nrows)) by {
        reveal(rows_distinct);
        assert forall|q: int| 0 <= q < nrows.len() implies event_key(events[nrows[q] as int]) == event_key(
            events[rows[q] as int],
        ) by {}
    }
    lemma_cover_step(events, idx, j, rows, nrows, p);
    assert(rows_newest(events, post, nrows)) by {
        reveal(rows_newest);
        reveal(rows_distinct);
        assert forall|q: int| 0 <= q < nrows.len() implies newest_of_key(events, post, #[trigger] nrows[q]) by {
            assert forall|t: int|
                0 <= t < post.len() && event_key(#[trigger] events[post[t] as int]) == event_key(
                    events[nrows[q] as int],
                ) implies events[post[t] as int].created_at < events[nrows[q] as int].created_at || (
            events[post[t] as int].created_at == events[nrows[q] as int].created_at && nrows[q] <= post[t]) by {
                if t < pre.len() {
                    assert(post[t] == pre[t]);
                    assert(newest_of_key(events, pre, rows[q]));
                } else {
                    assert(post[t] == x);
                    if q == p {
                        if nrows[p] != x {
                            assert(idx[tp] == rows[p]);
                            assert(idx[tp] < idx[j]);
                        }
                    } else {
                        assert(event_key(events[rows[q] as int]) != event_key(events[rows[p] as int]));
                    }
                }
            }
        }
    }
}

/// Scanning one more position whose key is not yet in the rows: it
/// becomes a new row.
proof fn lemma_step_new(events: Seq<DeploymentEvent>, idx: Seq<usize>, j: int, rows: Seq<usize>)
    requires
        valid_positions(events, idx),
        0 <= j < idx.len(),
        latest_per_key(events, idx.take(j), rows),
        forall|q: int| 0 <= q < rows.len() ==> event_key(events[(#[trigger] rows[q]) as int]) != event_key(events[idx[j] as int]),
    ensures
        latest_per_key(events, idx.take(j + 1), rows.push(idx[j])),
{
    let pre = idx.take(j);
    let post = idx.take(j + 1);
    let x = idx[j];
    let k = event_key(events[x as int]);
    let nrows = rows.push(x);
    assert(post.drop_last() =~= pre);
    assert(post.last() == x);
    assert(!key_among(events, pre, k)) by {
        reveal(rows_cover);
        if key_among(events, pre, k) {
            let t = choose|t: int| 0 <= t < pre.len() && event_key(#[trigger] events[pre[t] as int]) == k;
            let q = choose|q: int|
                0 <= q < rows.len() && event_key(events[rows[q] as int]) == event_key(
                    #[trigger] events[pre[t] as int],
                );
            assert(event_key(events[rows[q] as int]) != k);
        }
    }
    assert(distinct_keys(events, post) == distinct_keys(events, pre) + 1);
    lemma_from_step(idx, j, rows, nrows);
    assert(rows_distinct(events, nrows)) by {
        reveal(rows_distinct);
    }
    assert(nrows[rows.len() as int] == x);
    lemma_cover_step(events, idx, j, rows, nrows, rows.len() as int);
    assert(rows_newest(events, post, nrows)) by {
        reveal(rows_newest);
        assert forall|q: int| 0 <= q < nrows.len() implies newest_of_key(events, post, #[trigger] nrows[q]) by {
            assert forall|t: int|
                0 <= t < post.len() && event_key(#[trigger] events[post[t] as int]) == event_key(
                    events[nrows[q] as int],
                ) implies events[post[t] as int].created_at < events[nrows[q] as int].created_at || (
            events[post[t] as int].created_at == events[nrows[q] as int].created_at && nrows[q] <= post[t]) by {
                if q < rows.len() {
                    if t < pre.len() {
                        assert(post[t] == pre[t]);
                        assert(newest_of_key(events, pre, rows[q]));
                    }
                } else {
                    if t < pre.len() {
                        assert(post[t] == pre[t]);
                        assert(event_key(events[pre[t] as int]) == k);
                    }
                }
            }
        }
    }
}

/// The newest event per key among the events at positions `idx`, in the
/// order keys first appear.
fn newest_per_key(events: &Vec<DeploymentEvent>, idx: &Vec<usize>) -> (r: Vec<usize>)
    requires
        valid_positions(events@, idx@),
    ensures
        latest_per_key(events@, idx@, r@),
{
    let mut list: Vec<usize> = Vec::new();
    let mut j: usize = 0;
    assert(idx@.take(0) =~= Seq::<usize>::empty());
    proof {
        reveal(rows_from);
        reveal(rows_distinct);
        reveal(rows_cover);
        reveal(rows_newest);
    }
    while j < idx.len()
        invariant
            j <= idx@.len(),
            valid_positions(events@, idx@),
            latest_per_key(events@, idx@.take(j as int), list@),
        decreases idx@.len() - j,
    {
        let x = idx[j];
        let e = &events[x];
        let key = match &e.metadata.source_id {
            Some(s) => s.as_str(),
            None => e.id.as_str(),
        };
        assert(key@ == event_key(events@[x as int]));
        proof {
            reveal(rows_from);
            assert forall|q: int| 0 <= q < list@.len() implies (#[trigger] list@[q]) < events@.len() by {
                assert(idx@.take(j as int).contains(list@[q]));
            }
        }
        let mut p: usize = 0;
        let mut found = false;
        while p < list.len()
            invariant_except_break
                !found,
            invariant
                p <= list@.len(),
                forall|q: int| 0 <= q < list@.len() ==> (#[trigger] list@[q]) < events@.len(),
                forall|q: int| 0 <= q < p ==> event_key(events@[(#[trigger] list@[q]) as int]) != key@,
            ensures
                p <= list@.len(),
                found ==> p < list@.len() && event_key(events@[list@[p as int] as int]) == key@,
                !found ==> forall|q: int| 0 <= q < list@.len() ==> event_key(events@[(#[trigger] list@[q]) as int]) != key@,
            decreases list@.len() - p,
        {
            let y = list[p];
            let yk = match &events[y].metadata.source_id {
                Some(s) => s.as_str(),
                None => events[y].id.as_str(),
            };
            if crate::text::str_eq(yk, key) {
                found = true;
                break;
            }
            p = p + 1;
        }
        if found {
            proof {
                lemma_step_known(events@, idx@, j as int, list@, p as int);
            }
            let y = list[p];
            if e.created_at > events[y].created_at {
                list.set(p, x);
            }
        } else {
            proof {
                lemma_step_new(events@, idx@, j as int, list@);
            }
            list.push(x);
        }
        j = j + 1;
    }
    assert(idx@.take(j as int) =~= idx@);
    list
}

/// `out` holds exactly the first `i` rows of `list`, in some order.
#[verifier::opaque]
pub open spec fn same_rows(list: Seq<usize>, i: int, out: Seq<usize>) -> bool {
    &&& forall|p: int| 0 <= p < out.len() ==> exists|k: int| 0 <= k < i && list[k] == #[trigger] out[p]
    &&& forall|k: int| 0 <= k < i ==> exists|p: int| 0 <= p < out.len() && out[p] == #[trigger] list[k]
}

proof fn lemma_insert_same(list: Seq<usize>, i: int, before: Seq<usize>, pos: int)
    requires
        0 <= i < list.len(),
        0 <= pos <= before.len(),
        same_rows(list, i, before),
    ensures
        same_rows(list, i + 1, before.insert(pos, list[i])),
{
    let now = before.insert(pos, list[i]);
    reveal(same_rows);
    assert forall|p: int| 0 <= p < now.len() implies exists|k: int| 0 <= k < i + 1 && list[k] == #[trigger] now[p] by {
        if p < pos {
            assert(now[p] == before[p]);
            let k = choose|k: int| 0 <= k < i && list[k] == before[p];
        } else if p == pos {
            assert(list[i] == now[p]);
        } else {
            assert(now[p] == before[p - 1]);
            let k = choose|k: int| 0 <= k < i && list[k] == before[p - 1];
        }
    }
    assert forall|k: int| 0 <= k < i + 1 implies exists|p: int| 0 <= p < now.len() && now[p] == #[trigger] list[k] by {
        if k < i {
            let p = choose|p: int| 0 <= p < before.len() && before[p] == list[k];
            if p < pos {
                assert(now[p] == list[k]);
            } else {
                assert(now[p + 1] == list[k]);
            }
        } else {
            assert(now[pos] == list[k]);
        }
    }
}

proof fn lemma_insert_distinct(events: Seq<DeploymentEvent>, list: Seq<usize>, i: int, before: Seq<usize>, pos: int)
    requires
        0 <= i < list.len(),
        0 <= pos <= before.len(),
        rows_distinct(events, list),
        same_rows(list, i, before),
        rows_distinct(events, before),
    ensures
        rows_distinct(events, before.insert(pos, list[i])),
{
    let now = before.insert(pos, list[i]);
    reveal(rows_distinct);
    assert forall|a: int, b: int|
        0 <= a < now.len() && 0 <= b < now.len() && a != b implies event_key(events[now[a] as int])
            != event_key(events[now[b] as int]) by {
        if a != pos && b != pos {
            let a1 = if a < pos { a } else { a - 1 };
            let b1 = if b < pos { b } else { b - 1 };
            assert(now[a] == before[a1]);
            assert(now[b] == before[b1]);
        } else {
            let o = if a == pos { b } else { a };
            let o1 = if o < pos { o } else { o - 1 };
            assert(now[o] == before[o1]);
            reveal(same_rows);
            let k = choose|k: int| 0 <= k < i && list[k] == #[trigger] before[o1];
            assert(event_key(events[list[k] as int]) != event_key(events[list[i] as int]));
        }
    }
}

proof fn lemma_insert_sorted(events: Seq<DeploymentEvent>, before: Seq<usize>, pos: int, x: usize)
    requires
        0 <= pos <= before.len(),
        rows_newest_first(events, before),
        forall|p: int| 0 <= p < pos ==> events[before[p] as int].created_at >= events[x as int].created_at,
        forall|p: int| pos <= p < before.len() ==> events[before[p] as int].created_at < events[x as int].created_at,
    ensures
        rows_newest_first(events, before.insert(pos, x)),
{
    let now = before.insert(pos, x);
    assert forall|a: int, b: int| 0 <= a < b < now.len() implies events[now[a] as int].created_at
        >= events[now[b] as int].created_at by {
        if b < pos {
        } else if b == pos {
            assert(now[a] == before[a]);
        } else if a < pos {
            assert(now[b] == before[b - 1]);
        } else if a == pos {
            assert(now[b] == before[b - 1]);
        } else {
        }
    }
}

/// The rows of `list`, reordered newest first.
fn sort_rows_newest_first(events: &Vec<DeploymentEvent>, list: &Vec<usize>) -> (r: Vec<usize>)
    requires
        forall|q: int| 0 <= q < list@.len() ==> (#[trigger] list@[q]) < events@.len(),
        rows_distinct(events@, list@),
    ensures
        r@.len() == list@.len(),
        same_rows(list@, list@.len() as int, r@),
        rows_distinct(events@, r@),
        rows_newest_first(events@, r@),
{
    let mut out: Vec<usize> = Vec::new();
    let mut i: usize = 0;
    proof {
        reveal(same_rows);
        reveal(rows_distinct);
    }
    while i < list.len()
        invariant
            i <= list@.len(),
            forall|q: int| 0 <= q < list@.len() ==> (#[trigger] list@[q]) < events@.len(),
            forall|q: int| 0 <= q < out@.len() ==> (#[trigger] out@[q]) < events@.len(),
            rows_distinct(events@, list@),
            out@.len() == i,
            same_rows(list@, i as int, out@),
            rows_distinct(events@, out@),
            rows_newest_first(events@, out@),
        decreases list@.len() - i,
    {
        let x = list[i];
        let t = events[x].created_at;
        let mut pos: usize = 0;
        while pos < out.len() && events[out[pos]].created_at >= t
            invariant
                pos <= out@.len(),
                forall|q: int| 0 <= q < out@.len() ==> (#[trigger] out@[q]) < events@.len(),
                forall|p: int| 0 <= p < pos ==> events@[(#[trigger] out@[p]) as int].created_at >= t,
            decreases out@.len() - pos,
        {
            pos = pos + 1;
        }
        let ghost before = out@;
        proof {
            assert forall|p: int| pos <= p < before.len() implies events@[before[p] as int].created_at < t by {
                assert(events@[before[pos as int] as int].created_at < t);
                if p > pos {
                    assert(events@[before[pos as int] as int].created_at >= events@[before[p] as int].created_at);
                }
            }
            lemma_insert_same(list@, i as int, before, pos as int);
            lemma_insert_distinct(events@, list@, i as int, before, pos as int);
            lemma_insert_sorted(events@, before, pos as int, x);
        }
        out.insert(pos, x);
        assert(out@ =~= before.insert(pos as int, x));
        i = i + 1;
    }
    out
}

/// The newest event of each key among the positions `idx`, newest first.
pub fn latest_rows(events: &Vec<DeploymentEvent>, idx: &Vec<usize>) -> (r: Vec<usize>)
    requires
        valid_positions(events@, idx@),
    ensures
        latest_per_key(events@, idx@, r@),
        rows_newest_first(events@, r@),
{
    let list = newest_per_key(events, idx);
    proof {
        reveal(rows_from);
        assert forall|q: int| 0 <= q < list@.len() implies (#[trigger] list@[q]) < events@.len() by {
            assert(idx@.contains(list@[q]));
        }
    }
    let out = sort_rows_newest_first(events, &list);
    proof {
        assert(rows_from(idx@, out@)) by {
            reveal(rows_from);
            assert forall|p: int| 0 <= p < out@.len() implies idx@.contains(#[trigger] out@[p]) by {
                reveal(same_rows);
                let k = choose|k: int| 0 <= k < list@.len() && list@[k] == out@[p];
                assert(idx@.contains(list@[k]));
            }
        }
        assert(rows_cover(events@, idx@, out@)) by {
            reveal(rows_cover);
            assert forall|t: int| 0 <= t < idx@.len() implies exists|p: int|
                0 <= p < out@.len() && event_key(events@[out@[p] as int]) == event_key(
                    #[trigger] events@[idx@[t] as int],
                ) by {
                let q = choose|q: int|
                    0 <= q < list@.len() && event_key(events@[list@[q] as int]) == event_key(
                        #[trigger] events@[idx@[t] as int],
                    );
                reveal(same_rows);
                let p = choose|p: int| 0 <= p < out@.len() && out@[p] == list@[q];
                assert(event_key(events@[out@[p] as int]) == event_key(events@[idx@[t] as int]));
            }
        }
        assert(rows_newest(events@, idx@, out@)) by {
            reveal(rows_newest);
            assert forall|p: int| 0 <= p < out@.len() implies newest_of_key(events@, idx@, #[trigger] out@[p]) by {
                reveal(same_rows);
                let k = choose|k: int| 0 <= k < list@.len() && list@[k] == out@[p];
                assert(newest_of_key(events@, idx@, list@[k]));
            }
        }
    }
    out
}

} // verus!
