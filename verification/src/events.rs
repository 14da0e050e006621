//! Ordering and filtering of deployment events: newest first (a stable
//! sort) and the branch filter.

use vstd::prelude::*;
use crate::domain::DeploymentEvent;
use crate::text::contains;

verus! {

broadcast use vstd::seq_lib::group_seq_properties;

/// Every event is at least as new as the ones after it.
pub open spec fn newest_first(s: Seq<DeploymentEvent>) -> bool {
    forall|i: int, j: int| 0 <= i < j < s.len() ==> s[i].created_at >= s[j].created_at
}

/// The events created at time `t`, in order.
pub open spec fn at_time(s: Seq<DeploymentEvent>, t: i64) -> Seq<DeploymentEvent> {
    s.filter(|e: DeploymentEvent| e.created_at == t)
}

/// `out` is `input` sorted newest first, keeping the input order of
/// events with equal times (a stable sort). These two facts fix `out`.
pub open spec fn stable_newest_first(input: Seq<DeploymentEvent>, out: Seq<DeploymentEvent>) -> bool {
    newest_first(out) && forall|t: i64| #[trigger] at_time(out, t) == at_time(input, t)
}

proof fn lemma_insert_keeps_times(out: Seq<DeploymentEvent>, p: int, x: DeploymentEvent, t: i64)
    requires
        0 <= p <= out.len(),
        forall|k: int| p <= k < out.len() ==> out[k].created_at < x.created_at,
    ensures
        at_time(out.take(p) + seq![x] + out.skip(p), t) == at_time(out, t) + (if x.created_at == t {
            seq![x]
        } else {
            Seq::empty()
        }),
{
    let pred = |e: DeploymentEvent| e.created_at == t;
    Seq::filter_distributes_over_add(out.take(p) + seq![x], out.skip(p), pred);
    Seq::filter_distributes_over_add(out.take(p), seq![x], pred);
    Seq::filter_distributes_over_add(out.take(p), out.skip(p), pred);
    assert(out.take(p) + out.skip(p) =~= out);
    reveal(Seq::filter);
    assert(seq![x].filter(pred) =~= (if x.created_at == t { seq![x] } else { Seq::empty() })) by {
        assert(seq![x].drop_last() =~= Seq::<DeploymentEvent>::empty());
    }
    if x.created_at == t {
        assert forall|k: int| 0 <= k < out.skip(p).len() implies !pred(out.skip(p)[k]) by {}
        out.skip(p).lemma_all_neg_filter_empty(pred);
    }
}

/// Inserts `x` into `out` (newest first) after every event at least as new.
fn insert_newest_first(out: &mut Vec<DeploymentEvent>, x: DeploymentEvent)
    requires
        newest_first(old(out)@),
    ensures
        newest_first(final(out)@),
        forall|t: i64| #[trigger] at_time(final(out)@, t) == at_time(old(out)@, t) + (if x.created_at == t {
            seq![x]
        } else {
            Seq::empty()
        }),
{
    let mut p: usize = 0;
    while p < out.len() && out[p].created_at >= x.created_at
        invariant
            p <= out@.len(),
            forall|k: int| 0 <= k < p ==> out@[k].created_at >= x.created_at,
        decreases out@.len() - p,
    {
        p = p + 1;
    }
    let ghost before = out@;
    assert forall|k: int| p <= k < before.len() implies before[k].created_at < x.created_at by {
        if p < before.len() {
            assert(before[p as int].created_at < x.created_at);
        }
    }
    out.insert(p, x);
    assert(out@ =~= before.take(p as int) + seq![x] + before.skip(p as int));
    assert forall|t: i64| #[trigger] at_time(out@, t) == at_time(before, t) + (if x.created_at == t {
        seq![x]
    } else {
        Seq::empty()
    }) by {
        lemma_insert_keeps_times(before, p as int, x, t);
    }
}

/// Sorts events newest first, keeping the input order among equal times.
pub fn sort_newest_first(events: Vec<DeploymentEvent>) -> (r: Vec<DeploymentEvent>)
    ensures
        stable_newest_first(events@, r@),
{
    let ghost input = events@;
    let mut rest = events;
    let mut out: Vec<DeploymentEvent> = Vec::new();
    let ghost mut consumed: Seq<DeploymentEvent> = Seq::empty();
    while rest.len() > 0
        invariant
            newest_first(out@),
            consumed + rest@ == input,
            forall|t: i64| #[trigger] at_time(out@, t) == at_time(consumed, t),
        decreases rest@.len(),
    {
        let ghost before_rest = rest@;
        let x = rest.remove(0);
        let ghost prev = consumed;
        insert_newest_first(&mut out, x);
        proof {
            consumed = consumed.push(x);
            assert(consumed + rest@ =~= input) by {
                assert(before_rest =~= seq![x] + rest@);
            }
            assert forall|t: i64| #[trigger] at_time(out@, t) == at_time(consumed, t) by {
                let pred = |e: DeploymentEvent| e.created_at == t;
                Seq::filter_distributes_over_add(prev, seq![x], pred);
                reveal(Seq::filter);
                assert(seq![x].drop_last() =~= Seq::<DeploymentEvent>::empty());
                assert(prev + seq![x] =~= consumed);
            }
        }
    }
    assert(consumed =~= input);
    out
}

/// An event passes the branch filter when it has no branch or its branch
/// contains the pattern.
pub open spec fn on_branch(e: DeploymentEvent, pattern: Seq<char>) -> bool {
    match e.branch {
        Some(b) => contains(b@, pattern),
        None => true,
    }
}

/// Keeps the events that pass the branch filter, in order.
pub fn retain_branch(events: Vec<DeploymentEvent>, pattern: &str) -> (r: Vec<DeploymentEvent>)
    ensures
        r@ == events@.filter(|e: DeploymentEvent| on_branch(e, pattern@)),
{
    let ghost input = events@;
    let ghost pred = |e: DeploymentEvent| on_branch(e, pattern@);
    let mut rest = events;
    let mut out: Vec<DeploymentEvent> = Vec::new();
    let ghost mut consumed: Seq<DeploymentEvent> = Seq::empty();
    while rest.len() > 0
        invariant
            consumed + rest@ == input,
            out@ == consumed.filter(pred),
            pred == (|e: DeploymentEvent| on_branch(e, pattern@)),
        decreases rest@.len(),
    {
        let ghost before_rest = rest@;
        let x = rest.remove(0);
        let keep = match &x.branch {
            Some(b) => crate::text::contains_str(b.as_str(), pattern),
            None => true,
        };
        let ghost prev = consumed;
        proof {
            assert(pred(x) == keep);
        }
        if keep {
            out.push(x);
        }
        proof {
            consumed = consumed.push(x);
            assert(consumed + rest@ =~= input) by {
                assert(before_rest =~= seq![x] + rest@);
            }
            reveal(Seq::filter);
            assert(consumed.drop_last() =~= prev);
        }
    }
    assert(consumed =~= input);
    out
}

} // verus!
