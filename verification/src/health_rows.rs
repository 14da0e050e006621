//! The Health tab's project list: each scored project placed in the group
//! of its deploy provider, Railway projects first, then Vercel, then
//! GitHub-only, each group in score-list order.

use vstd::prelude::*;
use crate::domain::HealthBreakdown;
use crate::tabs::HealthGroup;

verus! {

/// One project row of the Health tab.
#[derive(Debug)]
pub struct HealthProjectRow {
    pub group: HealthGroup,
    pub name: String,
    pub score: u8,
}

impl HealthProjectRow {
    /// A copy of the row.
    pub fn duplicate(&self) -> (r: HealthProjectRow)
        ensures
            r == *self,
    {
        HealthProjectRow { group: self.group, name: self.name.clone(), score: self.score }
    }
}

/// The group recorded for the first entry named `name`, if any.
pub open spec fn first_group(list: Seq<(String, HealthGroup)>, name: Seq<char>) -> Option<HealthGroup>
    decreases list.len(),
{
    if list.len() == 0 {
        None
    } else if list[0].0@ == name {
        Some(list[0].1)
    } else {
        first_group(list.skip(1), name)
    }
}

/// The breakdown recorded for the first entry named `name`, if any.
pub open spec fn first_breakdown(list: Seq<(String, HealthBreakdown)>, name: Seq<char>) -> Option<HealthBreakdown>
    decreases list.len(),
{
    if list.len() == 0 {
        None
    } else if list[0].0@ == name {
        Some(list[0].1)
    } else {
        first_breakdown(list.skip(1), name)
    }
}

/// The group a project belongs to: the one recorded for it; else Railway
/// when its breakdown has a Railway score or weight, Vercel likewise;
/// else GitHub-only.
pub open spec fn group_of(
    groups: Seq<(String, HealthGroup)>,
    breakdowns: Seq<(String, HealthBreakdown)>,
    name: Seq<char>,
) -> HealthGroup {
    match first_group(groups, name) {
        Some(g) => g,
        None => match first_breakdown(breakdowns, name) {
            None => HealthGroup::GitHubOnly,
            Some(b) => if b.railway_score is Some || b.railway_weight > 0 {
                HealthGroup::Railway
            } else if b.vercel_score is Some || b.vercel_weight > 0 {
                HealthGroup::Vercel
            } else {
                HealthGroup::GitHubOnly
            },
        },
    }
}

/// The rows of group `g` among the first `n` scored projects, as
/// (group, name, score).
pub open spec fn rows_in(
    scores: Seq<(String, u8)>,
    groups: Seq<(String, HealthGroup)>,
    breakdowns: Seq<(String, HealthBreakdown)>,
    g: HealthGroup,
    n: int,
) -> Seq<(HealthGroup, Seq<char>, u8)>
    decreases n,
{
    if n <= 0 {
        Seq::empty()
    } else {
        rows_in(scores, groups, breakdowns, g, n - 1) + (if group_of(groups, breakdowns, scores[n - 1].0@) == g {
            seq![(g, scores[n - 1].0@, scores[n - 1].1)]
        } else {
            Seq::empty()
        })
    }
}

/// All rows: Railway, then Vercel, then GitHub-only.
pub open spec fn grouped_rows(
    scores: Seq<(String, u8)>,
    groups: Seq<(String, HealthGroup)>,
    breakdowns: Seq<(String, HealthBreakdown)>,
) -> Seq<(HealthGroup, Seq<char>, u8)> {
    let n = scores.len() as int;
    rows_in(scores, groups, breakdowns, HealthGroup::Railway, n) + rows_in(
        scores,
        groups,
        breakdowns,
        HealthGroup::Vercel,
        n,
    ) + rows_in(scores, groups, breakdowns, HealthGroup::GitHubOnly, n)
}

pub open spec fn row_view(r: HealthProjectRow) -> (HealthGroup, Seq<char>, u8) {
    (r.group, r.name@, r.score)
}

proof fn lemma_first_group_none(list: Seq<(String, HealthGroup)>, name: Seq<char>)
    requires
        forall|j: int| 0 <= j < list.len() ==> (#[trigger] list[j]).0@ != name,
    ensures
        first_group(list, name) is None,
    decreases list.len(),
{
    if list.len() > 0 {
        assert(list[0].0@ != name);
        assert forall|j: int| 0 <= j < list.skip(1).len() implies (#[trigger] list.skip(1)[j]).0@ != name by {
            assert(list.skip(1)[j] == list[j + 1]);
        }
        lemma_first_group_none(list.skip(1), name);
    }
}

proof fn lemma_first_breakdown_at(list: Seq<(String, HealthBreakdown)>, name: Seq<char>, b: int)
    requires
        0 <= b < list.len(),
        list[b].0@ == name,
        forall|j: int| 0 <= j < b ==> (#[trigger] list[j]).0@ != name,
    ensures
        first_breakdown(list, name) == Some(list[b].1),
    decreases b,
{
    if b > 0 {
        assert(list[0].0@ != name);
        assert forall|j: int| 0 <= j < b - 1 implies (#[trigger] list.skip(1)[j]).0@ != name by {
            assert(list.skip(1)[j] == list[j + 1]);
        }
        assert(list.skip(1)[b - 1] == list[b]);
        lemma_first_breakdown_at(list.skip(1), name, b - 1);
    }
}

proof fn lemma_rows_in_member(
    scores: Seq<(String, u8)>,
    groups: Seq<(String, HealthGroup)>,
    breakdowns: Seq<(String, HealthBreakdown)>,
    g: HealthGroup,
    n: int,
    k: int,
)
    requires
        0 <= k < n <= scores.len(),
        group_of(groups, breakdowns, scores[k].0@) == g,
    ensures
        rows_in(scores, groups, breakdowns, g, n).contains((g, scores[k].0@, scores[k].1)),
    decreases n,
{
    let prev = rows_in(scores, groups, breakdowns, g, n - 1);
    let cur = rows_in(scores, groups, breakdowns, g, n);
    if k < n - 1 {
        lemma_rows_in_member(scores, groups, breakdowns, g, n - 1, k);
        let i = choose|i: int| 0 <= i < prev.len() && prev[i] == (g, scores[k].0@, scores[k].1);
        assert(cur[i] == prev[i]);
    } else {
        assert(cur[prev.len() as int] == (g, scores[k].0@, scores[k].1));
    }
}

/// A project with no recorded group whose breakdown (the first one under
/// its name) has a Railway score or a positive Railway weight is listed in
/// the Railway group, whatever its Vercel score or weight.
pub proof fn railway_breakdown_groups_as_railway(
    scores: Seq<(String, u8)>,
    groups: Seq<(String, HealthGroup)>,
    breakdowns: Seq<(String, HealthBreakdown)>,
    k: int,
    b: int,
)
    requires
        0 <= k < scores.len(),
        forall|j: int| 0 <= j < groups.len() ==> (#[trigger] groups[j]).0@ != scores[k].0@,
        0 <= b < breakdowns.len(),
        breakdowns[b].0@ == scores[k].0@,
        forall|j: int| 0 <= j < b ==> (#[trigger] breakdowns[j]).0@ != scores[k].0@,
        breakdowns[b].1.railway_score is Some || breakdowns[b].1.railway_weight > 0,
    ensures
        grouped_rows(scores, groups, breakdowns).contains((HealthGroup::Railway, scores[k].0@, scores[k].1)),
        !grouped_rows(scores, groups, breakdowns).contains((HealthGroup::Vercel, scores[k].0@, scores[k].1)),
{
    let name = scores[k].0@;
    lemma_first_group_none(groups, name);
    lemma_first_breakdown_at(breakdowns, name, b);
    let n = scores.len() as int;
    lemma_rows_in_member(scores, groups, breakdowns, HealthGroup::Railway, n, k);
    let r = rows_in(scores, groups, breakdowns, HealthGroup::Railway, n);
    let v = rows_in(scores, groups, breakdowns, HealthGroup::Vercel, n);
    let o = rows_in(scores, groups, breakdowns, HealthGroup::GitHubOnly, n);
    let all = grouped_rows(scores, groups, breakdowns);
    let i = choose|i: int| 0 <= i < r.len() && r[i] == (HealthGroup::Railway, name, scores[k].1);
    assert(all[i] == r[i]);
    lemma_rows_in_group(scores, groups, breakdowns, HealthGroup::Vercel, n);
    lemma_rows_in_group(scores, groups, breakdowns, HealthGroup::Railway, n);
    lemma_rows_in_group(scores, groups, breakdowns, HealthGroup::GitHubOnly, n);
    if all.contains((HealthGroup::Vercel, name, scores[k].1)) {
        let j = choose|j: int| 0 <= j < all.len() && all[j] == (HealthGroup::Vercel, name, scores[k].1);
        if j < r.len() {
            assert(all[j] == r[j]);
        } else if j < r.len() + v.len() {
            assert(all[j] == v[j - r.len()]);
        } else {
            assert(all[j] == o[j - r.len() - v.len()]);
        }
    }
}

/// Every row of group `g` carries `g` and the group of its own project.
proof fn lemma_rows_in_group(
    scores: Seq<(String, u8)>,
    groups: Seq<(String, HealthGroup)>,
    breakdowns: Seq<(String, HealthBreakdown)>,
    g: HealthGroup,
    n: int,
)
    ensures
        forall|i: int| 0 <= i < rows_in(scores, groups, breakdowns, g, n).len() ==> {
            let row = #[trigger] rows_in(scores, groups, breakdowns, g, n)[i];
            row.0 == g && group_of(groups, breakdowns, row.1) == g
        },
    decreases n,
{
    if n > 0 {
        lemma_rows_in_group(scores, groups, breakdowns, g, n - 1);
        let prev = rows_in(scores, groups, breakdowns, g, n - 1);
        let cur = rows_in(scores, groups, breakdowns, g, n);
        assert forall|i: int| 0 <= i < cur.len() implies {
            let row = #[trigger] cur[i];
            row.0 == g && group_of(groups, breakdowns, row.1) == g
        } by {
            if i < prev.len() {
                assert(cur[i] == prev[i]);
            }
        }
    }
}

/// Every scored project lands in exactly one group.
pub proof fn lemma_rows_partition(
    scores: Seq<(String, u8)>,
    groups: Seq<(String, HealthGroup)>,
    breakdowns: Seq<(String, HealthBreakdown)>,
    n: int,
)
    requires
        0 <= n,
    ensures
        rows_in(scores, groups, breakdowns, HealthGroup::Railway, n).len() + rows_in(
            scores,
            groups,
            breakdowns,
            HealthGroup::Vercel,
            n,
        ).len() + rows_in(scores, groups, breakdowns, HealthGroup::GitHubOnly, n).len() == n,
    decreases n,
{
    if n > 0 {
        lemma_rows_partition(scores, groups, breakdowns, n - 1);
    }
}

fn find_group(list: &Vec<(String, HealthGroup)>, name: &str) -> (r: Option<HealthGroup>)
    ensures
        r == first_group(list@, name@),
{
    let mut i: usize = 0;
    assert(list@.skip(0) =~= list@);
    while i < list.len()
        invariant
            i <= list@.len(),
            first_group(list@, name@) == first_group(list@.skip(i as int), name@),
        decreases list@.len() - i,
    {
        assert(list@.skip(i as int)[0] == list@[i as int]);
        assert(list@.skip(i as int).skip(1) =~= list@.skip(i + 1));
        if crate::text::str_eq(list[i].0.as_str(), name) {
            return Some(list[i].1);
        }
        i = i + 1;
    }
    None
}

fn find_breakdown(list: &Vec<(String, HealthBreakdown)>, name: &str) -> (r: Option<HealthBreakdown>)
    ensures
        r == first_breakdown(list@, name@),
{
    let mut i: usize = 0;
    assert(list@.skip(0) =~= list@);
    while i < list.len()
        invariant
            i <= list@.len(),
            first_breakdown(list@, name@) == first_breakdown(list@.skip(i as int), name@),
        decreases list@.len() - i,
    {
        assert(list@.skip(i as int)[0] == list@[i as int]);
        assert(list@.skip(i as int).skip(1) =~= list@.skip(i + 1));
        if crate::text::str_eq(list[i].0.as_str(), name) {
            return Some(list[i].1);
        }
        i = i + 1;
    }
    None
}

/// The Health group of `project`.
pub fn infer_health_group(
    groups: &Vec<(String, HealthGroup)>,
    breakdowns: &Vec<(String, HealthBreakdown)>,
    project: &str,
) -> (r: HealthGroup)
    ensures
        r == group_of(groups@, breakdowns@, project@),
{
    if let Some(g) = find_group(groups, project) {
        return g;
    }
    match find_breakdown(breakdowns, project) {
        None => HealthGroup::GitHubOnly,
        Some(b) => {
            if b.railway_score.is_some() || b.railway_weight > 0 {
                HealthGroup::Railway
            } else if b.vercel_score.is_some() || b.vercel_weight > 0 {
                HealthGroup::Vercel
            } else {
                HealthGroup::GitHubOnly
            }
        },
    }
}

/// The Health tab's rows: every scored project once, grouped by provider
/// (Railway, Vercel, GitHub-only), keeping score-list order inside each
/// group.
pub fn health_grouped_rows(
    scores: &Vec<(String, u8)>,
    groups: &Vec<(String, HealthGroup)>,
    breakdowns: &Vec<(String, HealthBreakdown)>,
) -> (r: Vec<HealthProjectRow>)
    ensures
        r@.map_values(|x: HealthProjectRow| row_view(x)) == grouped_rows(scores@, groups@, breakdowns@),
        r@.len() == scores@.len(),
{
    let mut railway: Vec<HealthProjectRow> = Vec::new();
    let mut vercel: Vec<HealthProjectRow> = Vec::new();
    let mut github_only: Vec<HealthProjectRow> = Vec::new();
    let mut i: usize = 0;
    while i < scores.len()
        invariant
            i <= scores@.len(),
            railway@.map_values(|x: HealthProjectRow| row_view(x)) == rows_in(
                scores@,
                groups@,
                breakdowns@,
                HealthGroup::Railway,
                i as int,
            ),
            vercel@.map_values(|x: HealthProjectRow| row_view(x)) == rows_in(
                scores@,
                groups@,
                breakdowns@,
                HealthGroup::Vercel,
                i as int,
            ),
            github_only@.map_values(|x: HealthProjectRow| row_view(x)) == rows_in(
                scores@,
                groups@,
                breakdowns@,
                HealthGroup::GitHubOnly,
                i as int,
            ),
        decreases scores@.len() - i,
    {
        let name = &scores[i].0;
        let group = infer_health_group(groups, breakdowns, name.as_str());
        let row = HealthProjectRow { group, name: name.clone(), score: scores[i].1 };
        let ghost rv = row_view(row);
        let ghost r0 = railway@;
        let ghost v0 = vercel@;
        let ghost g0 = github_only@;
        match group {
            HealthGroup::Railway => railway.push(row),
            HealthGroup::Vercel => vercel.push(row),
            HealthGroup::GitHubOnly => github_only.push(row),
        }
        proof {
            if group == HealthGroup::Railway {
                assert(railway@ =~= r0.push(row));
                assert(railway@.map_values(|x: HealthProjectRow| row_view(x)) =~= r0.map_values(
                    |x: HealthProjectRow| row_view(x),
                ).push(rv));
            } else if group == HealthGroup::Vercel {
                assert(vercel@.map_values(|x: HealthProjectRow| row_view(x)) =~= v0.map_values(
                    |x: HealthProjectRow| row_view(x),
                ).push(rv));
            } else {
                assert(github_only@.map_values(|x: HealthProjectRow| row_view(x)) =~= g0.map_values(
                    |x: HealthProjectRow| row_view(x),
                ).push(rv));
            }
        }
        i = i + 1;
    }
    let ghost a = railway@;
    let ghost b = vercel@;
    let ghost c = github_only@;
    railway.append(&mut vercel);
    railway.append(&mut github_only);
    proof {
        assert(railway@ =~= a + b + c);
        assert(railway@.map_values(|x: HealthProjectRow| row_view(x)) =~= a.map_values(
            |x: HealthProjectRow| row_view(x),
        ) + b.map_values(|x: HealthProjectRow| row_view(x)) + c.map_values(|x: HealthProjectRow| row_view(x)));
        lemma_rows_partition(scores@, groups@, breakdowns@, scores@.len() as int);
    }
    railway
}

} // verus!
