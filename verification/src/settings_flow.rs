//! The onboarding draft kept while the settings tab walks through choosing
//! providers, discovering their resources and picking which to track.

use vstd::prelude::*;
use crate::domain::{DiscoveredResource, PlatformKind};

verus! {

/// A discovered GitHub or Railway resource and whether it is picked.
#[derive(Debug)]
pub struct SelectableResource {
    pub resource: DiscoveredResource,
    pub selected: bool,
}

/// A discovered Vercel project, the repo it is linked to, and whether it
/// is picked.
#[derive(Debug)]
pub struct SelectableVercelResource {
    pub resource: DiscoveredResource,
    pub linked_repo: Option<String>,
    pub selected: bool,
}

/// What a discovery scan found, per provider.
#[derive(Debug)]
pub struct DiscoveryPayload {
    pub github: Vec<DiscoveredResource>,
    pub railway: Vec<DiscoveredResource>,
    pub vercel: Vec<(DiscoveredResource, Option<String>)>,
    pub warnings: Vec<String>,
}

impl DiscoveryPayload {
    /// A payload with nothing in it.
    pub fn empty() -> (r: Self)
        ensures
            r.github@.len() == 0,
            r.railway@.len() == 0,
            r.vercel@.len() == 0,
            r.warnings@.len() == 0,
    {
        DiscoveryPayload { github: Vec::new(), railway: Vec::new(), vercel: Vec::new(), warnings: Vec::new() }
    }
}

/// The onboarding draft.
#[derive(Debug)]
pub struct OnboardingState {
    pub platform_cursor: usize,
    /// One flag per provider, in `PlatformKind` order.
    pub platform_selected: Vec<bool>,
    pub resource_cursor: usize,
    pub github: Vec<SelectableResource>,
    pub railway: Vec<SelectableResource>,
    pub vercel: Vec<SelectableVercelResource>,
    pub correlation_preview: Vec<String>,
}

/// The provider at position `i` when its flag is set, as a one-element
/// sequence; empty otherwise.
pub open spec fn picked_at(sel: Seq<bool>, i: int) -> Seq<PlatformKind> {
    if i < sel.len() && sel[i] {
        seq![PlatformKind::spec_at(i)]
    } else {
        Seq::empty()
    }
}

/// The providers whose flags are set, in provider order.
pub open spec fn picked_platforms(sel: Seq<bool>) -> Seq<PlatformKind> {
    picked_at(sel, 0) + picked_at(sel, 1) + picked_at(sel, 2)
}

/// The picked resources of a list, in list order.
pub open spec fn picked_resources(s: Seq<SelectableResource>) -> Seq<DiscoveredResource>
    decreases s.len(),
{
    if s.len() == 0 {
        Seq::empty()
    } else {
        picked_resources(s.drop_last()) + (if s.last().selected {
            seq![s.last().resource]
        } else {
            Seq::empty()
        })
    }
}

/// The picked Vercel projects with their linked repos, in list order.
pub open spec fn picked_vercel(s: Seq<SelectableVercelResource>) -> Seq<(DiscoveredResource, Option<String>)>
    decreases s.len(),
{
    if s.len() == 0 {
        Seq::empty()
    } else {
        picked_vercel(s.drop_last()) + (if s.last().selected {
            seq![(s.last().resource, s.last().linked_repo)]
        } else {
            Seq::empty()
        })
    }
}

pub open spec fn count_picked(s: Seq<SelectableResource>) -> nat {
    picked_resources(s).len()
}

pub open spec fn count_picked_vercel(s: Seq<SelectableVercelResource>) -> nat {
    picked_vercel(s).len()
}

/// `n` capped at the largest `usize`.
pub open spec fn capped(n: int) -> int {
    if n > usize::MAX {
        usize::MAX as int
    } else {
        n
    }
}

/// Each resource of `src`, not picked.
pub open spec fn fresh_list(dst: Seq<SelectableResource>, src: Seq<DiscoveredResource>) -> bool {
    &&& dst.len() == src.len()
    &&& forall|i: int| 0 <= i < src.len() ==> (#[trigger] dst[i]).resource == src[i] && !dst[i].selected
}

/// Each Vercel project of `src` with its linked repo, not picked.
pub open spec fn fresh_vercel(dst: Seq<SelectableVercelResource>, src: Seq<(DiscoveredResource, Option<String>)>) -> bool {
    &&& dst.len() == src.len()
    &&& forall|i: int|
        0 <= i < src.len() ==> (#[trigger] dst[i]).resource == src[i].0 && dst[i].linked_repo == src[i].1
            && !dst[i].selected
}

/// `b` is `a` with the pick of entry `k` flipped.
pub open spec fn flipped(a: Seq<SelectableResource>, b: Seq<SelectableResource>, k: int) -> bool {
    &&& b.len() == a.len()
    &&& b[k].resource == a[k].resource
    &&& b[k].selected == !a[k].selected
    &&& forall|i: int| 0 <= i < a.len() && i != k ==> b[i] == a[i]
}

pub open spec fn flipped_vercel(a: Seq<SelectableVercelResource>, b: Seq<SelectableVercelResource>, k: int) -> bool {
    &&& b.len() == a.len()
    &&& b[k].resource == a[k].resource
    &&& b[k].linked_repo == a[k].linked_repo
    &&& b[k].selected == !a[k].selected
    &&& forall|i: int| 0 <= i < a.len() && i != k ==> b[i] == a[i]
}

/// `y`'s resource lists are `x`'s with the pick at flat position `i`
/// flipped (GitHub first, then Railway, then Vercel); past the end they
/// are unchanged.
pub open spec fn toggled_at(x: OnboardingState, y: OnboardingState, i: int) -> bool {
    let g = x.github@.len() as int;
    let w = x.railway@.len() as int;
    let v = x.vercel@.len() as int;
    if i < g {
        flipped(x.github@, y.github@, i) && y.railway == x.railway && y.vercel == x.vercel
    } else if i < g + w {
        flipped(x.railway@, y.railway@, i - g) && y.github == x.github && y.vercel == x.vercel
    } else if i < g + w + v {
        flipped_vercel(x.vercel@, y.vercel@, i - g - w) && y.github == x.github && y.railway == x.railway
    } else {
        y.github == x.github && y.railway == x.railway && y.vercel == x.vercel
    }
}

impl OnboardingState {
    /// The draft as it is before onboarding starts.
    pub open spec fn is_fresh(&self) -> bool {
        &&& self.platform_cursor == 0
        &&& self.platform_selected@ == seq![false, false, false]
        &&& self.resource_cursor == 0
        &&& self.github@.len() == 0
        &&& self.railway@.len() == 0
        &&& self.vercel@.len() == 0
        &&& self.correlation_preview@.len() == 0
    }

    /// Number of discovered resources, over all providers.
    pub open spec fn spec_selectable(&self) -> int {
        (self.github@.len() + self.railway@.len() + self.vercel@.len()) as int
    }

    /// Number of picked resources, over all providers.
    pub open spec fn spec_selected(&self) -> int {
        (count_picked(self.github@) + count_picked(self.railway@) + count_picked_vercel(self.vercel@)) as int
    }

    pub fn fresh() -> (r: Self)
        ensures
            r.is_fresh(),
    {
        OnboardingState {
            platform_cursor: 0,
            platform_selected: vec![false, false, false],
            resource_cursor: 0,
            github: Vec::new(),
            railway: Vec::new(),
            vercel: Vec::new(),
            correlation_preview: Vec::new(),
        }
    }

    /// Back to the draft before onboarding.
    pub fn reset(&mut self)
        ensures
            final(self).is_fresh(),
    {
        *self = Self::fresh();
    }

    /// The providers picked, in provider order.
    pub fn selected_platforms(&self) -> (r: Vec<PlatformKind>)
        ensures
            r@ == picked_platforms(self.platform_selected@),
    {
        let mut out: Vec<PlatformKind> = Vec::new();
        let n = self.platform_selected.len();
        let mut i: usize = 0;
        while i < 3
            invariant
                i <= 3,
                n == self.platform_selected@.len(),
                out@ == (if i == 0 {
                    Seq::empty()
                } else if i == 1 {
                    picked_at(self.platform_selected@, 0)
                } else if i == 2 {
                    picked_at(self.platform_selected@, 0) + picked_at(self.platform_selected@, 1)
                } else {
                    picked_platforms(self.platform_selected@)
                }),
            decreases 3 - i,
        {
            if i < n && self.platform_selected[i] {
                out.push(PlatformKind::at(i));
            }
            proof {
                if i == 0 {
                    assert(out@ =~= picked_at(self.platform_selected@, 0));
                } else if i == 1 {
                    assert(out@ =~= picked_at(self.platform_selected@, 0) + picked_at(self.platform_selected@, 1));
                } else {
                    assert(out@ =~= picked_platforms(self.platform_selected@));
                }
            }
            i = i + 1;
        }
        out
    }

    /// Replace the discovered resources with a scan's findings, none
    /// picked, and start again at the first.
    pub fn set_discovery(&mut self, payload: DiscoveryPayload)
        ensures
            fresh_list(final(self).github@, payload.github@),
            fresh_list(final(self).railway@, payload.railway@),
            fresh_vercel(final(self).vercel@, payload.vercel@),
            final(self).resource_cursor == 0,
            final(self).correlation_preview@.len() == 0,
            final(self).platform_cursor == old(self).platform_cursor,
            final(self).platform_selected == old(self).platform_selected,
    {
        let DiscoveryPayload { github, railway, vercel, warnings: _ } = payload;
        self.github = fresh_resources(github);
        self.railway = fresh_resources(railway);
        let mut vs: Vec<SelectableVercelResource> = Vec::new();
        let ghost src = vercel@;
        let mut rest = vercel;
        while rest.len() > 0
            invariant
                rest@.len() + vs@.len() == src.len(),
                rest@ == src.skip(vs@.len() as int),
                forall|i: int|
                    0 <= i < vs@.len() ==> (#[trigger] vs@[i]).resource == src[i].0 && vs@[i].linked_repo
                        == src[i].1 && !vs@[i].selected,
            decreases rest@.len(),
        {
            let (resource, linked_repo) = rest.remove(0);
            vs.push(SelectableVercelResource { resource, linked_repo, selected: false });
            assert(rest@ =~= src.skip(vs@.len() as int));
        }
        self.vercel = vs;
        self.resource_cursor = 0;
        self.correlation_preview = Vec::new();
    }

    /// Number of discovered resources, over all providers (capped at the
    /// largest `usize`).
    pub fn selectable_count(&self) -> (r: usize)
        ensures
            r == capped(self.spec_selectable()),
    {
        self.github.len().saturating_add(self.railway.len()).saturating_add(self.vercel.len())
    }

    /// Number of picked resources, over all providers (capped at the
    /// largest `usize`).
    pub fn selected_count(&self) -> (r: usize)
        ensures
            r == capped(self.spec_selected()),
    {
        let g = picked_count(&self.github);
        let w = picked_count(&self.railway);
        let v = picked_count_vercel(&self.vercel);
        g.saturating_add(w).saturating_add(v)
    }

    /// Keep the resource cursor on a discovered resource (or at 0 when
    /// there is none).
    pub fn clamp_resource_cursor(&mut self)
        ensures
            final(self).resource_cursor == (if capped(old(self).spec_selectable()) == 0 {
                0
            } else if old(self).resource_cursor >= capped(old(self).spec_selectable()) {
                (capped(old(self).spec_selectable()) - 1) as usize
            } else {
                old(self).resource_cursor
            }),
            final(self).platform_cursor == old(self).platform_cursor,
            final(self).platform_selected == old(self).platform_selected,
            final(self).github == old(self).github,
            final(self).railway == old(self).railway,
            final(self).vercel == old(self).vercel,
            final(self).correlation_preview == old(self).correlation_preview,
    {
        let max = self.selectable_count();
        if max == 0 {
            self.resource_cursor = 0;
        } else if self.resource_cursor >= max {
            self.resource_cursor = max - 1;
        }
    }

    /// Flip the pick of the resource at `flat_index`, counting GitHub
    /// resources first, then Railway, then Vercel; past the end nothing
    /// changes.
    pub fn toggle_resource(&mut self, flat_index: usize)
        ensures
            final(self).platform_cursor == old(self).platform_cursor,
            final(self).platform_selected == old(self).platform_selected,
            final(self).resource_cursor == old(self).resource_cursor,
            final(self).correlation_preview == old(self).correlation_preview,
            toggled_at(*old(self), *final(self), flat_index as int),
    {
        let mut idx = flat_index;
        if idx < self.github.len() {
            flip_at(&mut self.github, idx);
            return;
        }
        idx = idx - self.github.len();
        if idx < self.railway.len() {
            flip_at(&mut self.railway, idx);
            return;
        }
        idx = idx - self.railway.len();
        if idx < self.vercel.len() {
            let item = self.vercel.remove(idx);
            let SelectableVercelResource { resource, linked_repo, selected } = item;
            self.vercel.insert(idx, SelectableVercelResource { resource, linked_repo, selected: !selected });
        }
    }

    /// The picked resources, per provider, in list order; no warnings.
    pub fn selected_discovery(&self) -> (r: DiscoveryPayload)
        ensures
            r.github@ == picked_resources(self.github@),
            r.railway@ == picked_resources(self.railway@),
            r.vercel@ == picked_vercel(self.vercel@),
            r.warnings@.len() == 0,
    {
        DiscoveryPayload {
            github: picked_list(&self.github),
            railway: picked_list(&self.railway),
            vercel: picked_list_vercel(&self.vercel),
            warnings: Vec::new(),
        }
    }
}

impl Default for OnboardingState {
    fn default() -> (r: Self)
        ensures
            r.is_fresh(),
    {
        OnboardingState::fresh()
    }
}

fn fresh_resources(src: Vec<DiscoveredResource>) -> (r: Vec<SelectableResource>)
    ensures
        fresh_list(r@, src@),
{
    let ghost orig = src@;
    let mut rest = src;
    let mut out: Vec<SelectableResource> = Vec::new();
    while rest.len() > 0
        invariant
            rest@.len() + out@.len() == orig.len(),
            rest@ == orig.skip(out@.len() as int),
            forall|i: int| 0 <= i < out@.len() ==> (#[trigger] out@[i]).resource == orig[i] && !out@[i].selected,
        decreases rest@.len(),
    {
        let resource = rest.remove(0);
        out.push(SelectableResource { resource, selected: false });
        assert(rest@ =~= orig.skip(out@.len() as int));
    }
    out
}

fn flip_at(list: &mut Vec<SelectableResource>, k: usize)
    requires
        k < old(list)@.len(),
    ensures
        flipped(old(list)@, final(list)@, k as int),
{
    let item = list.remove(k);
    let SelectableResource { resource, selected } = item;
    list.insert(k, SelectableResource { resource, selected: !selected });
}

proof fn lemma_picked_step(s: Seq<SelectableResource>, i: int)
    requires
        0 <= i < s.len(),
    ensures
        picked_resources(s.take(i + 1)) == picked_resources(s.take(i)) + (if s[i].selected {
            seq![s[i].resource]
        } else {
            Seq::empty()
        }),
{
    assert(s.take(i + 1).drop_last() =~= s.take(i));
}

proof fn lemma_picked_vercel_step(s: Seq<SelectableVercelResource>, i: int)
    requires
        0 <= i < s.len(),
    ensures
        picked_vercel(s.take(i + 1)) == picked_vercel(s.take(i)) + (if s[i].selected {
            seq![(s[i].resource, s[i].linked_repo)]
        } else {
            Seq::empty()
        }),
{
    assert(s.take(i + 1).drop_last() =~= s.take(i));
}

fn picked_list(s: &Vec<SelectableResource>) -> (r: Vec<DiscoveredResource>)
    ensures
        r@ == picked_resources(s@),
{
    let mut out: Vec<DiscoveredResource> = Vec::new();
    let mut i: usize = 0;
    while i < s.len()
        invariant
            i <= s@.len(),
            out@ == picked_resources(s@.take(i as int)),
        decreases s@.len() - i,
    {
        proof {
            lemma_picked_step(s@, i as int);
        }
        if s[i].selected {
            out.push(s[i].resource.duplicate());
        }
        i = i + 1;
    }
    assert(s@.take(i as int) =~= s@);
    out
}

fn picked_list_vercel(s: &Vec<SelectableVercelResource>) -> (r: Vec<(DiscoveredResource, Option<String>)>)
    ensures
        r@ == picked_vercel(s@),
{
    let mut out: Vec<(DiscoveredResource, Option<String>)> = Vec::new();
    let mut i: usize = 0;
    while i < s.len()
        invariant
            i <= s@.len(),
            out@ == picked_vercel(s@.take(i as int)),
        decreases s@.len() - i,
    {
        proof {
            lemma_picked_vercel_step(s@, i as int);
        }
        if s[i].selected {
            let link: Option<String> = match &s[i].linked_repo {
                Some(l) => Some(l.clone()),
                None => None,
            };
            out.push((s[i].resource.duplicate(), link));
        }
        i = i + 1;
    }
    assert(s@.take(i as int) =~= s@);
    out
}

proof fn lemma_picked_len(s: Seq<SelectableResource>)
    ensures
        picked_resources(s).len() <= s.len(),
    decreases s.len(),
{
    if s.len() > 0 {
        lemma_picked_len(s.drop_last());
    }
}

proof fn lemma_picked_vercel_len(s: Seq<SelectableVercelResource>)
    ensures
        picked_vercel(s).len() <= s.len(),
    decreases s.len(),
{
    if s.len() > 0 {
        lemma_picked_vercel_len(s.drop_last());
    }
}

fn picked_count(s: &Vec<SelectableResource>) -> (r: usize)
    ensures
        r == count_picked(s@),
{
    let mut n: usize = 0;
    let mut i: usize = 0;
    while i < s.len()
        invariant
            i <= s@.len(),
            n == count_picked(s@.take(i as int)),
        decreases s@.len() - i,
    {
        proof {
            lemma_picked_step(s@, i as int);
            lemma_picked_len(s@.take(i as int));
        }
        if s[i].selected {
            n = n + 1;
        }
        i = i + 1;
    }
    assert(s@.take(i as int) =~= s@);
    n
}

fn picked_count_vercel(s: &Vec<SelectableVercelResource>) -> (r: usize)
    ensures
        r == count_picked_vercel(s@),
{
    let mut n: usize = 0;
    let mut i: usize = 0;
    while i < s.len()
        invariant
            i <= s@.len(),
            n == count_picked_vercel(s@.take(i as int)),
        decreases s@.len() - i,
    {
        proof {
            lemma_picked_vercel_step(s@, i as int);
            lemma_picked_vercel_len(s@.take(i as int));
        }
        if s[i].selected {
            n = n + 1;
        }
        i = i + 1;
    }
    assert(s@.take(i as int) =~= s@);
    n
}

/// Flipping the same resource twice gives back the picks as they were.
pub proof fn toggle_twice_restores(x: OnboardingState, y: OnboardingState, z: OnboardingState, i: int)
    requires
        toggled_at(x, y, i),
        toggled_at(y, z, i),
    ensures
        z.github@ == x.github@,
        z.railway@ == x.railway@,
        z.vercel@ == x.vercel@,
{
    let g = x.github@.len() as int;
    let w = x.railway@.len() as int;
    if i < g {
        assert(z.github@ =~= x.github@);
    } else if i < g + w {
        assert(z.railway@ =~= x.railway@);
    } else if i < g + w + x.vercel@.len() {
        assert(z.vercel@ =~= x.vercel@);
    }
}

} // verus!
