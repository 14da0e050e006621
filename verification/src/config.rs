//! The configuration values the dashboard reads: project correlations,
//! saved views, resource groups, and the tracked resources derived from them.

use vstd::prelude::*;
use crate::text::{char_at, char_count, lower, lower_char, owned};

verus! {

/// One project linked across providers.
#[derive(Debug, Clone)]
pub struct CorrelationConfig {
    pub name: String,
    pub github_repo: Option<String>,
    pub railway_project: Option<String>,
    pub railway_workspace: Option<String>,
    pub railway_environment: Option<String>,
    pub vercel_project: Option<String>,
    pub vercel_team: Option<String>,
}

/// A saved filter preset.
#[derive(Debug, Clone)]
pub struct ViewConfig {
    pub name: String,
    pub description: Option<String>,
    pub projects: Vec<String>,
    pub platforms: Vec<String>,
    pub branch_filter: Option<String>,
    pub status_filter: Vec<String>,
    /// Seconds between refreshes while the view is shown.
    pub refresh_interval: u64,
    pub vercel_include_previews: bool,
}

/// A named set of resources written as `platform:id`.
#[derive(Debug, Clone)]
pub struct GroupConfig {
    pub name: String,
    pub resources: Vec<String>,
}

/// Dashboard settings.
#[derive(Debug, Clone)]
pub struct TuiConfig {
    /// "dark", "light" or "ansi16".
    pub theme: String,
    /// Frames drawn per second.
    pub fps: u32,
    /// Seconds between polls of the providers.
    pub refresh_interval: u64,
    /// Tab shown at start: "unified", "platform", "health", "settings" or "logs".
    pub default_tab: String,
    pub show_sparklines: bool,
}

impl Default for TuiConfig {
    fn default() -> (r: Self)
        ensures
            r.theme@ == "dark"@,
            r.fps == 10,
            r.refresh_interval == 5,
            r.default_tab@ == "unified"@,
            r.show_sparklines,
    {
        TuiConfig {
            theme: owned("dark"),
            fps: 10,
            refresh_interval: 5,
            default_tab: owned("unified"),
            show_sparklines: true,
        }
    }
}

/// A GitHub organization to discover repositories in.
#[derive(Debug, Clone)]
pub struct OrgConfig {
    pub name: String,
    pub include_patterns: Vec<String>,
    pub exclude_patterns: Vec<String>,
    pub auto_discover: bool,
}

/// The GitHub section: organizations to discover.
#[derive(Debug, Clone)]
pub struct GitHubConfig {
    pub organizations: Vec<OrgConfig>,
}

/// A Railway workspace, by name.
#[derive(Debug, Clone)]
pub struct WorkspaceConfig {
    pub name: String,
}

/// The Railway section: workspaces to discover.
#[derive(Debug, Clone)]
pub struct RailwayConfig {
    pub workspaces: Vec<WorkspaceConfig>,
}

/// A Vercel team, by name.
#[derive(Debug, Clone)]
pub struct TeamConfig {
    pub name: String,
}

/// The Vercel section: teams to discover.
#[derive(Debug, Clone)]
pub struct VercelConfig {
    pub teams: Vec<TeamConfig>,
}

/// The whole configuration file, as far as the dashboard reads it.
#[derive(Debug, Clone)]
pub struct PulsosConfig {
    pub github: GitHubConfig,
    pub railway: RailwayConfig,
    pub vercel: VercelConfig,
    pub correlations: Vec<CorrelationConfig>,
    pub views: Vec<ViewConfig>,
    pub groups: Vec<GroupConfig>,
    pub tui: TuiConfig,
}

impl Default for PulsosConfig {
    /// A configuration tracking nothing, with default dashboard settings.
    fn default() -> (r: Self)
        ensures
            r.github.organizations@.len() == 0,
            r.railway.workspaces@.len() == 0,
            r.vercel.teams@.len() == 0,
            r.correlations@.len() == 0,
            r.views@.len() == 0,
            r.groups@.len() == 0,
            r.tui.theme@ == "dark"@,
            r.tui.fps == 10,
            r.tui.refresh_interval == 5,
            r.tui.default_tab@ == "unified"@,
            r.tui.show_sparklines,
    {
        PulsosConfig {
            github: GitHubConfig { organizations: Vec::new() },
            railway: RailwayConfig { workspaces: Vec::new() },
            vercel: VercelConfig { teams: Vec::new() },
            correlations: Vec::new(),
            views: Vec::new(),
            groups: Vec::new(),
            tui: TuiConfig::default(),
        }
    }
}

/// The character view of an optional string.
pub open spec fn opt_view(o: Option<String>) -> Option<Seq<char>> {
    match o {
        Some(s) => Some(s@),
        None => None,
    }
}

/// Copies an optional string.
pub fn clone_opt(o: &Option<String>) -> (r: Option<String>)
    ensures
        opt_view(r) == opt_view(*o),
{
    match o {
        Some(s) => Some(s.clone()),
        None => None,
    }
}

/// ASCII case-insensitive equality.
pub open spec fn eq_ignore_case(a: Seq<char>, b: Seq<char>) -> bool {
    lower(a) == lower(b)
}

pub fn eq_ignore_ascii_case(a: &str, b: &str) -> (r: bool)
    ensures
        r == eq_ignore_case(a@, b@),
{
    let n = char_count(a);
    let m = char_count(b);
    if n != m {
        proof {
            assert(lower(a@).len() != lower(b@).len());
        }
        return false;
    }
    let mut i: usize = 0;
    while i < n
        invariant
            i <= n,
            n == a@.len(),
            n == b@.len(),
            forall|k: int| 0 <= k < i ==> lower_char(a@[k]) == lower_char(b@[k]),
        decreases n - i,
    {
        let x = char_at(a, i);
        let y = char_at(b, i);
        let lx: char = if 'A' <= x && x <= 'Z' { (((x as u32) + 32) as u8) as char } else { x };
        let ly: char = if 'A' <= y && y <= 'Z' { (((y as u32) + 32) as u8) as char } else { y };
        if lx != ly {
            proof {
                assert(lower(a@)[i as int] != lower(b@)[i as int]);
            }
            return false;
        }
        i = i + 1;
    }
    proof {
        assert(lower(a@) =~= lower(b@));
    }
    true
}

/// The part of `s` after its last `sep` (all of `s` when there is none).
pub open spec fn last_segment(s: Seq<char>, sep: char) -> Seq<char>
    decreases s.len(),
{
    if s.len() == 0 {
        s
    } else if s.last() == sep {
        Seq::empty()
    } else {
        last_segment(s.drop_last(), sep).push(s.last())
    }
}

proof fn lemma_last_segment_suffix(s: Seq<char>, sep: char, k: int)
    requires
        0 <= k <= s.len(),
        forall|j: int| k <= j < s.len() ==> s[j] != sep,
        k == 0 || s[k - 1] == sep,
    ensures
        last_segment(s, sep) == s.subrange(k, s.len() as int),
    decreases s.len(),
{
    if s.len() == k {
        if s.len() > 0 {
            assert(s.last() == sep);
        }
        assert(s.subrange(k, s.len() as int) =~= Seq::<char>::empty());
    } else {
        lemma_last_segment_suffix(s.drop_last(), sep, k);
        assert(s.subrange(k, s.len() as int) =~= s.drop_last().subrange(k, s.len() - 1).push(s.last()));
    }
}

/// The part of `s` after its last `sep`.
pub fn after_last(s: &str, sep: char) -> (r: String)
    ensures
        r@ == last_segment(s@, sep),
{
    let n = char_count(s);
    let mut k: usize = n;
    while k > 0 && char_at(s, k - 1) != sep
        invariant
            k <= n,
            n == s@.len(),
            forall|j: int| k <= j < n ==> s@[j] != sep,
        decreases k,
    {
        k = k - 1;
    }
    let mut out = String::new();
    let mut i: usize = k;
    while i < n
        invariant
            k <= i <= n,
            n == s@.len(),
            out@ == s@.subrange(k as int, i as int),
        decreases n - i,
    {
        crate::text::push_char(&mut out, char_at(s, i));
        i = i + 1;
        assert(s@.subrange(k as int, i as int) =~= s@.subrange(k as int, (i - 1) as int).push(s@[i - 1]));
    }
    proof {
        lemma_last_segment_suffix(s@, sep, k as int);
    }
    out
}

/// A resource to poll on one provider.
#[derive(Debug, Clone)]
pub struct TrackedResource {
    pub platform_id: String,
    pub display_name: String,
    pub group: Option<String>,
}

/// Tracked resources grouped by provider.
pub struct PlatformResources {
    pub github: Vec<TrackedResource>,
    pub railway: Vec<TrackedResource>,
    pub vercel: Vec<TrackedResource>,
}

/// The plain values of a tracked resource.
pub open spec fn resource_view(r: TrackedResource) -> (Seq<char>, Seq<char>, Option<Seq<char>>) {
    (r.platform_id@, r.display_name@, opt_view(r.group))
}

pub open spec fn resources_view(v: Seq<TrackedResource>) -> Seq<(Seq<char>, Seq<char>, Option<Seq<char>>)> {
    v.map_values(|r: TrackedResource| resource_view(r))
}

/// GitHub resources of a list of correlations: every repo, named after its
/// last path segment.
pub open spec fn github_resources(cs: Seq<CorrelationConfig>) -> Seq<(Seq<char>, Seq<char>, Option<Seq<char>>)>
    decreases cs.len(),
{
    if cs.len() == 0 {
        Seq::empty()
    } else {
        let c = cs.last();
        github_resources(cs.drop_last()) + github_of(c)
    }
}

pub open spec fn github_of(c: CorrelationConfig) -> Seq<(Seq<char>, Seq<char>, Option<Seq<char>>)> {
    match c.github_repo {
        Some(repo) => seq![(repo@, last_segment(repo@, '/'), None::<Seq<char>>)],
        None => Seq::empty(),
    }
}

pub open spec fn railway_of(c: CorrelationConfig) -> Seq<(Seq<char>, Seq<char>, Option<Seq<char>>)> {
    match c.railway_project {
        Some(p) => seq![(p@, c.name@, opt_view(c.railway_workspace))],
        None => Seq::empty(),
    }
}

pub open spec fn vercel_of(c: CorrelationConfig) -> Seq<(Seq<char>, Seq<char>, Option<Seq<char>>)> {
    match c.vercel_project {
        Some(p) => seq![(p@, c.name@, opt_view(c.vercel_team))],
        None => Seq::empty(),
    }
}

/// Railway resources: every project, named after the correlation, grouped
/// by its workspace.
pub open spec fn railway_resources(cs: Seq<CorrelationConfig>) -> Seq<(Seq<char>, Seq<char>, Option<Seq<char>>)>
    decreases cs.len(),
{
    if cs.len() == 0 {
        Seq::empty()
    } else {
        let c = cs.last();
        railway_resources(cs.drop_last()) + railway_of(c)
    }
}

/// Vercel resources: every project, named after the correlation, grouped by
/// its team.
pub open spec fn vercel_resources(cs: Seq<CorrelationConfig>) -> Seq<(Seq<char>, Seq<char>, Option<Seq<char>>)>
    decreases cs.len(),
{
    if cs.len() == 0 {
        Seq::empty()
    } else {
        let c = cs.last();
        vercel_resources(cs.drop_last()) + vercel_of(c)
    }
}

impl PlatformResources {
    /// An empty set of resources.
    pub fn empty() -> (r: Self)
        ensures
            r.github@.len() == 0,
            r.railway@.len() == 0,
            r.vercel@.len() == 0,
    {
        PlatformResources { github: Vec::new(), railway: Vec::new(), vercel: Vec::new() }
    }

    /// Adds the resources of one correlation.
    pub fn add_correlation(&mut self, corr: &CorrelationConfig)
        ensures
            resources_view(final(self).github@) == resources_view(old(self).github@) + github_of(*corr),
            resources_view(final(self).railway@) == resources_view(old(self).railway@) + railway_of(*corr),
            resources_view(final(self).vercel@) == resources_view(old(self).vercel@) + vercel_of(*corr),
    {
        let ghost g0 = self.github@;
        let ghost r0 = self.railway@;
        let ghost v0 = self.vercel@;
        if let Some(repo) = &corr.github_repo {
            let name = after_last(repo.as_str(), '/');
            self.github.push(TrackedResource { platform_id: repo.clone(), display_name: name, group: None });
            assert(resources_view(self.github@) =~= resources_view(g0) + github_of(*corr));
        } else {
            assert(resources_view(self.github@) =~= resources_view(g0) + github_of(*corr));
        }
        if let Some(project) = &corr.railway_project {
            self.railway.push(
                TrackedResource {
                    platform_id: project.clone(),
                    display_name: corr.name.clone(),
                    group: clone_opt(&corr.railway_workspace),
                },
            );
            assert(resources_view(self.railway@) =~= resources_view(r0) + railway_of(*corr));
        } else {
            assert(resources_view(self.railway@) =~= resources_view(r0) + railway_of(*corr));
        }
        if let Some(project) = &corr.vercel_project {
            self.vercel.push(
                TrackedResource {
                    platform_id: project.clone(),
                    display_name: corr.name.clone(),
                    group: clone_opt(&corr.vercel_team),
                },
            );
            assert(resources_view(self.vercel@) =~= resources_view(v0) + vercel_of(*corr));
        } else {
            assert(resources_view(self.vercel@) =~= resources_view(v0) + vercel_of(*corr));
        }
    }

    /// Build tracked resources from correlation config entries.
    pub fn from_correlations(correlations: &[CorrelationConfig]) -> (r: Self)
        ensures
            resources_view(r.github@) == github_resources(correlations@),
            resources_view(r.railway@) == railway_resources(correlations@),
            resources_view(r.vercel@) == vercel_resources(correlations@),
    {
        let mut r = Self::empty();
        let mut i: usize = 0;
        while i < correlations.len()
            invariant
                i <= correlations@.len(),
                resources_view(r.github@) == github_resources(correlations@.take(i as int)),
                resources_view(r.railway@) == railway_resources(correlations@.take(i as int)),
                resources_view(r.vercel@) == vercel_resources(correlations@.take(i as int)),
            decreases correlations@.len() - i,
        {
            r.add_correlation(&correlations[i]);
            i = i + 1;
            proof {
                let t = correlations@.take(i as int);
                assert(t.drop_last() =~= correlations@.take((i - 1) as int));
                assert(t.last() == correlations@[i - 1]);
            }
        }
        assert(correlations@.take(i as int) =~= correlations@);
        r
    }
}

/// Index of the first entry whose name equals `name` ignoring ASCII case.
pub open spec fn is_first_match(names: Seq<Seq<char>>, name: Seq<char>, i: int) -> bool {
    0 <= i < names.len() && eq_ignore_case(names[i], name) && forall|j: int|
        0 <= j < i ==> !eq_ignore_case(#[trigger] names[j], name)
}

pub open spec fn view_names(views: Seq<ViewConfig>) -> Seq<Seq<char>> {
    views.map_values(|v: ViewConfig| v.name@)
}

pub open spec fn group_names(groups: Seq<GroupConfig>) -> Seq<Seq<char>> {
    groups.map_values(|g: GroupConfig| g.name@)
}

/// Position of the saved view named `name` (ASCII case ignored).
pub fn find_view(views: &[ViewConfig], name: &str) -> (r: Option<usize>)
    ensures
        match r {
            Some(i) => is_first_match(view_names(views@), name@, i as int),
            None => forall|j: int| 0 <= j < views@.len() ==> !eq_ignore_case(#[trigger] view_names(views@)[j], name@),
        },
{
    let mut i: usize = 0;
    while i < views.len()
        invariant
            i <= views@.len(),
            forall|j: int| 0 <= j < i ==> !eq_ignore_case(#[trigger] view_names(views@)[j], name@),
        decreases views@.len() - i,
    {
        if eq_ignore_ascii_case(views[i].name.as_str(), name) {
            return Some(i);
        }
        i = i + 1;
    }
    None
}

/// Position of the group named `name` (ASCII case ignored).
pub fn find_group(groups: &[GroupConfig], name: &str) -> (r: Option<usize>)
    ensures
        match r {
            Some(i) => is_first_match(group_names(groups@), name@, i as int),
            None => forall|j: int| 0 <= j < groups@.len() ==> !eq_ignore_case(#[trigger] group_names(groups@)[j], name@),
        },
{
    let mut i: usize = 0;
    while i < groups.len()
        invariant
            i <= groups@.len(),
            forall|j: int| 0 <= j < i ==> !eq_ignore_case(#[trigger] group_names(groups@)[j], name@),
        decreases groups@.len() - i,
    {
        if eq_ignore_ascii_case(groups[i].name.as_str(), name) {
            return Some(i);
        }
        i = i + 1;
    }
    None
}

} // verus!
