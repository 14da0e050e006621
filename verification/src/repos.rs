//! Editing what is tracked: reading `platform:id` references, adding and
//! removing a resource, editing a project's correlation, and named groups.

use vstd::prelude::*;
use crate::config::{
    after_last, clone_opt, eq_ignore_ascii_case, eq_ignore_case, find_group, group_names, is_first_match, last_segment,
    opt_view, CorrelationConfig, GroupConfig, PulsosConfig,
};
use crate::text::{
    char_at, char_count, concat, decimal, lowercase_of, owned, pad_right, padded_right, push_decimal, push_str, repeat, str_eq, substring, to_lowercase,
    trim, trimmed,
};
use crate::app::{join_strings, joined};
use crate::sorting::{push_line, texts};
use crate::domain::{DiscoveredResource, PlatformHealthReport, PlatformHealthState, PlatformKind};

verus! {

/// Why a resource or group command was refused.
#[derive(Debug)]
pub enum ResourceError {
    /// The reference has no `:` between provider and id.
    InvalidFormat { resource: String },
    /// The provider before the `:` is not one of github, railway, vercel.
    UnknownPlatform { platform: String },
    /// No correlation tracks this resource.
    NotTracked { platform: String, id: String },
    /// A group of that name (ASCII case ignored) exists already.
    GroupExists { name: String },
    /// No group has that name.
    GroupNotFound { name: String },
}

impl ResourceError {
    /// The text shown to the user.
    pub open spec fn message_of(&self) -> Seq<char> {
        match self {
            ResourceError::InvalidFormat { resource } => "Invalid resource format '"@ + resource@
                + "'. Expected platform:id (e.g., github:myorg/repo)"@,
            ResourceError::UnknownPlatform { platform } => "Unknown platform '"@ + platform@
                + "'. Use github, railway, or vercel."@,
            ResourceError::NotTracked { platform, id } => "Resource "@ + platform@ + ":"@ + id@
                + " not found in any correlation."@,
            ResourceError::GroupExists { name } => "A group named '"@ + name@ + "' already exists."@,
            ResourceError::GroupNotFound { name } => "Group '"@ + name@ + "' not found."@,
        }
    }

    /// The text shown to the user.
    pub fn message(&self) -> (r: String)
        ensures
            r@ == self.message_of(),
    {
        let mut out = String::new();
        match self {
            ResourceError::InvalidFormat { resource } => {
                push_str(&mut out, "Invalid resource format '");
                push_str(&mut out, resource.as_str());
                push_str(&mut out, "'. Expected platform:id (e.g., github:myorg/repo)");
            },
            ResourceError::UnknownPlatform { platform } => {
                push_str(&mut out, "Unknown platform '");
                push_str(&mut out, platform.as_str());
                push_str(&mut out, "'. Use github, railway, or vercel.");
            },
            ResourceError::NotTracked { platform, id } => {
                push_str(&mut out, "Resource ");
                push_str(&mut out, platform.as_str());
                push_str(&mut out, ":");
                push_str(&mut out, id.as_str());
                push_str(&mut out, " not found in any correlation.");
            },
            ResourceError::GroupExists { name } => {
                push_str(&mut out, "A group named '");
                push_str(&mut out, name.as_str());
                push_str(&mut out, "' already exists.");
            },
            ResourceError::GroupNotFound { name } => {
                push_str(&mut out, "Group '");
                push_str(&mut out, name.as_str());
                push_str(&mut out, "' not found.");
            },
        }
        out
    }
}

/// Interactive input as a field value: surrounding white space dropped;
/// nothing, or a lone `-`, clears the field.
pub open spec fn normalized(s: Seq<char>) -> Option<Seq<char>> {
    let t = trimmed(s);
    if t.len() == 0 || t == "-"@ {
        None
    } else {
        Some(t)
    }
}

/// Interactive input as a field value: empty keeps nothing, "-" clears.
pub fn normalize_input(s: &str) -> (r: Option<String>)
    ensures
        opt_view(r) == normalized(s@),
{
    let t = trim(s);
    if char_count(t.as_str()) == 0 || str_eq(t.as_str(), "-") {
        None
    } else {
        Some(t)
    }
}

/// The providers a reference may name.
pub open spec fn is_platform_name(p: Seq<char>) -> bool {
    p == "github"@ || p == "railway"@ || p == "vercel"@
}

/// `i` is the position of the first `:` in `s`.
pub open spec fn is_first_colon(s: Seq<char>, i: int) -> bool {
    &&& 0 <= i < s.len()
    &&& s[i] == ':'
    &&& forall|j: int| 0 <= j < i ==> s[j] != ':'
}

/// Splits `platform:id` at its first `:`; the provider is lower-cased
/// (Unicode) and must be github, railway or vercel.
pub fn parse_resource(resource: &str) -> (r: Result<(String, String), ResourceError>)
    ensures
        match r {
            Ok((platform, id)) => exists|i: int|
                #![trigger resource@.take(i)]
                {
                    &&& is_first_colon(resource@, i)
                    &&& platform@ == lowercase_of(resource@.take(i))
                    &&& is_platform_name(platform@)
                    &&& id@ == resource@.skip(i + 1)
                },
            Err(ResourceError::InvalidFormat { resource: text }) => text@ == resource@ && forall|j: int|
                0 <= j < resource@.len() ==> resource@[j] != ':',
            Err(ResourceError::UnknownPlatform { platform }) => exists|i: int|
                #![trigger resource@.take(i)]
                {
                    &&& is_first_colon(resource@, i)
                    &&& platform@ == lowercase_of(resource@.take(i))
                    &&& !is_platform_name(platform@)
                },
            Err(_) => false,
        },
{
    let n = char_count(resource);
    let mut k: usize = 0;
    while k < n && char_at(resource, k) != ':'
        invariant
            k <= n,
            n == resource@.len(),
            forall|j: int| 0 <= j < k ==> resource@[j] != ':',
        decreases n - k,
    {
        k = k + 1;
    }
    if k == n {
        return Err(ResourceError::InvalidFormat { resource: owned(resource) });
    }
    let head = substring(resource, 0, k);
    assert(head@ == resource@.take(k as int));
    let platform = to_lowercase(head.as_str());
    let known = str_eq(platform.as_str(), "github") || str_eq(platform.as_str(), "railway") || str_eq(
        platform.as_str(),
        "vercel",
    );
    if !known {
        return Err(ResourceError::UnknownPlatform { platform });
    }
    let id = substring(resource, k + 1, n);
    assert(id@ == resource@.skip(k + 1));
    Ok((platform, id))
}

/// The project name a new resource is filed under: a GitHub repository's
/// name without its owner, any other id as it is.
pub open spec fn derived_name(platform: Seq<char>, id: Seq<char>) -> Seq<char> {
    if platform == "github"@ {
        last_segment(id, '/')
    } else {
        id
    }
}

/// The project name a new resource is filed under.
pub fn derive_name(platform: &str, id: &str) -> (r: String)
    ensures
        r@ == derived_name(platform@, id@),
{
    if str_eq(platform, "github") {
        after_last(id, '/')
    } else {
        owned(id)
    }
}


/// What a correlation holds, as text: name, GitHub repository, Railway
/// project, workspace and environment, Vercel project and team.
pub type CorrFields = (
    Seq<char>,
    Option<Seq<char>>,
    Option<Seq<char>>,
    Option<Seq<char>>,
    Option<Seq<char>>,
    Option<Seq<char>>,
    Option<Seq<char>>,
);

pub open spec fn fields(c: CorrelationConfig) -> CorrFields {
    (
        c.name@,
        opt_view(c.github_repo),
        opt_view(c.railway_project),
        opt_view(c.railway_workspace),
        opt_view(c.railway_environment),
        opt_view(c.vercel_project),
        opt_view(c.vercel_team),
    )
}

pub open spec fn corr_fields(cs: Seq<CorrelationConfig>) -> Seq<CorrFields> {
    cs.map_values(|c: CorrelationConfig| fields(c))
}

pub open spec fn corr_names(cs: Seq<CorrelationConfig>) -> Seq<Seq<char>> {
    cs.map_values(|c: CorrelationConfig| c.name@)
}

/// A correlation with only a name.
pub open spec fn fresh_fields(name: Seq<char>) -> CorrFields {
    (name, None, None, None, None, None, None)
}

/// `f` with the provider's resource set to `id`.
pub open spec fn with_resource(f: CorrFields, platform: Seq<char>, id: Seq<char>) -> CorrFields {
    if platform == "github"@ {
        (f.0, Some(id), f.2, f.3, f.4, f.5, f.6)
    } else if platform == "railway"@ {
        (f.0, f.1, Some(id), f.3, f.4, f.5, f.6)
    } else {
        (f.0, f.1, f.2, f.3, f.4, Some(id), f.6)
    }
}

/// The provider's resource of `f`.
pub open spec fn resource_of(f: CorrFields, platform: Seq<char>) -> Option<Seq<char>> {
    if platform == "github"@ {
        f.1
    } else if platform == "railway"@ {
        f.2
    } else {
        f.5
    }
}

/// `f` without the provider's resource and the settings that go with it
/// (a Railway workspace and environment, a Vercel team).
pub open spec fn without_resource(f: CorrFields, platform: Seq<char>) -> CorrFields {
    if platform == "github"@ {
        (f.0, None, f.2, f.3, f.4, f.5, f.6)
    } else if platform == "railway"@ {
        (f.0, f.1, None, None, None, f.5, f.6)
    } else {
        (f.0, f.1, f.2, f.3, f.4, None, None)
    }
}

/// A correlation that still names a resource on some provider.
pub open spec fn tracks_something(f: CorrFields) -> bool {
    f.1 is Some || f.2 is Some || f.5 is Some
}

/// A copy of a correlation.
pub fn copy_correlation(c: &CorrelationConfig) -> (r: CorrelationConfig)
    ensures
        fields(r) == fields(*c),
{
    CorrelationConfig {
        name: c.name.clone(),
        github_repo: clone_opt(&c.github_repo),
        railway_project: clone_opt(&c.railway_project),
        railway_workspace: clone_opt(&c.railway_workspace),
        railway_environment: clone_opt(&c.railway_environment),
        vercel_project: clone_opt(&c.vercel_project),
        vercel_team: clone_opt(&c.vercel_team),
    }
}

/// Position of the correlation named `name` (ASCII case ignored).
pub fn find_correlation(cs: &[CorrelationConfig], name: &str) -> (r: Option<usize>)
    ensures
        match r {
            Some(i) => is_first_match(corr_names(cs@), name@, i as int),
            None => forall|j: int| 0 <= j < cs@.len() ==> !eq_ignore_case(#[trigger] corr_names(cs@)[j], name@),
        },
{
    let mut i: usize = 0;
    while i < cs.len()
        invariant
            i <= cs@.len(),
            forall|j: int| 0 <= j < i ==> !eq_ignore_case(#[trigger] corr_names(cs@)[j], name@),
        decreases cs@.len() - i,
    {
        if eq_ignore_ascii_case(cs[i].name.as_str(), name) {
            return Some(i);
        }
        i = i + 1;
    }
    None
}

/// `c` with the provider's resource set to `id`.
fn set_resource(c: &CorrelationConfig, platform: &str, id: &str) -> (r: CorrelationConfig)
    requires
        is_platform_name(platform@),
    ensures
        fields(r) == with_resource(fields(*c), platform@, id@),
{
    let mut r = copy_correlation(c);
    if str_eq(platform, "github") {
        r.github_repo = Some(owned(id));
    } else if str_eq(platform, "railway") {
        r.railway_project = Some(owned(id));
    } else {
        r.vercel_project = Some(owned(id));
    }
    r
}

/// Files the resource under the project its id names: into the first
/// correlation of that name (ASCII case ignored), or a new one at the end.
/// Returns the project name.
pub fn add_resource(config: &mut PulsosConfig, platform: &str, id: &str) -> (name: String)
    requires
        is_platform_name(platform@),
    ensures
        name@ == derived_name(platform@, id@),
        final(config).views == old(config).views,
        final(config).groups == old(config).groups,
        final(config).tui == old(config).tui,
        final(config).github == old(config).github,
        final(config).railway == old(config).railway,
        final(config).vercel == old(config).vercel,
        (exists|i: int|
            #[trigger] is_first_match(corr_names(old(config).correlations@), name@, i) && corr_fields(
                final(config).correlations@,
            ) == corr_fields(old(config).correlations@).update(
                i,
                with_resource(corr_fields(old(config).correlations@)[i], platform@, id@),
            )) || ((forall|j: int|
            0 <= j < old(config).correlations@.len() ==> !eq_ignore_case(
                #[trigger] corr_names(old(config).correlations@)[j],
                name@,
            )) && corr_fields(final(config).correlations@) == corr_fields(old(config).correlations@).push(
            with_resource(fresh_fields(name@), platform@, id@),
        )),
{
    let name = derive_name(platform, id);
    let ghost before = config.correlations@;
    match find_correlation(config.correlations.as_slice(), name.as_str()) {
        Some(i) => {
            let updated = set_resource(&config.correlations[i], platform, id);
            config.correlations.set(i, updated);
            assert(corr_fields(config.correlations@) =~= corr_fields(before).update(
                i as int,
                with_resource(corr_fields(before)[i as int], platform@, id@),
            ));
        },
        None => {
            let fresh = CorrelationConfig {
                name: name.clone(),
                github_repo: None,
                railway_project: None,
                railway_workspace: None,
                railway_environment: None,
                vercel_project: None,
                vercel_team: None,
            };
            let updated = set_resource(&fresh, platform, id);
            config.correlations.push(updated);
            assert(corr_fields(config.correlations@) =~= corr_fields(before).push(
                with_resource(fresh_fields(name@), platform@, id@),
            ));
        },
    }
    name
}


/// `i` is the first correlation of `fs` whose provider resource is `id`.
pub open spec fn is_first_tracking(fs: Seq<CorrFields>, platform: Seq<char>, id: Seq<char>, i: int) -> bool {
    &&& 0 <= i < fs.len()
    &&& resource_of(fs[i], platform) == Some(id)
    &&& forall|j: int| 0 <= j < i ==> resource_of(#[trigger] fs[j], platform) != Some(id)
}

/// The correlations that still name a resource, in order.
pub open spec fn still_tracking(fs: Seq<CorrFields>) -> Seq<CorrFields> {
    fs.filter(|f: CorrFields| tracks_something(f))
}

proof fn lemma_still_tracking_push(s: Seq<CorrFields>, x: CorrFields)
    ensures
        still_tracking(s.push(x)) == if tracks_something(x) {
            still_tracking(s).push(x)
        } else {
            still_tracking(s)
        },
{
    reveal(Seq::filter);
    assert(s.push(x).drop_last() =~= s);
}

/// Whether `c` names `id` as the provider's resource.
fn names_resource(c: &CorrelationConfig, platform: &str, id: &str) -> (r: bool)
    requires
        is_platform_name(platform@),
    ensures
        r == (resource_of(fields(*c), platform@) == Some(id@)),
{
    let field = if str_eq(platform, "github") {
        &c.github_repo
    } else if str_eq(platform, "railway") {
        &c.railway_project
    } else {
        &c.vercel_project
    };
    match field {
        Some(v) => str_eq(v.as_str(), id),
        None => false,
    }
}

/// `c` without the provider's resource and its companion settings.
fn clear_resource(c: &CorrelationConfig, platform: &str) -> (r: CorrelationConfig)
    requires
        is_platform_name(platform@),
    ensures
        fields(r) == without_resource(fields(*c), platform@),
{
    let mut r = copy_correlation(c);
    if str_eq(platform, "github") {
        r.github_repo = None;
    } else if str_eq(platform, "railway") {
        r.railway_project = None;
        r.railway_workspace = None;
        r.railway_environment = None;
    } else {
        r.vercel_project = None;
        r.vercel_team = None;
    }
    r
}

/// Stops tracking a resource: the first correlation naming it loses it
/// (with a Railway workspace and environment, or a Vercel team), then every
/// correlation that names no resource any more is dropped. When no
/// correlation names it, nothing changes and the error says so.
pub fn remove_resource(config: &mut PulsosConfig, platform: &str, id: &str) -> (r: Result<(), ResourceError>)
    requires
        is_platform_name(platform@),
    ensures
        final(config).views == old(config).views,
        final(config).groups == old(config).groups,
        final(config).tui == old(config).tui,
        final(config).github == old(config).github,
        final(config).railway == old(config).railway,
        final(config).vercel == old(config).vercel,
        match r {
            Ok(()) => exists|i: int|
                #[trigger] is_first_tracking(corr_fields(old(config).correlations@), platform@, id@, i)
                    && corr_fields(final(config).correlations@) == still_tracking(
                    corr_fields(old(config).correlations@).update(
                        i,
                        without_resource(corr_fields(old(config).correlations@)[i], platform@),
                    ),
                ),
            Err(ResourceError::NotTracked { platform: p, id: x }) => {
                &&& p@ == platform@
                &&& x@ == id@
                &&& *final(config) == *old(config)
                &&& forall|j: int|
                    0 <= j < old(config).correlations@.len() ==> resource_of(
                        #[trigger] corr_fields(old(config).correlations@)[j],
                        platform@,
                    ) != Some(id@)
            },
            Err(_) => false,
        },
{
    let ghost before = corr_fields(config.correlations@);
    let n = config.correlations.len();
    let mut i: usize = 0;
    while i < n && !names_resource(&config.correlations[i], platform, id)
        invariant
            i <= n,
            n == config.correlations@.len(),
            before == corr_fields(config.correlations@),
            is_platform_name(platform@),
            forall|j: int| 0 <= j < i ==> resource_of(#[trigger] before[j], platform@) != Some(id@),
        decreases n - i,
    {
        i = i + 1;
    }
    if i == n {
        return Err(ResourceError::NotTracked { platform: owned(platform), id: owned(id) });
    }
    let cleared = clear_resource(&config.correlations[i], platform);
    config.correlations.set(i, cleared);
    let ghost mid = corr_fields(config.correlations@);
    assert(mid =~= before.update(i as int, without_resource(before[i as int], platform@)));
    let mut kept: Vec<CorrelationConfig> = Vec::new();
    let mut j: usize = 0;
    while j < n
        invariant
            j <= n,
            n == config.correlations@.len(),
            mid == corr_fields(config.correlations@),
            corr_fields(kept@) == still_tracking(mid.take(j as int)),
        decreases n - j,
    {
        let c = &config.correlations[j];
        assert(mid.take(j + 1).drop_last() =~= mid.take(j as int));
        assert(mid.take(j + 1).last() == mid[j as int]);
        assert(fields(*c) == mid[j as int]);
        assert(mid.take(j + 1) =~= mid.take(j as int).push(mid[j as int]));
        proof {
            lemma_still_tracking_push(mid.take(j as int), mid[j as int]);
        }
        if c.github_repo.is_some() || c.railway_project.is_some() || c.vercel_project.is_some() {
            let copy = copy_correlation(c);
            let ghost prev = kept@;
            kept.push(copy);
            assert(corr_fields(kept@) =~= corr_fields(prev).push(fields(copy)));
        }
        j = j + 1;
    }
    assert(mid.take(n as int) =~= mid);
    config.correlations = kept;
    assert(is_first_tracking(before, platform@, id@, i as int));
    Ok(())
}



/// The lines listing one correlation: a blank line, the name, then one line
/// per provider resource it names.
pub open spec fn corr_block(c: CorrelationConfig) -> Seq<Seq<char>> {
    seq![Seq::empty(), "  "@ + c.name@] + match opt_view(c.github_repo) {
        Some(v) => seq!["    GitHub:  "@ + v],
        None => Seq::empty(),
    } + match opt_view(c.railway_project) {
        Some(v) => seq!["    Railway: "@ + v],
        None => Seq::empty(),
    } + match opt_view(c.vercel_project) {
        Some(v) => seq!["    Vercel:  "@ + v],
        None => Seq::empty(),
    }
}

pub open spec fn corr_blocks(cs: Seq<CorrelationConfig>) -> Seq<Seq<char>>
    decreases cs.len(),
{
    if cs.len() == 0 {
        Seq::empty()
    } else {
        corr_blocks(cs.drop_last()) + corr_block(cs.last())
    }
}

/// The listing of the tracked resources.
pub open spec fn tracked_listing(cs: Seq<CorrelationConfig>) -> Seq<Seq<char>> {
    if cs.len() == 0 {
        seq!["No tracked resources. Run `pulsos repos sync` to get started."@]
    } else {
        seq!["Tracked Resources"@, repeat("="@, 44)] + corr_blocks(cs) + seq![Seq::<char>::empty()]
    }
}


/// The listing of the tracked resources, one line per entry.
pub fn tracked_lines(cs: &[CorrelationConfig]) -> (r: Vec<String>)
    ensures
        texts(r@) == tracked_listing(cs@),
{
    let mut lines: Vec<String> = Vec::new();
    if cs.len() == 0 {
        push_line(&mut lines, owned("No tracked resources. Run `pulsos repos sync` to get started."));
        assert(texts(lines@) =~= tracked_listing(cs@));
        return lines;
    }
    push_line(&mut lines, owned("Tracked Resources"));
    let mut rule = String::new();
    crate::text::push_repeat(&mut rule, "=", 44);
    push_line(&mut lines, rule);
    let ghost head = texts(lines@);
    assert(cs@.take(0) =~= Seq::<CorrelationConfig>::empty());
    let mut i: usize = 0;
    while i < cs.len()
        invariant
            i <= cs@.len(),
            texts(lines@) == head + corr_blocks(cs@.take(i as int)),
        decreases cs@.len() - i,
    {
        let c = &cs[i];
        let ghost start = texts(lines@);
        push_line(&mut lines, String::new());
        push_line(&mut lines, concat("  ", c.name.as_str()));
        match &c.github_repo {
            Some(v) => push_line(&mut lines, concat("    GitHub:  ", v.as_str())),
            None => {},
        }
        match &c.railway_project {
            Some(v) => push_line(&mut lines, concat("    Railway: ", v.as_str())),
            None => {},
        }
        match &c.vercel_project {
            Some(v) => push_line(&mut lines, concat("    Vercel:  ", v.as_str())),
            None => {},
        }
        assert(texts(lines@) =~= start + corr_block(cs@[i as int]));
        assert(cs@.take(i + 1).drop_last() =~= cs@.take(i as int));
        i = i + 1;
    }
    push_line(&mut lines, String::new());
    assert(cs@.take(cs@.len() as int) =~= cs@);
    assert(texts(lines@) =~= tracked_listing(cs@));
    lines
}

/// One row of the group listing: the name padded to 24 characters, then the
/// resources joined by ", " (or "(empty)").
pub open spec fn group_row(g: GroupConfig) -> Seq<char> {
    pad_right(g.name@, 24) + "  "@ + if g.resources@.len() == 0 {
        "(empty)"@
    } else {
        joined(g.resources@, ", "@)
    }
}

/// The listing of the named groups.
pub open spec fn group_listing(gs: Seq<GroupConfig>) -> Seq<Seq<char>> {
    if gs.len() == 0 {
        seq!["No groups configured. Use `pulsos repos groups create <name> -- <resources...>` to add one."@]
    } else {
        seq![pad_right("Name"@, 24) + "  Resources"@, repeat("─"@, 60)] + gs.map_values(
            |g: GroupConfig| group_row(g),
        )
    }
}

/// The listing of the named groups, one line per entry.
pub fn group_lines(gs: &[GroupConfig]) -> (r: Vec<String>)
    ensures
        texts(r@) == group_listing(gs@),
{
    let mut lines: Vec<String> = Vec::new();
    if gs.len() == 0 {
        push_line(
            &mut lines,
            owned("No groups configured. Use `pulsos repos groups create <name> -- <resources...>` to add one."),
        );
        assert(texts(lines@) =~= group_listing(gs@));
        return lines;
    }
    let mut header = padded_right("Name", 24);
    push_str(&mut header, "  Resources");
    push_line(&mut lines, header);
    let mut rule = String::new();
    crate::text::push_repeat(&mut rule, "─", 60);
    push_line(&mut lines, rule);
    let ghost head = texts(lines@);
    let mut i: usize = 0;
    while i < gs.len()
        invariant
            i <= gs@.len(),
            texts(lines@) == head + gs@.take(i as int).map_values(|g: GroupConfig| group_row(g)),
        decreases gs@.len() - i,
    {
        let g = &gs[i];
        let mut row = padded_right(g.name.as_str(), 24);
        push_str(&mut row, "  ");
        if g.resources.len() == 0 {
            push_str(&mut row, "(empty)");
        } else {
            let joined_text = join_strings(&g.resources, ", ");
            push_str(&mut row, joined_text.as_str());
        }
        let ghost start = texts(lines@);
        push_line(&mut lines, row);
        assert(gs@.take(i + 1).map_values(|g: GroupConfig| group_row(g)) =~= gs@.take(i as int).map_values(
            |g: GroupConfig| group_row(g),
        ).push(group_row(gs@[i as int])));
        i = i + 1;
    }
    assert(gs@.take(gs@.len() as int) =~= gs@);
    assert(texts(lines@) =~= group_listing(gs@));
    lines
}

/// Adds a group unless one of that name (ASCII case ignored) exists;
/// returns how many resources it holds.
pub fn create_group(config: &mut PulsosConfig, name: &str, resources: Vec<String>) -> (r: Result<
    usize,
    ResourceError,
>)
    ensures
        final(config).correlations == old(config).correlations,
        final(config).views == old(config).views,
        final(config).tui == old(config).tui,
        final(config).github == old(config).github,
        final(config).railway == old(config).railway,
        final(config).vercel == old(config).vercel,
        match r {
            Ok(count) => {
                &&& count == resources@.len()
                &&& forall|j: int|
                    0 <= j < old(config).groups@.len() ==> !eq_ignore_case(
                        #[trigger] group_names(old(config).groups@)[j],
                        name@,
                    )
                &&& final(config).groups@.len() == old(config).groups@.len() + 1
                &&& final(config).groups@.drop_last() == old(config).groups@
                &&& final(config).groups@.last().name@ == name@
                &&& final(config).groups@.last().resources == resources
            },
            Err(ResourceError::GroupExists { name: n }) => {
                &&& n@ == name@
                &&& *final(config) == *old(config)
                &&& exists|j: int|
                    0 <= j < old(config).groups@.len() && eq_ignore_case(
                        #[trigger] group_names(old(config).groups@)[j],
                        name@,
                    )
            },
            Err(_) => false,
        },
{
    match find_group(config.groups.as_slice(), name) {
        Some(i) => {
            assert(eq_ignore_case(group_names(config.groups@)[i as int], name@));
            Err(ResourceError::GroupExists { name: owned(name) })
        },
        None => {
            let count = resources.len();
            let ghost before = config.groups@;
            config.groups.push(GroupConfig { name: owned(name), resources });
            assert(config.groups@.drop_last() =~= before);
            Ok(count)
        },
    }
}

/// Position of the group to delete, or the error naming it when there is
/// no such group.
pub fn locate_group(groups: &[GroupConfig], name: &str) -> (r: Result<usize, ResourceError>)
    ensures
        match r {
            Ok(i) => is_first_match(group_names(groups@), name@, i as int),
            Err(ResourceError::GroupNotFound { name: n }) => n@ == name@ && forall|j: int|
                0 <= j < groups@.len() ==> !eq_ignore_case(#[trigger] group_names(groups@)[j], name@),
            Err(_) => false,
        },
{
    match find_group(groups, name) {
        Some(i) => Ok(i),
        None => Err(ResourceError::GroupNotFound { name: owned(name) }),
    }
}


/// The text of an optional field, `default` when it is unset.
pub open spec fn or_text(o: Option<Seq<char>>, default: Seq<char>) -> Seq<char> {
    match o {
        Some(v) => v,
        None => default,
    }
}

fn push_or(out: &mut String, o: &Option<String>, default: &str)
    ensures
        final(out)@ == old(out)@ + or_text(opt_view(*o), default@),
{
    match o {
        Some(v) => push_str(out, v.as_str()),
        None => push_str(out, default),
    }
}

/// The prompt for one field of a correlation: its label and current value.
pub fn edit_prompt(label: &str, current: &Option<String>) -> (r: String)
    ensures
        r@ == label@ + " (current: "@ + or_text(opt_view(*current), "not set"@) + ")"@,
{
    let mut out = owned(label);
    push_str(&mut out, " (current: ");
    push_or(&mut out, current, "not set");
    push_str(&mut out, ")");
    out
}

/// A correlation after editing: the name and Railway environment kept, every
/// other field taken from the answers, normalized.
pub fn edited_correlation(
    corr: &CorrelationConfig,
    github: &str,
    railway: &str,
    railway_workspace: &str,
    vercel: &str,
    vercel_team: &str,
) -> (r: CorrelationConfig)
    ensures
        fields(r) == (
            corr.name@,
            normalized(github@),
            normalized(railway@),
            normalized(railway_workspace@),
            opt_view(corr.railway_environment),
            normalized(vercel@),
            normalized(vercel_team@),
        ),
{
    CorrelationConfig {
        name: corr.name.clone(),
        github_repo: normalize_input(github),
        railway_project: normalize_input(railway),
        railway_workspace: normalize_input(railway_workspace),
        railway_environment: clone_opt(&corr.railway_environment),
        vercel_project: normalize_input(vercel),
        vercel_team: normalize_input(vercel_team),
    }
}

/// The summary of an edited correlation shown before saving.
pub open spec fn edit_summary(f: CorrFields) -> Seq<Seq<char>> {
    seq![
        "Updated correlation for '"@ + f.0 + "':"@,
        match f.1 {
            Some(v) => "  GitHub:  "@ + v,
            None => "  GitHub:  (not set)"@,
        },
        match f.2 {
            Some(v) => "  Railway: "@ + v + "  workspace: "@ + or_text(f.3, Seq::empty()),
            None => "  Railway: (not set)"@,
        },
        match f.5 {
            Some(v) => "  Vercel:  "@ + v + "  team: "@ + or_text(f.6, Seq::empty()),
            None => "  Vercel:  (not set)"@,
        },
    ]
}

/// The summary of an edited correlation, one line per entry.
pub fn edit_summary_lines(c: &CorrelationConfig) -> (r: Vec<String>)
    ensures
        texts(r@) == edit_summary(fields(*c)),
{
    let mut lines: Vec<String> = Vec::new();
    let mut title = owned("Updated correlation for '");
    push_str(&mut title, c.name.as_str());
    push_str(&mut title, "':");
    push_line(&mut lines, title);
    match &c.github_repo {
        Some(v) => push_line(&mut lines, concat("  GitHub:  ", v.as_str())),
        None => push_line(&mut lines, owned("  GitHub:  (not set)")),
    }
    match &c.railway_project {
        Some(v) => {
            let mut line = concat("  Railway: ", v.as_str());
            push_str(&mut line, "  workspace: ");
            push_or(&mut line, &c.railway_workspace, "");
            push_line(&mut lines, line);
        },
        None => push_line(&mut lines, owned("  Railway: (not set)")),
    }
    match &c.vercel_project {
        Some(v) => {
            let mut line = concat("  Vercel:  ", v.as_str());
            push_str(&mut line, "  team: ");
            push_or(&mut line, &c.vercel_team, "");
            push_line(&mut lines, line);
        },
        None => push_line(&mut lines, owned("  Vercel:  (not set)")),
    }
    proof {
        reveal_strlit("");
    }
    assert(texts(lines@) =~= edit_summary(fields(*c)));
    lines
}

/// Saves an edited correlation: it replaces the first correlation named
/// `name` (ASCII case ignored), or is added at the end.
pub fn upsert_correlation(config: &mut PulsosConfig, name: &str, updated: CorrelationConfig)
    ensures
        final(config).views == old(config).views,
        final(config).groups == old(config).groups,
        final(config).tui == old(config).tui,
        final(config).github == old(config).github,
        final(config).railway == old(config).railway,
        final(config).vercel == old(config).vercel,
        (exists|i: int|
            #[trigger] is_first_match(corr_names(old(config).correlations@), name@, i) && corr_fields(
                final(config).correlations@,
            ) == corr_fields(old(config).correlations@).update(i, fields(updated))) || ((forall|j: int|
            0 <= j < old(config).correlations@.len() ==> !eq_ignore_case(
                #[trigger] corr_names(old(config).correlations@)[j],
                name@,
            )) && corr_fields(final(config).correlations@) == corr_fields(old(config).correlations@).push(
            fields(updated),
        )),
{
    let ghost before = config.correlations@;
    let ghost new_fields = fields(updated);
    match find_correlation(config.correlations.as_slice(), name) {
        Some(i) => {
            config.correlations.set(i, updated);
            assert(corr_fields(config.correlations@) =~= corr_fields(before).update(i as int, new_fields));
        },
        None => {
            config.correlations.push(updated);
            assert(corr_fields(config.correlations@) =~= corr_fields(before).push(new_fields));
        },
    }
}


/// Discovered resources that are neither archived nor disabled.
pub open spec fn is_active(r: DiscoveredResource) -> bool {
    !r.archived && !r.disabled
}

/// Keeps the resources that are neither archived nor disabled, in order.
pub fn active_resources(rs: Vec<DiscoveredResource>) -> (r: Vec<DiscoveredResource>)
    ensures
        r@ == rs@.filter(|x: DiscoveredResource| is_active(x)),
{
    let mut out: Vec<DiscoveredResource> = Vec::new();
    let mut i: usize = 0;
    while i < rs.len()
        invariant
            i <= rs@.len(),
            out@ == rs@.take(i as int).filter(|x: DiscoveredResource| is_active(x)),
        decreases rs@.len() - i,
    {
        proof {
            reveal(Seq::filter);
            assert(rs@.take(i + 1).drop_last() =~= rs@.take(i as int));
        }
        if !rs[i].archived && !rs[i].disabled {
            out.push(rs[i].duplicate());
        }
        i = i + 1;
    }
    assert(rs@.take(rs@.len() as int) =~= rs@);
    out
}

/// Discovered Vercel projects (with the repository each links to) that are
/// neither archived nor disabled.
pub fn active_linked(rs: Vec<(DiscoveredResource, Option<String>)>) -> (r: Vec<(DiscoveredResource, Option<String>)>)
    ensures
        r@.map_values(|p: (DiscoveredResource, Option<String>)| (p.0, opt_view(p.1))) == rs@.filter(
            |p: (DiscoveredResource, Option<String>)| is_active(p.0),
        ).map_values(|p: (DiscoveredResource, Option<String>)| (p.0, opt_view(p.1))),
{
    let ghost f = |p: (DiscoveredResource, Option<String>)| (p.0, opt_view(p.1));
    let ghost pred = |p: (DiscoveredResource, Option<String>)| is_active(p.0);
    let mut out: Vec<(DiscoveredResource, Option<String>)> = Vec::new();
    let mut i: usize = 0;
    while i < rs.len()
        invariant
            i <= rs@.len(),
            f == (|p: (DiscoveredResource, Option<String>)| (p.0, opt_view(p.1))),
            pred == (|p: (DiscoveredResource, Option<String>)| is_active(p.0)),
            out@.map_values(f) == rs@.take(i as int).filter(pred).map_values(f),
        decreases rs@.len() - i,
    {
        let ghost prev = out@;
        proof {
            reveal(Seq::filter);
            assert(rs@.take(i + 1).drop_last() =~= rs@.take(i as int));
        }
        if !rs[i].0.archived && !rs[i].0.disabled {
            let copy = (rs[i].0.duplicate(), clone_opt(&rs[i].1));
            out.push(copy);
            assert(out@.map_values(f) =~= prev.map_values(f).push(f(rs@[i as int])));
            assert(rs@.take(i + 1).filter(pred) == rs@.take(i as int).filter(pred).push(rs@[i as int]));
            assert(rs@.take(i + 1).filter(pred).map_values(f) =~= rs@.take(i as int).filter(pred).map_values(
                f,
            ).push(f(rs@[i as int])));
        } else {
            assert(rs@.take(i + 1).filter(pred) == rs@.take(i as int).filter(pred));
        }
        i = i + 1;
    }
    assert(rs@.take(rs@.len() as int) =~= rs@);
    out
}

/// How a discovered resource is offered for selection: name, group, and
/// the repository a Vercel project links to.
pub open spec fn selection_text(r: DiscoveredResource, linked: Option<Seq<char>>) -> Seq<char> {
    r.display_name@ + " ("@ + r.group@ + ")"@ + match linked {
        Some(l) => " → "@ + l,
        None => Seq::empty(),
    }
}

/// How a discovered resource is offered for selection.
pub fn selection_label(r: &DiscoveredResource, linked: &Option<String>) -> (s: String)
    ensures
        s@ == selection_text(*r, opt_view(*linked)),
{
    let mut out = owned(r.display_name.as_str());
    push_str(&mut out, " (");
    push_str(&mut out, r.group.as_str());
    push_str(&mut out, ")");
    match linked {
        Some(l) => {
            push_str(&mut out, " → ");
            push_str(&mut out, l.as_str());
        },
        None => {},
    }
    out
}

/// The resources at the chosen positions, in the order chosen.
pub fn picked_resources(rs: &[DiscoveredResource], selections: &[usize]) -> (r: Vec<DiscoveredResource>)
    requires
        forall|k: int| 0 <= k < selections@.len() ==> #[trigger] selections@[k] < rs@.len(),
    ensures
        r@.len() == selections@.len(),
        forall|k: int| 0 <= k < selections@.len() ==> #[trigger] r@[k] == rs@[selections@[k] as int],
{
    let mut out: Vec<DiscoveredResource> = Vec::new();
    let mut k: usize = 0;
    while k < selections.len()
        invariant
            k <= selections@.len(),
            forall|j: int| 0 <= j < selections@.len() ==> #[trigger] selections@[j] < rs@.len(),
            out@.len() == k,
            forall|j: int| 0 <= j < k ==> #[trigger] out@[j] == rs@[selections@[j] as int],
        decreases selections@.len() - k,
    {
        let at = selections[k];
        out.push(rs[at].duplicate());
        k = k + 1;
    }
    out
}

/// The note naming the providers that were skipped for want of a token.
pub fn skipped_notice(skipped: &Vec<String>) -> (r: String)
    ensures
        r@ == "  Skipped (no token): "@ + joined(skipped@, ", "@) + ". Run `pulsos auth <platform>` first."@,
{
    let mut out = owned("  Skipped (no token): ");
    let names = join_strings(skipped, ", ");
    push_str(&mut out, names.as_str());
    push_str(&mut out, ". Run `pulsos auth <platform>` first.");
    out
}

/// The closing line of a sync.
pub fn sync_summary(total: u64, added: u64, updated: u64) -> (r: String)
    ensures
        r@ == "Saved "@ + decimal(total as nat) + " correlations ("@ + decimal(added as nat) + " new, "@
            + decimal(updated as nat) + " updated) to config."@,
{
    let mut out = owned("Saved ");
    push_decimal(&mut out, total);
    push_str(&mut out, " correlations (");
    push_decimal(&mut out, added);
    push_str(&mut out, " new, ");
    push_decimal(&mut out, updated);
    push_str(&mut out, " updated) to config.");
    out
}

/// How sure the automatic matching is that resources belong together.
#[derive(Debug, Clone, Copy, PartialEq, Eq, Structural)]
pub enum MatchConfidence {
    /// A Vercel project links to the GitHub repository.
    LinkedRepo,
    /// The names agree.
    ExactStem,
    /// Nothing else matched.
    Unmatched,
}

impl MatchConfidence {
    pub open spec fn label_of(self) -> Seq<char> {
        match self {
            MatchConfidence::LinkedRepo => "linked"@,
            MatchConfidence::ExactStem => "name match"@,
            MatchConfidence::Unmatched => "standalone"@,
        }
    }

    pub fn label(self) -> (r: &'static str)
        ensures
            r@ == self.label_of(),
    {
        match self {
            MatchConfidence::LinkedRepo => "linked",
            MatchConfidence::ExactStem => "name match",
            MatchConfidence::Unmatched => "standalone",
        }
    }
}

/// A proposed correlation of discovered resources.
#[derive(Debug)]
pub struct CorrelationCandidate {
    pub name: String,
    pub confidence: MatchConfidence,
    pub github: Option<DiscoveredResource>,
    pub railway: Option<DiscoveredResource>,
    pub vercel: Option<DiscoveredResource>,
}

/// The lines presenting the candidate at position `i` (numbered from 1).
pub open spec fn proposal_block(c: CorrelationCandidate, i: nat) -> Seq<Seq<char>> {
    seq!["  "@ + decimal(i + 1) + ". "@ + c.name@ + " ("@ + c.confidence.label_of() + ")"@] + match c.github {
        Some(r) => seq!["     GitHub:  "@ + r.platform_id@],
        None => Seq::empty(),
    } + match c.railway {
        Some(r) => seq!["     Railway: "@ + r.display_name@],
        None => Seq::empty(),
    } + match c.vercel {
        Some(r) => seq!["     Vercel:  "@ + r.display_name@],
        None => Seq::empty(),
    }
}

pub open spec fn proposal_blocks(cs: Seq<CorrelationCandidate>) -> Seq<Seq<char>>
    decreases cs.len(),
{
    if cs.len() == 0 {
        Seq::empty()
    } else {
        proposal_blocks(cs.drop_last()) + proposal_block(cs.last(), (cs.len() - 1) as nat)
    }
}

/// The proposed correlations, as shown before the user accepts them.
pub fn proposal_lines(cs: &[CorrelationCandidate]) -> (r: Vec<String>)
    requires
        cs@.len() < u64::MAX,
    ensures
        texts(r@) == proposal_blocks(cs@),
{
    let mut lines: Vec<String> = Vec::new();
    let mut i: usize = 0;
    assert(cs@.take(0) =~= Seq::<CorrelationCandidate>::empty());
    while i < cs.len()
        invariant
            i <= cs@.len(),
            cs@.len() < u64::MAX,
            texts(lines@) == proposal_blocks(cs@.take(i as int)),
        decreases cs@.len() - i,
    {
        let c = &cs[i];
        let ghost start = texts(lines@);
        let mut head = owned("  ");
        push_decimal(&mut head, (i as u64) + 1);
        push_str(&mut head, ". ");
        push_str(&mut head, c.name.as_str());
        push_str(&mut head, " (");
        push_str(&mut head, c.confidence.label());
        push_str(&mut head, ")");
        push_line(&mut lines, head);
        match &c.github {
            Some(r) => push_line(&mut lines, concat("     GitHub:  ", r.platform_id.as_str())),
            None => {},
        }
        match &c.railway {
            Some(r) => push_line(&mut lines, concat("     Railway: ", r.display_name.as_str())),
            None => {},
        }
        match &c.vercel {
            Some(r) => push_line(&mut lines, concat("     Vercel:  ", r.display_name.as_str())),
            None => {},
        }
        assert(texts(lines@) =~= start + proposal_block(cs@[i as int], i as nat));
        assert(cs@.take(i + 1).drop_last() =~= cs@.take(i as int));
        i = i + 1;
    }
    assert(cs@.take(cs@.len() as int) =~= cs@);
    lines
}


/// A group just created is the one its name finds: when `after` is
/// `before` with one group added at the end, and no group of `before` had
/// that name (ASCII case ignored), the lookup by that name lands on the new
/// group.
pub proof fn created_group_is_found(before: Seq<GroupConfig>, after: Seq<GroupConfig>, name: Seq<char>)
    requires
        after.len() == before.len() + 1,
        after.drop_last() == before,
        after.last().name@ == name,
        forall|j: int| 0 <= j < before.len() ==> !eq_ignore_case(#[trigger] group_names(before)[j], name),
    ensures
        is_first_match(group_names(after), name, before.len() as int),
{
    assert forall|j: int| 0 <= j < before.len() implies !eq_ignore_case(
        #[trigger] group_names(after)[j],
        name,
    ) by {
        assert(after[j] == after.drop_last()[j]);
        assert(group_names(before)[j] == before[j].name@);
    }
}


/// The token-level verdict for Railway or Vercel from its readiness
/// report: usable when ready or only missing access or configuration.
pub open spec fn token_verdict(p: PlatformKind, report: Option<PlatformHealthReport>) -> (Seq<char>, bool) {
    match report {
        Some(r) => if r.state == PlatformHealthState::Ready || r.state == PlatformHealthState::AccessOrConfigIncomplete {
            ("[ok] "@ + p.name_of() + ": "@ + r.reason@, true)
        } else {
            ("[!!] "@ + p.name_of() + ": "@ + r.reason@, false)
        },
        None => ("[--] "@ + p.name_of() + ": no token configured"@, false),
    }
}

/// The token-level verdict for Railway or Vercel.
pub fn token_verdict_line(p: PlatformKind, report: Option<&PlatformHealthReport>) -> (r: (String, bool))
    ensures
        (r.0@, r.1) == token_verdict(
            p,
            match report {
                Some(x) => Some(*x),
                None => None,
            },
        ),
{
    match report {
        Some(rep) => {
            let usable = match rep.state {
                PlatformHealthState::Ready => true,
                PlatformHealthState::AccessOrConfigIncomplete => true,
                _ => false,
            };
            let mut line = owned(if usable { "[ok] " } else { "[!!] " });
            push_str(&mut line, p.display_name());
            push_str(&mut line, ": ");
            push_str(&mut line, rep.reason.as_str());
            (line, usable)
        },
        None => {
            let mut line = owned("[--] ");
            push_str(&mut line, p.display_name());
            push_str(&mut line, ": no token configured");
            (line, false)
        },
    }
}

/// The GitHub verdict line when no token is usable: the readiness report's
/// state and reason, or that no token is configured.
pub open spec fn github_untokened(report: Option<PlatformHealthReport>) -> Seq<char> {
    match report {
        Some(r) => "[--] GitHub: "@ + r.state.label_of() + " ("@ + r.reason@ + ")"@,
        None => "[--] GitHub: no token configured"@,
    }
}

pub fn github_untokened_line(report: Option<&PlatformHealthReport>) -> (r: String)
    ensures
        r@ == github_untokened(
            match report {
                Some(x) => Some(*x),
                None => None,
            },
        ),
{
    match report {
        Some(rep) => {
            let mut line = owned("[--] GitHub: ");
            push_str(&mut line, rep.state.label());
            push_str(&mut line, " (");
            push_str(&mut line, rep.reason.as_str());
            push_str(&mut line, ")");
            line
        },
        None => owned("[--] GitHub: no token configured"),
    }
}

/// Splits `owner/name` at its first `/`.
pub fn split_repo(repo: &str) -> (r: Option<(String, String)>)
    ensures
        match r {
            Some((owner, name)) => exists|i: int|
                #![trigger repo@.take(i)]
                0 <= i < repo@.len() && repo@[i] == '/' && (forall|j: int| 0 <= j < i ==> repo@[j] != '/') && owner@
                    == repo@.take(i) && name@ == repo@.skip(i + 1),
            None => forall|j: int| 0 <= j < repo@.len() ==> repo@[j] != '/',
        },
{
    let n = char_count(repo);
    let mut k: usize = 0;
    while k < n && char_at(repo, k) != '/'
        invariant
            k <= n,
            n == repo@.len(),
            forall|j: int| 0 <= j < k ==> repo@[j] != '/',
        decreases n - k,
    {
        k = k + 1;
    }
    if k == n {
        return None;
    }
    let owner = substring(repo, 0, k);
    let name = substring(repo, k + 1, n);
    assert(owner@ == repo@.take(k as int));
    assert(name@ == repo@.skip(k + 1));
    Some((owner, name))
}

/// What checking access to a tracked GitHub repository came to.
#[derive(Debug)]
pub enum RepoAccess {
    /// No usable GitHub token.
    NoToken,
    /// The name is not `owner/name`.
    Malformed,
    /// The account's permission on the repository.
    Permission(String),
    /// The check failed with this message.
    Failed(String),
}

/// The line for one tracked GitHub repository.
pub open spec fn repo_access_text(repo: Seq<char>, access: RepoAccess) -> Seq<char> {
    match access {
        RepoAccess::NoToken => "    [--] GitHub:"@ + repo + "  (no token)"@,
        RepoAccess::Malformed => "    [!!] GitHub:"@ + repo + "  (malformed repo name)"@,
        RepoAccess::Permission(p) => "    [ok] GitHub:"@ + repo + "  (permission: "@ + p@ + ")"@,
        RepoAccess::Failed(m) => "    [!!] GitHub:"@ + repo + "  "@ + m@,
    }
}

pub fn repo_access_line(repo: &str, access: &RepoAccess) -> (r: String)
    ensures
        r@ == repo_access_text(repo@, *access),
{
    let mut line = owned(
        match access {
            RepoAccess::NoToken => "    [--] GitHub:",
            RepoAccess::Malformed => "    [!!] GitHub:",
            RepoAccess::Permission(_) => "    [ok] GitHub:",
            RepoAccess::Failed(_) => "    [!!] GitHub:",
        },
    );
    push_str(&mut line, repo);
    match access {
        RepoAccess::NoToken => push_str(&mut line, "  (no token)"),
        RepoAccess::Malformed => push_str(&mut line, "  (malformed repo name)"),
        RepoAccess::Permission(p) => {
            push_str(&mut line, "  (permission: ");
            push_str(&mut line, p.as_str());
            push_str(&mut line, ")");
        },
        RepoAccess::Failed(m) => {
            push_str(&mut line, "  ");
            push_str(&mut line, m.as_str());
        },
    }
    line
}

/// The line for a tracked Railway project or Vercel project: the token
/// verdict decides, as no per-project check is made.
pub open spec fn project_access_text(p: PlatformKind, project: Seq<char>, token_ok: bool, has_token: bool) -> Seq<char> {
    if token_ok {
        "    [ok] "@ + p.name_of() + ":"@ + project
    } else if !has_token {
        "    [--] "@ + p.name_of() + ":"@ + project + "  (no token)"@
    } else {
        "    [!!] "@ + p.name_of() + ":"@ + project + "  (auth failed)"@
    }
}

pub fn project_access_line(p: PlatformKind, project: &str, token_ok: bool, has_token: bool) -> (r: String)
    ensures
        r@ == project_access_text(p, project@, token_ok, has_token),
{
    let mut line = owned(
        if token_ok {
            "    [ok] "
        } else if !has_token {
            "    [--] "
        } else {
            "    [!!] "
        },
    );
    push_str(&mut line, p.display_name());
    push_str(&mut line, ":");
    push_str(&mut line, project);
    if !token_ok {
        push_str(&mut line, if !has_token { "  (no token)" } else { "  (auth failed)" });
    }
    line
}


/// What was added can be removed: after a resource is filed under a
/// project (into an existing correlation or a new one), some correlation
/// names it, so removing it succeeds.
pub proof fn added_resource_is_tracked(
    before: Seq<CorrFields>,
    after: Seq<CorrFields>,
    names: Seq<Seq<char>>,
    platform: Seq<char>,
    id: Seq<char>,
    name: Seq<char>,
)
    requires
        is_platform_name(platform),
        names.len() == before.len(),
        (exists|i: int| #[trigger] is_first_match(names, name, i) && after == before.update(i, with_resource(before[i], platform, id)))
            || after == before.push(with_resource(fresh_fields(name), platform, id)),
    ensures
        exists|j: int| 0 <= j < after.len() && resource_of(#[trigger] after[j], platform) == Some(id),
{
    if exists|i: int| #[trigger] is_first_match(names, name, i) && after == before.update(i, with_resource(before[i], platform, id)) {
        let i = choose|i: int| #[trigger] is_first_match(names, name, i) && after == before.update(i, with_resource(before[i], platform, id));
        assert(resource_of(after[i], platform) == Some(id));
    } else {
        let j = before.len() as int;
        assert(resource_of(after[j], platform) == Some(id));
    }
}

} // verus!
