//! Decisions of the `status` command: live or one-shot mode, which saved
//! view applies, which providers and projects are in scope.

use vstd::prelude::*;
use crate::config::{
    eq_ignore_ascii_case, eq_ignore_case, find_view, is_first_match, opt_view, view_names,
    CorrelationConfig, PlatformResources, ViewConfig, github_resources, railway_resources,
    vercel_resources, resources_view,
};
use crate::text::{contains, contains_str, lower, owned, push_str, to_lower};

verus! {

/// Output format of one-shot status output.
#[derive(Debug, Clone, Copy, PartialEq, Eq, Structural)]
pub enum OutputFormat {
    Table,
    Json,
    Compact,
}

/// Arguments of the `status` command.
#[derive(Debug)]
pub struct StatusArgs {
    /// Filter to a specific project.
    pub project: Option<String>,
    /// Filter to one platform.
    pub platform: Option<String>,
    /// Use a saved view.
    pub view: Option<String>,
    /// Filter by branch pattern.
    pub branch: Option<String>,
    /// Live-updating TUI mode.
    pub watch: bool,
    /// Force one-shot output.
    pub once: bool,
}

/// Whether status runs the live dashboard or prints once.
#[derive(Debug, Clone, Copy, PartialEq, Eq, Structural)]
pub enum RunMode {
    Live,
    Once,
}

/// Why the status command cannot run as asked.
#[derive(Debug, Clone, PartialEq, Eq)]
pub enum StatusError {
    /// `--watch` was given but stdout is not a terminal.
    WatchNeedsTerminal,
    /// The named saved view does not exist.
    ViewNotFound(String),
}

impl StatusError {
    /// The message shown to the user.
    pub fn message(&self) -> (r: String)
        ensures
            r@ == (match self {
                StatusError::WatchNeedsTerminal => "`--watch` requires an interactive terminal (TTY)."@,
                StatusError::ViewNotFound(name) => "Saved view not found: "@ + name@,
            }),
    {
        match self {
            StatusError::WatchNeedsTerminal => owned("`--watch` requires an interactive terminal (TTY)."),
            StatusError::ViewNotFound(name) => {
                let mut m = owned("Saved view not found: ");
                push_str(&mut m, name.as_str());
                m
            },
        }
    }
}

/// The run mode the arguments, the format and the terminal call for.
pub open spec fn run_mode_of(watch: bool, once: bool, format: OutputFormat, tty: bool) -> Result<RunMode, StatusError> {
    if watch {
        if !tty {
            Err(StatusError::WatchNeedsTerminal)
        } else {
            Ok(RunMode::Live)
        }
    } else if once || !tty || format != OutputFormat::Table {
        Ok(RunMode::Once)
    } else {
        Ok(RunMode::Live)
    }
}

/// Live mode needs `--watch` on a terminal, or a table on a terminal
/// without `--once`; `--watch` without a terminal is refused.
pub fn resolve_run_mode(args: &StatusArgs, format: OutputFormat, stdout_is_tty: bool) -> (r: Result<RunMode, StatusError>)
    ensures
        r == run_mode_of(args.watch, args.once, format, stdout_is_tty),
{
    if args.watch {
        if !stdout_is_tty {
            return Err(StatusError::WatchNeedsTerminal);
        }
        return Ok(RunMode::Live);
    }
    if args.once {
        return Ok(RunMode::Once);
    }
    if !stdout_is_tty {
        return Ok(RunMode::Once);
    }
    if format != OutputFormat::Table {
        return Ok(RunMode::Once);
    }
    Ok(RunMode::Live)
}

/// The saved view the arguments name, if any.
pub fn select_view(args: &StatusArgs, views: &[ViewConfig]) -> (r: Result<Option<usize>, StatusError>)
    ensures
        match args.view {
            None => r == Ok::<Option<usize>, StatusError>(None),
            Some(name) => match r {
                Ok(Some(i)) => is_first_match(view_names(views@), name@, i as int),
                Ok(None) => false,
                Err(e) => e matches StatusError::ViewNotFound(n) && n@ == name@
                    && forall|j: int| 0 <= j < views@.len() ==> !eq_ignore_case(#[trigger] view_names(views@)[j], name@),
            },
        },
{
    match &args.view {
        None => Ok(None),
        Some(name) => match find_view(views, name.as_str()) {
            Some(i) => Ok(Some(i)),
            None => Err(StatusError::ViewNotFound(name.clone())),
        },
    }
}

/// The branch filter: the argument's, else the view's.
pub fn branch_filter(args: &StatusArgs, view: Option<&ViewConfig>) -> (r: Option<String>)
    ensures
        opt_view(r) == (if args.branch is Some {
            opt_view(args.branch)
        } else {
            match view {
                Some(v) => opt_view(v.branch_filter),
                None => None,
            }
        }),
{
    if let Some(b) = &args.branch {
        Some(b.clone())
    } else if let Some(v) = view {
        crate::config::clone_opt(&v.branch_filter)
    } else {
        None
    }
}

/// Some element of `names` equals `name` ignoring ASCII case.
pub open spec fn any_eq_ignore_case(names: Seq<String>, name: Seq<char>) -> bool {
    exists|j: int| 0 <= j < names.len() && eq_ignore_case(#[trigger] names[j]@, name)
}

pub fn contains_ignore_case(names: &Vec<String>, name: &str) -> (r: bool)
    ensures
        r == any_eq_ignore_case(names@, name@),
{
    let mut i: usize = 0;
    while i < names.len()
        invariant
            i <= names@.len(),
            forall|j: int| 0 <= j < i ==> !eq_ignore_case(#[trigger] names@[j]@, name@),
        decreases names@.len() - i,
    {
        if eq_ignore_ascii_case(names[i].as_str(), name) {
            return true;
        }
        i = i + 1;
    }
    false
}

/// Whether a provider is fetched: the platform argument decides when
/// given, else a view with platforms listed, else every provider is.
pub open spec fn fetch_wanted(platform_arg: Option<Seq<char>>, view: Option<ViewConfig>, platform: Seq<char>) -> bool {
    match platform_arg {
        Some(p) => eq_ignore_case(p, platform),
        None => match view {
            Some(v) => v.platforms@.len() == 0 || any_eq_ignore_case(v.platforms@, platform),
            None => true,
        },
    }
}

pub fn should_fetch(args: &StatusArgs, view: Option<&ViewConfig>, platform: &str) -> (r: bool)
    ensures
        r == fetch_wanted(opt_view(args.platform), match view {
            Some(v) => Some(*v),
            None => None,
        }, platform@),
{
    if let Some(p) = &args.platform {
        return eq_ignore_ascii_case(p.as_str(), platform);
    }
    if let Some(v) = view {
        if v.platforms.len() > 0 {
            return contains_ignore_case(&v.platforms, platform);
        }
    }
    true
}

/// Whether a correlation is in scope: its name must contain the project
/// argument (ASCII case ignored), and be listed by a view that lists
/// projects.
pub open spec fn in_scope(project_arg: Option<Seq<char>>, view: Option<ViewConfig>, name: Seq<char>) -> bool {
    (match project_arg {
        Some(p) => contains(lower(name), lower(p)),
        None => true,
    }) && match view {
        Some(v) => v.projects@.len() == 0 || any_eq_ignore_case(v.projects@, name),
        None => true,
    }
}

pub fn correlation_in_scope(args: &StatusArgs, view: Option<&ViewConfig>, name: &str) -> (r: bool)
    ensures
        r == in_scope(opt_view(args.project), match view {
            Some(v) => Some(*v),
            None => None,
        }, name@),
{
    if let Some(project) = &args.project {
        let needle = to_lower(project.as_str());
        let hay = to_lower(name);
        if !contains_str(hay.as_str(), needle.as_str()) {
            return false;
        }
    }
    if let Some(v) = view {
        if v.projects.len() > 0 {
            return contains_ignore_case(&v.projects, name);
        }
    }
    true
}

/// The correlations in scope, in order.
pub open spec fn scoped(cs: Seq<CorrelationConfig>, project_arg: Option<Seq<char>>, view: Option<ViewConfig>) -> Seq<CorrelationConfig> {
    cs.filter(|c: CorrelationConfig| in_scope(project_arg, view, c.name@))
}

/// Tracked resources of the correlations that the arguments and the view
/// keep in scope.
pub fn scoped_resources(args: &StatusArgs, view: Option<&ViewConfig>, correlations: &[CorrelationConfig]) -> (r: PlatformResources)
    ensures
        ({
            let kept = scoped(correlations@, opt_view(args.project), match view {
                Some(v) => Some(*v),
                None => None,
            });
            &&& resources_view(r.github@) == github_resources(kept)
            &&& resources_view(r.railway@) == railway_resources(kept)
            &&& resources_view(r.vercel@) == vercel_resources(kept)
        }),
{
    let ghost vo = match view {
        Some(v) => Some(*v),
        None => None,
    };
    let ghost pred = |c: CorrelationConfig| in_scope(opt_view(args.project), vo, c.name@);
    let mut r = PlatformResources::empty();
    let mut i: usize = 0;
    while i < correlations.len()
        invariant
            i <= correlations@.len(),
            pred == (|c: CorrelationConfig| in_scope(opt_view(args.project), vo, c.name@)),
            vo == (match view {
                Some(v) => Some(*v),
                None => None::<ViewConfig>,
            }),
            resources_view(r.github@) == github_resources(correlations@.take(i as int).filter(pred)),
            resources_view(r.railway@) == railway_resources(correlations@.take(i as int).filter(pred)),
            resources_view(r.vercel@) == vercel_resources(correlations@.take(i as int).filter(pred)),
        decreases correlations@.len() - i,
    {
        let keep = correlation_in_scope(args, view, correlations[i].name.as_str());
        let ghost before = correlations@.take(i as int).filter(pred);
        if keep {
            r.add_correlation(&correlations[i]);
        }
        i = i + 1;
        proof {
            let t = correlations@.take(i as int);
            assert(t.drop_last() =~= correlations@.take((i - 1) as int));
            reveal(Seq::filter);
            if keep {
                assert(t.filter(pred) == before.push(correlations@[i - 1]));
                assert(t.filter(pred).drop_last() =~= before);
            } else {
                assert(t.filter(pred) == before);
            }
        }
    }
    assert(correlations@.take(i as int) =~= correlations@);
    r
}

/// The command-line name of a provider.
pub open spec fn command_name(p: crate::domain::PlatformKind) -> Seq<char> {
    match p {
        crate::domain::PlatformKind::GitHub => "github"@,
        crate::domain::PlatformKind::Railway => "railway"@,
        crate::domain::PlatformKind::Vercel => "vercel"@,
    }
}

/// The warning printed for a provider with tracked resources but no token.
pub fn missing_token_warning(p: crate::domain::PlatformKind) -> (r: String)
    ensures
        r@ == p.name_of() + ": no token found. Run `pulsos auth "@ + command_name(p) + "` to authenticate."@,
{
    let mut m = owned(p.display_name());
    push_str(&mut m, ": no token found. Run `pulsos auth ");
    push_str(
        &mut m,
        match p {
            crate::domain::PlatformKind::GitHub => "github",
            crate::domain::PlatformKind::Railway => "railway",
            crate::domain::PlatformKind::Vercel => "vercel",
        },
    );
    push_str(&mut m, "` to authenticate.");
    m
}

} // verus!
