//! Saved views: checking names, reading the answers of the create and edit
//! dialogues into a view, and the listings shown for views.

use vstd::prelude::*;
use crate::app::{join_strings, joined};
use crate::config::{CorrelationConfig, eq_ignore_ascii_case, eq_ignore_case, find_view, is_first_match, opt_view, view_names, ViewConfig};
use crate::sorting::{push_line, texts};
use crate::text::{
    char_at, char_count, concat, decimal, owned, pad_right, padded_right, push_char, push_decimal, push_repeat, push_str,
    repeat, trim, trimmed,
};

verus! {

/// Why a view command was refused.
#[derive(Debug)]
pub enum ViewError {
    /// No view has that name; `with_hint` adds where to look.
    NotFound { name: String, with_hint: bool },
    /// The name is empty once trimmed.
    EmptyName,
    /// Another view has that name (ASCII case ignored).
    Exists { name: String },
}

impl ViewError {
    pub open spec fn message_of(&self) -> Seq<char> {
        match self {
            ViewError::NotFound { name, with_hint } => "View '"@ + name@ + if *with_hint {
                "' not found. Run `pulsos views list` to see available views."@
            } else {
                "' not found."@
            },
            ViewError::EmptyName => "View name cannot be empty."@,
            ViewError::Exists { name } => "A view named '"@ + name@ + "' already exists."@,
        }
    }

    /// The text shown to the user.
    pub fn message(&self) -> (r: String)
        ensures
            r@ == self.message_of(),
    {
        match self {
            ViewError::NotFound { name, with_hint } => {
                let mut out = owned("View '");
                push_str(&mut out, name.as_str());
                if *with_hint {
                    push_str(&mut out, "' not found. Run `pulsos views list` to see available views.");
                } else {
                    push_str(&mut out, "' not found.");
                }
                out
            },
            ViewError::EmptyName => owned("View name cannot be empty."),
            ViewError::Exists { name } => {
                let mut out = owned("A view named '");
                push_str(&mut out, name.as_str());
                push_str(&mut out, "' already exists.");
                out
            },
        }
    }
}

/// Position of the view named `name`, or the error naming it.
pub fn locate_view(views: &[ViewConfig], name: &str, with_hint: bool) -> (r: Result<usize, ViewError>)
    ensures
        match r {
            Ok(i) => is_first_match(view_names(views@), name@, i as int),
            Err(ViewError::NotFound { name: n, with_hint: h }) => {
                &&& n@ == name@
                &&& h == with_hint
                &&& forall|j: int| 0 <= j < views@.len() ==> !eq_ignore_case(#[trigger] view_names(views@)[j], name@)
            },
            Err(_) => false,
        },
{
    match find_view(views, name) {
        Some(i) => Ok(i),
        None => Err(ViewError::NotFound { name: owned(name), with_hint }),
    }
}

/// Whether some view has the name `name` (ASCII case ignored).
pub open spec fn name_taken(views: Seq<ViewConfig>, name: Seq<char>) -> bool {
    exists|j: int| 0 <= j < views.len() && eq_ignore_case(#[trigger] view_names(views)[j], name)
}

/// The name for a new view: the answer trimmed, which must not be empty nor
/// the name of another view.
pub fn check_new_name(views: &[ViewConfig], answer: &str) -> (r: Result<String, ViewError>)
    ensures
        match r {
            Ok(name) => name@ == trimmed(answer@) && name@.len() > 0 && !name_taken(views@, name@),
            Err(ViewError::EmptyName) => trimmed(answer@).len() == 0,
            Err(ViewError::Exists { name }) => {
                &&& name@ == trimmed(answer@)
                &&& name@.len() > 0
                &&& name_taken(views@, name@)
            },
            Err(_) => false,
        },
{
    let name = trim(answer);
    if char_count(name.as_str()) == 0 {
        return Err(ViewError::EmptyName);
    }
    match find_view(views, name.as_str()) {
        Some(i) => {
            assert(eq_ignore_case(view_names(views@)[i as int], name@));
            Err(ViewError::Exists { name })
        },
        None => Ok(name),
    }
}

/// The new name of an edited view: the answer trimmed, not empty, and, when
/// it is not the view's own name (ASCII case ignored), not another view's.
pub fn check_renamed(views: &[ViewConfig], current: &str, answer: &str) -> (r: Result<String, ViewError>)
    ensures
        match r {
            Ok(name) => {
                &&& name@ == trimmed(answer@)
                &&& name@.len() > 0
                &&& (eq_ignore_case(name@, current@) || !name_taken(views@, name@))
            },
            Err(ViewError::EmptyName) => trimmed(answer@).len() == 0,
            Err(ViewError::Exists { name }) => {
                &&& name@ == trimmed(answer@)
                &&& name@.len() > 0
                &&& !eq_ignore_case(name@, current@)
                &&& name_taken(views@, name@)
            },
            Err(_) => false,
        },
{
    let name = trim(answer);
    if char_count(name.as_str()) == 0 {
        return Err(ViewError::EmptyName);
    }
    if eq_ignore_ascii_case(name.as_str(), current) {
        return Ok(name);
    }
    match find_view(views, name.as_str()) {
        Some(i) => {
            assert(eq_ignore_case(view_names(views@)[i as int], name@));
            Err(ViewError::Exists { name })
        },
        None => Ok(name),
    }
}

/// An optional answer: trimmed, and nothing when that leaves nothing.
pub open spec fn optional_answer(s: Seq<char>) -> Option<Seq<char>> {
    if trimmed(s).len() == 0 {
        None
    } else {
        Some(trimmed(s))
    }
}

pub fn read_optional(answer: &str) -> (r: Option<String>)
    ensures
        opt_view(r) == optional_answer(answer@),
{
    let t = trim(answer);
    if char_count(t.as_str()) == 0 {
        None
    } else {
        Some(t)
    }
}

/// The pieces of `s` between commas (`str::split(',')`).
pub open spec fn split_commas(s: Seq<char>) -> Seq<Seq<char>>
    decreases s.len(),
{
    if s.len() == 0 {
        seq![Seq::empty()]
    } else if s.last() == ',' {
        split_commas(s.drop_last()).push(Seq::empty())
    } else {
        let p = split_commas(s.drop_last());
        p.update(p.len() - 1, p.last().push(s.last()))
    }
}

proof fn lemma_split_nonempty(s: Seq<char>)
    ensures
        split_commas(s).len() >= 1,
    decreases s.len(),
{
    if s.len() > 0 {
        lemma_split_nonempty(s.drop_last());
    }
}

/// The projects named in a comma-separated answer: each piece trimmed,
/// empty pieces dropped.
pub open spec fn project_list(s: Seq<char>) -> Seq<Seq<char>> {
    split_commas(s).map_values(|p: Seq<char>| trimmed(p)).filter(|p: Seq<char>| p.len() > 0)
}

proof fn lemma_filter_push(s: Seq<Seq<char>>, x: Seq<char>)
    ensures
        s.push(x).filter(|p: Seq<char>| p.len() > 0) == if x.len() > 0 {
            s.filter(|p: Seq<char>| p.len() > 0).push(x)
        } else {
            s.filter(|p: Seq<char>| p.len() > 0)
        },
{
    reveal(Seq::filter);
    assert(s.push(x).drop_last() =~= s);
}

/// The projects named in a comma-separated answer.
pub fn split_projects(answer: &str) -> (r: Vec<String>)
    ensures
        texts(r@) == project_list(answer@),
{
    let n = char_count(answer);
    let mut out: Vec<String> = Vec::new();
    let mut current = String::new();
    let mut k: usize = 0;
    assert(answer@.take(0) =~= Seq::<char>::empty());
    while k < n
        invariant
            k <= n,
            n == answer@.len(),
            split_commas(answer@.take(k as int)).len() >= 1,
            current@ == split_commas(answer@.take(k as int)).last(),
            texts(out@) == split_commas(answer@.take(k as int)).drop_last().map_values(
                |p: Seq<char>| trimmed(p),
            ).filter(|p: Seq<char>| p.len() > 0),
        decreases n - k,
    {
        let c = char_at(answer, k);
        let ghost before = split_commas(answer@.take(k as int));
        assert(answer@.take(k + 1).drop_last() =~= answer@.take(k as int));
        if c == ',' {
            let piece = trim(current.as_str());
            let ghost prev = texts(out@);
            if char_count(piece.as_str()) > 0 {
                out.push(piece);
                assert(texts(out@) =~= prev.push(trimmed(before.last())));
            }
            current = String::new();
            proof {
                let after = split_commas(answer@.take(k + 1));
                assert(after == before.push(Seq::empty()));
                assert(after.drop_last() =~= before);
                assert(before.map_values(|p: Seq<char>| trimmed(p)) =~= before.drop_last().map_values(
                    |p: Seq<char>| trimmed(p),
                ).push(trimmed(before.last())));
                lemma_filter_push(before.drop_last().map_values(|p: Seq<char>| trimmed(p)), trimmed(before.last()));
            }
        } else {
            push_char(&mut current, c);
            proof {
                let after = split_commas(answer@.take(k + 1));
                assert(after == before.update(before.len() - 1, before.last().push(c)));
                assert(after.drop_last() =~= before.drop_last());
            }
        }
        k = k + 1;
    }
    let piece = trim(current.as_str());
    let ghost all = split_commas(answer@.take(n as int));
    let ghost prev = texts(out@);
    if char_count(piece.as_str()) > 0 {
        out.push(piece);
        assert(texts(out@) =~= prev.push(trimmed(all.last())));
    }
    proof {
        assert(answer@.take(n as int) =~= answer@);
        assert(all.map_values(|p: Seq<char>| trimmed(p)) =~= all.drop_last().map_values(|p: Seq<char>| trimmed(p)).push(
            trimmed(all.last()),
        ));
        assert(all =~= all.drop_last().push(all.last()));
        lemma_filter_push(all.drop_last().map_values(|p: Seq<char>| trimmed(p)), trimmed(all.last()));
    }
    out
}


/// The providers a view can be limited to, in the order they are offered.
pub open spec fn platform_option(i: int) -> Seq<char> {
    if i == 0 {
        "github"@
    } else if i == 1 {
        "railway"@
    } else {
        "vercel"@
    }
}

fn platform_option_exec(i: usize) -> (r: &'static str)
    requires
        i < 3,
    ensures
        r@ == platform_option(i as int),
{
    if i == 0 {
        "github"
    } else if i == 1 {
        "railway"
    } else {
        "vercel"
    }
}

/// The providers at the chosen positions of the offered list.
pub fn chosen_platforms(selections: &[usize]) -> (r: Vec<String>)
    requires
        forall|k: int| 0 <= k < selections@.len() ==> #[trigger] selections@[k] < 3,
    ensures
        texts(r@) == selections@.map_values(|i: usize| platform_option(i as int)),
{
    let mut out: Vec<String> = Vec::new();
    let mut k: usize = 0;
    while k < selections.len()
        invariant
            k <= selections@.len(),
            forall|j: int| 0 <= j < selections@.len() ==> #[trigger] selections@[j] < 3,
            texts(out@) == selections@.take(k as int).map_values(|i: usize| platform_option(i as int)),
        decreases selections@.len() - k,
    {
        let ghost prev = out@;
        out.push(owned(platform_option_exec(selections[k])));
        assert(texts(out@) =~= texts(prev).push(platform_option(selections@[k as int] as int)));
        assert(selections@.take(k + 1).map_values(|i: usize| platform_option(i as int)) =~= selections@.take(
            k as int,
        ).map_values(|i: usize| platform_option(i as int)).push(platform_option(selections@[k as int] as int)));
        k = k + 1;
    }
    assert(selections@.take(selections@.len() as int) =~= selections@);
    out
}

fn has_text(v: &Vec<String>, t: &str) -> (r: bool)
    ensures
        r == texts(v@).contains(t@),
{
    let mut i: usize = 0;
    while i < v.len()
        invariant
            i <= v@.len(),
            forall|j: int| 0 <= j < i ==> v@[j]@ != t@,
        decreases v@.len() - i,
    {
        if crate::text::str_eq(v[i].as_str(), t) {
            assert(texts(v@)[i as int] == t@);
            return true;
        }
        i = i + 1;
    }
    assert(!texts(v@).contains(t@)) by {
        if texts(v@).contains(t@) {
            let j = choose|j: int| 0 <= j < texts(v@).len() && texts(v@)[j] == t@;
            assert(v@[j]@ == t@);
        }
    }
    false
}

/// Which offered providers an edited view starts with selected.
pub fn platform_defaults(existing: &Vec<String>) -> (r: Vec<bool>)
    ensures
        r@ == seq![
            texts(existing@).contains("github"@),
            texts(existing@).contains("railway"@),
            texts(existing@).contains("vercel"@),
        ],
{
    let mut out: Vec<bool> = Vec::new();
    out.push(has_text(existing, "github"));
    out.push(has_text(existing, "railway"));
    out.push(has_text(existing, "vercel"));
    assert(out@ =~= seq![
        texts(existing@).contains("github"@),
        texts(existing@).contains("railway"@),
        texts(existing@).contains("vercel"@),
    ]);
    out
}

/// A copy of a list of texts.
pub fn copy_texts(v: &Vec<String>) -> (r: Vec<String>)
    ensures
        texts(r@) == texts(v@),
{
    let mut out: Vec<String> = Vec::new();
    let mut i: usize = 0;
    while i < v.len()
        invariant
            i <= v@.len(),
            texts(out@) == texts(v@).take(i as int),
        decreases v@.len() - i,
    {
        let ghost prev = out@;
        out.push(v[i].clone());
        assert(texts(out@) =~= texts(prev).push(v@[i as int]@));
        assert(texts(v@).take(i + 1) =~= texts(v@).take(i as int).push(v@[i as int]@));
        i = i + 1;
    }
    assert(texts(v@).take(v@.len() as int) =~= texts(v@));
    out
}

/// A new view from the answers of the create dialogue: no status filter,
/// a five-second refresh, previews left out.
pub fn new_view(name: String, description: &str, selections: &[usize], projects: &str, branch: &str) -> (r: ViewConfig)
    requires
        forall|k: int| 0 <= k < selections@.len() ==> #[trigger] selections@[k] < 3,
    ensures
        r.name@ == name@,
        opt_view(r.description) == optional_answer(description@),
        texts(r.platforms@) == selections@.map_values(|i: usize| platform_option(i as int)),
        texts(r.projects@) == project_list(projects@),
        opt_view(r.branch_filter) == optional_answer(branch@),
        r.status_filter@.len() == 0,
        r.refresh_interval == 5,
        !r.vercel_include_previews,
{
    ViewConfig {
        name,
        description: read_optional(description),
        projects: split_projects(projects),
        platforms: chosen_platforms(selections),
        branch_filter: read_optional(branch),
        status_filter: Vec::new(),
        refresh_interval: 5,
        vercel_include_previews: false,
    }
}

/// A view after the edit dialogue: name, description, providers, projects
/// and branch from the answers; status filter, refresh and previews kept.
pub fn edited_view(
    existing: &ViewConfig,
    name: String,
    description: &str,
    selections: &[usize],
    projects: &str,
    branch: &str,
) -> (r: ViewConfig)
    requires
        forall|k: int| 0 <= k < selections@.len() ==> #[trigger] selections@[k] < 3,
    ensures
        r.name@ == name@,
        opt_view(r.description) == optional_answer(description@),
        texts(r.platforms@) == selections@.map_values(|i: usize| platform_option(i as int)),
        texts(r.projects@) == project_list(projects@),
        opt_view(r.branch_filter) == optional_answer(branch@),
        texts(r.status_filter@) == texts(existing.status_filter@),
        r.refresh_interval == existing.refresh_interval,
        r.vercel_include_previews == existing.vercel_include_previews,
{
    ViewConfig {
        name,
        description: read_optional(description),
        projects: split_projects(projects),
        platforms: chosen_platforms(selections),
        branch_filter: read_optional(branch),
        status_filter: copy_texts(&existing.status_filter),
        refresh_interval: existing.refresh_interval,
        vercel_include_previews: existing.vercel_include_previews,
    }
}


/// Texts joined by ", ", or `none` when there are none.
pub open spec fn listed(v: Seq<String>, none: Seq<char>) -> Seq<char> {
    if v.len() == 0 {
        none
    } else {
        joined(v, ", "@)
    }
}

fn push_listed(out: &mut String, v: &Vec<String>, none: &str)
    ensures
        final(out)@ == old(out)@ + listed(v@, none@),
{
    if v.len() == 0 {
        push_str(out, none);
    } else {
        let j = join_strings(v, ", ");
        push_str(out, j.as_str());
    }
}

fn push_opt(out: &mut String, o: &Option<String>, none: &str)
    ensures
        final(out)@ == old(out)@ + crate::repos::or_text(opt_view(*o), none@),
{
    match o {
        Some(v) => push_str(out, v.as_str()),
        None => push_str(out, none),
    }
}

/// One row of the view listing.
pub open spec fn view_row(v: ViewConfig) -> Seq<char> {
    pad_right(v.name@, 20) + "  "@ + pad_right(crate::repos::or_text(opt_view(v.description), "-"@), 30) + "  "@
        + pad_right(listed(v.projects@, "all"@), 20) + "  "@ + pad_right(listed(v.platforms@, "all"@), 20) + "  "@
        + crate::repos::or_text(opt_view(v.branch_filter), "-"@)
}

/// The listing of the saved views.
pub open spec fn view_listing(vs: Seq<ViewConfig>) -> Seq<Seq<char>> {
    if vs.len() == 0 {
        seq!["No views configured. Run `pulsos views create` to add one."@]
    } else {
        seq![
            pad_right("Name"@, 20) + "  "@ + pad_right("Description"@, 30) + "  "@ + pad_right("Projects"@, 20)
                + "  "@ + pad_right("Platforms"@, 20) + "  "@ + "Branch"@,
            repeat("─"@, 100),
        ] + vs.map_values(|v: ViewConfig| view_row(v))
    }
}

fn push_padded(out: &mut String, s: &str, width: usize)
    ensures
        final(out)@ == old(out)@ + pad_right(s@, width as nat),
{
    let p = padded_right(s, width);
    push_str(out, p.as_str());
}

/// The listing of the saved views, one line per entry.
pub fn view_list_lines(vs: &[ViewConfig]) -> (r: Vec<String>)
    ensures
        texts(r@) == view_listing(vs@),
{
    let mut lines: Vec<String> = Vec::new();
    if vs.len() == 0 {
        push_line(&mut lines, owned("No views configured. Run `pulsos views create` to add one."));
        assert(texts(lines@) =~= view_listing(vs@));
        return lines;
    }
    let mut header = String::new();
    push_padded(&mut header, "Name", 20);
    push_str(&mut header, "  ");
    push_padded(&mut header, "Description", 30);
    push_str(&mut header, "  ");
    push_padded(&mut header, "Projects", 20);
    push_str(&mut header, "  ");
    push_padded(&mut header, "Platforms", 20);
    push_str(&mut header, "  ");
    push_str(&mut header, "Branch");
    push_line(&mut lines, header);
    let mut rule = String::new();
    push_repeat(&mut rule, "─", 100);
    push_line(&mut lines, rule);
    let ghost head = texts(lines@);
    let mut i: usize = 0;
    while i < vs.len()
        invariant
            i <= vs@.len(),
            texts(lines@) == head + vs@.take(i as int).map_values(|v: ViewConfig| view_row(v)),
        decreases vs@.len() - i,
    {
        let v = &vs[i];
        let mut row = String::new();
        push_padded(&mut row, v.name.as_str(), 20);
        push_str(&mut row, "  ");
        let mut desc = String::new();
        push_opt(&mut desc, &v.description, "-");
        push_padded(&mut row, desc.as_str(), 30);
        push_str(&mut row, "  ");
        let mut projects = String::new();
        push_listed(&mut projects, &v.projects, "all");
        push_padded(&mut row, projects.as_str(), 20);
        push_str(&mut row, "  ");
        let mut platforms = String::new();
        push_listed(&mut platforms, &v.platforms, "all");
        push_padded(&mut row, platforms.as_str(), 20);
        push_str(&mut row, "  ");
        push_opt(&mut row, &v.branch_filter, "-");
        push_line(&mut lines, row);
        assert(vs@.take(i + 1).map_values(|v: ViewConfig| view_row(v)) =~= vs@.take(i as int).map_values(
            |v: ViewConfig| view_row(v),
        ).push(view_row(vs@[i as int])));
        i = i + 1;
    }
    assert(vs@.take(vs@.len() as int) =~= vs@);
    assert(texts(lines@) =~= view_listing(vs@));
    lines
}

/// A line shown only when the field is set.
pub open spec fn line_if(o: Option<Seq<char>>, label: Seq<char>) -> Seq<Seq<char>> {
    match o {
        Some(v) => seq![label + v],
        None => Seq::empty(),
    }
}

/// The details of one view.
pub open spec fn view_details(v: ViewConfig) -> Seq<Seq<char>> {
    seq!["View: "@ + v.name@, repeat("─"@, 44)] + line_if(opt_view(v.description), "  Description:  "@) + seq![
        "  Projects:     "@ + listed(v.projects@, "(all)"@),
        "  Platforms:    "@ + listed(v.platforms@, "(all)"@),
    ] + line_if(opt_view(v.branch_filter), "  Branch:       "@) + if v.status_filter@.len() == 0 {
        Seq::empty()
    } else {
        seq!["  Statuses:     "@ + joined(v.status_filter@, ", "@)]
    } + seq!["  Refresh:      "@ + decimal(v.refresh_interval as nat) + "s"@]
}

fn push_line_if(lines: &mut Vec<String>, o: &Option<String>, label: &str)
    ensures
        texts(final(lines)@) == texts(old(lines)@) + line_if(opt_view(*o), label@),
{
    match o {
        Some(v) => push_line(lines, concat(label, v.as_str())),
        None => {
            assert(texts(lines@) =~= texts(lines@) + Seq::<Seq<char>>::empty());
        },
    }
}

/// The details of one view, one line per entry.
pub fn view_detail_lines(v: &ViewConfig) -> (r: Vec<String>)
    ensures
        texts(r@) == view_details(*v),
{
    let mut lines: Vec<String> = Vec::new();
    push_line(&mut lines, concat("View: ", v.name.as_str()));
    let mut rule = String::new();
    push_repeat(&mut rule, "─", 44);
    push_line(&mut lines, rule);
    push_line_if(&mut lines, &v.description, "  Description:  ");
    let mut projects = owned("  Projects:     ");
    push_listed(&mut projects, &v.projects, "(all)");
    push_line(&mut lines, projects);
    let mut platforms = owned("  Platforms:    ");
    push_listed(&mut platforms, &v.platforms, "(all)");
    push_line(&mut lines, platforms);
    push_line_if(&mut lines, &v.branch_filter, "  Branch:       ");
    if v.status_filter.len() > 0 {
        let mut statuses = owned("  Statuses:     ");
        let j = join_strings(&v.status_filter, ", ");
        push_str(&mut statuses, j.as_str());
        push_line(&mut lines, statuses);
    }
    let mut refresh = owned("  Refresh:      ");
    push_decimal(&mut refresh, v.refresh_interval);
    push_str(&mut refresh, "s");
    push_line(&mut lines, refresh);
    assert(texts(lines@) =~= view_details(*v));
    lines
}

/// The summary of a view shown before it is saved, under `title`.
pub open spec fn view_summary(title: Seq<char>, v: ViewConfig) -> Seq<Seq<char>> {
    seq![title, "  Name:      "@ + v.name@] + line_if(opt_view(v.description), "  Desc:      "@) + if v.platforms@.len()
        == 0 {
        Seq::empty()
    } else {
        seq!["  Platforms: "@ + joined(v.platforms@, ", "@)]
    } + if v.projects@.len() == 0 {
        Seq::empty()
    } else {
        seq!["  Projects:  "@ + joined(v.projects@, ", "@)]
    } + line_if(opt_view(v.branch_filter), "  Branch:    "@)
}

/// The summary of a view shown before it is saved.
pub fn view_summary_lines(title: &str, v: &ViewConfig) -> (r: Vec<String>)
    ensures
        texts(r@) == view_summary(title@, *v),
{
    let mut lines: Vec<String> = Vec::new();
    push_line(&mut lines, owned(title));
    push_line(&mut lines, concat("  Name:      ", v.name.as_str()));
    push_line_if(&mut lines, &v.description, "  Desc:      ");
    if v.platforms.len() > 0 {
        let j = join_strings(&v.platforms, ", ");
        push_line(&mut lines, concat("  Platforms: ", j.as_str()));
    }
    if v.projects.len() > 0 {
        let j = join_strings(&v.projects, ", ");
        push_line(&mut lines, concat("  Projects:  ", j.as_str()));
    }
    push_line_if(&mut lines, &v.branch_filter, "  Branch:    ");
    assert(texts(lines@) =~= view_summary(title@, *v));
    lines
}


/// The lines describing one built-in template.
pub open spec fn template_block(name: Seq<char>, description: Seq<char>, platforms: Seq<char>, branch: Seq<char>) -> Seq<
    Seq<char>,
> {
    seq![
        Seq::empty(),
        "  "@ + name,
        "  Description: "@ + description,
        "  Platforms:   "@ + platforms,
        "  Branch:      "@ + branch,
        "  Usage hint:  pulsos views create  (enter values above)"@,
    ]
}

/// The listing of the built-in view templates.
pub open spec fn template_listing() -> Seq<Seq<char>> {
    seq!["Built-in View Templates"@, repeat("─"@, 70)] + template_block(
        "full-stack-production"@,
        "End-to-end production monitoring"@,
        "github, railway, vercel"@,
        "main"@,
    ) + template_block(
        "backend-infrastructure"@,
        "Backend team daily driver"@,
        "github, railway"@,
        "(all branches)"@,
    ) + template_block(
        "frontend-releases"@,
        "Frontend team deployments"@,
        "github, vercel"@,
        "(all branches)"@,
    ) + template_block("security-monitoring"@, "Security audit dashboard"@, "github, vercel"@, "main"@)
        + seq![Seq::<char>::empty()]
}

fn push_template(lines: &mut Vec<String>, name: &str, description: &str, platforms: &str, branch: &str)
    ensures
        texts(final(lines)@) == texts(old(lines)@) + template_block(name@, description@, platforms@, branch@),
{
    let ghost start = texts(lines@);
    push_line(lines, String::new());
    push_line(lines, concat("  ", name));
    push_line(lines, concat("  Description: ", description));
    push_line(lines, concat("  Platforms:   ", platforms));
    push_line(lines, concat("  Branch:      ", branch));
    push_line(lines, owned("  Usage hint:  pulsos views create  (enter values above)"));
    assert(texts(lines@) =~= start + template_block(name@, description@, platforms@, branch@));
}

/// The listing of the built-in view templates, one line per entry.
pub fn template_lines() -> (r: Vec<String>)
    ensures
        texts(r@) == template_listing(),
{
    let mut lines: Vec<String> = Vec::new();
    push_line(&mut lines, owned("Built-in View Templates"));
    let mut rule = String::new();
    push_repeat(&mut rule, "─", 70);
    push_line(&mut lines, rule);
    push_template(
        &mut lines,
        "full-stack-production",
        "End-to-end production monitoring",
        "github, railway, vercel",
        "main",
    );
    push_template(&mut lines, "backend-infrastructure", "Backend team daily driver", "github, railway", "(all branches)");
    push_template(&mut lines, "frontend-releases", "Frontend team deployments", "github, vercel", "(all branches)");
    push_template(&mut lines, "security-monitoring", "Security audit dashboard", "github, vercel", "main");
    push_line(&mut lines, String::new());
    assert(texts(lines@) =~= template_listing());
    lines
}

/// How many of `bs` hold.
pub open spec fn count_true(bs: Seq<bool>) -> nat
    decreases bs.len(),
{
    if bs.len() == 0 {
        0
    } else {
        count_true(bs.drop_last()) + if bs.last() {
            1nat
        } else {
            0nat
        }
    }
}

/// A correlation names some provider resource.
pub open spec fn names_a_resource(c: CorrelationConfig) -> bool {
    c.github_repo is Some || c.railway_project is Some || c.vercel_project is Some
}

/// Some correlation carries the name `p` (ASCII case ignored).
pub open spec fn project_known(cs: Seq<CorrelationConfig>, p: Seq<char>) -> bool {
    exists|j: int| 0 <= j < cs.len() && eq_ignore_case(#[trigger] cs[j].name@, p)
}

/// The outcome of each check of a view: one per correlation when the view
/// lists no projects, else one per listed project.
pub open spec fn check_outcomes(v: ViewConfig, cs: Seq<CorrelationConfig>) -> Seq<bool> {
    if v.projects@.len() == 0 {
        cs.map_values(|c: CorrelationConfig| names_a_resource(c))
    } else {
        v.projects@.map_values(|p: String| project_known(cs, p@))
    }
}

/// The line reporting one check.
pub open spec fn correlation_check_line(c: CorrelationConfig) -> Seq<char> {
    if names_a_resource(c) {
        "  [ok] "@ + c.name@
    } else {
        "  [!!] "@ + c.name@ + " — no platform fields set"@
    }
}

pub open spec fn project_check_line(cs: Seq<CorrelationConfig>, p: Seq<char>) -> Seq<char> {
    if project_known(cs, p) {
        "  [ok] "@ + p
    } else {
        "  [!!] "@ + p + " — not found in correlations"@
    }
}

/// The report of validating a view against the correlations.
pub open spec fn validation_report(v: ViewConfig, cs: Seq<CorrelationConfig>) -> Seq<Seq<char>> {
    let outcomes = check_outcomes(v, cs);
    let ok = count_true(outcomes);
    seq!["Validating view '"@ + v.name@ + "'"@, repeat("─"@, 44)] + if v.projects@.len() == 0 {
        cs.map_values(|c: CorrelationConfig| correlation_check_line(c)) + if cs.len() == 0 {
            seq!["  (no correlations to validate)"@]
        } else {
            Seq::empty()
        }
    } else {
        v.projects@.map_values(|p: String| project_check_line(cs, p@))
    } + seq![
        Seq::empty(),
        "  Summary: "@ + decimal(ok) + " ok, "@ + decimal((outcomes.len() - ok) as nat) + " issue(s)"@,
    ]
}

proof fn lemma_count_true_bound(bs: Seq<bool>)
    ensures
        count_true(bs) <= bs.len(),
    decreases bs.len(),
{
    if bs.len() > 0 {
        lemma_count_true_bound(bs.drop_last());
    }
}

fn project_known_exec(cs: &[CorrelationConfig], p: &str) -> (r: bool)
    ensures
        r == project_known(cs@, p@),
{
    let mut j: usize = 0;
    while j < cs.len()
        invariant
            j <= cs@.len(),
            forall|k: int| 0 <= k < j ==> !eq_ignore_case(#[trigger] cs@[k].name@, p@),
        decreases cs@.len() - j,
    {
        if eq_ignore_ascii_case(cs[j].name.as_str(), p) {
            return true;
        }
        j = j + 1;
    }
    false
}

/// Checks a view against the correlations: with no projects listed, every
/// correlation must name some resource; otherwise every listed project
/// must be a correlation's name.
pub fn validate_lines(v: &ViewConfig, cs: &[CorrelationConfig]) -> (r: Vec<String>)
    ensures
        texts(r@) == validation_report(*v, cs@),
{
    let mut lines: Vec<String> = Vec::new();
    let mut title = owned("Validating view '");
    push_str(&mut title, v.name.as_str());
    push_str(&mut title, "'");
    push_line(&mut lines, title);
    let mut rule = String::new();
    push_repeat(&mut rule, "─", 44);
    push_line(&mut lines, rule);
    let ghost head = texts(lines@);
    let ghost outcomes = check_outcomes(*v, cs@);
    let mut ok: u64 = 0;
    let mut checked: u64 = 0;
    if v.projects.len() == 0 {
        let mut i: usize = 0;
        while i < cs.len()
            invariant
                i <= cs@.len(),
                v.projects@.len() == 0,
                outcomes == cs@.map_values(|c: CorrelationConfig| names_a_resource(c)),
                checked == i,
                ok == count_true(outcomes.take(i as int)),
                texts(lines@) == head + cs@.take(i as int).map_values(|c: CorrelationConfig| correlation_check_line(c)),
            decreases cs@.len() - i,
        {
            let c = &cs[i];
            let good = c.github_repo.is_some() || c.railway_project.is_some() || c.vercel_project.is_some();
            if good {
                push_line(&mut lines, concat("  [ok] ", c.name.as_str()));
            } else {
                let mut line = concat("  [!!] ", c.name.as_str());
                push_str(&mut line, " — no platform fields set");
                push_line(&mut lines, line);
            }
            proof {
                lemma_count_true_bound(outcomes.take(i as int));
                assert(outcomes.take(i + 1).drop_last() =~= outcomes.take(i as int));
                assert(cs@.take(i + 1).map_values(|c: CorrelationConfig| correlation_check_line(c)) =~= cs@.take(
                    i as int,
                ).map_values(|c: CorrelationConfig| correlation_check_line(c)).push(correlation_check_line(cs@[i as int])));
            }
            if good {
                ok = ok + 1;
            }
            checked = checked + 1;
            i = i + 1;
        }
        if cs.len() == 0 {
            push_line(&mut lines, owned("  (no correlations to validate)"));
        }
        assert(cs@.take(cs@.len() as int) =~= cs@);
        assert(outcomes.take(cs@.len() as int) =~= outcomes);
    } else {
        let mut i: usize = 0;
        while i < v.projects.len()
            invariant
                i <= v.projects@.len(),
                v.projects@.len() > 0,
                outcomes == v.projects@.map_values(|p: String| project_known(cs@, p@)),
                checked == i,
                ok == count_true(outcomes.take(i as int)),
                texts(lines@) == head + v.projects@.take(i as int).map_values(|p: String| project_check_line(cs@, p@)),
            decreases v.projects@.len() - i,
        {
            let p = &v.projects[i];
            let good = project_known_exec(cs, p.as_str());
            if good {
                push_line(&mut lines, concat("  [ok] ", p.as_str()));
            } else {
                let mut line = concat("  [!!] ", p.as_str());
                push_str(&mut line, " — not found in correlations");
                push_line(&mut lines, line);
            }
            proof {
                lemma_count_true_bound(outcomes.take(i as int));
                assert(outcomes.take(i + 1).drop_last() =~= outcomes.take(i as int));
                assert(v.projects@.take(i + 1).map_values(|p: String| project_check_line(cs@, p@)) =~= v.projects@.take(
                    i as int,
                ).map_values(|p: String| project_check_line(cs@, p@)).push(project_check_line(cs@, v.projects@[i as int]@)));
            }
            if good {
                ok = ok + 1;
            }
            checked = checked + 1;
            i = i + 1;
        }
        assert(v.projects@.take(v.projects@.len() as int) =~= v.projects@);
        assert(outcomes.take(v.projects@.len() as int) =~= outcomes);
    }
    proof {
        lemma_count_true_bound(outcomes);
    }
    push_line(&mut lines, String::new());
    let mut summary = owned("  Summary: ");
    push_decimal(&mut summary, ok);
    push_str(&mut summary, " ok, ");
    push_decimal(&mut summary, checked - ok);
    push_str(&mut summary, " issue(s)");
    push_line(&mut lines, summary);
    assert(texts(lines@) =~= validation_report(*v, cs@));
    lines
}


/// An imported view is refused when a view of its name exists.
pub fn check_import(views: &[ViewConfig], name: &str) -> (r: Result<(), ViewError>)
    ensures
        match r {
            Ok(()) => !name_taken(views@, name@),
            Err(ViewError::Exists { name: n }) => n@ == name@ && name_taken(views@, name@),
            Err(_) => false,
        },
{
    match find_view(views, name) {
        Some(i) => {
            assert(eq_ignore_case(view_names(views@)[i as int], name@));
            Err(ViewError::Exists { name: owned(name) })
        },
        None => Ok(()),
    }
}


/// No two views share a name (ASCII case ignored).
pub open spec fn names_distinct(views: Seq<ViewConfig>) -> bool {
    forall|i: int, j: int|
        0 <= i < j < views.len() ==> !eq_ignore_case(#[trigger] view_names(views)[i], #[trigger] view_names(views)[j])
}

/// View names stay distinct: adding a view whose name no view has keeps
/// all names distinct.
pub proof fn new_view_keeps_names_distinct(views: Seq<ViewConfig>, v: ViewConfig)
    requires
        names_distinct(views),
        !name_taken(views, v.name@),
    ensures
        names_distinct(views.push(v)),
{
    let after = views.push(v);
    assert forall|i: int, j: int| 0 <= i < j < after.len() implies !eq_ignore_case(
        #[trigger] view_names(after)[i],
        #[trigger] view_names(after)[j],
    ) by {
        assert(view_names(after)[i] == after[i].name@);
        assert(view_names(after)[j] == after[j].name@);
        if j == views.len() {
            assert(view_names(views)[i] == views[i].name@);
            if eq_ignore_case(after[i].name@, v.name@) {
                assert(eq_ignore_case(view_names(views)[i], v.name@));
            }
        } else {
            assert(view_names(views)[i] == views[i].name@);
            assert(view_names(views)[j] == views[j].name@);
        }
    }
}

} // verus!
