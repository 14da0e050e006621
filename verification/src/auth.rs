//! The decisions of the token commands: which providers a command acts on,
//! which token text is accepted, and the texts shown around a login.

use vstd::prelude::*;
use crate::app::{join_strings, joined};
use crate::domain::PlatformKind;
use crate::screen::{views, ScreenSeverity, ScreenSpec};
use crate::sorting::{push_line, texts};
use crate::keys::{KeyCode, KeyEvent, KeyModifiers};
use crate::text::{char_count, concat, pop_char, push_char, lower, owned, push_str, str_eq, to_lower, trim, trimmed};

verus! {

/// The environment variables that carry a provider's token, in the order
/// they are read.
pub open spec fn env_vars_of(p: PlatformKind) -> Seq<Seq<char>> {
    match p {
        PlatformKind::GitHub => seq!["GH_TOKEN"@, "GITHUB_TOKEN"@],
        PlatformKind::Railway => seq!["RAILWAY_TOKEN"@, "RAILWAY_API_TOKEN"@],
        PlatformKind::Vercel => seq!["VERCEL_TOKEN"@],
    }
}

/// The environment variables that carry a provider's token.
pub fn env_var_names(p: PlatformKind) -> (r: Vec<String>)
    ensures
        texts(r@) == env_vars_of(p),
{
    let mut out: Vec<String> = Vec::new();
    match p {
        PlatformKind::GitHub => {
            push_line(&mut out, owned("GH_TOKEN"));
            push_line(&mut out, owned("GITHUB_TOKEN"));
        },
        PlatformKind::Railway => {
            push_line(&mut out, owned("RAILWAY_TOKEN"));
            push_line(&mut out, owned("RAILWAY_API_TOKEN"));
        },
        PlatformKind::Vercel => {
            push_line(&mut out, owned("VERCEL_TOKEN"));
        },
    }
    assert(texts(out@) =~= env_vars_of(p));
    out
}

/// Why a token command was refused.
#[derive(Debug)]
pub enum AuthError {
    /// The provider name is not github, railway or vercel (held lower-cased).
    UnknownPlatform { name: String },
    /// `--ci` without any token.
    NoCiToken,
    /// A token given on the command line is empty once trimmed.
    EmptyToken,
    /// The token prompt was answered with nothing.
    NoTokenProvided,
    /// `--from-env` found no token in the provider's variables.
    NoEnvToken { platform: PlatformKind },
    /// Some token given in CI mode did not validate.
    ValidationsFailed,
}

impl AuthError {
    pub open spec fn message_of(&self) -> Seq<char> {
        match self {
            AuthError::UnknownPlatform { name } => "Unknown platform: "@ + name@
                + ". Use 'github', 'railway', or 'vercel'."@,
            AuthError::NoCiToken => "--ci requires at least one token flag: --github-token, --railway-token, or --vercel-token"@,
            AuthError::EmptyToken => "Token value cannot be empty."@,
            AuthError::NoTokenProvided => "No token provided. Authentication cancelled."@,
            AuthError::NoEnvToken { platform } => "No "@ + platform.name_of() + " token found in environment. Set "@
                + crate::doctor::joined_texts(env_vars_of(*platform), " or "@) + " before using --from-env."@,
            AuthError::ValidationsFailed => "One or more token validations failed."@,
        }
    }

    /// The text shown to the user.
    pub fn message(&self) -> (r: String)
        ensures
            r@ == self.message_of(),
    {
        match self {
            AuthError::UnknownPlatform { name } => {
                let mut out = owned("Unknown platform: ");
                push_str(&mut out, name.as_str());
                push_str(&mut out, ". Use 'github', 'railway', or 'vercel'.");
                out
            },
            AuthError::NoCiToken => owned(
                "--ci requires at least one token flag: --github-token, --railway-token, or --vercel-token",
            ),
            AuthError::EmptyToken => owned("Token value cannot be empty."),
            AuthError::NoTokenProvided => owned("No token provided. Authentication cancelled."),
            AuthError::NoEnvToken { platform } => {
                let mut out = owned("No ");
                push_str(&mut out, platform.display_name());
                push_str(&mut out, " token found in environment. Set ");
                let vars = env_var_names(*platform);
                let j = join_strings(&vars, " or ");
                proof {
                    crate::app::lemma_joined_texts(vars@, " or "@);
                }
                push_str(&mut out, j.as_str());
                push_str(&mut out, " before using --from-env.");
                out
            },
            AuthError::ValidationsFailed => owned("One or more token validations failed."),
        }
    }
}


/// The provider a name stands for, ASCII case ignored.
pub open spec fn platform_named(name: Seq<char>) -> Option<PlatformKind> {
    let l = lower(name);
    if l == "github"@ {
        Some(PlatformKind::GitHub)
    } else if l == "railway"@ {
        Some(PlatformKind::Railway)
    } else if l == "vercel"@ {
        Some(PlatformKind::Vercel)
    } else {
        None
    }
}

/// The provider a `--platform` value names.
pub fn parse_platform_name(name: &str) -> (r: Result<PlatformKind, AuthError>)
    ensures
        match r {
            Ok(p) => platform_named(name@) == Some(p),
            Err(AuthError::UnknownPlatform { name: n }) => platform_named(name@) is None && n@ == lower(name@),
            Err(_) => false,
        },
{
    let l = to_lower(name);
    if str_eq(l.as_str(), "github") {
        Ok(PlatformKind::GitHub)
    } else if str_eq(l.as_str(), "railway") {
        Ok(PlatformKind::Railway)
    } else if str_eq(l.as_str(), "vercel") {
        Ok(PlatformKind::Vercel)
    } else {
        Err(AuthError::UnknownPlatform { name: l })
    }
}

/// All providers, in their fixed order.
pub open spec fn all_platforms() -> Seq<PlatformKind> {
    seq![PlatformKind::GitHub, PlatformKind::Railway, PlatformKind::Vercel]
}

fn all_platforms_vec() -> (r: Vec<PlatformKind>)
    ensures
        r@ == all_platforms(),
{
    let mut v: Vec<PlatformKind> = Vec::new();
    v.push(PlatformKind::GitHub);
    v.push(PlatformKind::Railway);
    v.push(PlatformKind::Vercel);
    assert(v@ =~= all_platforms());
    v
}

/// The providers `auth refresh` checks: the one named, else all of them.
pub fn refresh_targets(name: &Option<String>) -> (r: Result<Vec<PlatformKind>, AuthError>)
    ensures
        match name {
            None => r matches Ok(v) && v@ == all_platforms(),
            Some(n) => match platform_named(n@) {
                Some(p) => r matches Ok(v) && v@ == seq![p],
                None => r matches Err(AuthError::UnknownPlatform { name: m }) && m@ == lower(n@),
            },
        },
{
    match name {
        None => Ok(all_platforms_vec()),
        Some(n) => match parse_platform_name(n.as_str()) {
            Ok(p) => {
                let mut v: Vec<PlatformKind> = Vec::new();
                v.push(p);
                assert(v@ =~= seq![p]);
                Ok(v)
            },
            Err(e) => Err(e),
        },
    }
}

/// The providers the logout menu entry at `selection` stands for: one
/// provider each, then all of them.
pub open spec fn logout_selection(selection: int) -> Seq<PlatformKind> {
    if selection == 0 {
        seq![PlatformKind::GitHub]
    } else if selection == 1 {
        seq![PlatformKind::Railway]
    } else if selection == 2 {
        seq![PlatformKind::Vercel]
    } else {
        all_platforms()
    }
}

/// The providers the logout menu entry at `selection` stands for.
pub fn logout_platforms(selection: usize) -> (r: Vec<PlatformKind>)
    requires
        selection < 4,
    ensures
        r@ == logout_selection(selection as int),
{
    if selection == 3 {
        return all_platforms_vec();
    }
    let mut v: Vec<PlatformKind> = Vec::new();
    v.push(PlatformKind::at(selection));
    assert(v@ =~= logout_selection(selection as int));
    v
}

/// CI mode needs at least one token.
pub fn check_ci_tokens(github: &Option<String>, railway: &Option<String>, vercel: &Option<String>) -> (r: Result<
    (),
    AuthError,
>)
    ensures
        match r {
            Ok(()) => github is Some || railway is Some || vercel is Some,
            Err(AuthError::NoCiToken) => github is None && railway is None && vercel is None,
            Err(_) => false,
        },
{
    if github.is_some() || railway.is_some() || vercel.is_some() {
        Ok(())
    } else {
        Err(AuthError::NoCiToken)
    }
}

/// A token given with `--token`: trimmed, and refused when empty.
pub fn direct_token(token: &str) -> (r: Result<String, AuthError>)
    ensures
        match r {
            Ok(t) => t@ == trimmed(token@) && t@.len() > 0,
            Err(AuthError::EmptyToken) => trimmed(token@).len() == 0,
            Err(_) => false,
        },
{
    let t = trim(token);
    if char_count(t.as_str()) == 0 {
        Err(AuthError::EmptyToken)
    } else {
        Ok(t)
    }
}

/// A token typed at the prompt: trimmed, and refused when empty.
pub fn entered_token(token: &str) -> (r: Result<String, AuthError>)
    ensures
        match r {
            Ok(t) => t@ == trimmed(token@) && t@.len() > 0,
            Err(AuthError::NoTokenProvided) => trimmed(token@).len() == 0,
            Err(_) => false,
        },
{
    let t = trim(token);
    if char_count(t.as_str()) == 0 {
        Err(AuthError::NoTokenProvided)
    } else {
        Ok(t)
    }
}

/// Where to create a token for each provider.
pub open spec fn token_help(p: PlatformKind) -> Seq<Seq<char>> {
    match p {
        PlatformKind::GitHub => seq![
            "Create a personal access token:"@,
            "https://github.com/settings/tokens"@,
            "Required scopes: repo, read:org"@,
        ],
        PlatformKind::Railway => seq![
            "Create an Account token:"@,
            "https://railway.com/account/tokens"@,
            "Token type: Account (NOT Workspace or Project tokens)"@,
        ],
        PlatformKind::Vercel => seq!["Create a token:"@, "https://vercel.com/account/tokens"@],
    }
}

/// Where to create a token for the provider.
pub fn token_help_lines(p: PlatformKind) -> (r: Vec<String>)
    ensures
        texts(r@) == token_help(p),
{
    let mut out: Vec<String> = Vec::new();
    match p {
        PlatformKind::GitHub => {
            push_line(&mut out, owned("Create a personal access token:"));
            push_line(&mut out, owned("https://github.com/settings/tokens"));
            push_line(&mut out, owned("Required scopes: repo, read:org"));
        },
        PlatformKind::Railway => {
            push_line(&mut out, owned("Create an Account token:"));
            push_line(&mut out, owned("https://railway.com/account/tokens"));
            push_line(&mut out, owned("Token type: Account (NOT Workspace or Project tokens)"));
        },
        PlatformKind::Vercel => {
            push_line(&mut out, owned("Create a token:"));
            push_line(&mut out, owned("https://vercel.com/account/tokens"));
        },
    }
    assert(texts(out@) =~= token_help(p));
    out
}

/// The page shown while authenticating with a provider.
pub fn auth_screen_spec(p: PlatformKind, step: Option<(usize, usize)>, body_lines: Vec<String>, hints: Vec<String>) -> (r:
    ScreenSpec)
    ensures
        r.title@ == p.name_of(),
        r.subtitle matches Some(s) && s@ == "Authentication"@,
        views(r.body_lines@) == texts(body_lines@),
        views(r.hints@) == texts(hints@),
        r.severity == ScreenSeverity::Info,
        match step {
            Some((index, total)) => r.step_index == Some(index) && r.step_total == Some(total),
            None => r.step_index is None && r.step_total is None,
        },
{
    let (step_index, step_total) = match step {
        Some((index, total)) => (Some(index), Some(total)),
        None => (None, None),
    };
    let r = ScreenSpec {
        title: owned(p.display_name()),
        subtitle: Some(owned("Authentication")),
        step_index,
        step_total,
        body_lines,
        hints,
        severity: ScreenSeverity::Info,
    };
    assert(views(r.body_lines@) =~= texts(r.body_lines@));
    assert(views(r.hints@) =~= texts(r.hints@));
    r
}

/// The report of a stored token: who it belongs to, then each warning.
pub open spec fn authenticated_report(identity: Seq<char>, warnings: Seq<String>) -> Seq<Seq<char>> {
    seq!["✓ Authenticated as "@ + identity, "Token stored securely."@] + warnings.map_values(
        |w: String| "warning: "@ + w@,
    )
}

/// The report of a stored token.
pub fn authenticated_lines(identity: &str, warnings: &Vec<String>) -> (r: Vec<String>)
    ensures
        texts(r@) == authenticated_report(identity@, warnings@),
{
    let mut out: Vec<String> = Vec::new();
    push_line(&mut out, concat("✓ Authenticated as ", identity));
    push_line(&mut out, owned("Token stored securely."));
    let ghost head = texts(out@);
    let mut i: usize = 0;
    while i < warnings.len()
        invariant
            i <= warnings@.len(),
            texts(out@) == head + warnings@.take(i as int).map_values(|w: String| "warning: "@ + w@),
        decreases warnings@.len() - i,
    {
        push_line(&mut out, concat("warning: ", warnings[i].as_str()));
        assert(warnings@.take(i + 1).map_values(|w: String| "warning: "@ + w@) =~= warnings@.take(i as int).map_values(
            |w: String| "warning: "@ + w@,
        ).push("warning: "@ + warnings@[i as int]@));
        i = i + 1;
    }
    assert(warnings@.take(warnings@.len() as int) =~= warnings@);
    assert(texts(out@) =~= authenticated_report(identity@, warnings@));
    out
}

/// The reminder after a logout about token variables still set.
pub open spec fn env_reminder(set_vars: Seq<String>) -> Seq<Seq<char>> {
    if set_vars.len() == 0 {
        Seq::empty()
    } else {
        seq![Seq::empty(), "  Note: The following environment variables are still set:"@] + set_vars.map_values(
            |v: String| "    "@ + v@,
        ) + seq!["  Pulsos cannot remove environment variables. Unset them manually if needed."@]
    }
}

/// The reminder after a logout about token variables still set.
pub fn env_reminder_lines(set_vars: &Vec<String>) -> (r: Vec<String>)
    ensures
        texts(r@) == env_reminder(set_vars@),
{
    let mut out: Vec<String> = Vec::new();
    if set_vars.len() == 0 {
        assert(texts(out@) =~= env_reminder(set_vars@));
        return out;
    }
    push_line(&mut out, String::new());
    push_line(&mut out, owned("  Note: The following environment variables are still set:"));
    let ghost head = texts(out@);
    let mut i: usize = 0;
    while i < set_vars.len()
        invariant
            i <= set_vars@.len(),
            texts(out@) == head + set_vars@.take(i as int).map_values(|v: String| "    "@ + v@),
        decreases set_vars@.len() - i,
    {
        push_line(&mut out, concat("    ", set_vars[i].as_str()));
        assert(set_vars@.take(i + 1).map_values(|v: String| "    "@ + v@) =~= set_vars@.take(i as int).map_values(
            |v: String| "    "@ + v@,
        ).push("    "@ + set_vars@[i as int]@));
        i = i + 1;
    }
    push_line(&mut out, owned("  Pulsos cannot remove environment variables. Unset them manually if needed."));
    assert(set_vars@.take(set_vars@.len() as int) =~= set_vars@);
    assert(texts(out@) =~= env_reminder(set_vars@));
    out
}


/// The pages of a login with a provider.
#[derive(Debug)]
pub enum AuthPage {
    /// Asking for a token, with where to create one.
    Prompt,
    /// The token was valid and is stored.
    Stored { identity: String, warnings: Vec<String> },
    /// The token did not validate.
    Failed { error: String },
    /// A token is stored already and would be replaced.
    AlreadyStored,
    /// A provider CLI holds a token that could be reused.
    FoundCliToken { source: String },
    /// The token found in a provider CLI did not validate.
    DetectedInvalid { error: String },
}

/// What a login page says: its body, its hints and its severity.
pub open spec fn page_content(p: PlatformKind, page: AuthPage) -> (Seq<Seq<char>>, Seq<Seq<char>>, ScreenSeverity) {
    match page {
        AuthPage::Prompt => (token_help(p), Seq::empty(), ScreenSeverity::Info),
        AuthPage::Stored { identity, warnings } => (
            authenticated_report(identity@, warnings@),
            Seq::empty(),
            ScreenSeverity::Success,
        ),
        AuthPage::Failed { error } => (
            seq!["Authentication failed."@, error@],
            seq!["Check your token and try again."@],
            ScreenSeverity::Error,
        ),
        AuthPage::AlreadyStored => (
            seq!["A token is already stored for "@ + p.name_of() + "."@, "Continuing will replace it."@],
            Seq::empty(),
            ScreenSeverity::Warning,
        ),
        AuthPage::FoundCliToken { source } => (
            seq!["Found existing token from "@ + source@ + " CLI."@],
            seq!["Use detected token now?"@],
            ScreenSeverity::Info,
        ),
        AuthPage::DetectedInvalid { error } => (
            seq!["Validation failed: "@ + error@],
            seq!["Falling back to manual token entry."@],
            ScreenSeverity::Warning,
        ),
    }
}

/// The screen for one page of a login.
pub fn auth_page(p: PlatformKind, step: Option<(usize, usize)>, page: AuthPage) -> (r: ScreenSpec)
    ensures
        r.title@ == p.name_of(),
        r.subtitle matches Some(s) && s@ == "Authentication"@,
        views(r.body_lines@) == page_content(p, page).0,
        views(r.hints@) == page_content(p, page).1,
        r.severity == page_content(p, page).2,
        match step {
            Some((index, total)) => r.step_index == Some(index) && r.step_total == Some(total),
            None => r.step_index is None && r.step_total is None,
        },
{
    let ghost content = page_content(p, page);
    let (body, hints, severity) = match page {
        AuthPage::Prompt => (token_help_lines(p), Vec::new(), ScreenSeverity::Info),
        AuthPage::Stored { identity, warnings } => (
            authenticated_lines(identity.as_str(), &warnings),
            Vec::new(),
            ScreenSeverity::Success,
        ),
        AuthPage::Failed { error } => {
            let mut body: Vec<String> = Vec::new();
            push_line(&mut body, owned("Authentication failed."));
            push_line(&mut body, error);
            let mut hints: Vec<String> = Vec::new();
            push_line(&mut hints, owned("Check your token and try again."));
            (body, hints, ScreenSeverity::Error)
        },
        AuthPage::AlreadyStored => {
            let mut body: Vec<String> = Vec::new();
            let mut first = owned("A token is already stored for ");
            push_str(&mut first, p.display_name());
            push_str(&mut first, ".");
            push_line(&mut body, first);
            push_line(&mut body, owned("Continuing will replace it."));
            (body, Vec::new(), ScreenSeverity::Warning)
        },
        AuthPage::FoundCliToken { source } => {
            let mut body: Vec<String> = Vec::new();
            let mut first = owned("Found existing token from ");
            push_str(&mut first, source.as_str());
            push_str(&mut first, " CLI.");
            push_line(&mut body, first);
            let mut hints: Vec<String> = Vec::new();
            push_line(&mut hints, owned("Use detected token now?"));
            (body, hints, ScreenSeverity::Info)
        },
        AuthPage::DetectedInvalid { error } => {
            let mut body: Vec<String> = Vec::new();
            push_line(&mut body, concat("Validation failed: ", error.as_str()));
            let mut hints: Vec<String> = Vec::new();
            push_line(&mut hints, owned("Falling back to manual token entry."));
            (body, hints, ScreenSeverity::Warning)
        },
    };
    assert(texts(body@) =~= content.0);
    assert(texts(hints@) =~= content.1);
    let mut r = auth_screen_spec(p, step, body, hints);
    r.severity = severity;
    r
}


/// The lines of `auth status` for one provider: its state and where its
/// token comes from, the reason, and the next step unless there is none.
pub open spec fn status_report(r: crate::domain::PlatformHealthReport, source: Seq<char>) -> Seq<Seq<char>> {
    let indent = "  "@ + crate::text::pad_right(Seq::empty(), 12) + "  "@;
    seq![
        "  "@ + crate::text::pad_right(r.platform.name_of() + ":"@, 12) + " "@ + r.state.icon_of() + " "@
            + crate::text::pad_right(r.state.label_of(), 16) + " via "@ + source,
        indent + r.reason@,
    ] + if r.next_action@.len() > 0 && r.next_action@ != "No action needed."@ {
        seq![indent + "next: "@ + r.next_action@]
    } else {
        Seq::empty()
    }
}

/// The lines of `auth status` for one provider.
pub fn status_lines(r: &crate::domain::PlatformHealthReport, source: &str) -> (out: Vec<String>)
    ensures
        texts(out@) == status_report(*r, source@),
{
    let mut lines: Vec<String> = Vec::new();
    let mut first = owned("  ");
    let name = concat(r.platform.display_name(), ":");
    let padded = crate::text::padded_right(name.as_str(), 12);
    push_str(&mut first, padded.as_str());
    push_str(&mut first, " ");
    push_str(&mut first, r.state.icon());
    push_str(&mut first, " ");
    let label = crate::text::padded_right(r.state.label(), 16);
    push_str(&mut first, label.as_str());
    push_str(&mut first, " via ");
    push_str(&mut first, source);
    push_line(&mut lines, first);
    let mut indent = owned("  ");
    let blank = crate::text::padded_right("", 12);
    push_str(&mut indent, blank.as_str());
    push_str(&mut indent, "  ");
    proof {
        reveal_strlit("");
    }
    push_line(&mut lines, concat(indent.as_str(), r.reason.as_str()));
    if char_count(r.next_action.as_str()) > 0 && !str_eq(r.next_action.as_str(), "No action needed.") {
        let mut next = concat(indent.as_str(), "next: ");
        push_str(&mut next, r.next_action.as_str());
        push_line(&mut lines, next);
    }
    assert(texts(lines@) =~= status_report(*r, source@));
    lines
}

/// What the masked token entry does with one key.
#[derive(Debug, Clone, Copy, PartialEq, Eq)]
pub enum MaskedStep {
    /// Enter: the entry is complete.
    Submit,
    /// Control-C: the login is abandoned.
    Cancel,
    /// Backspace took the last character off (echo a rubout).
    Erased,
    /// A character was added (echo a bullet).
    Typed,
    /// The key changes nothing.
    Ignored,
}

/// The masked entry's effect of `key` on the text typed so far: its next
/// text and what the terminal should show.
pub open spec fn masked_effect(input: Seq<char>, key: KeyEvent) -> (MaskedStep, Seq<char>) {
    match key.code {
        KeyCode::Enter => (MaskedStep::Submit, input),
        KeyCode::Char(c) => if c == 'c' && key.modifiers.control {
            (MaskedStep::Cancel, input)
        } else if !key.modifiers.control && !key.modifiers.alt {
            (MaskedStep::Typed, input.push(c))
        } else {
            (MaskedStep::Ignored, input)
        },
        KeyCode::Backspace => if input.len() > 0 {
            (MaskedStep::Erased, input.drop_last())
        } else {
            (MaskedStep::Ignored, input)
        },
        _ => (MaskedStep::Ignored, input),
    }
}

/// One key of the masked token entry.
pub fn masked_entry_key(input: &mut String, key: KeyEvent) -> (r: MaskedStep)
    ensures
        (r, final(input)@) == masked_effect(old(input)@, key),
{
    match key.code {
        KeyCode::Enter => MaskedStep::Submit,
        KeyCode::Char(c) => {
            if c == 'c' && key.modifiers.control {
                MaskedStep::Cancel
            } else if !key.modifiers.control && !key.modifiers.alt {
                push_char(input, c);
                MaskedStep::Typed
            } else {
                MaskedStep::Ignored
            }
        },
        KeyCode::Backspace => {
            match pop_char(input) {
                Some(_) => MaskedStep::Erased,
                None => MaskedStep::Ignored,
            }
        },
        _ => MaskedStep::Ignored,
    }
}

/// Typing a character into the masked entry and erasing it leaves the
/// entry as it was.
pub proof fn typed_then_erased_restores(input: Seq<char>, c: char)
    ensures
        ({
            let typed = masked_effect(input, KeyEvent { code: KeyCode::Char(c), modifiers: KeyModifiers { control: false, alt: false, shift: false } });
            let erased = masked_effect(typed.1, KeyEvent { code: KeyCode::Backspace, modifiers: KeyModifiers { control: false, alt: false, shift: false } });
            typed.0 == MaskedStep::Typed && erased.0 == MaskedStep::Erased && erased.1 == input
        }),
{
    assert(input.push(c).drop_last() =~= input);
}

} // verus!
