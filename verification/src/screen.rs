//! Full-screen wizard pages: the page description, its text layout, and the
//! page variants shown around a prompt.

use vstd::prelude::*;
use crate::text::{contains, contains_str, decimal, lower, owned, push_char, push_decimal, push_repeat, push_str, repeat, to_lower};

verus! {

#[derive(Debug, Clone, Copy, PartialEq, Eq, Structural)]
pub enum ScreenSeverity {
    Info,
    Success,
    Warning,
    Error,
}

#[derive(Debug, Clone)]
pub struct ScreenSpec {
    pub title: String,
    pub subtitle: Option<String>,
    pub step_index: Option<usize>,
    pub step_total: Option<usize>,
    pub body_lines: Vec<String>,
    pub hints: Vec<String>,
    pub severity: ScreenSeverity,
}

/// The character views of a list of strings.
pub open spec fn views(v: Seq<String>) -> Seq<Seq<char>> {
    v.map_values(|s: String| s@)
}

fn strings_of(lines: &[&str]) -> (r: Vec<String>)
    ensures
        views(r@) == lines@.map_values(|s: &str| s@),
{
    let mut out: Vec<String> = Vec::new();
    let mut i: usize = 0;
    while i < lines.len()
        invariant
            i <= lines@.len(),
            views(out@) == lines@.take(i as int).map_values(|s: &str| s@),
        decreases lines@.len() - i,
    {
        let ghost prev = out@;
        out.push(owned(lines[i]));
        i = i + 1;
        assert(views(out@) =~= views(prev).push(lines@[i - 1]@));
        assert(lines@.take(i as int) =~= lines@.take((i - 1) as int).push(lines@[i - 1]));
        assert(views(out@) =~= lines@.take(i as int).map_values(|s: &str| s@));
    }
    assert(lines@.take(i as int) =~= lines@);
    out
}

fn clone_strings(v: &Vec<String>) -> (r: Vec<String>)
    ensures
        views(r@) == views(v@),
{
    let mut out: Vec<String> = Vec::new();
    let mut i: usize = 0;
    while i < v.len()
        invariant
            i <= v@.len(),
            views(out@) == views(v@.take(i as int)),
        decreases v@.len() - i,
    {
        let ghost prev = out@;
        out.push(v[i].clone());
        i = i + 1;
        assert(views(out@) =~= views(prev).push(v@[i - 1]@));
        assert(v@.take(i as int) =~= v@.take((i - 1) as int).push(v@[i - 1]));
        assert(views(out@) =~= views(v@.take(i as int)));
    }
    assert(v@.take(i as int) =~= v@);
    out
}

impl ScreenSpec {
    /// A page with only a title.
    pub fn new(title: &str) -> (r: Self)
        ensures
            r.title@ == title@,
            r.subtitle is None,
            r.step_index is None,
            r.step_total is None,
            r.body_lines@.len() == 0,
            r.hints@.len() == 0,
            r.severity == ScreenSeverity::Info,
    {
        ScreenSpec {
            title: owned(title),
            subtitle: None,
            step_index: None,
            step_total: None,
            body_lines: Vec::new(),
            hints: Vec::new(),
            severity: ScreenSeverity::Info,
        }
    }

    /// The same page with a subtitle.
    pub fn subtitle(self, subtitle: &str) -> (r: Self)
        ensures
            r.subtitle matches Some(s) && s@ == subtitle@,
            r.title == self.title,
            r.step_index == self.step_index,
            r.step_total == self.step_total,
            r.body_lines == self.body_lines,
            r.hints == self.hints,
            r.severity == self.severity,
    {
        let mut r = self;
        r.subtitle = Some(owned(subtitle));
        r
    }

    /// The same page marked as step `index` of `total`.
    pub fn step(self, index: usize, total: usize) -> (r: Self)
        ensures
            r.step_index == Some(index),
            r.step_total == Some(total),
            r.title == self.title,
            r.subtitle == self.subtitle,
            r.body_lines == self.body_lines,
            r.hints == self.hints,
            r.severity == self.severity,
    {
        let mut r = self;
        r.step_index = Some(index);
        r.step_total = Some(total);
        r
    }

    /// The same page with its body replaced by `lines`.
    pub fn body_lines(self, lines: &[&str]) -> (r: Self)
        ensures
            views(r.body_lines@) == lines@.map_values(|s: &str| s@),
            r.title == self.title,
            r.subtitle == self.subtitle,
            r.step_index == self.step_index,
            r.step_total == self.step_total,
            r.hints == self.hints,
            r.severity == self.severity,
    {
        let mut r = self;
        r.body_lines = strings_of(lines);
        r
    }

    /// The same page with its hints replaced by `hints`.
    pub fn hints(self, hints: &[&str]) -> (r: Self)
        ensures
            views(r.hints@) == hints@.map_values(|s: &str| s@),
            r.title == self.title,
            r.subtitle == self.subtitle,
            r.step_index == self.step_index,
            r.step_total == self.step_total,
            r.body_lines == self.body_lines,
            r.severity == self.severity,
    {
        let mut r = self;
        r.hints = strings_of(hints);
        r
    }

    /// The same page with another severity.
    pub fn severity(self, severity: ScreenSeverity) -> (r: Self)
        ensures
            r.severity == severity,
            r.title == self.title,
            r.subtitle == self.subtitle,
            r.step_index == self.step_index,
            r.step_total == self.step_total,
            r.body_lines == self.body_lines,
            r.hints == self.hints,
    {
        let mut r = self;
        r.severity = severity;
        r
    }

    /// A copy of the page (strings copied one by one).
    pub fn duplicate(&self) -> (r: Self)
        ensures
            r.title@ == self.title@,
            r.subtitle.is_some() == self.subtitle.is_some(),
            r.subtitle is Some ==> r.subtitle.unwrap()@ == self.subtitle.unwrap()@,
            r.step_index == self.step_index,
            r.step_total == self.step_total,
            views(r.body_lines@) == views(self.body_lines@),
            views(r.hints@) == views(self.hints@),
            r.severity == self.severity,
    {
        ScreenSpec {
            title: self.title.clone(),
            subtitle: match &self.subtitle {
                Some(s) => Some(s.clone()),
                None => None,
            },
            step_index: self.step_index,
            step_total: self.step_total,
            body_lines: clone_strings(&self.body_lines),
            hints: clone_strings(&self.hints),
            severity: self.severity,
        }
    }
}

/// The outcome of an interactive prompt.
#[derive(Debug, Clone)]
pub struct PromptResult<T> {
    pub value: Option<T>,
    pub cancelled: bool,
}

impl<T> PromptResult<T> {
    /// A prompt answered with `value`.
    pub fn value(value: T) -> (r: Self)
        ensures
            r.value == Some(value),
            !r.cancelled,
    {
        PromptResult { value: Some(value), cancelled: false }
    }

    /// A prompt the user cancelled.
    pub fn cancelled() -> (r: Self)
        ensures
            r.value is None,
            r.cancelled,
    {
        PromptResult { value: None, cancelled: true }
    }
}

/// The marker placed before each hint.
pub open spec fn marker_of(severity: ScreenSeverity) -> Seq<char> {
    match severity {
        ScreenSeverity::Info => "·"@,
        ScreenSeverity::Success => "✓"@,
        ScreenSeverity::Warning => "!"@,
        ScreenSeverity::Error => "✗"@,
    }
}

pub fn severity_marker(severity: ScreenSeverity) -> (r: &'static str)
    ensures
        r@ == marker_of(severity),
{
    match severity {
        ScreenSeverity::Info => "·",
        ScreenSeverity::Success => "✓",
        ScreenSeverity::Warning => "!",
        ScreenSeverity::Error => "✗",
    }
}

/// Number of UTF-8 bytes of one character.
pub open spec fn char_utf8_len(c: char) -> nat {
    if (c as u32) < 0x80 {
        1
    } else if (c as u32) < 0x800 {
        2
    } else if (c as u32) < 0x10000 {
        3
    } else {
        4
    }
}

/// Number of UTF-8 bytes of a text.
pub open spec fn utf8_len(s: Seq<char>) -> nat
    decreases s.len(),
{
    if s.len() == 0 {
        0
    } else {
        utf8_len(s.drop_last()) + char_utf8_len(s.last())
    }
}

pub(crate) fn byte_len(s: &str) -> (n: u128)
    ensures
        n == utf8_len(s@),
        n <= 4 * (usize::MAX as nat),
{
    let count = crate::text::char_count(s);
    let mut n: u128 = 0;
    let mut i: usize = 0;
    while i < count
        invariant
            i <= count,
            count == s@.len(),
            n == utf8_len(s@.take(i as int)),
            n <= 4 * i,
        decreases count - i,
    {
        let c = crate::text::char_at(s, i);
        let w: u128 = if (c as u32) < 0x80 {
            1
        } else if (c as u32) < 0x800 {
            2
        } else if (c as u32) < 0x10000 {
            3
        } else {
            4
        };
        n = n + w;
        i = i + 1;
        assert(s@.take(i as int).drop_last() =~= s@.take((i - 1) as int));
    }
    assert(s@.take(count as int) =~= s@);
    n
}

/// The body part of a page: an empty line stays empty, others are indented.
pub open spec fn body_text(lines: Seq<Seq<char>>) -> Seq<char>
    decreases lines.len(),
{
    if lines.len() == 0 {
        Seq::empty()
    } else {
        let line = lines.last();
        body_text(lines.drop_last()) + (if line.len() == 0 {
            seq!['\n']
        } else {
            "  "@ + line + seq!['\n']
        })
    }
}

/// The hint part of a page: each hint on its own line after the marker.
pub open spec fn hints_text(hints: Seq<Seq<char>>, marker: Seq<char>) -> Seq<char>
    decreases hints.len(),
{
    if hints.len() == 0 {
        Seq::empty()
    } else {
        hints_text(hints.drop_last(), marker) + "  "@ + marker + seq![' '] + hints.last() + seq!['\n']
    }
}

/// "Step i of t".
pub open spec fn step_label(i: nat, t: nat) -> Seq<char> {
    "Step "@ + decimal(i) + " of "@ + decimal(t)
}

/// The header line of a page: title on the left, step label (if any)
/// right-aligned by byte count within `width`.
pub open spec fn header_text(title: Seq<char>, step: Option<(nat, nat)>, width: nat) -> Seq<char> {
    match step {
        Some((i, t)) => {
            let left = "◆ "@ + title;
            let label = step_label(i, t);
            let used = utf8_len(left) + utf8_len(label);
            let spacer: nat = if used >= width { 0 } else { (width - used) as nat };
            left + repeat(seq![' '], spacer) + label + seq!['\n']
        },
        None => "◆ "@ + title + seq!['\n'],
    }
}

/// The whole text of a page of the given width.
pub open spec fn screen_text(
    title: Seq<char>,
    subtitle: Option<Seq<char>>,
    step: Option<(nat, nat)>,
    body: Seq<Seq<char>>,
    hints: Seq<Seq<char>>,
    severity: ScreenSeverity,
    width: nat,
) -> Seq<char> {
    header_text(title, step, width) + repeat("─"@, width) + seq!['\n', '\n'] + (match subtitle {
        Some(s) => "  "@ + s + seq!['\n', '\n'],
        None => Seq::empty(),
    }) + body_text(body) + (if hints.len() == 0 {
        Seq::empty()
    } else {
        (if body.len() == 0 { Seq::<char>::empty() } else { seq!['\n'] }) + hints_text(hints, marker_of(severity))
    })
}

/// The step of a page, present when both the index and the total are.
pub open spec fn step_of(spec: ScreenSpec) -> Option<(nat, nat)> {
    match (spec.step_index, spec.step_total) {
        (Some(i), Some(t)) => Some((i as nat, t as nat)),
        _ => None,
    }
}

pub open spec fn subtitle_of(spec: ScreenSpec) -> Option<Seq<char>> {
    match spec.subtitle {
        Some(s) => Some(s@),
        None => None,
    }
}

fn push_body(out: &mut String, lines: &Vec<String>)
    ensures
        final(out)@ == old(out)@ + body_text(views(lines@)),
{
    let ghost start = out@;
    let mut i: usize = 0;
    while i < lines.len()
        invariant
            i <= lines@.len(),
            out@ == start + body_text(views(lines@.take(i as int))),
        decreases lines@.len() - i,
    {
        let line = &lines[i];
        if line.as_str().unicode_len() == 0 {
            push_char(out, '\n');
        } else {
            push_str(out, "  ");
            push_str(out, line.as_str());
            push_char(out, '\n');
        }
        i = i + 1;
        proof {
            let prefix = views(lines@.take(i as int));
            assert(prefix.drop_last() =~= views(lines@.take((i - 1) as int)));
            assert(prefix.last() == lines@[i - 1]@);
            assert(out@ =~= start + body_text(prefix));
        }
    }
    assert(lines@.take(i as int) =~= lines@);
}

fn push_hints(out: &mut String, hints: &Vec<String>, marker: &str)
    ensures
        final(out)@ == old(out)@ + hints_text(views(hints@), marker@),
{
    let ghost start = out@;
    let mut i: usize = 0;
    while i < hints.len()
        invariant
            i <= hints@.len(),
            out@ == start + hints_text(views(hints@.take(i as int)), marker@),
        decreases hints@.len() - i,
    {
        push_str(out, "  ");
        push_str(out, marker);
        push_char(out, ' ');
        push_str(out, hints[i].as_str());
        push_char(out, '\n');
        i = i + 1;
        proof {
            let prefix = views(hints@.take(i as int));
            assert(prefix.drop_last() =~= views(hints@.take((i - 1) as int)));
            assert(prefix.last() == hints@[i - 1]@);
            assert(out@ =~= start + hints_text(prefix, marker@));
        }
    }
    assert(hints@.take(i as int) =~= hints@);
}

fn step_header(title: &str, i: usize, t: usize, width: usize) -> (r: String)
    ensures
        r@ == header_text(title@, Some((i as nat, t as nat)), width as nat),
{
    let mut left = owned("◆ ");
    push_str(&mut left, title);
    let mut label = owned("Step ");
    push_decimal(&mut label, i as u64);
    push_str(&mut label, " of ");
    push_decimal(&mut label, t as u64);
    let a = byte_len(left.as_str());
    let b = byte_len(label.as_str());
    let spacer: usize = if a + b >= width as u128 { 0 } else { width - ((a + b) as usize) };
    let mut out = String::new();
    push_str(&mut out, left.as_str());
    push_repeat(&mut out, " ", spacer);
    push_str(&mut out, label.as_str());
    push_char(&mut out, '\n');
    proof {
        reveal_strlit(" ");
        assert(" "@ =~= seq![' ']);
        assert(left@ == "◆ "@ + title@);
        assert(label@ =~= step_label(i as nat, t as nat));
        assert(out@ =~= header_text(title@, Some((i as nat, t as nat)), width as nat));
    }
    out
}

fn push_header(out: &mut String, spec: &ScreenSpec, width: usize)
    ensures
        final(out)@ == old(out)@ + header_text(spec.title@, step_of(*spec), width as nat),
{
    match (spec.step_index, spec.step_total) {
        (Some(i), Some(t)) => {
            let h = step_header(spec.title.as_str(), i, t, width);
            push_str(out, h.as_str());
        },
        _ => {
            push_str(out, "◆ ");
            push_str(out, spec.title.as_str());
            push_char(out, '\n');
            assert(final(out)@ =~= old(out)@ + header_text(spec.title@, step_of(*spec), width as nat));
        },
    }
}

fn push_rule_and_subtitle(out: &mut String, spec: &ScreenSpec, width: usize)
    ensures
        final(out)@ == old(out)@ + repeat("─"@, width as nat) + seq!['\n', '\n'] + (match subtitle_of(*spec) {
            Some(s) => "  "@ + s + seq!['\n', '\n'],
            None => Seq::empty(),
        }),
{
    push_repeat(out, "─", width);
    push_char(out, '\n');
    push_char(out, '\n');
    if let Some(subtitle) = &spec.subtitle {
        push_str(out, "  ");
        push_str(out, subtitle.as_str());
        push_char(out, '\n');
        push_char(out, '\n');
    }
    assert(final(out)@ =~= old(out)@ + repeat("─"@, width as nat) + seq!['\n', '\n'] + (match subtitle_of(*spec) {
            Some(s) => "  "@ + s + seq!['\n', '\n'],
            None => Seq::empty(),
        }));
}

fn push_body_and_hints(out: &mut String, spec: &ScreenSpec)
    ensures
        final(out)@ == old(out)@ + body_text(views(spec.body_lines@)) + (if views(spec.hints@).len() == 0 {
            Seq::empty()
        } else {
            (if views(spec.body_lines@).len() == 0 { Seq::<char>::empty() } else { seq!['\n'] })
                + hints_text(views(spec.hints@), marker_of(spec.severity))
        }),
{
    push_body(out, &spec.body_lines);
    let ghost mid = out@;
    if spec.hints.len() > 0 {
        if spec.body_lines.len() > 0 {
            push_char(out, '\n');
        }
        push_hints(out, &spec.hints, severity_marker(spec.severity));
    }
    assert(final(out)@ =~= old(out)@ + body_text(views(spec.body_lines@)) + (if views(spec.hints@).len() == 0 {
            Seq::empty()
        } else {
            (if views(spec.body_lines@).len() == 0 { Seq::<char>::empty() } else { seq!['\n'] })
                + hints_text(views(spec.hints@), marker_of(spec.severity))
        }));
}

/// Lay out a page as text of the given width.
pub fn format_screen(spec: &ScreenSpec, width: usize) -> (r: String)
    ensures
        r@ == screen_text(
            spec.title@,
            subtitle_of(*spec),
            step_of(*spec),
            views(spec.body_lines@),
            views(spec.hints@),
            spec.severity,
            width as nat,
        ),
{
    let mut out = String::new();
    push_header(&mut out, spec, width);
    push_rule_and_subtitle(&mut out, spec, width);
    push_body_and_hints(&mut out, spec);
    proof {
        assert(out@ =~= screen_text(
            spec.title@,
            subtitle_of(*spec),
            step_of(*spec),
            views(spec.body_lines@),
            views(spec.hints@),
            spec.severity,
            width as nat,
        ));
    }
    out
}

/// The page shown while a prompt waits: the body gains an empty line and
/// "Prompt: ...".
pub fn prompt_screen(spec: &ScreenSpec, prompt: &str) -> (r: ScreenSpec)
    ensures
        r.title@ == spec.title@,
        subtitle_of(r) == subtitle_of(*spec),
        step_of(r) == step_of(*spec),
        views(r.body_lines@) == views(spec.body_lines@).push(Seq::empty()).push("Prompt: "@ + prompt@),
        views(r.hints@) == views(spec.hints@),
        r.severity == spec.severity,
{
    let mut r = spec.duplicate();
    let ghost before = views(r.body_lines@);
    r.body_lines.push(String::new());
    let mut line = owned("Prompt: ");
    push_str(&mut line, prompt);
    r.body_lines.push(line);
    proof {
        assert(views(r.body_lines@) =~= before.push(Seq::empty()).push("Prompt: "@ + prompt@));
        assert(subtitle_of(r) == subtitle_of(*spec));
    }
    r
}

/// The page shown after a prompt: the given severity, and the body gains an
/// empty line and the result line.
pub fn result_screen(spec: &ScreenSpec, severity: ScreenSeverity, result_line: String) -> (r: ScreenSpec)
    ensures
        r.title@ == spec.title@,
        subtitle_of(r) == subtitle_of(*spec),
        step_of(r) == step_of(*spec),
        views(r.body_lines@) == views(spec.body_lines@).push(Seq::empty()).push(result_line@),
        views(r.hints@) == views(spec.hints@),
        r.severity == severity,
{
    let mut r = spec.duplicate().severity(severity);
    let ghost before = views(r.body_lines@);
    r.body_lines.push(String::new());
    r.body_lines.push(result_line);
    proof {
        assert(views(r.body_lines@) =~= before.push(Seq::empty()).push(result_line@));
        assert(subtitle_of(r) == subtitle_of(*spec));
    }
    r
}

/// An error message means the user cancelled the prompt.
pub open spec fn cancelled_message(msg: Seq<char>) -> bool {
    contains(lower(msg), "cancel"@) || contains(lower(msg), "interrupt"@) || contains(lower(msg), "aborted"@)
}

pub fn is_cancelled_error(msg: &str) -> (b: bool)
    ensures
        b == cancelled_message(msg@),
{
    let l = to_lower(msg);
    contains_str(l.as_str(), "cancel") || contains_str(l.as_str(), "interrupt") || contains_str(
        l.as_str(),
        "aborted",
    )
}

/// The result line after a yes/no prompt.
pub fn confirm_result_line(value: bool, prompt: &str) -> (r: String)
    ensures
        r@ == (if value { "✓"@ } else { "○"@ }) + seq![' '] + prompt@,
{
    let mut out = if value { owned("✓") } else { owned("○") };
    push_char(&mut out, ' ');
    push_str(&mut out, prompt);
    out
}

/// The result line after a multi-selection.
pub fn multiselect_result_line(count: usize) -> (r: String)
    ensures
        r@ == "Selected "@ + decimal(count as nat) + " item(s)."@,
{
    let mut out = owned("Selected ");
    push_decimal(&mut out, count as u64);
    push_str(&mut out, " item(s).");
    out
}


/// The page text of a screen: its layout at the session's width.
pub open spec fn page_text(spec: ScreenSpec, width: usize) -> Seq<char> {
    screen_text(spec.title@, subtitle_of(spec), step_of(spec), views(spec.body_lines@), views(spec.hints@), spec.severity, width as nat)
}

/// Where wizard pages are shown: whether the output is a terminal (then
/// the screen is cleared before each page) and the page width.
#[derive(Debug)]
pub struct ScreenSession {
    pub interactive: bool,
    pub width: usize,
}

impl ScreenSession {
    /// A session 76 columns wide.
    pub fn new(interactive: bool) -> (r: Self)
        ensures
            r.interactive == interactive,
            r.width == 76,
    {
        ScreenSession { interactive, width: 76 }
    }

    /// The text of a page.
    pub fn render(&self, spec: &ScreenSpec) -> (r: String)
        ensures
            r@ == page_text(*spec, self.width),
    {
        format_screen(spec, self.width)
    }

    /// The text of a page waiting for an answer to `prompt`.
    pub fn render_with_prompt(&self, spec: &ScreenSpec, prompt: &str) -> (r: String)
        ensures
            exists|p: ScreenSpec|
                {
                    &&& p.title@ == spec.title@
                    &&& subtitle_of(p) == subtitle_of(*spec)
                    &&& step_of(p) == step_of(*spec)
                    &&& views(p.body_lines@) == views(spec.body_lines@).push(Seq::empty()).push("Prompt: "@ + prompt@)
                    &&& views(p.hints@) == views(spec.hints@)
                    &&& p.severity == spec.severity
                    &&& r@ == page_text(p, self.width)
                },
    {
        let p = prompt_screen(spec, prompt);
        format_screen(&p, self.width)
    }
}

/// After a masked entry was read: the result page to show and the answer.
/// A read that failed because the user cancelled is a cancelled prompt;
/// any other failure is passed on.
pub fn screen_password_masked(session: &ScreenSession, spec: &ScreenSpec, read: Result<String, String>) -> (r: Result<
    (String, PromptResult<String>),
    String,
>)
    ensures
        match read {
            Ok(v) => r matches Ok((page, answer)) && answer.value == Some(v) && !answer.cancelled && exists|p: ScreenSpec|
                {
                    &&& p.title@ == spec.title@
                    &&& views(p.body_lines@) == views(spec.body_lines@).push(Seq::empty()).push("Input captured."@)
                    &&& p.severity == ScreenSeverity::Success
                    &&& subtitle_of(p) == subtitle_of(*spec)
                    &&& step_of(p) == step_of(*spec)
                    &&& views(p.hints@) == views(spec.hints@)
                    &&& page@ == page_text(p, session.width)
                },
            Err(e) => if cancelled_message(e@) {
                r matches Ok((page, answer)) && answer.value is None && answer.cancelled && exists|p: ScreenSpec|
                    {
                        &&& p.title@ == spec.title@
                        &&& views(p.body_lines@) == views(spec.body_lines@).push(Seq::empty()).push(
                            "Cancelled by user."@,
                        )
                        &&& p.severity == ScreenSeverity::Warning
                        &&& subtitle_of(p) == subtitle_of(*spec)
                        &&& step_of(p) == step_of(*spec)
                        &&& views(p.hints@) == views(spec.hints@)
                        &&& page@ == page_text(p, session.width)
                    }
            } else {
                r == Err::<(String, PromptResult<String>), String>(e)
            },
        },
{
    match read {
        Ok(v) => {
            let p = result_screen(spec, ScreenSeverity::Success, owned("Input captured."));
            let page = format_screen(&p, session.width);
            Ok((page, PromptResult::value(v)))
        },
        Err(e) => {
            if is_cancelled_error(e.as_str()) {
                let p = result_screen(spec, ScreenSeverity::Warning, owned("Cancelled by user."));
                let page = format_screen(&p, session.width);
                Ok((page, PromptResult::cancelled()))
            } else {
                Err(e)
            }
        },
    }
}


/// `page` is the text of `spec` after a prompt: the given severity, and
/// the body followed by an empty line and `line`.
pub open spec fn is_result_page(page: Seq<char>, spec: ScreenSpec, severity: ScreenSeverity, line: Seq<char>, width: usize) -> bool {
    exists|p: ScreenSpec|
        {
            &&& p.title@ == spec.title@
            &&& views(p.body_lines@) == views(spec.body_lines@).push(Seq::empty()).push(line)
            &&& p.severity == severity
            &&& subtitle_of(p) == subtitle_of(spec)
            &&& step_of(p) == step_of(spec)
            &&& views(p.hints@) == views(spec.hints@)
            &&& page == page_text(p, width)
        }
}

fn result_page(session: &ScreenSession, spec: &ScreenSpec, severity: ScreenSeverity, line: String) -> (r: String)
    ensures
        is_result_page(r@, *spec, severity, line@, session.width),
{
    let p = result_screen(spec, severity, line);
    format_screen(&p, session.width)
}

/// After a menu-style prompt that can be dismissed: an answer is shown
/// with `line`, a dismissal or an interruption as cancelled; any other
/// failure is passed on.
pub open spec fn answered<T>(
    answer: Result<Option<T>, String>,
    r: Result<(String, PromptResult<T>), String>,
    spec: ScreenSpec,
    line: Seq<char>,
    width: usize,
) -> bool {
    match answer {
        Ok(Some(v)) => r matches Ok((page, res)) && res.value == Some(v) && !res.cancelled && is_result_page(
            page@,
            spec,
            ScreenSeverity::Success,
            line,
            width,
        ),
        Ok(None) => r matches Ok((page, res)) && res.value is None && res.cancelled && is_result_page(
            page@,
            spec,
            ScreenSeverity::Warning,
            "Cancelled by user."@,
            width,
        ),
        Err(e) => if cancelled_message(e@) {
            r matches Ok((page, res)) && res.value is None && res.cancelled && is_result_page(
                page@,
                spec,
                ScreenSeverity::Warning,
                "Cancelled by user."@,
                width,
            )
        } else {
            r == Err::<(String, PromptResult<T>), String>(e)
        },
    }
}

fn dismissed<T>(session: &ScreenSession, spec: &ScreenSpec, error: Option<String>) -> (r: Result<(String, PromptResult<T>), String>)
    ensures
        match error {
            None => r matches Ok((page, res)) && res.value is None && res.cancelled && is_result_page(
                page@,
                *spec,
                ScreenSeverity::Warning,
                "Cancelled by user."@,
                session.width,
            ),
            Some(e) => if cancelled_message(e@) {
                r matches Ok((page, res)) && res.value is None && res.cancelled && is_result_page(
                    page@,
                    *spec,
                    ScreenSeverity::Warning,
                    "Cancelled by user."@,
                    session.width,
                )
            } else {
                r == Err::<(String, PromptResult<T>), String>(e)
            },
        },
{
    match error {
        Some(e) => {
            if !is_cancelled_error(e.as_str()) {
                return Err(e);
            }
        },
        None => {},
    }
    let page = result_page(session, spec, ScreenSeverity::Warning, owned("Cancelled by user."));
    Ok((page, PromptResult::cancelled()))
}

/// After a yes/no prompt.
pub fn screen_confirm(session: &ScreenSession, spec: &ScreenSpec, prompt: &str, answer: Result<Option<bool>, String>) -> (r:
    Result<(String, PromptResult<bool>), String>)
    ensures
        answered(
            answer,
            r,
            *spec,
            (if answer matches Ok(Some(true)) {
                "✓"@
            } else {
                "○"@
            }) + seq![' '] + prompt@,
            session.width,
        ),
{
    match answer {
        Ok(Some(v)) => {
            let page = result_page(session, spec, ScreenSeverity::Success, confirm_result_line(v, prompt));
            Ok((page, PromptResult::value(v)))
        },
        Ok(None) => dismissed(session, spec, None),
        Err(e) => dismissed(session, spec, Some(e)),
    }
}

/// After a text prompt (which cannot be dismissed without an error).
pub fn screen_input(session: &ScreenSession, spec: &ScreenSpec, answer: Result<String, String>) -> (r: Result<
    (String, PromptResult<String>),
    String,
>)
    ensures
        match answer {
            Ok(v) => answered(Ok(Some(v)), r, *spec, "Input captured."@, session.width),
            Err(e) => answered(Err(e), r, *spec, "Input captured."@, session.width),
        },
{
    match answer {
        Ok(v) => {
            let page = result_page(session, spec, ScreenSeverity::Success, owned("Input captured."));
            Ok((page, PromptResult::value(v)))
        },
        Err(e) => dismissed(session, spec, Some(e)),
    }
}

/// After picking one of `items`.
pub fn screen_select(session: &ScreenSession, spec: &ScreenSpec, items: &[String], answer: Result<Option<usize>, String>) -> (r:
    Result<(String, PromptResult<usize>), String>)
    requires
        answer matches Ok(Some(i)) ==> i < items@.len(),
    ensures
        answered(
            answer,
            r,
            *spec,
            match answer {
                Ok(Some(i)) => "Selected: "@ + items@[i as int]@,
                _ => Seq::empty(),
            },
            session.width,
        ),
{
    match answer {
        Ok(Some(i)) => {
            let line = crate::text::concat("Selected: ", items[i].as_str());
            let page = result_page(session, spec, ScreenSeverity::Success, line);
            Ok((page, PromptResult::value(i)))
        },
        Ok(None) => dismissed(session, spec, None),
        Err(e) => dismissed(session, spec, Some(e)),
    }
}

/// After picking several items.
pub fn screen_multiselect(session: &ScreenSession, spec: &ScreenSpec, answer: Result<Option<Vec<usize>>, String>) -> (r:
    Result<(String, PromptResult<Vec<usize>>), String>)
    ensures
        answered(
            answer,
            r,
            *spec,
            match answer {
                Ok(Some(v)) => "Selected "@ + decimal(v@.len()) + " item(s)."@,
                _ => Seq::empty(),
            },
            session.width,
        ),
{
    match answer {
        Ok(Some(v)) => {
            let line = multiselect_result_line(v.len());
            let page = result_page(session, spec, ScreenSeverity::Success, line);
            Ok((page, PromptResult::value(v)))
        },
        Ok(None) => dismissed(session, spec, None),
        Err(e) => dismissed(session, spec, Some(e)),
    }
}

/// A multi-selection needs one default per item.
pub fn check_multiselect_defaults(items: usize, defaults: usize) -> (r: Result<(), String>)
    ensures
        items == defaults ==> r is Ok,
        items != defaults ==> (r matches Err(m) && m@ == "screen_multiselect: items ("@ + decimal(items as nat)
            + ") and defaults ("@ + decimal(defaults as nat) + ") lengths differ"@),
{
    if items == defaults {
        Ok(())
    } else {
        let mut m = owned("screen_multiselect: items (");
        push_decimal(&mut m, items as u64);
        push_str(&mut m, ") and defaults (");
        push_decimal(&mut m, defaults as u64);
        push_str(&mut m, ") lengths differ");
        Err(m)
    }
}

} // verus!
