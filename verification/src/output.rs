//! The `status` command's text output: the status table with its per-
//! provider badges and ages, the project health bars, and the compact
//! one-line-per-project listing. Colours are ANSI escapes, used only when
//! the caller asks for them.

use vstd::prelude::*;
use crate::domain::{CorrelatedEvent, DeploymentEvent, DeploymentStatus};
use crate::screen::{byte_len, utf8_len};
use crate::text::{
    char_at, char_count, decimal, owned, pad_left, pad_right, padded_left, padded_right, push_char, push_decimal,
    push_repeat, push_str, repeat, truncate, truncate_chars,
};

verus! {

/// Colour escapes.
pub open spec fn green() -> Seq<char> {
    "\x1b[38;2;52;211;153m"@
}

pub open spec fn red() -> Seq<char> {
    "\x1b[38;2;248;113;113m"@
}

pub open spec fn blue() -> Seq<char> {
    "\x1b[38;2;96;165;250m"@
}

pub open spec fn grey() -> Seq<char> {
    "\x1b[38;2;156;163;175m"@
}

pub open spec fn amber() -> Seq<char> {
    "\x1b[38;2;251;191;36m"@
}

pub open spec fn reset() -> Seq<char> {
    "\x1b[0m"@
}

/// Symbol, label and colour of a status in the table.
pub open spec fn badge_parts(status: DeploymentStatus) -> (Seq<char>, Seq<char>, Seq<char>) {
    match status {
        DeploymentStatus::Success => ("✓ "@, "passed"@, green()),
        DeploymentStatus::Failed => ("✗ "@, "failed"@, red()),
        DeploymentStatus::InProgress => ("◌ "@, "building"@, blue()),
        DeploymentStatus::Queued => ("⏸ "@, "queued"@, grey()),
        DeploymentStatus::Cancelled => ("— "@, "cancelled"@, grey()),
        DeploymentStatus::Skipped => ("— "@, "skipped"@, grey()),
        DeploymentStatus::ActionRequired => ("⚠ "@, "action"@, amber()),
        DeploymentStatus::Sleeping => ("● "@, "sleeping"@, grey()),
        DeploymentStatus::Unknown(s) => ("? "@, s@, grey()),
    }
}

/// The table badge of a status: symbol and label, coloured on request.
pub open spec fn badge_text(status: DeploymentStatus, colored: bool) -> Seq<char> {
    let (sym, label, code) = badge_parts(status);
    if colored {
        code + sym + label + reset()
    } else {
        sym + label
    }
}

fn badge_pieces(status: &DeploymentStatus) -> (r: (&'static str, String, &'static str))
    ensures
        (r.0@, r.1@, r.2@) == badge_parts(*status),
{
    match status {
        DeploymentStatus::Success => ("✓ ", owned("passed"), "\x1b[38;2;52;211;153m"),
        DeploymentStatus::Failed => ("✗ ", owned("failed"), "\x1b[38;2;248;113;113m"),
        DeploymentStatus::InProgress => ("◌ ", owned("building"), "\x1b[38;2;96;165;250m"),
        DeploymentStatus::Queued => ("⏸ ", owned("queued"), "\x1b[38;2;156;163;175m"),
        DeploymentStatus::Cancelled => ("— ", owned("cancelled"), "\x1b[38;2;156;163;175m"),
        DeploymentStatus::Skipped => ("— ", owned("skipped"), "\x1b[38;2;156;163;175m"),
        DeploymentStatus::ActionRequired => ("⚠ ", owned("action"), "\x1b[38;2;251;191;36m"),
        DeploymentStatus::Sleeping => ("● ", owned("sleeping"), "\x1b[38;2;156;163;175m"),
        DeploymentStatus::Unknown(s) => ("? ", s.clone(), "\x1b[38;2;156;163;175m"),
    }
}

/// Returns the symbol and label of a status, with ANSI colour when
/// `colored`.
pub fn status_badge_ansi(status: &DeploymentStatus, colored: bool) -> (r: String)
    ensures
        r@ == badge_text(*status, colored),
{
    let (sym, label, code) = badge_pieces(status);
    let mut out = String::new();
    if colored {
        push_str(&mut out, code);
    }
    push_str(&mut out, sym);
    push_str(&mut out, label.as_str());
    if colored {
        push_str(&mut out, "\x1b[0m");
    }
    out
}

/// Plain status label (no colour, no symbol).
pub fn status_indicator(status: &DeploymentStatus) -> (r: String)
    ensures
        r@ == badge_parts(*status).1,
{
    badge_pieces(status).1
}

/// Whole seconds from `from_ms` to `to_ms`, truncated toward zero.
pub open spec fn whole_secs(from_ms: int, to_ms: int) -> int {
    if to_ms >= from_ms {
        (to_ms - from_ms) / 1000
    } else {
        -((from_ms - to_ms) / 1000)
    }
}

/// The age of something created at `created_ms`, seen at `now_ms`.
pub open spec fn age_of(created_ms: int, now_ms: int) -> Seq<char> {
    let secs = whole_secs(created_ms, now_ms);
    if secs < 60 {
        "just now"@
    } else if secs < 3600 {
        decimal((secs / 60) as nat) + "m ago"@
    } else if secs < 86400 {
        decimal((secs / 3600) as nat) + "h ago"@
    } else {
        decimal((secs / 86400) as nat) + "d ago"@
    }
}

/// Age of something created at `created_ms` (ms since the epoch) at time
/// `now_ms`: "just now", minutes, hours or days.
pub fn format_age(created_ms: i64, now_ms: i64) -> (r: String)
    ensures
        r@ == age_of(created_ms as int, now_ms as int),
{
    if now_ms < created_ms {
        return owned("just now");
    }
    let secs: u64 = ((now_ms as i128 - created_ms as i128) / 1000) as u64;
    let mut out = String::new();
    if secs < 60 {
        return owned("just now");
    } else if secs < 3600 {
        push_decimal(&mut out, secs / 60);
        push_str(&mut out, "m ago");
    } else if secs < 86400 {
        push_decimal(&mut out, secs / 3600);
        push_str(&mut out, "h ago");
    } else {
        push_decimal(&mut out, secs / 86400);
        push_str(&mut out, "d ago");
    }
    out
}

pub open spec fn duration_text(secs: nat) -> Seq<char> {
    if secs < 60 {
        decimal(secs) + "s"@
    } else if secs < 3600 {
        decimal(secs / 60) + "m "@ + decimal(secs % 60) + "s"@
    } else {
        decimal(secs / 3600) + "h "@ + decimal((secs % 3600) / 60) + "m"@
    }
}

/// A duration in seconds: "42s", "3m 5s" or "2h 10m".
pub fn format_duration(secs: u64) -> (r: String)
    ensures
        r@ == duration_text(secs as nat),
{
    let mut out = String::new();
    if secs < 60 {
        push_decimal(&mut out, secs);
        push_str(&mut out, "s");
    } else if secs < 3600 {
        push_decimal(&mut out, secs / 60);
        push_str(&mut out, "m ");
        push_decimal(&mut out, secs % 60);
        push_str(&mut out, "s");
    } else {
        push_decimal(&mut out, secs / 3600);
        push_str(&mut out, "h ");
        push_decimal(&mut out, (secs % 3600) / 60);
        push_str(&mut out, "m");
    }
    out
}

/// Colour around a health score: green from 90, amber from 70, else red;
/// nothing uncoloured.
pub fn health_color_ansi(score: u8, colored: bool) -> (r: (&'static str, &'static str))
    ensures
        (r.0@, r.1@) == (if !colored {
            (Seq::<char>::empty(), Seq::<char>::empty())
        } else if score >= 90 {
            (green(), reset())
        } else if score >= 70 {
            (amber(), reset())
        } else {
            (red(), reset())
        }),
{
    proof {
        reveal_strlit("");
    }
    if !colored {
        return ("", "");
    }
    if score >= 90 {
        ("\x1b[38;2;52;211;153m", "\x1b[0m")
    } else if score >= 70 {
        ("\x1b[38;2;251;191;36m", "\x1b[0m")
    } else {
        ("\x1b[38;2;248;113;113m", "\x1b[0m")
    }
}

pub open spec fn dim() -> Seq<char> {
    "\x1b[38;2;85;85;85m"@
}

pub open spec fn bold_subtle() -> Seq<char> {
    "\x1b[1;38;2;119;119;119m"@
}

/// Dim colour, or nothing.
pub fn dim_ansi(colored: bool) -> (r: (&'static str, &'static str))
    ensures
        (r.0@, r.1@) == (if colored { (dim(), reset()) } else { (Seq::<char>::empty(), Seq::<char>::empty()) }),
{
    proof {
        reveal_strlit("");
    }
    if colored {
        ("\x1b[38;2;85;85;85m", "\x1b[0m")
    } else {
        ("", "")
    }
}

/// Bold subtle colour for headers, or nothing.
pub fn bold_subtle_ansi(colored: bool) -> (r: (&'static str, &'static str))
    ensures
        (r.0@, r.1@) == (if colored {
            (bold_subtle(), reset())
        } else {
            (Seq::<char>::empty(), Seq::<char>::empty())
        }),
{
    proof {
        reveal_strlit("");
    }
    if colored {
        ("\x1b[1;38;2;119;119;119m", "\x1b[0m")
    } else {
        ("", "")
    }
}

/// Whether an escape sequence is open after `s`.
pub open spec fn in_escape(s: Seq<char>) -> bool
    decreases s.len(),
{
    if s.len() == 0 {
        false
    } else if s.last() == '\x1b' {
        true
    } else if in_escape(s.drop_last()) {
        s.last() != 'm'
    } else {
        false
    }
}

/// Number of visible characters: those outside ANSI escape sequences (an
/// escape runs from ESC to the next `m`).
pub open spec fn visible_len(s: Seq<char>) -> nat
    decreases s.len(),
{
    if s.len() == 0 {
        0
    } else {
        visible_len(s.drop_last()) + (if s.last() != '\x1b' && !in_escape(s.drop_last()) { 1nat } else { 0nat })
    }
}

/// Count visible characters in a string that may contain ANSI codes.
pub fn strip_ansi_len(s: &str) -> (r: usize)
    ensures
        r == visible_len(s@),
{
    let n = char_count(s);
    let mut len: usize = 0;
    let mut esc = false;
    let mut i: usize = 0;
    while i < n
        invariant
            i <= n,
            n == s@.len(),
            len == visible_len(s@.take(i as int)),
            len <= i,
            esc == in_escape(s@.take(i as int)),
        decreases n - i,
    {
        let ch = char_at(s, i);
        assert(s@.take(i + 1).drop_last() =~= s@.take(i as int));
        if ch == '\x1b' {
            esc = true;
        } else if esc {
            if ch == 'm' {
                esc = false;
            }
        } else {
            len = len + 1;
        }
        i = i + 1;
    }
    assert(s@.take(n as int) =~= s@);
    len
}

/// `s` padded with spaces to `width` visible characters.
pub open spec fn pad_visible(s: Seq<char>, width: nat) -> Seq<char> {
    if visible_len(s) >= width {
        s
    } else {
        s + repeat(seq![' '], (width - visible_len(s)) as nat)
    }
}

/// Pad a string that may hold ANSI codes to `width` visible characters.
pub fn pad_right_ansi(s: &str, width: usize) -> (r: String)
    ensures
        r@ == pad_visible(s@, width as nat),
{
    let visible = strip_ansi_len(s);
    let mut out = owned(s);
    if visible < width {
        push_repeat(&mut out, " ", width - visible);
        proof {
            reveal_strlit(" ");
            assert(" "@ =~= seq![' ']);
        }
    }
    out
}

/// The title of an optional event, when it has one.
pub open spec fn title_of(e: Option<DeploymentEvent>) -> Option<Seq<char>> {
    match e {
        Some(ev) => match ev.title {
            Some(t) => Some(t@),
            None => None,
        },
        None => None,
    }
}

/// How many leading characters of `s` fit in `n` UTF-8 bytes.
pub open spec fn chars_within(s: Seq<char>, n: int) -> nat
    decreases s.len(),
{
    if s.len() == 0 {
        0
    } else if crate::screen::char_utf8_len(s[0]) <= n {
        1 + chars_within(s.skip(1), n - crate::screen::char_utf8_len(s[0]))
    } else {
        0
    }
}

/// A commit hash cut to its first eight bytes when longer.
pub open spec fn short_hash(s: Seq<char>) -> Seq<char> {
    if utf8_len(s) > 8 {
        s.take(chars_within(s, 8) as int)
    } else {
        s
    }
}

proof fn lemma_chars_within_le(s: Seq<char>, n: int)
    ensures
        chars_within(s, n) <= s.len(),
    decreases s.len(),
{
    if s.len() > 0 {
        lemma_chars_within_le(s.skip(1), n - crate::screen::char_utf8_len(s[0]));
    }
}

/// The leading characters of `s` that fit in `limit` UTF-8 bytes.
pub(crate) fn leading_bytes(s: &str, limit: u32) -> (r: String)
    ensures
        r@ == s@.take(chars_within(s@, limit as int) as int),
{
    let n = char_count(s);
    let mut budget: u32 = limit;
    let mut k: usize = 0;
    assert(s@.skip(0) =~= s@);
    while k < n
        invariant
            k <= n,
            n == s@.len(),
            budget <= limit,
            chars_within(s@, limit as int) == k + chars_within(s@.skip(k as int), budget as int),
        ensures
            k <= n,
            chars_within(s@, limit as int) == k,
        decreases n - k,
    {
        let c = char_at(s, k);
        let w: u32 = if (c as u32) < 0x80 {
            1
        } else if (c as u32) < 0x800 {
            2
        } else if (c as u32) < 0x10000 {
            3
        } else {
            4
        };
        assert(s@.skip(k as int)[0] == c);
        assert(crate::screen::char_utf8_len(c) == w);
        if w > budget {
            assert(chars_within(s@.skip(k as int), budget as int) == 0);
            break;
        }
        assert(s@.skip(k as int).skip(1) =~= s@.skip(k + 1));
        budget = budget - w;
        k = k + 1;
    }
    proof {
        lemma_chars_within_le(s@, limit as int);
    }
    let mut out = String::new();
    crate::text::push_prefix(&mut out, s, k);
    assert(Seq::<char>::empty() + s@.take(k as int) =~= s@.take(k as int));
    out
}

/// The name shown for a group of events: the project's name, else the
/// Vercel, Railway or GitHub title, else the short commit hash, else "-".
pub open spec fn project_label(c: CorrelatedEvent) -> Seq<char> {
    match c.project_name {
        Some(p) => p@,
        None => match title_of(c.vercel) {
            Some(t) => t,
            None => match title_of(c.railway) {
                Some(t) => t,
                None => match title_of(c.github) {
                    Some(t) => t,
                    None => match c.commit_sha {
                        Some(s) => short_hash(s@),
                        None => "-"@,
                    },
                },
            },
        },
    }
}

fn event_title(e: &Option<DeploymentEvent>) -> (r: Option<&String>)
    ensures
        match r {
            Some(t) => title_of(*e) == Some(t@),
            None => title_of(*e) is None,
        },
{
    match e {
        Some(ev) => match &ev.title {
            Some(t) => Some(t),
            None => None,
        },
        None => None,
    }
}

pub(crate) fn project_name_of(c: &CorrelatedEvent) -> (r: String)
    ensures
        r@ == project_label(*c),
{
    if let Some(p) = &c.project_name {
        return p.clone();
    }
    if let Some(t) = event_title(&c.vercel) {
        return t.clone();
    }
    if let Some(t) = event_title(&c.railway) {
        return t.clone();
    }
    if let Some(t) = event_title(&c.github) {
        return t.clone();
    }
    match &c.commit_sha {
        Some(s) => {
            if byte_len(s.as_str()) > 8 {
                leading_bytes(s.as_str(), 8)
            } else {
                s.clone()
            }
        },
        None => owned("-"),
    }
}

/// The cell of one provider: its badge, or a dimmed dash.
pub open spec fn provider_cell(e: Option<DeploymentEvent>, colored: bool) -> Seq<char> {
    match e {
        Some(ev) => badge_text(ev.status, colored),
        None => if colored { dim() + "—"@ + reset() } else { "—"@ },
    }
}

fn provider_cell_text(e: &Option<DeploymentEvent>, colored: bool) -> (r: String)
    ensures
        r@ == provider_cell(*e, colored),
{
    match e {
        Some(ev) => status_badge_ansi(&ev.status, colored),
        None => {
            let (d, r) = dim_ansi(colored);
            let mut out = owned(d);
            push_str(&mut out, "—");
            push_str(&mut out, r);
            proof {
                if !colored {
                    assert(out@ =~= "—"@);
                }
            }
            out
        },
    }
}

/// One row of the status table.
pub open spec fn table_row(c: CorrelatedEvent, colored: bool, now_ms: int) -> Seq<char> {
    let age = if c.is_stale { age_of(c.timestamp as int, now_ms) + " ●"@ } else { age_of(c.timestamp as int, now_ms) };
    pad_right(truncate_chars(project_label(c), 16), 16) + "  "@ + pad_visible(provider_cell(c.github, colored), 12)
        + "  "@ + pad_visible(provider_cell(c.railway, colored), 12) + "  "@ + pad_visible(
        provider_cell(c.vercel, colored),
        12,
    ) + "  "@ + truncate_chars(age, 8)
}

/// The header line of the status table.
pub open spec fn table_header(colored: bool) -> Seq<char> {
    (if colored { bold_subtle() } else { Seq::empty() }) + "Project         "@ + "  "@ + "GitHub CI   "@ + "  "@
        + "Railway     "@ + "  "@ + "Vercel      "@ + "  "@ + "Health"@ + (if colored { reset() } else { Seq::empty() })
}

/// The rule under the header: 72 dashes (the column widths and gaps).
pub open spec fn table_rule(colored: bool) -> Seq<char> {
    (if colored { dim() } else { Seq::empty() }) + repeat("─"@, 72) + (if colored { reset() } else { Seq::empty() })
}

/// The lines of the status table; a single notice when there is nothing.
pub open spec fn table_lines(events: Seq<CorrelatedEvent>, colored: bool, now_ms: int) -> Seq<Seq<char>> {
    if events.len() == 0 {
        seq!["No deployment events found."@]
    } else {
        seq![table_header(colored), table_rule(colored)] + events.map_values(
            |c: CorrelatedEvent| table_row(c, colored, now_ms),
        )
    }
}

fn table_row_text(c: &CorrelatedEvent, colored: bool, now_ms: i64) -> (r: String)
    ensures
        r@ == table_row(*c, colored, now_ms as int),
{
    let name = project_name_of(c);
    let project = truncate(name.as_str(), 16);
    let mut out = padded_right(project.as_str(), 16);
    push_str(&mut out, "  ");
    let gh = provider_cell_text(&c.github, colored);
    let gh = pad_right_ansi(gh.as_str(), 12);
    push_str(&mut out, gh.as_str());
    push_str(&mut out, "  ");
    let rw = provider_cell_text(&c.railway, colored);
    let rw = pad_right_ansi(rw.as_str(), 12);
    push_str(&mut out, rw.as_str());
    push_str(&mut out, "  ");
    let vc = provider_cell_text(&c.vercel, colored);
    let vc = pad_right_ansi(vc.as_str(), 12);
    push_str(&mut out, vc.as_str());
    push_str(&mut out, "  ");
    let mut age = format_age(c.timestamp, now_ms);
    if c.is_stale {
        push_str(&mut age, " ●");
    }
    let age = truncate(age.as_str(), 8);
    push_str(&mut out, age.as_str());
    out
}

/// Render the grouped events as the status table, one line each.
pub fn correlated_table_lines(events: &Vec<CorrelatedEvent>, colored: bool, now_ms: i64) -> (r: Vec<String>)
    ensures
        r@.map_values(|s: String| s@) == table_lines(events@, colored, now_ms as int),
{
    let mut lines: Vec<String> = Vec::new();
    if events.len() == 0 {
        lines.push(owned("No deployment events found."));
        assert(lines@.map_values(|s: String| s@) =~= table_lines(events@, colored, now_ms as int));
        return lines;
    }
    let (hdr, hdr_reset) = bold_subtle_ansi(colored);
    let mut header = owned(hdr);
    push_str(&mut header, "Project         ");
    push_str(&mut header, "  ");
    push_str(&mut header, "GitHub CI   ");
    push_str(&mut header, "  ");
    push_str(&mut header, "Railway     ");
    push_str(&mut header, "  ");
    push_str(&mut header, "Vercel      ");
    push_str(&mut header, "  ");
    push_str(&mut header, "Health");
    push_str(&mut header, hdr_reset);
    lines.push(header);
    let (d, d_reset) = dim_ansi(colored);
    let mut rule = owned(d);
    push_repeat(&mut rule, "─", 72);
    push_str(&mut rule, d_reset);
    lines.push(rule);
    let ghost head = lines@.map_values(|s: String| s@);
    assert(head =~= seq![table_header(colored), table_rule(colored)]);
    let mut i: usize = 0;
    while i < events.len()
        invariant
            i <= events@.len(),
            lines@.map_values(|s: String| s@) == head + events@.take(i as int).map_values(
                |c: CorrelatedEvent| table_row(c, colored, now_ms as int),
            ),
        decreases events@.len() - i,
    {
        let row = table_row_text(&events[i], colored, now_ms);
        let ghost before = lines@;
        lines.push(row);
        proof {
            assert(lines@ =~= before.push(row));
            assert(lines@.map_values(|s: String| s@) =~= before.map_values(|s: String| s@).push(row@));
            assert(events@.take(i + 1) =~= events@.take(i as int).push(events@[i as int]));
            assert(events@.take(i + 1).map_values(|c: CorrelatedEvent| table_row(c, colored, now_ms as int))
                =~= events@.take(i as int).map_values(|c: CorrelatedEvent| table_row(c, colored, now_ms as int)).push(
                table_row(events@[i as int], colored, now_ms as int),
            ));
        }
        i = i + 1;
    }
    assert(events@.take(i as int) =~= events@);
    lines
}

/// The longest name in bytes, at least 7.
pub open spec fn name_width(scores: Seq<(String, u8)>) -> nat
    decreases scores.len(),
{
    if scores.len() == 0 {
        7
    } else {
        let w = name_width(scores.drop_last());
        let l = utf8_len(scores.last().0@);
        if l > w { l } else { w }
    }
}

/// One health line: name, coloured score and a 20-cell bar.
pub open spec fn health_line(name: Seq<char>, score: u8, width: nat, colored: bool) -> Seq<char> {
    let filled = (score as nat) * 20 / 100;
    let (open, close) = if !colored {
        (Seq::<char>::empty(), Seq::<char>::empty())
    } else if score >= 90 {
        (green(), reset())
    } else if score >= 70 {
        (amber(), reset())
    } else {
        (red(), reset())
    };
    "  "@ + pad_right(name, width) + "  "@ + open + pad_left(decimal(score as nat), 3) + close + "  "@ + repeat(
        "█"@,
        filled,
    ) + repeat("░"@, (20 - filled) as nat)
}

/// The health summary lines; nothing when there are no scores.
pub open spec fn health_lines(scores: Seq<(String, u8)>, colored: bool) -> Seq<Seq<char>> {
    if scores.len() == 0 {
        Seq::empty()
    } else {
        seq![
            Seq::<char>::empty(),
            (if colored { bold_subtle() } else { Seq::empty() }) + "Project Health"@ + (if colored {
                reset()
            } else {
                Seq::empty()
            }),
            (if colored { dim() } else { Seq::empty() }) + repeat("─"@, 45) + (if colored {
                reset()
            } else {
                Seq::empty()
            }),
        ] + scores.map_values(|e: (String, u8)| health_line(e.0@, e.1, name_width(scores), colored))
    }
}

fn widest_name(scores: &Vec<(String, u8)>) -> (w: u128)
    ensures
        w == name_width(scores@),
{
    let mut w: u128 = 7;
    let mut i: usize = 0;
    while i < scores.len()
        invariant
            i <= scores@.len(),
            w == name_width(scores@.take(i as int)),
            w <= 4 * (usize::MAX as nat),
        decreases scores@.len() - i,
    {
        let l = byte_len(scores[i].0.as_str());
        assert(scores@.take(i + 1).drop_last() =~= scores@.take(i as int));
        if l > w {
            w = l;
        }
        i = i + 1;
    }
    assert(scores@.take(i as int) =~= scores@);
    w
}

/// Render per-project health scores as a bar chart, one line each.
pub fn health_score_lines(scores: &Vec<(String, u8)>, colored: bool) -> (r: Vec<String>)
    requires
        name_width(scores@) <= usize::MAX,
        forall|i: int| 0 <= i < scores@.len() ==> (#[trigger] scores@[i]).1 <= 100,
    ensures
        r@.map_values(|s: String| s@) == health_lines(scores@, colored),
{
    let mut lines: Vec<String> = Vec::new();
    if scores.len() == 0 {
        assert(lines@.map_values(|s: String| s@) =~= health_lines(scores@, colored));
        return lines;
    }
    let (hdr, hdr_reset) = bold_subtle_ansi(colored);
    let (d, d_reset) = dim_ansi(colored);
    lines.push(String::new());
    let mut title = owned(hdr);
    push_str(&mut title, "Project Health");
    push_str(&mut title, hdr_reset);
    lines.push(title);
    let mut rule = owned(d);
    push_repeat(&mut rule, "─", 45);
    push_str(&mut rule, d_reset);
    lines.push(rule);
    let ghost head = lines@.map_values(|s: String| s@);
    assert(head =~= seq![
        Seq::<char>::empty(),
        (if colored { bold_subtle() } else { Seq::empty() }) + "Project Health"@ + (if colored {
            reset()
        } else {
            Seq::empty()
        }),
        (if colored { dim() } else { Seq::empty() }) + repeat("─"@, 45) + (if colored { reset() } else { Seq::empty() }),
    ]);
    let width = widest_name(scores);
    let mut i: usize = 0;
    while i < scores.len()
        invariant
            i <= scores@.len(),
            width == name_width(scores@),
            width <= usize::MAX,
            forall|k: int| 0 <= k < scores@.len() ==> (#[trigger] scores@[k]).1 <= 100,
            lines@.map_values(|s: String| s@) == head + scores@.take(i as int).map_values(
                |e: (String, u8)| health_line(e.0@, e.1, name_width(scores@), colored),
            ),
        decreases scores@.len() - i,
    {
        let name = &scores[i].0;
        let score = scores[i].1;
        let (open, close) = health_color_ansi(score, colored);
        let filled: usize = (score as usize) * 20 / 100;
        let mut line = owned("  ");
        let padded = padded_right(name.as_str(), width as usize);
        push_str(&mut line, padded.as_str());
        push_str(&mut line, "  ");
        push_str(&mut line, open);
        let digits = crate::text::decimal_string(score as u64);
        let sc = padded_left(digits.as_str(), 3);
        push_str(&mut line, sc.as_str());
        push_str(&mut line, close);
        push_str(&mut line, "  ");
        push_repeat(&mut line, "█", filled);
        push_repeat(&mut line, "░", 20 - filled);
        let ghost before = lines@;
        lines.push(line);
        proof {
            assert(lines@ =~= before.push(line));
            assert(lines@.map_values(|s: String| s@) =~= before.map_values(|s: String| s@).push(line@));
            assert(scores@.take(i + 1) =~= scores@.take(i as int).push(scores@[i as int]));
            assert(scores@.take(i + 1).map_values(|e: (String, u8)| health_line(e.0@, e.1, name_width(scores@), colored))
                =~= scores@.take(i as int).map_values(
                |e: (String, u8)| health_line(e.0@, e.1, name_width(scores@), colored),
            ).push(health_line(scores@[i as int].0@, scores@[i as int].1, name_width(scores@), colored)));
        }
        i = i + 1;
    }
    assert(scores@.take(i as int) =~= scores@);
    lines
}

// ------------------------------------------------------------- compact

/// The compact symbol of a status, coloured on request.
pub open spec fn symbol_text(status: DeploymentStatus, colored: bool) -> Seq<char> {
    let (sym, code) = match status {
        DeploymentStatus::Success => ("✓"@, green()),
        DeploymentStatus::Failed => ("✗"@, red()),
        DeploymentStatus::InProgress => ("◌"@, blue()),
        DeploymentStatus::Queued => ("⏸"@, grey()),
        DeploymentStatus::Cancelled => ("—"@, grey()),
        DeploymentStatus::Skipped => ("—"@, grey()),
        DeploymentStatus::ActionRequired => ("⚠"@, amber()),
        DeploymentStatus::Sleeping => ("●"@, grey()),
        DeploymentStatus::Unknown(_) => ("?"@, grey()),
    };
    if colored {
        code + sym + reset()
    } else {
        sym
    }
}

/// A coloured status symbol for the compact listing.
pub fn status_symbol_colored(status: &DeploymentStatus, colored: bool) -> (r: String)
    ensures
        r@ == symbol_text(*status, colored),
{
    let (sym, code): (&str, &str) = match status {
        DeploymentStatus::Success => ("✓", "\x1b[38;2;52;211;153m"),
        DeploymentStatus::Failed => ("✗", "\x1b[38;2;248;113;113m"),
        DeploymentStatus::InProgress => ("◌", "\x1b[38;2;96;165;250m"),
        DeploymentStatus::Queued => ("⏸", "\x1b[38;2;156;163;175m"),
        DeploymentStatus::Cancelled => ("—", "\x1b[38;2;156;163;175m"),
        DeploymentStatus::Skipped => ("—", "\x1b[38;2;156;163;175m"),
        DeploymentStatus::ActionRequired => ("⚠", "\x1b[38;2;251;191;36m"),
        DeploymentStatus::Sleeping => ("●", "\x1b[38;2;156;163;175m"),
        DeploymentStatus::Unknown(_) => ("?", "\x1b[38;2;156;163;175m"),
    };
    if colored {
        let mut out = owned(code);
        push_str(&mut out, sym);
        push_str(&mut out, "\x1b[0m");
        out
    } else {
        owned(sym)
    }
}

/// `s` dimmed on request.
pub fn dim_str(s: &str, colored: bool) -> (r: String)
    ensures
        r@ == (if colored { dim() + s@ + reset() } else { s@ }),
{
    if colored {
        let mut out = owned("\x1b[38;2;85;85;85m");
        push_str(&mut out, s);
        push_str(&mut out, "\x1b[0m");
        out
    } else {
        owned(s)
    }
}

pub open spec fn compact_cell(e: Option<DeploymentEvent>, colored: bool) -> Seq<char> {
    match e {
        Some(ev) => symbol_text(ev.status, colored),
        None => if colored { dim() + "—"@ + reset() } else { "—"@ },
    }
}

/// One compact line: the name (cut to 16 and padded), then the GitHub,
/// Railway and Vercel symbols.
pub open spec fn compact_line(c: CorrelatedEvent, colored: bool) -> Seq<char> {
    pad_right(truncate_chars(project_label(c), 16), 16) + "  "@ + compact_cell(c.github, colored) + " "@
        + compact_cell(c.railway, colored) + " "@ + compact_cell(c.vercel, colored)
}

pub open spec fn compact_lines(events: Seq<CorrelatedEvent>, colored: bool) -> Seq<Seq<char>> {
    if events.len() == 0 {
        seq!["No deployment events found."@]
    } else {
        events.map_values(|c: CorrelatedEvent| compact_line(c, colored))
    }
}

fn compact_cell_text(e: &Option<DeploymentEvent>, colored: bool) -> (r: String)
    ensures
        r@ == compact_cell(*e, colored),
{
    match e {
        Some(ev) => status_symbol_colored(&ev.status, colored),
        None => dim_str("—", colored),
    }
}

/// Render grouped events one line each in compact form.
pub fn compact_correlated_lines(events: &Vec<CorrelatedEvent>, colored: bool) -> (r: Vec<String>)
    ensures
        r@.map_values(|s: String| s@) == compact_lines(events@, colored),
{
    let mut lines: Vec<String> = Vec::new();
    if events.len() == 0 {
        lines.push(owned("No deployment events found."));
        assert(lines@.map_values(|s: String| s@) =~= compact_lines(events@, colored));
        return lines;
    }
    let mut i: usize = 0;
    while i < events.len()
        invariant
            i <= events@.len(),
            lines@.map_values(|s: String| s@) == events@.take(i as int).map_values(
                |c: CorrelatedEvent| compact_line(c, colored),
            ),
        decreases events@.len() - i,
    {
        let c = &events[i];
        let name = project_name_of(c);
        let cut = truncate(name.as_str(), 16);
        let mut line = padded_right(cut.as_str(), 16);
        push_str(&mut line, "  ");
        let g = compact_cell_text(&c.github, colored);
        push_str(&mut line, g.as_str());
        push_str(&mut line, " ");
        let r = compact_cell_text(&c.railway, colored);
        push_str(&mut line, r.as_str());
        push_str(&mut line, " ");
        let v = compact_cell_text(&c.vercel, colored);
        push_str(&mut line, v.as_str());
        let ghost before = lines@;
        lines.push(line);
        proof {
            assert(lines@ =~= before.push(line));
            assert(lines@.map_values(|s: String| s@) =~= before.map_values(|s: String| s@).push(line@));
            assert(events@.take(i + 1) =~= events@.take(i as int).push(events@[i as int]));
            assert(events@.take(i + 1).map_values(|c: CorrelatedEvent| compact_line(c, colored)) =~= events@.take(
                i as int,
            ).map_values(|c: CorrelatedEvent| compact_line(c, colored)).push(compact_line(events@[i as int], colored)));
        }
        i = i + 1;
    }
    assert(events@.take(i as int) =~= events@);
    lines
}

proof fn lemma_spaces_len(n: nat)
    ensures
        repeat(seq![' '], n).len() == n,
    decreases n,
{
    if n > 0 {
        lemma_spaces_len((n - 1) as nat);
    }
}

proof fn lemma_pad_right_len(s: Seq<char>, w: nat)
    requires
        s.len() <= w,
    ensures
        pad_right(s, w).len() == w,
        pad_right(s, w).subrange(0, s.len() as int) == s,
{
    if s.len() < w {
        lemma_spaces_len((w - s.len()) as nat);
        assert(pad_right(s, w).subrange(0, s.len() as int) =~= s);
    } else {
        assert(s.subrange(0, s.len() as int) =~= s);
    }
}

/// Text without an escape character is all visible.
proof fn lemma_plain_visible(s: Seq<char>)
    requires
        forall|i: int| 0 <= i < s.len() ==> s[i] != '\x1b',
    ensures
        !in_escape(s),
        visible_len(s) == s.len(),
    decreases s.len(),
{
    if s.len() > 0 {
        assert forall|i: int| 0 <= i < s.drop_last().len() implies s.drop_last()[i] != '\x1b' by {
            assert(s.drop_last()[i] == s[i]);
        }
        lemma_plain_visible(s.drop_last());
        assert(s.last() == s[s.len() - 1]);
    }
}

/// An uncoloured cell of a provider whose status is a known one: its badge,
/// or the dash, padded to exactly twelve characters.
proof fn lemma_plain_cell(e: Option<DeploymentEvent>)
    requires
        e matches Some(ev) ==> !(ev.status is Unknown),
    ensures
        pad_visible(provider_cell(e, false), 12) == pad_right(provider_cell(e, false), 12),
        pad_right(provider_cell(e, false), 12).len() == 12,
{
    let x = provider_cell(e, false);
    reveal_strlit("—");
    reveal_strlit("✓ ");
    reveal_strlit("✗ ");
    reveal_strlit("◌ ");
    reveal_strlit("⏸ ");
    reveal_strlit("— ");
    reveal_strlit("⚠ ");
    reveal_strlit("● ");
    reveal_strlit("passed");
    reveal_strlit("failed");
    reveal_strlit("building");
    reveal_strlit("queued");
    reveal_strlit("cancelled");
    reveal_strlit("skipped");
    reveal_strlit("action");
    reveal_strlit("sleeping");
    match e {
        Some(ev) => {
            let (sym, label, code) = badge_parts(ev.status);
            assert(x == sym + label);
            assert forall|i: int| 0 <= i < x.len() implies x[i] != '\x1b' by {
                if i < sym.len() {
                    assert(x[i] == sym[i]);
                } else {
                    assert(x[i] == label[i - sym.len()]);
                }
            }
        },
        None => {
            assert forall|i: int| 0 <= i < x.len() implies x[i] != '\x1b' by {}
        },
    }
    assert(x.len() <= 12);
    lemma_plain_visible(x);
    lemma_pad_right_len(x, 12);
}

proof fn lemma_truncate_within(s: Seq<char>, max: nat)
    requires
        max > 0,
    ensures
        truncate_chars(s, max).len() <= max,
{
}

/// Each provider column of an uncoloured status-table row shows that
/// provider's own event: its badge (or a dash when the group has none),
/// padded to twelve characters, at the column's place: GitHub CI from the
/// 19th character, Railway from the 33rd, Vercel from the 47th.
pub proof fn status_row_columns(c: CorrelatedEvent, now_ms: int)
    requires
        c.github matches Some(g) ==> !(g.status is Unknown),
        c.railway matches Some(r) ==> !(r.status is Unknown),
        c.vercel matches Some(v) ==> !(v.status is Unknown),
    ensures
        table_row(c, false, now_ms).subrange(18, 30) == pad_right(
            match c.github {
                Some(g) => badge_text(g.status, false),
                None => "—"@,
            },
            12,
        ),
        table_row(c, false, now_ms).subrange(32, 44) == pad_right(
            match c.railway {
                Some(r) => badge_text(r.status, false),
                None => "—"@,
            },
            12,
        ),
        table_row(c, false, now_ms).subrange(46, 58) == pad_right(
            match c.vercel {
                Some(v) => badge_text(v.status, false),
                None => "—"@,
            },
            12,
        ),
{
    reveal_strlit("  ");
    lemma_plain_cell(c.github);
    lemma_plain_cell(c.railway);
    lemma_plain_cell(c.vercel);
    lemma_truncate_within(project_label(c), 16);
    let p = pad_right(truncate_chars(project_label(c), 16), 16);
    lemma_pad_right_len(truncate_chars(project_label(c), 16), 16);
    let g = pad_right(provider_cell(c.github, false), 12);
    let r = pad_right(provider_cell(c.railway, false), 12);
    let v = pad_right(provider_cell(c.vercel, false), 12);
    let sp = "  "@;
    let row = table_row(c, false, now_ms);
    let age = if c.is_stale { age_of(c.timestamp as int, now_ms) + " ●"@ } else { age_of(c.timestamp as int, now_ms) };
    let tail = sp + truncate_chars(age, 8);
    assert(row == p + sp + g + sp + r + sp + v + tail);
    assert(row.subrange(18, 30) =~= g);
    assert(row.subrange(32, 44) =~= r);
    assert(row.subrange(46, 58) =~= v);
}

} // verus!
