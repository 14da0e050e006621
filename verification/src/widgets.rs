//! Texts drawn by the dashboard's widgets: truncated cells, sparklines,
//! health labels, status badges, sync ages, footer legends and per-provider
//! detail cells.

use vstd::prelude::*;
use crate::app::App;
use crate::domain::{CorrelatedEvent, DeploymentEvent, DeploymentStatus, JobSummary, Platform};
use crate::tabs::{SettingsFlowState, Tab, UnifiedSort, InputMode};
use crate::output::{chars_within, leading_bytes};
use crate::screen::{byte_len, utf8_len};
use crate::text::{
    decimal, owned, push_char, push_decimal, push_str, truncate, truncate_chars,
};

verus! {

/// Footer truncation: nothing at all for a zero width.
pub open spec fn footer_truncated(s: Seq<char>, max: nat) -> Seq<char> {
    if max == 0 {
        Seq::empty()
    } else {
        truncate_chars(s, max)
    }
}

/// Truncates a footer message to `max` characters, with an ellipsis.
pub fn footer_truncate(s: &str, max: usize) -> (r: String)
    ensures
        r@ == footer_truncated(s@, max as nat),
{
    if max == 0 {
        return String::new();
    }
    truncate(s, max)
}

/// The sparkline block for a score (0..=100 maps onto eight heights).
pub open spec fn block_of(v: u8) -> char {
    let idx = if (v as int) * 7 / 100 > 7 { 7 } else { (v as int) * 7 / 100 };
    if idx == 0 {
        '▁'
    } else if idx == 1 {
        '▂'
    } else if idx == 2 {
        '▃'
    } else if idx == 3 {
        '▄'
    } else if idx == 4 {
        '▅'
    } else if idx == 5 {
        '▆'
    } else if idx == 6 {
        '▇'
    } else {
        '█'
    }
}

fn block_char(v: u8) -> (c: char)
    ensures
        c == block_of(v),
{
    let scaled: u32 = (v as u32) * 7 / 100;
    let idx: u32 = if scaled > 7 { 7 } else { scaled };
    if idx == 0 {
        '▁'
    } else if idx == 1 {
        '▂'
    } else if idx == 2 {
        '▃'
    } else if idx == 3 {
        '▄'
    } else if idx == 4 {
        '▅'
    } else if idx == 5 {
        '▆'
    } else if idx == 6 {
        '▇'
    } else {
        '█'
    }
}

/// The last (up to) eight points of the first history named `project`,
/// one block each; a dash when there is none or it is empty.
pub open spec fn sparkline_of(project: Seq<char>, history: Seq<(String, Vec<u8>)>) -> Seq<char> {
    if exists|i: int| 0 <= i < history.len() && history[i].0@ == project {
        let i = choose|i: int|
            0 <= i < history.len() && history[i].0@ == project && forall|j: int|
                0 <= j < i ==> history[j].0@ != project;
        let points = history[i].1@;
        if points.len() == 0 {
            "—"@
        } else {
            let last = if points.len() > 8 { points.skip(points.len() - 8) } else { points };
            last.map_values(|v: u8| block_of(v))
        }
    } else {
        "—"@
    }
}

/// Generate an inline text sparkline from health history.
pub fn render_sparkline_text(project: &str, history: &[(String, Vec<u8>)]) -> (r: String)
    ensures
        r@ == sparkline_of(project@, history@),
{
    let mut i: usize = 0;
    while i < history.len()
        invariant
            i <= history@.len(),
            forall|j: int| 0 <= j < i ==> history@[j].0@ != project@,
        decreases history@.len() - i,
    {
        if crate::text::str_eq(history[i].0.as_str(), project) {
            let points = &history[i].1;
            let n = points.len();
            proof {
                assert(exists|k: int| 0 <= k < history@.len() && history@[k].0@ == project@);
                let c = choose|k: int|
                    0 <= k < history@.len() && history@[k].0@ == project@ && forall|j: int|
                        0 <= j < k ==> history@[j].0@ != project@;
                assert(c == i as int) by {
                    if c < i {
                    } else if c > i {
                        assert(history@[i as int].0@ == project@);
                    }
                }
            }
            if n == 0 {
                return owned("—");
            }
            let start: usize = if n > 8 { n - 8 } else { 0 };
            let mut out = String::new();
            let mut k: usize = start;
            while k < n
                invariant
                    start <= k <= n,
                    n == points@.len(),
                    out@ == points@.subrange(start as int, k as int).map_values(|v: u8| block_of(v)),
                decreases n - k,
            {
                push_char(&mut out, block_char(points[k]));
                k = k + 1;
                assert(points@.subrange(start as int, k as int).map_values(|v: u8| block_of(v))
                    =~= points@.subrange(start as int, (k - 1) as int).map_values(|v: u8| block_of(v)).push(block_of(points@[k - 1])));
            }
            proof {
                if n > 8 {
                    assert(points@.subrange(start as int, n as int) =~= points@.skip(points@.len() - 8));
                } else {
                    assert(points@.subrange(0, n as int) =~= points@);
                }
            }
            return out;
        }
        i = i + 1;
    }
    owned("—")
}

/// Map a health score to a human-readable status label:
/// at least 90 healthy, at least 70 degraded, below that critical.
pub fn health_status_label(score: u8) -> (r: &'static str)
    ensures
        r@ == (if score >= 90 {
            "Healthy"@
        } else if score >= 70 {
            "Degraded"@
        } else {
            "Critical"@
        }),
{
    if score >= 90 {
        "Healthy"
    } else if score >= 70 {
        "Degraded"
    } else {
        "Critical"
    }
}

/// `s` without the prefix `p`, when it starts with it.
pub open spec fn starts_with(s: Seq<char>, p: Seq<char>) -> bool {
    p.len() <= s.len() && s.take(p.len() as int) == p
}

fn starts_with_str(s: &str, p: &str) -> (b: bool)
    ensures
        b == starts_with(s@, p@),
{
    crate::text::occurs_at_exec(s, p, 0) && {
        proof {
            if p@.len() <= s@.len() {
                assert(s@.subrange(0, p@.len() as int) =~= s@.take(p@.len() as int));
            }
        }
        true
    }
}

fn suffix_from(s: &str, k: usize) -> (r: String)
    requires
        k <= s@.len(),
    ensures
        r@ == s@.skip(k as int),
{
    let n = crate::text::char_count(s);
    let mut out = String::new();
    let mut i: usize = k;
    while i < n
        invariant
            k <= i <= n,
            n == s@.len(),
            out@ == s@.subrange(k as int, i as int),
        decreases n - i,
    {
        push_char(&mut out, crate::text::char_at(s, i));
        i = i + 1;
        assert(s@.subrange(k as int, i as int) =~= s@.subrange(k as int, (i - 1) as int).push(s@[i - 1]));
    }
    assert(s@.subrange(k as int, n as int) =~= s@.skip(k as int));
    out
}

/// A log target without its crate prefix.
pub open spec fn shortened_target(t: Seq<char>) -> Seq<char> {
    if starts_with(t, "pulsos_core::"@) {
        t.skip(13)
    } else if starts_with(t, "pulsos_cli::"@) {
        t.skip(12)
    } else {
        t
    }
}

/// Shorten a log target by stripping the `pulsos_core::` or `pulsos_cli::`
/// prefix.
pub fn shorten_target(target: &str) -> (r: String)
    ensures
        r@ == shortened_target(target@),
{
    proof {
        reveal_strlit("pulsos_core::");
        reveal_strlit("pulsos_cli::");
    }
    if starts_with_str(target, "pulsos_core::") {
        return suffix_from(target, 13);
    }
    if starts_with_str(target, "pulsos_cli::") {
        return suffix_from(target, 12);
    }
    owned(target)
}

/// The footer legend of a settings flow step.
pub open spec fn settings_legend(flow: SettingsFlowState) -> Seq<char> {
    match flow {
        SettingsFlowState::ProviderActions => "[↑↓] move  [Space] toggle  [Enter] discover  [Esc] cancel"@,
        SettingsFlowState::ResourceSelection => "[↑↓] move  [Space] toggle  [Enter] preview  [Esc] cancel"@,
        SettingsFlowState::CorrelationReview => "[Enter] apply  [Esc] back"@,
        SettingsFlowState::ValidatingToken
        | SettingsFlowState::DiscoveryScanning
        | SettingsFlowState::Applying => "[... ] working"@,
        SettingsFlowState::TokenEntry => "[Enter] validate+save  [Esc] cancel"@,
        SettingsFlowState::Idle | SettingsFlowState::ValidationResult =>
            "[Enter] onboard  [t/T] token  [v] validate  [x] remove  [r] refresh"@,
    }
}

pub fn settings_help_text(flow: SettingsFlowState) -> (r: &'static str)
    ensures
        r@ == settings_legend(flow),
{
    match flow {
        SettingsFlowState::ProviderActions => "[↑↓] move  [Space] toggle  [Enter] discover  [Esc] cancel",
        SettingsFlowState::ResourceSelection => "[↑↓] move  [Space] toggle  [Enter] preview  [Esc] cancel",
        SettingsFlowState::CorrelationReview => "[Enter] apply  [Esc] back",
        SettingsFlowState::ValidatingToken
        | SettingsFlowState::DiscoveryScanning
        | SettingsFlowState::Applying => "[... ] working",
        SettingsFlowState::TokenEntry => "[Enter] validate+save  [Esc] cancel",
        SettingsFlowState::Idle | SettingsFlowState::ValidationResult =>
            "[Enter] onboard  [t/T] token  [v] validate  [x] remove  [r] refresh",
    }
}

/// The footer help line for the current mode and tab.
pub open spec fn help_line(mode: InputMode, tab: Tab, flow: SettingsFlowState, sort: UnifiedSort, query: Seq<char>) -> Seq<char> {
    let base = "[q] quit  [Tab] switch tab (1-5)  [↵] select  [/] search  [r] refresh"@;
    match mode {
        InputMode::Search => "[Esc] cancel  [↵] apply  Filter: "@ + query + "█"@,
        InputMode::Normal => if tab == Tab::Settings {
            settings_legend(flow)
        } else if tab == Tab::Logs {
            base + "  [f] filter"@
        } else if tab == Tab::Unified {
            base + "  [s] sort: "@ + (match sort {
                UnifiedSort::ByTime => "time"@,
                UnifiedSort::ByPlatform => "platform"@,
            })
        } else {
            base
        },
    }
}

/// The footer help text as plain text.
pub fn help_text(mode: InputMode, tab: Tab, flow: SettingsFlowState, sort: UnifiedSort, query: &str) -> (r: String)
    ensures
        r@ == help_line(mode, tab, flow, sort, query@),
{
    match mode {
        InputMode::Search => {
            let mut out = owned("[Esc] cancel  [↵] apply  Filter: ");
            push_str(&mut out, query);
            push_str(&mut out, "█");
            out
        },
        InputMode::Normal => {
            if tab == Tab::Settings {
                owned(settings_help_text(flow))
            } else {
                let mut out = owned("[q] quit  [Tab] switch tab (1-5)  [↵] select  [/] search  [r] refresh");
                if tab == Tab::Logs {
                    push_str(&mut out, "  [f] filter");
                } else if tab == Tab::Unified {
                    push_str(&mut out, "  [s] sort: ");
                    push_str(&mut out, sort.label());
                }
                out
            }
        },
    }
}

/// The footer help text for the dashboard's current mode, tab, settings
/// step, sort and query.
pub fn render_help_text(app: &App) -> (r: String)
    ensures
        r@ == help_line(app.input_mode, app.active_tab, app.settings_flow, app.unified_sort, app.search_query@),
{
    help_text(app.input_mode, app.active_tab, app.settings_flow, app.unified_sort, app.search_query.as_str())
}

/// How long ago a sync completed, in the footer's words.
pub open spec fn age_text(secs: int) -> Seq<char> {
    if secs < 5 {
        "just now"@
    } else if secs < 60 {
        decimal(secs as nat) + "s ago"@
    } else if secs < 3600 {
        decimal((secs / 60) as nat) + "m ago"@
    } else {
        decimal((secs / 3600) as nat) + "h ago"@
    }
}

/// The spinner frame shown `elapsed_ms` after a sync started.
pub open spec fn spinner_of(elapsed_ms: int) -> Seq<char> {
    let e = if elapsed_ms < 0 { 0 } else { elapsed_ms };
    let idx = (e / 80) % 10;
    if idx == 0 {
        "⠋"@
    } else if idx == 1 {
        "⠙"@
    } else if idx == 2 {
        "⠹"@
    } else if idx == 3 {
        "⠸"@
    } else if idx == 4 {
        "⠼"@
    } else if idx == 5 {
        "⠴"@
    } else if idx == 6 {
        "⠦"@
    } else if idx == 7 {
        "⠧"@
    } else if idx == 8 {
        "⠇"@
    } else {
        "⠏"@
    }
}

pub fn spinner_frame(elapsed_ms: i64) -> (r: &'static str)
    ensures
        r@ == spinner_of(elapsed_ms as int),
{
    let e: i64 = if elapsed_ms < 0 { 0 } else { elapsed_ms };
    let idx = (e / 80) % 10;
    if idx == 0 {
        "⠋"
    } else if idx == 1 {
        "⠙"
    } else if idx == 2 {
        "⠹"
    } else if idx == 3 {
        "⠸"
    } else if idx == 4 {
        "⠼"
    } else if idx == 5 {
        "⠴"
    } else if idx == 6 {
        "⠦"
    } else if idx == 7 {
        "⠧"
    } else if idx == 8 {
        "⠇"
    } else {
        "⠏"
    }
}

/// The footer's sync status: a spinner while syncing, else the age of the
/// last completed sync.
pub open spec fn sync_status_of(is_syncing: bool, since_start_ms: int, since_completed_secs: int) -> Seq<char> {
    if is_syncing {
        spinner_of(since_start_ms) + " syncing"@
    } else {
        age_text(since_completed_secs)
    }
}

pub fn format_sync_status(is_syncing: bool, since_start_ms: i64, since_completed_secs: i64) -> (r: String)
    ensures
        r@ == sync_status_of(is_syncing, since_start_ms as int, since_completed_secs as int),
{
    if is_syncing {
        let mut out = owned(spinner_frame(since_start_ms));
        push_str(&mut out, " syncing");
        return out;
    }
    let secs = since_completed_secs;
    if secs < 5 {
        owned("just now")
    } else if secs < 60 {
        let mut out = String::new();
        push_decimal(&mut out, secs as u64);
        push_str(&mut out, "s ago");
        out
    } else if secs < 3600 {
        let mut out = String::new();
        push_decimal(&mut out, (secs / 60) as u64);
        push_str(&mut out, "m ago");
        out
    } else {
        let mut out = String::new();
        push_decimal(&mut out, (secs / 3600) as u64);
        push_str(&mut out, "h ago");
        out
    }
}

/// The header's sync status: like the footer's, but the age is prefixed
/// with "last: " and measured from the snapshot time.
pub fn header_sync_status(is_syncing: bool, since_start_ms: i64, since_fetched_secs: i64) -> (r: String)
    ensures
        r@ == (if is_syncing {
            sync_status_of(true, since_start_ms as int, 0)
        } else {
            "last: "@ + age_text(since_fetched_secs as int)
        }),
{
    if is_syncing {
        return format_sync_status(true, since_start_ms, 0);
    }
    let mut out = owned("last: ");
    let age = format_sync_status(false, 0, since_fetched_secs);
    push_str(&mut out, age.as_str());
    out
}

/// Sort key for "by platform" mode: Railway, Vercel, GitHub-only, unmatched.
pub fn platform_sort_key(e: &CorrelatedEvent) -> (r: u8)
    ensures
        r == (if e.railway is Some {
            0u8
        } else if e.vercel is Some {
            1u8
        } else if e.github is Some {
            2u8
        } else {
            3u8
        }),
{
    if e.railway.is_some() {
        0
    } else if e.vercel.is_some() {
        1
    } else if e.github.is_some() {
        2
    } else {
        3
    }
}

/// The icon and word shown for a status in the dashboard tables; an
/// in-progress status animates with the clock (`now_ms`).
pub open spec fn badge_of(status: DeploymentStatus, now_ms: int) -> (Seq<char>, Seq<char>) {
    match status {
        DeploymentStatus::Success => ("● "@, "passed"@),
        DeploymentStatus::Failed => ("✕ "@, "failed"@),
        DeploymentStatus::InProgress => {
            let idx = (now_ms / 120) % 4;
            let frame = if idx == 0 { "◐"@ } else if idx == 1 { "◓"@ } else if idx == 2 { "◑"@ } else { "◒"@ };
            (frame + " "@, "running"@)
        },
        DeploymentStatus::Queued => ("◌ "@, "queued"@),
        DeploymentStatus::Cancelled => ("○ "@, "cancelled"@),
        DeploymentStatus::Skipped => ("○ "@, "skipped"@),
        DeploymentStatus::ActionRequired => ("⚠ "@, "action"@),
        DeploymentStatus::Sleeping => ("● "@, "sleeping"@),
        DeploymentStatus::Unknown(s) => ("? "@, s@),
    }
}

pub fn status_badge(status: &DeploymentStatus, now_ms: i64) -> (r: (String, String))
    requires
        now_ms >= 0,
    ensures
        (r.0@, r.1@) == badge_of(*status, now_ms as int),
{
    match status {
        DeploymentStatus::Success => (owned("● "), owned("passed")),
        DeploymentStatus::Failed => (owned("✕ "), owned("failed")),
        DeploymentStatus::InProgress => {
            let idx = (now_ms / 120) % 4;
            let mut frame = if idx == 0 { owned("◐") } else if idx == 1 { owned("◓") } else if idx == 2 { owned("◑") } else { owned("◒") };
            push_str(&mut frame, " ");
            (frame, owned("running"))
        },
        DeploymentStatus::Queued => (owned("◌ "), owned("queued")),
        DeploymentStatus::Cancelled => (owned("○ "), owned("cancelled")),
        DeploymentStatus::Skipped => (owned("○ "), owned("skipped")),
        DeploymentStatus::ActionRequired => (owned("⚠ "), owned("action")),
        DeploymentStatus::Sleeping => (owned("● "), owned("sleeping")),
        DeploymentStatus::Unknown(s) => (owned("? "), s.clone()),
    }
}

/// The characters of an optional string, empty when absent.
pub open spec fn or_empty(o: Option<String>) -> Seq<char> {
    match o {
        Some(s) => s@,
        None => Seq::empty(),
    }
}

/// Two optional parts joined by `sep`: a dash when both are empty, the
/// first alone when the second is empty.
pub open spec fn joined_detail(a: Seq<char>, b: Seq<char>, sep: Seq<char>) -> Seq<char> {
    if a.len() == 0 && b.len() == 0 {
        "-"@
    } else if b.len() == 0 {
        a
    } else {
        a + sep + b
    }
}

fn join_detail(a: &Option<String>, b: &Option<String>, sep: &str) -> (r: String)
    ensures
        r@ == joined_detail(or_empty(*a), or_empty(*b), sep@),
{
    let ea: bool = match a {
        Some(s) => s.as_str().unicode_len() == 0,
        None => true,
    };
    let eb: bool = match b {
        Some(s) => s.as_str().unicode_len() == 0,
        None => true,
    };
    if ea && eb {
        return owned("-");
    }
    let mut out = match a {
        Some(s) => s.clone(),
        None => String::new(),
    };
    if !eb {
        push_str(&mut out, sep);
        match b {
            Some(s) => push_str(&mut out, s.as_str()),
            None => {},
        }
    }
    out
}

/// The provider-specific detail cell of an event without CI job stages:
/// workflow (trigger), service / environment, or target → preview URL.
pub open spec fn detail_of(e: DeploymentEvent) -> Seq<char> {
    match e.platform {
        Platform::GitHub => {
            let w = or_empty(e.metadata.workflow_name);
            let t = or_empty(e.metadata.trigger_event);
            if w.len() == 0 && t.len() == 0 {
                "-"@
            } else if t.len() == 0 {
                w
            } else {
                w + " ("@ + t + ")"@
            }
        },
        Platform::Railway => joined_detail(or_empty(e.metadata.service_name), or_empty(e.metadata.environment_name), " / "@),
        Platform::Vercel => joined_detail(or_empty(e.metadata.deploy_target), or_empty(e.metadata.preview_url), " → "@),
    }
}

pub fn platform_detail_text(e: &DeploymentEvent) -> (r: String)
    ensures
        r@ == detail_of(*e),
{
    match e.platform {
        Platform::GitHub => {
            let r = join_detail(&e.metadata.workflow_name, &e.metadata.trigger_event, " (");
            let has_trigger = match &e.metadata.trigger_event {
                Some(s) => s.as_str().unicode_len() > 0,
                None => false,
            };
            let mut out = r;
            if has_trigger {
                push_str(&mut out, ")");
            }
            out
        },
        Platform::Railway => join_detail(&e.metadata.service_name, &e.metadata.environment_name, " / "),
        Platform::Vercel => join_detail(&e.metadata.deploy_target, &e.metadata.preview_url, " → "),
    }
}

/// The commit column of the provider tables: the first seven bytes of the
/// hash when it is longer, the hash itself otherwise, and "-" without one.
pub open spec fn short_sha_of(sha: Option<Seq<char>>) -> Seq<char> {
    match sha {
        Some(s) => if utf8_len(s) > 7 {
            s.take(chars_within(s, 7) as int)
        } else {
            s
        },
        None => "-"@,
    }
}

/// The commit hash as the provider tables show it. A cut that would split a
/// character is not asked for: the seventh byte must end one.
pub fn short_sha(sha: Option<&str>) -> (r: String)
    requires
        sha matches Some(s) ==> (utf8_len(s@) > 7 ==> utf8_len(s@.take(chars_within(s@, 7) as int)) == 7),
    ensures
        r@ == short_sha_of(match sha { Some(s) => Some(s@), None => None }),
{
    match sha {
        Some(s) => {
            if byte_len(s) > 7 {
                leading_bytes(s, 7)
            } else {
                owned(s)
            }
        },
        None => {
            proof {
                reveal_strlit("-");
            }
            owned("-")
        },
    }
}

} // verus!
