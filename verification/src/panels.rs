//! Texts of the dashboard panels: the header's tab row and underline, the
//! visible window of the run tree and its lines, and the weight bars of the
//! health tab.

use vstd::prelude::*;
use crate::details::{PlatformDetailsState, TreeItem, TreeItemKind};
use crate::tabs::{DetailsFocus, Tab};
use crate::text::{decimal, owned, pad_left, padded_left, push_decimal, push_repeat, push_str, repeat};
use crate::widgets::{badge_of, status_badge};

verus! {

/// The tab labels the header underlines.
pub open spec fn header_label(i: int) -> Seq<char> {
    if i == 0 {
        "Unified"@
    } else if i == 1 {
        "Platform"@
    } else if i == 2 {
        "Health"@
    } else {
        "Settings"@
    }
}

/// Where the underline of the tab at `idx` starts: after the brand and the
/// labels before it, each followed by a three-column separator.
pub open spec fn underline_offset(brand: nat, idx: int) -> nat
    decreases idx,
{
    if idx <= 0 {
        brand
    } else {
        underline_offset(brand, idx - 1) + header_label(idx - 1).len() + 3
    }
}

fn header_label_exec(i: usize) -> (r: &'static str)
    requires
        i < 4,
    ensures
        r@ == header_label(i as int),
{
    if i == 0 {
        "Unified"
    } else if i == 1 {
        "Platform"
    } else if i == 2 {
        "Health"
    } else {
        "Settings"
    }
}

/// The underline below the active tab of the header; the header underlines
/// the first four tabs only.
pub fn tab_underline(brand_prefix: u16, active_idx: usize) -> (r: String)
    requires
        active_idx < 4,
    ensures
        r@ == repeat(" "@, underline_offset(brand_prefix as nat, active_idx as int)) + repeat(
            "═"@,
            header_label(active_idx as int).len(),
        ),
{
    proof {
        reveal_strlit("Unified");
        reveal_strlit("Platform");
        reveal_strlit("Health");
        reveal_strlit("Settings");
    }
    let mut offset: usize = brand_prefix as usize;
    let mut i: usize = 0;
    while i < active_idx
        invariant
            i <= active_idx < 4,
            offset == underline_offset(brand_prefix as nat, i as int),
            offset <= brand_prefix + 11 * i,
        decreases active_idx - i,
    {
        proof {
            reveal_strlit("Unified");
            reveal_strlit("Platform");
            reveal_strlit("Health");
            reveal_strlit("Settings");
        }
        let label = header_label_exec(i);
        assert(label@.len() <= 8);
        offset = offset + crate::text::char_count(label) + 3;
        i = i + 1;
    }
    let mut out = String::new();
    push_repeat(&mut out, " ", offset);
    push_repeat(&mut out, "═", crate::text::char_count(header_label_exec(active_idx)));
    out
}

/// The visible part of the run tree: the first and past-last positions and
/// the cursor, kept on a tree of `len` items in `height` rows. The cursor
/// and the scroll position are held inside the tree; the window scrolls to
/// show the cursor.
pub open spec fn tree_window_of(len: nat, cursor: nat, scroll: nat, height: nat) -> (nat, nat, nat) {
    let max_lines = if height >= 1 {
        height
    } else {
        1
    };
    let last = if len >= 1 {
        (len - 1) as nat
    } else {
        0
    };
    let c = if cursor <= last {
        cursor
    } else {
        last
    };
    let s0 = if scroll <= last {
        scroll
    } else {
        last
    };
    let s1 = if c < s0 {
        c
    } else {
        s0
    };
    let s2 = if c >= s1 + max_lines {
        (c - (max_lines - 1)) as nat
    } else {
        s1
    };
    let end = if s2 + max_lines <= len {
        s2 + max_lines
    } else {
        len
    };
    (s2, end, c)
}

/// The visible part of the run tree.
pub fn tree_window(len: usize, cursor: usize, scroll: usize, height: u16) -> (r: (usize, usize, usize))
    ensures
        (r.0 as nat, r.1 as nat, r.2 as nat) == tree_window_of(len as nat, cursor as nat, scroll as nat, height as nat),
        len > 0 ==> r.0 <= r.2 < r.1 <= len,
{
    let max_lines: usize = if height >= 1 { height as usize } else { 1 };
    let last: usize = if len >= 1 { len - 1 } else { 0 };
    let c = if cursor <= last { cursor } else { last };
    let s0 = if scroll <= last { scroll } else { last };
    let s1 = if c < s0 { c } else { s0 };
    let s2 = if c - s1 >= max_lines { c - (max_lines - 1) } else { s1 };
    let end = if s2 <= len && len - s2 >= max_lines { s2 + max_lines } else { len };
    (s2, end, c)
}

/// The mark before a tree item: open for the run and expanded jobs.
pub open spec fn tree_marker(kind: TreeItemKind, expanded: Set<u64>) -> Seq<char> {
    match kind {
        TreeItemKind::RunHeader => "▾"@,
        TreeItemKind::Job { job_id, .. } => if expanded.contains(job_id) {
            "▾"@
        } else {
            "▸"@
        },
        TreeItemKind::Step { .. } => "•"@,
    }
}

/// The text of one tree line: indented by depth, its mark, its status
/// symbol and its label.
pub open spec fn tree_line_of(item: TreeItem, expanded: Set<u64>, now_ms: int) -> Seq<char> {
    repeat("  "@, item.depth as nat) + tree_marker(item.kind, expanded) + " "@ + badge_of(item.status, now_ms).0
        + item.label@
}

/// The text of one tree line, and whether it is drawn as the cursor (the
/// cursor line while the tree has the keyboard).
pub fn tree_line(d: &PlatformDetailsState, pos: usize, cursor: usize, now_ms: i64) -> (r: (String, bool))
    requires
        pos < d.tree_items@.len(),
        now_ms >= 0,
    ensures
        r.0@ == tree_line_of(d.tree_items@[pos as int], d.expanded_jobs@, now_ms as int),
        r.1 == (pos == cursor && d.focus == DetailsFocus::LeftTree),
{
    let item = &d.tree_items[pos];
    let mut out = String::new();
    push_repeat(&mut out, "  ", item.depth as usize);
    let marker = match item.kind {
        TreeItemKind::RunHeader => "▾",
        TreeItemKind::Job { job_id, .. } => if d.expanded_jobs.contains(&job_id) {
            "▾"
        } else {
            "▸"
        },
        TreeItemKind::Step { .. } => "•",
    };
    push_str(&mut out, marker);
    push_str(&mut out, " ");
    let (sym, _label) = status_badge(&item.status, now_ms);
    push_str(&mut out, sym.as_str());
    push_str(&mut out, item.label.as_str());
    let is_cursor = pos == cursor && d.focus == DetailsFocus::LeftTree;
    (out, is_cursor)
}

/// Columns of a weight bar.
pub const BAR_WIDTH: usize = 12;

/// A provider's weight bar: `GH 40% ████████░░░░ 70%`, the bar filled in
/// proportion to the score.
pub open spec fn weight_bar_of(label: Seq<char>, weight: u8, score: u8) -> Seq<char> {
    let filled = if (score as nat) * 12 / 100 <= 12 {
        (score as nat) * 12 / 100
    } else {
        12
    };
    " "@ + label + " "@ + pad_left(decimal(weight as nat), 2) + "%"@ + " "@ + repeat("█"@, filled) + repeat(
        "░"@,
        (12 - filled) as nat,
    ) + " "@ + decimal(score as nat) + "%"@
}

/// A provider's weight bar.
pub fn weight_bar(label: &str, weight: u8, score: u8) -> (r: String)
    ensures
        r@ == weight_bar_of(label@, weight, score),
{
    let product: usize = (score as usize) * BAR_WIDTH / 100;
    let filled: usize = if product <= BAR_WIDTH { product } else { BAR_WIDTH };
    let mut out = owned(" ");
    push_str(&mut out, label);
    push_str(&mut out, " ");
    let w = crate::text::decimal_string(weight as u64);
    let padded = padded_left(w.as_str(), 2);
    push_str(&mut out, padded.as_str());
    push_str(&mut out, "%");
    push_str(&mut out, " ");
    push_repeat(&mut out, "█", filled);
    push_repeat(&mut out, "░", BAR_WIDTH - filled);
    push_str(&mut out, " ");
    push_decimal(&mut out, score as u64);
    push_str(&mut out, "%");
    out
}

} // verus!
