//! Diagnostic result values and their text forms for the doctor report:
//! status indicators, aligned check lines, byte sizes and summary lines.

use vstd::prelude::*;
use vstd::arithmetic::power2::pow2;
use crate::text::{decimal, owned, pad_right, padded_right, push_char, push_decimal, push_str};

verus! {

/// Status indicator for a diagnostic check.
#[derive(Debug, Clone, Copy, PartialEq, Eq, Structural)]
pub enum CheckStatus {
    Okay,
    Warning,
    Error,
    Skipped,
}

/// A single diagnostic result line.
#[derive(Debug)]
pub struct CheckResult {
    pub status: CheckStatus,
    pub label: String,
    pub value: String,
    /// Optional detail line printed indented below the main line.
    pub detail: Option<String>,
}

impl CheckResult {
    fn with_status(status: CheckStatus, label: &str, value: &str) -> (r: Self)
        ensures
            r.status == status,
            r.label@ == label@,
            r.value@ == value@,
            r.detail is None,
    {
        CheckResult { status, label: owned(label), value: owned(value), detail: None }
    }

    /// A passing check.
    pub fn ok(label: &str, value: &str) -> (r: Self)
        ensures
            r.status == CheckStatus::Okay,
            r.label@ == label@,
            r.value@ == value@,
            r.detail is None,
    {
        Self::with_status(CheckStatus::Okay, label, value)
    }

    /// A check that found something worth attention.
    pub fn warning(label: &str, value: &str) -> (r: Self)
        ensures
            r.status == CheckStatus::Warning,
            r.label@ == label@,
            r.value@ == value@,
            r.detail is None,
    {
        Self::with_status(CheckStatus::Warning, label, value)
    }

    /// A failing check.
    pub fn error(label: &str, value: &str) -> (r: Self)
        ensures
            r.status == CheckStatus::Error,
            r.label@ == label@,
            r.value@ == value@,
            r.detail is None,
    {
        Self::with_status(CheckStatus::Error, label, value)
    }

    /// A check that was not run.
    pub fn skipped(label: &str, value: &str) -> (r: Self)
        ensures
            r.status == CheckStatus::Skipped,
            r.label@ == label@,
            r.value@ == value@,
            r.detail is None,
    {
        Self::with_status(CheckStatus::Skipped, label, value)
    }

    /// The same result with a detail line attached.
    pub fn with_detail(self, detail: &str) -> (r: Self)
        ensures
            r.status == self.status,
            r.label == self.label,
            r.value == self.value,
            r.detail matches Some(d) && d@ == detail@,
    {
        let mut r = self;
        r.detail = Some(owned(detail));
        r
    }
}

/// The Unicode indicator of a status.
pub open spec fn icon_of(status: CheckStatus) -> Seq<char> {
    match status {
        CheckStatus::Okay => "✓"@,
        CheckStatus::Warning => "⚠"@,
        CheckStatus::Error => "✗"@,
        CheckStatus::Skipped => "─"@,
    }
}

/// Returns the Unicode status indicator.
pub fn status_icon(status: CheckStatus) -> (r: &'static str)
    ensures
        r@ == icon_of(status),
{
    match status {
        CheckStatus::Okay => "✓",
        CheckStatus::Warning => "⚠",
        CheckStatus::Error => "✗",
        CheckStatus::Skipped => "─",
    }
}

/// Number of bytes in a kilobyte, megabyte and gigabyte.
pub open spec fn kib() -> nat { 1024 }
pub open spec fn mib() -> nat { 1048576 }
pub open spec fn gib() -> nat { 1073741824 }

/// `num / den` in tenths, rounded to the nearest tenth, ties to an even
/// last digit.
pub open spec fn tenths_half_even(num: nat, den: nat) -> nat
    recommends
        den > 0,
{
    let q = (10 * num) / den;
    let r = (10 * num) % den;
    if 2 * r > den || (2 * r == den && q % 2 == 1) {
        q + 1
    } else {
        q
    }
}

/// The smallest power of two `pow2(k)`, from `k` upward, by which `b`
/// divides down below 2^53 (at most 2^64).
pub open spec fn f64_unit_from(b: nat, k: nat) -> nat
    decreases 64 - k,
{
    if k >= 64 || b / pow2(k) < 0x20_0000_0000_0000 {
        pow2(k)
    } else {
        f64_unit_from(b, k + 1)
    }
}

/// `b` rounded to the nearest multiple of `unit`, ties to an even multiple.
pub open spec fn round_to_unit(b: nat, unit: nat) -> nat
    recommends
        unit > 0,
{
    let q = b / unit;
    let r = b % unit;
    if 2 * r > unit || (2 * r == unit && q % 2 == 1) {
        (q + 1) * unit
    } else {
        q * unit
    }
}

/// The integer that an IEEE double holds after conversion from `b`
/// (53 significant bits, nearest, ties to even).
pub open spec fn double_of(b: nat) -> nat {
    round_to_unit(b, f64_unit_from(b, 0))
}

/// `t` tenths written with one decimal, e.g. 23 as "2.3".
pub open spec fn one_decimal(t: nat) -> Seq<char> {
    decimal(t / 10) + seq!['.'] + decimal(t % 10)
}

/// Human-readable byte count: whole bytes below 1 KB, otherwise one decimal
/// in the largest unit that fits.
pub open spec fn bytes_text(b: nat) -> Seq<char> {
    if b >= gib() {
        one_decimal(tenths_half_even(double_of(b), gib())) + " GB"@
    } else if b >= mib() {
        one_decimal(tenths_half_even(b, mib())) + " MB"@
    } else if b >= kib() {
        one_decimal(tenths_half_even(b, kib())) + " KB"@
    } else {
        decimal(b) + " B"@
    }
}

fn tenths_rounded(num: u128, den: u128) -> (t: u128)
    requires
        0 < den <= 0x1_0000_0000,
        num <= 0x4_0000_0000_0000_0000,
    ensures
        t == tenths_half_even(num as nat, den as nat),
{
    let q = (10 * num) / den;
    let r = (10 * num) % den;
    if 2 * r > den || (2 * r == den && q % 2 == 1) {
        q + 1
    } else {
        q
    }
}

fn double_value(b: u64) -> (v: u128)
    ensures
        v == double_of(b as nat),
        v <= 0x2_0000_0000_0000_0000,
{
    let mut unit: u128 = 1;
    let mut k: u32 = 0;
    proof {
        vstd::arithmetic::power2::lemma2_to64();
    }
    while k < 64 && (b as u128) / unit >= 0x20_0000_0000_0000
        invariant
            k <= 64,
            0 < unit,
            unit == pow2(k as nat),
            unit <= 0x1_0000_0000_0000_0000,
            f64_unit_from(b as nat, 0) == f64_unit_from(b as nat, k as nat),
        decreases 64 - k,
    {
        proof {
            vstd::arithmetic::power2::lemma_pow2_unfold((k + 1) as nat);
            if k < 63 {
                vstd::arithmetic::power2::lemma_pow2_strictly_increases((k + 1) as nat, 64);
            }
            vstd::arithmetic::power2::lemma2_to64_rest();
        }
        unit = unit * 2;
        k = k + 1;
    }
    let q = (b as u128) / unit;
    let r = (b as u128) % unit;
    proof {
        vstd::arithmetic::power2::lemma_pow2_pos(k as nat);
        vstd::arithmetic::div_mod::lemma_fundamental_div_mod(b as int, unit as int);
        assert(q * unit <= b) by (nonlinear_arith)
            requires
                q == (b as int) / (unit as int),
                unit > 0,
                b >= 0,
        ;
    }
    if 2 * r > unit || (2 * r == unit && q % 2 == 1) {
        proof {
            assert((q + 1) * unit == q * unit + unit) by (nonlinear_arith);
        }
        (q + 1) * unit
    } else {
        q * unit
    }
}

fn push_one_decimal(s: &mut String, t: u128)
    requires
        t / 10 <= u64::MAX,
    ensures
        final(s)@ == old(s)@ + one_decimal(t as nat),
{
    push_decimal(s, (t / 10) as u64);
    push_char(s, '.');
    push_decimal(s, (t % 10) as u64);
}

/// Format a byte count as a human-readable string.
pub fn format_bytes(bytes: u64) -> (r: String)
    ensures
        r@ == bytes_text(bytes as nat),
{
    let mut out = String::new();
    if bytes >= 1073741824 {
        let v = double_value(bytes);
        let t = tenths_rounded(v, 1073741824);
        proof {
            assert(t <= 10 * v / 1073741824 + 1);
        }
        push_one_decimal(&mut out, t);
        push_str(&mut out, " GB");
    } else if bytes >= 1048576 {
        let t = tenths_rounded(bytes as u128, 1048576);
        push_one_decimal(&mut out, t);
        push_str(&mut out, " MB");
    } else if bytes >= 1024 {
        let t = tenths_rounded(bytes as u128, 1024);
        push_one_decimal(&mut out, t);
        push_str(&mut out, " KB");
    } else {
        push_decimal(&mut out, bytes);
        push_str(&mut out, " B");
    }
    out
}

/// Whether a result adds to the warning count or the error count.
pub open spec fn warning_increment(status: CheckStatus) -> nat {
    if status == CheckStatus::Warning { 1 } else { 0 }
}

pub open spec fn error_increment(status: CheckStatus) -> nat {
    if status == CheckStatus::Error { 1 } else { 0 }
}

/// Count warnings and errors from a check result.
pub fn count_issues(result: &CheckResult, warnings: &mut usize, errors: &mut usize)
    requires
        *old(warnings) < usize::MAX,
        *old(errors) < usize::MAX,
    ensures
        *final(warnings) == *old(warnings) + warning_increment(result.status),
        *final(errors) == *old(errors) + error_increment(result.status),
{
    match result.status {
        CheckStatus::Warning => *warnings += 1,
        CheckStatus::Error => *errors += 1,
        _ => {},
    }
}

/// "1 error" / "3 errors" style count phrase.
pub open spec fn count_phrase(n: nat, noun: Seq<char>) -> Seq<char> {
    decimal(n) + seq![' '] + noun + (if n == 1 { Seq::<char>::empty() } else { seq!['s'] })
}

/// The summary line of a doctor run.
pub open spec fn summary_text(warnings: nat, errors: nat) -> Seq<char> {
    if warnings == 0 && errors == 0 {
        "  Result: all checks passed ✓"@
    } else if errors > 0 && warnings > 0 {
        "  Result: "@ + count_phrase(errors, "error"@) + ", "@ + count_phrase(warnings, "warning"@)
    } else if errors > 0 {
        "  Result: "@ + count_phrase(errors, "error"@)
    } else {
        "  Result: "@ + count_phrase(warnings, "warning"@)
    }
}

fn push_count_phrase(s: &mut String, n: u64, noun: &str)
    ensures
        final(s)@ == old(s)@ + count_phrase(n as nat, noun@),
{
    push_decimal(s, n);
    push_char(s, ' ');
    push_str(s, noun);
    if n != 1 {
        push_char(s, 's');
    }
    proof {
        assert(final(s)@ =~= old(s)@ + count_phrase(n as nat, noun@));
    }
}

/// The summary line printed at the end of a doctor run.
pub fn summary_line(warnings: u64, errors: u64) -> (r: String)
    ensures
        r@ == summary_text(warnings as nat, errors as nat),
{
    if warnings == 0 && errors == 0 {
        return owned("  Result: all checks passed ✓");
    }
    let mut out = owned("  Result: ");
    if errors > 0 {
        push_count_phrase(&mut out, errors, "error");
    }
    if errors > 0 && warnings > 0 {
        push_str(&mut out, ", ");
    }
    if warnings > 0 {
        push_count_phrase(&mut out, warnings, "warning");
    }
    proof {
        if errors > 0 && warnings > 0 {
            assert(out@ =~= summary_text(warnings as nat, errors as nat));
        } else if errors > 0 {
            assert(out@ =~= summary_text(warnings as nat, errors as nat));
        } else {
            assert(out@ =~= summary_text(warnings as nat, errors as nat));
        }
    }
    out
}

/// A suggestion line under the summary.
pub fn suggestion_line(suggestion: &str) -> (r: String)
    ensures
        r@ == "    → "@ + suggestion@,
{
    let mut out = owned("    → ");
    push_str(&mut out, suggestion);
    out
}

/// The main line of a check: label and value padded into columns, then
/// the status indicator.
pub open spec fn check_line_text(label: Seq<char>, value: Seq<char>, status: CheckStatus) -> Seq<char> {
    "    "@ + pad_right(label.push(':'), 16) + seq![' '] + pad_right(value, 40) + seq![' '] + icon_of(status)
}

/// The indented detail line of a check.
pub open spec fn detail_line_text(detail: Seq<char>) -> Seq<char> {
    "    "@ + pad_right(Seq::empty(), 16) + seq![' '] + detail
}

/// The printed lines of one check result (one, or two with a detail).
pub fn check_lines(result: &CheckResult) -> (lines: Vec<String>)
    ensures
        lines.len() == (if result.detail is Some { 2int } else { 1int }),
        lines[0]@ == check_line_text(result.label@, result.value@, result.status),
        result.detail matches Some(d) ==> lines[1]@ == detail_line_text(d@),
{
    let mut label = result.label.clone();
    push_char(&mut label, ':');
    let mut line = owned("    ");
    let l = padded_right(label.as_str(), 16);
    push_str(&mut line, l.as_str());
    push_char(&mut line, ' ');
    let v = padded_right(result.value.as_str(), 40);
    push_str(&mut line, v.as_str());
    push_char(&mut line, ' ');
    push_str(&mut line, status_icon(result.status));
    proof {
        assert(line@ =~= check_line_text(result.label@, result.value@, result.status));
    }
    let mut lines = Vec::new();
    lines.push(line);
    if let Some(d) = &result.detail {
        let mut second = owned("    ");
        let blank = padded_right("", 16);
        push_str(&mut second, blank.as_str());
        push_char(&mut second, ' ');
        push_str(&mut second, d.as_str());
        proof {
            reveal_strlit("");
            assert(""@ =~= Seq::<char>::empty());
            assert(second@ =~= detail_line_text(d@));
        }
        lines.push(second);
    }
    lines
}

} // verus!
