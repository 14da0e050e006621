use pulsos::doctor_fmt::{
    check_lines, count_issues, format_bytes, status_icon, summary_line, suggestion_line,
    CheckResult, CheckStatus,
};

#[test]
fn status_icon_variants() {
    assert_eq!(status_icon(CheckStatus::Okay), "✓");
    assert_eq!(status_icon(CheckStatus::Warning), "⚠");
    assert_eq!(status_icon(CheckStatus::Error), "✗");
    assert_eq!(status_icon(CheckStatus::Skipped), "─");
}

#[test]
fn format_bytes_b() {
    assert_eq!(format_bytes(0), "0 B");
    assert_eq!(format_bytes(512), "512 B");
    assert_eq!(format_bytes(1023), "1023 B");
}

#[test]
fn format_bytes_kb() {
    assert_eq!(format_bytes(1024), "1.0 KB");
    assert_eq!(format_bytes(1536), "1.5 KB");
    assert_eq!(format_bytes(10 * 1024), "10.0 KB");
}

#[test]
fn format_bytes_mb() {
    assert_eq!(format_bytes(1024 * 1024), "1.0 MB");
    assert_eq!(format_bytes(2_400_000), "2.3 MB");
}

#[test]
fn format_bytes_gb() {
    assert_eq!(format_bytes(1024 * 1024 * 1024), "1.0 GB");
    assert_eq!(format_bytes(2 * 1024 * 1024 * 1024), "2.0 GB");
}

#[test]
fn format_bytes_ties_round_to_even_tenth() {
    // 1280 bytes is exactly 1.25 KB; 1.35 KB is 1382.4 bytes, so 1.375 KB = 1408.
    assert_eq!(format_bytes(1280), "1.2 KB");
    assert_eq!(format_bytes(1408), "1.4 KB");
    assert_eq!(format_bytes(1152), "1.1 KB");
}

#[test]
fn format_bytes_matches_float_formatting() {
    for b in [
        0u64,
        1,
        1023,
        1024,
        1100,
        1280,
        99_999,
        1_048_575,
        1_048_576,
        5_000_000,
        1_073_741_823,
        1_073_741_824,
        9_007_199_254_740_993,
        18_446_744_073_709_551_615,
    ] {
        let expected = if b >= 1 << 30 {
            format!("{:.1} GB", b as f64 / (1u64 << 30) as f64)
        } else if b >= 1 << 20 {
            format!("{:.1} MB", b as f64 / (1u64 << 20) as f64)
        } else if b >= 1 << 10 {
            format!("{:.1} KB", b as f64 / 1024.0)
        } else {
            format!("{b} B")
        };
        assert_eq!(format_bytes(b), expected, "bytes = {b}");
    }
}

#[test]
fn check_result_constructors() {
    let ok = CheckResult::ok("GitHub", "authenticated");
    assert_eq!(ok.status, CheckStatus::Okay);
    assert_eq!(ok.label, "GitHub");
    assert_eq!(ok.value, "authenticated");
    assert!(ok.detail.is_none());

    let warn = CheckResult::warning("Vercel", "expires soon").with_detail("7 days remaining");
    assert_eq!(warn.status, CheckStatus::Warning);
    assert_eq!(warn.detail, Some("7 days remaining".into()));

    let err = CheckResult::error("Railway", "auth failed");
    assert_eq!(err.status, CheckStatus::Error);

    let skip = CheckResult::skipped("gh CLI", "not installed");
    assert_eq!(skip.status, CheckStatus::Skipped);
}

#[test]
fn count_issues_tracks_correctly() {
    let mut warnings = 0;
    let mut errors = 0;

    count_issues(&CheckResult::ok("a", "b"), &mut warnings, &mut errors);
    assert_eq!((warnings, errors), (0, 0));

    count_issues(&CheckResult::warning("a", "b"), &mut warnings, &mut errors);
    assert_eq!((warnings, errors), (1, 0));

    count_issues(&CheckResult::error("a", "b"), &mut warnings, &mut errors);
    assert_eq!((warnings, errors), (1, 1));

    count_issues(&CheckResult::skipped("a", "b"), &mut warnings, &mut errors);
    assert_eq!((warnings, errors), (1, 1));
}

#[test]
fn summary_line_variants() {
    assert_eq!(summary_line(0, 0), "  Result: all checks passed ✓");
    assert_eq!(summary_line(1, 0), "  Result: 1 warning");
    assert_eq!(summary_line(0, 2), "  Result: 2 errors");
    assert_eq!(summary_line(3, 1), "  Result: 1 error, 3 warnings");
    assert_eq!(suggestion_line("Run it"), "    → Run it");
}

#[test]
fn check_lines_align_columns() {
    let r = CheckResult::ok("Shell", "zsh").with_detail("more");
    let lines = check_lines(&r);
    assert_eq!(lines.len(), 2);
    assert_eq!(lines[0], format!("    {:<16} {:<40} {}", "Shell:", "zsh", "✓"));
    assert_eq!(lines[1], format!("    {:<16} {}", "", "more"));
    let plain = check_lines(&CheckResult::error("GitHub", "invalid"));
    assert_eq!(plain.len(), 1);
}
