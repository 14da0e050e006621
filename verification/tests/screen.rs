use pulsos::screen::{
    confirm_result_line, format_screen, is_cancelled_error, multiselect_result_line, prompt_screen,
    result_screen, PromptResult, ScreenSeverity, ScreenSpec,
};

#[test]
fn format_screen_includes_step_header() {
    let spec = ScreenSpec::new("GitHub").step(1, 3).body_lines(&["Create token"]);
    let rendered = format_screen(&spec, 76);
    assert!(rendered.contains("◆ GitHub"));
    assert!(rendered.contains("Step 1 of 3"));
    assert!(rendered.contains("Create token"));
}

#[test]
fn format_screen_renders_hints() {
    let spec = ScreenSpec::new("Railway")
        .body_lines(&["Authentication failed"])
        .hints(&["Check account token type"])
        .severity(ScreenSeverity::Error);
    let rendered = format_screen(&spec, 76);
    assert!(rendered.contains("✗ Check account token type"));
}

#[test]
fn prompt_result_cancelled_shape() {
    let cancelled: PromptResult<String> = PromptResult::cancelled();
    assert!(cancelled.cancelled);
    assert!(cancelled.value.is_none());
}

#[test]
fn format_screen_exact_layout() {
    let spec = ScreenSpec::new("GitHub")
        .subtitle("Sub")
        .step(2, 4)
        .body_lines(&["one", "", "two"])
        .hints(&["hint"])
        .severity(ScreenSeverity::Warning);
    let rendered = format_screen(&spec, 20);
    // "◆ GitHub" is 10 bytes, "Step 2 of 4" is 11 bytes: no spacer room.
    let expected = format!(
        "◆ GitHubStep 2 of 4\n{}\n\n  Sub\n\n  one\n\n  two\n\n  ! hint\n",
        "─".repeat(20)
    );
    assert_eq!(rendered, expected);
    let wide = format_screen(&ScreenSpec::new("A").step(1, 2), 30);
    assert!(wide.starts_with(&format!("◆ A{}Step 1 of 2\n", " ".repeat(30 - 5 - 11))));
}

#[test]
fn prompt_and_result_pages() {
    let spec = ScreenSpec::new("T").body_lines(&["x"]);
    let p = prompt_screen(&spec, "Go?");
    assert_eq!(p.body_lines, vec!["x".to_string(), String::new(), "Prompt: Go?".to_string()]);
    let r = result_screen(&spec, ScreenSeverity::Success, confirm_result_line(true, "Go?"));
    assert_eq!(r.severity, ScreenSeverity::Success);
    assert_eq!(r.body_lines[2], "✓ Go?");
    assert_eq!(confirm_result_line(false, "Go?"), "○ Go?");
    assert_eq!(multiselect_result_line(3), "Selected 3 item(s).");
}

#[test]
fn cancelled_error_detection() {
    assert!(is_cancelled_error("Operation CANCELLED"));
    assert!(is_cancelled_error("read interrupted"));
    assert!(is_cancelled_error("Aborted by user"));
    assert!(!is_cancelled_error("io error"));
}
