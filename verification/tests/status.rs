use pulsos::status::{resolve_run_mode, OutputFormat, RunMode, StatusArgs};
use pulsos::domain::PlatformKind;
use pulsos::status::missing_token_warning;

fn base_args() -> StatusArgs {
    StatusArgs { project: None, platform: None, view: None, branch: None, watch: false, once: false }
}

#[test]
fn tty_table_defaults_to_live() {
    let args = base_args();
    let mode = resolve_run_mode(&args, OutputFormat::Table, true).unwrap();
    assert_eq!(mode, RunMode::Live);
}

#[test]
fn tty_table_once_forces_one_shot() {
    let mut args = base_args();
    args.once = true;
    let mode = resolve_run_mode(&args, OutputFormat::Table, true).unwrap();
    assert_eq!(mode, RunMode::Once);
}

#[test]
fn watch_forces_live_on_tty() {
    let mut args = base_args();
    args.watch = true;
    let mode = resolve_run_mode(&args, OutputFormat::Table, true).unwrap();
    assert_eq!(mode, RunMode::Live);
}

#[test]
fn non_tty_defaults_to_one_shot() {
    let args = base_args();
    let mode = resolve_run_mode(&args, OutputFormat::Table, false).unwrap();
    assert_eq!(mode, RunMode::Once);
}

#[test]
fn non_table_formats_are_one_shot() {
    let args = base_args();
    let json_mode = resolve_run_mode(&args, OutputFormat::Json, true).unwrap();
    let compact_mode = resolve_run_mode(&args, OutputFormat::Compact, true).unwrap();
    assert_eq!(json_mode, RunMode::Once);
    assert_eq!(compact_mode, RunMode::Once);
}

#[test]
fn watch_without_tty_errors() {
    let mut args = base_args();
    args.watch = true;
    let err = resolve_run_mode(&args, OutputFormat::Table, false).expect_err("watch without tty should fail");
    assert!(err.message().contains("interactive terminal"));
}

#[test]
fn missing_token_warnings_name_the_command() {
    assert_eq!(
        missing_token_warning(PlatformKind::GitHub),
        "GitHub: no token found. Run `pulsos auth github` to authenticate."
    );
    assert_eq!(
        missing_token_warning(PlatformKind::Vercel),
        "Vercel: no token found. Run `pulsos auth vercel` to authenticate."
    );
}
