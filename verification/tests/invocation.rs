use script_launcher::package_manager::{
    determine_package_manager, exit_report, format_exit_code, run_invocation, PackageManager,
};
use script_launcher::text::{char_is_space, i32_to_dec, u32_to_dec};

#[test]
fn pnpm_lock_selects_pnpm() {
    assert_eq!(determine_package_manager(true), PackageManager::Pnpm);
}

#[test]
fn no_lock_selects_npm() {
    assert_eq!(determine_package_manager(false), PackageManager::Npm);
}

#[test]
fn command_names() {
    assert_eq!(PackageManager::Npm.command(), "npm");
    assert_eq!(PackageManager::Pnpm.command(), "pnpm");
}

#[test]
fn npm_invocation_shape() {
    let inv = run_invocation(PackageManager::Npm, "build");
    assert_eq!(inv.program, "npm");
    assert_eq!(inv.args, vec!["run".to_string(), "build".to_string()]);
    assert_eq!(inv.header, "Running: npm run build");
}

#[test]
fn pnpm_invocation_shape() {
    let inv = run_invocation(PackageManager::Pnpm, "test");
    assert_eq!(inv.program, "pnpm");
    assert_eq!(inv.args, vec!["run".to_string(), "test".to_string()]);
    assert_eq!(inv.header, "Running: pnpm run test");
}

#[test]
fn invocation_is_repeatable() {
    let a = run_invocation(PackageManager::Npm, "lint");
    let b = run_invocation(PackageManager::Npm, "lint");
    assert_eq!(a.program, b.program);
    assert_eq!(a.args, b.args);
    assert_eq!(a.header, b.header);
}

#[test]
fn script_name_is_one_argument() {
    let inv = run_invocation(PackageManager::Npm, "name with spaces; rm -rf");
    assert_eq!(inv.args.len(), 2);
    assert_eq!(inv.args[1], "name with spaces; rm -rf");
}

#[test]
fn failing_child_yields_diagnostic() {
    let report = exit_report(false, Some(7));
    assert_eq!(report, Some("Command failed with exit code: Some(7)".to_string()));
}

#[test]
fn succeeding_child_yields_no_diagnostic() {
    assert_eq!(exit_report(true, Some(0)), None);
}

#[test]
fn signalled_child_reports_no_code() {
    let report = exit_report(false, None);
    assert_eq!(report, Some("Command failed with exit code: None".to_string()));
}

#[test]
fn negative_exit_code_is_rendered() {
    assert_eq!(format_exit_code(Some(-3)), "Some(-3)");
}

#[test]
fn decimal_rendering() {
    assert_eq!(u32_to_dec(0), "0");
    assert_eq!(u32_to_dec(7), "7");
    assert_eq!(u32_to_dec(4294967295), "4294967295");
    assert_eq!(i32_to_dec(0), "0");
    assert_eq!(i32_to_dec(2147483647), "2147483647");
    assert_eq!(i32_to_dec(-2147483648), "-2147483648");
    assert_eq!(i32_to_dec(-10), "-10");
}

#[test]
fn whitespace_classification() {
    assert!(char_is_space(' '));
    assert!(char_is_space('\t'));
    assert!(char_is_space('\u{00A0}'));
    assert!(!char_is_space('x'));
    assert!(!char_is_space('='));
    assert!(!char_is_space('\u{200B}'));
}
