use discord_imhex::updater::{
    check_for_updates, parse_version, swap_next_op, swap_step, version_gt, SwapOp, SwapPhase,
    UpdateDecision,
};
use discord_imhex::get_current_timestamp;

#[test]
fn test_version_comparison() {
    let v1 = parse_version("1.0.0").unwrap();
    let v2 = parse_version("2.0.0").unwrap();
    assert!(version_gt(&v2, &v1));
}

#[test]
fn test_parse_version_strips_leading_v() {
    let v = parse_version("v1.2.3").unwrap();
    assert_eq!((v.major, v.minor, v.patch), (1, 2, 3));
    assert!(v.pre.is_empty());
    let w = parse_version("vv2.0.1").unwrap();
    assert_eq!((w.major, w.minor, w.patch), (2, 0, 1));
}

#[test]
fn test_parse_version_malformed() {
    assert!(parse_version("not-a-version").is_none());
    assert!(parse_version("1.2").is_none());
    assert!(parse_version("").is_none());
}

#[test]
fn test_version_precedence() {
    let a = parse_version("1.2.3").unwrap();
    let b = parse_version("1.2.4").unwrap();
    assert!(version_gt(&b, &a));
    assert!(!version_gt(&a, &b));
    assert!(!version_gt(&a, &a));
    // a release outranks its own pre-release
    let rc = parse_version("1.2.3-rc.1").unwrap();
    assert!(version_gt(&a, &rc));
    assert!(!version_gt(&rc, &a));
    // pre-release identifiers order numerically
    let rc2 = parse_version("1.2.3-rc.2").unwrap();
    assert!(version_gt(&rc2, &rc));
}

#[test]
fn test_update_triggered_on_newer_remote() {
    let urls = vec!["https://example.com/download/v1.2.4".to_string()];
    match check_for_updates("v1.2.4", "1.2.3", &urls) {
        UpdateDecision::Install { url } => assert_eq!(url, urls[0]),
        other => panic!("expected an install decision, got {:?}", other),
    }
}

#[test]
fn test_no_update_on_equal_versions() {
    let urls = vec!["https://example.com/x".to_string()];
    assert!(matches!(check_for_updates("1.2.3", "1.2.3", &urls), UpdateDecision::UpToDate));
    assert!(matches!(check_for_updates("1.2.2", "1.2.3", &urls), UpdateDecision::UpToDate));
}

#[test]
fn test_malformed_tag_aborts_only_that_cycle() {
    let urls = vec!["https://example.com/x".to_string()];
    // the malformed tag fails the cycle without crashing anything
    assert!(matches!(check_for_updates("garbage", "1.2.3", &urls), UpdateDecision::ParseFailed));
    // the next cycle works as usual
    assert!(matches!(
        check_for_updates("2.0.0", "1.2.3", &urls),
        UpdateDecision::Install { .. }
    ));
}

#[test]
fn test_update_without_assets() {
    let none: Vec<String> = vec![];
    assert!(matches!(check_for_updates("2.0.0", "1.0.0", &none), UpdateDecision::NoAsset));
}

#[test]
fn test_swap_success_path() {
    let mut phase = SwapPhase::Idle;
    assert_eq!(swap_next_op(phase), Some(SwapOp::StageTemp));
    phase = swap_step(phase, true);
    assert_eq!(phase, SwapPhase::Staged);
    assert_eq!(swap_next_op(phase), Some(SwapOp::BackupCurrent));
    phase = swap_step(phase, true);
    assert_eq!(phase, SwapPhase::BackedUp);
    assert_eq!(swap_next_op(phase), Some(SwapOp::PromoteTemp));
    phase = swap_step(phase, true);
    assert_eq!(phase, SwapPhase::Promoted);
    assert_eq!(swap_next_op(phase), None);
}

#[test]
fn test_swap_abort_keeps_original() {
    // a failed backup rename aborts; the old binary keeps running
    let phase = swap_step(SwapPhase::Staged, false);
    assert_eq!(phase, SwapPhase::Aborted);
    assert_eq!(swap_next_op(phase), None);
    // the abort is absorbing
    assert_eq!(swap_step(phase, true), SwapPhase::Aborted);
}

#[test]
fn test_swap_promote_failure_is_flagged() {
    let phase = swap_step(SwapPhase::BackedUp, false);
    assert_eq!(phase, SwapPhase::ExecutableMissing);
    assert_eq!(swap_next_op(phase), None);
}

#[test]
fn test_timestamp_is_positive() {
    assert!(get_current_timestamp() > 0);
}
