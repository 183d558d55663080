use wellwon_desktop::updater::{
    CheckOutcome, UpdatePrompter, CHECK_INTERVAL_SECS, EVENT_INSTALL_UPDATE, EVENT_TOAST_SHOWN,
    EVENT_UPDATE_AVAILABLE, EVENT_WEBVIEW_READY, FIRST_CHECK_DELAY_SECS,
};

fn available(v: &str) -> CheckOutcome {
    CheckOutcome::Available(v.to_string())
}

#[test]
fn event_names_and_schedule() {
    assert_eq!(EVENT_UPDATE_AVAILABLE, "ww-update-available");
    assert_eq!(EVENT_INSTALL_UPDATE, "ww-install-update");
    assert_eq!(EVENT_WEBVIEW_READY, "ww-ready");
    assert_eq!(EVENT_TOAST_SHOWN, "ww-toast-shown");
    assert_eq!(FIRST_CHECK_DELAY_SECS, 5);
    assert_eq!(CHECK_INTERVAL_SECS, 30 * 60);
}

#[test]
fn found_update_is_emitted() {
    let mut p = UpdatePrompter::new();
    assert_eq!(p.on_check_result(available("0.1.13")), Some("0.1.13".to_string()));
}

#[test]
fn unconfirmed_update_is_emitted_again() {
    let mut p = UpdatePrompter::new();
    assert!(p.on_check_result(available("0.1.13")).is_some());
    assert_eq!(p.on_check_result(available("0.1.13")), Some("0.1.13".to_string()));
}

#[test]
fn confirmed_update_is_not_emitted_again() {
    let mut p = UpdatePrompter::new();
    p.on_check_result(available("0.1.13"));
    p.on_toast_shown("\"0.1.13\"");
    assert_eq!(p.on_check_result(available("0.1.13")), None);
}

#[test]
fn newer_version_prompts_after_confirmation() {
    let mut p = UpdatePrompter::new();
    p.on_toast_shown("\"0.1.13\"");
    assert_eq!(p.on_check_result(available("0.1.14")), Some("0.1.14".to_string()));
}

#[test]
fn empty_confirmation_is_ignored() {
    let mut p = UpdatePrompter::new();
    p.on_toast_shown("\"\"");
    p.on_toast_shown("");
    assert_eq!(p.on_check_result(available("")), Some(String::new()));
}

#[test]
fn ready_replays_pending_version() {
    let mut p = UpdatePrompter::new();
    assert_eq!(p.on_webview_ready(), None);
    p.on_check_result(available("0.2.0"));
    assert_eq!(p.on_webview_ready(), Some("0.2.0".to_string()));
    p.on_toast_shown("\"0.2.0\"");
    assert_eq!(p.on_check_result(available("0.2.0")), None);
    assert_eq!(p.on_webview_ready(), Some("0.2.0".to_string()));
}

#[test]
fn no_update_changes_nothing() {
    let mut p = UpdatePrompter::new();
    assert_eq!(p.on_check_result(CheckOutcome::UpToDate), None);
    assert_eq!(p.on_check_result(CheckOutcome::Failed), None);
    assert_eq!(p.on_webview_ready(), None);
}
