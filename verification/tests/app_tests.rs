use desktop_app::app::{AppPage, AppState, UpdateResult, UpdateState};

#[test]
fn fresh_state_is_idle_on_the_home_page() {
    let state = AppState::new();
    assert!(matches!(state.current_page, AppPage::Home));
    assert!(matches!(state.update_state, UpdateState::Idle));
    assert_eq!(state.update_status, "Ready");
    assert!(!state.show_update_dialog);
    assert_eq!(state.available_version, "");
}

#[test]
fn default_page_and_phase() {
    assert!(matches!(AppPage::default(), AppPage::Home));
    assert!(matches!(UpdateState::default(), UpdateState::Idle));
}

#[test]
fn navigation_changes_only_the_page() {
    let mut state = AppState::new();
    state.navigate(AppPage::Settings);
    assert!(matches!(state.current_page, AppPage::Settings));
    assert!(matches!(state.update_state, UpdateState::Idle));
    assert_eq!(state.update_status, "Ready");
    state.navigate(AppPage::DataTable);
    assert!(matches!(state.current_page, AppPage::DataTable));
    state.navigate(AppPage::About);
    assert!(matches!(state.current_page, AppPage::About));
}

#[test]
fn a_check_runs_and_finds_an_update() {
    let mut state = AppState::new();
    state.begin_check();
    assert!(matches!(state.update_state, UpdateState::Checking));
    state.apply_update_result(UpdateResult::UpdateAvailable("1.2.0".to_string()));
    match &state.update_state {
        UpdateState::Available(v) => assert_eq!(v, "1.2.0"),
        _ => panic!("expected the available phase"),
    }
    assert_eq!(state.available_version, "1.2.0");
    assert!(state.show_update_dialog);
    assert_eq!(state.update_status, "Update available!");
}

#[test]
fn a_check_runs_and_finds_nothing() {
    let mut state = AppState::new();
    state.begin_check();
    state.apply_update_result(UpdateResult::NoUpdate);
    assert!(matches!(state.update_state, UpdateState::Idle));
    assert_eq!(state.update_status, "No updates available.");
    assert!(!state.show_update_dialog);
}

#[test]
fn a_download_finishes() {
    let mut state = AppState::new();
    state.apply_update_result(UpdateResult::UpdateAvailable("1.2.0".to_string()));
    state.begin_download();
    assert!(matches!(state.update_state, UpdateState::Downloading));
    state.apply_update_result(UpdateResult::UpdateDownloaded);
    assert!(matches!(state.update_state, UpdateState::Downloaded));
    assert_eq!(state.update_status, "Update downloaded!");
}

#[test]
fn a_failure_keeps_the_reason_and_shows_it() {
    let mut state = AppState::new();
    state.begin_check();
    state.apply_update_result(UpdateResult::Error("tls handshake failed".to_string()));
    match &state.update_state {
        UpdateState::Error(m) => assert_eq!(m, "tls handshake failed"),
        _ => panic!("expected the error phase"),
    }
    assert_eq!(state.update_status, "Update failed: tls handshake failed");
}

#[test]
fn dismissing_the_dialog_returns_to_idle() {
    let mut state = AppState::new();
    state.apply_update_result(UpdateResult::UpdateAvailable("1.2.0".to_string()));
    assert!(state.show_update_dialog);
    state.dismiss_update_dialog();
    assert!(!state.show_update_dialog);
    assert!(matches!(state.update_state, UpdateState::Idle));
    assert_eq!(state.available_version, "1.2.0");
}

#[test]
fn export_outcomes_reach_the_status_line() {
    let mut state = AppState::new();
    state.note_export_outcome(Ok("/tmp/export_20260101_000000.xlsx".to_string()));
    assert_eq!(state.update_status, "Exported to: /tmp/export_20260101_000000.xlsx");
    state.note_export_outcome(Err("disk full".to_string()));
    assert_eq!(state.update_status, "Export failed: disk full");
}
