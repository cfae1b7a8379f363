use desktop_app::data::DataStore;
use desktop_app::updater::{
    AppUpdater, ReleaseInfo, UpdateApplyError, UpdateCheckError, UpdateOutcome,
};

fn release(version: &str) -> ReleaseInfo {
    ReleaseInfo { version: version.to_string() }
}

fn updater(running: &str) -> AppUpdater {
    AppUpdater::new(running.to_string())
}

#[test]
fn equal_version_means_no_update() {
    let r = updater("1.0.0").check_for_updates(Ok(vec![release("1.0.0")]));
    assert!(matches!(r, Ok(UpdateOutcome::NoUpdate)));
}

#[test]
fn newer_version_is_available() {
    let r = updater("1.0.0").check_for_updates(Ok(vec![release("1.2.0")]));
    match r {
        Ok(UpdateOutcome::Available(v)) => assert_eq!(v, "1.2.0"),
        _ => panic!("expected an available update"),
    }
}

#[test]
fn older_version_still_reads_as_available() {
    // The comparison is plain string inequality, not version ordering.
    let r = updater("1.0.0").check_for_updates(Ok(vec![release("0.9.0")]));
    match r {
        Ok(UpdateOutcome::Available(v)) => assert_eq!(v, "0.9.0"),
        _ => panic!("expected an available update"),
    }
}

#[test]
fn only_the_first_entry_counts() {
    let r = updater("1.0.0").check_for_updates(Ok(vec![release("2.0.0"), release("1.0.0")]));
    match r {
        Ok(UpdateOutcome::Available(v)) => assert_eq!(v, "2.0.0"),
        _ => panic!("expected an available update"),
    }
}

#[test]
fn empty_release_list_is_an_error() {
    let r = updater("1.0.0").check_for_updates(Ok(Vec::new()));
    assert!(matches!(r, Err(UpdateCheckError::NoReleases)));
}

#[test]
fn fetch_failure_is_surfaced() {
    let r = updater("1.0.0").check_for_updates(Err("network down".to_string()));
    match r {
        Err(UpdateCheckError::FetchFailed(m)) => assert_eq!(m, "network down"),
        _ => panic!("expected a fetch failure"),
    }
}

#[test]
fn a_failed_check_leaves_the_store_alone() {
    let mut store = DataStore::new();
    store.add_sample_data();
    let before: Vec<u32> = store.get_all_data().iter().map(|r| r.id).collect();
    let r = updater("1.0.0").check_for_updates(Err("no route to host".to_string()));
    assert!(r.is_err());
    assert_eq!(store.get_record_count(), 5);
    let after: Vec<u32> = store.get_all_data().iter().map(|r| r.id).collect();
    assert_eq!(before, after);
}

#[test]
fn a_successful_apply_reports_the_version() {
    let r = updater("1.0.0").update_app(Ok("1.2.0".to_string()));
    match r {
        Ok(v) => assert_eq!(v, "1.2.0"),
        Err(_) => panic!("expected success"),
    }
}

#[test]
fn a_failed_apply_keeps_the_reason() {
    let r = updater("1.0.0").update_app(Err("asset missing".to_string()));
    match r {
        Err(UpdateApplyError { message }) => assert_eq!(message, "asset missing"),
        Ok(_) => panic!("expected failure"),
    }
}
