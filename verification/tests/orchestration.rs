use modctl::ledger::AutoUpdater;
use modctl::modules::Module;
use modctl::update::{
    update, BatchAction, BatchEvent, BatchUpdate, Notice, UpdateDecision, UpdateError,
    VersionQuery,
};

fn module(id: &str, canonical: &str, version: &str, private: bool) -> Module {
    Module {
        id: id.to_string(),
        canonical: canonical.to_string(),
        version: version.to_string(),
        description: format!("{} description", canonical),
        source: "registry".to_string(),
        private,
    }
}

fn query_ok(latest: &str) -> BatchEvent {
    BatchEvent::QueryResult { result: Ok(VersionQuery { latest: Some(latest.to_string()) }) }
}

#[test]
fn update_compares_versions_by_exact_equality() {
    let m = module("mod/a", "A", "2.0", false);

    // equal versions: nothing to do
    let decision = update(&m, Ok(VersionQuery { latest: Some("2.0".to_string()) }));
    assert!(matches!(decision, Ok(UpdateDecision::UpToDate)));

    // a different version asks for a reinstall, even a "lower" one: the
    // comparison is exact equality, not an ordering
    match update(&m, Ok(VersionQuery { latest: Some("1.9".to_string()) })) {
        Ok(UpdateDecision::Install { old_version, new_version }) => {
            assert_eq!(old_version, "2.0");
            assert_eq!(new_version, "1.9");
        },
        other => panic!("expected a reinstall, got {:?}", other),
    }

    // no released versions is its own failure, distinct from "up to date"
    let decision = update(&m, Ok(VersionQuery { latest: None }));
    assert!(matches!(decision, Err(UpdateError::NoReleasedVersions)));

    // a failed query propagates as a registry failure
    match update(&m, Err("timeout".to_string())) {
        Err(UpdateError::Registry { message }) => assert_eq!(message, "timeout"),
        other => panic!("expected a registry error, got {:?}", other),
    }
}

#[test]
fn up_to_date_module_causes_no_install_and_no_ledger_change() {
    let mods = vec![module("mod/a", "A", "1.0", false)];
    let (mut batch, first) = BatchUpdate::new(mods, AutoUpdater::new());
    assert!(matches!(first, BatchAction::Query { .. }));

    let (action, notice) = batch.step(query_ok("1.0"));
    // installed == latest: straight to the single save, no install request
    assert!(matches!(action, BatchAction::SaveLedger));
    assert!(notice.is_none());
    assert!(batch.ledger.export().is_empty());

    let (action, notice) = batch.step(BatchEvent::LedgerSaved);
    assert!(matches!(action, BatchAction::Done));
    assert!(notice.is_none());
}

#[test]
fn absent_latest_reports_no_released_versions_and_batch_continues() {
    let mods = vec![module("mod/a", "A", "1.0", false), module("mod/b", "B", "2.0", false)];
    let (mut batch, _) = BatchUpdate::new(mods, AutoUpdater::new());

    let (action, notice) = batch.step(BatchEvent::QueryResult {
        result: Ok(VersionQuery { latest: None }),
    });
    match notice {
        Some(Notice::UpdateFailed { name, error }) => {
            assert_eq!(name, "A");
            assert!(matches!(error, UpdateError::NoReleasedVersions));
        },
        other => panic!("expected a failure notice, got {:?}", other),
    }
    // A is not marked updated, and B is still processed
    assert!(batch.ledger.export().is_empty());
    match action {
        BatchAction::Query { name, .. } => assert_eq!(name, "B"),
        other => panic!("expected the query of B, got {:?}", other),
    }
}

#[test]
fn one_failing_module_does_not_abort_the_batch() {
    let mods = vec![module("mod/a", "A", "1.0", false), module("mod/b", "B", "2.0", false)];
    let (mut batch, _) = BatchUpdate::new(mods, AutoUpdater::new());

    // the registry query for A fails outright
    let (action, notice) = batch.step(BatchEvent::QueryResult {
        result: Err("connection reset".to_string()),
    });
    match notice {
        Some(Notice::UpdateFailed { name, error }) => {
            assert_eq!(name, "A");
            match error {
                UpdateError::Registry { message } => assert_eq!(message, "connection reset"),
                other => panic!("expected a registry error, got {:?}", other),
            }
        },
        other => panic!("expected a failure notice, got {:?}", other),
    }
    match action {
        BatchAction::Query { name, .. } => assert_eq!(name, "B"),
        other => panic!("expected the query of B, got {:?}", other),
    }

    // B updates normally afterwards
    let (action, _) = batch.step(query_ok("2.1"));
    assert!(matches!(action, BatchAction::Install { .. }));
    let (action, notice) = batch.step(BatchEvent::InstallResult { result: Ok(()) });
    assert!(matches!(action, BatchAction::SaveLedger));
    assert!(matches!(notice, Some(Notice::Updated { .. })));
}

#[test]
fn failed_installation_reports_and_moves_on() {
    let mods = vec![module("mod/a", "A", "1.0", false), module("mod/b", "B", "2.0", false)];
    let (mut batch, _) = BatchUpdate::new(mods, AutoUpdater::new());

    let (action, _) = batch.step(query_ok("1.1"));
    assert!(matches!(action, BatchAction::Install { .. }));
    let (action, notice) = batch.step(BatchEvent::InstallResult {
        result: Err("disk full".to_string()),
    });
    match notice {
        Some(Notice::UpdateFailed { name, error }) => {
            assert_eq!(name, "A");
            match error {
                UpdateError::InstallFailed { message } => assert_eq!(message, "disk full"),
                other => panic!("expected an install error, got {:?}", other),
            }
        },
        other => panic!("expected a failure notice, got {:?}", other),
    }
    // A is not marked current, B is still processed
    assert!(batch.ledger.export().is_empty());
    match action {
        BatchAction::Query { name, .. } => assert_eq!(name, "B"),
        other => panic!("expected the query of B, got {:?}", other),
    }
}

#[test]
fn private_module_is_skipped_and_public_module_updated() {
    // installed {A:"1.0" (public), B:"2.0" (private)}; registry would report
    // A latest "1.1", B latest "3.0" — but B must never be queried at all
    let mods = vec![module("mod/a", "A", "1.0", false), module("mod/b", "B", "2.0", true)];
    let (mut batch, first) = BatchUpdate::new(mods, AutoUpdater::new());

    match first {
        BatchAction::Query { ref name, ref module_id } => {
            assert_eq!(name, "A");
            assert_eq!(module_id, "mod/a");
        },
        ref other => panic!("expected the query of A, got {:?}", other),
    }

    let (action, notice) = batch.step(query_ok("1.1"));
    match action {
        BatchAction::Install { name, old_version, new_version, .. } => {
            assert_eq!(name, "A");
            assert_eq!(old_version, "1.0");
            assert_eq!(new_version, "1.1");
        },
        other => panic!("expected the install of A, got {:?}", other),
    }
    assert!(notice.is_none());

    // B is private: after A's install the batch goes straight to the save
    let (action, notice) = batch.step(BatchEvent::InstallResult { result: Ok(()) });
    assert!(matches!(action, BatchAction::SaveLedger));
    match notice {
        Some(Notice::Updated { name, old_version, new_version }) => {
            assert_eq!(name, "A");
            assert_eq!(old_version, "1.0");
            assert_eq!(new_version, "1.1");
        },
        other => panic!("expected the success notice for A, got {:?}", other),
    }

    // the ledger marks A current and holds nothing about B
    let entries = batch.ledger.export();
    assert_eq!(entries.len(), 1);
    assert_eq!(entries[0].0, "A");
    assert_eq!(entries[0].1, false);

    let (action, _) = batch.step(BatchEvent::LedgerSaved);
    assert!(matches!(action, BatchAction::Done));
}

#[test]
fn all_private_modules_go_straight_to_a_single_save() {
    let mods = vec![module("mod/a", "A", "1.0", true), module("mod/b", "B", "2.0", true)];
    let (mut batch, first) = BatchUpdate::new(mods, AutoUpdater::new());
    assert!(matches!(first, BatchAction::SaveLedger));
    let (action, notice) = batch.step(BatchEvent::LedgerSaved);
    assert!(matches!(action, BatchAction::Done));
    assert!(notice.is_none());
    assert!(batch.ledger.export().is_empty());
}

#[test]
fn ledger_is_saved_exactly_once_after_the_full_batch() {
    let mods = vec![
        module("mod/a", "A", "1.0", false),
        module("mod/b", "B", "2.0", false),
        module("mod/c", "C", "3.0", false),
    ];
    let (mut batch, first) = BatchUpdate::new(mods, AutoUpdater::new());

    let mut saves = 0;
    let mut queried: Vec<String> = Vec::new();
    let mut action = first;
    loop {
        match action {
            BatchAction::Query { name, .. } => {
                queried.push(name);
                // every module is already current
                let (next, _) = batch.step(query_ok(match queried.len() {
                    1 => "1.0",
                    2 => "2.0",
                    _ => "3.0",
                }));
                action = next;
            },
            BatchAction::Install { .. } => panic!("no module needed an install"),
            BatchAction::SaveLedger => {
                saves += 1;
                // the save is requested only after every module was considered
                assert_eq!(queried, vec!["A", "B", "C"]);
                let (next, _) = batch.step(BatchEvent::LedgerSaved);
                action = next;
            },
            BatchAction::Done => break,
        }
    }
    assert_eq!(saves, 1);
}
