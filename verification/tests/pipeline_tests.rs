use mod_installer::pipeline::{Action, Event, Pipeline, Stage};

#[test]
fn a_clean_run_walks_every_stage_in_order() {
    let p = Pipeline::new();
    assert_eq!(p.stage, Stage::Idle);

    let (p, a) = p.step(Event::StartRequested { archive_count: 2 });
    assert_eq!(p.stage, Stage::Loading);
    assert_eq!(a, Action::OpenArchives);

    let (p, a) = p.step(Event::LoadFinished);
    assert_eq!(p.stage, Stage::Extracting);
    assert_eq!(a, Action::CreateStaging);

    let (p, a) = p.step(Event::StagingCreated);
    assert_eq!(p.stage, Stage::Extracting);
    assert_eq!(a, Action::ExtractNextArchive);

    let (p, a) = p.step(Event::ArchiveExtracted);
    assert_eq!(p.stage, Stage::Extracting);
    assert_eq!(a, Action::ExtractNextArchive);

    let (p, a) = p.step(Event::ArchiveExtracted);
    assert_eq!(p.stage, Stage::Reconciling);
    assert_eq!(a, Action::Reconcile);

    let (p, a) = p.step(Event::ReconcileFinished);
    assert_eq!(p.stage, Stage::CleaningUp);
    assert_eq!(a, Action::Cleanup);

    let (p, a) = p.step(Event::StagingRemoved);
    assert_eq!(p.stage, Stage::Succeeded);
    assert_eq!(a, Action::ReportSuccess);
    assert!(p.error.is_none());
}

#[test]
fn preexisting_staging_fails_without_touching_the_destination() {
    let p = Pipeline::new();
    let (p, _) = p.step(Event::StartRequested { archive_count: 1 });
    let (p, _) = p.step(Event::LoadFinished);
    assert_eq!(p.stage, Stage::Extracting);

    // Staging creation fails because the directory already exists.
    let (p, a1) = p.step(Event::StagingAlreadyExisted {
        message: "staging directory already exists".to_string(),
    });
    assert_eq!(a1, Action::WriteDiagnostic);
    assert_eq!(p.stage, Stage::CleaningUp);
    assert!(p.diagnostic_owed);
    assert_eq!(
        p.error,
        Some("staging directory already exists".to_string())
    );

    let (p, a2) = p.step(Event::DiagnosticWritten);
    assert_eq!(a2, Action::Cleanup);
    assert!(!p.diagnostic_owed);

    let (p, a3) = p.step(Event::StagingRemoved);
    assert_eq!(p.stage, Stage::Failed);
    assert_eq!(a3, Action::ReportFailure);
    assert_eq!(
        p.error,
        Some("staging directory already exists".to_string())
    );

    // No step of the failure path asked the driver to reconcile, so no
    // destination entry was ever created.
    assert_ne!(a1, Action::Reconcile);
    assert_ne!(a2, Action::Reconcile);
    assert_ne!(a3, Action::Reconcile);
}

#[test]
fn absent_staging_at_cleanup_is_a_no_op_not_an_error() {
    let run = |last: Event| {
        let p = Pipeline::new();
        let (p, _) = p.step(Event::StartRequested { archive_count: 1 });
        let (p, _) = p.step(Event::LoadFinished);
        let (p, _) = p.step(Event::StagingCreated);
        let (p, _) = p.step(Event::ArchiveExtracted);
        let (p, _) = p.step(Event::ReconcileFinished);
        p.step(last)
    };
    let (removed, a_removed) = run(Event::StagingRemoved);
    let (absent, a_absent) = run(Event::StagingAbsent);
    assert_eq!(removed.stage, Stage::Succeeded);
    assert_eq!(absent.stage, Stage::Succeeded);
    assert_eq!(a_removed, Action::ReportSuccess);
    assert_eq!(a_absent, Action::ReportSuccess);
    assert!(absent.error.is_none());
}

#[test]
fn extraction_failure_aborts_through_cleanup() {
    let p = Pipeline::new();
    let (p, _) = p.step(Event::StartRequested { archive_count: 3 });
    let (p, _) = p.step(Event::LoadFinished);
    let (p, _) = p.step(Event::StagingCreated);
    let (p, _) = p.step(Event::ArchiveExtracted);

    let (p, a) = p.step(Event::ExtractionFailed {
        message: "corrupt archive".to_string(),
    });
    assert_eq!(p.stage, Stage::CleaningUp);
    assert_eq!(a, Action::WriteDiagnostic);
    assert!(p.diagnostic_owed);

    let (p, _) = p.step(Event::DiagnosticWritten);
    let (p, a) = p.step(Event::StagingRemoved);
    assert_eq!(p.stage, Stage::Failed);
    assert_eq!(a, Action::ReportFailure);
    assert_eq!(p.error, Some("corrupt archive".to_string()));
}

#[test]
fn load_failure_cleans_up_without_a_diagnostic() {
    let p = Pipeline::new();
    let (p, _) = p.step(Event::StartRequested { archive_count: 1 });
    let (p, a) = p.step(Event::LoadFailed {
        message: "archive unreadable".to_string(),
    });
    assert_eq!(p.stage, Stage::CleaningUp);
    assert_eq!(a, Action::Cleanup);
    assert!(!p.diagnostic_owed);

    let (p, a) = p.step(Event::StagingAbsent);
    assert_eq!(p.stage, Stage::Failed);
    assert_eq!(a, Action::ReportFailure);
    assert_eq!(p.error, Some("archive unreadable".to_string()));
}

#[test]
fn cleanup_failure_does_not_mask_the_primary_error() {
    let p = Pipeline::new();
    let (p, _) = p.step(Event::StartRequested { archive_count: 1 });
    let (p, _) = p.step(Event::LoadFinished);
    let (p, _) = p.step(Event::StagingCreated);
    let (p, _) = p.step(Event::ArchiveExtracted);
    let (p, _) = p.step(Event::MoveFailed {
        message: "destination collision".to_string(),
    });
    let (p, _) = p.step(Event::DiagnosticWritten);

    let (p, a) = p.step(Event::CleanupFailed {
        message: "staging is locked".to_string(),
    });
    assert_eq!(p.stage, Stage::Failed);
    assert_eq!(a, Action::ReportFailure);
    assert_eq!(p.error, Some("destination collision".to_string()));
    assert_eq!(p.cleanup_warning, Some("staging is locked".to_string()));
}

#[test]
fn cleanup_failure_on_a_clean_run_is_the_primary_error() {
    let p = Pipeline::new();
    let (p, _) = p.step(Event::StartRequested { archive_count: 1 });
    let (p, _) = p.step(Event::LoadFinished);
    let (p, _) = p.step(Event::StagingCreated);
    let (p, _) = p.step(Event::ArchiveExtracted);
    let (p, _) = p.step(Event::ReconcileFinished);

    let (p, a) = p.step(Event::CleanupFailed {
        message: "staging is locked".to_string(),
    });
    assert_eq!(p.stage, Stage::Failed);
    assert_eq!(a, Action::ReportFailure);
    assert_eq!(p.error, Some("staging is locked".to_string()));
}

#[test]
fn a_terminal_run_accepts_a_new_request() {
    let p = Pipeline::new();
    let (p, _) = p.step(Event::StartRequested { archive_count: 1 });
    let (p, _) = p.step(Event::LoadFailed {
        message: "archive unreadable".to_string(),
    });
    let (p, _) = p.step(Event::StagingAbsent);
    assert_eq!(p.stage, Stage::Failed);

    let (p, a) = p.step(Event::StartRequested { archive_count: 4 });
    assert_eq!(p.stage, Stage::Loading);
    assert_eq!(a, Action::OpenArchives);
    assert!(p.error.is_none());
    assert_eq!(p.archives_left, 4);
}

#[test]
fn events_for_another_stage_are_ignored() {
    let p = Pipeline::new();
    let (p, a) = p.step(Event::ArchiveExtracted);
    assert_eq!(p.stage, Stage::Idle);
    assert_eq!(a, Action::Ignore);

    let (p, a) = p.step(Event::StagingRemoved);
    assert_eq!(p.stage, Stage::Idle);
    assert_eq!(a, Action::Ignore);
}

#[test]
fn zero_archives_reconciles_immediately() {
    let p = Pipeline::new();
    let (p, _) = p.step(Event::StartRequested { archive_count: 0 });
    let (p, _) = p.step(Event::LoadFinished);
    let (p, a) = p.step(Event::StagingCreated);
    assert_eq!(p.stage, Stage::Reconciling);
    assert_eq!(a, Action::Reconcile);
}
