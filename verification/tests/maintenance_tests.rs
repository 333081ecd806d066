use win_fp_debug::guid::Guid;
use win_fp_debug::maintenance::orchestrator::{
    MaintAction, MaintOutcome, MaintenanceReport, OperationError, Orchestrator, Phase,
    ServiceDisposition, Subject,
};
use win_fp_debug::maintenance::summary::{summary, LineKind, SummaryLine};
use win_fp_debug::maintenance::targets::{
    find_orphans, select_targets, service_fault_message, DatabaseRecord, DatabaseTarget,
    DirectoryEntry, MaintenanceError, MaintenanceRequest, DATABASE_DIRECTORY,
};
use win_fp_debug::service::{
    ServiceFault, ServiceStage, POLL_ATTEMPTS, SERVICE_RUNNING, SERVICE_STOPPED,
    SERVICE_STOP_PENDING,
};

const KEYS: &str = "SYSTEM\\CurrentControlSet\\Services\\WbioSrvc\\Databases\\";

fn guid(n: u8) -> Guid {
    Guid { data1: 0xA000_0000 + n as u32, data2: 0x0B0C, data3: 0xD00E, data4: [n, 1, 2, 3, 4, 5, 6, 0xFF] }
}

fn text(n: u8) -> String {
    format!("{{A00000{:02X}-0B0C-D00E-{:02X}01-0203040506FF}}", n, n)
}

fn record(n: u8, path: &str) -> DatabaseRecord {
    DatabaseRecord { database_id: guid(n), file_path: path.to_string() }
}

fn entry(path: &str, extension: Option<&str>) -> DirectoryEntry {
    DirectoryEntry { path: path.to_string(), extension: extension.map(|e| e.to_string()) }
}

fn request(db_number: Option<usize>, all: bool, file: bool, registry: bool) -> MaintenanceRequest {
    MaintenanceRequest { db_number, all, delete_file: file, delete_registry: registry }
}

fn failed(error: MaintenanceError) -> MaintAction {
    MaintAction::Finish { outcome: MaintOutcome::Failed { error } }
}

fn three() -> Vec<DatabaseRecord> {
    vec![record(1, "C:\\db\\one.DAT"), record(2, "C:\\db\\two.DAT"), record(3, "C:\\db\\three.DAT")]
}

/// A run on all three databases, files and registry, with the service
/// running, up to the first deletion.
fn stopped_run() -> (Orchestrator, MaintAction) {
    let (mut run, action) = Orchestrator::new(request(None, true, true, true));
    assert_eq!(action, MaintAction::CheckElevation);
    assert_eq!(run.on_elevation(Ok(true)), MaintAction::ListDatabases);
    assert_eq!(run.on_databases(Ok(three())), MaintAction::ScanDirectory);
    assert_eq!(run.on_directory(vec![]), MaintAction::QueryService);
    assert_eq!(run.on_service_state(Ok(SERVICE_RUNNING)), MaintAction::StopService);
    assert_eq!(run.on_control(Ok(())), MaintAction::PollService { delay_ms: 500 });
    assert_eq!(
        run.on_service_state(Ok(SERVICE_STOP_PENDING)),
        MaintAction::PollService { delay_ms: 500 }
    );
    let action = run.on_service_state(Ok(SERVICE_STOPPED));
    (run, action)
}

#[test]
fn one_failed_registry_deletion_does_not_stop_the_others() {
    let (mut run, mut action) = stopped_run();
    let mut attempted: Vec<MaintAction> = Vec::new();
    loop {
        attempted.push(action);
        action = match attempted.last().unwrap() {
            MaintAction::ProbeFile { .. } => run.on_file_probed(true),
            MaintAction::DeleteFile { .. } => run.on_operation(Ok(())),
            MaintAction::DeleteRegistryKey { subkey } => {
                if subkey.ends_with(&text(2)) {
                    run.on_operation(Err(5))
                } else {
                    run.on_operation(Ok(()))
                }
            }
            _ => break,
        };
    }
    let mut expected = Vec::new();
    for (n, path) in [(1u8, "C:\\db\\one.DAT"), (2, "C:\\db\\two.DAT"), (3, "C:\\db\\three.DAT")] {
        expected.push(MaintAction::ProbeFile { path: path.to_string() });
        expected.push(MaintAction::DeleteFile { path: path.to_string() });
        expected.push(MaintAction::DeleteRegistryKey { subkey: format!("{}{}", KEYS, text(n)) });
    }
    expected.push(MaintAction::StartService);
    assert_eq!(attempted, expected);
    assert_eq!(run.phase(), Phase::AwaitStartControl);
    assert_eq!(run.on_control(Ok(())), MaintAction::PollService { delay_ms: 500 });
    assert_eq!(
        run.on_service_state(Ok(SERVICE_RUNNING)),
        failed(MaintenanceError::SomeOperationsFailed)
    );
    assert_eq!(
        run.report(),
        MaintenanceReport {
            targets_processed: 3,
            files_deleted: 3,
            registry_entries_deleted: 2,
            orphan_files_deleted: 0,
            errors: vec![OperationError { subject: Subject::RegistryEntry { database: 2 }, code: 5 }],
            service: ServiceDisposition::Restarted,
        }
    );
}

#[test]
fn a_file_that_is_already_gone_is_no_failure() {
    let (mut run, _) = Orchestrator::new(request(Some(2), false, true, false));
    run.on_elevation(Ok(true));
    assert_eq!(run.on_databases(Ok(three())), MaintAction::QueryService);
    assert_eq!(run.targets().len(), 1);
    assert_eq!(
        run.targets()[0],
        DatabaseTarget { index: 2, db_id: text(2), file_path: "C:\\db\\two.DAT".to_string() }
    );
    assert_eq!(
        run.on_service_state(Ok(SERVICE_STOPPED)),
        MaintAction::ProbeFile { path: "C:\\db\\two.DAT".to_string() }
    );
    assert_eq!(
        run.on_file_probed(false),
        MaintAction::Finish { outcome: MaintOutcome::Completed }
    );
    let report = run.report();
    assert_eq!(report.errors, vec![]);
    assert_eq!(report.files_deleted, 0);
    assert_eq!(report.targets_processed, 1);
    assert_eq!(report.service, ServiceDisposition::LeftStopped);
}

#[test]
fn a_service_found_stopped_is_left_stopped() {
    let (mut run, _) = Orchestrator::new(request(Some(1), false, false, true));
    run.on_elevation(Ok(true));
    run.on_databases(Ok(three()));
    assert_eq!(
        run.on_service_state(Ok(SERVICE_STOPPED)),
        MaintAction::DeleteRegistryKey { subkey: format!("{}{}", KEYS, text(1)) }
    );
    assert_eq!(run.on_operation(Ok(())), MaintAction::Finish { outcome: MaintOutcome::Completed });
    assert_eq!(run.phase(), Phase::Finished);
    let report = run.report();
    assert_eq!(report.registry_entries_deleted, 1);
    assert_eq!(report.service, ServiceDisposition::LeftStopped);
    assert_eq!(run.on_control(Ok(())), MaintAction::OutOfTurn);
}

#[test]
fn the_service_is_restarted_even_if_every_deletion_fails() {
    let (mut run, mut action) = stopped_run();
    let mut starts = 0;
    loop {
        action = match action {
            MaintAction::ProbeFile { .. } => run.on_file_probed(true),
            MaintAction::DeleteFile { .. } | MaintAction::DeleteRegistryKey { .. } => {
                run.on_operation(Err(32))
            }
            MaintAction::StartService => {
                starts += 1;
                run.on_control(Ok(()))
            }
            MaintAction::PollService { .. } => run.on_service_state(Ok(SERVICE_RUNNING)),
            other => {
                assert_eq!(other, failed(MaintenanceError::SomeOperationsFailed));
                break;
            }
        };
    }
    assert_eq!(starts, 1);
    let report = run.report();
    assert_eq!(report.errors.len(), 6);
    assert_eq!(report.errors[0].subject, Subject::DatabaseFile { database: 1 });
    assert_eq!(report.errors[5].subject, Subject::RegistryEntry { database: 3 });
    assert_eq!(report.files_deleted, 0);
    assert_eq!(report.service, ServiceDisposition::Restarted);
}

#[test]
fn a_restart_that_fails_is_an_error_after_clean_deletions() {
    let (mut run, _) = Orchestrator::new(request(Some(1), false, false, true));
    run.on_elevation(Ok(true));
    run.on_databases(Ok(three()));
    run.on_service_state(Ok(SERVICE_RUNNING));
    run.on_control(Ok(()));
    run.on_service_state(Ok(SERVICE_STOPPED));
    assert_eq!(run.on_operation(Ok(())), MaintAction::StartService);
    let fault = ServiceFault { stage: ServiceStage::Control, code: 1058 };
    assert_eq!(run.on_control(Err(fault)), failed(MaintenanceError::StartRejected { fault }));
    assert_eq!(run.report().service, ServiceDisposition::NotRestarted);
}

#[test]
fn a_service_that_never_runs_again_times_out_after_thirty_readings() {
    let (mut run, _) = Orchestrator::new(request(Some(1), false, false, true));
    run.on_elevation(Ok(true));
    run.on_databases(Ok(three()));
    run.on_service_state(Ok(SERVICE_RUNNING));
    run.on_control(Ok(()));
    run.on_service_state(Ok(SERVICE_STOPPED));
    run.on_operation(Ok(()));
    let mut action = run.on_control(Ok(()));
    let mut readings = 0;
    while action == (MaintAction::PollService { delay_ms: 500 }) {
        readings += 1;
        action = run.on_service_state(Ok(SERVICE_STOPPED));
    }
    assert_eq!(readings, POLL_ATTEMPTS);
    assert_eq!(action, failed(MaintenanceError::StartTimedOut));
}

#[test]
fn a_service_that_does_not_stop_aborts_before_any_deletion() {
    let (mut run, _) = Orchestrator::new(request(None, true, true, true));
    run.on_elevation(Ok(true));
    run.on_databases(Ok(three()));
    run.on_directory(vec![]);
    run.on_service_state(Ok(SERVICE_RUNNING));
    let mut action = run.on_control(Ok(()));
    let mut readings = 0;
    let unreadable = ServiceFault { stage: ServiceStage::QueryStatus, code: 6 };
    while action == (MaintAction::PollService { delay_ms: 500 }) {
        readings += 1;
        action = if readings % 2 == 0 {
            run.on_service_state(Err(unreadable))
        } else {
            run.on_service_state(Ok(SERVICE_STOP_PENDING))
        };
    }
    assert_eq!(readings, 30);
    assert_eq!(action, failed(MaintenanceError::StopTimedOut));
    let report = run.report();
    assert_eq!(report.targets_processed, 0);
    assert_eq!(report.service, ServiceDisposition::Untouched);
}

#[test]
fn orphans_are_deleted_after_the_targets() {
    let (mut run, _) = Orchestrator::new(request(None, true, true, false));
    run.on_elevation(Ok(true));
    run.on_databases(Ok(vec![record(1, "C:\\WINDOWS\\SYSTEM32\\WINBIODATABASE\\a.DAT"), record(2, "")]));
    let listing = vec![
        entry("C:\\Windows\\System32\\WinBioDatabase\\A.DAT", Some("DAT")),
        entry("C:\\Windows\\System32\\WinBioDatabase\\b.DAT", Some("DAT")),
        entry("C:\\Windows\\System32\\WinBioDatabase\\c.dat", Some("dat")),
        entry("C:\\Windows\\System32\\WinBioDatabase\\d", None),
    ];
    assert_eq!(run.on_directory(listing), MaintAction::QueryService);
    assert_eq!(run.orphans(), &vec!["C:\\Windows\\System32\\WinBioDatabase\\b.DAT".to_string()]);
    assert_eq!(
        run.on_service_state(Ok(SERVICE_STOPPED)),
        MaintAction::ProbeFile { path: "C:\\WINDOWS\\SYSTEM32\\WINBIODATABASE\\a.DAT".to_string() }
    );
    assert_eq!(run.cursor(), 0);
    assert_eq!(
        run.on_file_probed(true),
        MaintAction::DeleteFile { path: "C:\\WINDOWS\\SYSTEM32\\WINBIODATABASE\\a.DAT".to_string() }
    );
    assert_eq!(
        run.on_operation(Ok(())),
        MaintAction::DeleteFile { path: "C:\\Windows\\System32\\WinBioDatabase\\b.DAT".to_string() }
    );
    assert_eq!(run.phase(), Phase::AwaitOrphanDelete);
    assert_eq!(run.on_operation(Err(5)), failed(MaintenanceError::SomeOperationsFailed));
    let report = run.report();
    assert_eq!(report.targets_processed, 2);
    assert_eq!(report.files_deleted, 1);
    assert_eq!(report.orphan_files_deleted, 0);
    assert_eq!(
        report.errors,
        vec![OperationError { subject: Subject::OrphanFile { position: 0 }, code: 5 }]
    );
}

#[test]
fn nothing_to_do_does_not_touch_the_service() {
    let (mut run, _) = Orchestrator::new(request(None, true, true, true));
    run.on_elevation(Ok(true));
    assert_eq!(run.on_databases(Ok(vec![])), MaintAction::ScanDirectory);
    assert_eq!(
        run.on_directory(vec![entry("x.txt", Some("txt"))]),
        MaintAction::Finish { outcome: MaintOutcome::NothingToDo }
    );
    assert_eq!(run.report().service, ServiceDisposition::Untouched);
}

#[test]
fn a_request_is_refused_before_anything_is_touched() {
    let (run, action) = Orchestrator::new(request(Some(1), false, false, false));
    assert_eq!(action, failed(MaintenanceError::NothingRequested));
    assert_eq!(run.phase(), Phase::Finished);

    let (mut run, _) = Orchestrator::new(request(Some(1), false, true, false));
    assert_eq!(run.on_elevation(Ok(false)), failed(MaintenanceError::NotElevated));

    let (mut run, _) = Orchestrator::new(request(Some(1), false, true, false));
    assert_eq!(
        run.on_elevation(Err(0x8007_0005)),
        failed(MaintenanceError::ElevationUnknown { code: 0x8007_0005 })
    );

    let (mut run, _) = Orchestrator::new(request(Some(1), false, true, false));
    run.on_elevation(Ok(true));
    assert_eq!(
        run.on_databases(Err(0x8009_8011)),
        failed(MaintenanceError::EnumerationFailed { code: 0x8009_8011 })
    );

    for number in [0usize, 4] {
        let (mut run, _) = Orchestrator::new(request(Some(number), false, true, false));
        run.on_elevation(Ok(true));
        assert_eq!(
            run.on_databases(Ok(three())),
            failed(MaintenanceError::OutOfRange { requested: number, found: 3 })
        );
    }

    let (mut run, _) = Orchestrator::new(request(Some(1), false, true, false));
    run.on_elevation(Ok(true));
    assert_eq!(run.on_databases(Ok(vec![])), failed(MaintenanceError::NoDatabases));

    let (mut run, _) = Orchestrator::new(request(Some(1), false, true, false));
    run.on_elevation(Ok(true));
    run.on_databases(Ok(three()));
    let fault = ServiceFault { stage: ServiceStage::OpenManager, code: 5 };
    assert_eq!(
        run.on_service_state(Err(fault)),
        failed(MaintenanceError::ServiceUnavailable { fault })
    );

    let (mut run, _) = Orchestrator::new(request(Some(1), false, true, false));
    run.on_elevation(Ok(true));
    run.on_databases(Ok(three()));
    run.on_service_state(Ok(SERVICE_RUNNING));
    let fault = ServiceFault { stage: ServiceStage::Control, code: 5 };
    assert_eq!(run.on_control(Err(fault)), failed(MaintenanceError::StopRejected { fault }));
}

#[test]
fn reports_out_of_turn_change_nothing_in_a_run() {
    let (mut run, _) = Orchestrator::new(request(Some(1), false, true, true));
    assert_eq!(run.on_databases(Ok(three())), MaintAction::OutOfTurn);
    assert_eq!(run.on_directory(vec![]), MaintAction::OutOfTurn);
    assert_eq!(run.on_service_state(Ok(1)), MaintAction::OutOfTurn);
    assert_eq!(run.on_control(Ok(())), MaintAction::OutOfTurn);
    assert_eq!(run.on_file_probed(true), MaintAction::OutOfTurn);
    assert_eq!(run.on_operation(Ok(())), MaintAction::OutOfTurn);
    assert_eq!(run.phase(), Phase::AwaitElevation);
    assert_eq!(run.on_elevation(Ok(true)), MaintAction::ListDatabases);
}

#[test]
fn targets_are_selected_from_the_listing() {
    let records = three();
    let all = select_targets(&records, Some(2), true).unwrap();
    assert_eq!(all.len(), 3);
    assert_eq!(all[2], DatabaseTarget { index: 3, db_id: text(3), file_path: "C:\\db\\three.DAT".to_string() });
    let unnumbered = select_targets(&records, None, false).unwrap();
    assert_eq!(unnumbered, all);
    let one = select_targets(&records, Some(3), false).unwrap();
    assert_eq!(one, vec![DatabaseTarget { index: 3, db_id: text(3), file_path: "C:\\db\\three.DAT".to_string() }]);
    assert_eq!(select_targets(&records, Some(0), false), Err(MaintenanceError::OutOfRange { requested: 0, found: 3 }));
    assert_eq!(select_targets(&records, Some(4), false), Err(MaintenanceError::OutOfRange { requested: 4, found: 3 }));
    assert_eq!(select_targets(&vec![], Some(1), false), Err(MaintenanceError::NoDatabases));
    assert_eq!(select_targets(&vec![], None, false), Err(MaintenanceError::NoDatabases));
    assert_eq!(select_targets(&vec![], None, true), Ok(vec![]));
}

#[test]
fn orphans_are_the_dat_files_that_no_target_names() {
    let targets = vec![
        DatabaseTarget { index: 1, db_id: text(1), file_path: "c:\\dir\\straße.dat".to_string() },
        DatabaseTarget { index: 2, db_id: text(2), file_path: String::new() },
    ];
    let listing = vec![
        entry("C:\\DIR\\STRASSE.DAT", Some("DAT")),
        entry("C:\\DIR\\OTHER.DAT", Some("DAT")),
        entry("C:\\DIR\\lower.dat", Some("dat")),
        entry("C:\\DIR\\NOTE.TXT", Some("TXT")),
        entry("C:\\DIR\\DAT", None),
        entry("C:\\DIR\\LAST.DAT", Some("DAT")),
    ];
    assert_eq!(
        find_orphans(&listing, &targets),
        vec!["C:\\DIR\\OTHER.DAT".to_string(), "C:\\DIR\\LAST.DAT".to_string()]
    );
    assert_eq!(find_orphans(&vec![], &targets), Vec::<String>::new());
    assert_eq!(DATABASE_DIRECTORY, "C:\\WINDOWS\\SYSTEM32\\WINBIODATABASE");
}

#[test]
fn maintenance_errors_speak() {
    assert_eq!(
        MaintenanceError::OutOfRange { requested: 12, found: 3 }.message(),
        "Database number 12 is out of range (found 3 database(s))"
    );
    assert_eq!(MaintenanceError::NoDatabases.message(), "No biometric databases found");
    assert_eq!(
        MaintenanceError::NotElevated.message(),
        "This command requires Administrator privileges. Re-run as Administrator."
    );
    assert_eq!(
        MaintenanceError::NothingRequested.message(),
        "Specify --file to delete the .DAT file, --registry to remove the registry entry, or both"
    );
    assert_eq!(MaintenanceError::StopTimedOut.message(), "WbioSrvc did not stop in time");
    assert_eq!(MaintenanceError::StartTimedOut.message(), "WbioSrvc did not start in time");
    assert_eq!(MaintenanceError::SomeOperationsFailed.message(), "Some operations failed (see above)");
    assert_eq!(
        MaintenanceError::EnumerationFailed { code: 0x8009_8011 }.message(),
        "WinBioEnumDatabases: Database locked (WINBIO_E_DATABASE_LOCKED) (0x80098011)"
    );
    assert_eq!(
        MaintenanceError::ElevationUnknown { code: 5 }.message(),
        "Could not check elevation: 0x00000005"
    );
    let fault = ServiceFault { stage: ServiceStage::OpenService, code: 0x424 };
    assert_eq!(service_fault_message(fault), "Cannot open WbioSrvc service: 0x00000424");
    assert_eq!(
        MaintenanceError::ServiceUnavailable { fault: ServiceFault { stage: ServiceStage::OpenManager, code: 5 } }.message(),
        "Cannot open Service Control Manager: 0x00000005"
    );
    assert_eq!(
        MaintenanceError::StopRejected { fault: ServiceFault { stage: ServiceStage::Control, code: 5 } }.message(),
        "Failed to stop WbioSrvc: Service control request failed: 0x00000005"
    );
    assert_eq!(
        MaintenanceError::StartRejected { fault: ServiceFault { stage: ServiceStage::QueryStatus, code: 6 } }.message(),
        "Failed to start WbioSrvc: QueryServiceStatus failed: 0x00000006"
    );
}

#[test]
fn a_completed_run_is_summed_up() {
    let line = |kind: LineKind, text: &str| SummaryLine { kind, text: text.to_string() };
    let next = line(LineKind::Step, "Re-enroll fingerprints via Windows Settings > Accounts > Sign-in options");
    let restarted = line(
        LineKind::Warn,
        "WbioSrvc was restarted and may recreate .DAT files for active sensors. To prevent this, use stop-service before deleting and start-service after.",
    );
    let report = |targets: usize, files: usize, keys: usize, orphans: usize, service| MaintenanceReport {
        targets_processed: targets,
        files_deleted: files,
        registry_entries_deleted: keys,
        orphan_files_deleted: orphans,
        errors: vec![],
        service,
    };
    assert_eq!(
        summary(&report(3, 2, 0, 1, ServiceDisposition::Restarted), request(None, true, true, false)),
        vec![
            line(LineKind::Pass, "3 database file(s) deleted"),
            line(LineKind::Step, "Service will recreate clean empty databases"),
            restarted,
            line(LineKind::Step, "Re-enroll fingerprints via Windows Settings > Accounts > Sign-in options"),
        ]
    );
    assert_eq!(
        summary(&report(0, 0, 0, 2, ServiceDisposition::LeftStopped), request(None, true, true, false)),
        vec![line(LineKind::Pass, "2 database file(s) deleted"), line(LineKind::Step, &next.text)]
    );
    assert_eq!(
        summary(&report(0, 0, 0, 2, ServiceDisposition::LeftStopped), request(None, true, true, true)),
        vec![line(LineKind::Pass, "2 orphaned file(s) deleted"), line(LineKind::Step, &next.text)]
    );
    assert_eq!(
        summary(&report(2, 0, 2, 1, ServiceDisposition::Restarted), request(None, true, false, true)),
        vec![
            line(LineKind::Pass, "2 database(s) unregistered"),
            line(LineKind::Pass, "1 orphaned file(s) deleted"),
            line(LineKind::Step, "Databases have been fully removed from the system"),
            line(LineKind::Step, &next.text),
        ]
    );
    assert_eq!(
        summary(&report(1, 1, 1, 0, ServiceDisposition::LeftStopped), request(Some(1), false, true, true)),
        vec![
            line(LineKind::Pass, "1 database(s) unregistered"),
            line(LineKind::Step, "Databases have been fully removed from the system"),
            next,
        ]
    );
    assert_eq!(
        summary(&report(0, usize::MAX, 0, usize::MAX, ServiceDisposition::Untouched), request(None, true, true, false))[0].text,
        format!("{} database file(s) deleted", usize::MAX as u128 * 2)
    );
}
