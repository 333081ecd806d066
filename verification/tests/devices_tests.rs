use win_fp_debug::devices::{
    biometric_devices, device_config_reports, event_lines, phantom_ids, pnp_devices,
    report_records, texts_of, BiometricDevice, ConfigCheck, DeviceConfigReport, EventLine,
    PnpDevice, ReportError,
};
use win_fp_debug::drivers::{
    driver_inf_name, driver_inf_script, escape_single_quotes, first_device, first_inf,
    removal_targets, tally_removals, DriverReinstall, ReinstallAction, ReinstallError,
    ReinstallEvent, ReinstallOutcome, ReinstallPhase, RemovalTally, RemovalTargets,
};
use win_fp_debug::json::{parse_json, Json};
use win_fp_debug::maintenance::targets::DirectoryEntry;

fn text(s: &str) -> Json {
    Json::Text(s.to_string())
}

fn object(members: Vec<(&str, Json)>) -> Json {
    Json::Object(members.into_iter().map(|(k, v)| (k.to_string(), v)).collect())
}

#[test]
fn a_text_is_read_as_a_document() {
    assert_eq!(parse_json("null"), Ok(Json::Null));
    assert_eq!(parse_json(" true "), Ok(Json::Bool(true)));
    assert_eq!(parse_json("-12"), Ok(Json::Number(Some(-12))));
    assert_eq!(parse_json("9223372036854775807"), Ok(Json::Number(Some(i64::MAX))));
    assert_eq!(parse_json("9223372036854775808"), Ok(Json::Number(None)));
    assert_eq!(parse_json("1.5"), Ok(Json::Number(None)));
    assert_eq!(parse_json("\"a\\nb\""), Ok(text("a\nb")));
    assert_eq!(
        parse_json("[1, \"x\", [], {}]"),
        Ok(Json::Array(vec![
            Json::Number(Some(1)),
            text("x"),
            Json::Array(vec![]),
            Json::Object(vec![]),
        ]))
    );
    assert_eq!(
        parse_json("{\"b\": {\"c\": false}, \"a\": 1, \"b\": 2}"),
        Ok(object(vec![("a", Json::Number(Some(1))), ("b", Json::Number(Some(2)))]))
    );
    let fault = parse_json("{\"a\": ").unwrap_err();
    assert!(fault.message.contains("line 1"));
    assert!(parse_json("").is_err());
    assert!(parse_json("[1,]").is_err());
}

#[test]
fn values_are_taken_apart() {
    let device = object(vec![
        ("Name", text("Reader")),
        ("Id", Json::Number(Some(7))),
        ("On", Json::Bool(true)),
        ("List", Json::Array(vec![Json::Null])),
    ]);
    assert_eq!(device.member("Name"), Some(&text("Reader")));
    assert_eq!(device.member("name"), None);
    assert_eq!(device.member_text("Name"), Some("Reader"));
    assert_eq!(device.member_text("Id"), None);
    assert_eq!(device.member_text("Missing"), None);
    assert_eq!(device.member("Id").unwrap().as_integer(), Some(7));
    assert_eq!(device.member("On").unwrap().as_flag(), Some(true));
    assert_eq!(device.member("List").unwrap().as_items(), Some(&vec![Json::Null]));
    assert_eq!(text("x").member("x"), None);
    assert_eq!(text("x").as_text(), Some("x"));
    assert_eq!(Json::Null.as_text(), None);
    assert_eq!(Json::Number(None).as_integer(), None);
    assert_eq!(text("1").as_integer(), None);
    assert_eq!(Json::Null.as_flag(), None);
    assert_eq!(Json::Null.as_items(), None);
}

#[test]
fn a_report_is_an_array_or_a_single_record() {
    assert_eq!(report_records("  \r\n "), Ok(vec![]));
    assert_eq!(report_records(""), Ok(vec![]));
    assert_eq!(
        report_records("\n[{\"A\":\"1\"},{\"A\":\"2\"}]\r\n"),
        Ok(vec![object(vec![("A", text("1"))]), object(vec![("A", text("2"))])])
    );
    assert_eq!(report_records(" {\"A\":\"1\"} "), Ok(vec![object(vec![("A", text("1"))])]));
    assert_eq!(report_records("[]"), Ok(vec![]));
    assert_eq!(report_records("\"x\""), Ok(vec![text("x")]));
    assert!(report_records("[{\"A\":").is_err());
    assert!(report_records("not json").is_err());
}

#[test]
fn hardware_records_become_devices() {
    let records = report_records(
        "[{\"FriendlyName\":\"Goodix\",\"InstanceId\":\"USB\\\\VID_27C6\",\"Status\":\"OK\",\"Problem\":\"0\",\"Class\":\"Biometric\",\"Manufacturer\":\"Goodix Inc\"},{\"Status\":\"Error\",\"Problem\":\"CM_PROB_FAILED_START\",\"FriendlyName\":5},{\"Status\":\"Unknown\",\"Problem\":\"0\"}]",
    )
    .unwrap();
    let devices = pnp_devices(&records);
    assert_eq!(
        devices,
        vec![
            PnpDevice {
                name: "Goodix".to_string(),
                manufacturer: "Goodix Inc".to_string(),
                instance_id: "USB\\VID_27C6".to_string(),
                status: "OK".to_string(),
                problem: "0".to_string(),
            },
            PnpDevice {
                name: "(unknown)".to_string(),
                manufacturer: "(unknown)".to_string(),
                instance_id: "(unknown)".to_string(),
                status: "Error".to_string(),
                problem: "CM_PROB_FAILED_START".to_string(),
            },
            PnpDevice {
                name: "(unknown)".to_string(),
                manufacturer: "(unknown)".to_string(),
                instance_id: "(unknown)".to_string(),
                status: "Unknown".to_string(),
                problem: "0".to_string(),
            },
        ]
    );
    assert!(devices[0].is_ok());
    assert!(!devices[0].shows_problem());
    assert!(!devices[1].is_ok());
    assert!(devices[1].shows_problem());
    assert!(!devices[2].shows_problem());
    let bare = pnp_devices(&vec![Json::Null]);
    assert_eq!(bare[0].status, "Unknown");
    assert_eq!(bare[0].problem, "");
    assert!(!bare[0].shows_problem());
}

#[test]
fn devices_need_a_name_and_an_identifier() {
    let records = vec![
        object(vec![("FriendlyName", text("A")), ("InstanceId", text("USB\\1"))]),
        object(vec![("FriendlyName", text("B"))]),
        object(vec![("InstanceId", text("USB\\3"))]),
        object(vec![("FriendlyName", Json::Null), ("InstanceId", text("USB\\4"))]),
        text("x"),
        object(vec![("InstanceId", text("USB\\6")), ("FriendlyName", text("F"))]),
    ];
    let devices = biometric_devices(&records);
    assert_eq!(
        devices,
        vec![
            BiometricDevice { friendly_name: "A".to_string(), instance_id: "USB\\1".to_string() },
            BiometricDevice { friendly_name: "F".to_string(), instance_id: "USB\\6".to_string() },
        ]
    );
    assert_eq!(first_device(&devices), Some(&devices[0]));
    assert_eq!(first_device(&vec![]), None);
}

#[test]
fn phantom_devices_are_listed_by_identifier() {
    assert_eq!(phantom_ids(" \n"), Ok(vec![]));
    assert_eq!(phantom_ids("\"USB\\\\VID_1\"\n"), Ok(vec!["USB\\VID_1".to_string()]));
    assert_eq!(
        phantom_ids(" [\"a\",\"b\"] "),
        Ok(vec!["a".to_string(), "b".to_string()])
    );
    assert_eq!(phantom_ids("[]"), Ok(vec![]));
    assert_eq!(phantom_ids("[\"a\", 1]"), Err(ReportError::Unexpected));
    assert_eq!(phantom_ids("7"), Err(ReportError::Unexpected));
    assert_eq!(phantom_ids("{\"a\":1}"), Err(ReportError::Unexpected));
    assert!(matches!(phantom_ids("[\"a\""), Err(ReportError::Malformed { .. })));
    assert_eq!(texts_of(&vec![text("a"), Json::Null, text("c")]), None);
    assert_eq!(texts_of(&vec![]), Some(vec![]));
}

#[test]
fn events_show_the_first_line_of_their_message() {
    let records = report_records(
        "[{\"Id\":1106,\"Level\":2,\"Message\":\"Database not found\\r\\nDetails follow\"},{\"Id\":1109,\"Level\":3,\"Message\":\"\"},{\"Level\":\"2\"},{\"Id\":1.5,\"Level\":4,\"Message\":\"one line\"}]",
    )
    .unwrap();
    let events = event_lines(&records);
    assert_eq!(
        events,
        vec![
            EventLine { id: 1106, level: 2, message: "Database not found".to_string() },
            EventLine { id: 1109, level: 3, message: "(no message)".to_string() },
            EventLine { id: 0, level: 0, message: "(no message)".to_string() },
            EventLine { id: 0, level: 4, message: "one line".to_string() },
        ]
    );
    assert!(events[0].is_severe());
    assert!(!events[1].is_severe());
    assert!(events[2].is_severe());
    assert_eq!(events[0].line(), "Event 1106: Database not found");
    assert_eq!(events[2].line(), "Event 0: (no message)");
}

#[test]
fn configurations_tell_whether_their_database_is_registered() {
    let records = report_records(
        "{\"FriendlyName\":\"Reader\",\"InstanceId\":\"USB\\\\1\",\"Configurations\":[{\"ConfigName\":\"0\",\"DatabaseId\":\"{AB}\",\"Registered\":true},{\"DatabaseId\":\"{CD}\"},{\"ConfigName\":\"2\",\"Registered\":false}]}",
    )
    .unwrap();
    let reports = device_config_reports(&records);
    assert_eq!(
        reports,
        vec![DeviceConfigReport {
            name: "Reader".to_string(),
            instance_id: "USB\\1".to_string(),
            configurations: vec![
                ConfigCheck { config_name: "0".to_string(), database_id: "{AB}".to_string(), registered: true },
                ConfigCheck { config_name: "?".to_string(), database_id: "{CD}".to_string(), registered: false },
                ConfigCheck { config_name: "2".to_string(), database_id: "?".to_string(), registered: false },
            ],
        }]
    );
    assert!(reports[0].has_mismatch());
    let fine = device_config_reports(&vec![
        object(vec![(
            "Configurations",
            Json::Array(vec![object(vec![("Registered", Json::Bool(true))])]),
        )]),
        object(vec![("Configurations", text("none"))]),
        Json::Null,
    ]);
    assert_eq!(fine.len(), 3);
    assert_eq!(fine[0].name, "(unknown)");
    assert!(!fine[0].has_mismatch());
    assert_eq!(fine[1].configurations, vec![]);
    assert!(!fine[2].has_mismatch());
}

#[test]
fn single_quotes_are_doubled_in_a_script() {
    assert_eq!(escape_single_quotes("USB\\VID'1''"), "USB\\VID''1''''");
    assert_eq!(escape_single_quotes(""), "");
    assert_eq!(escape_single_quotes("plain"), "plain");
    assert_eq!(
        driver_inf_script("USB\\O'Neil"),
        "(Get-PnpDeviceProperty -InstanceId 'USB\\O''Neil' -KeyName 'DEVPKEY_Device_DriverInfPath').Data"
    );
    assert_eq!(driver_inf_name("  oem50.inf\r\n"), Some("oem50.inf".to_string()));
    assert_eq!(driver_inf_name(" \r\n"), None);
    assert_eq!(driver_inf_name(""), None);
}

#[test]
fn the_first_inf_file_is_found() {
    let entry = |path: &str, ext: Option<&str>| DirectoryEntry {
        path: path.to_string(),
        extension: ext.map(|e| e.to_string()),
    };
    let files = vec![
        entry("a.cat", Some("cat")),
        entry("b.INF", Some("INF")),
        entry("c.inf", Some("inf")),
        entry("d.inf", Some("inf")),
        entry("inf", None),
    ];
    assert_eq!(first_inf(&files), Some(2));
    assert_eq!(first_inf(&files[..2].to_vec_entries()), None);
    assert_eq!(first_inf(&vec![]), None);
}

trait ToVecEntries {
    fn to_vec_entries(&self) -> Vec<DirectoryEntry>;
}

impl ToVecEntries for [DirectoryEntry] {
    fn to_vec_entries(&self) -> Vec<DirectoryEntry> {
        self.iter()
            .map(|e| DirectoryEntry { path: e.path.clone(), extension: e.extension.clone() })
            .collect()
    }
}

#[test]
fn removals_are_targeted_and_counted() {
    assert_eq!(
        removal_targets(Some("USB\\1".to_string()), true),
        Some(RemovalTargets::Named { instance_id: "USB\\1".to_string() })
    );
    assert_eq!(removal_targets(None, true), Some(RemovalTargets::Phantoms));
    assert_eq!(removal_targets(None, false), None);
    assert_eq!(tally_removals(&vec![]), RemovalTally { removed: 0, failed: 0 });
    assert_eq!(
        tally_removals(&vec![true, false, true, true]),
        RemovalTally { removed: 3, failed: 1 }
    );
}

fn finish(outcome: ReinstallOutcome, remove_backup: bool) -> ReinstallAction {
    ReinstallAction::Finish { outcome, remove_backup }
}

#[test]
fn a_driver_is_backed_up_removed_and_installed_again() {
    let (mut run, action) = DriverReinstall::new();
    assert_eq!(action, ReinstallAction::CheckElevation);
    assert_eq!(run.step(ReinstallEvent::Done { ok: true }), ReinstallAction::OutOfTurn);
    assert_eq!(run.step(ReinstallEvent::Elevation { elevated: Some(true) }), ReinstallAction::FindDevices);
    assert_eq!(run.step(ReinstallEvent::Devices { count: Some(2) }), ReinstallAction::QueryDriverName);
    assert_eq!(run.step(ReinstallEvent::Done { ok: true }), ReinstallAction::ExportDriver);
    assert_eq!(run.step(ReinstallEvent::Done { ok: true }), ReinstallAction::UninstallDriver);
    assert_eq!(run.step(ReinstallEvent::Done { ok: false }), ReinstallAction::InstallDriver);
    assert_eq!(run.step(ReinstallEvent::Done { ok: true }), ReinstallAction::Settle { delay_ms: 2000 });
    assert_eq!(run.step(ReinstallEvent::Done { ok: true }), ReinstallAction::FindDevicesAgain);
    assert_eq!(
        run.step(ReinstallEvent::Devices { count: Some(0) }),
        finish(ReinstallOutcome::Reinstalled { device_present: false, uninstalled: false }, true)
    );
    assert_eq!(run.phase, ReinstallPhase::Finished);
    assert_eq!(run.step(ReinstallEvent::Devices { count: Some(1) }), ReinstallAction::OutOfTurn);
}

#[test]
fn a_reinstallation_fails_without_removing_the_backup() {
    let failed = |error| finish(ReinstallOutcome::Failed { error }, false);
    let (mut run, _) = DriverReinstall::new();
    assert_eq!(run.step(ReinstallEvent::Elevation { elevated: None }), failed(ReinstallError::ElevationUnknown));
    let (mut run, _) = DriverReinstall::new();
    assert_eq!(run.step(ReinstallEvent::Elevation { elevated: Some(false) }), failed(ReinstallError::NotElevated));
    let (mut run, _) = DriverReinstall::new();
    run.step(ReinstallEvent::Elevation { elevated: Some(true) });
    assert_eq!(run.step(ReinstallEvent::Devices { count: None }), failed(ReinstallError::ListingFailed));
    let (mut run, _) = DriverReinstall::new();
    run.step(ReinstallEvent::Elevation { elevated: Some(true) });
    assert_eq!(run.step(ReinstallEvent::Devices { count: Some(0) }), failed(ReinstallError::NoDevices));
    let (mut run, _) = DriverReinstall::new();
    run.step(ReinstallEvent::Elevation { elevated: Some(true) });
    run.step(ReinstallEvent::Devices { count: Some(1) });
    assert_eq!(run.step(ReinstallEvent::Done { ok: false }), failed(ReinstallError::DriverUnknown));
    let (mut run, _) = DriverReinstall::new();
    run.step(ReinstallEvent::Elevation { elevated: Some(true) });
    run.step(ReinstallEvent::Devices { count: Some(1) });
    run.step(ReinstallEvent::Done { ok: true });
    assert_eq!(run.step(ReinstallEvent::Done { ok: false }), failed(ReinstallError::ExportFailed));
    let (mut run, _) = DriverReinstall::new();
    run.step(ReinstallEvent::Elevation { elevated: Some(true) });
    run.step(ReinstallEvent::Devices { count: Some(1) });
    run.step(ReinstallEvent::Done { ok: true });
    run.step(ReinstallEvent::Done { ok: true });
    run.step(ReinstallEvent::Done { ok: true });
    assert!(run.uninstalled);
    assert_eq!(run.step(ReinstallEvent::Done { ok: false }), failed(ReinstallError::InstallFailed));
}
