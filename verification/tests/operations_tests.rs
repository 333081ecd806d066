use win_fp_debug::cli::{Cli, Command, Task};
use win_fp_debug::operations::{
    describe_identity, identify_failure_message, judge_credential_state, judge_delete,
    judge_identify, judge_sample, judge_verify, CredentialState, DeleteOutcome, IdentifyOutcome,
    LabelledValue, SampleOutcome, VerifyOutcome,
};
use win_fp_debug::sensors::{
    config_line, configuration_subkey, configurations_subkey, device_subkey, inactive_sensor,
    link_from_config, sensor_line, usb_instance_id, ConfigValues, SeenDevices, SensorDatabaseLink,
    SensorDatabaseMap, SensorIdentity, CONFIGURATIONS_PER_DEVICE,
};
use win_fp_debug::service::{
    poll_verdict, service_state_name, start_type_name, ServiceFault, ServiceGoal,
    ServiceRunState, ServiceStage, ServiceSwitch, SwitchAction, SwitchError, SwitchOutcome,
    SwitchPhase, WaitVerdict, POLL_INTERVAL_MS, SERVICE_NAME,
};

#[test]
fn touches_are_judged() {
    assert_eq!(judge_identify(Ok(()), 3), IdentifyOutcome::Identified);
    assert_eq!(judge_identify(Err(0x8009_8005), 0), IdentifyOutcome::NoMatch { reject_detail: None });
    assert_eq!(judge_identify(Err(0x8009_8005), 4), IdentifyOutcome::NoMatch { reject_detail: Some(4) });
    assert_eq!(judge_identify(Err(0x8009_8008), 0), IdentifyOutcome::BadCapture { reject_detail: 0 });
    assert_eq!(judge_identify(Err(0x8009_8004), 1), IdentifyOutcome::Failed { code: 0x8009_8004 });
    assert_eq!(judge_verify(Ok(1), 0), VerifyOutcome::Matched);
    assert_eq!(judge_verify(Ok(0xFF), 0), VerifyOutcome::Matched);
    assert_eq!(judge_verify(Ok(0), 0), VerifyOutcome::NotMatched);
    assert_eq!(judge_verify(Err(0x8009_8005), 0), VerifyOutcome::NoMatch { reject_detail: None });
    assert_eq!(judge_verify(Err(0x8009_8005), 9), VerifyOutcome::NoMatch { reject_detail: Some(9) });
    assert_eq!(judge_verify(Err(0x8009_8008), 7), VerifyOutcome::BadCapture { reject_detail: 7 });
    assert_eq!(judge_verify(Err(5), 7), VerifyOutcome::Failed { code: 5 });
    assert_eq!(judge_delete(Ok(())), DeleteOutcome::Deleted);
    assert_eq!(judge_delete(Err(0x8009_8016)), DeleteOutcome::NothingToDelete);
    assert_eq!(judge_delete(Err(0x8009_8014)), DeleteOutcome::Failed { code: 0x8009_8014 });
    assert_eq!(judge_sample(Ok(()), 1), SampleOutcome::Captured);
    assert_eq!(judge_sample(Err(0x8009_8008), 2), SampleOutcome::BadCapture { reject_detail: 2 });
    assert_eq!(judge_sample(Err(0x8009_8005), 2), SampleOutcome::Failed { code: 0x8009_8005 });
    assert_eq!(judge_credential_state(2), CredentialState::Linked);
    assert_eq!(judge_credential_state(1), CredentialState::NotLinked);
    assert_eq!(judge_credential_state(0), CredentialState::Unknown { raw: 0 });
    assert_eq!(judge_credential_state(-1), CredentialState::Unknown { raw: -1 });
}

#[test]
fn a_failed_identification_is_explained() {
    assert_eq!(
        identify_failure_message(0x8009_8005, "list enrollments"),
        "No match — finger not enrolled. Cannot list enrollments."
    );
    assert_eq!(
        identify_failure_message(0x8009_8005, "check credential state"),
        "No match — finger not enrolled. Cannot check credential state."
    );
    assert_eq!(
        identify_failure_message(0x8009_8004, "list enrollments"),
        "WinBioIdentify: Operation canceled (WINBIO_E_CANCELED) (0x80098004)"
    );
}

#[test]
fn an_identity_is_shown_by_its_bytes_or_its_type() {
    let data = [1u8, 5, 0, 0, 0xAB, 0xFF];
    assert_eq!(
        describe_identity(3, 4, &data),
        LabelledValue { label: "Identity (SID)", value: "01 05 00 00".to_string() }
    );
    assert_eq!(describe_identity(3, 100, &data).value, "01 05 00 00 AB FF");
    assert_eq!(describe_identity(3, 6, &data).value, "01 05 00 00 AB FF");
    assert_eq!(describe_identity(3, 1, &data).value, "01");
    assert_eq!(describe_identity(3, 0, &data).value, "");
    assert_eq!(
        describe_identity(2, 4, &data),
        LabelledValue { label: "Identity type", value: "2".to_string() }
    );
    assert_eq!(describe_identity(0, 0, &[]).value, "0");
}

#[test]
fn the_state_of_the_service_is_projected() {
    assert_eq!(ServiceRunState::from_raw(1), ServiceRunState::Stopped);
    assert_eq!(ServiceRunState::from_raw(4), ServiceRunState::Running);
    for raw in [0u32, 2, 3, 5, 6, 7, 8] {
        assert_eq!(ServiceRunState::from_raw(raw), ServiceRunState::Transitioning);
    }
    let names = ["Unknown", "Stopped", "Start Pending", "Stop Pending", "Running", "Continue Pending", "Pause Pending", "Paused", "Unknown"];
    for raw in 0u32..9 {
        assert_eq!(service_state_name(raw), names[raw as usize]);
    }
    let kinds = ["Boot", "System", "Automatic", "Manual (Demand)", "Disabled", "Unknown"];
    for raw in 0u32..6 {
        assert_eq!(start_type_name(raw), kinds[raw as usize]);
    }
    assert_eq!(SERVICE_NAME, "WbioSrvc");
    assert_eq!(POLL_INTERVAL_MS, 500);
    assert!(ServiceGoal::Stopped.is_met_by(1));
    assert!(!ServiceGoal::Stopped.is_met_by(4));
    assert!(ServiceGoal::Running.is_met_by(4));
    assert!(!ServiceGoal::Running.is_met_by(2));
    assert_eq!(poll_verdict(ServiceGoal::Stopped, 1, Some(1)), WaitVerdict::Reached);
    assert_eq!(poll_verdict(ServiceGoal::Stopped, 30, Some(1)), WaitVerdict::Reached);
    assert_eq!(poll_verdict(ServiceGoal::Stopped, 29, Some(3)), WaitVerdict::PollAgain);
    assert_eq!(poll_verdict(ServiceGoal::Stopped, 30, Some(3)), WaitVerdict::TimedOut);
    assert_eq!(poll_verdict(ServiceGoal::Running, 5, None), WaitVerdict::PollAgain);
    assert_eq!(poll_verdict(ServiceGoal::Running, 30, None), WaitVerdict::TimedOut);
}

#[test]
fn a_command_stops_the_service_and_waits() {
    let (mut switch, action) = ServiceSwitch::new(ServiceGoal::Stopped);
    assert_eq!(action, SwitchAction::CheckElevation);
    assert_eq!(switch.on_state(Ok(1)), SwitchAction::OutOfTurn);
    assert_eq!(switch.on_elevation(Ok(true)), SwitchAction::QueryService);
    assert_eq!(switch.on_state(Ok(4)), SwitchAction::SendControl { goal: ServiceGoal::Stopped });
    assert_eq!(switch.on_control(Ok(())), SwitchAction::PollService { delay_ms: 500 });
    assert_eq!(switch.phase(), SwitchPhase::AwaitGoal);
    assert_eq!(switch.on_state(Ok(3)), SwitchAction::PollService { delay_ms: 500 });
    assert_eq!(
        switch.on_state(Err(ServiceFault { stage: ServiceStage::QueryStatus, code: 6 })),
        SwitchAction::PollService { delay_ms: 500 }
    );
    assert_eq!(switch.on_state(Ok(1)), SwitchAction::Finish { outcome: SwitchOutcome::Reached });
    assert_eq!(switch.phase(), SwitchPhase::Finished);
}

#[test]
fn a_command_on_a_settled_service_does_nothing() {
    let (mut switch, _) = ServiceSwitch::new(ServiceGoal::Running);
    switch.on_elevation(Ok(true));
    assert_eq!(switch.on_state(Ok(4)), SwitchAction::Finish { outcome: SwitchOutcome::AlreadyThere });
    let (mut switch, _) = ServiceSwitch::new(ServiceGoal::Stopped);
    switch.on_elevation(Ok(true));
    assert_eq!(switch.on_state(Ok(1)), SwitchAction::Finish { outcome: SwitchOutcome::AlreadyThere });
}

#[test]
fn a_command_on_the_service_can_fail() {
    let failed = |error| SwitchAction::Finish { outcome: SwitchOutcome::Failed { error } };
    let (mut switch, _) = ServiceSwitch::new(ServiceGoal::Running);
    assert_eq!(switch.on_elevation(Ok(false)), failed(SwitchError::NotElevated));
    let (mut switch, _) = ServiceSwitch::new(ServiceGoal::Running);
    assert_eq!(switch.on_elevation(Err(5)), failed(SwitchError::ElevationUnknown { code: 5 }));
    let fault = ServiceFault { stage: ServiceStage::OpenService, code: 1060 };
    let (mut switch, _) = ServiceSwitch::new(ServiceGoal::Running);
    switch.on_elevation(Ok(true));
    assert_eq!(switch.on_state(Err(fault)), failed(SwitchError::Unavailable { fault }));
    let (mut switch, _) = ServiceSwitch::new(ServiceGoal::Running);
    switch.on_elevation(Ok(true));
    assert_eq!(switch.on_state(Ok(1)), SwitchAction::SendControl { goal: ServiceGoal::Running });
    assert_eq!(switch.on_control(Err(fault)), failed(SwitchError::Rejected { fault }));
    let (mut switch, _) = ServiceSwitch::new(ServiceGoal::Running);
    switch.on_elevation(Ok(true));
    switch.on_state(Ok(1));
    let mut action = switch.on_control(Ok(()));
    let mut readings = 0;
    while action == (SwitchAction::PollService { delay_ms: 500 }) {
        readings += 1;
        action = switch.on_state(Ok(2));
    }
    assert_eq!(readings, 30);
    assert_eq!(action, failed(SwitchError::TimedOut));
}

fn sensor() -> SensorIdentity {
    SensorIdentity {
        unit_id: Some(3),
        description: "Goodix Reader".to_string(),
        manufacturer: "Goodix".to_string(),
        model: "G1".to_string(),
        device_instance_id: "USB\\VID_27C6&PID_1\\5&1".to_string(),
        sensor_subtype: Some(2),
    }
}

#[test]
fn a_configuration_links_a_sensor_to_a_database() {
    let values = ConfigValues {
        database_id: Some("6c1f5c5a-00aa".to_string()),
        engine_adapter: Some("engine.dll".to_string()),
        storage_adapter: None,
        sensor_mode: Some("2".to_string()),
        virtual_secure_mode: Some("1".to_string()),
    };
    let (key, link) = link_from_config(&sensor(), 1, values).unwrap();
    assert_eq!(key, "{6C1F5C5A-00AA}");
    assert_eq!(
        link,
        SensorDatabaseLink {
            unit_id: Some(3),
            description: "Goodix Reader".to_string(),
            manufacturer: "Goodix".to_string(),
            model: "G1".to_string(),
            device_instance_id: "USB\\VID_27C6&PID_1\\5&1".to_string(),
            sensor_subtype: Some(2),
            config_index: 1,
            engine_adapter: "engine.dll".to_string(),
            storage_adapter: String::new(),
            sensor_mode: "Advanced".to_string(),
            virtual_secure_mode: true,
        }
    );
    assert_eq!(sensor_line(&link), "Goodix Reader (Unit 3, Advanced mode [VSM])");
    assert_eq!(config_line(&link), "#1 — Engine: engine.dll, Storage: ");
    let none = ConfigValues {
        database_id: None,
        engine_adapter: Some("e".to_string()),
        storage_adapter: None,
        sensor_mode: None,
        virtual_secure_mode: None,
    };
    assert_eq!(link_from_config(&sensor(), 0, none), None);
    let bare = ConfigValues {
        database_id: Some("{AB}".to_string()),
        engine_adapter: None,
        storage_adapter: Some("s.dll".to_string()),
        sensor_mode: None,
        virtual_secure_mode: Some("0".to_string()),
    };
    let passive = inactive_sensor("USB\\X\\1", "");
    assert_eq!(passive.description, "USB\\X\\1");
    assert_eq!(inactive_sensor("USB\\X\\1", "Old Reader").description, "Old Reader");
    let (key, link) = link_from_config(&passive, 2, bare).unwrap();
    assert_eq!(key, "{AB}");
    assert_eq!(link.sensor_mode, "Unknown ()");
    assert!(!link.virtual_secure_mode);
    assert_eq!(sensor_line(&link), "USB\\X\\1 (no unit, Unknown () mode (not active))");
    assert_eq!(config_line(&link), "#2 — Engine: , Storage: s.dll");
}

#[test]
fn links_are_gathered_by_database() {
    let link = |index: u32| {
        let values = ConfigValues {
            database_id: Some("x".to_string()),
            engine_adapter: None,
            storage_adapter: None,
            sensor_mode: Some("1".to_string()),
            virtual_secure_mode: None,
        };
        link_from_config(&sensor(), index, values).unwrap().1
    };
    let mut map = SensorDatabaseMap::new();
    assert_eq!(map.len(), 0);
    map.add("{A}".to_string(), link(0));
    map.add("{B}".to_string(), link(1));
    map.add("{A}".to_string(), link(2));
    assert_eq!(map.len(), 3);
    assert_eq!(map.positions_for("{A}"), vec![0, 2]);
    assert_eq!(map.positions_for("{B}"), vec![1]);
    assert_eq!(map.positions_for("{a}"), Vec::<usize>::new());
    assert_eq!(map.link_at(2).unwrap().config_index, 2);
    assert_eq!(map.link_at(3), None);
    let mut seen = SeenDevices::new();
    assert!(!seen.contains("usb\\vid_1"));
    seen.insert("usb\\vid_1");
    assert!(seen.contains("USB\\VID_1"));
    assert!(seen.contains("Usb\\Vid_1"));
    assert!(!seen.contains("USB\\VID_2"));
}

#[test]
fn registry_paths_of_devices_are_built() {
    assert_eq!(device_subkey("USB\\V\\1"), "SYSTEM\\CurrentControlSet\\Enum\\USB\\V\\1");
    assert_eq!(
        configurations_subkey("USB\\V\\1"),
        "SYSTEM\\CurrentControlSet\\Enum\\USB\\V\\1\\Device Parameters\\WinBio\\Configurations"
    );
    assert_eq!(
        configuration_subkey("USB\\V\\1", 2),
        "SYSTEM\\CurrentControlSet\\Enum\\USB\\V\\1\\Device Parameters\\WinBio\\Configurations\\2"
    );
    assert_eq!(usb_instance_id("VID_27C6&PID_1", "5&1"), "USB\\VID_27C6&PID_1\\5&1");
    assert_eq!(CONFIGURATIONS_PER_DEVICE, 3);
}

#[test]
fn commands_are_made_of_tasks() {
    let cli = Cli { command: Command::Diagnose };
    assert_eq!(
        cli.command.tasks(),
        vec![
            Task::Banner,
            Task::ElevationNotice,
            Task::CheckHardware,
            Task::CheckService,
            Task::CheckSensor,
            Task::Closing,
        ]
    );
    assert_eq!(Command::CheckDriver.tasks(), vec![Task::CheckService]);
    assert_eq!(Command::Verify { finger: 3 }.tasks(), vec![Task::Verify { finger: 3 }]);
    assert_eq!(Command::Enroll { finger: 9 }.tasks(), vec![Task::Enroll { finger: 9 }]);
    assert_eq!(Command::Delete { finger: 1 }.tasks(), vec![Task::Delete { finger: 1 }]);
    assert_eq!(Command::DeleteDatabase { db: 2 }.tasks(), vec![Task::DeleteDatabase { db: 2 }]);
    assert_eq!(Command::CredentialState.tasks(), vec![Task::CredentialState]);
    assert_eq!(Command::EnumDatabases.tasks(), vec![Task::EnumDatabases]);
    assert_eq!(Command::Identify.tasks(), vec![Task::Identify]);
    assert_eq!(Command::Capture.tasks(), vec![Task::Capture]);
    assert_eq!(Command::ListFingerprints.tasks(), vec![Task::ListFingerprints]);
    assert_eq!(Command::CheckHardware.tasks(), vec![Task::CheckHardware]);
    assert_eq!(Command::CheckSensor.tasks(), vec![Task::CheckSensor]);
}
