use ledger_manager::operations::{firmware_update_outcome, repair_outcome, update_check_outcome, UpdateCheck};
use ledger_manager::device::DeviceInfo;
use ledger_manager::firmware::{
    DeviceVersionResponse, FinalFirmware, FirmwareUpdateContext, FirmwareUpdateError, McuVersion, OsuFirmware,
    MAX_MCU_ITERATIONS,
};
use ledger_manager::fwupdate::{
    latest_firmware_lookup_start, latest_firmware_lookup_step, repair_start, repair_step, update_firmware_start,
    update_firmware_step, FirmwareSession, FwUpdateAction, FwUpdateEvent, FwUpdateStage, LookupAction, LookupEvent,
    LookupStage, RepairAction, RepairEvent, RepairStage, RECONNECT_ATTEMPTS, RECONNECT_DELAY_MS,
};
use ledger_manager::urls::{
    current_firmware_version_url, device_version_url, final_firmware_url, final_install_url, mcu_flash_url,
    mcu_versions_url, osu_install_url,
};

fn mcu(id: i64, name: &str, from_bl: &str, device_versions: Vec<i64>) -> McuVersion {
    McuVersion {
        id,
        mcu: 1,
        name: name.to_string(),
        description: None,
        providers: vec![1],
        from_bootloader_version: from_bl.to_string(),
        device_versions,
        se_firmware_final_versions: vec![],
        date_creation: String::new(),
        date_last_modified: String::new(),
    }
}

fn mcus() -> Vec<McuVersion> {
    vec![mcu(1, "2.12", "1.4", vec![17]), mcu(3, "2.30", "1.16", vec![17])]
}

fn osu() -> OsuFirmware {
    OsuFirmware {
        id: 7,
        name: "2.2.0-osu".to_string(),
        description: None,
        display_name: None,
        notes: None,
        perso: "perso_11".to_string(),
        firmware: "osu_fw".to_string(),
        firmware_key: "osu_key".to_string(),
        hash: String::new(),
        date_creation: String::new(),
        date_last_modified: String::new(),
        device_versions: vec![17],
        providers: vec![1],
        next_se_firmware_final_version: 42,
        previous_se_firmware_final_version: vec![41],
    }
}

fn final_firmware() -> FinalFirmware {
    FinalFirmware {
        id: 42,
        name: "2.2.0".to_string(),
        description: None,
        display_name: None,
        notes: None,
        perso: "perso_11".to_string(),
        firmware: "final_fw".to_string(),
        firmware_key: "final_key".to_string(),
        hash: String::new(),
        version: "2.2.0".to_string(),
        se_firmware: 3,
        osu_versions: vec![],
        mcu_versions: vec![3],
        application_versions: vec![],
        bytes: Some(1000),
        date_creation: String::new(),
        date_last_modified: String::new(),
        device_versions: vec![17],
        providers: vec![1],
    }
}

fn device_version() -> DeviceVersionResponse {
    DeviceVersionResponse {
        id: 17,
        name: "Nano X".to_string(),
        display_name: "Nano X".to_string(),
        target_id: "855638020".to_string(),
        description: String::new(),
        device: 1,
        providers: vec![1],
        mcu_versions: vec![],
        se_firmware_final_versions: vec![],
        osu_versions: vec![],
    }
}

fn device(version: &str, is_bootloader: bool, mcu_version: Option<&str>) -> DeviceInfo {
    DeviceInfo {
        target_id: if is_bootloader { 0x01000003 } else { 0x33000004 },
        version: version.to_string(),
        flags: vec![],
        is_bootloader,
        se_version: None,
        se_target_id: 0x33000004,
        mcu_version: mcu_version.map(|m| m.to_string()),
    }
}

fn context(should_flash_mcu: bool) -> FirmwareUpdateContext {
    FirmwareUpdateContext { osu: osu(), final_firmware: final_firmware(), should_flash_mcu }
}

fn fw_error(a: &FwUpdateAction) -> &FirmwareUpdateError {
    match a {
        FwUpdateAction::Finish(Err(e)) => e,
        _ => panic!("expected a failed update"),
    }
}

fn repair_error(a: &RepairAction) -> &FirmwareUpdateError {
    match a {
        RepairAction::Finish(Err(e)) => e,
        _ => panic!("expected a failed repair"),
    }
}

#[test]
fn lookup_finds_update_context() {
    let info = device("2.1.0", false, Some("2.30"));
    let (stage, action) = latest_firmware_lookup_start(&info);
    match &action {
        LookupAction::FetchDeviceVersion { url } => assert_eq!(url, &device_version_url(0x33000004)),
        _ => panic!("expected the device version request"),
    }
    let (stage, action) = latest_firmware_lookup_step(stage, LookupEvent::DeviceVersion(Ok(device_version())), &info);
    match &action {
        LookupAction::FetchFirmwareId { url } => assert_eq!(url, &current_firmware_version_url(17, "2.1.0")),
        _ => panic!("expected the firmware id request"),
    }
    let (stage, action) = latest_firmware_lookup_step(stage, LookupEvent::FirmwareId(Ok(41)), &info);
    match &action {
        LookupAction::FetchLatest { url } => {
            assert!(url.starts_with(
                "https://manager.api.live.ledger.com/api/get_latest_firmware?livecommonversion=34.0.0&salt="
            ));
            assert!(url.ends_with("&current_se_firmware_final_version=41&device_version=17&provider=1"));
        }
        _ => panic!("expected the latest firmware request"),
    }
    let (stage, action) = latest_firmware_lookup_step(stage, LookupEvent::Latest(Ok(Some(osu()))), &info);
    match &action {
        LookupAction::FetchFinal { url } => assert_eq!(url, &final_firmware_url(42)),
        _ => panic!("expected the final firmware request"),
    }
    let (stage, action) = latest_firmware_lookup_step(stage, LookupEvent::Final(Ok(final_firmware())), &info);
    match &action {
        LookupAction::FetchMcus { url } => assert_eq!(url, &mcu_versions_url()),
        _ => panic!("expected the MCU versions request"),
    }
    let (stage, action) = latest_firmware_lookup_step(stage, LookupEvent::Mcus(Ok(mcus())), &info);
    assert!(matches!(stage, LookupStage::Finished));
    match action {
        LookupAction::Finish(Ok(Some(ctx))) => {
            assert_eq!(ctx.osu.id, 7);
            assert_eq!(ctx.final_firmware.id, 42);
            assert!(!ctx.should_flash_mcu);
        }
        _ => panic!("expected an update"),
    }
}

#[test]
fn lookup_flags_incompatible_mcu() {
    let info = device("2.1.0", false, Some("2.12"));
    let stage = LookupStage::AwaitingMcus { osu: osu(), final_firmware: final_firmware() };
    match latest_firmware_lookup_step(stage, LookupEvent::Mcus(Ok(mcus())), &info).1 {
        LookupAction::Finish(Ok(Some(ctx))) => assert!(ctx.should_flash_mcu),
        _ => panic!("expected an update"),
    }
}

#[test]
fn lookup_up_to_date() {
    let info = device("2.2.0", false, Some("2.30"));
    let (stage, action) = latest_firmware_lookup_step(LookupStage::AwaitingLatest, LookupEvent::Latest(Ok(None)), &info);
    assert!(matches!(stage, LookupStage::Finished));
    assert!(matches!(action, LookupAction::Finish(Ok(None))));
}

#[test]
fn lookup_errors_end_it() {
    let info = device("2.2.0", false, None);
    let err = FirmwareUpdateError::ApiError("HTTP 404: x".to_string());
    match latest_firmware_lookup_step(LookupStage::AwaitingDeviceVersion, LookupEvent::DeviceVersion(Err(err)), &info).1 {
        LookupAction::Finish(Err(FirmwareUpdateError::ApiError(m))) => assert_eq!(m, "HTTP 404: x"),
        _ => panic!("expected the error"),
    }
}

#[test]
fn update_without_mcu_flash() {
    let ctx = context(false);
    let (stage, action) = update_firmware_start();
    assert!(matches!(action, FwUpdateAction::QueryDeviceInfo));
    let (stage, action) = update_firmware_step(stage, FwUpdateEvent::DeviceInfo(Ok(device("2.1.0", false, None))), &ctx);
    match &action {
        FwUpdateAction::RunSession { session, url } => {
            assert_eq!(*session, FirmwareSession::Osu);
            assert_eq!(url, &osu_install_url(0x33000004, &osu()));
        }
        _ => panic!("expected the OSU session"),
    }
    let (stage, action) = update_firmware_step(stage, FwUpdateEvent::SessionEnded(Ok(())), &ctx);
    assert!(matches!(action, FwUpdateAction::QueryDeviceInfo));
    let (stage, action) =
        update_firmware_step(stage, FwUpdateEvent::DeviceInfo(Ok(device("2.2.0-osu", false, None))), &ctx);
    match &action {
        FwUpdateAction::RunSession { session, url } => {
            assert_eq!(*session, FirmwareSession::Final);
            assert_eq!(url, &final_install_url(0x33000004, &final_firmware()));
        }
        _ => panic!("expected the final session"),
    }
    let (stage, action) = update_firmware_step(stage, FwUpdateEvent::SessionEnded(Ok(())), &ctx);
    assert!(matches!(stage, FwUpdateStage::Finished));
    assert!(matches!(action, FwUpdateAction::Finish(Ok(()))));
}

#[test]
fn update_requires_dashboard_and_osu_mode() {
    let ctx = context(false);
    let (stage, _) = update_firmware_start();
    let (_, action) = update_firmware_step(stage, FwUpdateEvent::DeviceInfo(Ok(device("1.6", true, None))), &ctx);
    assert!(matches!(fw_error(&action), FirmwareUpdateError::DeviceNotOnDashboard));
    let (_, action) =
        update_firmware_step(FwUpdateStage::AwaitingOsuInfo, FwUpdateEvent::DeviceInfo(Ok(device("2.2.0", false, None))), &ctx);
    assert!(matches!(fw_error(&action), FirmwareUpdateError::DeviceNotInOsuMode));
}

#[test]
fn update_device_query_failure() {
    let ctx = context(false);
    let (_, action) =
        update_firmware_step(FwUpdateStage::AwaitingDeviceInfo, FwUpdateEvent::DeviceInfo(Err("device is locked".to_string())), &ctx);
    match fw_error(&action) {
        FirmwareUpdateError::Other(m) => assert_eq!(m, "Failed to get device info: device is locked"),
        _ => panic!("expected Other"),
    }
}

#[test]
fn update_flashes_mcu_until_bootloader_left() {
    let ctx = context(true);
    let (stage, _) = update_firmware_start();
    let (stage, _) = update_firmware_step(stage, FwUpdateEvent::DeviceInfo(Ok(device("2.1.0", false, None))), &ctx);
    let (stage, action) = update_firmware_step(stage, FwUpdateEvent::SessionEnded(Ok(())), &ctx);
    assert!(matches!(action, FwUpdateAction::Wait { seconds: 3 }));
    let (stage, action) = update_firmware_step(stage, FwUpdateEvent::Waited, &ctx);
    match &action {
        FwUpdateAction::FetchMcuVersions { url } => assert_eq!(url, &mcu_versions_url()),
        _ => panic!("expected the MCU versions request"),
    }
    let (stage, action) = update_firmware_step(stage, FwUpdateEvent::McuVersions(Ok(mcus())), &ctx);
    assert!(matches!(action, FwUpdateAction::QueryDeviceInfo));
    let (stage, action) = update_firmware_step(stage, FwUpdateEvent::DeviceInfo(Ok(device("1.16", true, None))), &ctx);
    match &action {
        FwUpdateAction::RunSession { session, url } => {
            assert_eq!(*session, FirmwareSession::Mcu { iteration: 1 });
            assert_eq!(url, &mcu_flash_url(0x01000003, "2.30"));
        }
        _ => panic!("expected the MCU session"),
    }
    let (stage, action) = update_firmware_step(stage, FwUpdateEvent::SessionEnded(Ok(())), &ctx);
    assert!(matches!(action, FwUpdateAction::Wait { seconds: 2 }));
    let (stage, _) = update_firmware_step(stage, FwUpdateEvent::Waited, &ctx);
    assert!(matches!(stage, FwUpdateStage::AwaitingBootloaderInfo { iteration: 2, .. }));
    let (stage, action) =
        update_firmware_step(stage, FwUpdateEvent::DeviceInfo(Ok(device("2.2.0-osu", false, None))), &ctx);
    assert!(matches!(stage, FwUpdateStage::AwaitingOsuInfo));
    assert!(matches!(action, FwUpdateAction::QueryDeviceInfo));
}

#[test]
fn update_mcu_without_compatible_version() {
    let ctx = context(true);
    let stage = FwUpdateStage::AwaitingBootloaderInfo { iteration: 1, mcus: vec![mcu(1, "2.12", "1.4", vec![17])] };
    let (_, action) = update_firmware_step(stage, FwUpdateEvent::DeviceInfo(Ok(device("1.16", true, None))), &ctx);
    assert!(matches!(fw_error(&action), FirmwareUpdateError::UnknownMcu));
}

#[test]
fn update_stops_after_max_mcu_flashes() {
    let ctx = context(true);
    let mut stage = FwUpdateStage::AwaitingBootloaderInfo { iteration: 1, mcus: mcus() };
    let mut flashes = 0;
    let mut action;
    loop {
        let event = match stage {
            FwUpdateStage::AwaitingBootloaderInfo { .. } | FwUpdateStage::CheckingBootloaderExit => {
                FwUpdateEvent::DeviceInfo(Ok(device("1.16", true, None)))
            }
            FwUpdateStage::FlashingMcu { .. } => FwUpdateEvent::SessionEnded(Ok(())),
            FwUpdateStage::SettlingMcu { .. } => FwUpdateEvent::Waited,
            _ => panic!("unexpected stage"),
        };
        let (next, a) = update_firmware_step(stage, event, &ctx);
        if let FwUpdateAction::RunSession { session: FirmwareSession::Mcu { iteration }, .. } = &a {
            flashes += 1;
            assert_eq!(*iteration, flashes);
        }
        stage = next;
        action = a;
        if matches!(stage, FwUpdateStage::Finished) {
            break;
        }
    }
    assert_eq!(flashes, MAX_MCU_ITERATIONS);
    assert!(matches!(fw_error(&action), FirmwareUpdateError::TooManyMcuIterations));
}

#[test]
fn update_last_check_failure_is_too_many_iterations() {
    let ctx = context(true);
    let (_, action) = update_firmware_step(
        FwUpdateStage::CheckingBootloaderExit,
        FwUpdateEvent::DeviceInfo(Err("gone".to_string())),
        &ctx,
    );
    assert!(matches!(fw_error(&action), FirmwareUpdateError::TooManyMcuIterations));
    let (stage, _) = update_firmware_step(
        FwUpdateStage::CheckingBootloaderExit,
        FwUpdateEvent::DeviceInfo(Ok(device("2.2.0-osu", false, None))),
        &ctx,
    );
    assert!(matches!(stage, FwUpdateStage::AwaitingOsuInfo));
}

#[test]
fn repair_with_reconnect_legacy_bootloader() {
    let (stage, action) = repair_start(true);
    assert!(matches!(action, RepairAction::Connect { delay_ms: 0 }));
    let (stage, action) = repair_step(stage, RepairEvent::Connected(Err("no device".to_string())), true);
    assert!(matches!(action, RepairAction::Connect { delay_ms } if delay_ms == RECONNECT_DELAY_MS));
    let (stage, action) = repair_step(stage, RepairEvent::Connected(Ok(())), true);
    assert!(matches!(action, RepairAction::QueryDeviceInfo));
    let (stage, action) = repair_step(stage, RepairEvent::DeviceInfo(Ok(device("0.6", true, None))), true);
    match &action {
        RepairAction::FlashMcu { iteration, url } => {
            assert_eq!(*iteration, 1);
            assert_eq!(url, &mcu_flash_url(0x01000003, "1.5"));
        }
        _ => panic!("expected the MCU flash"),
    }
    let reset = Err(FirmwareUpdateError::WebSocketError("Connection reset by peer".to_string()));
    let (stage, action) = repair_step(stage, RepairEvent::FlashEnded { result: reset, last_progress: 100 }, true);
    assert!(matches!(action, RepairAction::Wait { seconds: 3 }));
    let (stage, action) = repair_step(stage, RepairEvent::Waited, true);
    assert!(matches!(stage, RepairStage::Connecting { iteration: 2, attempt: 1 }));
    assert!(matches!(action, RepairAction::Connect { delay_ms: 0 }));
    let (stage, _) = repair_step(stage, RepairEvent::Connected(Ok(())), true);
    let (stage, action) = repair_step(stage, RepairEvent::DeviceInfo(Ok(device("2.2.0", false, None))), true);
    assert!(matches!(stage, RepairStage::Finished));
    assert!(matches!(action, RepairAction::Finish(Ok(()))));
}

#[test]
fn repair_queries_api_for_modern_bootloader() {
    let (stage, _) = repair_start(false);
    let (stage, action) = repair_step(stage, RepairEvent::DeviceInfo(Ok(device("1.16.1", true, None))), false);
    match &action {
        RepairAction::FetchDeviceVersion { url } => assert_eq!(url, &device_version_url(0x33000004)),
        _ => panic!("expected the device version request"),
    }
    let (stage, action) = repair_step(stage, RepairEvent::DeviceVersion(Ok(device_version())), false);
    match &action {
        RepairAction::FetchMcuVersions { url } => assert_eq!(url, &mcu_versions_url()),
        _ => panic!("expected the MCU versions request"),
    }
    let (stage, action) = repair_step(stage, RepairEvent::McuVersions(Ok(mcus())), false);
    match &action {
        RepairAction::FlashMcu { iteration, url } => {
            assert_eq!(*iteration, 1);
            assert_eq!(url, &mcu_flash_url(0x01000003, "2.30"));
        }
        _ => panic!("expected the MCU flash"),
    }
    let (stage, action) = repair_step(stage, RepairEvent::FlashEnded { result: Ok(()), last_progress: 100 }, false);
    assert!(matches!(stage, RepairStage::Finished));
    assert!(matches!(action, RepairAction::Finish(Ok(()))));
}

#[test]
fn repair_without_reconnect_needs_bootloader() {
    let (stage, _) = repair_start(false);
    let (_, action) = repair_step(stage, RepairEvent::DeviceInfo(Ok(device("2.2.0", false, None))), false);
    match repair_error(&action) {
        FirmwareUpdateError::Other(m) => assert_eq!(m, "Device is not in bootloader mode. Use normal update instead."),
        _ => panic!("expected Other"),
    }
}

#[test]
fn repair_gives_up_reconnecting() {
    let (mut stage, _) = repair_start(true);
    let mut tries = 0;
    loop {
        tries += 1;
        let (next, action) = repair_step(stage, RepairEvent::Connected(Err("no device".to_string())), true);
        stage = next;
        if matches!(stage, RepairStage::Finished) {
            match repair_error(&action) {
                FirmwareUpdateError::Other(m) => {
                    assert_eq!(m, "Failed to reconnect to device after 15 attempts: no device")
                }
                _ => panic!("expected Other"),
            }
            break;
        }
    }
    assert_eq!(tries, RECONNECT_ATTEMPTS);
}

#[test]
fn repair_failed_flash_ends_it() {
    let stage = RepairStage::Flashing { iteration: 2 };
    let lost = Err(FirmwareUpdateError::WebSocketError("Connection reset by peer".to_string()));
    let (_, action) = repair_step(stage, RepairEvent::FlashEnded { result: lost, last_progress: 40 }, true);
    match repair_error(&action) {
        FirmwareUpdateError::WebSocketError(m) => assert_eq!(m, "Connection reset by peer"),
        _ => panic!("expected the websocket error"),
    }
}

#[test]
fn repair_stops_after_max_mcu_flashes() {
    let (mut stage, _) = repair_start(true);
    let mut flashes = 0;
    let mut last;
    loop {
        let event = match stage {
            RepairStage::Connecting { .. } => RepairEvent::Connected(Ok(())),
            RepairStage::AwaitingInfo { .. } => RepairEvent::DeviceInfo(Ok(device("0.7", true, None))),
            RepairStage::Flashing { .. } => RepairEvent::FlashEnded { result: Ok(()), last_progress: 100 },
            RepairStage::Settling { .. } => RepairEvent::Waited,
            _ => panic!("unexpected stage"),
        };
        let (next, action) = repair_step(stage, event, true);
        if let RepairAction::FlashMcu { iteration, url } = &action {
            flashes += 1;
            assert_eq!(*iteration, flashes);
            assert_eq!(url, &mcu_flash_url(0x01000003, "1.6"));
        }
        stage = next;
        last = action;
        if matches!(stage, RepairStage::Finished) {
            break;
        }
    }
    assert_eq!(flashes, MAX_MCU_ITERATIONS);
    assert!(matches!(repair_error(&last), FirmwareUpdateError::TooManyMcuIterations));
}

#[test]
fn repair_outcome_messages() {
    assert_eq!(repair_outcome(Ok(())), Ok("Device repaired successfully!".to_string()));
    assert_eq!(
        repair_outcome(Err(FirmwareUpdateError::TooManyMcuIterations)),
        Err("Repair failed: MCU flash failed after 5 attempts".to_string())
    );
}

#[test]
fn update_check_outcomes() {
    match update_check_outcome(Ok(Some(context(true))), "2.1.0") {
        UpdateCheck::Install(ctx) => {
            assert!(ctx.should_flash_mcu);
            assert_eq!(ctx.final_firmware.version, final_firmware().version);
        }
        UpdateCheck::Finished(_) => panic!("an update found is installed"),
    }
    match update_check_outcome(Ok(None), "2.2.3") {
        UpdateCheck::Finished(m) => assert_eq!(m, Ok("Firmware is already up to date (version 2.2.3).".to_string())),
        UpdateCheck::Install(_) => panic!("no update to install"),
    }
    match update_check_outcome(Err(FirmwareUpdateError::ApiError("HTTP 500: down".to_string())), "2.2.3") {
        UpdateCheck::Finished(m) => assert_eq!(m, Err("Error checking for updates: API error: HTTP 500: down".to_string())),
        UpdateCheck::Install(_) => panic!("no update to install"),
    }
}

#[test]
fn firmware_update_outcome_messages() {
    assert_eq!(firmware_update_outcome(Ok(())), Ok("Firmware updated successfully!".to_string()));
    assert_eq!(
        firmware_update_outcome(Err(FirmwareUpdateError::UserRefused)),
        Err("Firmware update failed: Update was cancelled on the device".to_string())
    );
}
