use ledger_manager::apps::{
    bitcoin_latest_app, check_bitcoin_app_update, genuine_check_start, genuine_check_step, get_latest_apps,
    install_bitcoin_app_start, install_bitcoin_app_step, installed_app_hashes, update_bitcoin_app_start,
    update_bitcoin_app_step, BitcoinAppInfo, DeviceVersion, FirmwareInfo, GenuineAction, GenuineEvent, GenuineStage,
    InstallAction, InstallEvent, InstallStage, UpdateAction, UpdateEvent, UpdateStage,
};
use ledger_manager::device::{DeviceInfo, InstalledApp};
use ledger_manager::error::{InstallErr, UpdateErr};
use ledger_manager::hsm::{
    bulk_reply, exchange_reply, firmware_exchange_reply, firmware_session_error, hsm_step, install_session_error,
    HsmAction, HsmFailure, HsmMessage, HsmMessageData, HsmResponse,
};
use ledger_manager::apdu::CommandError;
use ledger_manager::hexcodec::HexError;
use ledger_manager::firmware::FirmwareUpdateError;
use ledger_manager::operations::{install_app, open_app, perform_genuine_check, print_ledger_info, update_app};
use ledger_manager::urls::{genuine_check_url, install_app_url};

fn catalog_app(name: &str, version: &str) -> BitcoinAppInfo {
    BitcoinAppInfo {
        version_name: name.to_string(),
        version_id: 1,
        version: version.to_string(),
        perso: "perso_11".to_string(),
        delete_key: format!("{}/del", version),
        firmware: format!("{}/fw", version),
        firmware_key: format!("{}/key", version),
        hash: format!("hash-{}", version),
    }
}

fn catalog() -> Vec<BitcoinAppInfo> {
    vec![
        catalog_app("Bitcoin", "2.1.0"),
        catalog_app("Ethereum", "1.0.0"),
        catalog_app("BITCOIN TEST", "2.1.0"),
        catalog_app("bitcoin", "2.1.3"),
        catalog_app("Bitcoin Test", "2.1.3"),
    ]
}

fn installed(name: &str, hash: Vec<u8>) -> InstalledApp {
    InstalledApp { name: name.to_string(), hash, hash_code_data: vec![], blocks: 1, flags: 0 }
}

fn os_device() -> DeviceInfo {
    DeviceInfo {
        target_id: 0x33000004,
        version: "2.2.0".to_string(),
        flags: vec![],
        is_bootloader: false,
        se_version: Some("2.2.0".to_string()),
        se_target_id: 0x33000004,
        mcu_version: Some("2.30".to_string()),
    }
}

fn message(query: &str, data: Option<HsmMessageData>) -> HsmMessage {
    HsmMessage { query: query.to_string(), nonce: 7, data }
}

fn fails_with_failure(a: HsmAction) -> HsmFailure {
    match a {
        HsmAction::Fail(f) => f,
        _ => panic!("expected a failure"),
    }
}

#[test]
fn hsm_exchange_message() {
    match hsm_step(message("exchange", Some(HsmMessageData::Command("e001000000".to_string()))), true) {
        HsmAction::Exchange { nonce, command } => {
            assert_eq!(nonce, 7);
            assert_eq!((command.cla, command.ins, command.p1, command.p2), (0xe0, 0x01, 0, 0));
            assert!(command.data.is_empty());
        }
        _ => panic!("expected an exchange"),
    }
}

#[test]
fn hsm_bulk_message_skips_empty_commands() {
    let list = vec!["e001000000".to_string(), String::new(), "e0de000001aa".to_string()];
    match hsm_step(message("bulk", Some(HsmMessageData::CommandList(list))), false) {
        HsmAction::Bulk { nonce, commands, failure } => {
            assert_eq!(nonce, 7);
            assert_eq!(commands.len(), 2);
            assert_eq!(commands[0].ins, 0x01);
            assert_eq!(commands[1].ins, 0xde);
            assert_eq!(commands[1].data, vec![0xaa]);
            assert_eq!(failure, None);
        }
        _ => panic!("expected a bulk"),
    }
}

#[test]
fn hsm_bulk_message_stops_at_invalid_command() {
    let list = vec!["e001000000".to_string(), "zz".to_string(), "e0de000000".to_string()];
    match hsm_step(message("bulk", Some(HsmMessageData::CommandList(list))), true) {
        HsmAction::Bulk { commands, failure, .. } => {
            assert_eq!(commands.len(), 1);
            assert_eq!(
                failure,
                Some(HsmFailure::InvalidCommand(CommandError::InvalidHex(HexError::InvalidHexCharacter { c: 'z', index: 0 })))
            );
        }
        _ => panic!("expected a bulk"),
    }
}

#[test]
fn hsm_other_queries() {
    assert!(matches!(hsm_step(message("success", None), true), HsmAction::Done));
    assert!(matches!(hsm_step(message("warning", None), true), HsmAction::Warn));
    assert_eq!(fails_with_failure(hsm_step(message("error", None), false)), HsmFailure::HsmError);
    assert_eq!(fails_with_failure(hsm_step(message("other", None), true)), HsmFailure::UnsupportedQuery);
    assert!(matches!(hsm_step(message("other", None), false), HsmAction::Ignore));
}

#[test]
fn hsm_malformed_messages() {
    assert_eq!(
        fails_with_failure(hsm_step(message("exchange", None), true)),
        HsmFailure::ExpectedSingleCommand
    );
    assert_eq!(
        fails_with_failure(hsm_step(message("exchange", Some(HsmMessageData::CommandList(vec![]))), true)),
        HsmFailure::ExpectedSingleCommand
    );
    assert_eq!(
        fails_with_failure(hsm_step(message("bulk", Some(HsmMessageData::Command("e001000000".to_string()))), true)),
        HsmFailure::ExpectedCommandList
    );
    assert_eq!(
        fails_with_failure(hsm_step(message("exchange", Some(HsmMessageData::Command("e0010000".to_string()))), true)),
        HsmFailure::InvalidCommand(CommandError::InvalidCommand)
    );
}

#[test]
fn hsm_replies() {
    let ok = exchange_reply(3, 0x9000, &[0x01, 0x02, 0xff]);
    assert_eq!(ok.nonce, 3);
    assert_eq!(ok.response, HsmResponse::Success);
    assert_eq!(ok.data, "0102ff");
    let err = exchange_reply(4, 0x6a80, &[]);
    assert_eq!(err.response, HsmResponse::Error);
    assert_eq!(err.data, "");
    let bulk = bulk_reply(9);
    assert_eq!((bulk.nonce, bulk.response, bulk.data.as_str()), (9, HsmResponse::Success, ""));
}

#[test]
fn hsm_session_errors() {
    assert_eq!(
        install_session_error(HsmFailure::ExpectedSingleCommand, "{}"),
        "A single command is expected in 'exchange' mode."
    );
    assert_eq!(
        install_session_error(HsmFailure::ExpectedCommandList, "{}"),
        "Expecting a list of commands in bulk mode."
    );
    assert_eq!(install_session_error(HsmFailure::InvalidCommand(CommandError::InvalidCommand), "{}"), "Invalid command");
    assert_eq!(
        install_session_error(HsmFailure::HsmError, "{\"query\":\"error\"}"),
        "Got an 'error' query on the ws. Full message: {\"query\":\"error\"}."
    );
    assert_eq!(
        install_session_error(HsmFailure::UnsupportedQuery, "{\"query\":\"x\"}"),
        "Got an unsupported query on the ws. Full message: {\"query\":\"x\"}."
    );
    let ws = |e: FirmwareUpdateError| match e {
        FirmwareUpdateError::WebSocketError(m) => m,
        _ => panic!("expected a websocket error"),
    };
    assert_eq!(ws(firmware_session_error(HsmFailure::ExpectedSingleCommand, "t")), "Expected single command in exchange mode");
    assert_eq!(ws(firmware_session_error(HsmFailure::ExpectedCommandList, "t")), "Expected command list in bulk mode");
    assert_eq!(
        ws(firmware_session_error(HsmFailure::InvalidCommand(CommandError::InvalidCommand), "t")),
        "APDU parse error: Invalid command"
    );
    assert_eq!(
        ws(firmware_session_error(HsmFailure::InvalidCommand(CommandError::InvalidHex(HexError::OddLength)), "t")),
        "APDU parse error: Odd number of digits"
    );
    assert_eq!(
        install_session_error(
            HsmFailure::InvalidCommand(CommandError::InvalidHex(HexError::InvalidHexCharacter { c: 'x', index: 3 })),
            "{}"
        ),
        "Invalid character 'x' at position 3"
    );
    assert_eq!(ws(firmware_session_error(HsmFailure::HsmError, "boom")), "HSM error: boom");
}

#[test]
fn hsm_firmware_exchange_reply() {
    assert!(matches!(firmware_exchange_reply(1, 0x6985, &[]), Err(FirmwareUpdateError::UserRefused)));
    assert!(matches!(firmware_exchange_reply(1, 0x5103, &[]), Err(FirmwareUpdateError::NotEnoughSpace)));
    match firmware_exchange_reply(5, 0x9000, &[0xab]) {
        Ok(r) => {
            assert_eq!((r.nonce, r.response, r.data.as_str()), (5, HsmResponse::Success, "ab"));
        }
        Err(_) => panic!("expected a reply"),
    }
}

#[test]
fn latest_apps_are_the_last_listed() {
    let (bitcoin, test) = get_latest_apps(catalog());
    assert_eq!(bitcoin.map(|a| a.version), Some("2.1.3".to_string()));
    assert_eq!(test.map(|a| a.version_name), Some("Bitcoin Test".to_string()));
    let (none, _) = get_latest_apps(vec![catalog_app("Ethereum", "1.0.0")]);
    assert!(none.is_none());
    assert_eq!(bitcoin_latest_app(catalog(), true).map(|a| a.version), Some("2.1.3".to_string()));
    assert!(bitcoin_latest_app(vec![catalog_app("Bitcoin", "1")], true).is_none());
}

#[test]
fn installed_app_hashes_hex() {
    let apps = vec![installed("Bitcoin", vec![0x00, 0xab, 0x10]), installed("Ethereum", vec![])];
    assert_eq!(installed_app_hashes(&apps), vec!["00ab10".to_string(), String::new()]);
}

#[test]
fn install_runs_to_the_session() {
    let (stage, action) = install_bitcoin_app_start();
    assert!(matches!(stage, InstallStage::AwaitingAppList));
    assert!(matches!(action, InstallAction::ListApps));
    let (stage, action) =
        install_bitcoin_app_step(stage, InstallEvent::AppList(Ok(vec![installed("Ethereum", vec![1])])), false);
    assert!(matches!(action, InstallAction::QueryDeviceInfo));
    let (stage, action) = install_bitcoin_app_step(stage, InstallEvent::DeviceInfo(Ok(os_device())), false);
    match &action {
        InstallAction::FetchCatalog { target_id, firmware_version } => {
            assert_eq!(*target_id, 0x33000004);
            assert_eq!(firmware_version, "2.2.0");
        }
        _ => panic!("expected the catalog request"),
    }
    let (stage, action) = install_bitcoin_app_step(stage, InstallEvent::Catalog(Ok(catalog())), false);
    match &action {
        InstallAction::RunSession { url } => {
            assert_eq!(url, &install_app_url(0x33000004, &catalog_app("bitcoin", "2.1.3")));
        }
        _ => panic!("expected the session"),
    }
    let (stage, action) = install_bitcoin_app_step(stage, InstallEvent::SessionEnded(Ok(())), false);
    assert!(matches!(stage, InstallStage::Finished));
    assert!(matches!(action, InstallAction::Finish(Ok(()))));
}

#[test]
fn install_refuses_installed_app() {
    let (stage, _) = install_bitcoin_app_start();
    let apps = vec![installed("bitcoin test", vec![1])];
    let (stage, action) = install_bitcoin_app_step(stage, InstallEvent::AppList(Ok(apps)), true);
    assert!(matches!(stage, InstallStage::Finished));
    assert!(matches!(action, InstallAction::Finish(Err(InstallErr::AlreadyInstalled))));
}

#[test]
fn install_without_catalog_entry() {
    let stage = InstallStage::AwaitingCatalog { target_id: 1 };
    let (_, action) = install_bitcoin_app_step(stage, InstallEvent::Catalog(Ok(vec![catalog_app("Ethereum", "1")])), false);
    assert!(matches!(action, InstallAction::Finish(Err(InstallErr::AppNotFound))));
}

#[test]
fn install_request_errors_end_it() {
    let (stage, _) = install_bitcoin_app_start();
    match install_bitcoin_app_step(stage, InstallEvent::AppList(Err("Not enough data".to_string())), false).1 {
        InstallAction::Finish(Err(InstallErr::Any(m))) => assert_eq!(m, "Not enough data"),
        _ => panic!("expected the error"),
    }
    match install_bitcoin_app_step(InstallStage::AwaitingSession, InstallEvent::SessionEnded(Err("ws".to_string())), false).1 {
        InstallAction::Finish(Err(InstallErr::Any(m))) => assert_eq!(m, "ws"),
        _ => panic!("expected the error"),
    }
}

#[test]
fn update_runs_to_the_session() {
    let (stage, action) = update_bitcoin_app_start();
    assert!(matches!(action, UpdateAction::ListApps));
    let apps = vec![installed("Ethereum", vec![9]), installed("Bitcoin", vec![0x01, 0xfe])];
    let (stage, action) = update_bitcoin_app_step(stage, UpdateEvent::AppList(Ok(apps)), false);
    match &action {
        UpdateAction::LookupHashes { hashes } => assert_eq!(hashes, &vec!["01fe".to_string()]),
        _ => panic!("expected the hash lookup"),
    }
    let found = vec![Some(catalog_app("Bitcoin", "2.1.0"))];
    let (stage, action) = update_bitcoin_app_step(stage, UpdateEvent::HashLookup(Ok(found)), false);
    assert!(matches!(action, UpdateAction::QueryDeviceInfo));
    let (stage, action) = update_bitcoin_app_step(stage, UpdateEvent::DeviceInfo(Ok(os_device())), false);
    match &stage {
        UpdateStage::AwaitingCatalog { target_id, installed_version } => {
            assert_eq!(*target_id, 0x33000004);
            assert_eq!(installed_version, &Some("2.1.0".to_string()));
        }
        _ => panic!("expected the catalog stage"),
    }
    assert!(matches!(action, UpdateAction::FetchCatalog { target_id: 0x33000004, .. }));
    let (stage, action) = update_bitcoin_app_step(stage, UpdateEvent::Catalog(Ok(catalog())), false);
    match &action {
        UpdateAction::RunSession { url } => assert_eq!(url, &install_app_url(0x33000004, &catalog_app("bitcoin", "2.1.3"))),
        _ => panic!("expected the session"),
    }
    let (stage, action) = update_bitcoin_app_step(stage, UpdateEvent::SessionEnded(Ok(())), false);
    assert!(matches!(stage, UpdateStage::Finished));
    assert!(matches!(action, UpdateAction::Finish(Ok(()))));
}

#[test]
fn update_refuses_missing_app() {
    let (stage, _) = update_bitcoin_app_start();
    let (_, action) = update_bitcoin_app_step(stage, UpdateEvent::AppList(Ok(vec![installed("Bitcoin", vec![])])), true);
    assert!(matches!(action, UpdateAction::Finish(Err(UpdateErr::NotInstalled))));
}

#[test]
fn update_unknown_hash() {
    let (_, action) = update_bitcoin_app_step(UpdateStage::AwaitingHashLookup, UpdateEvent::HashLookup(Ok(vec![])), false);
    assert!(matches!(action, UpdateAction::Finish(Err(UpdateErr::AppNotFound))));
    let (stage, _) = update_bitcoin_app_step(UpdateStage::AwaitingHashLookup, UpdateEvent::HashLookup(Ok(vec![None])), false);
    assert!(matches!(stage, UpdateStage::AwaitingDeviceInfo { known_version: None }));
}

#[test]
fn update_already_latest() {
    let stage = UpdateStage::AwaitingCatalog { target_id: 1, installed_version: Some("2.1.3".to_string()) };
    let (stage, action) = update_bitcoin_app_step(stage, UpdateEvent::Catalog(Ok(catalog())), false);
    assert!(matches!(stage, UpdateStage::Finished));
    assert!(matches!(action, UpdateAction::Finish(Err(UpdateErr::AlreadyLatest))));
}

#[test]
fn update_unknown_installed_version_installs() {
    let stage = UpdateStage::AwaitingCatalog { target_id: 1, installed_version: None };
    let (stage, action) = update_bitcoin_app_step(stage, UpdateEvent::Catalog(Ok(catalog())), true);
    assert!(matches!(stage, UpdateStage::AwaitingSession));
    assert!(matches!(action, UpdateAction::RunSession { .. }));
}

#[test]
fn update_without_catalog_entry() {
    let stage = UpdateStage::AwaitingCatalog { target_id: 1, installed_version: None };
    let (_, action) = update_bitcoin_app_step(stage, UpdateEvent::Catalog(Ok(vec![])), false);
    assert!(matches!(action, UpdateAction::Finish(Err(UpdateErr::AppNotFound))));
}

#[test]
fn update_request_errors_end_it() {
    match update_bitcoin_app_step(UpdateStage::AwaitingHashLookup, UpdateEvent::HashLookup(Err("HTTP".to_string())), false).1 {
        UpdateAction::Finish(Err(UpdateErr::Any(m))) => assert_eq!(m, "HTTP"),
        _ => panic!("expected the error"),
    }
}

#[test]
fn genuine_check_runs_to_the_session() {
    let (stage, action) = genuine_check_start();
    assert!(matches!(action, GenuineAction::QueryDeviceInfo));
    let (stage, action) = genuine_check_step(stage, GenuineEvent::DeviceInfo(Ok(os_device())));
    assert!(matches!(action, GenuineAction::FetchDeviceVersion { target_id: 0x33000004 }));
    let (stage, action) = genuine_check_step(stage, GenuineEvent::DeviceVersion(Ok(DeviceVersion { id: 17 })));
    match &action {
        GenuineAction::FetchFirmwareInfo { device_version, version_name } => {
            assert_eq!(*device_version, 17);
            assert_eq!(version_name, "2.2.0");
        }
        _ => panic!("expected the firmware request"),
    }
    let (stage, action) =
        genuine_check_step(stage, GenuineEvent::FirmwareInfo(Ok(FirmwareInfo { perso: "perso_11".to_string() })));
    match &action {
        GenuineAction::RunSession { url } => assert_eq!(url, &genuine_check_url(0x33000004, "perso_11")),
        _ => panic!("expected the session"),
    }
    let (stage, action) = genuine_check_step(stage, GenuineEvent::SessionEnded(Ok(())));
    assert!(matches!(stage, GenuineStage::Finished));
    assert!(matches!(action, GenuineAction::Finish(Ok(()))));
}

#[test]
fn genuine_check_errors_end_it() {
    match genuine_check_step(GenuineStage::AwaitingDeviceInfo, GenuineEvent::DeviceInfo(Err("locked".to_string()))).1 {
        GenuineAction::Finish(Err(m)) => assert_eq!(m, "locked"),
        _ => panic!("expected the error"),
    }
}

#[test]
fn app_update_info_cases() {
    let none = check_bitcoin_app_update(None, Ok("2.1.3".to_string()), false);
    assert!(!none.installed && !none.update_available);
    assert_eq!(none.message, "Device info not available. Please get device info first.");

    let failed = check_bitcoin_app_update(Some((true, Some("2.1.0".to_string()))), Err("offline".to_string()), false);
    assert!(failed.installed && !failed.update_available);
    assert_eq!(failed.current_version, Some("2.1.0".to_string()));
    assert_eq!(failed.latest_version, None);
    assert_eq!(failed.message, "Failed to get latest Bitcoin app info: offline");

    let absent = check_bitcoin_app_update(Some((false, None)), Ok("2.1.3".to_string()), true);
    assert!(!absent.installed && !absent.update_available);
    assert_eq!(absent.latest_version, Some("2.1.3".to_string()));
    assert_eq!(absent.message, "Bitcoin Test app is not installed. Latest version: 2.1.3");

    let current = check_bitcoin_app_update(Some((true, Some("2.1.3".to_string()))), Ok("2.1.3".to_string()), false);
    assert!(current.installed && !current.update_available);
    assert_eq!(current.message, "Bitcoin app is up to date");

    let old = check_bitcoin_app_update(Some((true, Some("2.1.0".to_string()))), Ok("2.1.3".to_string()), false);
    assert!(old.installed && old.update_available);
    assert_eq!(old.message, "Bitcoin update available: 2.1.0 -> 2.1.3");

    let unknown = check_bitcoin_app_update(Some((true, None)), Ok("2.1.3".to_string()), false);
    assert!(unknown.update_available);
    assert_eq!(unknown.message, "Bitcoin update available: unknown -> 2.1.3");
}

#[test]
fn install_messages() {
    assert_eq!(install_app(Ok(()), false), Ok("Successfully installed the app.".to_string()));
    assert_eq!(install_app(Ok(()), true), Ok("Successfully installed the app.".to_string()));
    assert_eq!(
        install_app(Err(InstallErr::AlreadyInstalled), true),
        Err("Bitcoin Test app already installed. Use the update command to update it.".to_string())
    );
    assert_eq!(install_app(Err(InstallErr::AppNotFound), false), Err("Could not get info about Bitcoin app.".to_string()));
    assert_eq!(
        install_app(Err(InstallErr::Any("HSM refused".to_string())), false),
        Err("Error installing Bitcoin app: HSM refused.".to_string())
    );
}

#[test]
fn update_messages() {
    assert_eq!(update_app(Ok(()), true), Ok("Successfully updated the Bitcoin Test app.".to_string()));
    assert_eq!(
        update_app(Err(UpdateErr::NotInstalled), false),
        Err("Bitcoin app isn't installed. Use the install command instead.".to_string())
    );
    assert_eq!(update_app(Err(UpdateErr::AppNotFound), false), Err("Could not get info about Bitcoin app.".to_string()));
    assert_eq!(
        update_app(Err(UpdateErr::AlreadyLatest), false),
        Err("Bitcoin app is already at the latest version.".to_string())
    );
    assert_eq!(
        update_app(Err(UpdateErr::Any("x".to_string())), true),
        Err("Error updating Bitcoin Test app: x.".to_string())
    );
}

#[test]
fn open_and_genuine_messages() {
    assert_eq!(open_app(Ok(()), false), Ok("Bitcoin app opened successfully.".to_string()));
    assert_eq!(
        open_app(Err("Error opening app.".to_string()), true),
        Err("Error opening Bitcoin Test app: Error opening app.".to_string())
    );
    assert_eq!(perform_genuine_check(Ok(())), Ok("Success. Your Ledger is genuine.".to_string()));
    assert_eq!(
        perform_genuine_check(Err("ws".to_string())),
        Err("Error when performing genuine check: ws".to_string())
    );
}

#[test]
fn ledger_info_report() {
    let report = print_ledger_info(Ok("DeviceInfo {}".to_string()), Ok(vec!["Some(a)".to_string(), "None".to_string()]));
    assert_eq!(
        report,
        Ok("Information about the device: DeviceInfo {}\n\
Querying installed applications from your Ledger. You might have to confirm on your device.\n\
Installed applications:\n  - Some(a)\n  - None\n"
            .to_string())
    );
    assert_eq!(
        print_ledger_info(Err("locked".to_string()), Ok(vec![])),
        Err("Error fetching device info: locked".to_string())
    );
    assert_eq!(
        print_ledger_info(Ok("d".to_string()), Err("HTTP".to_string())),
        Err("Error listing installed applications: HTTP.".to_string())
    );
}
