use ledger_manager::apdu::CommandError;
use ledger_manager::apps::BitcoinAppInfo;
use ledger_manager::hsm::HsmFailure;
use ledger_manager::firmware::FinalFirmware;
use ledger_manager::web::{
    add_apps_page, app_versions, bitcoin_apps_found, check_firmware_update_begin, check_firmware_update_with_device_version,
    check_firmware_update_with_final, check_firmware_update_with_firmware_id, check_firmware_update_with_latest,
    connect_device, device_info_summary, disconnected_device_info, first_bitcoin_app, genuine_check_begin,
    genuine_check_outcome, genuine_check_with_perso, install_bitcoin_app_begin, install_bitcoin_app_outcome,
    install_bitcoin_app_with_catalog, open_bitcoin_app, update_bitcoin_app_begin, update_bitcoin_app_outcome,
    update_bitcoin_app_with_catalog, version_fields, web_install_app_url, web_session_error, FirmwareCheckStep, OperationResult,
    StoredDeviceInfo, WebStep, WebUpdateStep, check_bitcoin_app_update_with_catalog, web_firmware_salt,
};

fn stored(bitcoin_installed: bool, bitcoin_version: Option<&str>) -> Option<StoredDeviceInfo> {
    Some(StoredDeviceInfo {
        target_id: 0x33000004,
        version: "2.2.0".to_string(),
        bitcoin_installed,
        bitcoin_version: bitcoin_version.map(|v| v.to_string()),
        bitcoin_test_installed: false,
        bitcoin_test_version: None,
    })
}

fn entry(name: &str, version: &str) -> BitcoinAppInfo {
    BitcoinAppInfo {
        version_name: name.to_string(),
        version_id: 1,
        version: version.to_string(),
        perso: "perso 11".to_string(),
        delete_key: "a/b".to_string(),
        firmware: "fw~1".to_string(),
        firmware_key: "k+ey".to_string(),
        hash: "h".to_string(),
    }
}

fn finished(step: WebStep) -> OperationResult {
    match step {
        WebStep::Finish(r) => r,
        _ => panic!("expected the end of the operation"),
    }
}

fn os_answer() -> Vec<u8> {
    let mut d = vec![0x33, 0x00, 0x00, 0x04, 5];
    d.extend_from_slice(b"2.1.0");
    d.push(0);
    d.push(4);
    d.extend_from_slice(b"2.30");
    d
}

fn app_record(name: &[u8], hash_byte: u8) -> Vec<u8> {
    let mut r = vec![(name.len() + 70) as u8, 0x00, 0x10, 0x08, 0x00];
    r.extend(std::iter::repeat(0x11).take(32));
    r.extend(std::iter::repeat(hash_byte).take(32));
    r.push(name.len() as u8);
    r.extend_from_slice(name);
    r
}

#[test]
fn web_connect_and_open() {
    let ok = connect_device(Ok(()));
    assert!(ok.success);
    assert_eq!(ok.message, "Device connected successfully");
    assert_eq!(connect_device(Err("denied".to_string())).message, "Failed to connect: denied");
    let none = open_bitcoin_app(None, false);
    assert!(!none.success);
    assert_eq!(none.message, "Device not connected. Please connect first.");
    assert_eq!(open_bitcoin_app(Some(Ok(0x9000)), true).message, "Bitcoin Test app opened successfully");
    let refused = open_bitcoin_app(Some(Ok(0x6807)), false);
    assert!(!refused.success);
    assert_eq!(refused.message, "Failed to open Bitcoin app. Error code: 0x6807");
    assert_eq!(open_bitcoin_app(Some(Err("gone".to_string())), false).message, "Failed to open Bitcoin app: gone");
}

#[test]
fn web_genuine_flow() {
    assert_eq!(
        finished(genuine_check_begin(false, &stored(false, None))).message,
        "Device not connected. Please connect and get device info first."
    );
    assert_eq!(
        finished(genuine_check_begin(true, &None)).message,
        "Device info not available. Please get device info first."
    );
    match genuine_check_begin(true, &stored(false, None)) {
        WebStep::FetchPerso { target_id, version } => {
            assert_eq!(target_id, 0x33000004);
            assert_eq!(version, "2.2.0");
        }
        _ => panic!("expected the personalization request"),
    }
    match genuine_check_with_perso(Ok("perso 11/x".to_string()), 0x33000004) {
        WebStep::RunSession { url } => assert_eq!(
            url,
            "wss://scriptrunner.api.live.ledger.com/update/genuine?targetId=855638020&perso=perso%2011%2Fx"
        ),
        _ => panic!("expected the session"),
    }
    assert_eq!(
        finished(genuine_check_with_perso(Err("HTTP 500".to_string()), 1)).message,
        "Failed to get firmware info: HTTP 500"
    );
    assert_eq!(genuine_check_outcome(Ok(())).message, "Device is genuine!");
    assert_eq!(genuine_check_outcome(Err("ws".to_string())).message, "Genuine check failed: ws");
}

#[test]
fn web_install_url_percent_encodes() {
    assert_eq!(
        web_install_app_url(1, &entry("Bitcoin", "2.1.3")),
        "wss://scriptrunner.api.live.ledger.com/update/install?targetId=1&perso=perso%2011&deleteKey=a%2Fb\
&firmware=fw~1&firmwareKey=k%2Bey&hash=h"
    );
}

#[test]
fn web_install_flow() {
    let installed = finished(install_bitcoin_app_begin(true, &stored(true, Some("2.1.0")), false));
    assert!(!installed.success);
    assert_eq!(installed.message, "Bitcoin app is already installed. Use update instead.");
    assert!(matches!(
        install_bitcoin_app_begin(true, &stored(true, None), true),
        WebStep::FetchCatalog { target_id: 0x33000004, .. }
    ));
    let catalog = vec![entry("Ethereum", "1"), entry("BITCOIN", "2.1.0"), entry("bitcoin", "2.1.3")];
    match install_bitcoin_app_with_catalog(Ok(catalog), 7, false) {
        WebStep::RunSession { url } => assert_eq!(url, web_install_app_url(7, &entry("BITCOIN", "2.1.0"))),
        _ => panic!("expected the session"),
    }
    assert_eq!(
        finished(install_bitcoin_app_with_catalog(Ok(vec![entry("Ethereum", "1")]), 7, true)).message,
        "Failed to get Bitcoin Test app info: Bitcoin app not found for this device"
    );
    assert_eq!(
        finished(install_bitcoin_app_with_catalog(Err("HTTP 404".to_string()), 7, false)).message,
        "Failed to get Bitcoin app info: HTTP 404"
    );
    assert_eq!(install_bitcoin_app_outcome(Ok(()), false).message, "Bitcoin app installed successfully!");
    assert_eq!(install_bitcoin_app_outcome(Err("x".to_string()), true).message, "Failed to install Bitcoin Test app: x");
}

#[test]
fn web_update_flow() {
    assert_eq!(
        finished(update_bitcoin_app_begin(true, &stored(false, None), false)).message,
        "Bitcoin app is not installed. Use install instead."
    );
    assert!(matches!(update_bitcoin_app_begin(true, &stored(true, None), false), WebStep::FetchCatalog { .. }));
    let catalog = || vec![entry("Bitcoin", "2.1.3")];
    match update_bitcoin_app_with_catalog(Ok(catalog()), 7, Some("2.1.3".to_string()), false) {
        WebUpdateStep::Finish(r) => {
            assert!(r.success);
            assert_eq!(r.message, "Bitcoin app is already at the latest version (2.1.3)");
        }
        _ => panic!("expected the end of the update"),
    }
    match update_bitcoin_app_with_catalog(Ok(catalog()), 7, Some("2.1.0".to_string()), false) {
        WebUpdateStep::RunSession { url, version } => {
            assert_eq!(url, web_install_app_url(7, &entry("Bitcoin", "2.1.3")));
            assert_eq!(version, "2.1.3");
        }
        _ => panic!("expected the session"),
    }
    assert!(matches!(
        update_bitcoin_app_with_catalog(Ok(catalog()), 7, None, false),
        WebUpdateStep::RunSession { .. }
    ));
    assert_eq!(
        update_bitcoin_app_outcome(Ok(()), "2.1.3", false).message,
        "Bitcoin app updated successfully to version 2.1.3!"
    );
    assert_eq!(update_bitcoin_app_outcome(Err("x".to_string()), "2.1.3", false).message, "Failed to update Bitcoin app: x");
}

#[test]
fn web_first_catalog_entry() {
    let catalog = vec![entry("bitcoin test", "1"), entry("Bitcoin Test", "2")];
    assert_eq!(first_bitcoin_app(catalog, true).map(|a| a.version), Some("1".to_string()));
    assert!(first_bitcoin_app(vec![entry("Bitcoin Test", "2")], false).is_none());
}

fn check_answer(step: FirmwareCheckStep) -> (bool, Option<String>, Option<String>, String) {
    match step {
        FirmwareCheckStep::Finish(i) => (i.update_available, i.current_version, i.target_version, i.message),
        FirmwareCheckStep::Fetch { .. } => panic!("expected an answer"),
    }
}

fn fetched(step: FirmwareCheckStep) -> String {
    match step {
        FirmwareCheckStep::Fetch { url } => url,
        FirmwareCheckStep::Finish(_) => panic!("expected a request"),
    }
}

fn final_firmware(version: &str, name: &str, id: i64) -> FinalFirmware {
    FinalFirmware {
        id,
        name: name.to_string(),
        description: None,
        display_name: None,
        notes: None,
        perso: String::new(),
        firmware: String::new(),
        firmware_key: String::new(),
        hash: String::new(),
        version: version.to_string(),
        se_firmware: 0,
        osu_versions: vec![],
        mcu_versions: vec![],
        application_versions: vec![],
        bytes: None,
        date_creation: String::new(),
        date_last_modified: String::new(),
        device_versions: vec![],
        providers: vec![],
    }
}

#[test]
fn web_firmware_check_flow() {
    assert_eq!(
        check_answer(check_firmware_update_begin(&None)),
        (false, None, None, "Device info not available. Please get device info first.".to_string())
    );
    assert_eq!(
        fetched(check_firmware_update_begin(&stored(true, None))),
        "https://manager.api.live.ledger.com/api/get_device_version?livecommonversion=34.0.0&provider=1&target_id=855638020"
    );
    assert_eq!(
        check_answer(check_firmware_update_with_device_version(Err("HTTP 404: Failed".to_string()), "2.2.0")),
        (false, Some("2.2.0".to_string()), None, "Failed to get device version from API: HTTP 404: Failed".to_string())
    );
    assert_eq!(
        fetched(check_firmware_update_with_device_version(Ok(17), "2.2.0")),
        "https://manager.api.live.ledger.com/api/get_firmware_version?livecommonversion=34.0.0&device_version=17\
&version_name=2.2.0&provider=1"
    );
    assert_eq!(
        fetched(check_firmware_update_with_firmware_id(Ok(41), 17, "2.2.0", 0)),
        "https://manager.api.live.ledger.com/api/get_latest_firmware?livecommonversion=34.0.0&salt=c2f564\
&current_se_firmware_final_version=41&device_version=17&provider=1"
    );
    assert_eq!(
        check_answer(check_firmware_update_with_firmware_id(Err("e".to_string()), 17, "2.2.0", 0)).3,
        "Failed to get current firmware version: e"
    );
    assert_eq!(
        check_answer(check_firmware_update_with_latest(Ok(None), "2.2.0")),
        (false, Some("2.2.0".to_string()), None, "Firmware is up to date (2.2.0)".to_string())
    );
    assert_eq!(check_answer(check_firmware_update_with_latest(Ok(Some(0)), "2.2.0")).3, "Firmware is up to date (2.2.0)");
    assert_eq!(
        fetched(check_firmware_update_with_latest(Ok(Some(42)), "2.2.0")),
        "https://manager.api.live.ledger.com/api/firmware_final_versions/42?livecommonversion=34.0.0"
    );
    assert_eq!(check_answer(check_firmware_update_with_latest(Err("e".to_string()), "2.2.0")).3, "Failed to check for updates: e");
    assert_eq!(
        check_answer(check_firmware_update_with_final(Ok(final_firmware("2.3.0", "n", 42)), "2.2.0")),
        (true, Some("2.2.0".to_string()), Some("2.3.0".to_string()), "Update available: 2.2.0 -> 2.3.0".to_string())
    );
    assert_eq!(check_answer(check_firmware_update_with_final(Ok(final_firmware("", "Nano", 42)), "2.2.0")).2, Some("Nano".to_string()));
    assert_eq!(check_answer(check_firmware_update_with_final(Ok(final_firmware("", "", 42)), "2.2.0")).2, Some("id:42".to_string()));
    assert_eq!(
        check_answer(check_firmware_update_with_final(Err("e".to_string()), "2.2.0")),
        (true, Some("2.2.0".to_string()), None, "Update available but failed to get details: e".to_string())
    );
}

#[test]
fn web_device_info_reading() {
    assert_eq!(
        version_fields(Some((0x9000, os_answer()))),
        (0x33000004, "2.1.0".to_string(), Some("2.30".to_string()))
    );
    assert_eq!(version_fields(Some((0x6e00, os_answer()))), (0, String::new(), None));
    assert_eq!(version_fields(None), (0, String::new(), None));

    let mut page = vec![0x01];
    page.extend(app_record(b"Bitcoin", 0xaa));
    page.extend(app_record(b"bitcoin test", 0xbb));
    let (apps, more) = add_apps_page(Vec::new(), Some((0x9000, page.clone())), true);
    assert!(more);
    assert_eq!(apps.len(), 2);
    let (apps, more) = add_apps_page(apps, Some((0x9000, vec![])), false);
    assert!(!more);
    assert_eq!(apps.len(), 2);
    let (none, more) = add_apps_page(Vec::new(), Some((0x6e00, page)), true);
    assert!(!more && none.is_empty());

    let (bitcoin, test, hashes) = bitcoin_apps_found(&apps);
    assert!(bitcoin && test);
    assert_eq!(hashes, vec!["aa".repeat(32), "bb".repeat(32)]);

    let infos = vec![Some(entry("Bitcoin", "2.1.0")), None, Some(entry("BITCOIN TEST", "2.0.0")), Some(entry("bitcoin", "2.1.3"))];
    assert_eq!(app_versions(infos), (Some("2.1.3".to_string()), Some("2.0.0".to_string())));

    let (info, kept) = device_info_summary(0x33000004, "2.1.0".to_string(), Some("2.30".to_string()), true, Some("2.1.3".to_string()), false, None);
    assert!(info.connected);
    assert_eq!(info.model, Some("Ledger".to_string()));
    assert_eq!(info.version, Some("2.1.0".to_string()));
    assert_eq!(info.target_id, Some(0x33000004));
    let kept = match kept {
        Some(k) => k,
        None => panic!("known devices are kept"),
    };
    assert_eq!(kept.bitcoin_version, Some("2.1.3".to_string()));
    let (unknown, kept) = device_info_summary(0, String::new(), None, false, None, false, None);
    assert_eq!(unknown.version, None);
    assert_eq!(unknown.target_id, None);
    assert!(kept.is_none());
    let off = disconnected_device_info();
    assert!(!off.connected && off.model.is_none());
}

#[test]
fn web_session_errors() {
    assert_eq!(web_session_error(HsmFailure::ExpectedSingleCommand, "t"), "Expected single command in exchange mode");
    assert_eq!(web_session_error(HsmFailure::ExpectedCommandList, "t"), "Expected command list in bulk mode");
    assert_eq!(web_session_error(HsmFailure::InvalidCommand(CommandError::InvalidCommand), "t"), "Invalid command");
    assert_eq!(web_session_error(HsmFailure::HsmError, "{\"query\":\"error\"}"), "HSM returned error: {\"query\":\"error\"}");
}

#[test]
fn web_escaped_values_stay_in_their_parameter() {
    match genuine_check_with_perso(Ok("a&b=c#d?e f".to_string()), 1) {
        WebStep::RunSession { url } => assert_eq!(
            url,
            "wss://scriptrunner.api.live.ledger.com/update/genuine?targetId=1&perso=a%26b%3Dc%23d%3Fe%20f"
        ),
        _ => panic!("expected the session"),
    }
}

#[test]
fn web_firmware_salt_values() {
    assert_eq!(web_firmware_salt(0), "c2f564");
    assert_eq!(web_firmware_salt(1_700_000_000_000), "15a85b");
    assert_eq!(web_firmware_salt(123456789), "94d1a9");
}

#[test]
fn bitcoin_app_update_from_catalog() {
    let catalog = vec![entry("Ethereum", "1.0.0"), entry("BITCOIN", "2.1.3"), entry("Bitcoin", "9.9.9")];
    let old = check_bitcoin_app_update_with_catalog(&stored(true, Some("2.1.0")), Ok(catalog), false);
    assert!(old.installed && old.update_available);
    assert_eq!(old.latest_version, Some("2.1.3".to_string()));
    assert_eq!(old.message, "Bitcoin update available: 2.1.0 -> 2.1.3");

    let current = check_bitcoin_app_update_with_catalog(&stored(true, Some("2.1.3")), Ok(vec![entry("bitcoin", "2.1.3")]), false);
    assert!(current.installed && !current.update_available);
    assert_eq!(current.message, "Bitcoin app is up to date");

    let missing = check_bitcoin_app_update_with_catalog(&stored(true, Some("2.1.0")), Ok(vec![entry("Ethereum", "1.0.0")]), false);
    assert!(missing.installed && !missing.update_available);
    assert_eq!(missing.latest_version, None);
    assert_eq!(missing.message, "Failed to get latest Bitcoin app info: Bitcoin app not found for this device");

    let failed = check_bitcoin_app_update_with_catalog(&stored(false, None), Err("HTTP 500".to_string()), true);
    assert!(!failed.installed);
    assert_eq!(failed.message, "Failed to get latest Bitcoin Test app info: HTTP 500");

    let absent = check_bitcoin_app_update_with_catalog(&stored(false, None), Ok(vec![entry("Bitcoin Test", "2.1.3")]), true);
    assert!(!absent.installed && !absent.update_available);
    assert_eq!(absent.message, "Bitcoin Test app is not installed. Latest version: 2.1.3");

    let unknown = check_bitcoin_app_update_with_catalog(&None, Ok(vec![entry("Bitcoin", "2.1.3")]), false);
    assert_eq!(unknown.message, "Device info not available. Please get device info first.");
}
