use ledger_manager::apps::BitcoinAppInfo;
use ledger_manager::device::DeviceInfo;
use ledger_manager::firmware::{
    check_firmware_status, find_best_mcu_version, find_mcu_for_repair, find_mcu_for_repair_v2, firmware_salt, generate_firmware_salt,
    legacy_mcu_for_bootloader, mcu_flash_outcome, mcu_needs_flash, osu_version_name, FinalFirmware, FirmwareUpdateError,
    McuVersion, OsuFirmware, MAX_MCU_ITERATIONS,
};
use ledger_manager::urls::{
    current_firmware_version_url, device_version_url, final_firmware_url, final_install_url, genuine_check_url,
    install_app_url, latest_firmware_url, mcu_flash_url, mcu_versions_url, osu_firmware_url, osu_install_url,
};
use ledger_manager::version::{contains_str, get_bootloader_maj_min, lex_less, version_components};

fn mcu(id: i64, name: &str, from_bl: &str, device_versions: Vec<i64>) -> McuVersion {
    McuVersion {
        id,
        mcu: 1,
        name: name.to_string(),
        description: None,
        providers: vec![1],
        from_bootloader_version: from_bl.to_string(),
        device_versions,
        se_firmware_final_versions: vec![],
        date_creation: String::new(),
        date_last_modified: String::new(),
    }
}

fn device(version: &str, is_bootloader: bool) -> DeviceInfo {
    DeviceInfo {
        target_id: 0x01000003,
        version: version.to_string(),
        flags: vec![],
        is_bootloader,
        se_version: None,
        se_target_id: 0x33000004,
        mcu_version: Some("2.30".to_string()),
    }
}

fn catalog() -> Vec<McuVersion> {
    vec![
        mcu(1, "2.12", "1.4", vec![17]),
        mcu(2, "2.31-rc1", "1.16", vec![17]),
        mcu(3, "2.30", "1.16.0", vec![17]),
        mcu(4, "3.0", "none", vec![17]),
        mcu(5, "2.99", "1.16", vec![17]),
        mcu(6, "2.8", "0.9", vec![5]),
    ]
}

fn osu() -> OsuFirmware {
    OsuFirmware {
        id: 7,
        name: "2.2.0-osu".to_string(),
        description: None,
        display_name: None,
        notes: None,
        perso: "perso_11".to_string(),
        firmware: "nanox/2.2.0/upgrade_osu".to_string(),
        firmware_key: "nanox/2.2.0/upgrade_osu_key".to_string(),
        hash: String::new(),
        date_creation: String::new(),
        date_last_modified: String::new(),
        device_versions: vec![17],
        providers: vec![1],
        next_se_firmware_final_version: 42,
        previous_se_firmware_final_version: vec![41],
    }
}

fn final_firmware() -> FinalFirmware {
    FinalFirmware {
        id: 42,
        name: "2.2.0".to_string(),
        description: None,
        display_name: None,
        notes: None,
        perso: "perso_11".to_string(),
        firmware: "nanox/2.2.0/fw".to_string(),
        firmware_key: "nanox/2.2.0/fw_key".to_string(),
        hash: String::new(),
        version: "2.2.0".to_string(),
        se_firmware: 3,
        osu_versions: vec![],
        mcu_versions: vec![3],
        application_versions: vec![],
        bytes: None,
        date_creation: String::new(),
        date_last_modified: String::new(),
        device_versions: vec![17],
        providers: vec![1],
    }
}

fn err_of<T>(r: Result<T, FirmwareUpdateError>) -> FirmwareUpdateError {
    match r {
        Err(e) => e,
        Ok(_) => panic!("expected an error"),
    }
}

#[test]
fn bootloader_maj_min() {
    assert_eq!(get_bootloader_maj_min("1.5-rc3"), "1.5");
    assert_eq!(get_bootloader_maj_min("0.6"), "0.6");
    assert_eq!(get_bootloader_maj_min("2.0.1"), "2.0");
    assert_eq!(get_bootloader_maj_min("1"), "1");
    assert_eq!(get_bootloader_maj_min(""), "");
    assert_eq!(get_bootloader_maj_min("1.-rc"), "1.");
    assert_eq!(get_bootloader_maj_min("1.16.0"), "1.16");
}

#[test]
fn version_components_numeric_parts() {
    assert_eq!(version_components("1.12.3"), vec![1, 12, 3]);
    assert_eq!(version_components("2.31-rc1"), vec![2]);
    assert_eq!(version_components("v1.2"), vec![2]);
    assert_eq!(version_components("+5.1"), vec![5, 1]);
    assert_eq!(version_components("1..2"), vec![1, 2]);
    assert_eq!(version_components("4294967296.1"), vec![1]);
    assert_eq!(version_components("4294967295"), vec![4294967295]);
    assert!(version_components("").is_empty());
}

#[test]
fn lex_less_is_vec_order() {
    let cases: Vec<(Vec<u32>, Vec<u32>)> = vec![
        (vec![1, 2], vec![1, 10]),
        (vec![1, 2], vec![1, 2]),
        (vec![1], vec![1, 0]),
        (vec![2], vec![1, 9]),
        (vec![], vec![]),
        (vec![], vec![0]),
    ];
    for (a, b) in cases {
        assert_eq!(lex_less(&a, &b), a < b);
    }
}

#[test]
fn contains_str_substrings() {
    assert!(contains_str("2.1.0-osu", "-osu"));
    assert!(!contains_str("2.1.0", "-osu"));
    assert!(contains_str("abc", ""));
    assert!(!contains_str("", "a"));
}

#[test]
fn best_mcu_is_first_compatible() {
    let mcus = catalog();
    let info = device("1.16", true);
    assert_eq!(find_best_mcu_version(&mcus, &info, &vec![3, 1]).ok(), Some("2.12".to_string()));
    assert_eq!(find_best_mcu_version(&mcus, &info, &vec![3]).ok(), Some("2.30".to_string()));
    assert!(matches!(err_of(find_best_mcu_version(&mcus, &info, &vec![99])), FirmwareUpdateError::UnknownMcu));
}

#[test]
fn mcu_flash_needed() {
    let mcus = catalog();
    assert!(!mcu_needs_flash(&mcus, &Some("2.30".to_string()), &vec![3]));
    assert!(mcu_needs_flash(&mcus, &Some("2.30".to_string()), &vec![1]));
    assert!(mcu_needs_flash(&mcus, &Some("9.9".to_string()), &vec![1, 3]));
    assert!(mcu_needs_flash(&mcus, &None, &vec![1, 3]));
}

#[test]
fn legacy_bootloaders() {
    assert_eq!(legacy_mcu_for_bootloader(&"0.0".to_string()), Some("0.6".to_string()));
    assert_eq!(legacy_mcu_for_bootloader(&"0.6".to_string()), Some("1.5".to_string()));
    assert_eq!(legacy_mcu_for_bootloader(&"0.7".to_string()), Some("1.6".to_string()));
    assert_eq!(legacy_mcu_for_bootloader(&"0.9".to_string()), Some("1.7".to_string()));
    assert_eq!(legacy_mcu_for_bootloader(&"1.4".to_string()), None);
}

#[test]
fn repair_installs_best_mcu_when_bootloader_matches() {
    // Production MCUs of device version 17: "2.12" (needs 1.4) and "2.30" (needs 1.16.0).
    let choice = find_mcu_for_repair_v2(&device("1.16.1", true), 17, &catalog());
    assert_eq!(choice.ok(), Some("2.30".to_string()));
}

#[test]
fn repair_installs_bootloader_first_when_it_differs() {
    let choice = find_mcu_for_repair_v2(&device("1.4", true), 17, &catalog());
    assert_eq!(choice.ok(), Some("1.16.0".to_string()));
}

#[test]
fn repair_falls_back_on_bootloader_match() {
    let choice = find_mcu_for_repair_v2(&device("0.9.2", true), 99, &catalog());
    assert_eq!(choice.ok(), Some("2.8".to_string()));
}

#[test]
fn repair_best_is_last_of_equal_versions() {
    let mcus = vec![mcu(1, "2.30", "1.16", vec![17]), mcu(2, "2.30", "1.4", vec![17])];
    let choice = find_mcu_for_repair_v2(&device("1.16", true), 17, &mcus);
    assert_eq!(choice.ok(), Some("1.4".to_string()));
}

#[test]
fn repair_without_candidate_fails() {
    match err_of(find_mcu_for_repair_v2(&device("0.1", true), 99, &catalog())) {
        FirmwareUpdateError::Other(m) => assert_eq!(
            m,
            "No compatible firmware found for SE target 0x33000004 with bootloader 0.1. Device version ID: 99, tried 0 MCUs"
        ),
        _ => panic!("expected Other"),
    }
}

#[test]
fn mcu_flash_outcome_tolerates_reset_at_full_progress() {
    let reset = || Err(FirmwareUpdateError::WebSocketError("Read error: Connection reset by peer".to_string()));
    assert!(mcu_flash_outcome(reset(), 100).is_ok());
    assert!(matches!(err_of(mcu_flash_outcome(reset(), 99)), FirmwareUpdateError::WebSocketError(_)));
    assert!(matches!(err_of(mcu_flash_outcome(reset(), 95)), FirmwareUpdateError::WebSocketError(_)));
    assert!(matches!(err_of(mcu_flash_outcome(reset(), 90)), FirmwareUpdateError::WebSocketError(_)));
    let closed = Err(FirmwareUpdateError::WebSocketError("WebSocket closed unexpectedly".to_string()));
    assert!(mcu_flash_outcome(closed, 100).is_ok());
    let other = Err(FirmwareUpdateError::WebSocketError("Parse error".to_string()));
    match err_of(mcu_flash_outcome(other, 100)) {
        FirmwareUpdateError::WebSocketError(m) => assert_eq!(m, "Parse error"),
        _ => panic!("expected the websocket error"),
    }
    assert!(matches!(err_of(mcu_flash_outcome(Err(FirmwareUpdateError::UserRefused), 100)), FirmwareUpdateError::UserRefused));
    assert!(mcu_flash_outcome(Ok(()), 0).is_ok());
}

#[test]
fn firmware_salt_values() {
    assert_eq!(firmware_salt(0), "f08336");
    assert_eq!(firmware_salt(1_700_000_000_000_000_000), "495406");
    assert_eq!(firmware_salt(123456789), "5af77c");
}

#[test]
fn generated_salt_is_six_hex_digits() {
    let salt = generate_firmware_salt();
    assert_eq!(salt.len(), 6);
    assert!(salt.chars().all(|c| c.is_ascii_hexdigit() && !c.is_ascii_uppercase()));
}

#[test]
fn osu_version_names() {
    assert_eq!(osu_version_name("2.1.0"), "2.1.0-osu");
    assert_eq!(osu_version_name("2.1.0-osu"), "2.1.0-osu");
    assert_eq!(osu_version_name(""), "-osu");
    assert_eq!(osu_version_name("osu"), "osu-osu");
}

#[test]
fn firmware_error_messages() {
    assert_eq!(FirmwareUpdateError::AlreadyUpToDate.message(), "Firmware is already up to date");
    assert_eq!(FirmwareUpdateError::DeviceNotOnDashboard.message(), "Device must be on dashboard to start update");
    assert_eq!(FirmwareUpdateError::DeviceNotInOsuMode.message(), "Device must be in OSU mode to install final firmware");
    assert_eq!(
        FirmwareUpdateError::DeviceNotOnboarded.message(),
        "Device is not onboarded. Please complete device setup first."
    );
    assert_eq!(FirmwareUpdateError::NotEnoughSpace.message(), "Not enough space on device. Please uninstall some apps.");
    assert_eq!(FirmwareUpdateError::UserRefused.message(), "Update was cancelled on the device");
    assert_eq!(FirmwareUpdateError::TooManyMcuIterations.message(), "MCU flash failed after 5 attempts");
    assert_eq!(FirmwareUpdateError::DeviceDisconnected.message(), "Device disconnected during update");
    assert_eq!(FirmwareUpdateError::ApiError("HTTP 500: x".to_string()).message(), "API error: HTTP 500: x");
    assert_eq!(FirmwareUpdateError::WebSocketError("w".to_string()).message(), "WebSocket error: w");
    assert_eq!(FirmwareUpdateError::UnknownMcu.message(), "Unknown or incompatible MCU version");
    assert_eq!(FirmwareUpdateError::NoUpdateAvailable.message(), "No firmware update available for this device");
    assert_eq!(FirmwareUpdateError::Other("plain".to_string()).message(), "plain");
    assert_eq!(MAX_MCU_ITERATIONS, 5);
}

#[test]
fn firmware_status_words() {
    assert!(matches!(err_of(check_firmware_status(0x6985)), FirmwareUpdateError::UserRefused));
    assert!(matches!(err_of(check_firmware_status(0x5501)), FirmwareUpdateError::UserRefused));
    assert!(matches!(err_of(check_firmware_status(0x6a84)), FirmwareUpdateError::NotEnoughSpace));
    assert!(matches!(err_of(check_firmware_status(0x5103)), FirmwareUpdateError::NotEnoughSpace));
    assert!(matches!(err_of(check_firmware_status(0x6d07)), FirmwareUpdateError::DeviceNotOnboarded));
    assert!(matches!(err_of(check_firmware_status(0x6611)), FirmwareUpdateError::DeviceNotOnboarded));
    assert!(check_firmware_status(0x9000).is_ok());
    assert!(check_firmware_status(0x6a80).is_ok());
}

#[test]
fn genuine_check_url_value() {
    assert_eq!(
        genuine_check_url(0x33000004, "perso_11"),
        "wss://scriptrunner.api.live.ledger.com/update/genuine?&targetId=855638020&perso=perso_11"
    );
}

#[test]
fn install_app_url_escapes_values() {
    let app = BitcoinAppInfo {
        version_name: "Bitcoin".to_string(),
        version_id: 1,
        version: "2.1.3".to_string(),
        perso: "perso 11".to_string(),
        delete_key: "nanox/2.2.0/bitcoin/app_2.1.3_del_key".to_string(),
        firmware: "nanox/2.2.0/bitcoin/app_2.1.3".to_string(),
        firmware_key: "k&y=*~".to_string(),
        hash: "abc+def".to_string(),
    };
    assert_eq!(
        install_app_url(0x33000004, &app),
        "wss://scriptrunner.api.live.ledger.com/update/install?&targetId=855638020&perso=perso+11\
&deleteKey=nanox%2F2.2.0%2Fbitcoin%2Fapp_2.1.3_del_key&firmware=nanox%2F2.2.0%2Fbitcoin%2Fapp_2.1.3\
&firmwareKey=k%26y%3D*%7E&hash=abc%2Bdef"
    );
}

#[test]
fn firmware_session_urls() {
    assert_eq!(
        osu_install_url(0x33000004, &osu()),
        "wss://scriptrunner.api.live.ledger.com/update/install?&targetId=855638020\
&firmware=nanox%2F2.2.0%2Fupgrade_osu&firmwareKey=nanox%2F2.2.0%2Fupgrade_osu_key&perso=perso_11\
&livecommonversion=34.0.0"
    );
    assert_eq!(
        final_install_url(0x33000004, &final_firmware()),
        "wss://scriptrunner.api.live.ledger.com/update/install?&targetId=855638020\
&firmware=nanox%2F2.2.0%2Ffw&firmwareKey=nanox%2F2.2.0%2Ffw_key&perso=perso_11&livecommonversion=34.0.0"
    );
    assert_eq!(
        mcu_flash_url(0x01000003, "2.30"),
        "wss://scriptrunner.api.live.ledger.com/update/mcu?&targetId=16777219&version=2.30&livecommonversion=34.0.0"
    );
}

#[test]
fn api_urls() {
    assert_eq!(
        device_version_url(0x33000004),
        "https://manager.api.live.ledger.com/api/get_device_version?livecommonversion=34.0.0&provider=1&target_id=855638020"
    );
    assert_eq!(
        latest_firmware_url("abcdef", 42, -3),
        "https://manager.api.live.ledger.com/api/get_latest_firmware?livecommonversion=34.0.0&salt=abcdef\
&current_se_firmware_final_version=42&device_version=-3&provider=1"
    );
    assert_eq!(
        osu_firmware_url(17, "2.2.0"),
        "https://manager.api.live.ledger.com/api/get_osu_version?livecommonversion=34.0.0&device_version=17\
&version_name=2.2.0-osu&provider=1"
    );
    assert_eq!(
        final_firmware_url(42),
        "https://manager.api.live.ledger.com/api/firmware_final_versions/42?livecommonversion=34.0.0"
    );
    assert_eq!(mcu_versions_url(), "https://manager.api.live.ledger.com/api/mcu_versions?livecommonversion=34.0.0");
    assert_eq!(
        current_firmware_version_url(17, "2.1.0"),
        "https://manager.api.live.ledger.com/api/get_firmware_version?livecommonversion=34.0.0&device_version=17\
&version_name=2.1.0&provider=1"
    );
}

#[test]
fn legacy_repair_picks_highest_flashable_mcu() {
    let mcus = vec![
        mcu(1, "2.12", "1.4", vec![]),
        mcu(2, "2.30", "1.16.0", vec![]),
        mcu(3, "3.0", "none", vec![]),
        mcu(4, "2.8", "0.9", vec![]),
    ];
    assert_eq!(find_mcu_for_repair(&device("1.16.1", true), &mcus).ok(), Some("3.0".to_string()));
    assert_eq!(find_mcu_for_repair(&device("0.9", true), &mcus).ok(), Some("3.0".to_string()));
}

#[test]
fn legacy_repair_falls_back_on_higher_version() {
    let mcus = vec![mcu(1, "0.4", "0.1", vec![]), mcu(2, "2.12", "1.4", vec![]), mcu(3, "2.30", "1.16", vec![])];
    assert_eq!(find_mcu_for_repair(&device("0.5", true), &mcus).ok(), Some("2.12".to_string()));
    assert_eq!(find_mcu_for_repair(&device("2.13", true), &mcus).ok(), Some("2.30".to_string()));
}

#[test]
fn legacy_repair_without_candidate() {
    let mcus = vec![mcu(1, "2.12", "1.4", vec![])];
    match err_of(find_mcu_for_repair(&device("9.9", true), &mcus)) {
        FirmwareUpdateError::Other(m) => assert_eq!(m, "No compatible MCU found for bootloader version 9.9"),
        _ => panic!("expected Other"),
    }
}

#[test]
fn escaped_values_stay_in_their_parameter() {
    assert_eq!(
        genuine_check_url(1, "a&b=c#d?e f"),
        "wss://scriptrunner.api.live.ledger.com/update/genuine?&targetId=1&perso=a%26b%3Dc%23d%3Fe+f"
    );
}
