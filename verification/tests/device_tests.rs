use ledger_manager::device::{
    bitcoin_app_installed, is_bitcoin_app, is_bitcoin_app_installed, list_installed_apps_page, list_installed_apps_step,
    lowercase_bitcoin_app_name, parse_installed_apps, parse_version_info, DeviceInfo,
    InstalledApp, ListAppsStep,
};
use ledger_manager::error::{DeviceError, StatusCode};

/// A get-version answer of a device running its OS.
fn os_answer() -> Vec<u8> {
    let mut d = vec![0x33, 0x00, 0x00, 0x04];
    d.push(5);
    d.extend_from_slice(b"2.1.0");
    d.push(2);
    d.extend_from_slice(&[0xaa, 0xbb]);
    d.push(5);
    d.extend_from_slice(b"2.30\0");
    d
}

/// A get-version answer of a device in bootloader mode, with a 4-byte SE target id.
fn bootloader_answer() -> Vec<u8> {
    let mut d = vec![0x01, 0x00, 0x00, 0x03];
    d.push(3);
    d.extend_from_slice(b"1.6");
    d.push(0);
    d.push(4);
    d.extend_from_slice(&[0x33, 0x00, 0x00, 0x04]);
    d
}

/// One record of the list of installed apps.
fn app_record(name: &[u8], hash_byte: u8) -> Vec<u8> {
    let mut r = vec![(name.len() + 70) as u8, 0x00, 0x10, 0x08, 0x00];
    r.extend(std::iter::repeat(0x11).take(32));
    r.extend(std::iter::repeat(hash_byte).take(32));
    r.push(name.len() as u8);
    r.extend_from_slice(name);
    r
}

fn app(name: &str) -> InstalledApp {
    InstalledApp { name: name.to_string(), hash: vec![1, 2, 3], hash_code_data: vec![], blocks: 1, flags: 0 }
}

#[test]
fn device_info_os_mode() {
    let info = match DeviceInfo::new(0x9000, &os_answer()) {
        Ok(i) => i,
        Err(_) => panic!("a valid answer"),
    };
    assert_eq!(info.target_id, 0x33000004);
    assert_eq!(info.version, "2.1.0");
    assert_eq!(info.flags, vec![0xaa, 0xbb]);
    assert!(!info.is_bootloader);
    assert_eq!(info.se_version, Some("2.1.0".to_string()));
    assert_eq!(info.se_target_id, 0x33000004);
    assert_eq!(info.mcu_version, Some("2.30".to_string()));
}

#[test]
fn device_info_bootloader_mode() {
    let info = match DeviceInfo::new(0x9000, &bootloader_answer()) {
        Ok(i) => i,
        Err(_) => panic!("a valid answer"),
    };
    assert_eq!(info.target_id, 0x01000003);
    assert_eq!(info.version, "1.6");
    assert!(info.flags.is_empty());
    assert!(info.is_bootloader);
    assert_eq!(info.se_version, None);
    assert_eq!(info.se_target_id, 0x33000004);
    assert_eq!(info.mcu_version, None);
}

#[test]
fn device_info_bootloader_with_se_version() {
    let mut d = vec![0x01, 0x00, 0x00, 0x03, 3];
    d.extend_from_slice(b"1.6");
    d.push(0);
    d.push(5);
    d.extend_from_slice(b"2.0.2");
    d.push(4);
    d.extend_from_slice(&[0x33, 0x10, 0x00, 0x04]);
    let info = match DeviceInfo::new(0x9000, &d) {
        Ok(i) => i,
        Err(_) => panic!("a valid answer"),
    };
    assert!(info.is_bootloader);
    assert_eq!(info.se_version, Some("2.0.2".to_string()));
    assert_eq!(info.se_target_id, 0x33100004);
}

fn error_of(r: Result<DeviceInfo, String>) -> String {
    match r {
        Ok(_) => panic!("expected an error"),
        Err(e) => e,
    }
}

#[test]
fn device_info_status_errors() {
    assert_eq!(error_of(DeviceInfo::new(0x5515, &[])), "Device is locked.");
    assert_eq!(error_of(DeviceInfo::new(0x6e00, &[])), "Device isn't ready. Return code: 28160.");
    assert_eq!(error_of(DeviceInfo::new(0x6d00, &os_answer())), "Device isn't ready. Return code: 27904.");
    assert!(matches!(DeviceInfo::from_version_answer(0x5515, &[]), Err(DeviceError::Locked)));
    assert!(matches!(DeviceInfo::from_version_answer(0x6e00, &[]), Err(DeviceError::NotReady(0x6e00))));
    assert_eq!(StatusCode::LockedDevice.code(), 0x5515);
    assert_eq!(StatusCode::OK.code(), 0x9000);
}

#[test]
fn device_info_insufficient_data() {
    assert_eq!(error_of(DeviceInfo::new(0x9000, &[0x33, 0, 0])), "Not enough data");
    let mut cut = os_answer();
    cut.truncate(8);
    assert!(matches!(DeviceInfo::from_version_answer(0x9000, &cut), Err(DeviceError::InsufficientData)));
    let mut no_mcu = os_answer();
    no_mcu.truncate(13);
    assert!(matches!(DeviceInfo::from_version_answer(0x9000, &no_mcu), Err(DeviceError::InsufficientData)));
    assert_eq!(error_of(DeviceInfo::new(0x9000, &no_mcu)), "Not enough data");
}

#[test]
fn device_info_empty_mcu_version() {
    let mut empty_mcu = os_answer();
    empty_mcu.truncate(13);
    empty_mcu.push(0);
    match DeviceInfo::from_version_answer(0x9000, &empty_mcu) {
        Err(DeviceError::InvalidFormat(m)) => assert_eq!(m, "Empty MCU version"),
        _ => panic!("expected an invalid format"),
    }
    assert_eq!(error_of(DeviceInfo::new(0x9000, &empty_mcu)), "Empty MCU version");
}

#[test]
fn device_info_invalid_utf8() {
    let d = vec![0x33, 0, 0, 4, 2, 0xff, 0xfe, 0, 1, b'1'];
    match DeviceInfo::from_version_answer(0x9000, &d) {
        Err(DeviceError::InvalidUtf8(m)) => assert_eq!(m, "invalid utf-8 sequence of 1 bytes from index 0"),
        _ => panic!("expected invalid UTF-8"),
    }
    assert_eq!(error_of(DeviceInfo::new(0x9000, &d)), "invalid utf-8 sequence of 1 bytes from index 0");
}

#[test]
fn device_info_invalid_se_target_length() {
    let d = vec![0x01, 0, 0, 3, 1, b'1', 0, 3, 1, 2, 3];
    match DeviceInfo::from_version_answer(0x9000, &d) {
        Err(DeviceError::InvalidFormat(m)) => assert_eq!(m, "Invalid SE target ID length"),
        _ => panic!("expected an invalid format"),
    }
    assert_eq!(error_of(DeviceInfo::new(0x9000, &d)), "Invalid SE target ID length");
}

#[test]
fn device_error_messages() {
    assert_eq!(DeviceError::Locked.message(), "device is locked");
    assert_eq!(DeviceError::NotReady(0x6e00).message(), "device not ready: status code 0x6e00");
    assert_eq!(DeviceError::InsufficientData.message(), "insufficient data in response");
    assert_eq!(DeviceError::InvalidUtf8("e".to_string()).message(), "invalid UTF-8 in device response");
    assert_eq!(DeviceError::InvalidFormat("x".to_string()).message(), "invalid data format: x");
}

#[test]
fn device_error_read_messages() {
    assert_eq!(DeviceError::Locked.read_message(), "Device is locked.");
    assert_eq!(DeviceError::NotReady(0x6985).read_message(), "Device isn't ready. Return code: 27013.");
    assert_eq!(DeviceError::InsufficientData.read_message(), "Not enough data");
    assert_eq!(DeviceError::InvalidUtf8("e".to_string()).read_message(), "e");
    assert_eq!(DeviceError::InvalidFormat("x".to_string()).read_message(), "x");
}

#[test]
fn parse_version_info_full() {
    assert_eq!(
        parse_version_info(&os_answer()),
        Some((0x33000004, "2.1.0".to_string(), Some("2.30".to_string())))
    );
}

#[test]
fn parse_version_info_lenient() {
    assert_eq!(parse_version_info(&[1, 2, 3]), None);
    let mut d = os_answer();
    d.truncate(11);
    assert_eq!(parse_version_info(&d), Some((0x33000004, "2.1.0".to_string(), None)));
    let mut cut_mcu = os_answer();
    cut_mcu.truncate(15);
    assert_eq!(parse_version_info(&cut_mcu), Some((0x33000004, "2.1.0".to_string(), None)));
    assert_eq!(parse_version_info(&[0, 0, 0, 1, 2, 0xff, 0xff, 0]), None);
}

#[test]
fn parse_installed_apps_records() {
    let mut page = vec![0x01];
    page.extend(app_record(b"Bitcoin", 0xab));
    page.extend(app_record(&[0xff, 0xfe], 0xcd));
    page.extend(app_record(b"Ethereum", 0xef));
    let apps = parse_installed_apps(&page);
    assert_eq!(apps.len(), 2);
    assert_eq!(apps[0].0, "Bitcoin");
    assert_eq!(apps[0].1, vec![0xab; 32]);
    assert_eq!(apps[1].0, "Ethereum");
    assert_eq!(apps[1].1, vec![0xef; 32]);
}

#[test]
fn parse_installed_apps_rejects_page() {
    assert!(parse_installed_apps(&[]).is_empty());
    let mut page = vec![0x02];
    page.extend(app_record(b"Bitcoin", 0xab));
    assert!(parse_installed_apps(&page).is_empty());
    let mut bad_len = vec![0x01];
    let mut r = app_record(b"Bitcoin", 0xab);
    r[0] = 10;
    bad_len.extend(r);
    assert!(parse_installed_apps(&bad_len).is_empty());
}

#[test]
fn list_installed_apps_page_records() {
    let mut page = vec![0x01];
    page.extend(app_record(b"Bitcoin Test", 0x42));
    let apps = match list_installed_apps_page(&page) {
        Ok(a) => a,
        Err(_) => panic!("a valid page"),
    };
    assert_eq!(apps.len(), 1);
    assert_eq!(apps[0].name, "Bitcoin Test");
    assert_eq!(apps[0].hash, vec![0x42; 32]);
    assert_eq!(apps[0].hash_code_data, vec![0x11; 32]);
    assert_eq!(apps[0].blocks, 0x0010);
    assert_eq!(apps[0].flags, 0x0800);
}

#[test]
fn list_installed_apps_page_errors() {
    let mut bad_len = vec![0x01];
    let mut r = app_record(b"Bitcoin", 0xab);
    r[0] = 10;
    bad_len.extend(r);
    match list_installed_apps_page(&bad_len) {
        Err(DeviceError::InvalidFormat(m)) => assert_eq!(m, "Invalid listApps length data."),
        _ => panic!("expected an invalid format"),
    }
    let mut cut = vec![0x01];
    cut.extend(app_record(b"Bitcoin", 0xab));
    cut.truncate(40);
    assert!(matches!(list_installed_apps_page(&cut), Err(DeviceError::InsufficientData)));
    let mut bad_name = vec![0x01];
    bad_name.extend(app_record(&[0xc3], 0xab));
    match list_installed_apps_page(&bad_name) {
        Err(DeviceError::InvalidUtf8(m)) => assert_eq!(m, "incomplete utf-8 byte sequence from index 0"),
        _ => panic!("expected invalid UTF-8"),
    }
}

#[test]
fn list_installed_apps_page_must_start_with_one() {
    let mut page = vec![0x02];
    page.extend(app_record(b"Bitcoin", 0xab));
    match list_installed_apps_page(&page) {
        Err(DeviceError::InvalidFormat(m)) => assert_eq!(m, "Invalid listApps data: the page does not start with 0x01."),
        _ => panic!("expected an invalid format"),
    }
    assert!(matches!(list_installed_apps_step(vec![app("Bitcoin")], &page), ListAppsStep::Failed(DeviceError::InvalidFormat(_))));
    assert!(matches!(list_installed_apps_page(&[]), Ok(v) if v.is_empty()));
}

#[test]
fn list_installed_apps_pages_accumulate() {
    let mut page = vec![0x01];
    page.extend(app_record(b"Ethereum", 0x01));
    let listed = match list_installed_apps_step(vec![app("Bitcoin")], &page) {
        ListAppsStep::Continue(v) => v,
        _ => panic!("a page with apps continues the list"),
    };
    assert_eq!(listed.len(), 2);
    assert_eq!(listed[0].name, "Bitcoin");
    assert_eq!(listed[1].name, "Ethereum");
    match list_installed_apps_step(listed, &[]) {
        ListAppsStep::Done(v) => assert_eq!(v.len(), 2),
        _ => panic!("an empty page ends the list"),
    }
}

#[test]
fn list_installed_apps_step_failure() {
    let mut page = vec![0x01];
    page.extend(app_record(b"Bitcoin", 0xab));
    page.truncate(30);
    assert!(matches!(list_installed_apps_step(vec![], &page), ListAppsStep::Failed(DeviceError::InsufficientData)));
}

#[test]
fn bitcoin_app_installed_first_match_any_case() {
    let apps = vec![app("Ethereum"), app("BITCOIN"), app("Bitcoin"), app("Bitcoin Test")];
    let found = bitcoin_app_installed(apps, false);
    assert_eq!(found.map(|a| a.name), Some("BITCOIN".to_string()));
    let apps = vec![app("Ethereum"), app("bitcoin"), app("bitcoin TEST")];
    let found = bitcoin_app_installed(apps, true);
    assert_eq!(found.map(|a| a.name), Some("bitcoin TEST".to_string()));
}

#[test]
fn bitcoin_app_not_installed() {
    assert!(bitcoin_app_installed(vec![app("Ethereum"), app("Bitcoin Test")], false).is_none());
    assert!(!is_bitcoin_app_installed(vec![app("Bitcoin")], true));
    assert!(is_bitcoin_app_installed(vec![app("Ethereum"), app("Bitcoin")], false));
    assert!(!is_bitcoin_app_installed(vec![], false));
}

#[test]
fn bitcoin_app_names() {
    assert_eq!(lowercase_bitcoin_app_name(false), "bitcoin");
    assert_eq!(lowercase_bitcoin_app_name(true), "bitcoin test");
    assert!(is_bitcoin_app(&"BitCoin".to_string(), false));
    assert!(!is_bitcoin_app(&"Bitcoin".to_string(), true));
    assert!(!is_bitcoin_app(&"Bitcoin Cash".to_string(), false));
}

#[test]
fn page_readers_agree_on_valid_page() {
    let mut page = vec![0x01];
    page.extend(app_record(b"Bitcoin", 0x21));
    page.extend(app_record(b"Ethereum", 0x22));
    let strict = match list_installed_apps_page(&page) {
        Ok(a) => a,
        Err(_) => panic!("a valid page"),
    };
    let lenient = parse_installed_apps(&page);
    let strict_pairs: Vec<(String, Vec<u8>)> = strict.into_iter().map(|a| (a.name, a.hash)).collect();
    assert_eq!(strict_pairs, lenient);
}

#[test]
fn version_readers_agree_on_os_answer() {
    let info = match DeviceInfo::new(0x9000, &os_answer()) {
        Ok(i) => i,
        Err(_) => panic!("a valid answer"),
    };
    assert_eq!(parse_version_info(&os_answer()), Some((info.target_id, info.version, info.mcu_version)));
}
