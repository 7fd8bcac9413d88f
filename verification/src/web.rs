//! The decisions of the browser front end, which talks to the device over WebHID: what
//! it asks next and what it answers, given what its requests returned.
//!
//! The front end keeps the device's information between operations (a
//! [`StoredDeviceInfo`]); each operation checks that a device is connected and that
//! information is there, then goes through its requests.
use vstd::prelude::*;
use vstd::string::StringExecFns;
use vstd::utf8::encode_utf8;
use crate::apps::{app_named, app_update_info_is, check_bitcoin_app_update, AppUpdateInfo, BitcoinAppInfo};
use crate::device::{name_hash_view, installed_apps_spec, opt_chars, parse_installed_apps, parse_version_info, version_info_spec};
use crate::hexcodec::{hex_encode, hex_encode_spec};
use crate::hsm::{command_error_message, command_error_text, HsmFailure};
use crate::firmware::FinalFirmware;
use crate::constants::BASE_SOCKET_URL;
use crate::operations::{app_display_name, concat2, concat3, display_name, text_result};
use crate::text::{decimal, decimal_int, hex_lower_fixed, is_lower_hex_digit, lemma_hex_lower_fixed_digits, lowercase, push_decimal, push_decimal_i64, push_hex_lower, str_eq, to_lowercase};
use crate::urls::{
    append_encoded_param, current_firmware_version_url, current_firmware_version_url_spec, device_version_url,
    device_version_url_spec, final_firmware_url, final_firmware_url_spec, latest_firmware_url, latest_firmware_url_spec,
    percent_encode,
};

verus! {

/// The outcome of an operation as the front end shows it.
pub struct OperationResult {
    pub success: bool,
    pub message: String,
}

/// What the front end keeps of the device once it read its information.
pub struct StoredDeviceInfo {
    pub target_id: u32,
    pub version: String,
    pub bitcoin_installed: bool,
    pub bitcoin_version: Option<String>,
    pub bitcoin_test_installed: bool,
    pub bitcoin_test_version: Option<String>,
}

/// Whether `r` is the outcome `success` with message `m`.
pub open spec fn outcome_is(r: OperationResult, success: bool, m: Seq<char>) -> bool {
    r.success == success && r.message@ == m
}

/// The outcome `success` with message `message`.
fn outcome(success: bool, message: String) -> (r: OperationResult)
    ensures
        outcome_is(r, success, message@),
{
    OperationResult { success, message }
}

/// The outcome of connecting to a device, `result` holding the failure's message.
pub fn connect_device(result: Result<(), String>) -> (r: OperationResult)
    ensures
        result is Ok ==> outcome_is(r, true, "Device connected successfully"@),
        result matches Err(e) ==> outcome_is(r, false, "Failed to connect: "@ + e@),
{
    match result {
        Ok(()) => outcome(true, "Device connected successfully".to_string()),
        Err(e) => outcome(false, concat2("Failed to connect: ", e.as_str())),
    }
}

/// The outcome of opening the Bitcoin app (the Bitcoin Test app when `is_testnet`):
/// `answer` is `None` when no device is connected, else the status word of the
/// device's answer or the failure of the exchange.
pub fn open_bitcoin_app(answer: Option<Result<u16, String>>, is_testnet: bool) -> (r: OperationResult)
    ensures
        answer is None ==> outcome_is(r, false, "Device not connected. Please connect first."@),
        answer matches Some(Ok(sw)) ==> if sw == 0x9000 {
            outcome_is(r, true, app_display_name(is_testnet) + " app opened successfully"@)
        } else {
            outcome_is(r, false, "Failed to open "@ + app_display_name(is_testnet) + " app. Error code: 0x"@
                + crate::text::hex_lower_fixed(sw as nat, 4))
        },
        answer matches Some(Err(e)) ==> outcome_is(r, false, "Failed to open "@ + app_display_name(is_testnet) + " app: "@ + e@),
{
    let name = display_name(is_testnet);
    match answer {
        None => outcome(false, "Device not connected. Please connect first.".to_string()),
        Some(Ok(sw)) => {
            if sw == 0x9000 {
                outcome(true, concat2(name, " app opened successfully"))
            } else {
                let mut m = concat3("Failed to open ", name, " app. Error code: 0x");
                crate::text::push_hex_lower(&mut m, sw as u64, 4);
                outcome(false, m)
            }
        },
        Some(Err(e)) => outcome(false, concat3("Failed to open ", name, " app: ").concat(e.as_str())),
    }
}

/// The message of an operation that needs a connected device.
pub open spec fn not_connected_message() -> Seq<char> {
    "Device not connected. Please connect and get device info first."@
}

/// The message of an operation that needs the device's information.
pub open spec fn no_device_info_message() -> Seq<char> {
    "Device info not available. Please get device info first."@
}

/// The percent-encoding of the text `s`.
pub open spec fn encoded(s: Seq<char>) -> Seq<char> {
    percent_encode(encode_utf8(s))
}

/// What an operation of the front end does next: finish with an outcome, or perform a
/// request.
pub enum WebStep {
    /// The operation is over, with this outcome.
    Finish(OperationResult),
    /// Ask the API for the firmware personalization of device `target_id` running
    /// firmware `version`.
    FetchPerso { target_id: u32, version: String },
    /// Ask the API for the catalog of apps of device `target_id` running firmware
    /// `version`.
    FetchCatalog { target_id: u32, version: String },
    /// Run the HSM session at `url`.
    RunSession { url: String },
}

/// Whether `step` finishes with outcome `success` and message `m`.
pub open spec fn finishes_with(step: WebStep, success: bool, m: Seq<char>) -> bool {
    step matches WebStep::Finish(r) && outcome_is(r, success, m)
}

/// The first step of an operation that needs a connected device and its information:
/// `None` when it can start, with the device's information.
fn check_ready(connected: bool, stored: &Option<StoredDeviceInfo>) -> (step: Option<WebStep>)
    ensures
        !connected ==> (step matches Some(s) && finishes_with(s, false, not_connected_message())),
        connected && stored is None ==> (step matches Some(s) && finishes_with(s, false, no_device_info_message())),
        connected && stored is Some ==> step is None,
{
    if !connected {
        Some(WebStep::Finish(outcome(false, "Device not connected. Please connect and get device info first.".to_string())))
    } else if stored.is_none() {
        Some(WebStep::Finish(outcome(false, "Device info not available. Please get device info first.".to_string())))
    } else {
        None
    }
}

/// URL of the genuine-check session of the front end.
pub open spec fn web_genuine_url(target_id: u32, perso: Seq<char>) -> Seq<char> {
    BASE_SOCKET_URL@ + "/genuine?targetId="@ + decimal(target_id as nat) + "&perso="@ + encoded(perso)
}

/// The first step of a genuine check: the device's firmware personalization.
pub fn genuine_check_begin(connected: bool, stored: &Option<StoredDeviceInfo>) -> (step: WebStep)
    ensures
        !connected ==> finishes_with(step, false, not_connected_message()),
        connected && stored is None ==> finishes_with(step, false, no_device_info_message()),
        stored matches Some(info) ==> (connected ==> (step matches WebStep::FetchPerso { target_id, version }
            && target_id == info.target_id && version@ == info.version@)),
{
    match check_ready(connected, stored) {
        Some(s) => s,
        None => match stored {
            Some(info) => WebStep::FetchPerso { target_id: info.target_id, version: info.version.clone() },
            None => WebStep::Finish(outcome(false, "Device info not available. Please get device info first.".to_string())),
        },
    }
}

/// The step of a genuine check once the personalization of device `target_id` is
/// known (or its request failed): the HSM session.
pub fn genuine_check_with_perso(perso: Result<String, String>, target_id: u32) -> (step: WebStep)
    ensures
        perso matches Err(e) ==> finishes_with(step, false, "Failed to get firmware info: "@ + e@),
        perso matches Ok(p) ==> step matches WebStep::RunSession { url } && url@ == web_genuine_url(target_id, p@),
{
    match perso {
        Err(e) => WebStep::Finish(outcome(false, concat2("Failed to get firmware info: ", e.as_str()))),
        Ok(p) => {
            let mut url = concat2(BASE_SOCKET_URL, "/genuine?targetId=");
            push_decimal(&mut url, target_id as u64);
            let ghost before = url@;
            append_encoded_param(&mut url, false, "perso", p.as_str());
            proof {
                reveal_strlit("perso");
                reveal_strlit("&perso=");
                assert(url@ =~= before + "&perso="@ + encoded(p@));
            }
            WebStep::RunSession { url }
        },
    }
}

/// The outcome of a genuine check whose session ended with `result`.
pub fn genuine_check_outcome(result: Result<(), String>) -> (r: OperationResult)
    ensures
        result is Ok ==> outcome_is(r, true, "Device is genuine!"@),
        result matches Err(e) ==> outcome_is(r, false, "Genuine check failed: "@ + e@),
{
    match result {
        Ok(()) => outcome(true, "Device is genuine!".to_string()),
        Err(e) => outcome(false, concat2("Genuine check failed: ", e.as_str())),
    }
}

/// Whether entry `k` is the first of `apps` named `name` (lowercased).
pub open spec fn is_first_named(apps: Seq<BitcoinAppInfo>, name: Seq<char>, k: int) -> bool {
    0 <= k < apps.len() && app_named(apps[k], name) && forall|j: int| 0 <= j < k ==> !#[trigger] app_named(apps[j], name)
}

/// The name, in lowercase, of the Bitcoin app (`"bitcoin test"` for the testnet one).
pub open spec fn lowercase_app_name(is_testnet: bool) -> Seq<char> {
    if is_testnet {
        "bitcoin test"@
    } else {
        "bitcoin"@
    }
}

/// The first entry of the catalog `apps` named as the Bitcoin app (the Bitcoin Test app
/// when `is_testnet`), whatever the case.
pub fn first_bitcoin_app(apps: Vec<BitcoinAppInfo>, is_testnet: bool) -> (res: Option<BitcoinAppInfo>)
    ensures
        res matches Some(a) ==> exists|k: int| #[trigger] is_first_named(apps@, lowercase_app_name(is_testnet), k) && a == apps@[k],
        res is None ==> forall|j: int| 0 <= j < apps@.len() ==> !#[trigger] app_named(apps@[j], lowercase_app_name(is_testnet)),
{
    let ghost name = lowercase_app_name(is_testnet);
    let mut k: usize = 0;
    let mut found = false;
    while k < apps.len()
        invariant_except_break
            !found,
        invariant
            name == lowercase_app_name(is_testnet),
            0 <= k <= apps@.len(),
            forall|j: int| 0 <= j < k ==> !#[trigger] app_named(apps@[j], name),
        ensures
            found ==> k < apps@.len() && is_first_named(apps@, name, k as int),
            !found ==> forall|j: int| 0 <= j < apps@.len() ==> !#[trigger] app_named(apps@[j], name),
        decreases apps@.len() - k,
    {
        let lower = to_lowercase(apps[k].version_name.as_str());
        let hit = if is_testnet { str_eq(&lower, "bitcoin test") } else { str_eq(&lower, "bitcoin") };
        if hit {
            found = true;
            break;
        }
        k = k + 1;
    }
    if found {
        let mut rest = apps;
        let a = rest.remove(k);
        Some(a)
    } else {
        None
    }
}

/// URL of the installation session of the front end for app `app` on device
/// `target_id`.
pub open spec fn web_install_url(target_id: u32, app: BitcoinAppInfo) -> Seq<char> {
    BASE_SOCKET_URL@ + "/install?targetId="@ + decimal(target_id as nat) + "&perso="@ + encoded(app.perso@)
        + "&deleteKey="@ + encoded(app.delete_key@) + "&firmware="@ + encoded(app.firmware@) + "&firmwareKey="@
        + encoded(app.firmware_key@) + "&hash="@ + encoded(app.hash@)
}

/// URL of the installation session of the front end (see [`web_install_url`]).
pub fn web_install_app_url(target_id: u32, app: &BitcoinAppInfo) -> (url: String)
    ensures
        url@ == web_install_url(target_id, *app),
{
    proof {
        reveal_strlit("perso");
        reveal_strlit("deleteKey");
        reveal_strlit("firmware");
        reveal_strlit("firmwareKey");
        reveal_strlit("hash");
        reveal_strlit("&perso=");
        reveal_strlit("&deleteKey=");
        reveal_strlit("&firmware=");
        reveal_strlit("&firmwareKey=");
        reveal_strlit("&hash=");
    }
    let mut url = concat2(BASE_SOCKET_URL, "/install?targetId=");
    push_decimal(&mut url, target_id as u64);
    append_encoded_param(&mut url, false, "perso", app.perso.as_str());
    append_encoded_param(&mut url, false, "deleteKey", app.delete_key.as_str());
    append_encoded_param(&mut url, false, "firmware", app.firmware.as_str());
    append_encoded_param(&mut url, false, "firmwareKey", app.firmware_key.as_str());
    append_encoded_param(&mut url, false, "hash", app.hash.as_str());
    url
}

/// The first step of installing the Bitcoin app (the Bitcoin Test app when
/// `is_testnet`): refuse when it is installed, else the catalog of apps.
pub fn install_bitcoin_app_begin(connected: bool, stored: &Option<StoredDeviceInfo>, is_testnet: bool) -> (step: WebStep)
    ensures
        !connected ==> finishes_with(step, false, not_connected_message()),
        connected && stored is None ==> finishes_with(step, false, no_device_info_message()),
        stored matches Some(info) ==> (connected ==> if (if is_testnet { info.bitcoin_test_installed } else { info.bitcoin_installed }) {
            finishes_with(step, false, app_display_name(is_testnet) + " app is already installed. Use update instead."@)
        } else {
            step matches WebStep::FetchCatalog { target_id, version } && target_id == info.target_id && version@ == info.version@
        }),
{
    match check_ready(connected, stored) {
        Some(s) => s,
        None => match stored {
            Some(info) => {
                let installed = if is_testnet { info.bitcoin_test_installed } else { info.bitcoin_installed };
                if installed {
                    let name = display_name(is_testnet);
                    WebStep::Finish(outcome(false, concat2(name, " app is already installed. Use update instead.")))
                } else {
                    WebStep::FetchCatalog { target_id: info.target_id, version: info.version.clone() }
                }
            },
            None => WebStep::Finish(outcome(false, "Device info not available. Please get device info first.".to_string())),
        },
    }
}

/// The message of a catalog without the Bitcoin app.
pub open spec fn app_not_found_message() -> Seq<char> {
    "Bitcoin app not found for this device"@
}

/// The latest app from a catalog request: the first entry named as the Bitcoin app (the
/// Bitcoin Test app when `is_testnet`), or the message of the failure.
fn catalog_app(catalog: Result<Vec<BitcoinAppInfo>, String>, is_testnet: bool) -> (res: Result<BitcoinAppInfo, String>)
    ensures
        catalog matches Err(e) ==> res matches Err(m) && m@ == e@,
        catalog matches Ok(apps) ==> match res {
            Ok(a) => exists|k: int| #[trigger] is_first_named(apps@, lowercase_app_name(is_testnet), k) && a == apps@[k],
            Err(m) => m@ == app_not_found_message()
                && forall|j: int| 0 <= j < apps@.len() ==> !#[trigger] app_named(apps@[j], lowercase_app_name(is_testnet)),
        },
{
    match catalog {
        Err(e) => Err(e),
        Ok(apps) => match first_bitcoin_app(apps, is_testnet) {
            Some(a) => Ok(a),
            None => Err("Bitcoin app not found for this device".to_string()),
        },
    }
}

/// The latest version of the Bitcoin app (the Bitcoin Test app when `is_testnet`) that a
/// catalog request gives: that of the catalog's first entry named as the app, or the
/// message of the failure.
pub open spec fn catalog_latest_version(catalog: Result<Vec<BitcoinAppInfo>, String>, is_testnet: bool) -> Result<Seq<char>, Seq<char>> {
    match catalog {
        Err(e) => Err(e@),
        Ok(apps) => if exists|j: int| 0 <= j < apps@.len() && #[trigger] app_named(apps@[j], lowercase_app_name(is_testnet)) {
            Ok(apps@[choose|k: int| is_first_named(apps@, lowercase_app_name(is_testnet), k)].version@)
        } else {
            Err(app_not_found_message())
        },
    }
}

/// What the stored device information tells of the Bitcoin app (the Bitcoin Test app
/// when `is_testnet`): whether it is installed, and which version.
pub open spec fn stored_app_state(stored: Option<StoredDeviceInfo>, is_testnet: bool) -> Option<(bool, Option<Seq<char>>)> {
    match stored {
        None => None,
        Some(info) => if is_testnet {
            Some((info.bitcoin_test_installed, opt_chars(info.bitcoin_test_version)))
        } else {
            Some((info.bitcoin_installed, opt_chars(info.bitcoin_version)))
        },
    }
}

/// Two entries that are both the first named `name` are the same.
proof fn lemma_first_named_unique(apps: Seq<BitcoinAppInfo>, name: Seq<char>, k: int, m: int)
    requires
        is_first_named(apps, name, k),
        is_first_named(apps, name, m),
    ensures
        k == m,
{
    if k < m {
        assert(!app_named(apps[k], name));
    } else if m < k {
        assert(!app_named(apps[m], name));
    }
}

/// The update state of the Bitcoin app (the Bitcoin Test app when `is_testnet`) for the
/// stored device information, once the catalog for the device is known (or its request
/// failed): the latest version is that of the catalog's first entry named as the app
/// (see [`app_update_info_is`]).
pub fn check_bitcoin_app_update_with_catalog(
    stored: &Option<StoredDeviceInfo>,
    catalog: Result<Vec<BitcoinAppInfo>, String>,
    is_testnet: bool,
) -> (info: AppUpdateInfo)
    ensures
        app_update_info_is(info, stored_app_state(*stored, is_testnet), catalog_latest_version(catalog, is_testnet), is_testnet),
{
    let device = match stored {
        None => None,
        Some(s) => if is_testnet {
            Some((s.bitcoin_test_installed, s.bitcoin_test_version.clone()))
        } else {
            Some((s.bitcoin_installed, s.bitcoin_version.clone()))
        },
    };
    let ghost cat = catalog;
    let latest = match catalog_app(catalog, is_testnet) {
        Ok(app) => {
            proof {
                if let Ok(apps) = cat {
                    let name = lowercase_app_name(is_testnet);
                    let k = choose|k: int| #[trigger] is_first_named(apps@, name, k) && app == apps@[k];
                    let c = choose|k: int| is_first_named(apps@, name, k);
                    lemma_first_named_unique(apps@, name, k, c);
                    assert(app_named(apps@[k], name));
                }
            }
            Ok(app.version)
        },
        Err(e) => Err(e),
    };
    assert(text_result(latest) == catalog_latest_version(cat, is_testnet));
    check_bitcoin_app_update(device, latest, is_testnet)
}

/// The step of installing the Bitcoin app once the catalog for device `target_id` is
/// known (or its request failed): the installation session of its first entry named
/// as the app.
pub fn install_bitcoin_app_with_catalog(catalog: Result<Vec<BitcoinAppInfo>, String>, target_id: u32, is_testnet: bool) -> (step: WebStep)
    ensures
        catalog matches Err(e) ==> finishes_with(step, false, "Failed to get "@ + app_display_name(is_testnet) + " app info: "@ + e@),
        catalog matches Ok(apps) ==> if exists|j: int| 0 <= j < apps@.len() && #[trigger] app_named(apps@[j], lowercase_app_name(is_testnet)) {
            exists|k: int| #[trigger] is_first_named(apps@, lowercase_app_name(is_testnet), k)
                && (step matches WebStep::RunSession { url } && url@ == web_install_url(target_id, apps@[k]))
        } else {
            finishes_with(step, false, "Failed to get "@ + app_display_name(is_testnet) + " app info: "@ + app_not_found_message())
        },
{
    let name = display_name(is_testnet);
    match catalog_app(catalog, is_testnet) {
        Err(e) => WebStep::Finish(outcome(false, concat3("Failed to get ", name, " app info: ").concat(e.as_str()))),
        Ok(app) => WebStep::RunSession { url: web_install_app_url(target_id, &app) },
    }
}

/// The outcome of installing the Bitcoin app whose session ended with `result`.
pub fn install_bitcoin_app_outcome(result: Result<(), String>, is_testnet: bool) -> (r: OperationResult)
    ensures
        result is Ok ==> outcome_is(r, true, app_display_name(is_testnet) + " app installed successfully!"@),
        result matches Err(e) ==> outcome_is(r, false, "Failed to install "@ + app_display_name(is_testnet) + " app: "@ + e@),
{
    let name = display_name(is_testnet);
    match result {
        Ok(()) => outcome(true, concat2(name, " app installed successfully!")),
        Err(e) => outcome(false, concat3("Failed to install ", name, " app: ").concat(e.as_str())),
    }
}

/// The first step of updating the Bitcoin app (the Bitcoin Test app when
/// `is_testnet`): refuse when it is not installed, else the catalog of apps.
pub fn update_bitcoin_app_begin(connected: bool, stored: &Option<StoredDeviceInfo>, is_testnet: bool) -> (step: WebStep)
    ensures
        !connected ==> finishes_with(step, false, not_connected_message()),
        connected && stored is None ==> finishes_with(step, false, no_device_info_message()),
        stored matches Some(info) ==> (connected ==> if !(if is_testnet { info.bitcoin_test_installed } else { info.bitcoin_installed }) {
            finishes_with(step, false, app_display_name(is_testnet) + " app is not installed. Use install instead."@)
        } else {
            step matches WebStep::FetchCatalog { target_id, version } && target_id == info.target_id && version@ == info.version@
        }),
{
    match check_ready(connected, stored) {
        Some(s) => s,
        None => match stored {
            Some(info) => {
                let installed = if is_testnet { info.bitcoin_test_installed } else { info.bitcoin_installed };
                if !installed {
                    let name = display_name(is_testnet);
                    WebStep::Finish(outcome(false, concat2(name, " app is not installed. Use install instead.")))
                } else {
                    WebStep::FetchCatalog { target_id: info.target_id, version: info.version.clone() }
                }
            },
            None => WebStep::Finish(outcome(false, "Device info not available. Please get device info first.".to_string())),
        },
    }
}

/// What updating the Bitcoin app does once the catalog is known.
pub enum WebUpdateStep {
    /// The update is over, with this outcome.
    Finish(OperationResult),
    /// Run the installation session at `url`, installing version `version`.
    RunSession { url: String, version: String },
}

/// Whether `step` is what updating the Bitcoin app does when the catalog's entry for it
/// is `app`: nothing when the installed version, `current_version`, is `app`'s; else
/// the installation session of `app` on device `target_id`.
pub open spec fn update_with_catalog_entry(step: WebUpdateStep, current_version: Option<String>, app: BitcoinAppInfo, target_id: u32, is_testnet: bool) -> bool {
    match current_version {
        Some(c) if c@ == app.version@ => step matches WebUpdateStep::Finish(r)
            && outcome_is(r, true, app_display_name(is_testnet) + " app is already at the latest version ("@ + c@ + ")"@),
        _ => step matches WebUpdateStep::RunSession { url, version } && url@ == web_install_url(target_id, app)
            && version@ == app.version@,
    }
}

/// The step of updating the Bitcoin app once the catalog for device `target_id` is
/// known (or its request failed): nothing when the installed version,
/// `current_version`, is the latest's; else the installation session of the first
/// entry named as the app.
pub fn update_bitcoin_app_with_catalog(
    catalog: Result<Vec<BitcoinAppInfo>, String>,
    target_id: u32,
    current_version: Option<String>,
    is_testnet: bool,
) -> (step: WebUpdateStep)
    ensures
        catalog matches Err(e) ==> step matches WebUpdateStep::Finish(r)
            && outcome_is(r, false, "Failed to get "@ + app_display_name(is_testnet) + " app info: "@ + e@),
        catalog matches Ok(apps) ==> if exists|j: int| 0 <= j < apps@.len() && #[trigger] app_named(apps@[j], lowercase_app_name(is_testnet)) {
            exists|k: int| #[trigger] is_first_named(apps@, lowercase_app_name(is_testnet), k)
                && update_with_catalog_entry(step, current_version, apps@[k], target_id, is_testnet)
        } else {
            step matches WebUpdateStep::Finish(r)
                && outcome_is(r, false, "Failed to get "@ + app_display_name(is_testnet) + " app info: "@ + app_not_found_message())
        },
{
    let name = display_name(is_testnet);
    match catalog_app(catalog, is_testnet) {
        Err(e) => WebUpdateStep::Finish(outcome(false, concat3("Failed to get ", name, " app info: ").concat(e.as_str()))),
        Ok(app) => {
            let latest = match &current_version {
                Some(c) => *c == app.version,
                None => false,
            };
            if latest {
                let c = match current_version {
                    Some(c) => c,
                    None => String::new(),
                };
                let m = concat3(name, " app is already at the latest version (", c.as_str()).concat(")");
                WebUpdateStep::Finish(outcome(true, m))
            } else {
                let url = web_install_app_url(target_id, &app);
                WebUpdateStep::RunSession { url, version: app.version }
            }
        },
    }
}

/// The outcome of updating the Bitcoin app to version `version`, whose session ended
/// with `result`.
pub fn update_bitcoin_app_outcome(result: Result<(), String>, version: &str, is_testnet: bool) -> (r: OperationResult)
    ensures
        result is Ok ==> outcome_is(r, true, app_display_name(is_testnet) + " app updated successfully to version "@ + version@ + "!"@),
        result matches Err(e) ==> outcome_is(r, false, "Failed to update "@ + app_display_name(is_testnet) + " app: "@ + e@),
{
    let name = display_name(is_testnet);
    match result {
        Ok(()) => outcome(true, concat3(name, " app updated successfully to version ", version).concat("!")),
        Err(e) => outcome(false, concat3("Failed to update ", name, " app: ").concat(e.as_str())),
    }
}

/// What the front end shows of the firmware update state.
pub struct FirmwareUpdateInfo {
    pub update_available: bool,
    pub current_version: Option<String>,
    pub target_version: Option<String>,
    pub message: String,
}

/// What checking for a firmware update does next.
pub enum FirmwareCheckStep {
    /// The check is over, with this answer.
    Finish(FirmwareUpdateInfo),
    /// GET `url` from the API.
    Fetch { url: String },
}

/// Whether `step` finishes with an answer of these fields.
pub open spec fn check_finishes_with(step: FirmwareCheckStep, update_available: bool, current: Option<Seq<char>>, target: Option<Seq<char>>, m: Seq<char>) -> bool {
    step matches FirmwareCheckStep::Finish(i) && i.update_available == update_available
        && opt_chars(i.current_version) == current && opt_chars(i.target_version) == target && i.message@ == m
}

/// Whether `step` fetches `url`.
pub open spec fn check_fetches(step: FirmwareCheckStep, url: Seq<char>) -> bool {
    step matches FirmwareCheckStep::Fetch { url: u } && u@ == url
}

/// The answer of a firmware check that ended early.
fn check_answer(update_available: bool, current: Option<String>, target: Option<String>, message: String) -> (step: FirmwareCheckStep)
    ensures
        check_finishes_with(step, update_available, opt_chars(current), opt_chars(target), message@),
{
    FirmwareCheckStep::Finish(FirmwareUpdateInfo { update_available, current_version: current, target_version: target, message })
}

/// The first step of checking for a firmware update: the device version of the device.
pub fn check_firmware_update_begin(stored: &Option<StoredDeviceInfo>) -> (step: FirmwareCheckStep)
    ensures
        stored is None ==> check_finishes_with(step, false, None, None, no_device_info_message()),
        stored matches Some(info) ==> check_fetches(step, device_version_url_spec(info.target_id)),
{
    match stored {
        None => check_answer(false, None, None, "Device info not available. Please get device info first.".to_string()),
        Some(info) => FirmwareCheckStep::Fetch { url: device_version_url(info.target_id) },
    }
}

/// The step of a firmware check once the device version id of the device, running
/// firmware `version`, is known (or its request failed).
pub fn check_firmware_update_with_device_version(device_version: Result<i64, String>, version: &str) -> (step: FirmwareCheckStep)
    ensures
        device_version matches Err(e) ==> check_finishes_with(step, false, Some(version@), None,
            "Failed to get device version from API: "@ + e@),
        device_version matches Ok(id) ==> check_fetches(step, current_firmware_version_url_spec(id, version@)),
{
    match device_version {
        Err(e) => check_answer(false, Some(version.to_string()), None, concat2("Failed to get device version from API: ", e.as_str())),
        Ok(id) => FirmwareCheckStep::Fetch { url: current_firmware_version_url(id, version) },
    }
}

/// The text whose bytes the browser front end hashes into a firmware salt, for the
/// time `ms` in milliseconds.
pub open spec fn web_salt_input(ms: nat) -> Seq<char> {
    decimal(ms) + "|firmwareSalt"@
}

/// The 32-bit hash of the first `n` bytes of `b`: starting from 0, each byte, times its
/// position plus one, is added, then the sum is multiplied by 31, all modulo 2^32.
pub open spec fn salt_hash(b: Seq<u8>, n: nat) -> nat
    decreases n,
{
    if n == 0 {
        0
    } else {
        let h = salt_hash(b, (n - 1) as nat);
        let t = (b[n - 1] as nat * ((((n - 1) as nat % 0x1_0000_0000) + 1) % 0x1_0000_0000)) % 0x1_0000_0000;
        (((h + t) % 0x1_0000_0000) * 31) % 0x1_0000_0000
    }
}

/// The pseudo-random firmware salt of the browser front end for the time `ms` in
/// milliseconds: the six lowest hexadecimal digits of the hash of `"{ms}|firmwareSalt"`.
pub open spec fn web_firmware_salt_spec(ms: nat) -> Seq<char> {
    let b = encode_utf8(web_salt_input(ms));
    hex_lower_fixed(salt_hash(b, b.len()) % 0x100_0000, 6)
}

/// The pseudo-random firmware salt of the browser front end for the time `now_ms` in
/// milliseconds (see [`web_firmware_salt_spec`]): six lowercase hexadecimal digits.
pub fn web_firmware_salt(now_ms: u64) -> (salt: String)
    ensures
        salt@ == web_firmware_salt_spec(now_ms as nat),
        salt@.len() == 6,
        forall|i: int| 0 <= i < 6 ==> is_lower_hex_digit(#[trigger] salt@[i]),
{
    let mut input = String::new();
    push_decimal(&mut input, now_ms);
    input.append("|firmwareSalt");
    assert(input@ =~= web_salt_input(now_ms as nat));
    let bytes = input.as_str().as_bytes();
    let mut hash: u64 = 0;
    let mut i: usize = 0;
    while i < bytes.len()
        invariant
            0 <= i <= bytes@.len(),
            hash < 0x1_0000_0000,
            hash as nat == salt_hash(bytes@, i as nat),
        decreases bytes@.len() - i,
    {
        let factor: u64 = ((i as u64 % 0x1_0000_0000) + 1) % 0x1_0000_0000;
        let b = bytes[i] as u64;
        assert(b * factor < 0x100_0000_0000) by (nonlinear_arith)
            requires
                b < 256,
                factor < 0x1_0000_0000,
        ;
        let t: u64 = (b * factor) % 0x1_0000_0000;
        hash = ((hash + t) % 0x1_0000_0000) * 31 % 0x1_0000_0000;
        i = i + 1;
    }
    let mut salt = String::new();
    push_hex_lower(&mut salt, hash % 0x100_0000, 6);
    proof {
        lemma_hex_lower_fixed_digits((hash % 0x100_0000) as nat, 6);
    }
    assert(salt@ =~= web_firmware_salt_spec(now_ms as nat));
    salt
}

/// The step of a firmware check once the id of the current firmware is known (or its
/// request failed); `now_ms` is the current time in milliseconds, from which the salt
/// of the request comes.
pub fn check_firmware_update_with_firmware_id(firmware_id: Result<i64, String>, device_version_id: i64, version: &str, now_ms: u64) -> (step: FirmwareCheckStep)
    ensures
        firmware_id matches Err(e) ==> check_finishes_with(step, false, Some(version@), None,
            "Failed to get current firmware version: "@ + e@),
        firmware_id matches Ok(id) ==> check_fetches(step, latest_firmware_url_spec(web_firmware_salt_spec(now_ms as nat), id, device_version_id)),
{
    match firmware_id {
        Err(e) => check_answer(false, Some(version.to_string()), None, concat2("Failed to get current firmware version: ", e.as_str())),
        Ok(id) => {
            let salt = web_firmware_salt(now_ms);
            FirmwareCheckStep::Fetch { url: latest_firmware_url(salt.as_str(), id, device_version_id) }
        },
    }
}

/// The step of a firmware check once the latest OSU is known, by the id of the final
/// firmware it leads to (or its request failed): an update exists when there is an
/// OSU leading to a positive id.
pub fn check_firmware_update_with_latest(next_final: Result<Option<i64>, String>, version: &str) -> (step: FirmwareCheckStep)
    ensures
        next_final matches Err(e) ==> check_finishes_with(step, false, Some(version@), None, "Failed to check for updates: "@ + e@),
        next_final matches Ok(n) ==> if n matches Some(id) && id > 0 {
            check_fetches(step, final_firmware_url_spec(n->0))
        } else {
            check_finishes_with(step, false, Some(version@), None, "Firmware is up to date ("@ + version@ + ")"@)
        },
{
    match next_final {
        Err(e) => check_answer(false, Some(version.to_string()), None, concat2("Failed to check for updates: ", e.as_str())),
        Ok(Some(id)) if id > 0 => FirmwareCheckStep::Fetch { url: final_firmware_url(id) },
        Ok(_) => check_answer(false, Some(version.to_string()), None, concat3("Firmware is up to date (", version, ")")),
    }
}

/// The name shown for final firmware `f`: its version, else its name, else `id:` and
/// its id.
pub open spec fn firmware_display_name(f: FinalFirmware) -> Seq<char> {
    if f.version@.len() > 0 {
        f.version@
    } else if f.name@.len() > 0 {
        f.name@
    } else {
        "id:"@ + decimal_int(f.id as int)
    }
}

/// The answer of a firmware check once the final firmware is known (or its request
/// failed): an update is available.
pub fn check_firmware_update_with_final(final_firmware: Result<FinalFirmware, String>, version: &str) -> (step: FirmwareCheckStep)
    ensures
        final_firmware matches Ok(f) ==> check_finishes_with(step, true, Some(version@), Some(firmware_display_name(f)),
            "Update available: "@ + version@ + " -> "@ + firmware_display_name(f)),
        final_firmware matches Err(e) ==> check_finishes_with(step, true, Some(version@), None,
            "Update available but failed to get details: "@ + e@),
{
    match final_firmware {
        Ok(f) => {
            let target = if f.version.as_str().unicode_len() > 0 {
                f.version.clone()
            } else if f.name.as_str().unicode_len() > 0 {
                f.name.clone()
            } else {
                let mut t = "id:".to_string();
                push_decimal_i64(&mut t, f.id);
                t
            };
            let m = concat3("Update available: ", version, " -> ").concat(target.as_str());
            check_answer(true, Some(version.to_string()), Some(target), m)
        },
        Err(e) => check_answer(true, Some(version.to_string()), None, concat2("Update available but failed to get details: ", e.as_str())),
    }
}

/// The device information the front end shows.
pub struct WebDeviceInfo {
    pub connected: bool,
    pub model: Option<String>,
    pub version: Option<String>,
    pub mcu_version: Option<String>,
    pub target_id: Option<u32>,
    pub bitcoin_installed: bool,
    pub bitcoin_version: Option<String>,
    pub bitcoin_test_installed: bool,
    pub bitcoin_test_version: Option<String>,
}

/// The device information shown when no device could be connected.
pub fn disconnected_device_info() -> (info: WebDeviceInfo)
    ensures
        !info.connected && info.model is None && info.version is None && info.mcu_version is None && info.target_id is None,
        !info.bitcoin_installed && info.bitcoin_version is None && !info.bitcoin_test_installed && info.bitcoin_test_version is None,
{
    WebDeviceInfo {
        connected: false,
        model: None,
        version: None,
        mcu_version: None,
        target_id: None,
        bitcoin_installed: false,
        bitcoin_version: None,
        bitcoin_test_installed: false,
        bitcoin_test_version: None,
    }
}

/// Status word and data of a device answer, by their values.
pub open spec fn answer_view(answer: Option<(u16, Vec<u8>)>) -> Option<(u16, Seq<u8>)> {
    match answer {
        Some((sw, d)) => Some((sw, d@)),
        None => None,
    }
}

/// Target id, version and MCU version that the front end reads from the answer to the
/// get-version command (`None` when the exchange failed): those of
/// [`crate::device::version_info_spec`] for a successful answer, else zero and empty.
pub open spec fn version_fields_spec(answer: Option<(u16, Seq<u8>)>) -> (u32, Seq<char>, Option<Seq<char>>) {
    match answer {
        Some((sw, d)) => if sw == 0x9000 {
            match version_info_spec(d) {
                Some(t) => t,
                None => (0u32, Seq::empty(), None),
            }
        } else {
            (0u32, Seq::empty(), None)
        },
        None => (0u32, Seq::empty(), None),
    }
}

/// Target id, version and MCU version from the answer to the get-version command (see
/// [`version_fields_spec`]).
pub fn version_fields(answer: Option<(u16, Vec<u8>)>) -> (res: (u32, String, Option<String>))
    ensures
        (res.0, res.1@, opt_chars(res.2)) == version_fields_spec(answer_view(answer)),
{
    match answer {
        Some((sw, d)) => {
            if sw == 0x9000 {
                match parse_version_info(d.as_slice()) {
                    Some(t) => t,
                    None => (0, String::new(), None),
                }
            } else {
                (0, String::new(), None)
            }
        },
        None => (0, String::new(), None),
    }
}

/// The characters and bytes of a list of `(name, hash)` pairs.
pub open spec fn pairs_of(apps: Seq<(String, Vec<u8>)>) -> Seq<(Seq<char>, Seq<u8>)> {
    apps.map_values(|p: (String, Vec<u8>)| name_hash_view(p))
}

/// Adds the applications of one answer of the list of installed apps (`None` when the
/// exchange failed) to `apps`; `first` for the answer to the list command, which counts
/// only when successful. The second result tells whether to ask for the next page: not
/// after a failure, nor after an empty continuation page.
pub fn add_apps_page(apps: Vec<(String, Vec<u8>)>, answer: Option<(u16, Vec<u8>)>, first: bool) -> (res: (Vec<(String, Vec<u8>)>, bool))
    ensures
        answer matches Some((sw, d)) ==> if (if first { sw == 0x9000 } else { d@.len() > 0 }) {
            pairs_of(res.0@) == pairs_of(apps@) + installed_apps_spec(d@) && res.1
        } else {
            res.0@ == apps@ && !res.1
        },
        answer is None ==> res.0@ == apps@ && !res.1,
{
    match answer {
        Some((sw, d)) => {
            let counts = if first { sw == 0x9000 } else { d.len() > 0 };
            if counts {
                let mut all = apps;
                let mut more = parse_installed_apps(d.as_slice());
                let ghost before = all@;
                let ghost added = more@;
                all.append(&mut more);
                assert(all@ == before + added);
                assert(pairs_of(all@) =~= pairs_of(before) + pairs_of(added));
                (all, true)
            } else {
                (apps, false)
            }
        },
        None => (apps, false),
    }
}

/// The hash of the first application of `apps`, from position `i` on, whose name is
/// `name` once lowercased.
pub open spec fn first_hash_from(apps: Seq<(Seq<char>, Seq<u8>)>, name: Seq<char>, i: int) -> Option<Seq<u8>>
    decreases apps.len() - i,
{
    if i < 0 || i >= apps.len() {
        None
    } else if lowercase(apps[i].0) == name {
        Some(apps[i].1)
    } else {
        first_hash_from(apps, name, i + 1)
    }
}

/// The bytes of an optional hash, as a sequence of zero or one hash.
pub open spec fn hash_list(h: Option<Seq<u8>>) -> Seq<Seq<u8>> {
    match h {
        Some(x) => seq![x],
        None => Seq::empty(),
    }
}

/// The hash of the first application of `apps` named `is_test`'s Bitcoin app, from
/// position `i` on (see [`first_hash_from`]).
fn first_hash(apps: &Vec<(String, Vec<u8>)>, is_test: bool) -> (res: Option<Vec<u8>>)
    ensures
        match res {
            Some(h) => first_hash_from(pairs_of(apps@), lowercase_app_name(is_test), 0) == Some(h@),
            None => first_hash_from(pairs_of(apps@), lowercase_app_name(is_test), 0) is None,
        },
{
    let ghost pv = pairs_of(apps@);
    let ghost name = lowercase_app_name(is_test);
    let mut i: usize = apps.len();
    let mut found: Option<Vec<u8>> = None;
    while i > 0
        invariant
            pv == pairs_of(apps@),
            name == lowercase_app_name(is_test),
            0 <= i <= apps@.len(),
            match found {
                Some(h) => first_hash_from(pv, name, i as int) == Some(h@),
                None => first_hash_from(pv, name, i as int) is None,
            },
        decreases i,
    {
        i = i - 1;
        let lower = to_lowercase(apps[i].0.as_str());
        let hit = if is_test { str_eq(&lower, "bitcoin test") } else { str_eq(&lower, "bitcoin") };
        if hit {
            found = Some(apps[i].1.clone());
        }
    }
    found
}

/// Which of the Bitcoin app and the Bitcoin Test app are among the installed apps
/// `apps`, and the hashes to look up in the API for their versions (in lowercase
/// hexadecimal): that of the first application named "bitcoin", then that of the first
/// named "bitcoin test", whatever the case.
pub fn bitcoin_apps_found(apps: &Vec<(String, Vec<u8>)>) -> (res: (bool, bool, Vec<String>))
    ensures
        res.0 == first_hash_from(pairs_of(apps@), "bitcoin"@, 0) is Some,
        res.1 == first_hash_from(pairs_of(apps@), "bitcoin test"@, 0) is Some,
        res.2@.map_values(|s: String| s@) == (hash_list(first_hash_from(pairs_of(apps@), "bitcoin"@, 0))
            + hash_list(first_hash_from(pairs_of(apps@), "bitcoin test"@, 0))).map_values(|h: Seq<u8>| hex_encode_spec(h)),
{
    let bitcoin = first_hash(apps, false);
    let test = first_hash(apps, true);
    let mut hashes: Vec<String> = Vec::new();
    let found_bitcoin = bitcoin.is_some();
    let found_test = test.is_some();
    match bitcoin {
        Some(h) => hashes.push(hex_encode(h.as_slice())),
        None => {},
    }
    match test {
        Some(h) => hashes.push(hex_encode(h.as_slice())),
        None => {},
    }
    assert(hashes@.map_values(|s: String| s@) =~= (hash_list(first_hash_from(pairs_of(apps@), "bitcoin"@, 0))
        + hash_list(first_hash_from(pairs_of(apps@), "bitcoin test"@, 0))).map_values(|h: Seq<u8>| hex_encode_spec(h)));
    (found_bitcoin, found_test, hashes)
}

/// The version of the last entry of `infos[..n]` named `name` once lowercased.
pub open spec fn last_version(infos: Seq<Option<BitcoinAppInfo>>, name: Seq<char>, n: int) -> Option<Seq<char>>
    decreases n,
{
    if n <= 0 || n > infos.len() {
        None
    } else {
        match infos[n - 1] {
            Some(a) => if lowercase(a.version_name@) == name {
                Some(a.version@)
            } else {
                last_version(infos, name, n - 1)
            },
            None => last_version(infos, name, n - 1),
        }
    }
}

/// The versions of the Bitcoin app and of the Bitcoin Test app in the API's answer to a
/// lookup by hashes: those of the last entries so named, whatever the case.
pub fn app_versions(infos: Vec<Option<BitcoinAppInfo>>) -> (res: (Option<String>, Option<String>))
    ensures
        opt_chars(res.0) == last_version(infos@, "bitcoin"@, infos@.len() as int),
        opt_chars(res.1) == last_version(infos@, "bitcoin test"@, infos@.len() as int),
{
    proof {
        reveal_strlit("bitcoin");
        reveal_strlit("bitcoin test");
        assert("bitcoin"@.len() != "bitcoin test"@.len());
    }
    let mut bitcoin: Option<String> = None;
    let mut test: Option<String> = None;
    let mut i: usize = 0;
    while i < infos.len()
        invariant
            0 <= i <= infos@.len(),
            "bitcoin"@ != "bitcoin test"@,
            opt_chars(bitcoin) == last_version(infos@, "bitcoin"@, i as int),
            opt_chars(test) == last_version(infos@, "bitcoin test"@, i as int),
        decreases infos@.len() - i,
    {
        match &infos[i] {
            Some(a) => {
                let lower = to_lowercase(a.version_name.as_str());
                if str_eq(&lower, "bitcoin") {
                    bitcoin = Some(a.version.clone());
                } else if str_eq(&lower, "bitcoin test") {
                    test = Some(a.version.clone());
                }
            },
            None => {},
        }
        i = i + 1;
    }
    (bitcoin, test)
}

/// The device information the front end shows, and what it keeps for later operations
/// (only when both the target id and the version are known), from what it read.
pub fn device_info_summary(
    target_id: u32,
    version: String,
    mcu_version: Option<String>,
    bitcoin_installed: bool,
    bitcoin_version: Option<String>,
    bitcoin_test_installed: bool,
    bitcoin_test_version: Option<String>,
) -> (res: (WebDeviceInfo, Option<StoredDeviceInfo>))
    ensures
        res.0.connected,
        opt_chars(res.0.model) == Some("Ledger"@),
        opt_chars(res.0.version) == (if version@.len() == 0 { None } else { Some(version@) }),
        opt_chars(res.0.mcu_version) == opt_chars(mcu_version),
        res.0.target_id == (if target_id == 0 { None } else { Some(target_id) }),
        res.0.bitcoin_installed == bitcoin_installed,
        opt_chars(res.0.bitcoin_version) == opt_chars(bitcoin_version),
        res.0.bitcoin_test_installed == bitcoin_test_installed,
        opt_chars(res.0.bitcoin_test_version) == opt_chars(bitcoin_test_version),
        res.1 is Some <==> target_id != 0 && version@.len() > 0,
        res.1 matches Some(s) ==> s.target_id == target_id && s.version@ == version@ && s.bitcoin_installed == bitcoin_installed
            && opt_chars(s.bitcoin_version) == opt_chars(bitcoin_version) && s.bitcoin_test_installed == bitcoin_test_installed
            && opt_chars(s.bitcoin_test_version) == opt_chars(bitcoin_test_version),
{
    let known = target_id != 0 && version.as_str().unicode_len() > 0;
    let stored = if known {
        Some(StoredDeviceInfo {
            target_id,
            version: version.clone(),
            bitcoin_installed,
            bitcoin_version: clone_opt(&bitcoin_version),
            bitcoin_test_installed,
            bitcoin_test_version: clone_opt(&bitcoin_test_version),
        })
    } else {
        None
    };
    let shown_version = if version.as_str().unicode_len() == 0 { None } else { Some(version) };
    let info = WebDeviceInfo {
        connected: true,
        model: Some("Ledger".to_string()),
        version: shown_version,
        mcu_version,
        target_id: if target_id != 0 { Some(target_id) } else { None },
        bitcoin_installed,
        bitcoin_version,
        bitcoin_test_installed,
        bitcoin_test_version,
    };
    (info, stored)
}

/// A copy of an optional string.
fn clone_opt(s: &Option<String>) -> (c: Option<String>)
    ensures
        opt_chars(c) == opt_chars(*s),
{
    match s {
        Some(t) => Some(t.clone()),
        None => None,
    }
}

/// The message with which an HSM session of the front end fails, the HSM's message
/// being `text`. The front end ignores unknown queries, so none fails for that.
pub open spec fn web_session_error_spec(failure: HsmFailure, text: Seq<char>) -> Seq<char> {
    match failure {
        HsmFailure::ExpectedSingleCommand => "Expected single command in exchange mode"@,
        HsmFailure::ExpectedCommandList => "Expected command list in bulk mode"@,
        HsmFailure::InvalidCommand(e) => command_error_text(e),
        _ => "HSM returned error: "@ + text,
    }
}

/// The message with which an HSM session of the front end fails (see
/// [`web_session_error_spec`]).
pub fn web_session_error(failure: HsmFailure, text: &str) -> (m: String)
    requires
        failure != HsmFailure::UnsupportedQuery,
    ensures
        m@ == web_session_error_spec(failure, text@),
{
    match failure {
        HsmFailure::ExpectedSingleCommand => "Expected single command in exchange mode".to_string(),
        HsmFailure::ExpectedCommandList => "Expected command list in bulk mode".to_string(),
        HsmFailure::InvalidCommand(e) => command_error_message(e),
        _ => concat2("HSM returned error: ", text),
    }
}

} // verus!
