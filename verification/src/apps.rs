//! The Bitcoin app: what the Ledger API says of it, and the decisions of installing it,
//! updating it and checking that the device is genuine.
//!
//! These flows alternate requests to the device, the API or the HSM with decisions;
//! the decisions stand here as step functions: each takes the stage reached and what
//! the last request returned, and gives the next stage and the next request. The
//! caller performs the requests.
use vstd::prelude::*;
use crate::device::{bitcoin_app_installed, is_bitcoin_app_installed, bitcoin_app_name, opt_chars, is_bitcoin_app_name, InstalledApp, DeviceInfo};
use crate::error::{InstallErr, UpdateErr};
use crate::operations::{app_display_name, concat2, concat3, concat5, display_name, text_result};
use crate::urls::{genuine_check_url, install_app_url, with_pairs};
use crate::constants::BASE_SOCKET_URL;
use crate::text::decimal;
use crate::hexcodec::{hex_encode, hex_encode_spec};
use vstd::string::StringExecFns;
use crate::text::{lowercase, to_lowercase, str_eq};

verus! {

/// Information about a Bitcoin application as queried from the Ledger API.
#[derive(Debug)]
pub struct BitcoinAppInfo {
    pub version_name: String,
    pub version_id: u32,
    pub version: String,
    pub perso: String,
    pub delete_key: String,
    pub firmware: String,
    pub firmware_key: String,
    pub hash: String,
}

/// Response of the `get_device_version` endpoint, as far as the genuine check reads it.
#[derive(Debug)]
pub struct DeviceVersion {
    pub id: i64,
}

/// Firmware information from the `get_firmware_version` endpoint.
#[derive(Debug)]
pub struct FirmwareInfo {
    pub perso: String,
}

/// Whether the API entry `app` is named `name` once lowercased.
pub open spec fn app_named(app: BitcoinAppInfo, name: Seq<char>) -> bool {
    lowercase(app.version_name@) == name
}

/// Whether entry `k` is the last of `apps` named `name` (lowercased).
pub open spec fn is_last_named(apps: Seq<BitcoinAppInfo>, name: Seq<char>, k: int) -> bool {
    0 <= k < apps.len() && app_named(apps[k], name) && forall|j: int| k < j < apps.len() ==> !#[trigger] app_named(apps[j], name)
}

/// What a lookup of the last entry named `name` gives: that entry, or `None` when no
/// entry has that name.
pub open spec fn last_named(apps: Seq<BitcoinAppInfo>, name: Seq<char>, res: Option<BitcoinAppInfo>) -> bool {
    match res {
        Some(a) => exists|k: int| #[trigger] is_last_named(apps, name, k) && a == apps[k],
        None => forall|j: int| 0 <= j < apps.len() ==> !#[trigger] app_named(apps[j], name),
    }
}

/// The latest Bitcoin app and Bitcoin Test app of the API's catalog for a device: the
/// last entries whose version name, lowercased, is "bitcoin" and "bitcoin test".
pub fn get_latest_apps(apps: Vec<BitcoinAppInfo>) -> (res: (Option<BitcoinAppInfo>, Option<BitcoinAppInfo>))
    ensures
        last_named(apps@, "bitcoin"@, res.0),
        last_named(apps@, "bitcoin test"@, res.1),
{
    proof {
        reveal_strlit("bitcoin");
        reveal_strlit("bitcoin test");
        assert("bitcoin"@.len() != "bitcoin test"@.len());
    }
    let ghost orig = apps@;
    let mut rest = apps;
    let mut bitcoin: Option<BitcoinAppInfo> = None;
    let mut test: Option<BitcoinAppInfo> = None;
    while rest.len() > 0
        invariant
            orig.len() >= rest@.len(),
            rest@ == orig.take(rest@.len() as int),
            "bitcoin"@ != "bitcoin test"@,
            match bitcoin {
                Some(a) => exists|k: int| #[trigger] is_last_named(orig, "bitcoin"@, k) && a == orig[k],
                None => forall|j: int| rest@.len() <= j < orig.len() ==> !#[trigger] app_named(orig[j], "bitcoin"@),
            },
            match test {
                Some(a) => exists|k: int| #[trigger] is_last_named(orig, "bitcoin test"@, k) && a == orig[k],
                None => forall|j: int| rest@.len() <= j < orig.len() ==> !#[trigger] app_named(orig[j], "bitcoin test"@),
            },
        decreases rest@.len(),
    {
        let ghost n = rest@.len() as int;
        let app = rest.pop().unwrap();
        assert(app == orig[n - 1]);
        assert(rest@ =~= orig.take(n - 1));
        let lower = to_lowercase(app.version_name.as_str());
        if str_eq(&lower, "bitcoin") {
            if bitcoin.is_none() {
                assert(is_last_named(orig, "bitcoin"@, n - 1));
                assert(exists|k: int| #[trigger] is_last_named(orig, "bitcoin"@, k) && app == orig[k]);
                bitcoin = Some(app);
            }
        } else if str_eq(&lower, "bitcoin test") {
            if test.is_none() {
                assert(is_last_named(orig, "bitcoin test"@, n - 1));
                assert(exists|k: int| #[trigger] is_last_named(orig, "bitcoin test"@, k) && app == orig[k]);
                test = Some(app);
            }
        }
    }
    (bitcoin, test)
}

/// The latest Bitcoin app (the Bitcoin Test app when `is_testnet`) of the API's catalog.
pub fn bitcoin_latest_app(apps: Vec<BitcoinAppInfo>, is_testnet: bool) -> (res: Option<BitcoinAppInfo>)
    ensures
        last_named(apps@, if is_testnet { "bitcoin test"@ } else { "bitcoin"@ }, res),
{
    let (bitcoin, test) = get_latest_apps(apps);
    if is_testnet {
        test
    } else {
        bitcoin
    }
}

/// The URL of the session installing `app` on device `target_id`.
pub open spec fn install_url_spec(target_id: u32, app: BitcoinAppInfo) -> Seq<char> {
    with_pairs(BASE_SOCKET_URL@ + "/install?"@, seq![
        ("targetId"@, decimal(target_id as nat)),
        ("perso"@, app.perso@),
        ("deleteKey"@, app.delete_key@),
        ("firmware"@, app.firmware@),
        ("firmwareKey"@, app.firmware_key@),
        ("hash"@, app.hash@),
    ])
}

/// Where the installation of the Bitcoin app stands.
pub enum InstallStage {
    /// Waiting for the list of installed apps.
    AwaitingAppList,
    /// Waiting for the device's information.
    AwaitingDeviceInfo,
    /// Waiting for the API's catalog of apps for device `target_id`.
    AwaitingCatalog { target_id: u32 },
    /// Waiting for the end of the installation session.
    AwaitingSession,
    /// Done.
    Finished,
}

/// What the last request of an installation returned (its error as a message).
pub enum InstallEvent {
    AppList(Result<Vec<InstalledApp>, String>),
    DeviceInfo(Result<DeviceInfo, String>),
    Catalog(Result<Vec<BitcoinAppInfo>, String>),
    SessionEnded(Result<(), String>),
}

/// The next request of an installation, or its outcome.
pub enum InstallAction {
    /// List the apps installed on the device.
    ListApps,
    /// Query the device's information.
    QueryDeviceInfo,
    /// Fetch the API's catalog of apps for a device and firmware version.
    FetchCatalog { target_id: u32, firmware_version: String },
    /// Run the HSM session at `url`.
    RunSession { url: String },
    /// The installation is over, with this outcome.
    Finish(Result<(), InstallErr>),
}

/// Whether `event` is the answer to the request that `stage` waits for.
pub open spec fn install_event_fits(stage: InstallStage, event: InstallEvent) -> bool {
    match (stage, event) {
        (InstallStage::AwaitingAppList, InstallEvent::AppList(_)) => true,
        (InstallStage::AwaitingDeviceInfo, InstallEvent::DeviceInfo(_)) => true,
        (InstallStage::AwaitingCatalog { .. }, InstallEvent::Catalog(_)) => true,
        (InstallStage::AwaitingSession, InstallEvent::SessionEnded(_)) => true,
        _ => false,
    }
}

/// Whether `action` finishes with an error carrying message `m`.
pub open spec fn install_fails_with_message(action: InstallAction, m: Seq<char>) -> bool {
    action matches InstallAction::Finish(Err(InstallErr::Any(e))) && e@ == m
}

/// Whether the Bitcoin app (the testnet one when `is_testnet`) is among `apps`.
pub open spec fn lists_bitcoin_app(apps: Seq<InstalledApp>, is_testnet: bool) -> bool {
    exists|j: int| 0 <= j < apps.len() && is_bitcoin_app_name(#[trigger] apps[j].name@, is_testnet)
}

/// Whether some entry of the catalog `apps` is named `name` once lowercased.
pub open spec fn catalog_has(apps: Seq<BitcoinAppInfo>, name: Seq<char>) -> bool {
    exists|j: int| 0 <= j < apps.len() && #[trigger] app_named(apps[j], name)
}

/// Whether `action` runs the session installing the last entry of `apps` named `name`
/// on device `target_id`.
pub open spec fn installs_latest(action: InstallAction, apps: Seq<BitcoinAppInfo>, name: Seq<char>, target_id: u32) -> bool {
    exists|k: int| #[trigger] is_last_named(apps, name, k)
        && (action matches InstallAction::RunSession { url } && url@ == install_url_spec(target_id, apps[k]))
}

/// The first request of the installation of the Bitcoin app: list the installed apps.
pub fn install_bitcoin_app_start() -> (res: (InstallStage, InstallAction))
    ensures
        res.0 is AwaitingAppList,
        res.1 is ListApps,
{
    (InstallStage::AwaitingAppList, InstallAction::ListApps)
}

/// One step of the installation of the Bitcoin app (the Bitcoin Test app when
/// `is_testnet`): refuse when it is installed already; find the latest app in the
/// catalog for the device's firmware, `AppNotFound` when there is none; install it
/// through an HSM session. Errors of the requests end the installation with their
/// message.
pub fn install_bitcoin_app_step(stage: InstallStage, event: InstallEvent, is_testnet: bool) -> (res: (InstallStage, InstallAction))
    requires
        install_event_fits(stage, event),
    ensures
        event matches InstallEvent::AppList(Err(e)) ==> res.0 is Finished && install_fails_with_message(res.1, e@),
        event matches InstallEvent::AppList(Ok(apps)) ==> (if lists_bitcoin_app(apps@, is_testnet) {
            res.0 is Finished && (res.1 matches InstallAction::Finish(Err(InstallErr::AlreadyInstalled)))
        } else {
            res.0 is AwaitingDeviceInfo && res.1 is QueryDeviceInfo
        }),
        event matches InstallEvent::DeviceInfo(Err(e)) ==> res.0 is Finished && install_fails_with_message(res.1, e@),
        event matches InstallEvent::DeviceInfo(Ok(info)) ==> res.0 == (InstallStage::AwaitingCatalog { target_id: info.target_id })
            && (res.1 matches InstallAction::FetchCatalog { target_id, firmware_version } && target_id == info.target_id
            && firmware_version@ == info.version@),
        event matches InstallEvent::Catalog(Err(e)) ==> res.0 is Finished && install_fails_with_message(res.1, e@),
        event matches InstallEvent::Catalog(Ok(apps)) ==> (if catalog_has(apps@, bitcoin_app_name(is_testnet)) {
            res.0 is AwaitingSession && installs_latest(res.1, apps@, bitcoin_app_name(is_testnet), stage->target_id)
        } else {
            res.0 is Finished && (res.1 matches InstallAction::Finish(Err(InstallErr::AppNotFound)))
        }),
        event matches InstallEvent::SessionEnded(Ok(_)) ==> res.0 is Finished && (res.1 matches InstallAction::Finish(Ok(()))),
        event matches InstallEvent::SessionEnded(Err(e)) ==> res.0 is Finished && install_fails_with_message(res.1, e@),
{
    match event {
        InstallEvent::AppList(Err(e)) => (InstallStage::Finished, InstallAction::Finish(Err(InstallErr::Any(e)))),
        InstallEvent::AppList(Ok(apps)) => {
            if is_bitcoin_app_installed(apps, is_testnet) {
                (InstallStage::Finished, InstallAction::Finish(Err(InstallErr::AlreadyInstalled)))
            } else {
                (InstallStage::AwaitingDeviceInfo, InstallAction::QueryDeviceInfo)
            }
        },
        InstallEvent::DeviceInfo(Err(e)) => (InstallStage::Finished, InstallAction::Finish(Err(InstallErr::Any(e)))),
        InstallEvent::DeviceInfo(Ok(info)) => (
            InstallStage::AwaitingCatalog { target_id: info.target_id },
            InstallAction::FetchCatalog { target_id: info.target_id, firmware_version: info.version },
        ),
        InstallEvent::Catalog(Err(e)) => (InstallStage::Finished, InstallAction::Finish(Err(InstallErr::Any(e)))),
        InstallEvent::Catalog(Ok(apps)) => {
            let target_id = match stage {
                InstallStage::AwaitingCatalog { target_id } => target_id,
                _ => 0,
            };
            match bitcoin_latest_app(apps, is_testnet) {
                None => (InstallStage::Finished, InstallAction::Finish(Err(InstallErr::AppNotFound))),
                Some(app) => {
                    let url = install_app_url(target_id, &app);
                    (InstallStage::AwaitingSession, InstallAction::RunSession { url })
                },
            }
        },
        InstallEvent::SessionEnded(Ok(())) => (InstallStage::Finished, InstallAction::Finish(Ok(()))),
        InstallEvent::SessionEnded(Err(e)) => (InstallStage::Finished, InstallAction::Finish(Err(InstallErr::Any(e)))),
    }
}

/// Where the update of the Bitcoin app stands.
pub enum UpdateStage {
    /// Waiting for the list of installed apps.
    AwaitingAppList,
    /// Waiting for the API's information on the installed app's hash.
    AwaitingHashLookup,
    /// Waiting for the device's information; `known_version` is the version the API
    /// gave for the installed app, when it knew it.
    AwaitingDeviceInfo { known_version: Option<String> },
    /// Waiting for the API's catalog of apps for device `target_id`.
    AwaitingCatalog { target_id: u32, installed_version: Option<String> },
    /// Waiting for the end of the installation session.
    AwaitingSession,
    /// Done.
    Finished,
}

/// What the last request of an update returned (its error as a message).
pub enum UpdateEvent {
    AppList(Result<Vec<InstalledApp>, String>),
    /// The API's entries for the looked-up hashes, in their order (`None` where unknown).
    HashLookup(Result<Vec<Option<BitcoinAppInfo>>, String>),
    DeviceInfo(Result<DeviceInfo, String>),
    Catalog(Result<Vec<BitcoinAppInfo>, String>),
    SessionEnded(Result<(), String>),
}

/// The next request of an update, or its outcome.
pub enum UpdateAction {
    /// List the apps installed on the device.
    ListApps,
    /// Ask the API for the apps of these hashes (lowercase hexadecimal).
    LookupHashes { hashes: Vec<String> },
    /// Query the device's information.
    QueryDeviceInfo,
    /// Fetch the API's catalog of apps for a device and firmware version.
    FetchCatalog { target_id: u32, firmware_version: String },
    /// Run the HSM session at `url`.
    RunSession { url: String },
    /// The update is over, with this outcome.
    Finish(Result<(), UpdateErr>),
}

/// Whether `event` is the answer to the request that `stage` waits for.
pub open spec fn update_event_fits(stage: UpdateStage, event: UpdateEvent) -> bool {
    match (stage, event) {
        (UpdateStage::AwaitingAppList, UpdateEvent::AppList(_)) => true,
        (UpdateStage::AwaitingHashLookup, UpdateEvent::HashLookup(_)) => true,
        (UpdateStage::AwaitingDeviceInfo { .. }, UpdateEvent::DeviceInfo(_)) => true,
        (UpdateStage::AwaitingCatalog { .. }, UpdateEvent::Catalog(_)) => true,
        (UpdateStage::AwaitingSession, UpdateEvent::SessionEnded(_)) => true,
        _ => false,
    }
}

/// Whether `action` finishes the update with an error carrying message `m`.
pub open spec fn update_fails_with_message(action: UpdateAction, m: Seq<char>) -> bool {
    action matches UpdateAction::Finish(Err(UpdateErr::Any(e))) && e@ == m
}

/// Whether entry `k` of `apps` is the first Bitcoin app (testnet one when `is_testnet`).
pub open spec fn is_first_bitcoin_app(apps: Seq<InstalledApp>, is_testnet: bool, k: int) -> bool {
    &&& 0 <= k < apps.len()
    &&& is_bitcoin_app_name(apps[k].name@, is_testnet)
    &&& forall|j: int| 0 <= j < k ==> !is_bitcoin_app_name(#[trigger] apps[j].name@, is_testnet)
}

/// Whether `action` looks up exactly the hash of the first Bitcoin app of `apps`.
pub open spec fn looks_up_first_bitcoin_app(action: UpdateAction, apps: Seq<InstalledApp>, is_testnet: bool) -> bool {
    exists|k: int| #[trigger] is_first_bitcoin_app(apps, is_testnet, k)
        && (action matches UpdateAction::LookupHashes { hashes } && hashes@.len() == 1
            && hashes@[0]@ == hex_encode_spec(apps[k].hash@))
}

/// The version the API gave for the looked-up app, when it gave one.
pub open spec fn found_version(entry: Option<BitcoinAppInfo>) -> Option<Seq<char>> {
    match entry {
        Some(a) => Some(a.version@),
        None => None,
    }
}

/// The outcome of the update once the latest app of the catalog, `latest`, is known:
/// `AlreadyLatest` when the installed app's version is the latest's, else the session
/// installing `latest` on device `target_id`.
pub open spec fn update_with_latest(action: UpdateAction, installed_version: Option<String>, latest: BitcoinAppInfo, target_id: u32) -> bool {
    if installed_version matches Some(v) && v@ == latest.version@ {
        action matches UpdateAction::Finish(Err(UpdateErr::AlreadyLatest))
    } else {
        action matches UpdateAction::RunSession { url } && url@ == install_url_spec(target_id, latest)
    }
}

/// The first request of the update of the Bitcoin app: list the installed apps.
pub fn update_bitcoin_app_start() -> (res: (UpdateStage, UpdateAction))
    ensures
        res.0 is AwaitingAppList,
        res.1 is ListApps,
{
    (UpdateStage::AwaitingAppList, UpdateAction::ListApps)
}

/// One step of the update of the Bitcoin app (the Bitcoin Test app when `is_testnet`):
/// `NotInstalled` when the device lists no such app; look its hash up in the API,
/// `AppNotFound` when the API answers nothing; find the latest app of the catalog for
/// the device's firmware, `AppNotFound` when there is none; `AlreadyLatest` when the
/// installed version is the latest's; else install the latest through an HSM session.
/// Errors of the requests end the update with their message.
pub fn update_bitcoin_app_step(stage: UpdateStage, event: UpdateEvent, is_testnet: bool) -> (res: (UpdateStage, UpdateAction))
    requires
        update_event_fits(stage, event),
    ensures
        event matches UpdateEvent::AppList(Err(e)) ==> res.0 is Finished && update_fails_with_message(res.1, e@),
        event matches UpdateEvent::AppList(Ok(apps)) ==> (if lists_bitcoin_app(apps@, is_testnet) {
            res.0 is AwaitingHashLookup && looks_up_first_bitcoin_app(res.1, apps@, is_testnet)
        } else {
            res.0 is Finished && (res.1 matches UpdateAction::Finish(Err(UpdateErr::NotInstalled)))
        }),
        event matches UpdateEvent::HashLookup(Err(e)) ==> res.0 is Finished && update_fails_with_message(res.1, e@),
        event matches UpdateEvent::HashLookup(Ok(found)) ==> (if found@.len() == 0 {
            res.0 is Finished && (res.1 matches UpdateAction::Finish(Err(UpdateErr::AppNotFound)))
        } else {
            (res.0 matches UpdateStage::AwaitingDeviceInfo { known_version } && opt_chars(known_version) == found_version(found@[0]))
                && res.1 is QueryDeviceInfo
        }),
        event matches UpdateEvent::DeviceInfo(Err(e)) ==> res.0 is Finished && update_fails_with_message(res.1, e@),
        event matches UpdateEvent::DeviceInfo(Ok(info)) ==>
            (res.0 matches UpdateStage::AwaitingCatalog { target_id, installed_version } && target_id == info.target_id
                && opt_chars(installed_version) == opt_chars(stage->known_version))
            && (res.1 matches UpdateAction::FetchCatalog { target_id, firmware_version } && target_id == info.target_id
                && firmware_version@ == info.version@),
        event matches UpdateEvent::Catalog(Err(e)) ==> res.0 is Finished && update_fails_with_message(res.1, e@),
        event matches UpdateEvent::Catalog(Ok(apps)) ==> (if catalog_has(apps@, bitcoin_app_name(is_testnet)) {
            exists|k: int| #[trigger] is_last_named(apps@, bitcoin_app_name(is_testnet), k)
                && update_with_latest(res.1, stage->installed_version, apps@[k], stage->AwaitingCatalog_target_id)
                && (if res.1 is RunSession { res.0 is AwaitingSession } else { res.0 is Finished })
        } else {
            res.0 is Finished && (res.1 matches UpdateAction::Finish(Err(UpdateErr::AppNotFound)))
        }),
        event matches UpdateEvent::SessionEnded(Ok(_)) ==> res.0 is Finished && (res.1 matches UpdateAction::Finish(Ok(()))),
        event matches UpdateEvent::SessionEnded(Err(e)) ==> res.0 is Finished && update_fails_with_message(res.1, e@),
{
    match event {
        UpdateEvent::AppList(Err(e)) => (UpdateStage::Finished, UpdateAction::Finish(Err(UpdateErr::Any(e)))),
        UpdateEvent::AppList(Ok(apps)) => {
            let ghost listed = apps@;
            match bitcoin_app_installed(apps, is_testnet) {
                None => (UpdateStage::Finished, UpdateAction::Finish(Err(UpdateErr::NotInstalled))),
                Some(app) => {
                    let mut hashes: Vec<String> = Vec::new();
                    hashes.push(hex_encode(app.hash.as_slice()));
                    let ghost k = choose|k: int|
                        #![trigger listed[k]]
                        0 <= k < listed.len() && app@ == listed[k]@ && is_bitcoin_app_name(listed[k].name@, is_testnet)
                            && forall|j: int| 0 <= j < k ==> !is_bitcoin_app_name(#[trigger] listed[j].name@, is_testnet);
                    assert(is_first_bitcoin_app(listed, is_testnet, k));
                    assert(app.hash@ == listed[k].hash@);
                    (UpdateStage::AwaitingHashLookup, UpdateAction::LookupHashes { hashes })
                },
            }
        },
        UpdateEvent::HashLookup(Err(e)) => (UpdateStage::Finished, UpdateAction::Finish(Err(UpdateErr::Any(e)))),
        UpdateEvent::HashLookup(Ok(found)) => {
            let mut found = found;
            if found.len() == 0 {
                (UpdateStage::Finished, UpdateAction::Finish(Err(UpdateErr::AppNotFound)))
            } else {
                let first = found.remove(0);
                let known_version = match first {
                    Some(a) => Some(a.version),
                    None => None,
                };
                (UpdateStage::AwaitingDeviceInfo { known_version }, UpdateAction::QueryDeviceInfo)
            }
        },
        UpdateEvent::DeviceInfo(Err(e)) => (UpdateStage::Finished, UpdateAction::Finish(Err(UpdateErr::Any(e)))),
        UpdateEvent::DeviceInfo(Ok(info)) => {
            let installed_version = match stage {
                UpdateStage::AwaitingDeviceInfo { known_version } => known_version,
                _ => None,
            };
            (
                UpdateStage::AwaitingCatalog { target_id: info.target_id, installed_version },
                UpdateAction::FetchCatalog { target_id: info.target_id, firmware_version: info.version },
            )
        },
        UpdateEvent::Catalog(Err(e)) => (UpdateStage::Finished, UpdateAction::Finish(Err(UpdateErr::Any(e)))),
        UpdateEvent::Catalog(Ok(apps)) => {
            let (target_id, installed_version) = match stage {
                UpdateStage::AwaitingCatalog { target_id, installed_version } => (target_id, installed_version),
                _ => (0, None),
            };
            match bitcoin_latest_app(apps, is_testnet) {
                None => (UpdateStage::Finished, UpdateAction::Finish(Err(UpdateErr::AppNotFound))),
                Some(latest) => {
                    let up_to_date = match &installed_version {
                        Some(v) => *v == latest.version,
                        None => false,
                    };
                    if up_to_date {
                        (UpdateStage::Finished, UpdateAction::Finish(Err(UpdateErr::AlreadyLatest)))
                    } else {
                        let url = install_app_url(target_id, &latest);
                        (UpdateStage::AwaitingSession, UpdateAction::RunSession { url })
                    }
                },
            }
        },
        UpdateEvent::SessionEnded(Ok(())) => (UpdateStage::Finished, UpdateAction::Finish(Ok(()))),
        UpdateEvent::SessionEnded(Err(e)) => (UpdateStage::Finished, UpdateAction::Finish(Err(UpdateErr::Any(e)))),
    }
}

/// The hashes of the installed applications `apps`, in lowercase hexadecimal, in order:
/// what the API's lookup by hash is asked for.
pub fn installed_app_hashes(apps: &Vec<InstalledApp>) -> (hashes: Vec<String>)
    ensures
        hashes@.len() == apps@.len(),
        forall|i: int| 0 <= i < apps@.len() ==> #[trigger] hashes@[i]@ == hex_encode_spec(apps@[i].hash@),
{
    let mut hashes: Vec<String> = Vec::new();
    let mut i: usize = 0;
    while i < apps.len()
        invariant
            0 <= i <= apps@.len(),
            hashes@.len() == i,
            forall|j: int| 0 <= j < i ==> #[trigger] hashes@[j]@ == hex_encode_spec(apps@[j].hash@),
        decreases apps@.len() - i,
    {
        hashes.push(hex_encode(apps[i].hash.as_slice()));
        i = i + 1;
    }
    hashes
}

/// URL of the genuine-check session for device `target_id`, whose firmware has
/// personalization `perso`.
pub open spec fn genuine_url_spec(target_id: u32, perso: Seq<char>) -> Seq<char> {
    with_pairs(BASE_SOCKET_URL@ + "/genuine?"@, seq![("targetId"@, decimal(target_id as nat)), ("perso"@, perso)])
}

/// Where a genuine check stands.
pub enum GenuineStage {
    /// Waiting for the device's information.
    AwaitingDeviceInfo,
    /// Waiting for the API's device version of device `target_id`, whose firmware
    /// version is `version`.
    AwaitingDeviceVersion { target_id: u32, version: String },
    /// Waiting for the API's information on the firmware of device `target_id`.
    AwaitingFirmwareInfo { target_id: u32 },
    /// Waiting for the end of the genuine-check session.
    AwaitingSession,
    /// Done.
    Finished,
}

/// What the last request of a genuine check returned (its error as a message).
pub enum GenuineEvent {
    DeviceInfo(Result<DeviceInfo, String>),
    DeviceVersion(Result<DeviceVersion, String>),
    FirmwareInfo(Result<FirmwareInfo, String>),
    SessionEnded(Result<(), String>),
}

/// The next request of a genuine check, or its outcome.
pub enum GenuineAction {
    /// Query the device's information.
    QueryDeviceInfo,
    /// Ask the API for the device version of device `target_id`.
    FetchDeviceVersion { target_id: u32 },
    /// Ask the API for the firmware of a device version by version name.
    FetchFirmwareInfo { device_version: i64, version_name: String },
    /// Run the HSM session at `url`.
    RunSession { url: String },
    /// The check is over, with this outcome.
    Finish(Result<(), String>),
}

/// Whether `event` is the answer to the request that `stage` waits for.
pub open spec fn genuine_event_fits(stage: GenuineStage, event: GenuineEvent) -> bool {
    match event {
        GenuineEvent::DeviceInfo(_) => stage is AwaitingDeviceInfo,
        GenuineEvent::DeviceVersion(_) => stage is AwaitingDeviceVersion,
        GenuineEvent::FirmwareInfo(_) => stage is AwaitingFirmwareInfo,
        GenuineEvent::SessionEnded(_) => stage is AwaitingSession,
    }
}

/// Whether `action` ends the check with error message `m`.
pub open spec fn genuine_fails_with(action: GenuineAction, m: Seq<char>) -> bool {
    action matches GenuineAction::Finish(Err(e)) && e@ == m
}

/// The first request of a genuine check: the device's information.
pub fn genuine_check_start() -> (res: (GenuineStage, GenuineAction))
    ensures
        res.0 is AwaitingDeviceInfo,
        res.1 is QueryDeviceInfo,
{
    (GenuineStage::AwaitingDeviceInfo, GenuineAction::QueryDeviceInfo)
}

/// One step of checking that the device is genuine: from the device's information, the
/// API gives its device version, then its firmware's personalization; the HSM session
/// for the device and that personalization decides. An error of a request ends the
/// check with its message.
pub fn genuine_check_step(stage: GenuineStage, event: GenuineEvent) -> (res: (GenuineStage, GenuineAction))
    requires
        genuine_event_fits(stage, event),
    ensures
        res.1 is Finish <==> res.0 is Finished,
        event matches GenuineEvent::DeviceInfo(Err(m)) ==> genuine_fails_with(res.1, m@),
        event matches GenuineEvent::DeviceInfo(Ok(info)) ==>
            (res.0 matches GenuineStage::AwaitingDeviceVersion { target_id, version } && target_id == info.target_id
                && version@ == info.version@)
            && (res.1 matches GenuineAction::FetchDeviceVersion { target_id } && target_id == info.target_id),
        event matches GenuineEvent::DeviceVersion(Err(m)) ==> genuine_fails_with(res.1, m@),
        event matches GenuineEvent::DeviceVersion(Ok(dv)) ==> (stage matches GenuineStage::AwaitingDeviceVersion { target_id, version }
            && res.0 == (GenuineStage::AwaitingFirmwareInfo { target_id })
            && (res.1 matches GenuineAction::FetchFirmwareInfo { device_version, version_name } && device_version == dv.id
                && version_name@ == version@)),
        event matches GenuineEvent::FirmwareInfo(Err(m)) ==> genuine_fails_with(res.1, m@),
        event matches GenuineEvent::FirmwareInfo(Ok(fw)) ==> res.0 is AwaitingSession
            && (res.1 matches GenuineAction::RunSession { url } && url@ == genuine_url_spec(stage->AwaitingFirmwareInfo_target_id, fw.perso@)),
        event matches GenuineEvent::SessionEnded(Err(m)) ==> genuine_fails_with(res.1, m@),
        event matches GenuineEvent::SessionEnded(Ok(_)) ==> res.1 matches GenuineAction::Finish(Ok(())),
{
    match event {
        GenuineEvent::DeviceInfo(Err(m)) => (GenuineStage::Finished, GenuineAction::Finish(Err(m))),
        GenuineEvent::DeviceInfo(Ok(info)) => (
            GenuineStage::AwaitingDeviceVersion { target_id: info.target_id, version: info.version },
            GenuineAction::FetchDeviceVersion { target_id: info.target_id },
        ),
        GenuineEvent::DeviceVersion(Err(m)) => (GenuineStage::Finished, GenuineAction::Finish(Err(m))),
        GenuineEvent::DeviceVersion(Ok(dv)) => match stage {
            GenuineStage::AwaitingDeviceVersion { target_id, version } => (
                GenuineStage::AwaitingFirmwareInfo { target_id },
                GenuineAction::FetchFirmwareInfo { device_version: dv.id, version_name: version },
            ),
            _ => (GenuineStage::Finished, GenuineAction::Finish(Ok(()))),
        },
        GenuineEvent::FirmwareInfo(Err(m)) => (GenuineStage::Finished, GenuineAction::Finish(Err(m))),
        GenuineEvent::FirmwareInfo(Ok(fw)) => {
            let target_id = match stage {
                GenuineStage::AwaitingFirmwareInfo { target_id } => target_id,
                _ => 0,
            };
            let url = genuine_check_url(target_id, fw.perso.as_str());
            (GenuineStage::AwaitingSession, GenuineAction::RunSession { url })
        },
        GenuineEvent::SessionEnded(Err(m)) => (GenuineStage::Finished, GenuineAction::Finish(Err(m))),
        GenuineEvent::SessionEnded(Ok(())) => (GenuineStage::Finished, GenuineAction::Finish(Ok(()))),
    }
}

/// What a front end shows of the Bitcoin app's update state.
pub struct AppUpdateInfo {
    pub installed: bool,
    pub update_available: bool,
    pub current_version: Option<String>,
    pub latest_version: Option<String>,
    pub message: String,
}

/// The optional characters of an optional string.
pub open spec fn opt_text(s: Option<String>) -> Option<Seq<char>> {
    match s {
        Some(t) => Some(t@),
        None => None,
    }
}

/// Whether `info` is the update state of the Bitcoin app (the Bitcoin Test app when
/// `is_testnet`): `device` tells whether the device's information is known and then
/// whether the app is installed and which version; `latest` is the latest version from
/// the API, or the error of its query. An update is available when the installed
/// version is unknown or differs from the latest.
pub open spec fn app_update_info_is(
    info: AppUpdateInfo,
    device: Option<(bool, Option<Seq<char>>)>,
    latest: Result<Seq<char>, Seq<char>>,
    is_testnet: bool,
) -> bool {
    match device {
        None => !info.installed && !info.update_available && info.current_version is None
            && info.latest_version is None && info.message@ == "Device info not available. Please get device info first."@,
        Some((installed, current)) => match latest {
            Err(e) => info.installed == installed && !info.update_available && opt_text(info.current_version) == current
                && info.latest_version is None
                && info.message@ == "Failed to get latest "@ + app_display_name(is_testnet) + " app info: "@ + e,
            Ok(l) => if !installed {
                !info.installed && !info.update_available && info.current_version is None
                    && opt_text(info.latest_version) == Some(l)
                    && info.message@ == app_display_name(is_testnet) + " app is not installed. Latest version: "@ + l
            } else if current == Some(l) {
                info.installed && !info.update_available && opt_text(info.current_version) == current
                    && opt_text(info.latest_version) == Some(l)
                    && info.message@ == app_display_name(is_testnet) + " app is up to date"@
            } else {
                info.installed && info.update_available && opt_text(info.current_version) == current
                    && opt_text(info.latest_version) == Some(l)
                    && info.message@ == app_display_name(is_testnet) + " update available: "@
                        + (match current { Some(c) => c, None => "unknown"@ }) + " -> "@ + l
            },
        },
    }
}

/// The state of an app on a device, taken by its characters.
pub open spec fn app_state_view(device: Option<(bool, Option<String>)>) -> Option<(bool, Option<Seq<char>>)> {
    match device {
        None => None,
        Some((installed, current)) => Some((installed, opt_text(current))),
    }
}

/// The update state of the Bitcoin app (see [`app_update_info_is`]).
pub fn check_bitcoin_app_update(device: Option<(bool, Option<String>)>, latest: Result<String, String>, is_testnet: bool) -> (info: AppUpdateInfo)
    ensures
        app_update_info_is(info, app_state_view(device), text_result(latest), is_testnet),
{
    let name = display_name(is_testnet);
    let (installed, current) = match device {
        None => {
            return AppUpdateInfo {
                installed: false,
                update_available: false,
                current_version: None,
                latest_version: None,
                message: "Device info not available. Please get device info first.".to_string(),
            };
        },
        Some(d) => d,
    };
    let latest = match latest {
        Err(e) => {
            let message = concat3("Failed to get latest ", name, " app info: ").concat(e.as_str());
            return AppUpdateInfo { installed, update_available: false, current_version: current, latest_version: None, message };
        },
        Ok(l) => l,
    };
    if !installed {
        let message = concat3(name, " app is not installed. Latest version: ", latest.as_str());
        return AppUpdateInfo { installed: false, update_available: false, current_version: None, latest_version: Some(latest), message };
    }
    let up_to_date = match &current {
        Some(c) => *c == latest,
        None => false,
    };
    if up_to_date {
        let message = concat2(name, " app is up to date");
        AppUpdateInfo { installed: true, update_available: false, current_version: current, latest_version: Some(latest), message }
    } else {
        let shown: &str = match &current {
            Some(c) => c.as_str(),
            None => "unknown",
        };
        let message = concat5(name, " update available: ", shown, " -> ", latest.as_str());
        AppUpdateInfo { installed: true, update_available: true, current_version: current, latest_version: Some(latest), message }
    }
}

} // verus!
