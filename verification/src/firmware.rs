//! Firmware updates: the metadata the Ledger API serves, and the choices made while
//! updating or repairing a device (which MCU to flash, whether one must be flashed,
//! whether a flash that lost its connection succeeded).
use vstd::prelude::*;
use vstd::string::{StringExecFns, StringSliceAdditionalSpecFns};
use vstd::utf8::encode_utf8;
use crate::device::{DeviceInfo, DeviceInfoView};
use crate::text::{is_lower_hex_digit, hex_digit_lower, push_decimal_u128, decimal, decimal_int, hex_lower, push_char, push_decimal_i64, push_hex_min, str_eq};
use crate::hexcodec::{hex_encode, hex_encode_spec};
use sha2::Digest;
use crate::version::{lemma_lex_irreflexive, lemma_lex_total, lemma_lex_transitive, contains_str, contains_text, get_bootloader_maj_min, lex_less, lex_lt, maj_min_spec, version_components, version_key};

verus! {

/// Maximum number of MCU/bootloader flash iterations before giving up.
pub const MAX_MCU_ITERATIONS: u32 = 5;

/// OSU (Operating System Updater) firmware metadata from the Ledger API.
///
/// The OSU is the first step of a firmware update: it prepares the device for
/// receiving the final firmware.
#[derive(Debug)]
pub struct OsuFirmware {
    pub id: i64,
    pub name: String,
    pub description: Option<String>,
    pub display_name: Option<String>,
    pub notes: Option<String>,
    pub perso: String,
    pub firmware: String,
    pub firmware_key: String,
    pub hash: String,
    pub date_creation: String,
    pub date_last_modified: String,
    pub device_versions: Vec<i64>,
    pub providers: Vec<i64>,
    /// ID of the final firmware that will be installed after this OSU.
    pub next_se_firmware_final_version: i64,
    /// IDs of firmware versions that can upgrade to this OSU.
    pub previous_se_firmware_final_version: Vec<i64>,
}

/// Final firmware metadata from the Ledger API: the firmware that runs on the device
/// after the update.
#[derive(Debug)]
pub struct FinalFirmware {
    pub id: i64,
    pub name: String,
    pub description: Option<String>,
    pub display_name: Option<String>,
    pub notes: Option<String>,
    pub perso: String,
    pub firmware: String,
    pub firmware_key: String,
    pub hash: String,
    /// Firmware version string (e.g. "2.1.0").
    pub version: String,
    /// ID of the SE firmware this belongs to.
    pub se_firmware: i64,
    /// OSU versions that can install this firmware.
    pub osu_versions: Vec<OsuFirmware>,
    /// IDs of compatible MCU versions.
    pub mcu_versions: Vec<i64>,
    /// IDs of application versions compatible with this firmware.
    pub application_versions: Vec<i64>,
    /// Size of the firmware in bytes.
    pub bytes: Option<u64>,
    pub date_creation: String,
    pub date_last_modified: String,
    pub device_versions: Vec<i64>,
    pub providers: Vec<i64>,
}

/// MCU (Microcontroller Unit) version metadata from the Ledger API.
#[derive(Debug)]
pub struct McuVersion {
    pub id: i64,
    /// MCU identifier.
    pub mcu: i64,
    /// MCU version name (e.g. "1.12").
    pub name: String,
    pub description: Option<String>,
    pub providers: Vec<i64>,
    /// The bootloader version required to flash this MCU.
    pub from_bootloader_version: String,
    pub device_versions: Vec<i64>,
    pub se_firmware_final_versions: Vec<i64>,
    pub date_creation: String,
    pub date_last_modified: String,
}

/// Everything needed to perform a firmware update.
#[derive(Debug)]
pub struct FirmwareUpdateContext {
    /// OSU firmware to install first.
    pub osu: OsuFirmware,
    /// Final firmware to install after the OSU.
    pub final_firmware: FinalFirmware,
    /// Whether the MCU must be flashed (the device then goes through its bootloader).
    pub should_flash_mcu: bool,
}

/// Response of the `get_device_version` endpoint.
#[derive(Debug)]
pub struct DeviceVersionResponse {
    pub id: i64,
    pub name: String,
    pub display_name: String,
    pub target_id: String,
    pub description: String,
    pub device: i64,
    pub providers: Vec<i64>,
    pub mcu_versions: Vec<i64>,
    pub se_firmware_final_versions: Vec<i64>,
    pub osu_versions: Vec<i64>,
}

/// Response of the `get_latest_firmware` endpoint.
#[derive(Debug)]
pub struct LatestFirmwareResponse {
    pub result: String,
    pub se_firmware_osu_version: Option<OsuFirmware>,
}

/// Errors that can occur during firmware update operations.
#[derive(Debug)]
pub enum FirmwareUpdateError {
    /// Firmware is already up to date.
    AlreadyUpToDate,
    /// Device must be on dashboard (not in bootloader/OSU mode).
    DeviceNotOnDashboard,
    /// Device must be in OSU mode to install final firmware.
    DeviceNotInOsuMode,
    /// Device is not onboarded (no PIN set).
    DeviceNotOnboarded,
    /// Not enough storage space on device.
    NotEnoughSpace,
    /// User refused the update on the device.
    UserRefused,
    /// Too many MCU/bootloader flash iterations.
    TooManyMcuIterations,
    /// Device disconnected during update.
    DeviceDisconnected,
    /// API request failed.
    ApiError(String),
    /// WebSocket communication error.
    WebSocketError(String),
    /// Unknown or incompatible MCU version.
    UnknownMcu,
    /// No firmware update available for this device.
    NoUpdateAvailable,
    /// Generic error.
    Other(String),
}

/// Mathematical value of a [`FirmwareUpdateError`].
pub enum FirmwareUpdateErrorView {
    AlreadyUpToDate,
    DeviceNotOnDashboard,
    DeviceNotInOsuMode,
    DeviceNotOnboarded,
    NotEnoughSpace,
    UserRefused,
    TooManyMcuIterations,
    DeviceDisconnected,
    ApiError(Seq<char>),
    WebSocketError(Seq<char>),
    UnknownMcu,
    NoUpdateAvailable,
    Other(Seq<char>),
}

impl View for FirmwareUpdateError {
    type V = FirmwareUpdateErrorView;

    open spec fn view(&self) -> FirmwareUpdateErrorView {
        match self {
            FirmwareUpdateError::AlreadyUpToDate => FirmwareUpdateErrorView::AlreadyUpToDate,
            FirmwareUpdateError::DeviceNotOnDashboard => FirmwareUpdateErrorView::DeviceNotOnDashboard,
            FirmwareUpdateError::DeviceNotInOsuMode => FirmwareUpdateErrorView::DeviceNotInOsuMode,
            FirmwareUpdateError::DeviceNotOnboarded => FirmwareUpdateErrorView::DeviceNotOnboarded,
            FirmwareUpdateError::NotEnoughSpace => FirmwareUpdateErrorView::NotEnoughSpace,
            FirmwareUpdateError::UserRefused => FirmwareUpdateErrorView::UserRefused,
            FirmwareUpdateError::TooManyMcuIterations => FirmwareUpdateErrorView::TooManyMcuIterations,
            FirmwareUpdateError::DeviceDisconnected => FirmwareUpdateErrorView::DeviceDisconnected,
            FirmwareUpdateError::ApiError(m) => FirmwareUpdateErrorView::ApiError(m@),
            FirmwareUpdateError::WebSocketError(m) => FirmwareUpdateErrorView::WebSocketError(m@),
            FirmwareUpdateError::UnknownMcu => FirmwareUpdateErrorView::UnknownMcu,
            FirmwareUpdateError::NoUpdateAvailable => FirmwareUpdateErrorView::NoUpdateAvailable,
            FirmwareUpdateError::Other(m) => FirmwareUpdateErrorView::Other(m@),
        }
    }
}

/// Whether `x` is among `ids`.
pub fn contains_id(ids: &Vec<i64>, x: i64) -> (b: bool)
    ensures
        b == ids@.contains(x),
{
    let mut k: usize = 0;
    while k < ids.len()
        invariant
            0 <= k <= ids@.len(),
            forall|j: int| 0 <= j < k ==> ids@[j] != x,
        decreases ids@.len() - k,
    {
        if ids[k] == x {
            assert(ids@[k as int] == x);
            return true;
        }
        k = k + 1;
    }
    false
}

/// Index of the first MCU of `mcus` whose id is among `ids`, if any.
pub open spec fn first_mcu_in(mcus: Seq<McuVersion>, ids: Seq<i64>, k: int) -> bool {
    0 <= k < mcus.len() && ids.contains(mcus[k].id) && forall|j: int| 0 <= j < k ==> !ids.contains(#[trigger] mcus[j].id)
}

/// Find the MCU version to flash for the target firmware: the first of `mcus` whose id
/// the firmware lists as compatible (`target_mcu_ids`); `UnknownMcu` when there is
/// none.
pub fn find_best_mcu_version(mcus: &Vec<McuVersion>, device_info: &DeviceInfo, target_mcu_ids: &Vec<i64>) -> (res: Result<String, FirmwareUpdateError>)
    ensures
        match res {
            Ok(name) => exists|k: int| #[trigger] first_mcu_in(mcus@, target_mcu_ids@, k) && name@ == mcus@[k].name@,
            Err(e) => e@ == FirmwareUpdateErrorView::UnknownMcu && forall|j: int| 0 <= j < mcus@.len() ==> !target_mcu_ids@.contains(#[trigger] mcus@[j].id),
        },
{
    let mut k: usize = 0;
    while k < mcus.len()
        invariant
            0 <= k <= mcus@.len(),
            forall|j: int| 0 <= j < k ==> !target_mcu_ids@.contains(#[trigger] mcus@[j].id),
        decreases mcus@.len() - k,
    {
        if contains_id(target_mcu_ids, mcus[k].id) {
            let name = mcus[k].name.clone();
            assert(first_mcu_in(mcus@, target_mcu_ids@, k as int));
            return Ok(name);
        }
        k = k + 1;
    }
    Err(FirmwareUpdateError::UnknownMcu)
}

/// Whether the MCU must be flashed to run the final firmware whose compatible MCU ids
/// are `final_mcu_ids`: the device's MCU version (the empty name when unknown) is looked
/// up among `mcus` by name; it must be flashed when it is not found, or when the first
/// MCU of that name is not compatible.
pub open spec fn mcu_needs_flash_spec(mcus: Seq<McuVersion>, current: Seq<char>, final_mcu_ids: Seq<i64>) -> bool {
    if exists|k: int| 0 <= k < mcus.len() && #[trigger] mcus[k].name@ == current {
        let k = choose|k: int| 0 <= k < mcus.len() && mcus[k].name@ == current && forall|j: int| 0 <= j < k ==> #[trigger] mcus[j].name@ != current;
        !final_mcu_ids.contains(mcus[k].id)
    } else {
        true
    }
}

/// The MCU must be flashed exactly when the device's MCU is not a compatible one: when
/// the first MCU of `mcus` named as the device's (`k`) has an id found anywhere among the
/// final firmware's compatible ids, no flash is needed, otherwise one is; and when no
/// MCU has the device's name, one is always needed.
pub proof fn lemma_mcu_needs_flash_membership(mcus: Seq<McuVersion>, current: Seq<char>, final_mcu_ids: Seq<i64>, k: int)
    requires
        0 <= k < mcus.len(),
        mcus[k].name@ == current,
        forall|j: int| 0 <= j < k ==> mcus[j].name@ != current,
    ensures
        mcu_needs_flash_spec(mcus, current, final_mcu_ids)
            <==> !(exists|i: int| 0 <= i < final_mcu_ids.len() && final_mcu_ids[i] == mcus[k].id),
{
    assert(exists|k2: int| 0 <= k2 < mcus.len() && #[trigger] mcus[k2].name@ == current);
    let w = choose|w: int| 0 <= w < mcus.len() && mcus[w].name@ == current && forall|j: int| 0 <= j < w ==> #[trigger] mcus[j].name@ != current;
    if w < k {
        assert(mcus[w].name@ != current);
    } else if w > k {
        assert(mcus[k].name@ != current);
    }
    assert(w == k);
    if final_mcu_ids.contains(mcus[k].id) {
        let i = choose|i: int| 0 <= i < final_mcu_ids.len() && final_mcu_ids[i] == mcus[k].id;
        assert(0 <= i < final_mcu_ids.len() && final_mcu_ids[i] == mcus[k].id);
    }
}

/// When no MCU of `mcus` has the device's MCU name, the MCU must be flashed.
pub proof fn lemma_unknown_mcu_needs_flash(mcus: Seq<McuVersion>, current: Seq<char>, final_mcu_ids: Seq<i64>)
    requires
        forall|j: int| 0 <= j < mcus.len() ==> mcus[j].name@ != current,
    ensures
        mcu_needs_flash_spec(mcus, current, final_mcu_ids),
{
}

/// Whether the MCU must be flashed (see [`mcu_needs_flash_spec`]).
pub fn mcu_needs_flash(mcus: &Vec<McuVersion>, mcu_version: &Option<String>, final_mcu_ids: &Vec<i64>) -> (b: bool)
    ensures
        b == mcu_needs_flash_spec(mcus@, match mcu_version {
            Some(v) => v@,
            None => Seq::empty(),
        }, final_mcu_ids@),
{
    let current: String = match mcu_version {
        Some(v) => v.clone(),
        None => String::new(),
    };
    let ghost cur = current@;
    let mut k: usize = 0;
    while k < mcus.len()
        invariant
            0 <= k <= mcus@.len(),
            cur == current@,
            cur == match mcu_version {
                Some(v) => v@,
                None => Seq::<char>::empty(),
            },
            forall|j: int| 0 <= j < k ==> #[trigger] mcus@[j].name@ != cur,
        decreases mcus@.len() - k,
    {
        if mcus[k].name == current {
            proof {
                assert(exists|k2: int| 0 <= k2 < mcus@.len() && #[trigger] mcus@[k2].name@ == cur);
                assert(exists|k2: int| 0 <= k2 < mcus@.len() && mcus@[k2].name@ == cur && forall|j: int| 0 <= j < k2 ==> #[trigger] mcus@[j].name@ != cur);
                let w = choose|w: int| 0 <= w < mcus@.len() && mcus@[w].name@ == cur && forall|j: int| 0 <= j < w ==> #[trigger] mcus@[j].name@ != cur;
                assert(0 <= k < mcus@.len() && mcus@[k as int].name@ == cur && forall|j: int| 0 <= j < k ==> #[trigger] mcus@[j].name@ != cur);
                if w < k {
                    assert(mcus@[w].name@ != cur);
                } else if w > k {
                    assert(mcus@[k as int].name@ != cur);
                }
                assert(w == k);
            }
            return !contains_id(final_mcu_ids, mcus[k].id);
        }
        k = k + 1;
    }
    true
}

/// The MCU version to flash, for the legacy bootloaders (Nano S mostly) that have a
/// fixed one: 0.0 -> 0.6, 0.6 -> 1.5, 0.7 -> 1.6, 0.9 -> 1.7.
pub open spec fn legacy_mcu_spec(maj_min: Seq<char>) -> Option<Seq<char>> {
    if maj_min == "0.0"@ {
        Some("0.6"@)
    } else if maj_min == "0.6"@ {
        Some("1.5"@)
    } else if maj_min == "0.7"@ {
        Some("1.6"@)
    } else if maj_min == "0.9"@ {
        Some("1.7"@)
    } else {
        None
    }
}

/// The MCU version to flash for a legacy bootloader (see [`legacy_mcu_spec`]); `None`
/// for the others, whose MCU is looked up through the API.
pub fn legacy_mcu_for_bootloader(maj_min: &String) -> (res: Option<String>)
    ensures
        match (res, legacy_mcu_spec(maj_min@)) {
            (Some(v), Some(sv)) => v@ == sv,
            (None, None) => true,
            _ => false,
        },
{
    if str_eq(maj_min, "0.0") {
        Some(String::from_str("0.6"))
    } else if str_eq(maj_min, "0.6") {
        Some(String::from_str("1.5"))
    } else if str_eq(maj_min, "0.7") {
        Some(String::from_str("1.6"))
    } else if str_eq(maj_min, "0.9") {
        Some(String::from_str("1.7"))
    } else {
        None
    }
}

/// Whether the bootloader version an MCU requires is a real one: not "none", not
/// "rien", not containing "noneee".
pub open spec fn has_bootloader_requirement(from_bl: Seq<char>) -> bool {
    from_bl != "none"@ && from_bl != "rien"@ && !contains_text(from_bl, "noneee"@)
}

/// Whether an MCU version name is that of a development or test version: it contains
/// "99", "-nordp", "-norpd", "-dev" or "-rc".
pub open spec fn is_dev_mcu_name(name: Seq<char>) -> bool {
    contains_text(name, "99"@) || contains_text(name, "-nordp"@) || contains_text(name, "-norpd"@)
        || contains_text(name, "-dev"@) || contains_text(name, "-rc"@)
}

/// Whether an MCU version is a production one with a real bootloader requirement.
pub open spec fn is_production_mcu(m: McuVersion) -> bool {
    has_bootloader_requirement(m.from_bootloader_version@) && !is_dev_mcu_name(m.name@)
}

/// Whether an MCU version is a production one for device version `dev_id`.
pub open spec fn is_device_mcu(m: McuVersion, dev_id: i64) -> bool {
    is_production_mcu(m) && m.device_versions@.contains(dev_id)
}

/// Numeric components of the name of MCU `k`.
pub open spec fn mcu_key(mcus: Seq<McuVersion>, k: int) -> Seq<u32> {
    version_key(mcus[k].name@)
}

/// Whether MCU `k` is the highest-versioned MCU for device version `dev_id`, the last
/// one when several are equally high.
pub open spec fn is_best_device_mcu(mcus: Seq<McuVersion>, dev_id: i64, k: int) -> bool {
    &&& 0 <= k < mcus.len()
    &&& is_device_mcu(mcus[k], dev_id)
    &&& forall|j: int|
        0 <= j < mcus.len() && #[trigger] is_device_mcu(mcus[j], dev_id) ==> !lex_lt(mcu_key(mcus, k), mcu_key(mcus, j))
            && (j > k ==> lex_lt(mcu_key(mcus, j), mcu_key(mcus, k)))
}

/// Whether MCU `k` is a production MCU whose bootloader requirement has the major.minor
/// version `current_mm`.
pub open spec fn is_fallback_mcu(mcus: Seq<McuVersion>, current_mm: Seq<char>, k: int) -> bool {
    0 <= k < mcus.len() && is_production_mcu(mcus[k]) && maj_min_spec(mcus[k].from_bootloader_version@) == current_mm
}

/// The message of a repair that found no firmware to install.
pub open spec fn repair_failure_message(se_target_id: u32, bootloader: Seq<char>, dev_id: i64, tried: nat) -> Seq<char> {
    "No compatible firmware found for SE target 0x"@ + hex_lower(se_target_id as nat) + " with bootloader "@ + bootloader
        + ". Device version ID: "@ + decimal_int(dev_id as int) + ", tried "@ + decimal(tried) + " MCUs"@
}

/// Whether `m` is a production MCU (see [`is_production_mcu`]).
fn production_mcu(m: &McuVersion) -> (b: bool)
    ensures
        b == is_production_mcu(*m),
{
    let f = m.from_bootloader_version.as_str();
    let n = m.name.as_str();
    let has_bl_req = !str_eq(&m.from_bootloader_version, "none") && !str_eq(&m.from_bootloader_version, "rien")
        && !contains_str(f, "noneee");
    let is_dev = contains_str(n, "99") || contains_str(n, "-nordp") || contains_str(n, "-norpd") || contains_str(n, "-dev")
        || contains_str(n, "-rc");
    has_bl_req && !is_dev
}

/// The text or error of a firmware result.
pub open spec fn text_or_error(r: Result<String, FirmwareUpdateError>) -> Result<Seq<char>, FirmwareUpdateErrorView> {
    match r {
        Ok(v) => Ok(v@),
        Err(e) => Err(e@),
    }
}

/// Whether `res` is the version to install to repair a device whose bootloader version
/// is `bootloader` and SE target id `se_target_id`, its device version being `dev_id`,
/// given the MCU versions `mcus` (see [`find_mcu_for_repair_v2`]).
pub open spec fn is_repair_choice(bootloader: Seq<char>, se_target_id: u32, dev_id: i64, mcus: Seq<McuVersion>, res: Result<Seq<char>, FirmwareUpdateErrorView>) -> bool {
    &&& (exists|j: int| 0 <= j < mcus.len() && #[trigger] is_device_mcu(mcus[j], dev_id)) ==> exists|k: int|
        #[trigger] is_best_device_mcu(mcus, dev_id, k) && res == Ok::<Seq<char>, FirmwareUpdateErrorView>(
            if maj_min_spec(mcus[k].from_bootloader_version@) == maj_min_spec(bootloader) {
                mcus[k].name@
            } else {
                mcus[k].from_bootloader_version@
            })
    &&& !(exists|j: int| 0 <= j < mcus.len() && #[trigger] is_device_mcu(mcus[j], dev_id)) && (exists|j: int|
        #[trigger] is_fallback_mcu(mcus, maj_min_spec(bootloader), j)) ==> exists|k: int|
        #[trigger] is_fallback_mcu(mcus, maj_min_spec(bootloader), k) && (forall|j: int|
            0 <= j < k ==> !is_fallback_mcu(mcus, maj_min_spec(bootloader), j)) && res == Ok::<Seq<char>, FirmwareUpdateErrorView>(mcus[k].name@)
    &&& !(exists|j: int| 0 <= j < mcus.len() && #[trigger] is_device_mcu(mcus[j], dev_id)) && !(exists|j: int|
        #[trigger] is_fallback_mcu(mcus, maj_min_spec(bootloader), j)) ==> res == Err::<Seq<char>, FirmwareUpdateErrorView>(
        FirmwareUpdateErrorView::Other(repair_failure_message(se_target_id, bootloader, dev_id, 0)))
}

/// A repair only ever installs a production MCU, or the bootloader that one requires:
/// whatever it chooses is the name, or the required bootloader, of an MCU of `mcus`
/// that is neither a development nor a release-candidate version.
pub proof fn lemma_repair_installs_production_mcu(
    bootloader: Seq<char>,
    se_target_id: u32,
    dev_id: i64,
    mcus: Seq<McuVersion>,
    res: Result<Seq<char>, FirmwareUpdateErrorView>,
)
    requires
        is_repair_choice(bootloader, se_target_id, dev_id, mcus, res),
        res is Ok,
    ensures
        exists|k: int| {
            &&& 0 <= k < mcus.len()
            &&& res == Ok::<Seq<char>, FirmwareUpdateErrorView>(#[trigger] mcus[k].name@)
                || res == Ok::<Seq<char>, FirmwareUpdateErrorView>(mcus[k].from_bootloader_version@)
            &&& !contains_text(mcus[k].name@, "99"@)
            &&& !contains_text(mcus[k].name@, "-nordp"@)
            &&& !contains_text(mcus[k].name@, "-norpd"@)
            &&& !contains_text(mcus[k].name@, "-dev"@)
            &&& !contains_text(mcus[k].name@, "-rc"@)
            &&& mcus[k].from_bootloader_version@ != "none"@
            &&& mcus[k].from_bootloader_version@ != "rien"@
            &&& !contains_text(mcus[k].from_bootloader_version@, "noneee"@)
        },
{
    if exists|j: int| 0 <= j < mcus.len() && #[trigger] is_device_mcu(mcus[j], dev_id) {
        let k = choose|k: int| #[trigger] is_best_device_mcu(mcus, dev_id, k) && res == Ok::<Seq<char>, FirmwareUpdateErrorView>(
            if maj_min_spec(mcus[k].from_bootloader_version@) == maj_min_spec(bootloader) {
                mcus[k].name@
            } else {
                mcus[k].from_bootloader_version@
            });
        assert(is_production_mcu(mcus[k]));
    } else if exists|j: int| #[trigger] is_fallback_mcu(mcus, maj_min_spec(bootloader), j) {
        let k = choose|k: int| #[trigger] is_fallback_mcu(mcus, maj_min_spec(bootloader), k) && (forall|j: int|
            0 <= j < k ==> !is_fallback_mcu(mcus, maj_min_spec(bootloader), j)) && res == Ok::<Seq<char>, FirmwareUpdateErrorView>(mcus[k].name@);
        assert(is_production_mcu(mcus[k]));
    }
}

/// Find the firmware or bootloader version to install to repair a device stuck in
/// bootloader mode, following Ledger Live: among the production MCUs of the device's
/// version (`device_version_id`, which the API gives for the device's SE target id),
/// take the highest-versioned one; install it when the bootloader it requires has the
/// device's bootloader major.minor version, otherwise install that bootloader first.
/// Without any MCU for the device, install the first production MCU whose required
/// bootloader matches the device's.
pub fn find_mcu_for_repair_v2(device_info: &DeviceInfo, device_version_id: i64, all_mcus: &Vec<McuVersion>) -> (res: Result<String, FirmwareUpdateError>)
    ensures
        is_repair_choice(device_info.version@, device_info.se_target_id, device_version_id, all_mcus@, text_or_error(res)),
{
    let ghost mcus = all_mcus@;
    let ghost dev_id = device_version_id;
    let current_mm = get_bootloader_maj_min(device_info.version.as_str());
    let mut best: Option<usize> = None;
    let mut best_key: Vec<u32> = Vec::new();
    let mut device_count: u64 = 0;
    let mut i: usize = 0;
    while i < all_mcus.len()
        invariant
            mcus == all_mcus@,
            dev_id == device_version_id,
            0 <= i <= mcus.len(),
            device_count <= i,
            (device_count == 0) <==> (forall|j: int| 0 <= j < i ==> !#[trigger] is_device_mcu(mcus[j], dev_id)),
            best is None <==> (forall|j: int| 0 <= j < i ==> !#[trigger] is_device_mcu(mcus[j], dev_id)),
            best matches Some(b) ==> {
                &&& b < i
                &&& is_device_mcu(mcus[b as int], dev_id)
                &&& best_key@ == mcu_key(mcus, b as int)
                &&& forall|j: int|
                    0 <= j < i && #[trigger] is_device_mcu(mcus[j], dev_id) ==> !lex_lt(mcu_key(mcus, b as int), mcu_key(mcus, j))
                        && (j > b ==> lex_lt(mcu_key(mcus, j), mcu_key(mcus, b as int)))
            },
        decreases mcus.len() - i,
    {
        let m = &all_mcus[i];
        let is_dev_mcu = production_mcu(m) && contains_id(&m.device_versions, device_version_id);
        assert(is_dev_mcu == is_device_mcu(mcus[i as int], dev_id));
        if is_dev_mcu {
            device_count = device_count + 1;
            let key = version_components(m.name.as_str());
            proof {
                lemma_lex_irreflexive(key@);
            }
            match best {
                None => {
                    best = Some(i);
                    best_key = key;
                },
                Some(b) => {
                    if !lex_less(&key, &best_key) {
                        proof {
                            lemma_lex_total(key@, best_key@);
                            assert forall|j: int| 0 <= j < i && #[trigger] is_device_mcu(mcus[j], dev_id) implies !lex_lt(key@, mcu_key(mcus, j)) by {
                                if lex_lt(key@, mcu_key(mcus, j)) {
                                    if key@ != best_key@ {
                                        lemma_lex_transitive(best_key@, key@, mcu_key(mcus, j));
                                    }
                                }
                            }
                        }
                        best = Some(i);
                        best_key = key;
                    } else {
                        proof {
                            if lex_lt(best_key@, key@) {
                                lemma_lex_transitive(best_key@, key@, best_key@);
                                lemma_lex_irreflexive(best_key@);
                            }
                        }
                    }
                },
            }
        }
        i = i + 1;
    }
    match best {
        Some(b) => {
            let m = &all_mcus[b];
            assert(is_best_device_mcu(mcus, dev_id, b as int));
            let expected_mm = get_bootloader_maj_min(m.from_bootloader_version.as_str());
            let res = if expected_mm == current_mm {
                m.name.clone()
            } else {
                m.from_bootloader_version.clone()
            };
            assert(is_best_device_mcu(all_mcus@, device_version_id, b as int));
            return Ok(res);
        },
        None => {},
    }
    let mut k: usize = 0;
    while k < all_mcus.len()
        invariant
            mcus == all_mcus@,
            0 <= k <= mcus.len(),
            current_mm@ == maj_min_spec(device_info.version@),
            dev_id == device_version_id,
            forall|j: int| 0 <= j < mcus.len() ==> !#[trigger] is_device_mcu(mcus[j], dev_id),
            forall|j: int| 0 <= j < k ==> !#[trigger] is_fallback_mcu(mcus, current_mm@, j),
        decreases mcus.len() - k,
    {
        let m = &all_mcus[k];
        if production_mcu(m) {
            let from_mm = get_bootloader_maj_min(m.from_bootloader_version.as_str());
            if from_mm == current_mm {
                assert(is_fallback_mcu(mcus, current_mm@, k as int));
                return Ok(m.name.clone());
            }
        }
        k = k + 1;
    }
    let mut msg = String::from_str("No compatible firmware found for SE target 0x");
    push_hex_min(&mut msg, device_info.se_target_id as u64);
    msg.append(" with bootloader ");
    msg.append(device_info.version.as_str());
    msg.append(". Device version ID: ");
    push_decimal_i64(&mut msg, device_version_id);
    msg.append(", tried ");
    crate::text::push_decimal(&mut msg, device_count);
    msg.append(" MCUs");
    assert(msg@ =~= repair_failure_message(device_info.se_target_id, device_info.version@, device_version_id, 0));
    Err(FirmwareUpdateError::Other(msg))
}

/// Whether MCU `m` can be flashed from a bootloader of major.minor version `bl`: the
/// bootloader it requires has that major.minor version, or it requires none.
pub open spec fn is_legacy_compatible(m: McuVersion, bl: Seq<char>) -> bool {
    maj_min_spec(m.from_bootloader_version@) == bl || m.from_bootloader_version@ == "none"@
}

/// Whether MCU `k` is the highest-versioned MCU that can be flashed from bootloader
/// `bl`, the last one when several are equally high.
pub open spec fn is_best_legacy_mcu(mcus: Seq<McuVersion>, bl: Seq<char>, k: int) -> bool {
    &&& 0 <= k < mcus.len()
    &&& is_legacy_compatible(mcus[k], bl)
    &&& forall|j: int|
        0 <= j < mcus.len() && #[trigger] is_legacy_compatible(mcus[j], bl) ==> !lex_lt(mcu_key(mcus, k), mcu_key(mcus, j))
            && (j > k ==> lex_lt(mcu_key(mcus, j), mcu_key(mcus, k)))
}

/// Whether MCU `m` has a version above the bootloader version whose numeric components
/// are `bl_key`, comparing the first two components.
pub open spec fn is_higher_mcu(m: McuVersion, bl_key: Seq<u32>) -> bool {
    let k = version_key(m.name@);
    k.len() >= 2 && bl_key.len() >= 2 && (k[0] > bl_key[0] || (k[0] == bl_key[0] && k[1] > bl_key[1]))
}

/// Whether `m` can be flashed from bootloader `bl` (see [`is_legacy_compatible`]).
fn legacy_compatible(m: &McuVersion, bl: &String) -> (b: bool)
    ensures
        b == is_legacy_compatible(*m, bl@),
{
    let from_bl = get_bootloader_maj_min(m.from_bootloader_version.as_str());
    from_bl == *bl || str_eq(&m.from_bootloader_version, "none")
}

/// Whether `m` has a version above the bootloader version of components `bl_key` (see
/// [`is_higher_mcu`]).
fn higher_mcu(m: &McuVersion, bl_key: &Vec<u32>) -> (b: bool)
    ensures
        b == is_higher_mcu(*m, bl_key@),
{
    let k = version_components(m.name.as_str());
    k.len() >= 2 && bl_key.len() >= 2 && (k[0] > bl_key[0] || (k[0] == bl_key[0] && k[1] > bl_key[1]))
}

/// Find the MCU version to install to repair a device stuck in bootloader mode from the
/// bootloader version alone: the highest-versioned MCU that can be flashed from the
/// device's bootloader (its major.minor version, or no requirement); without any, the
/// first MCU whose version is above the bootloader's.
pub fn find_mcu_for_repair(device_info: &DeviceInfo, mcus: &Vec<McuVersion>) -> (res: Result<String, FirmwareUpdateError>)
    ensures
        (exists|j: int| 0 <= j < mcus@.len() && #[trigger] is_legacy_compatible(mcus@[j], maj_min_spec(device_info.version@)))
            ==> exists|k: int| #[trigger] is_best_legacy_mcu(mcus@, maj_min_spec(device_info.version@), k)
                && text_or_error(res) == Ok::<Seq<char>, FirmwareUpdateErrorView>(mcus@[k].name@),
        !(exists|j: int| 0 <= j < mcus@.len() && #[trigger] is_legacy_compatible(mcus@[j], maj_min_spec(device_info.version@)))
            && (exists|j: int| 0 <= j < mcus@.len() && #[trigger] is_higher_mcu(mcus@[j], version_key(maj_min_spec(device_info.version@))))
            ==> exists|k: int| 0 <= k < mcus@.len() && #[trigger] is_higher_mcu(mcus@[k], version_key(maj_min_spec(device_info.version@)))
                && (forall|j: int| 0 <= j < k ==> !is_higher_mcu(mcus@[j], version_key(maj_min_spec(device_info.version@))))
                && text_or_error(res) == Ok::<Seq<char>, FirmwareUpdateErrorView>(mcus@[k].name@),
        !(exists|j: int| 0 <= j < mcus@.len() && #[trigger] is_legacy_compatible(mcus@[j], maj_min_spec(device_info.version@)))
            && !(exists|j: int| 0 <= j < mcus@.len() && #[trigger] is_higher_mcu(mcus@[j], version_key(maj_min_spec(device_info.version@))))
            ==> text_or_error(res) == Err::<Seq<char>, FirmwareUpdateErrorView>(FirmwareUpdateErrorView::Other(
                "No compatible MCU found for bootloader version "@ + maj_min_spec(device_info.version@))),
{
    let ghost ms = mcus@;
    let bl = get_bootloader_maj_min(device_info.version.as_str());
    let ghost blv = bl@;
    let mut best: Option<usize> = None;
    let mut best_key: Vec<u32> = Vec::new();
    let mut i: usize = 0;
    while i < mcus.len()
        invariant
            ms == mcus@,
            blv == bl@,
            0 <= i <= ms.len(),
            best is None <==> (forall|j: int| 0 <= j < i ==> !#[trigger] is_legacy_compatible(ms[j], blv)),
            best matches Some(b) ==> {
                &&& b < i
                &&& is_legacy_compatible(ms[b as int], blv)
                &&& best_key@ == mcu_key(ms, b as int)
                &&& forall|j: int|
                    0 <= j < i && #[trigger] is_legacy_compatible(ms[j], blv) ==> !lex_lt(mcu_key(ms, b as int), mcu_key(ms, j))
                        && (j > b ==> lex_lt(mcu_key(ms, j), mcu_key(ms, b as int)))
            },
        decreases ms.len() - i,
    {
        let m = &mcus[i];
        if legacy_compatible(m, &bl) {
            let key = version_components(m.name.as_str());
            proof {
                lemma_lex_irreflexive(key@);
            }
            match best {
                None => {
                    best = Some(i);
                    best_key = key;
                },
                Some(b) => {
                    if !lex_less(&key, &best_key) {
                        proof {
                            lemma_lex_total(key@, best_key@);
                            assert forall|j: int| 0 <= j < i && #[trigger] is_legacy_compatible(ms[j], blv) implies !lex_lt(key@, mcu_key(ms, j)) by {
                                if lex_lt(key@, mcu_key(ms, j)) {
                                    if key@ != best_key@ {
                                        lemma_lex_transitive(best_key@, key@, mcu_key(ms, j));
                                    }
                                }
                            }
                        }
                        best = Some(i);
                        best_key = key;
                    } else {
                        proof {
                            if lex_lt(best_key@, key@) {
                                lemma_lex_transitive(best_key@, key@, best_key@);
                                lemma_lex_irreflexive(best_key@);
                            }
                        }
                    }
                },
            }
        }
        i = i + 1;
    }
    match best {
        Some(b) => {
            assert(is_best_legacy_mcu(ms, blv, b as int));
            return Ok(mcus[b].name.clone());
        },
        None => {},
    }
    let bl_key = version_components(bl.as_str());
    let mut k: usize = 0;
    while k < mcus.len()
        invariant
            ms == mcus@,
            blv == bl@,
            bl_key@ == version_key(blv),
            blv == maj_min_spec(device_info.version@),
            forall|j: int| 0 <= j < ms.len() ==> !#[trigger] is_legacy_compatible(ms[j], blv),
            0 <= k <= ms.len(),
            forall|j: int| 0 <= j < k ==> !#[trigger] is_higher_mcu(ms[j], bl_key@),
        decreases ms.len() - k,
    {
        if higher_mcu(&mcus[k], &bl_key) {
            assert(is_higher_mcu(ms[k as int], bl_key@));
            return Ok(mcus[k].name.clone());
        }
        k = k + 1;
    }
    let msg = String::from_str("No compatible MCU found for bootloader version ").concat(bl.as_str());
    Err(FirmwareUpdateError::Other(msg))
}

/// The outcome of an MCU flash, given what the session returned and the progress it
/// had reached (in percent): after a successful flash the device reboots, which resets
/// the websocket, so a websocket error mentioning "Connection reset" or "closed" counts
/// as success once the progress has reached 100%.
pub open spec fn mcu_flash_outcome_spec(result: Result<(), FirmwareUpdateErrorView>, last_progress: u32) -> Result<(), FirmwareUpdateErrorView> {
    match result {
        Err(FirmwareUpdateErrorView::WebSocketError(msg)) => if last_progress >= 100 && (contains_text(msg, "Connection reset"@)
            || contains_text(msg, "closed"@)) {
            Ok(())
        } else {
            Err(FirmwareUpdateErrorView::WebSocketError(msg))
        },
        other => other,
    }
}

/// The outcome of an MCU flash (see [`mcu_flash_outcome_spec`]).
pub fn mcu_flash_outcome(result: Result<(), FirmwareUpdateError>, last_progress: u32) -> (res: Result<(), FirmwareUpdateError>)
    ensures
        match res {
            Ok(()) => mcu_flash_outcome_spec(match result {
                Ok(()) => Ok(()),
                Err(e) => Err(e@),
            }, last_progress) == Ok::<(), FirmwareUpdateErrorView>(()),
            Err(e) => mcu_flash_outcome_spec(match result {
                Ok(()) => Ok(()),
                Err(e) => Err(e@),
            }, last_progress) == Err::<(), FirmwareUpdateErrorView>(e@),
        },
{
    match result {
        Ok(()) => Ok(()),
        Err(FirmwareUpdateError::WebSocketError(msg)) => {
            if last_progress >= 100 && (contains_str(msg.as_str(), "Connection reset") || contains_str(msg.as_str(), "closed")) {
                Ok(())
            } else {
                Err(FirmwareUpdateError::WebSocketError(msg))
            }
        },
        Err(e) => Err(e),
    }
}

/// The text whose SHA-256 digest gives the firmware salt for the user id `ts`.
pub open spec fn salt_input(ts: nat) -> Seq<char> {
    decimal(ts) + "|firmwareSalt"@
}

/// The SHA-256 digest of the bytes `b`, as `sha2::Sha256::digest` computes it.
pub uninterp spec fn sha256_digest(b: Seq<u8>) -> Seq<u8>;

/// The SHA-256 digest of `data` (`sha2::Sha256::digest`): 32 bytes, named by
/// [`sha256_digest`].
#[verifier::external_body]
fn sha256(data: &[u8]) -> (digest: Vec<u8>)
    ensures
        digest@ == sha256_digest(data@),
        digest@.len() == 32,
{
    sha2::Sha256::digest(data).to_vec()
}

/// The salt a digest gives: its first six lowercase hexadecimal digits.
pub open spec fn salt_from_digest_spec(digest: Seq<u8>) -> Seq<char> {
    hex_encode_spec(digest).take(6)
}

/// The salt a digest gives (see [`salt_from_digest_spec`]).
pub fn salt_from_digest(digest: &[u8]) -> (salt: String)
    requires
        digest@.len() >= 3,
    ensures
        salt@ == salt_from_digest_spec(digest@),
{
    let head: Vec<u8> = vec![digest[0], digest[1], digest[2]];
    let salt = hex_encode(head.as_slice());
    assert(salt@ =~= salt_from_digest_spec(digest@));
    salt
}

/// The firmware salt for the user id `ts`: the first six hexadecimal digits of the
/// SHA-256 digest of `"{ts}|firmwareSalt"`.
pub open spec fn firmware_salt_spec(ts: nat) -> Seq<char> {
    salt_from_digest_spec(sha256_digest(encode_utf8(salt_input(ts))))
}

/// The salt of a digest of three bytes or more is six lowercase hexadecimal digits.
pub proof fn lemma_salt_digits(digest: Seq<u8>)
    requires
        digest.len() >= 3,
    ensures
        salt_from_digest_spec(digest).len() == 6,
        forall|i: int| 0 <= i < 6 ==> is_lower_hex_digit(#[trigger] salt_from_digest_spec(digest)[i]),
{
    let salt = salt_from_digest_spec(digest);
    assert forall|i: int| 0 <= i < 6 implies is_lower_hex_digit(#[trigger] salt[i]) by {
        let b = digest[i / 2];
        if i % 2 == 0 {
            assert(salt[i] == hex_digit_lower((b / 16) as nat));
        } else {
            assert(salt[i] == hex_digit_lower((b % 16) as nat));
        }
    }
}

/// The firmware salt for the user id `ts` (see [`firmware_salt_spec`]): six lowercase
/// hexadecimal digits.
pub fn firmware_salt(ts: u128) -> (salt: String)
    ensures
        salt@ == firmware_salt_spec(ts as nat),
        salt@.len() == 6,
        forall|i: int| 0 <= i < 6 ==> is_lower_hex_digit(#[trigger] salt@[i]),
{
    let mut input = String::new();
    push_decimal_u128(&mut input, ts);
    input.append("|firmwareSalt");
    assert(input@ =~= salt_input(ts as nat));
    let digest = sha256(input.as_str().as_bytes());
    proof {
        lemma_salt_digits(digest@);
    }
    salt_from_digest(digest.as_slice())
}

/// A reading of the system clock.
#[verifier::external_type_specification]
#[verifier::external_body]
pub struct ExSystemTime(std::time::SystemTime);

/// The error of reading a time against a later one.
#[verifier::external_type_specification]
#[verifier::external_body]
pub struct ExSystemTimeError(std::time::SystemTimeError);

/// The current time of the system clock (`SystemTime::now`); nothing is known of it.
#[verifier::external_body]
fn system_time_now() -> std::time::SystemTime {
    std::time::SystemTime::now()
}

/// How long after the Unix epoch `t` lies (`SystemTime::duration_since(UNIX_EPOCH)`),
/// an error when it lies before; which of the two comes back depends on the clock and is
/// left unsaid.
#[verifier::external_body]
fn since_unix_epoch(t: &std::time::SystemTime) -> Result<std::time::Duration, std::time::SystemTimeError> {
    t.duration_since(std::time::UNIX_EPOCH)
}

/// The whole nanoseconds of `d` (`Duration::as_nanos`); the value depends on the clock
/// reading `d` came from and is left unsaid.
#[verifier::external_body]
fn duration_nanos(d: &std::time::Duration) -> u128 {
    d.as_nanos()
}

/// Nanoseconds since the Unix epoch by the system clock, 0 when the clock reads earlier.
fn unix_time_nanos() -> u128 {
    let now = system_time_now();
    match since_unix_epoch(&now) {
        Ok(d) => duration_nanos(&d),
        Err(_) => 0,
    }
}

/// Generate a firmware salt with the current time, in nanoseconds since the Unix epoch,
/// as user id (see [`firmware_salt`]).
pub fn generate_firmware_salt() -> (salt: String)
    ensures
        exists|ts: nat| ts < 0x1_0000_0000_0000_0000_0000_0000_0000_0000 && salt@ == firmware_salt_spec(ts),
        salt@.len() == 6,
        forall|i: int| 0 <= i < 6 ==> is_lower_hex_digit(#[trigger] salt@[i]),
{
    let ts = unix_time_nanos();
    firmware_salt(ts)
}

/// The OSU version name for a firmware version name: the name itself when it already
/// ends with "-osu", otherwise the name followed by "-osu".
pub open spec fn osu_version_name_spec(name: Seq<char>) -> Seq<char> {
    if name.len() >= 4 && name.subrange(name.len() - 4, name.len() as int) == "-osu"@ {
        name
    } else {
        name + "-osu"@
    }
}

/// The OSU version name for a firmware version name (see [`osu_version_name_spec`]).
pub fn osu_version_name(version_name: &str) -> (res: String)
    ensures
        res@ == osu_version_name_spec(version_name@),
{
    proof {
        reveal_strlit("-osu");
    }
    let v = crate::text::chars_of(version_name);
    let suffix = crate::text::chars_of("-osu");
    let n = v.len();
    let mut ends = n >= suffix.len();
    if ends {
        let mut j: usize = 0;
        while j < suffix.len()
            invariant
                v@ == version_name@,
                suffix@ == "-osu"@,
                n == v@.len(),
                n >= suffix@.len(),
                0 <= j <= suffix@.len(),
                ends == forall|q: int| 0 <= q < j ==> v@[n - suffix@.len() + q] == suffix@[q],
            decreases suffix@.len() - j,
        {
            if v[n - suffix.len() + j] != suffix[j] {
                ends = false;
            }
            j = j + 1;
        }
        if ends {
            assert(v@.subrange(n - suffix@.len(), n as int) =~= suffix@);
        } else {
            assert(v@.subrange(n - suffix@.len(), n as int) != suffix@) by {
                let q = choose|q: int| 0 <= q < suffix@.len() && v@[n - suffix@.len() + q] != suffix@[q];
                assert(v@.subrange(n - suffix@.len(), n as int)[q] == v@[n - suffix@.len() + q]);
            }
        }
    }
    let mut res = String::from_str(version_name);
    if !ends {
        res.append("-osu");
    }
    res
}

impl FirmwareUpdateError {
    /// The message describing this error.
    pub open spec fn message_spec(e: FirmwareUpdateErrorView) -> Seq<char> {
        match e {
            FirmwareUpdateErrorView::AlreadyUpToDate => "Firmware is already up to date"@,
            FirmwareUpdateErrorView::DeviceNotOnDashboard => "Device must be on dashboard to start update"@,
            FirmwareUpdateErrorView::DeviceNotInOsuMode => "Device must be in OSU mode to install final firmware"@,
            FirmwareUpdateErrorView::DeviceNotOnboarded => "Device is not onboarded. Please complete device setup first."@,
            FirmwareUpdateErrorView::NotEnoughSpace => "Not enough space on device. Please uninstall some apps."@,
            FirmwareUpdateErrorView::UserRefused => "Update was cancelled on the device"@,
            FirmwareUpdateErrorView::TooManyMcuIterations => "MCU flash failed after "@ + decimal(MAX_MCU_ITERATIONS as nat) + " attempts"@,
            FirmwareUpdateErrorView::DeviceDisconnected => "Device disconnected during update"@,
            FirmwareUpdateErrorView::ApiError(m) => "API error: "@ + m,
            FirmwareUpdateErrorView::WebSocketError(m) => "WebSocket error: "@ + m,
            FirmwareUpdateErrorView::UnknownMcu => "Unknown or incompatible MCU version"@,
            FirmwareUpdateErrorView::NoUpdateAvailable => "No firmware update available for this device"@,
            FirmwareUpdateErrorView::Other(m) => m,
        }
    }

    /// The message describing this error.
    pub fn message(&self) -> (m: String)
        ensures
            m@ == Self::message_spec(self@),
    {
        match self {
            FirmwareUpdateError::AlreadyUpToDate => String::from_str("Firmware is already up to date"),
            FirmwareUpdateError::DeviceNotOnDashboard => String::from_str("Device must be on dashboard to start update"),
            FirmwareUpdateError::DeviceNotInOsuMode => String::from_str("Device must be in OSU mode to install final firmware"),
            FirmwareUpdateError::DeviceNotOnboarded => String::from_str("Device is not onboarded. Please complete device setup first."),
            FirmwareUpdateError::NotEnoughSpace => String::from_str("Not enough space on device. Please uninstall some apps."),
            FirmwareUpdateError::UserRefused => String::from_str("Update was cancelled on the device"),
            FirmwareUpdateError::TooManyMcuIterations => {
                let mut m = String::from_str("MCU flash failed after ");
                crate::text::push_decimal(&mut m, MAX_MCU_ITERATIONS as u64);
                m.append(" attempts");
                m
            },
            FirmwareUpdateError::DeviceDisconnected => String::from_str("Device disconnected during update"),
            FirmwareUpdateError::ApiError(e) => String::from_str("API error: ").concat(e.as_str()),
            FirmwareUpdateError::WebSocketError(e) => String::from_str("WebSocket error: ").concat(e.as_str()),
            FirmwareUpdateError::UnknownMcu => String::from_str("Unknown or incompatible MCU version"),
            FirmwareUpdateError::NoUpdateAvailable => String::from_str("No firmware update available for this device"),
            FirmwareUpdateError::Other(e) => e.clone(),
        }
    }
}

/// The error, if any, that a device status word raises during a firmware session:
/// 0x6985 and 0x5501 mean the user refused, 0x6a84 and 0x5103 that there is not enough
/// space, 0x6d07 and 0x6611 that the device is not onboarded.
pub open spec fn firmware_status_error(status: u16) -> Option<FirmwareUpdateErrorView> {
    if status == 0x6985 || status == 0x5501 {
        Some(FirmwareUpdateErrorView::UserRefused)
    } else if status == 0x6a84 || status == 0x5103 {
        Some(FirmwareUpdateErrorView::NotEnoughSpace)
    } else if status == 0x6d07 || status == 0x6611 {
        Some(FirmwareUpdateErrorView::DeviceNotOnboarded)
    } else {
        None
    }
}

/// Checks the status word of a device response during a firmware session (see
/// [`firmware_status_error`]).
pub fn check_firmware_status(status: u16) -> (res: Result<(), FirmwareUpdateError>)
    ensures
        match (res, firmware_status_error(status)) {
            (Ok(()), None) => true,
            (Err(e), Some(se)) => e@ == se,
            _ => false,
        },
{
    if status == 0x6985 || status == 0x5501 {
        Err(FirmwareUpdateError::UserRefused)
    } else if status == 0x6a84 || status == 0x5103 {
        Err(FirmwareUpdateError::NotEnoughSpace)
    } else if status == 0x6d07 || status == 0x6611 {
        Err(FirmwareUpdateError::DeviceNotOnboarded)
    } else {
        Ok(())
    }
}

} // verus!
