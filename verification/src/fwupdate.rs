//! The flows of a firmware update: looking up the update for a device, running it, and
//! repairing a device stuck in its bootloader.
//!
//! Each flow alternates requests (to the Ledger API, to the device, to the HSM) and
//! decisions; the decisions stand here as step functions from the stage reached and
//! what the last request returned to the next stage and the next request. The caller
//! performs the requests.
use vstd::prelude::*;
use vstd::string::StringExecFns;
use crate::device::DeviceInfo;
use crate::firmware::{
    find_mcu_for_repair_v2, is_repair_choice, legacy_mcu_for_bootloader, legacy_mcu_spec, mcu_flash_outcome,
    mcu_flash_outcome_spec, text_or_error, find_best_mcu_version, first_mcu_in, MAX_MCU_ITERATIONS,
    firmware_salt_spec, generate_firmware_salt, mcu_needs_flash, mcu_needs_flash_spec, DeviceVersionResponse,
    FinalFirmware, FirmwareUpdateContext, FirmwareUpdateError, FirmwareUpdateErrorView, McuVersion, OsuFirmware,
};
use crate::version::{contains_str, contains_text, get_bootloader_maj_min, maj_min_spec};
use crate::text::{decimal, push_decimal};
use crate::urls::{
    firmware_install_url_spec, final_install_url, osu_install_url, mcu_flash_url, mcu_flash_url_spec,
    current_firmware_version_url, current_firmware_version_url_spec, device_version_url, device_version_url_spec,
    final_firmware_url, final_firmware_url_spec, latest_firmware_url, latest_firmware_url_spec, mcu_versions_url,
    mcu_versions_url_spec,
};

verus! {

/// Where the lookup of a device's firmware update stands.
pub enum LookupStage {
    /// Waiting for the API's device version of the device.
    AwaitingDeviceVersion,
    /// Waiting for the id of the device's current firmware.
    AwaitingFirmwareId { device_version_id: i64 },
    /// Waiting for the latest OSU the API offers.
    AwaitingLatest,
    /// Waiting for the final firmware that OSU `osu` leads to.
    AwaitingFinal { osu: OsuFirmware },
    /// Waiting for the MCU versions.
    AwaitingMcus { osu: OsuFirmware, final_firmware: FinalFirmware },
    /// Done.
    Finished,
}

/// What the last request of a lookup returned.
pub enum LookupEvent {
    DeviceVersion(Result<DeviceVersionResponse, FirmwareUpdateError>),
    FirmwareId(Result<i64, FirmwareUpdateError>),
    Latest(Result<Option<OsuFirmware>, FirmwareUpdateError>),
    Final(Result<FinalFirmware, FirmwareUpdateError>),
    Mcus(Result<Vec<McuVersion>, FirmwareUpdateError>),
}

/// The next request of a lookup, or its outcome: the update to perform, `None` when
/// the firmware is up to date.
pub enum LookupAction {
    FetchDeviceVersion { url: String },
    FetchFirmwareId { url: String },
    FetchLatest { url: String },
    FetchFinal { url: String },
    FetchMcus { url: String },
    Finish(Result<Option<FirmwareUpdateContext>, FirmwareUpdateError>),
}

/// Whether `event` is the answer to the request that `stage` waits for.
pub open spec fn lookup_event_fits(stage: LookupStage, event: LookupEvent) -> bool {
    match (stage, event) {
        (LookupStage::AwaitingDeviceVersion, LookupEvent::DeviceVersion(_)) => true,
        (LookupStage::AwaitingFirmwareId { .. }, LookupEvent::FirmwareId(_)) => true,
        (LookupStage::AwaitingLatest, LookupEvent::Latest(_)) => true,
        (LookupStage::AwaitingFinal { .. }, LookupEvent::Final(_)) => true,
        (LookupStage::AwaitingMcus { .. }, LookupEvent::Mcus(_)) => true,
        _ => false,
    }
}

/// Whether `action` ends the lookup with error `e`.
pub open spec fn lookup_fails_with(action: LookupAction, e: FirmwareUpdateErrorView) -> bool {
    action matches LookupAction::Finish(Err(f)) && f@ == e
}

/// The name of the device's MCU version, empty when unknown.
pub open spec fn mcu_name(info: DeviceInfo) -> Seq<char> {
    match info.mcu_version {
        Some(v) => v@,
        None => Seq::empty(),
    }
}

/// The first request of the lookup of the firmware update of `device_info`: its device
/// version.
pub fn latest_firmware_lookup_start(device_info: &DeviceInfo) -> (res: (LookupStage, LookupAction))
    ensures
        res.0 is AwaitingDeviceVersion,
        res.1 matches LookupAction::FetchDeviceVersion { url } && url@ == device_version_url_spec(device_info.target_id),
{
    (LookupStage::AwaitingDeviceVersion, LookupAction::FetchDeviceVersion { url: device_version_url(device_info.target_id) })
}

/// One step of the lookup of the firmware update of `device_info`: from its device
/// version, the id of its current firmware; then the latest OSU for them (none: the
/// firmware is up to date); the final firmware it leads to; and whether the MCU must be
/// flashed (see [`mcu_needs_flash_spec`]). An error of a request ends the lookup with it.
pub fn latest_firmware_lookup_step(stage: LookupStage, event: LookupEvent, device_info: &DeviceInfo) -> (res: (LookupStage, LookupAction))
    requires
        lookup_event_fits(stage, event),
    ensures
        event matches LookupEvent::DeviceVersion(Err(e)) ==> res.0 is Finished && lookup_fails_with(res.1, e@),
        event matches LookupEvent::DeviceVersion(Ok(dv)) ==> res.0 == (LookupStage::AwaitingFirmwareId { device_version_id: dv.id })
            && (res.1 matches LookupAction::FetchFirmwareId { url } && url@ == current_firmware_version_url_spec(dv.id, device_info.version@)),
        event matches LookupEvent::FirmwareId(Err(e)) ==> res.0 is Finished && lookup_fails_with(res.1, e@),
        event matches LookupEvent::FirmwareId(Ok(id)) ==> res.0 is AwaitingLatest
            && (res.1 matches LookupAction::FetchLatest { url } && exists|ts: nat| url@ == #[trigger] latest_firmware_url_spec(
                firmware_salt_spec(ts), id, stage->device_version_id)),
        event matches LookupEvent::Latest(Err(e)) ==> res.0 is Finished && lookup_fails_with(res.1, e@),
        event matches LookupEvent::Latest(Ok(None)) ==> res.0 is Finished && (res.1 matches LookupAction::Finish(Ok(None))),
        event matches LookupEvent::Latest(Ok(Some(osu))) ==> res.0 == (LookupStage::AwaitingFinal { osu })
            && (res.1 matches LookupAction::FetchFinal { url } && url@ == final_firmware_url_spec(osu.next_se_firmware_final_version)),
        event matches LookupEvent::Final(Err(e)) ==> res.0 is Finished && lookup_fails_with(res.1, e@),
        event matches LookupEvent::Final(Ok(f)) ==> res.0 == (LookupStage::AwaitingMcus { osu: stage->AwaitingFinal_osu, final_firmware: f })
            && (res.1 matches LookupAction::FetchMcus { url } && url@ == mcu_versions_url_spec()),
        event matches LookupEvent::Mcus(Err(e)) ==> res.0 is Finished && lookup_fails_with(res.1, e@),
        event matches LookupEvent::Mcus(Ok(mcus)) ==> res.0 is Finished && (stage matches LookupStage::AwaitingMcus { osu, final_firmware }
            && res.1 matches LookupAction::Finish(Ok(Some(ctx))) && ctx.osu == osu && ctx.final_firmware == final_firmware
            && ctx.should_flash_mcu == mcu_needs_flash_spec(mcus@, mcu_name(*device_info), final_firmware.mcu_versions@)),
{
    match event {
        LookupEvent::DeviceVersion(Err(e)) => (LookupStage::Finished, LookupAction::Finish(Err(e))),
        LookupEvent::DeviceVersion(Ok(dv)) => (
            LookupStage::AwaitingFirmwareId { device_version_id: dv.id },
            LookupAction::FetchFirmwareId { url: current_firmware_version_url(dv.id, device_info.version.as_str()) },
        ),
        LookupEvent::FirmwareId(Err(e)) => (LookupStage::Finished, LookupAction::Finish(Err(e))),
        LookupEvent::FirmwareId(Ok(id)) => {
            let device_version_id = match stage {
                LookupStage::AwaitingFirmwareId { device_version_id } => device_version_id,
                _ => 0,
            };
            let salt = generate_firmware_salt();
            let url = latest_firmware_url(salt.as_str(), id, device_version_id);
            (LookupStage::AwaitingLatest, LookupAction::FetchLatest { url })
        },
        LookupEvent::Latest(Err(e)) => (LookupStage::Finished, LookupAction::Finish(Err(e))),
        LookupEvent::Latest(Ok(None)) => (LookupStage::Finished, LookupAction::Finish(Ok(None))),
        LookupEvent::Latest(Ok(Some(osu))) => {
            let url = final_firmware_url(osu.next_se_firmware_final_version);
            (LookupStage::AwaitingFinal { osu }, LookupAction::FetchFinal { url })
        },
        LookupEvent::Final(Err(e)) => (LookupStage::Finished, LookupAction::Finish(Err(e))),
        LookupEvent::Final(Ok(final_firmware)) => match stage {
            LookupStage::AwaitingFinal { osu } => (
                LookupStage::AwaitingMcus { osu, final_firmware },
                LookupAction::FetchMcus { url: mcu_versions_url() },
            ),
            _ => (LookupStage::Finished, LookupAction::Finish(Ok(None))),
        },
        LookupEvent::Mcus(Err(e)) => (LookupStage::Finished, LookupAction::Finish(Err(e))),
        LookupEvent::Mcus(Ok(mcus)) => match stage {
            LookupStage::AwaitingMcus { osu, final_firmware } => {
                let should_flash_mcu = mcu_needs_flash(&mcus, &device_info.mcu_version, &final_firmware.mcu_versions);
                (
                    LookupStage::Finished,
                    LookupAction::Finish(Ok(Some(FirmwareUpdateContext { osu, final_firmware, should_flash_mcu }))),
                )
            },
            _ => (LookupStage::Finished, LookupAction::Finish(Ok(None))),
        },
    }
}

/// The sessions of a firmware update.
#[derive(Debug, Clone, Copy, PartialEq, Eq, Structural)]
pub enum FirmwareSession {
    /// Installing the OSU.
    Osu,
    /// Flashing the MCU (or bootloader), at attempt `iteration`.
    Mcu { iteration: u32 },
    /// Installing the final firmware.
    Final,
}

/// Where a firmware update stands.
pub enum FwUpdateStage {
    /// Waiting for the device's information.
    AwaitingDeviceInfo,
    /// Waiting for the end of the OSU installation.
    InstallingOsu,
    /// Waiting while the device reboots after the OSU.
    AwaitingReboot,
    /// Waiting for the MCU versions.
    AwaitingMcus,
    /// Waiting for the device's information at the start of MCU attempt `iteration`.
    AwaitingBootloaderInfo { iteration: u32, mcus: Vec<McuVersion> },
    /// Waiting for the end of MCU flash `iteration`.
    FlashingMcu { iteration: u32, mcus: Vec<McuVersion> },
    /// Waiting while the device processes MCU flash `iteration`.
    SettlingMcu { iteration: u32, mcus: Vec<McuVersion> },
    /// Waiting for the device's information after the last MCU attempt.
    CheckingBootloaderExit,
    /// Waiting for the device's information before the final firmware.
    AwaitingOsuInfo,
    /// Waiting for the end of the final firmware installation.
    InstallingFinal,
    /// Done.
    Finished,
}

/// What the last request of a firmware update returned (a failed device query as its
/// message).
pub enum FwUpdateEvent {
    DeviceInfo(Result<DeviceInfo, String>),
    SessionEnded(Result<(), FirmwareUpdateError>),
    Waited,
    McuVersions(Result<Vec<McuVersion>, FirmwareUpdateError>),
}

/// The next request of a firmware update, or its outcome.
pub enum FwUpdateAction {
    /// Query the device's information.
    QueryDeviceInfo,
    /// Run the HSM session `session` at `url`.
    RunSession { session: FirmwareSession, url: String },
    /// Wait `seconds` seconds.
    Wait { seconds: u64 },
    /// Fetch the MCU versions from `url`.
    FetchMcuVersions { url: String },
    /// The update is over, with this outcome.
    Finish(Result<(), FirmwareUpdateError>),
}

/// Whether `event` is the answer to the request that `stage` waits for.
pub open spec fn fw_update_event_fits(stage: FwUpdateStage, event: FwUpdateEvent) -> bool {
    match event {
        FwUpdateEvent::DeviceInfo(_) => stage is AwaitingDeviceInfo || stage is AwaitingBootloaderInfo
            || stage is CheckingBootloaderExit || stage is AwaitingOsuInfo,
        FwUpdateEvent::SessionEnded(_) => stage is InstallingOsu || stage is FlashingMcu || stage is InstallingFinal,
        FwUpdateEvent::Waited => stage is AwaitingReboot || stage is SettlingMcu,
        FwUpdateEvent::McuVersions(_) => stage is AwaitingMcus,
    }
}

/// The MCU attempts of a stage lie between 1 and [`MAX_MCU_ITERATIONS`].
pub open spec fn fw_update_wf(stage: FwUpdateStage) -> bool {
    match stage {
        FwUpdateStage::AwaitingBootloaderInfo { iteration, .. } => 1 <= iteration <= MAX_MCU_ITERATIONS,
        FwUpdateStage::FlashingMcu { iteration, .. } => 1 <= iteration <= MAX_MCU_ITERATIONS,
        FwUpdateStage::SettlingMcu { iteration, .. } => 1 <= iteration <= MAX_MCU_ITERATIONS,
        _ => true,
    }
}

/// How many MCU flashes a stage has used up: those requested so far in the MCU phase,
/// all of them once the phase is over.
pub open spec fn fw_update_flashes_used(stage: FwUpdateStage) -> int {
    match stage {
        FwUpdateStage::AwaitingDeviceInfo => 0,
        FwUpdateStage::InstallingOsu => 0,
        FwUpdateStage::AwaitingReboot => 0,
        FwUpdateStage::AwaitingMcus => 0,
        FwUpdateStage::AwaitingBootloaderInfo { iteration, .. } => iteration - 1,
        FwUpdateStage::FlashingMcu { iteration, .. } => iteration as int,
        FwUpdateStage::SettlingMcu { iteration, .. } => iteration as int,
        _ => MAX_MCU_ITERATIONS as int,
    }
}

/// Whether `action` requests an MCU flash.
pub open spec fn is_mcu_flash(action: FwUpdateAction) -> bool {
    action matches FwUpdateAction::RunSession { session, .. } && session is Mcu
}

/// Whether `action` ends the update with error `e`.
pub open spec fn fw_update_fails_with(action: FwUpdateAction, e: FirmwareUpdateErrorView) -> bool {
    action matches FwUpdateAction::Finish(Err(f)) && f@ == e
}

/// The error of a failed query of the device's information, with message `m`.
pub open spec fn device_info_failure(m: Seq<char>) -> FirmwareUpdateErrorView {
    FirmwareUpdateErrorView::Other("Failed to get device info: "@ + m)
}

/// The first request of a firmware update: the device's information.
pub fn update_firmware_start() -> (res: (FwUpdateStage, FwUpdateAction))
    ensures
        res.0 is AwaitingDeviceInfo,
        res.1 is QueryDeviceInfo,
        fw_update_wf(res.0),
        fw_update_flashes_used(res.0) == 0,
{
    (FwUpdateStage::AwaitingDeviceInfo, FwUpdateAction::QueryDeviceInfo)
}

/// One step of the firmware update described by `context`: install the OSU (the device
/// must not be in its bootloader); when the MCU must be flashed, wait for the reboot,
/// fetch the MCU versions, then, up to [`MAX_MCU_ITERATIONS`] times while the device is
/// in its bootloader, flash the first MCU compatible with the final firmware and wait;
/// after the last attempt the device must have left its bootloader; finally install
/// the final firmware (the device must be in OSU mode). Every update requests at most
/// [`MAX_MCU_ITERATIONS`] MCU flashes: the flashes used never decrease, grow by one
/// with each flash, and stay within the limit.
pub fn update_firmware_step(stage: FwUpdateStage, event: FwUpdateEvent, context: &FirmwareUpdateContext) -> (res: (FwUpdateStage, FwUpdateAction))
    requires
        fw_update_event_fits(stage, event),
        fw_update_wf(stage),
    ensures
        fw_update_wf(res.0),
        fw_update_flashes_used(stage) + (if is_mcu_flash(res.1) { 1int } else { 0 }) <= fw_update_flashes_used(res.0),
        fw_update_flashes_used(res.0) <= MAX_MCU_ITERATIONS,
        res.1 is Finish <==> res.0 is Finished,
        stage is AwaitingDeviceInfo ==> (match event {
            FwUpdateEvent::DeviceInfo(Err(m)) => fw_update_fails_with(res.1, device_info_failure(m@)),
            FwUpdateEvent::DeviceInfo(Ok(info)) => if info.is_bootloader {
                fw_update_fails_with(res.1, FirmwareUpdateErrorView::DeviceNotOnDashboard)
            } else {
                res.0 is InstallingOsu && (res.1 matches FwUpdateAction::RunSession { session, url } && session is Osu
                    && url@ == firmware_install_url_spec(info.target_id, context.osu.firmware@, context.osu.firmware_key@, context.osu.perso@))
            },
            _ => true,
        }),
        stage is InstallingOsu ==> (match event {
            FwUpdateEvent::SessionEnded(Err(e)) => fw_update_fails_with(res.1, e@),
            FwUpdateEvent::SessionEnded(Ok(())) => if context.should_flash_mcu {
                res.0 is AwaitingReboot && (res.1 matches FwUpdateAction::Wait { seconds } && seconds == 3)
            } else {
                res.0 is AwaitingOsuInfo && res.1 is QueryDeviceInfo
            },
            _ => true,
        }),
        stage is AwaitingReboot ==> res.0 is AwaitingMcus
            && (res.1 matches FwUpdateAction::FetchMcuVersions { url } && url@ == mcu_versions_url_spec()),
        stage is AwaitingMcus ==> (match event {
            FwUpdateEvent::McuVersions(Err(e)) => fw_update_fails_with(res.1, e@),
            FwUpdateEvent::McuVersions(Ok(mcus)) => res.0 == (FwUpdateStage::AwaitingBootloaderInfo { iteration: 1, mcus })
                && res.1 is QueryDeviceInfo,
            _ => true,
        }),
        stage matches FwUpdateStage::AwaitingBootloaderInfo { iteration, mcus } ==> (match event {
            FwUpdateEvent::DeviceInfo(Err(m)) => fw_update_fails_with(res.1, device_info_failure(m@)),
            FwUpdateEvent::DeviceInfo(Ok(info)) => if !info.is_bootloader {
                res.0 is AwaitingOsuInfo && res.1 is QueryDeviceInfo
            } else if exists|k: int| #[trigger] first_mcu_in(mcus@, context.final_firmware.mcu_versions@, k) {
                res.0 == (FwUpdateStage::FlashingMcu { iteration, mcus })
                    && exists|k: int| #[trigger] first_mcu_in(mcus@, context.final_firmware.mcu_versions@, k)
                        && (res.1 matches FwUpdateAction::RunSession { session, url }
                            && session == (FirmwareSession::Mcu { iteration })
                            && url@ == mcu_flash_url_spec(info.target_id, mcus@[k].name@))
            } else {
                fw_update_fails_with(res.1, FirmwareUpdateErrorView::UnknownMcu)
            },
            _ => true,
        }),
        stage matches FwUpdateStage::FlashingMcu { iteration, mcus } ==> (match event {
            FwUpdateEvent::SessionEnded(Err(e)) => fw_update_fails_with(res.1, e@),
            FwUpdateEvent::SessionEnded(Ok(())) => res.0 == (FwUpdateStage::SettlingMcu { iteration, mcus })
                && (res.1 matches FwUpdateAction::Wait { seconds } && seconds == 2),
            _ => true,
        }),
        stage matches FwUpdateStage::SettlingMcu { iteration, mcus } ==> (if iteration == MAX_MCU_ITERATIONS {
            res.0 is CheckingBootloaderExit && res.1 is QueryDeviceInfo
        } else {
            res.0 == (FwUpdateStage::AwaitingBootloaderInfo { iteration: (iteration + 1) as u32, mcus })
                && res.1 is QueryDeviceInfo
        }),
        stage is CheckingBootloaderExit ==> (match event {
            FwUpdateEvent::DeviceInfo(Ok(info)) => if info.is_bootloader {
                fw_update_fails_with(res.1, FirmwareUpdateErrorView::TooManyMcuIterations)
            } else {
                res.0 is AwaitingOsuInfo && res.1 is QueryDeviceInfo
            },
            _ => fw_update_fails_with(res.1, FirmwareUpdateErrorView::TooManyMcuIterations),
        }),
        stage is AwaitingOsuInfo ==> (match event {
            FwUpdateEvent::DeviceInfo(Err(m)) => fw_update_fails_with(res.1, device_info_failure(m@)),
            FwUpdateEvent::DeviceInfo(Ok(info)) => if !contains_text(info.version@, "-osu"@) {
                fw_update_fails_with(res.1, FirmwareUpdateErrorView::DeviceNotInOsuMode)
            } else {
                res.0 is InstallingFinal && (res.1 matches FwUpdateAction::RunSession { session, url } && session is Final
                    && url@ == firmware_install_url_spec(info.target_id, context.final_firmware.firmware@,
                        context.final_firmware.firmware_key@, context.final_firmware.perso@))
            },
            _ => true,
        }),
        stage is InstallingFinal ==> (match event {
            FwUpdateEvent::SessionEnded(Err(e)) => fw_update_fails_with(res.1, e@),
            FwUpdateEvent::SessionEnded(Ok(())) => res.1 matches FwUpdateAction::Finish(Ok(())),
            _ => true,
        }),
{
    match stage {
        FwUpdateStage::AwaitingDeviceInfo => match event {
            FwUpdateEvent::DeviceInfo(Err(m)) => (FwUpdateStage::Finished, FwUpdateAction::Finish(Err(device_info_error(m)))),
            FwUpdateEvent::DeviceInfo(Ok(info)) => {
                if info.is_bootloader {
                    (FwUpdateStage::Finished, FwUpdateAction::Finish(Err(FirmwareUpdateError::DeviceNotOnDashboard)))
                } else {
                    let url = osu_install_url(info.target_id, &context.osu);
                    (FwUpdateStage::InstallingOsu, FwUpdateAction::RunSession { session: FirmwareSession::Osu, url })
                }
            },
            _ => (FwUpdateStage::Finished, FwUpdateAction::Finish(Err(FirmwareUpdateError::DeviceDisconnected))),
        },
        FwUpdateStage::InstallingOsu => match event {
            FwUpdateEvent::SessionEnded(Err(e)) => (FwUpdateStage::Finished, FwUpdateAction::Finish(Err(e))),
            _ => {
                if context.should_flash_mcu {
                    (FwUpdateStage::AwaitingReboot, FwUpdateAction::Wait { seconds: 3 })
                } else {
                    (FwUpdateStage::AwaitingOsuInfo, FwUpdateAction::QueryDeviceInfo)
                }
            },
        },
        FwUpdateStage::AwaitingReboot => (FwUpdateStage::AwaitingMcus, FwUpdateAction::FetchMcuVersions { url: mcu_versions_url() }),
        FwUpdateStage::AwaitingMcus => match event {
            FwUpdateEvent::McuVersions(Ok(mcus)) => (
                FwUpdateStage::AwaitingBootloaderInfo { iteration: 1, mcus },
                FwUpdateAction::QueryDeviceInfo,
            ),
            FwUpdateEvent::McuVersions(Err(e)) => (FwUpdateStage::Finished, FwUpdateAction::Finish(Err(e))),
            _ => (FwUpdateStage::Finished, FwUpdateAction::Finish(Err(FirmwareUpdateError::DeviceDisconnected))),
        },
        FwUpdateStage::AwaitingBootloaderInfo { iteration, mcus } => match event {
            FwUpdateEvent::DeviceInfo(Err(m)) => (FwUpdateStage::Finished, FwUpdateAction::Finish(Err(device_info_error(m)))),
            FwUpdateEvent::DeviceInfo(Ok(info)) => {
                if !info.is_bootloader {
                    (FwUpdateStage::AwaitingOsuInfo, FwUpdateAction::QueryDeviceInfo)
                } else {
                    match find_best_mcu_version(&mcus, &info, &context.final_firmware.mcu_versions) {
                        Err(e) => (FwUpdateStage::Finished, FwUpdateAction::Finish(Err(e))),
                        Ok(version) => {
                            let url = mcu_flash_url(info.target_id, version.as_str());
                            (
                                FwUpdateStage::FlashingMcu { iteration, mcus },
                                FwUpdateAction::RunSession { session: FirmwareSession::Mcu { iteration }, url },
                            )
                        },
                    }
                }
            },
            _ => (FwUpdateStage::Finished, FwUpdateAction::Finish(Err(FirmwareUpdateError::DeviceDisconnected))),
        },
        FwUpdateStage::FlashingMcu { iteration, mcus } => match event {
            FwUpdateEvent::SessionEnded(Err(e)) => (FwUpdateStage::Finished, FwUpdateAction::Finish(Err(e))),
            _ => (FwUpdateStage::SettlingMcu { iteration, mcus }, FwUpdateAction::Wait { seconds: 2 }),
        },
        FwUpdateStage::SettlingMcu { iteration, mcus } => {
            if iteration == MAX_MCU_ITERATIONS {
                (FwUpdateStage::CheckingBootloaderExit, FwUpdateAction::QueryDeviceInfo)
            } else {
                (FwUpdateStage::AwaitingBootloaderInfo { iteration: iteration + 1, mcus }, FwUpdateAction::QueryDeviceInfo)
            }
        },
        FwUpdateStage::CheckingBootloaderExit => match event {
            FwUpdateEvent::DeviceInfo(Ok(info)) => {
                if info.is_bootloader {
                    (FwUpdateStage::Finished, FwUpdateAction::Finish(Err(FirmwareUpdateError::TooManyMcuIterations)))
                } else {
                    (FwUpdateStage::AwaitingOsuInfo, FwUpdateAction::QueryDeviceInfo)
                }
            },
            _ => (FwUpdateStage::Finished, FwUpdateAction::Finish(Err(FirmwareUpdateError::TooManyMcuIterations))),
        },
        FwUpdateStage::AwaitingOsuInfo => match event {
            FwUpdateEvent::DeviceInfo(Err(m)) => (FwUpdateStage::Finished, FwUpdateAction::Finish(Err(device_info_error(m)))),
            FwUpdateEvent::DeviceInfo(Ok(info)) => {
                if !contains_str(info.version.as_str(), "-osu") {
                    (FwUpdateStage::Finished, FwUpdateAction::Finish(Err(FirmwareUpdateError::DeviceNotInOsuMode)))
                } else {
                    let url = final_install_url(info.target_id, &context.final_firmware);
                    (FwUpdateStage::InstallingFinal, FwUpdateAction::RunSession { session: FirmwareSession::Final, url })
                }
            },
            _ => (FwUpdateStage::Finished, FwUpdateAction::Finish(Err(FirmwareUpdateError::DeviceDisconnected))),
        },
        FwUpdateStage::InstallingFinal => match event {
            FwUpdateEvent::SessionEnded(Err(e)) => (FwUpdateStage::Finished, FwUpdateAction::Finish(Err(e))),
            _ => (FwUpdateStage::Finished, FwUpdateAction::Finish(Ok(()))),
        },
        FwUpdateStage::Finished => (FwUpdateStage::Finished, FwUpdateAction::Finish(Err(FirmwareUpdateError::DeviceDisconnected))),
    }
}

/// The error of a failed query of the device's information, with message `m` (see
/// [`device_info_failure`]).
pub fn device_info_error(m: String) -> (e: FirmwareUpdateError)
    ensures
        e@ == device_info_failure(m@),
{
    FirmwareUpdateError::Other("Failed to get device info: ".to_string().concat(m.as_str()))
}

/// How many times a repair tries to reconnect to the device before giving up.
pub const RECONNECT_ATTEMPTS: u32 = 15;

/// The delay between two reconnection attempts, in milliseconds.
pub const RECONNECT_DELAY_MS: u64 = 1000;

/// Where the repair of a device stuck in its bootloader stands.
pub enum RepairStage {
    /// Waiting for connection attempt `attempt` of repair attempt `iteration`.
    Connecting { iteration: u32, attempt: u32 },
    /// Waiting for the device's information.
    AwaitingInfo { iteration: u32 },
    /// Waiting for the API's device version of the device's SE target.
    AwaitingDeviceVersion { iteration: u32, info: DeviceInfo },
    /// Waiting for the MCU versions.
    AwaitingMcus { iteration: u32, info: DeviceInfo, device_version_id: i64 },
    /// Waiting for the end of MCU flash `iteration`.
    Flashing { iteration: u32 },
    /// Waiting while the device reboots after MCU flash `iteration`.
    Settling { iteration: u32 },
    /// Done.
    Finished,
}

/// What the last request of a repair returned (a failed connection or device query as
/// its message).
pub enum RepairEvent {
    Connected(Result<(), String>),
    DeviceInfo(Result<DeviceInfo, String>),
    DeviceVersion(Result<DeviceVersionResponse, FirmwareUpdateError>),
    McuVersions(Result<Vec<McuVersion>, FirmwareUpdateError>),
    /// The flash session ended with `result`, its progress having reached
    /// `last_progress` percent.
    FlashEnded { result: Result<(), FirmwareUpdateError>, last_progress: u32 },
    Waited,
}

/// The next request of a repair, or its outcome.
pub enum RepairAction {
    /// Connect to the device after waiting `delay_ms` milliseconds.
    Connect { delay_ms: u64 },
    /// Query the device's information.
    QueryDeviceInfo,
    /// Fetch the device version from `url`.
    FetchDeviceVersion { url: String },
    /// Fetch the MCU versions from `url`.
    FetchMcuVersions { url: String },
    /// Run the MCU flash session at `url`, attempt `iteration`.
    FlashMcu { iteration: u32, url: String },
    /// Wait `seconds` seconds.
    Wait { seconds: u64 },
    /// The repair is over, with this outcome.
    Finish(Result<(), FirmwareUpdateError>),
}

/// Whether `event` is the answer to the request that `stage` waits for.
pub open spec fn repair_event_fits(stage: RepairStage, event: RepairEvent) -> bool {
    match event {
        RepairEvent::Connected(_) => stage is Connecting,
        RepairEvent::DeviceInfo(_) => stage is AwaitingInfo,
        RepairEvent::DeviceVersion(_) => stage is AwaitingDeviceVersion,
        RepairEvent::McuVersions(_) => stage is AwaitingMcus,
        RepairEvent::FlashEnded { .. } => stage is Flashing,
        RepairEvent::Waited => stage is Settling,
    }
}

/// The repair attempt of a stage lies between 1 and [`MAX_MCU_ITERATIONS`], its
/// connection attempt between 1 and [`RECONNECT_ATTEMPTS`].
pub open spec fn repair_wf(stage: RepairStage) -> bool {
    match stage {
        RepairStage::Connecting { iteration, attempt } => 1 <= iteration <= MAX_MCU_ITERATIONS && 1 <= attempt <= RECONNECT_ATTEMPTS,
        RepairStage::AwaitingInfo { iteration } => 1 <= iteration <= MAX_MCU_ITERATIONS,
        RepairStage::AwaitingDeviceVersion { iteration, .. } => 1 <= iteration <= MAX_MCU_ITERATIONS,
        RepairStage::AwaitingMcus { iteration, .. } => 1 <= iteration <= MAX_MCU_ITERATIONS,
        RepairStage::Flashing { iteration } => 1 <= iteration <= MAX_MCU_ITERATIONS,
        RepairStage::Settling { iteration } => 1 <= iteration <= MAX_MCU_ITERATIONS,
        RepairStage::Finished => true,
    }
}

/// How many MCU flashes a stage of a repair has used up.
pub open spec fn repair_flashes_used(stage: RepairStage) -> int {
    match stage {
        RepairStage::Connecting { iteration, .. } => iteration - 1,
        RepairStage::AwaitingInfo { iteration } => iteration - 1,
        RepairStage::AwaitingDeviceVersion { iteration, .. } => iteration - 1,
        RepairStage::AwaitingMcus { iteration, .. } => iteration - 1,
        RepairStage::Flashing { iteration } => iteration as int,
        RepairStage::Settling { iteration } => iteration as int,
        RepairStage::Finished => MAX_MCU_ITERATIONS as int,
    }
}

/// Whether `action` ends the repair with error `e`.
pub open spec fn repair_fails_with(action: RepairAction, e: FirmwareUpdateErrorView) -> bool {
    action matches RepairAction::Finish(Err(f)) && f@ == e
}

/// The error of a repair that could not reconnect to the device, the last attempt
/// failing with message `m`.
pub open spec fn reconnect_failure(m: Seq<char>) -> FirmwareUpdateErrorView {
    FirmwareUpdateErrorView::Other("Failed to reconnect to device after "@ + decimal(RECONNECT_ATTEMPTS as nat) + " attempts: "@ + m)
}

/// The error of a repair without reconnection on a device that is not in its
/// bootloader.
pub open spec fn not_in_bootloader_failure() -> FirmwareUpdateErrorView {
    FirmwareUpdateErrorView::Other("Device is not in bootloader mode. Use normal update instead."@)
}

/// The outcome of a session as a value.
pub open spec fn outcome_view(r: Result<(), FirmwareUpdateError>) -> Result<(), FirmwareUpdateErrorView> {
    match r {
        Ok(()) => Ok(()),
        Err(e) => Err(e@),
    }
}

/// Whether `res` is the step that flashes version `version` at attempt `iteration` on
/// device `target_id`.
pub open spec fn repair_flashes(res: (RepairStage, RepairAction), iteration: u32, target_id: u32, version: Seq<char>) -> bool {
    res.0 == (RepairStage::Flashing { iteration })
        && (res.1 matches RepairAction::FlashMcu { iteration: i, url } && i == iteration && url@ == mcu_flash_url_spec(target_id, version))
}

/// The first request of a repair: with `reconnect`, a connection to the device;
/// otherwise (the caller holds a connection) the device's information.
pub fn repair_start(reconnect: bool) -> (res: (RepairStage, RepairAction))
    ensures
        repair_wf(res.0),
        repair_flashes_used(res.0) == 0,
        reconnect ==> res.0 == (RepairStage::Connecting { iteration: 1, attempt: 1 })
            && (res.1 matches RepairAction::Connect { delay_ms } && delay_ms == 0),
        !reconnect ==> res.0 == (RepairStage::AwaitingInfo { iteration: 1 }) && res.1 is QueryDeviceInfo,
{
    if reconnect {
        (RepairStage::Connecting { iteration: 1, attempt: 1 }, RepairAction::Connect { delay_ms: 0 })
    } else {
        (RepairStage::AwaitingInfo { iteration: 1 }, RepairAction::QueryDeviceInfo)
    }
}

/// One step of the repair of a device stuck in its bootloader, following Ledger Live.
/// With `reconnect`, up to [`MAX_MCU_ITERATIONS`] attempts, each connecting to the
/// device (up to [`RECONNECT_ATTEMPTS`] tries, [`RECONNECT_DELAY_MS`] apart): the repair
/// succeeds once the device has left its bootloader; otherwise the MCU version for its
/// bootloader (a fixed one for the legacy bootloaders, else the one the API's MCU
/// versions give, see [`is_repair_choice`]) is flashed, and the device given 3 seconds
/// to reboot. Without `reconnect`, one attempt on the held connection: the device must
/// be in its bootloader, and the repair ends once the flash succeeded. A flash that
/// loses its connection near its end counts as success (see
/// [`mcu_flash_outcome_spec`]). Every repair requests at most [`MAX_MCU_ITERATIONS`]
/// MCU flashes: the flashes used never decrease, grow by one with each flash, and stay
/// within the limit.
pub fn repair_step(stage: RepairStage, event: RepairEvent, reconnect: bool) -> (res: (RepairStage, RepairAction))
    requires
        repair_event_fits(stage, event),
        repair_wf(stage),
    ensures
        repair_wf(res.0),
        repair_flashes_used(stage) + (if res.1 is FlashMcu { 1int } else { 0 }) <= repair_flashes_used(res.0),
        repair_flashes_used(res.0) <= MAX_MCU_ITERATIONS,
        res.1 is Finish <==> res.0 is Finished,
        stage matches RepairStage::Connecting { iteration, attempt } ==> (match event {
            RepairEvent::Connected(Ok(())) => res.0 == (RepairStage::AwaitingInfo { iteration }) && res.1 is QueryDeviceInfo,
            RepairEvent::Connected(Err(m)) => if attempt >= RECONNECT_ATTEMPTS {
                repair_fails_with(res.1, reconnect_failure(m@))
            } else {
                res.0 == (RepairStage::Connecting { iteration, attempt: (attempt + 1) as u32 })
                    && (res.1 matches RepairAction::Connect { delay_ms } && delay_ms == RECONNECT_DELAY_MS)
            },
            _ => true,
        }),
        stage matches RepairStage::AwaitingInfo { iteration } ==> (match event {
            RepairEvent::DeviceInfo(Err(m)) => repair_fails_with(res.1, device_info_failure(m@)),
            RepairEvent::DeviceInfo(Ok(info)) => if !info.is_bootloader {
                if reconnect {
                    res.1 matches RepairAction::Finish(Ok(()))
                } else {
                    repair_fails_with(res.1, not_in_bootloader_failure())
                }
            } else {
                match legacy_mcu_spec(maj_min_spec(info.version@)) {
                    Some(v) => repair_flashes(res, iteration, info.target_id, v),
                    None => res.0 == (RepairStage::AwaitingDeviceVersion { iteration, info })
                        && (res.1 matches RepairAction::FetchDeviceVersion { url } && url@ == device_version_url_spec(info.se_target_id)),
                }
            },
            _ => true,
        }),
        stage matches RepairStage::AwaitingDeviceVersion { iteration, info } ==> (match event {
            RepairEvent::DeviceVersion(Err(e)) => repair_fails_with(res.1, e@),
            RepairEvent::DeviceVersion(Ok(dv)) => res.0 == (RepairStage::AwaitingMcus { iteration, info, device_version_id: dv.id })
                && (res.1 matches RepairAction::FetchMcuVersions { url } && url@ == mcu_versions_url_spec()),
            _ => true,
        }),
        stage matches RepairStage::AwaitingMcus { iteration, info, device_version_id } ==> (match event {
            RepairEvent::McuVersions(Err(e)) => repair_fails_with(res.1, e@),
            RepairEvent::McuVersions(Ok(mcus)) => exists|r: Result<Seq<char>, FirmwareUpdateErrorView>|
                #[trigger] is_repair_choice(info.version@, info.se_target_id, device_version_id, mcus@, r) && match r {
                    Ok(v) => repair_flashes(res, iteration, info.target_id, v),
                    Err(e) => repair_fails_with(res.1, e),
                },
            _ => true,
        }),
        stage matches RepairStage::Flashing { iteration } ==> (match event {
            RepairEvent::FlashEnded { result, last_progress } => match mcu_flash_outcome_spec(outcome_view(result), last_progress) {
                Err(e) => repair_fails_with(res.1, e),
                Ok(()) => if reconnect {
                    res.0 == (RepairStage::Settling { iteration }) && (res.1 matches RepairAction::Wait { seconds } && seconds == 3)
                } else {
                    res.1 matches RepairAction::Finish(Ok(()))
                },
            },
            _ => true,
        }),
        stage matches RepairStage::Settling { iteration } ==> (if iteration >= MAX_MCU_ITERATIONS {
            repair_fails_with(res.1, FirmwareUpdateErrorView::TooManyMcuIterations)
        } else {
            res.0 == (RepairStage::Connecting { iteration: (iteration + 1) as u32, attempt: 1 })
                && (res.1 matches RepairAction::Connect { delay_ms } && delay_ms == 0)
        }),
{
    match stage {
        RepairStage::Connecting { iteration, attempt } => match event {
            RepairEvent::Connected(Ok(())) => (RepairStage::AwaitingInfo { iteration }, RepairAction::QueryDeviceInfo),
            RepairEvent::Connected(Err(m)) => {
                if attempt >= RECONNECT_ATTEMPTS {
                    let mut msg = "Failed to reconnect to device after ".to_string();
                    push_decimal(&mut msg, RECONNECT_ATTEMPTS as u64);
                    msg.append(" attempts: ");
                    msg.append(m.as_str());
                    (RepairStage::Finished, RepairAction::Finish(Err(FirmwareUpdateError::Other(msg))))
                } else {
                    (
                        RepairStage::Connecting { iteration, attempt: attempt + 1 },
                        RepairAction::Connect { delay_ms: RECONNECT_DELAY_MS },
                    )
                }
            },
            _ => (RepairStage::Finished, RepairAction::Finish(Err(FirmwareUpdateError::DeviceDisconnected))),
        },
        RepairStage::AwaitingInfo { iteration } => match event {
            RepairEvent::DeviceInfo(Err(m)) => (RepairStage::Finished, RepairAction::Finish(Err(device_info_error(m)))),
            RepairEvent::DeviceInfo(Ok(info)) => {
                if !info.is_bootloader {
                    if reconnect {
                        (RepairStage::Finished, RepairAction::Finish(Ok(())))
                    } else {
                        let msg = "Device is not in bootloader mode. Use normal update instead.".to_string();
                        (RepairStage::Finished, RepairAction::Finish(Err(FirmwareUpdateError::Other(msg))))
                    }
                } else {
                    let maj_min = get_bootloader_maj_min(info.version.as_str());
                    match legacy_mcu_for_bootloader(&maj_min) {
                        Some(v) => {
                            let url = mcu_flash_url(info.target_id, v.as_str());
                            (RepairStage::Flashing { iteration }, RepairAction::FlashMcu { iteration, url })
                        },
                        None => {
                            let url = device_version_url(info.se_target_id);
                            (RepairStage::AwaitingDeviceVersion { iteration, info }, RepairAction::FetchDeviceVersion { url })
                        },
                    }
                }
            },
            _ => (RepairStage::Finished, RepairAction::Finish(Err(FirmwareUpdateError::DeviceDisconnected))),
        },
        RepairStage::AwaitingDeviceVersion { iteration, info } => match event {
            RepairEvent::DeviceVersion(Err(e)) => (RepairStage::Finished, RepairAction::Finish(Err(e))),
            RepairEvent::DeviceVersion(Ok(dv)) => (
                RepairStage::AwaitingMcus { iteration, info, device_version_id: dv.id },
                RepairAction::FetchMcuVersions { url: mcu_versions_url() },
            ),
            _ => (RepairStage::Finished, RepairAction::Finish(Err(FirmwareUpdateError::DeviceDisconnected))),
        },
        RepairStage::AwaitingMcus { iteration, info, device_version_id } => match event {
            RepairEvent::McuVersions(Err(e)) => (RepairStage::Finished, RepairAction::Finish(Err(e))),
            RepairEvent::McuVersions(Ok(mcus)) => {
                let choice = find_mcu_for_repair_v2(&info, device_version_id, &mcus);
                let ghost r = text_or_error(choice);
                match choice {
                    Ok(v) => {
                        let url = mcu_flash_url(info.target_id, v.as_str());
                        (RepairStage::Flashing { iteration }, RepairAction::FlashMcu { iteration, url })
                    },
                    Err(e) => (RepairStage::Finished, RepairAction::Finish(Err(e))),
                }
            },
            _ => (RepairStage::Finished, RepairAction::Finish(Err(FirmwareUpdateError::DeviceDisconnected))),
        },
        RepairStage::Flashing { iteration } => match event {
            RepairEvent::FlashEnded { result, last_progress } => match mcu_flash_outcome(result, last_progress) {
                Err(e) => (RepairStage::Finished, RepairAction::Finish(Err(e))),
                Ok(()) => {
                    if reconnect {
                        (RepairStage::Settling { iteration }, RepairAction::Wait { seconds: 3 })
                    } else {
                        (RepairStage::Finished, RepairAction::Finish(Ok(())))
                    }
                },
            },
            _ => (RepairStage::Finished, RepairAction::Finish(Err(FirmwareUpdateError::DeviceDisconnected))),
        },
        RepairStage::Settling { iteration } => {
            if iteration >= MAX_MCU_ITERATIONS {
                (RepairStage::Finished, RepairAction::Finish(Err(FirmwareUpdateError::TooManyMcuIterations)))
            } else {
                (RepairStage::Connecting { iteration: iteration + 1, attempt: 1 }, RepairAction::Connect { delay_ms: 0 })
            }
        },
        RepairStage::Finished => (RepairStage::Finished, RepairAction::Finish(Err(FirmwareUpdateError::DeviceDisconnected))),
    }
}

} // verus!
