//! The messages of the user-facing operations: what the command line shows for the
//! outcome of each operation on the device.
use vstd::prelude::*;
use vstd::string::StringExecFns;
use crate::error::{InstallErr, UpdateErr};
use crate::firmware::{FirmwareUpdateContext, FirmwareUpdateError, FirmwareUpdateErrorView};
use crate::fwupdate::outcome_view;

verus! {

/// The display name of the Bitcoin app (`"Bitcoin Test"` for the testnet one).
pub open spec fn app_display_name(is_testnet: bool) -> Seq<char> {
    if is_testnet {
        "Bitcoin Test"@
    } else {
        "Bitcoin"@
    }
}

/// The display name of the Bitcoin app (`"Bitcoin Test"` for the testnet one).
pub fn display_name(is_testnet: bool) -> (s: &'static str)
    ensures
        s@ == app_display_name(is_testnet),
{
    if is_testnet {
        "Bitcoin Test"
    } else {
        "Bitcoin"
    }
}

/// The text `a`, then `b`.
pub fn concat2(a: &str, b: &str) -> (s: String)
    ensures
        s@ == a@ + b@,
{
    let mut s = String::from_str(a);
    s.append(b);
    s
}

/// The text `a`, then `b`, then `c`.
pub fn concat3(a: &str, b: &str, c: &str) -> (s: String)
    ensures
        s@ == a@ + b@ + c@,
{
    let mut s = String::from_str(a);
    s.append(b);
    s.append(c);
    s
}

/// The text `a`, then `b`, then `c`, then `d`, then `e`.
pub fn concat5(a: &str, b: &str, c: &str, d: &str, e: &str) -> (s: String)
    ensures
        s@ == a@ + b@ + c@ + d@ + e@,
{
    let mut s = concat3(a, b, c);
    s.append(d);
    s.append(e);
    s
}

/// The message for the outcome of installing the Bitcoin app.
pub open spec fn install_message(result: Result<(), InstallErr>, is_testnet: bool) -> Result<Seq<char>, Seq<char>> {
    let name = app_display_name(is_testnet);
    match result {
        Ok(()) => Ok("Successfully installed the app."@),
        Err(InstallErr::AlreadyInstalled) => Err(name + " app already installed. Use the update command to update it."@),
        Err(InstallErr::AppNotFound) => Err("Could not get info about "@ + name + " app."@),
        Err(InstallErr::Any(e)) => Err("Error installing "@ + name + " app: "@ + e@ + "."@),
    }
}

/// The view of a result of two texts.
pub open spec fn text_result(r: Result<String, String>) -> Result<Seq<char>, Seq<char>> {
    match r {
        Ok(s) => Ok(s@),
        Err(e) => Err(e@),
    }
}

/// The message the command line shows once the installation of the Bitcoin app (the
/// Bitcoin Test app when `is_testnet`) ended with `result`.
pub fn install_app(result: Result<(), InstallErr>, is_testnet: bool) -> (msg: Result<String, String>)
    ensures
        text_result(msg) == install_message(result, is_testnet),
{
    let name = display_name(is_testnet);
    match result {
        Ok(()) => Ok("Successfully installed the app.".to_string()),
        Err(InstallErr::AlreadyInstalled) => Err(concat2(name, " app already installed. Use the update command to update it.")),
        Err(InstallErr::AppNotFound) => Err(concat3("Could not get info about ", name, " app.")),
        Err(InstallErr::Any(e)) => Err(concat5("Error installing ", name, " app: ", e.as_str(), ".")),
    }
}

/// The message for the outcome of updating the Bitcoin app.
pub open spec fn update_message(result: Result<(), UpdateErr>, is_testnet: bool) -> Result<Seq<char>, Seq<char>> {
    let name = app_display_name(is_testnet);
    match result {
        Ok(()) => Ok("Successfully updated the "@ + name + " app."@),
        Err(UpdateErr::NotInstalled) => Err(name + " app isn't installed. Use the install command instead."@),
        Err(UpdateErr::AppNotFound) => Err("Could not get info about "@ + name + " app."@),
        Err(UpdateErr::AlreadyLatest) => Err(name + " app is already at the latest version."@),
        Err(UpdateErr::Any(e)) => Err("Error updating "@ + name + " app: "@ + e@ + "."@),
    }
}

/// The message the command line shows once the update of the Bitcoin app (the Bitcoin
/// Test app when `is_testnet`) ended with `result`.
pub fn update_app(result: Result<(), UpdateErr>, is_testnet: bool) -> (msg: Result<String, String>)
    ensures
        text_result(msg) == update_message(result, is_testnet),
{
    let name = display_name(is_testnet);
    match result {
        Ok(()) => Ok(concat3("Successfully updated the ", name, " app.")),
        Err(UpdateErr::NotInstalled) => Err(concat2(name, " app isn't installed. Use the install command instead.")),
        Err(UpdateErr::AppNotFound) => Err(concat3("Could not get info about ", name, " app.")),
        Err(UpdateErr::AlreadyLatest) => Err(concat2(name, " app is already at the latest version.")),
        Err(UpdateErr::Any(e)) => Err(concat5("Error updating ", name, " app: ", e.as_str(), ".")),
    }
}

/// The message for the outcome of opening the Bitcoin app.
pub open spec fn open_message(result: Result<(), String>, is_testnet: bool) -> Result<Seq<char>, Seq<char>> {
    let name = app_display_name(is_testnet);
    match result {
        Ok(()) => Ok(name + " app opened successfully."@),
        Err(e) => Err("Error opening "@ + name + " app: "@ + e@),
    }
}

/// The message the command line shows once opening the Bitcoin app (the Bitcoin Test
/// app when `is_testnet`) ended with `result` (its error as a message).
pub fn open_app(result: Result<(), String>, is_testnet: bool) -> (msg: Result<String, String>)
    ensures
        text_result(msg) == open_message(result, is_testnet),
{
    let name = display_name(is_testnet);
    match result {
        Ok(()) => Ok(concat2(name, " app opened successfully.")),
        Err(e) => Err(concat3("Error opening ", name, " app: ").concat(e.as_str())),
    }
}

/// The message for the outcome of the genuine check.
pub open spec fn genuine_message(result: Result<(), String>) -> Result<Seq<char>, Seq<char>> {
    match result {
        Ok(()) => Ok("Success. Your Ledger is genuine."@),
        Err(e) => Err("Error when performing genuine check: "@ + e@),
    }
}

/// The message the command line shows once the genuine check ended with `result` (its
/// error as a message).
pub fn perform_genuine_check(result: Result<(), String>) -> (msg: Result<String, String>)
    ensures
        text_result(msg) == genuine_message(result),
{
    match result {
        Ok(()) => Ok(String::from_str("Success. Your Ledger is genuine.")),
        Err(e) => Err(concat2("Error when performing genuine check: ", e.as_str())),
    }
}

/// The lines of the report of the installed applications, one per application.
pub open spec fn app_lines(apps: Seq<Seq<char>>) -> Seq<char>
    decreases apps.len(),
{
    if apps.len() == 0 {
        Seq::empty()
    } else {
        app_lines(apps.drop_last()) + "  - "@ + apps.last() + "\n"@
    }
}

/// The views of a sequence of strings.
pub open spec fn texts(v: Seq<String>) -> Seq<Seq<char>> {
    v.map_values(|s: String| s@)
}

/// The report of the device's information: `device` is the device's information as
/// text, or the error of its query; `apps` the installed applications as text, one
/// each, or the error of their listing.
pub open spec fn ledger_info_message(device: Result<Seq<char>, Seq<char>>, apps: Result<Seq<Seq<char>>, Seq<char>>) -> Result<Seq<char>, Seq<char>> {
    match device {
        Err(e) => Err("Error fetching device info: "@ + e),
        Ok(d) => match apps {
            Err(e) => Err("Error listing installed applications: "@ + e + "."@),
            Ok(list) => Ok("Information about the device: "@ + d + "\n"@
                + "Querying installed applications from your Ledger. You might have to confirm on your device.\n"@
                + "Installed applications:\n"@ + app_lines(list)),
        },
    }
}

/// The report the command line shows for the device's information. `device_info` is
/// the device's information rendered as text, or the error of its query; `apps` the
/// installed applications rendered as text, one each, or the error of their listing.
pub fn print_ledger_info(device_info: Result<String, String>, apps: Result<Vec<String>, String>) -> (msg: Result<String, String>)
    ensures
        text_result(msg) == ledger_info_message(
            text_result(device_info),
            match apps { Ok(v) => Ok(texts(v@)), Err(e) => Err(e@) },
        ),
{
    let device = match device_info {
        Err(e) => {
            return Err(concat2("Error fetching device info: ", e.as_str()));
        },
        Ok(d) => d,
    };
    let list = match apps {
        Err(e) => {
            return Err(concat3("Error listing installed applications: ", e.as_str(), "."));
        },
        Ok(v) => v,
    };
    let mut output = concat3("Information about the device: ", device.as_str(), "\n");
    output.append("Querying installed applications from your Ledger. You might have to confirm on your device.\n");
    output.append("Installed applications:\n");
    let ghost head = output@;
    let mut i: usize = 0;
    while i < list.len()
        invariant
            0 <= i <= list@.len(),
            output@ == head + app_lines(texts(list@).take(i as int)),
        decreases list@.len() - i,
    {
        output.append("  - ");
        output.append(list[i].as_str());
        output.append("\n");
        proof {
            assert(texts(list@).take(i as int + 1).drop_last() =~= texts(list@).take(i as int));
        }
        i = i + 1;
    }
    proof {
        assert(texts(list@).take(list@.len() as int) =~= texts(list@));
    }
    Ok(output)
}

/// The message for the outcome of repairing a device stuck in its bootloader.
pub open spec fn repair_message(result: Result<(), FirmwareUpdateErrorView>) -> Result<Seq<char>, Seq<char>> {
    match result {
        Ok(()) => Ok("Device repaired successfully!"@),
        Err(e) => Err("Repair failed: "@ + FirmwareUpdateError::message_spec(e)),
    }
}

/// The message the command line shows once the repair of a device stuck in its
/// bootloader ended with `result`.
pub fn repair_outcome(result: Result<(), FirmwareUpdateError>) -> (msg: Result<String, String>)
    ensures
        text_result(msg) == repair_message(outcome_view(result)),
{
    match result {
        Ok(()) => Ok("Device repaired successfully!".to_string()),
        Err(e) => Err(concat2("Repair failed: ", e.message().as_str())),
    }
}

/// Where a firmware update goes once the latest firmware for the device was looked up.
pub enum UpdateCheck {
    /// An update is available: install it.
    Install(FirmwareUpdateContext),
    /// The operation ends here, with this message.
    Finished(Result<String, String>),
}

/// Where a firmware update goes once the latest firmware for the device, whose version
/// is `version`, was looked up with the result `lookup`: an update found is installed;
/// otherwise the operation ends, with a message that the firmware is up to date, or
/// with the error of the lookup.
pub fn update_check_outcome(lookup: Result<Option<FirmwareUpdateContext>, FirmwareUpdateError>, version: &str) -> (res: UpdateCheck)
    ensures
        match lookup {
            Ok(Some(ctx)) => res == UpdateCheck::Install(ctx),
            Ok(None) => res matches UpdateCheck::Finished(m)
                && text_result(m) == Ok::<Seq<char>, Seq<char>>("Firmware is already up to date (version "@ + version@ + ")."@),
            Err(e) => res matches UpdateCheck::Finished(m)
                && text_result(m) == Err::<Seq<char>, Seq<char>>("Error checking for updates: "@ + FirmwareUpdateError::message_spec(e@)),
        },
{
    match lookup {
        Ok(Some(ctx)) => UpdateCheck::Install(ctx),
        Ok(None) => UpdateCheck::Finished(Ok(concat3("Firmware is already up to date (version ", version, ")."))),
        Err(e) => UpdateCheck::Finished(Err(concat2("Error checking for updates: ", e.message().as_str()))),
    }
}

/// The message for the outcome of a firmware update.
pub open spec fn firmware_update_message(result: Result<(), FirmwareUpdateErrorView>) -> Result<Seq<char>, Seq<char>> {
    match result {
        Ok(()) => Ok("Firmware updated successfully!"@),
        Err(e) => Err("Firmware update failed: "@ + FirmwareUpdateError::message_spec(e)),
    }
}

/// The message the command line shows once a firmware update ended with `result`.
pub fn firmware_update_outcome(result: Result<(), FirmwareUpdateError>) -> (msg: Result<String, String>)
    ensures
        text_result(msg) == firmware_update_message(outcome_view(result)),
{
    match result {
        Ok(()) => Ok("Firmware updated successfully!".to_string()),
        Err(e) => Err(concat2("Firmware update failed: ", e.message().as_str())),
    }
}

} // verus!
