//! Constants of the Ledger Manager API, and the APDU commands the library sends.
use vstd::prelude::*;
use crate::apdu::{ApduCommand, ApduCommandView};

verus! {

/// The Ledger Live API version string sent in the `livecommonversion` query parameter.
pub const LIVE_COMMON_VERSION: &'static str = "34.0.0";

/// The provider channel for downloading app binaries (1 is the default channel).
pub const PROVIDER: u32 = 1;

/// Base URL for Ledger Manager API v1 endpoints.
pub const BASE_API_V1_URL: &'static str = "https://manager.api.live.ledger.com/api";

/// Base URL for Ledger Manager API v2 endpoints.
pub const BASE_API_V2_URL: &'static str = "https://manager.api.live.ledger.com/api/v2";

/// WebSocket URL for HSM communication (genuine check, app installation).
pub const BASE_SOCKET_URL: &'static str = "wss://scriptrunner.api.live.ledger.com/update";

/// A command with class 0xe0, the given instruction, null parameters and no data.
pub open spec fn dashboard_command(ins: u8) -> ApduCommandView {
    ApduCommandView { cla: 0xe0, ins, p1: 0, p2: 0, data: Seq::empty() }
}

/// Command to query device version information (instruction 0x01).
pub fn get_version_command() -> (c: ApduCommand)
    ensures
        c@ == dashboard_command(0x01),
{
    ApduCommand { cla: 0xe0, ins: 0x01, p1: 0x00, p2: 0x00, data: Vec::new() }
}

/// Command to list installed applications (instruction 0xde).
pub fn list_apps_command() -> (c: ApduCommand)
    ensures
        c@ == dashboard_command(0xde),
{
    ApduCommand { cla: 0xe0, ins: 0xde, p1: 0x00, p2: 0x00, data: Vec::new() }
}

/// Command to continue listing applications (instruction 0xdf).
pub fn continue_list_apps_command() -> (c: ApduCommand)
    ensures
        c@ == dashboard_command(0xdf),
{
    ApduCommand { cla: 0xe0, ins: 0xdf, p1: 0x00, p2: 0x00, data: Vec::new() }
}

/// The ASCII bytes of the name of the Bitcoin app: "Bitcoin", or "Bitcoin Test" for
/// the testnet one.
pub open spec fn bitcoin_app_name_bytes(is_testnet: bool) -> Seq<u8> {
    if is_testnet {
        seq![66u8, 105, 116, 99, 111, 105, 110, 32, 84, 101, 115, 116]
    } else {
        seq![66u8, 105, 116, 99, 111, 105, 110]
    }
}

/// Command to open the Bitcoin app (instruction 0xd8, the app's name as data).
pub fn open_bitcoin_app_command(is_testnet: bool) -> (c: ApduCommand)
    ensures
        c@ == (ApduCommandView { data: bitcoin_app_name_bytes(is_testnet), ..dashboard_command(0xd8) }),
{
    let data: Vec<u8> = if is_testnet {
        vec![66u8, 105, 116, 99, 111, 105, 110, 32, 84, 101, 115, 116]
    } else {
        vec![66u8, 105, 116, 99, 111, 105, 110]
    };
    let c = ApduCommand { cla: 0xe0, ins: 0xd8, p1: 0x00, p2: 0x00, data };
    assert(c@.data =~= bitcoin_app_name_bytes(is_testnet));
    c
}

} // verus!
