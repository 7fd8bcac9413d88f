//! Sessions with Ledger's remote HSM.
//!
//! Installing an app, updating the firmware or checking that a device is genuine is
//! done by letting a remote HSM talk to the device over a websocket: the HSM sends
//! JSON messages, each naming a query. The decisions taken on each message stand
//! here; reading and writing the socket and talking to the device are left to the
//! caller, which performs the returned action.
use vstd::prelude::*;
use vstd::string::StringSliceAdditionalSpecFns;
use crate::apdu::{deser_apdu_command, deser_apdu_command_spec, ApduCommand, ApduCommandView, CommandError};
use crate::hexcodec::{hex_encode, hex_encode_spec, hex_error_message, hex_error_text};
use crate::text::str_eq;
use crate::firmware::{check_firmware_status, firmware_status_error, FirmwareUpdateError, FirmwareUpdateErrorView};
use vstd::string::StringExecFns;

verus! {

/// The payload of an HSM message: one hexadecimal command or a list of them.
pub enum HsmMessageData {
    Command(String),
    CommandList(Vec<String>),
}

/// Mathematical value of an [`HsmMessageData`].
pub enum HsmMessageDataView {
    Command(Seq<char>),
    CommandList(Seq<Seq<char>>),
}

impl View for HsmMessageData {
    type V = HsmMessageDataView;

    open spec fn view(&self) -> HsmMessageDataView {
        match self {
            HsmMessageData::Command(c) => HsmMessageDataView::Command(c@),
            HsmMessageData::CommandList(l) => HsmMessageDataView::CommandList(l@.map_values(|c: String| c@)),
        }
    }
}

/// A message of the HSM: its query, its nonce and its payload.
pub struct HsmMessage {
    pub query: String,
    pub nonce: u32,
    pub data: Option<HsmMessageData>,
}

/// Mathematical value of an [`HsmMessage`].
pub struct HsmMessageView {
    pub query: Seq<char>,
    pub nonce: u32,
    pub data: Option<HsmMessageDataView>,
}

impl View for HsmMessage {
    type V = HsmMessageView;

    open spec fn view(&self) -> HsmMessageView {
        HsmMessageView {
            query: self.query@,
            nonce: self.nonce,
            data: match self.data {
                Some(d) => Some(d@),
                None => None,
            },
        }
    }
}

/// Why an HSM session stops with a failure.
#[derive(Debug, Clone, Copy, PartialEq, Eq, Structural)]
pub enum HsmFailure {
    /// An "exchange" query without a single command.
    ExpectedSingleCommand,
    /// A "bulk" query without a list of commands.
    ExpectedCommandList,
    /// A command that could not be decoded.
    InvalidCommand(CommandError),
    /// The HSM reported an error ("error" query).
    HsmError,
    /// A query that the session does not know.
    UnsupportedQuery,
}

/// What to do with a message of the HSM.
pub enum HsmAction {
    /// Send `command` to the device, then answer the HSM under `nonce` with the
    /// device's response.
    Exchange { nonce: u32, command: ApduCommand },
    /// Send `commands` to the device in order, ignoring their answers; then stop with
    /// `failure` if there is one, otherwise answer the HSM under `nonce` with success.
    Bulk { nonce: u32, commands: Vec<ApduCommand>, failure: Option<HsmFailure> },
    /// The session succeeded.
    Done,
    /// The HSM sent a warning: report it and keep reading.
    Warn,
    /// Nothing to do: keep reading.
    Ignore,
    /// The session failed.
    Fail(HsmFailure),
}

/// Mathematical value of an [`HsmAction`].
pub enum HsmActionView {
    Exchange { nonce: u32, command: ApduCommandView },
    Bulk { nonce: u32, commands: Seq<ApduCommandView>, failure: Option<HsmFailure> },
    Done,
    Warn,
    Ignore,
    Fail(HsmFailure),
}

impl View for HsmAction {
    type V = HsmActionView;

    open spec fn view(&self) -> HsmActionView {
        match self {
            HsmAction::Exchange { nonce, command } => HsmActionView::Exchange { nonce: *nonce, command: command@ },
            HsmAction::Bulk { nonce, commands, failure } => HsmActionView::Bulk {
                nonce: *nonce,
                commands: commands@.map_values(|c: ApduCommand| c@),
                failure: *failure,
            },
            HsmAction::Done => HsmActionView::Done,
            HsmAction::Warn => HsmActionView::Warn,
            HsmAction::Ignore => HsmActionView::Ignore,
            HsmAction::Fail(f) => HsmActionView::Fail(*f),
        }
    }
}

/// The commands of a bulk list, in order, empty entries skipped, up to the first one
/// that cannot be decoded; and the failure that one raises.
pub open spec fn bulk_commands(list: Seq<Seq<char>>) -> (Seq<ApduCommandView>, Option<HsmFailure>)
    decreases list.len(),
{
    if list.len() == 0 {
        (Seq::empty(), None)
    } else {
        let (rest, failure) = bulk_commands(list.drop_last());
        let last = list.last();
        if failure.is_some() || last.len() == 0 {
            (rest, failure)
        } else {
            match deser_apdu_command_spec(vstd::utf8::encode_utf8(last)) {
                Ok(c) => (rest.push(c), None),
                Err(e) => (rest, Some(HsmFailure::InvalidCommand(e))),
            }
        }
    }
}

/// The action that message `msg` calls for. When `strict`, a query that is not one of
/// "exchange", "bulk", "success", "error" and "warning" fails the session; otherwise
/// it is ignored.
pub open spec fn hsm_step_spec(msg: HsmMessageView, strict: bool) -> HsmActionView {
    if msg.query == "exchange"@ {
        match msg.data {
            Some(HsmMessageDataView::Command(h)) => match deser_apdu_command_spec(vstd::utf8::encode_utf8(h)) {
                Ok(c) => HsmActionView::Exchange { nonce: msg.nonce, command: c },
                Err(e) => HsmActionView::Fail(HsmFailure::InvalidCommand(e)),
            },
            _ => HsmActionView::Fail(HsmFailure::ExpectedSingleCommand),
        }
    } else if msg.query == "bulk"@ {
        match msg.data {
            Some(HsmMessageDataView::CommandList(l)) => {
                let (commands, failure) = bulk_commands(l);
                HsmActionView::Bulk { nonce: msg.nonce, commands, failure }
            },
            _ => HsmActionView::Fail(HsmFailure::ExpectedCommandList),
        }
    } else if msg.query == "success"@ {
        HsmActionView::Done
    } else if msg.query == "error"@ {
        HsmActionView::Fail(HsmFailure::HsmError)
    } else if msg.query == "warning"@ {
        HsmActionView::Warn
    } else if strict {
        HsmActionView::Fail(HsmFailure::UnsupportedQuery)
    } else {
        HsmActionView::Ignore
    }
}

/// Decodes the commands of a bulk list (see [`bulk_commands`]).
fn decode_bulk(list: &Vec<String>) -> (res: (Vec<ApduCommand>, Option<HsmFailure>))
    ensures
        res.0@.map_values(|c: ApduCommand| c@) == bulk_commands(list@.map_values(|c: String| c@)).0,
        res.1 == bulk_commands(list@.map_values(|c: String| c@)).1,
{
    let ghost lv = list@.map_values(|c: String| c@);
    let mut commands: Vec<ApduCommand> = Vec::new();
    let mut i: usize = 0;
    while i < list.len()
        invariant
            lv == list@.map_values(|c: String| c@),
            0 <= i <= list@.len(),
            bulk_commands(lv.take(i as int)) == (commands@.map_values(|c: ApduCommand| c@), None::<HsmFailure>),
        decreases list@.len() - i,
    {
        assert(lv.take(i + 1).drop_last() =~= lv.take(i as int));
        let cmd_hex: &String = &list[i];
        if cmd_hex.as_str().is_empty() {
            i = i + 1;
            continue;
        }
        match deser_apdu_command(cmd_hex.as_str()) {
            Ok(c) => {
                let ghost before = commands@;
                commands.push(c);
                assert(commands@.map_values(|c: ApduCommand| c@) =~= before.map_values(|c: ApduCommand| c@).push(c@));
            },
            Err(e) => {
                let ghost so_far = commands@.map_values(|c: ApduCommand| c@);
                proof {
                    lemma_bulk_stops(lv, i as int, so_far, HsmFailure::InvalidCommand(e));
                }
                return (commands, Some(HsmFailure::InvalidCommand(e)));
            },
        }
        i = i + 1;
    }
    assert(lv.take(list@.len() as int) =~= lv);
    (commands, None)
}

/// Once the decoding of a bulk list fails, the entries after do not change the result.
proof fn lemma_bulk_stops(list: Seq<Seq<char>>, k: int, cmds: Seq<ApduCommandView>, failure: HsmFailure)
    requires
        0 <= k < list.len(),
        bulk_commands(list.take(k + 1)) == (cmds, Some(failure)),
    ensures
        bulk_commands(list) == (cmds, Some(failure)),
    decreases list.len() - k,
{
    if k + 1 < list.len() {
        assert(list.take(k + 2).drop_last() =~= list.take(k + 1));
        lemma_bulk_stops(list, k + 1, cmds, failure);
    } else {
        assert(list.take(k + 1) =~= list);
    }
}

/// The action that an HSM message calls for (see [`hsm_step_spec`]).
pub fn hsm_step(msg: HsmMessage, strict: bool) -> (action: HsmAction)
    ensures
        action@ == hsm_step_spec(msg@, strict),
{
    let ghost mv = msg@;
    if str_eq(&msg.query, "exchange") {
        match msg.data {
            Some(HsmMessageData::Command(h)) => match deser_apdu_command(h.as_str()) {
                Ok(c) => HsmAction::Exchange { nonce: msg.nonce, command: c },
                Err(e) => HsmAction::Fail(HsmFailure::InvalidCommand(e)),
            },
            _ => HsmAction::Fail(HsmFailure::ExpectedSingleCommand),
        }
    } else if str_eq(&msg.query, "bulk") {
        match msg.data {
            Some(HsmMessageData::CommandList(l)) => {
                let (commands, failure) = decode_bulk(&l);
                HsmAction::Bulk { nonce: msg.nonce, commands, failure }
            },
            _ => HsmAction::Fail(HsmFailure::ExpectedCommandList),
        }
    } else if str_eq(&msg.query, "success") {
        HsmAction::Done
    } else if str_eq(&msg.query, "error") {
        HsmAction::Fail(HsmFailure::HsmError)
    } else if str_eq(&msg.query, "warning") {
        HsmAction::Warn
    } else if strict {
        HsmAction::Fail(HsmFailure::UnsupportedQuery)
    } else {
        HsmAction::Ignore
    }
}

/// Whether `query` is one that every session knows: "exchange", "bulk", "success",
/// "error" or "warning".
pub open spec fn is_known_query(query: Seq<char>) -> bool {
    query == "exchange"@ || query == "bulk"@ || query == "success"@ || query == "error"@ || query == "warning"@
}

/// What an HSM message calls for, in every session, strict or not: "success" ends the
/// session successfully, "error" fails it with the HSM's error, "warning" is reported
/// and reading goes on. Strictness decides only the queries no session knows: a strict
/// session fails on them, another ignores them.
pub proof fn lemma_hsm_step_queries(msg: HsmMessageView, strict: bool)
    ensures
        msg.query == "success"@ ==> hsm_step_spec(msg, strict) == HsmActionView::Done,
        msg.query == "error"@ ==> hsm_step_spec(msg, strict) == HsmActionView::Fail(HsmFailure::HsmError),
        msg.query == "warning"@ ==> hsm_step_spec(msg, strict) == HsmActionView::Warn,
        is_known_query(msg.query) ==> hsm_step_spec(msg, strict) == hsm_step_spec(msg, !strict),
        !is_known_query(msg.query) ==> hsm_step_spec(msg, strict) == (if strict {
            HsmActionView::Fail(HsmFailure::UnsupportedQuery)
        } else {
            HsmActionView::Ignore
        }),
{
    reveal_strlit("exchange");
    reveal_strlit("bulk");
    reveal_strlit("success");
    reveal_strlit("error");
    reveal_strlit("warning");
    assert("exchange"@.len() == 8 && "bulk"@.len() == 4 && "success"@.len() == 7 && "error"@.len() == 5
        && "warning"@.len() == 7);
    assert("success"@[0] != "warning"@[0]);
    let q = msg.query;
    if q == "success"@ {
        assert(hsm_step_spec(msg, strict) == HsmActionView::Done);
        assert(hsm_step_spec(msg, !strict) == HsmActionView::Done);
    } else if q == "error"@ {
        assert(hsm_step_spec(msg, strict) == HsmActionView::Fail(HsmFailure::HsmError));
        assert(hsm_step_spec(msg, !strict) == HsmActionView::Fail(HsmFailure::HsmError));
    } else if q == "warning"@ {
        assert(hsm_step_spec(msg, strict) == HsmActionView::Warn);
        assert(hsm_step_spec(msg, !strict) == HsmActionView::Warn);
    }
}

/// Whether the HSM is told that a command succeeded.
#[derive(Debug, Clone, Copy, PartialEq, Eq, Structural)]
pub enum HsmResponse {
    Success,
    Error,
}

/// The answer sent back to the HSM: the nonce of its message, success or error, and
/// the hexadecimal data of the device's response.
pub struct HsmReply {
    pub nonce: u32,
    pub response: HsmResponse,
    pub data: String,
}

/// The answer to an "exchange" query under `nonce`, for a device response with status
/// word `status` and data `data` (status word excluded).
pub fn exchange_reply(nonce: u32, status: u16, data: &[u8]) -> (reply: HsmReply)
    ensures
        reply.nonce == nonce,
        reply.response == (if status == 0x9000 { HsmResponse::Success } else { HsmResponse::Error }),
        reply.data@ == hex_encode_spec(data@),
{
    let response = if status == 0x9000 { HsmResponse::Success } else { HsmResponse::Error };
    HsmReply { nonce, response, data: hex_encode(data) }
}

/// The answer to a "bulk" query under `nonce`: success, no data.
pub fn bulk_reply(nonce: u32) -> (reply: HsmReply)
    ensures
        reply.nonce == nonce,
        reply.response == HsmResponse::Success,
        reply.data@ == Seq::<char>::empty(),
{
    HsmReply { nonce, response: HsmResponse::Success, data: String::new() }
}

/// The text of a command that could not be decoded.
pub open spec fn command_error_text(e: CommandError) -> Seq<char> {
    match e {
        CommandError::InvalidHex(h) => hex_error_text(h),
        CommandError::InvalidCommand => "Invalid command"@,
    }
}

/// The text of a command that could not be decoded (see [`command_error_text`]).
pub fn command_error_message(e: CommandError) -> (m: String)
    ensures
        m@ == command_error_text(e),
{
    match e {
        CommandError::InvalidHex(h) => hex_error_message(h),
        CommandError::InvalidCommand => "Invalid command".to_string(),
    }
}

/// The message with which an app installation (or genuine check) session fails, the
/// HSM's message being `text`.
pub open spec fn install_session_error_spec(failure: HsmFailure, text: Seq<char>) -> Seq<char> {
    match failure {
        HsmFailure::ExpectedSingleCommand => "A single command is expected in 'exchange' mode."@,
        HsmFailure::ExpectedCommandList => "Expecting a list of commands in bulk mode."@,
        HsmFailure::InvalidCommand(e) => command_error_text(e),
        HsmFailure::HsmError => "Got an 'error' query on the ws. Full message: "@ + text + "."@,
        HsmFailure::UnsupportedQuery => "Got an unsupported query on the ws. Full message: "@ + text + "."@,
    }
}

/// The message with which an app installation (or genuine check) session fails (see
/// [`install_session_error_spec`]).
pub fn install_session_error(failure: HsmFailure, text: &str) -> (m: String)
    ensures
        m@ == install_session_error_spec(failure, text@),
{
    match failure {
        HsmFailure::ExpectedSingleCommand => "A single command is expected in 'exchange' mode.".to_string(),
        HsmFailure::ExpectedCommandList => "Expecting a list of commands in bulk mode.".to_string(),
        HsmFailure::InvalidCommand(e) => command_error_message(e),
        HsmFailure::HsmError => {
            let mut m = "Got an 'error' query on the ws. Full message: ".to_string();
            m.append(text);
            m.append(".");
            m
        },
        HsmFailure::UnsupportedQuery => {
            let mut m = "Got an unsupported query on the ws. Full message: ".to_string();
            m.append(text);
            m.append(".");
            m
        },
    }
}

/// The error with which a firmware session fails, the HSM's message being `text`. A
/// firmware session ignores unknown queries, so none fails for that.
pub open spec fn firmware_session_error_spec(failure: HsmFailure, text: Seq<char>) -> FirmwareUpdateErrorView {
    match failure {
        HsmFailure::ExpectedSingleCommand => FirmwareUpdateErrorView::WebSocketError("Expected single command in exchange mode"@),
        HsmFailure::ExpectedCommandList => FirmwareUpdateErrorView::WebSocketError("Expected command list in bulk mode"@),
        HsmFailure::InvalidCommand(e) => FirmwareUpdateErrorView::WebSocketError("APDU parse error: "@ + command_error_text(e)),
        _ => FirmwareUpdateErrorView::WebSocketError("HSM error: "@ + text),
    }
}

/// The error with which a firmware session fails (see [`firmware_session_error_spec`]).
pub fn firmware_session_error(failure: HsmFailure, text: &str) -> (e: FirmwareUpdateError)
    requires
        failure != HsmFailure::UnsupportedQuery,
    ensures
        e@ == firmware_session_error_spec(failure, text@),
{
    match failure {
        HsmFailure::ExpectedSingleCommand => FirmwareUpdateError::WebSocketError("Expected single command in exchange mode".to_string()),
        HsmFailure::ExpectedCommandList => FirmwareUpdateError::WebSocketError("Expected command list in bulk mode".to_string()),
        HsmFailure::InvalidCommand(e) => {
            let m = command_error_message(e);
            FirmwareUpdateError::WebSocketError("APDU parse error: ".to_string().concat(m.as_str()))
        },
        _ => FirmwareUpdateError::WebSocketError("HSM error: ".to_string().concat(text)),
    }
}

/// The answer to an "exchange" query of a firmware session under `nonce`, for a device
/// response with status word `status` and data `data`: the statuses by which the device
/// refuses the update end the session with their error (see [`firmware_status_error`]);
/// any other gets the answer of [`exchange_reply`].
pub fn firmware_exchange_reply(nonce: u32, status: u16, data: &[u8]) -> (res: Result<HsmReply, FirmwareUpdateError>)
    ensures
        match firmware_status_error(status) {
            Some(e) => res matches Err(f) && f@ == e,
            None => res matches Ok(reply) && reply.nonce == nonce
                && reply.response == (if status == 0x9000 { HsmResponse::Success } else { HsmResponse::Error })
                && reply.data@ == hex_encode_spec(data@),
        },
{
    match check_firmware_status(status) {
        Err(e) => Err(e),
        Ok(()) => Ok(exchange_reply(nonce, status, data)),
    }
}

} // verus!
