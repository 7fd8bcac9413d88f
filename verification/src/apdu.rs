//! APDU commands: the commands the library sends, and their hexadecimal wire form
//! as the remote HSM hands them out.
use vstd::prelude::*;
use vstd::string::StringSliceAdditionalSpecFns;
use vstd::utf8::{encode_utf8, is_ascii_chars, is_ascii_chars_encode_utf8};
use crate::text::hex_digit_lower;
use crate::hexcodec::hex_value;
use crate::hexcodec::{hex_decode, hex_decode_error, hex_decode_spec, hex_encode_spec, HexError};

verus! {

/// An APDU command: class, instruction, two parameters and a data field.
pub struct ApduCommand {
    pub cla: u8,
    pub ins: u8,
    pub p1: u8,
    pub p2: u8,
    pub data: Vec<u8>,
}

/// Mathematical value of an [`ApduCommand`].
pub struct ApduCommandView {
    pub cla: u8,
    pub ins: u8,
    pub p1: u8,
    pub p2: u8,
    pub data: Seq<u8>,
}

impl View for ApduCommand {
    type V = ApduCommandView;

    open spec fn view(&self) -> ApduCommandView {
        ApduCommandView { cla: self.cla, ins: self.ins, p1: self.p1, p2: self.p2, data: self.data@ }
    }
}

/// Why a hexadecimal command could not be decoded.
#[derive(Debug, Clone, Copy, PartialEq, Eq, Structural)]
pub enum CommandError {
    /// The text is not an even number of hexadecimal digits, for this reason.
    InvalidHex(HexError),
    /// The bytes are not a command: fewer than 5 bytes, or a length byte that does not
    /// match the data that follows.
    InvalidCommand,
}

/// The command that `bytes` encode: 4 header bytes, a length byte, then exactly that
/// many data bytes.
pub open spec fn command_from_bytes(bytes: Seq<u8>) -> Option<ApduCommandView> {
    if bytes.len() < 5 || bytes.len() != 5 + bytes[4] {
        None
    } else {
        Some(ApduCommandView { cla: bytes[0], ins: bytes[1], p1: bytes[2], p2: bytes[3], data: bytes.skip(5) })
    }
}

/// Result of decoding the hexadecimal command whose text has bytes `text`.
pub open spec fn deser_apdu_command_spec(text: Seq<u8>) -> Result<ApduCommandView, CommandError> {
    match hex_decode_spec(text) {
        None => Err(CommandError::InvalidHex(hex_decode_error(text))),
        Some(bytes) => match command_from_bytes(bytes) {
            None => Err(CommandError::InvalidCommand),
            Some(c) => Ok(c),
        },
    }
}

/// Deserialize an APDU command from a hex string.
pub fn deser_apdu_command(hex_str: &str) -> (res: Result<ApduCommand, CommandError>)
    ensures
        match (res, deser_apdu_command_spec(hex_str.spec_bytes())) {
            (Ok(c), Ok(sc)) => c@ == sc,
            (Err(e), Err(se)) => e == se,
            _ => false,
        },
{
    let bytes = match hex_decode(hex_str) {
        Ok(b) => b,
        Err(e) => {
            return Err(CommandError::InvalidHex(e));
        },
    };
    if bytes.len() < 5 {
        return Err(CommandError::InvalidCommand);
    }
    let data_len = bytes[4] as usize;
    if bytes.len() != 5 + data_len {
        return Err(CommandError::InvalidCommand);
    }
    let mut data: Vec<u8> = Vec::new();
    let mut i: usize = 5;
    while i < bytes.len()
        invariant
            5 <= i <= bytes@.len(),
            data@ == bytes@.subrange(5, i as int),
        decreases bytes@.len() - i,
    {
        data.push(bytes[i]);
        i = i + 1;
    }
    assert(data@ =~= bytes@.skip(5));
    Ok(ApduCommand { cla: bytes[0], ins: bytes[1], p1: bytes[2], p2: bytes[3], data })
}

/// Wire form of a command: header, one length byte, data.
pub open spec fn serialize_command_spec(c: ApduCommandView) -> Seq<u8> {
    seq![c.cla, c.ins, c.p1, c.p2, (c.data.len() % 256) as u8] + c.data
}

/// Serialize an APDU command: the 4 header bytes, the length byte (the data length
/// truncated to a byte), then the data.
pub fn serialize_apdu_command(command: &ApduCommand) -> (bytes: Vec<u8>)
    ensures
        bytes@ == serialize_command_spec(command@),
{
    let mut bytes: Vec<u8> = Vec::new();
    bytes.push(command.cla);
    bytes.push(command.ins);
    bytes.push(command.p1);
    bytes.push(command.p2);
    bytes.push((command.data.len() % 256) as u8);
    let mut i: usize = 0;
    while i < command.data.len()
        invariant
            0 <= i <= command.data@.len(),
            bytes@ == seq![command.cla, command.ins, command.p1, command.p2, (command.data@.len() % 256) as u8] + command.data@.subrange(0, i as int),
        decreases command.data@.len() - i,
    {
        bytes.push(command.data[i]);
        i = i + 1;
    }
    assert(command.data@.subrange(0, command.data@.len() as int) =~= command.data@);
    bytes
}

proof fn lemma_hex_digit_value(d: nat)
    requires
        d < 16,
    ensures
        '\0' <= hex_digit_lower(d) <= '\u{7f}',
        hex_value(hex_digit_lower(d) as u8) == Some(d as u8),
{
}

/// Decoding the hexadecimal text of bytes gives the bytes back.
pub proof fn lemma_hex_roundtrip(bytes: Seq<u8>)
    ensures
        hex_decode_spec(encode_utf8(hex_encode_spec(bytes))) == Some(bytes),
{
    let chars = hex_encode_spec(bytes);
    assert forall|i: int| 0 <= i < chars.len() implies '\0' <= #[trigger] chars[i] <= '\u{7f}' by {
        if i % 2 == 0 {
            lemma_hex_digit_value((bytes[i / 2] / 16) as nat);
        } else {
            lemma_hex_digit_value((bytes[i / 2] % 16) as nat);
        }
    }
    assert(is_ascii_chars(chars));
    is_ascii_chars_encode_utf8(chars);
    let text = encode_utf8(chars);
    assert forall|i: int| 0 <= i < text.len() implies #[trigger] hex_value(text[i]) == Some(
        if i % 2 == 0 { (bytes[i / 2] / 16) as u8 } else { (bytes[i / 2] % 16) as u8 },
    ) by {
        assert(text[i] == chars[i] as u8);
        if i % 2 == 0 {
            lemma_hex_digit_value((bytes[i / 2] / 16) as nat);
        } else {
            lemma_hex_digit_value((bytes[i / 2] % 16) as nat);
        }
    }
    assert(text.len() % 2 == 0);
    assert(!(exists|i: int| 0 <= i < text.len() && (#[trigger] hex_value(text[i])).is_none()));
    let decoded = hex_decode_spec(text).unwrap();
    assert forall|i: int| 0 <= i < bytes.len() implies decoded[i] == bytes[i] by {
        assert(hex_value(text[2 * i]) == Some((bytes[i] / 16) as u8));
        assert(hex_value(text[2 * i + 1]) == Some((bytes[i] % 16) as u8));
    }
    assert(decoded =~= bytes);
}

/// A command whose data fits in its one-byte length field survives serialization to
/// hexadecimal text and decoding back unchanged.
pub proof fn lemma_command_hex_roundtrip(c: ApduCommandView)
    requires
        c.data.len() <= 255,
    ensures
        deser_apdu_command_spec(encode_utf8(hex_encode_spec(serialize_command_spec(c)))) == Ok::<ApduCommandView, CommandError>(c),
{
    let bytes = serialize_command_spec(c);
    lemma_hex_roundtrip(bytes);
    assert(bytes[4] == c.data.len());
    assert(bytes.skip(5) =~= c.data);
}

} // verus!
