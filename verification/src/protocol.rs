//! Ledger HID framing of APDU commands.
//!
//! The Ledger HID protocol wraps APDU commands into 64-byte HID packets:
//! - first packet: channel id (2), tag (1), sequence (2), length (2), data (57);
//! - continuation packets: channel id (2), tag (1), sequence (2), data (59).
use vstd::prelude::*;
use vstd::string::StringExecFns;
use crate::text::{decimal, hex_lower_fixed, push_decimal, push_hex_lower};

verus! {

/// Size of HID packets sent to and from Ledger devices.
pub const HID_PACKET_SIZE: usize = 64;

/// Ledger vendor ID for device detection.
pub const LEDGER_VENDOR_ID: u16 = 0x2c97;

/// Default HID channel ID.
pub const DEFAULT_CHANNEL_ID: u16 = 0x0101;

/// Tag indicating APDU data.
pub const TAG_APDU: u8 = 0x05;

/// Maximum data bytes in the first packet (after its 7-byte header).
pub const FIRST_PACKET_DATA_SIZE: usize = 57;

/// Maximum data bytes in continuation packets (after their 5-byte header).
pub const CONTINUATION_PACKET_DATA_SIZE: usize = 59;

/// Errors that can occur during APDU protocol operations.
#[allow(inconsistent_fields)]
pub enum ApduError {
    /// Response is too short to contain the status word.
    ResponseTooShort,
    /// Channel ID mismatch in a response packet.
    ChannelMismatch { expected: u16, got: u16 },
    /// Invalid tag in a response packet.
    InvalidTag { expected: u8, got: u8 },
    /// Sequence number mismatch.
    SequenceMismatch { expected: u16, got: u16 },
    /// APDU command execution error reported by the device.
    DeviceError { sw: u16, message: String },
    /// Protocol framing error.
    FramingError(String),
}

/// Mathematical value of an [`ApduError`], its messages taken as character sequences.
#[allow(inconsistent_fields)]
pub enum ApduErrorView {
    ResponseTooShort,
    ChannelMismatch { expected: u16, got: u16 },
    InvalidTag { expected: u8, got: u8 },
    SequenceMismatch { expected: u16, got: u16 },
    DeviceError { sw: u16, message: Seq<char> },
    FramingError(Seq<char>),
}

impl View for ApduError {
    type V = ApduErrorView;

    open spec fn view(&self) -> ApduErrorView {
        match self {
            ApduError::ResponseTooShort => ApduErrorView::ResponseTooShort,
            ApduError::ChannelMismatch { expected, got } => ApduErrorView::ChannelMismatch {
                expected: *expected,
                got: *got,
            },
            ApduError::InvalidTag { expected, got } => ApduErrorView::InvalidTag {
                expected: *expected,
                got: *got,
            },
            ApduError::SequenceMismatch { expected, got } => ApduErrorView::SequenceMismatch {
                expected: *expected,
                got: *got,
            },
            ApduError::DeviceError { sw, message } => ApduErrorView::DeviceError {
                sw: *sw,
                message: message@,
            },
            ApduError::FramingError(m) => ApduErrorView::FramingError(m@),
        }
    }
}

/// The text of an APDU protocol error.
pub open spec fn apdu_error_message(e: ApduErrorView) -> Seq<char> {
    match e {
        ApduErrorView::ResponseTooShort => "Response too short"@,
        ApduErrorView::ChannelMismatch { expected, got } => "Channel mismatch: expected 0x"@
            + hex_lower_fixed(expected as nat, 4) + ", got 0x"@ + hex_lower_fixed(got as nat, 4),
        ApduErrorView::InvalidTag { expected, got } => "Invalid tag: expected 0x"@
            + hex_lower_fixed(expected as nat, 2) + ", got 0x"@ + hex_lower_fixed(got as nat, 2),
        ApduErrorView::SequenceMismatch { expected, got } => "Sequence mismatch: expected "@
            + decimal(expected as nat) + ", got "@ + decimal(got as nat),
        ApduErrorView::DeviceError { sw, message } => "Device error (SW=0x"@ + hex_lower_fixed(sw as nat, 4)
            + "): "@ + message,
        ApduErrorView::FramingError(m) => "Framing error: "@ + m,
    }
}

impl ApduError {
    /// The text of this error.
    pub fn message(&self) -> (m: String)
        ensures
            m@ == apdu_error_message(self@),
    {
        match self {
            ApduError::ResponseTooShort => "Response too short".to_string(),
            ApduError::ChannelMismatch { expected, got } => {
                let mut m = "Channel mismatch: expected 0x".to_string();
                push_hex_lower(&mut m, *expected as u64, 4);
                m.append(", got 0x");
                push_hex_lower(&mut m, *got as u64, 4);
                m
            },
            ApduError::InvalidTag { expected, got } => {
                let mut m = "Invalid tag: expected 0x".to_string();
                push_hex_lower(&mut m, *expected as u64, 2);
                m.append(", got 0x");
                push_hex_lower(&mut m, *got as u64, 2);
                m
            },
            ApduError::SequenceMismatch { expected, got } => {
                let mut m = "Sequence mismatch: expected ".to_string();
                push_decimal(&mut m, *expected as u64);
                m.append(", got ");
                push_decimal(&mut m, *got as u64);
                m
            },
            ApduError::DeviceError { sw, message } => {
                let mut m = "Device error (SW=0x".to_string();
                push_hex_lower(&mut m, *sw as u64, 4);
                m.append("): ");
                m.append(message.as_str());
                m
            },
            ApduError::FramingError(msg) => {
                let mut m = "Framing error: ".to_string();
                m.append(msg.as_str());
                m
            },
        }
    }
}

/// Number of packets that frame `len` bytes of data.
pub open spec fn packet_count(len: int) -> int {
    if len <= 57 {
        1
    } else {
        1 + (len - 57 + 58) / 59
    }
}

/// Offset in the data of the chunk carried by packet `k`.
pub open spec fn chunk_start(k: int) -> int {
    if k == 0 {
        0
    } else {
        57 + 59 * (k - 1)
    }
}

/// Size of the header of packet `k`.
pub open spec fn header_size(k: int) -> int {
    if k == 0 {
        7
    } else {
        5
    }
}

/// Number of data bytes carried by packet `k` when framing `len` bytes.
pub open spec fn chunk_len(len: int, k: int) -> int {
    let room = if k == 0 { 57 } else { 59int };
    let left = len - chunk_start(k);
    if left < 0 {
        0
    } else if left < room {
        left
    } else {
        room
    }
}

/// Byte `j` of packet `k` in the framing of `data` on channel `ch`.
pub open spec fn frame_byte(data: Seq<u8>, ch: u16, k: int, j: int) -> u8 {
    if j == 0 {
        (ch / 256) as u8
    } else if j == 1 {
        (ch % 256) as u8
    } else if j == 2 {
        TAG_APDU
    } else if j == 3 {
        ((k / 256) % 256) as u8
    } else if j == 4 {
        (k % 256) as u8
    } else if k == 0 && j == 5 {
        ((data.len() / 256) % 256) as u8
    } else if k == 0 && j == 6 {
        (data.len() % 256) as u8
    } else if j - header_size(k) < chunk_len(data.len() as int, k) {
        data[chunk_start(k) + j - header_size(k)]
    } else {
        0
    }
}

/// Packet `k` of the framing of `data` on channel `ch`.
pub open spec fn frame_packet(data: Seq<u8>, ch: u16, k: int) -> Seq<u8> {
    Seq::new(64, |j: int| frame_byte(data, ch, k, j))
}

/// Frame APDU data into 64-byte HID packets.
pub fn frame_apdu(data: &[u8], channel_id: u16) -> (packets: Vec<[u8; 64]>)
    requires
        data@.len() <= 57 + 59 * 65535,
    ensures
        packets@.len() == packet_count(data@.len() as int),
        forall|k: int| 0 <= k < packets@.len() ==> #[trigger] packets@[k]@ == frame_packet(data@, channel_id, k),
{
    let mut packets: Vec<[u8; 64]> = Vec::new();
    let data_len = data.len();
    let mut offset: usize = 0;
    let mut sequence: u16 = 0;
    let ch_hi: u8 = (channel_id / 256) as u8;
    let ch_lo: u8 = (channel_id % 256) as u8;

    let mut packet = [0u8; 64];
    packet[0] = ch_hi;
    packet[1] = ch_lo;
    packet[2] = TAG_APDU;
    packet[3] = 0;
    packet[4] = 0;
    packet[5] = ((data_len / 256) % 256) as u8;
    packet[6] = (data_len % 256) as u8;
    let first_chunk_len: usize = if data_len < FIRST_PACKET_DATA_SIZE { data_len } else { FIRST_PACKET_DATA_SIZE };
    let mut j: usize = 0;
    while j < first_chunk_len
        invariant
            first_chunk_len == chunk_len(data_len as int, 0),
            data_len == data@.len(),
            0 <= j <= first_chunk_len,
            packet@.len() == 64,
            forall|b: int| 0 <= b < 7 + j ==> packet@[b] == frame_byte(data@, channel_id, 0, b),
            forall|b: int| 7 + j <= b < 64 ==> packet@[b] == 0,
        decreases first_chunk_len - j,
    {
        packet[7 + j] = data[j];
        j = j + 1;
    }
    assert(packet@ =~= frame_packet(data@, channel_id, 0));
    offset = first_chunk_len;
    packets.push(packet);

    while offset < data_len
        invariant
            data_len == data@.len(),
            data_len <= 57 + 59 * 65535,
            ch_hi == (channel_id / 256) as u8,
            ch_lo == (channel_id % 256) as u8,
            packets@.len() >= 1,
            sequence as int == packets@.len() - 1,
            offset as int == (if chunk_start(packets@.len() as int) < data_len { chunk_start(packets@.len() as int) } else { data_len as int }),
            forall|k: int| 0 <= k < packets@.len() ==> #[trigger] packets@[k]@ == frame_packet(data@, channel_id, k),
            packets@.len() <= packet_count(data_len as int),
            offset < data_len ==> packets@.len() < packet_count(data_len as int),
            offset >= data_len ==> packets@.len() == packet_count(data_len as int),
        decreases data_len - offset,
    {
        assert(packets@.len() < packet_count(data_len as int));
        assert(packet_count(data_len as int) <= 65536);
        sequence = sequence + 1;
        let mut packet = [0u8; 64];
        packet[0] = ch_hi;
        packet[1] = ch_lo;
        packet[2] = TAG_APDU;
        packet[3] = (sequence / 256) as u8;
        packet[4] = (sequence % 256) as u8;
        let left = data_len - offset;
        let chunk: usize = if left < CONTINUATION_PACKET_DATA_SIZE { left } else { CONTINUATION_PACKET_DATA_SIZE };
        let ghost k = sequence as int;
        assert(((k / 256) % 256) as u8 == (sequence / 256) as u8);
        assert((k % 256) as u8 == (sequence % 256) as u8);
        let mut j: usize = 0;
        while j < chunk
            invariant
                k == sequence as int,
                k >= 1,
                chunk as int == chunk_len(data_len as int, k),
                offset as int == chunk_start(k),
                data_len == data@.len(),
                0 <= j <= chunk,
                packet@.len() == 64,
                forall|b: int| 0 <= b < 5 + j ==> packet@[b] == frame_byte(data@, channel_id, k, b),
                forall|b: int| 5 + j <= b < 64 ==> packet@[b] == 0,
            decreases chunk - j,
        {
            packet[5 + j] = data[offset + j];
            j = j + 1;
        }
        assert(packet@ =~= frame_packet(data@, channel_id, k));
        offset = offset + chunk;
        packets.push(packet);
    }
    packets
}

/// Big-endian 16-bit value of bytes `hi` and `lo`.
pub open spec fn be16(hi: u8, lo: u8) -> int {
    hi as int * 256 + lo as int
}

/// The error, if any, that response packet `p` at position `i` raises on channel `ch`;
/// the sequence number expected at position `i` is `i` modulo 65536 (it is a 16-bit
/// counter).
pub open spec fn packet_error(p: Seq<u8>, ch: u16, i: int) -> Option<ApduErrorView> {
    if p.len() < 5 {
        Some(ApduErrorView::FramingError("Packet too short"@))
    } else if be16(p[0], p[1]) != ch as int {
        Some(ApduErrorView::ChannelMismatch { expected: ch, got: be16(p[0], p[1]) as u16 })
    } else if p[2] != TAG_APDU {
        Some(ApduErrorView::InvalidTag { expected: TAG_APDU, got: p[2] })
    } else if be16(p[3], p[4]) != i % 65536 {
        Some(ApduErrorView::SequenceMismatch { expected: (i % 65536) as u16, got: be16(p[3], p[4]) as u16 })
    } else if i == 0 && p.len() < 7 {
        Some(ApduErrorView::FramingError("First packet missing length field"@))
    } else {
        None
    }
}

/// Minimum of two integers.
pub open spec fn min_int(a: int, b: int) -> int {
    if a < b {
        a
    } else {
        b
    }
}

/// Data bytes that packet `i` contributes once `acc` bytes were collected, out of
/// `total` announced ones.
pub open spec fn packet_chunk(p: Seq<u8>, i: int, total: int, acc_len: int) -> Seq<u8> {
    let avail = p.len() - header_size(i);
    let want = if total - acc_len < 0 { 0 } else { total - acc_len };
    p.subrange(header_size(i), header_size(i) + min_int(avail, want))
}

/// Collects the data of `packets` from position `i` on, `acc` holding what the earlier
/// packets gave; collection stops once `total` bytes are there.
pub open spec fn collect_packets(packets: Seq<Seq<u8>>, ch: u16, total: int, i: int, acc: Seq<u8>) -> Result<Seq<u8>, ApduErrorView>
    decreases packets.len() - i,
{
    if i < 0 || i >= packets.len() {
        Ok(acc)
    } else {
        match packet_error(packets[i], ch, i) {
            Some(e) => Err(e),
            None => {
                let acc2 = acc + packet_chunk(packets[i], i, total, acc.len() as int);
                if acc2.len() >= total {
                    Ok(acc2)
                } else {
                    collect_packets(packets, ch, total, i + 1, acc2)
                }
            },
        }
    }
}

/// Length announced by the first packet of a response.
pub open spec fn announced_length(packets: Seq<Seq<u8>>) -> int {
    if packets.len() > 0 && packets[0].len() >= 7 {
        be16(packets[0][5], packets[0][6])
    } else {
        0
    }
}

/// Response data (status word removed) and status word carried by `packets`.
pub open spec fn parse_response_spec(packets: Seq<Seq<u8>>, ch: u16) -> Result<(Seq<u8>, u16), ApduErrorView> {
    if packets.len() == 0 {
        Err(ApduErrorView::ResponseTooShort)
    } else {
        match collect_packets(packets, ch, announced_length(packets), 0, Seq::empty()) {
            Err(e) => Err(e),
            Ok(data) => if data.len() < 2 {
                Err(ApduErrorView::ResponseTooShort)
            } else {
                Ok((data.take(data.len() - 2), be16(data[data.len() - 2], data[data.len() - 1]) as u16))
            },
        }
    }
}

/// The packets of a response, each taken by its bytes.
pub open spec fn packets_view(packets: Seq<&[u8]>) -> Seq<Seq<u8>> {
    packets.map_values(|p: &[u8]| p@)
}

/// Parse response data from HID packets: returns the response data without the
/// status word, and the status word.
pub fn parse_response(packets: &[&[u8]], channel_id: u16) -> (res: Result<(Vec<u8>, u16), ApduError>)
    ensures
        match (res, parse_response_spec(packets_view(packets@), channel_id)) {
            (Ok((d, sw)), Ok((sd, ssw))) => d@ == sd && sw == ssw,
            (Err(e), Err(se)) => e@ == se,
            _ => false,
        },
{
    if packets.len() == 0 {
        return Err(ApduError::ResponseTooShort);
    }
    let ghost pv = packets_view(packets@);
    let mut data: Vec<u8> = Vec::new();
    let mut expected_length: usize = 0;
    let mut sequence: u16 = 0;
    let mut i: usize = 0;
    while i < packets.len()
        invariant_except_break
            pv == packets_view(packets@),
            pv.len() == packets@.len(),
            pv.len() > 0,
            0 <= i <= packets@.len(),
            sequence as int == i % 65536,
            i > 0 ==> expected_length as int == announced_length(pv),
            i > 0 ==> data@.len() < expected_length,
            i > 0 ==> collect_packets(pv, channel_id, announced_length(pv), 0, Seq::empty())
                == collect_packets(pv, channel_id, announced_length(pv), i as int, data@),
            i == 0 ==> data@.len() == 0,
        ensures
            collect_packets(pv, channel_id, announced_length(pv), 0, Seq::empty()) == Ok::<Seq<u8>, ApduErrorView>(data@),
        decreases packets@.len() - i,
    {
        let packet: &[u8] = packets[i];
        let ghost p = pv[i as int];
        assert(p == packet@);
        if packet.len() < 5 {
            return Err(ApduError::FramingError("Packet too short".to_string()));
        }
        let pkt_channel: u16 = (packet[0] as u16) * 256 + packet[1] as u16;
        if pkt_channel != channel_id {
            return Err(ApduError::ChannelMismatch { expected: channel_id, got: pkt_channel });
        }
        if packet[2] != TAG_APDU {
            return Err(ApduError::InvalidTag { expected: TAG_APDU, got: packet[2] });
        }
        let pkt_sequence: u16 = (packet[3] as u16) * 256 + packet[4] as u16;
        if pkt_sequence != sequence {
            return Err(ApduError::SequenceMismatch { expected: sequence, got: pkt_sequence });
        }
        let ghost old_data = data@;
        if i == 0 {
            assert(old_data =~= Seq::<u8>::empty());
        }
        if i == 0 {
            if packet.len() < 7 {
                return Err(ApduError::FramingError("First packet missing length field".to_string()));
            }
            expected_length = (packet[5] as usize) * 256 + packet[6] as usize;
            let available = packet.len() - 7;
            let to_copy = if available < expected_length { available } else { expected_length };
            let mut j: usize = 0;
            while j < to_copy
                invariant
                    packet@ == p,
                    p.len() <= usize::MAX,
                    p.len() >= 7,
                    to_copy <= p.len() - 7,
                    0 <= j <= to_copy,
                    data@ == p.subrange(7, 7 + j),
                decreases to_copy - j,
            {
                data.push(packet[7 + j]);
                j = j + 1;
            }
        } else {
            let available = packet.len() - 5;
            let remaining = expected_length - data.len();
            let to_copy = if available < remaining { available } else { remaining };
            let mut j: usize = 0;
            while j < to_copy
                invariant
                    packet@ == p,
                    p.len() <= usize::MAX,
                    p.len() >= 5,
                    to_copy <= p.len() - 5,
                    0 <= j <= to_copy,
                    data@ == old_data + p.subrange(5, 5 + j),
                decreases to_copy - j,
            {
                data.push(packet[5 + j]);
                j = j + 1;
            }
        }
        assert(data@ =~= old_data + packet_chunk(p, i as int, announced_length(pv), old_data.len() as int));
        assert(packet_error(p, channel_id, i as int).is_none());
        assert(expected_length as int == announced_length(pv));
        assert(collect_packets(pv, channel_id, announced_length(pv), i as int, old_data) == (if data@.len() >= expected_length {
            Ok::<Seq<u8>, ApduErrorView>(data@)
        } else {
            collect_packets(pv, channel_id, announced_length(pv), i + 1, data@)
        }));
        sequence = if sequence == 65535 { 0 } else { sequence + 1 };
        i = i + 1;
        if data.len() >= expected_length {
            assert(collect_packets(pv, channel_id, announced_length(pv), 0, Seq::empty()) == Ok::<Seq<u8>, ApduErrorView>(data@));
            break;
        }
    }
    if data.len() < 2 {
        return Err(ApduError::ResponseTooShort);
    }
    let sw_offset = data.len() - 2;
    let sw: u16 = (data[sw_offset] as u16) * 256 + data[sw_offset + 1] as u16;
    data.truncate(sw_offset);
    Ok((data, sw))
}

/// The device error, if any, that status word `sw` stands for.
pub open spec fn status_word_error(sw: u16) -> Option<ApduErrorView> {
    let message = if sw == 0x6985 {
        "Conditions not satisfied (user rejected or app not ready)"@
    } else if sw == 0x5515 {
        "Device is locked"@
    } else if sw == 0x6A82 {
        "File not found"@
    } else if sw == 0x6A86 {
        "Incorrect P1 or P2"@
    } else if sw == 0x6A87 {
        "Incorrect data length"@
    } else if sw == 0x6B00 {
        "Incorrect parameters"@
    } else if sw == 0x6D00 {
        "Instruction not supported"@
    } else if sw == 0x6E00 {
        "Class not supported"@
    } else if sw == 0x6F00 {
        "Unknown error"@
    } else if sw / 256 == 0x6C {
        "Wrong length, expected "@ + decimal((sw % 256) as nat) + " bytes"@
    } else {
        "Unknown status word: 0x"@ + hex_lower_fixed(sw as nat, 4)
    };
    if sw == 0x9000 || (sw / 256 == 0x61) {
        None
    } else {
        Some(ApduErrorView::DeviceError { sw, message })
    }
}

/// Interpret a status word: `Ok` for success (0x9000) and "more data available"
/// (0x61XX), otherwise the device error with its message.
pub fn interpret_status_word(sw: u16) -> (res: Result<(), ApduError>)
    ensures
        match (res, status_word_error(sw)) {
            (Ok(()), None) => true,
            (Err(e), Some(se)) => e@ == se,
            _ => false,
        },
{
    let message: String = if sw == 0x9000 {
        return Ok(());
    } else if sw == 0x6985 {
        "Conditions not satisfied (user rejected or app not ready)".to_string()
    } else if sw == 0x5515 {
        "Device is locked".to_string()
    } else if sw == 0x6A82 {
        "File not found".to_string()
    } else if sw == 0x6A86 {
        "Incorrect P1 or P2".to_string()
    } else if sw == 0x6A87 {
        "Incorrect data length".to_string()
    } else if sw == 0x6B00 {
        "Incorrect parameters".to_string()
    } else if sw == 0x6D00 {
        "Instruction not supported".to_string()
    } else if sw == 0x6E00 {
        "Class not supported".to_string()
    } else if sw == 0x6F00 {
        "Unknown error".to_string()
    } else if sw / 256 == 0x61 {
        return Ok(());
    } else if sw / 256 == 0x6C {
        let mut m = "Wrong length, expected ".to_string();
        push_decimal(&mut m, (sw % 256) as u64);
        m.append(" bytes");
        m
    } else {
        let mut m = "Unknown status word: 0x".to_string();
        push_hex_lower(&mut m, sw as u64, 4);
        m
    };
    Err(ApduError::DeviceError { sw, message })
}

/// The packets of the framing of `data` on channel `ch`.
pub open spec fn frame_packets(data: Seq<u8>, ch: u16) -> Seq<Seq<u8>> {
    Seq::new(packet_count(data.len() as int) as nat, |k: int| frame_packet(data, ch, k))
}

proof fn lemma_frame_packet_header(data: Seq<u8>, ch: u16, k: int)
    requires
        0 <= k < 65536,
        data.len() <= 65535,
    ensures
        packet_error(frame_packet(data, ch, k), ch, k).is_none(),
{
    let p = frame_packet(data, ch, k);
    assert(p[0] == (ch / 256) as u8);
    assert(p[1] == (ch % 256) as u8);
    assert(be16(p[0], p[1]) == ch as int);
    assert(p[3] == ((k / 256) % 256) as u8);
    assert(p[4] == (k % 256) as u8);
    assert(be16(p[3], p[4]) == k);
}

proof fn lemma_collect_frame(data: Seq<u8>, ch: u16, k: int)
    requires
        2 <= data.len() <= 65535,
        0 <= k < packet_count(data.len() as int),
        k == 0 || chunk_start(k) < data.len(),
    ensures
        collect_packets(frame_packets(data, ch), ch, data.len() as int, k, data.take(chunk_start(k)))
            == Ok::<Seq<u8>, ApduErrorView>(data),
    decreases packet_count(data.len() as int) - k,
{
    let len = data.len() as int;
    let pk = frame_packets(data, ch);
    let p = pk[k];
    assert(p == frame_packet(data, ch, k));
    lemma_frame_packet_header(data, ch, k);
    let cs = chunk_start(k);
    let h = header_size(k);
    let cl = chunk_len(len, k);
    let acc = data.take(cs);
    assert(acc.len() == cs);
    let chunk = packet_chunk(p, k, len, cs);
    assert(chunk =~= data.subrange(cs, cs + cl));
    let acc2 = acc + chunk;
    assert(acc2 =~= data.take(cs + cl));
    if acc2.len() >= len {
        assert(acc2 =~= data);
    } else {
        assert(chunk_start(k + 1) == cs + cl);
        lemma_collect_frame(data, ch, k + 1);
    }
}

/// Framing a response and parsing the packets back gives the response's data and its
/// status word (its last two bytes), for every response of 2 to 65535 bytes.
pub proof fn lemma_frame_parse_roundtrip(data: Seq<u8>, ch: u16)
    requires
        2 <= data.len() <= 65535,
    ensures
        parse_response_spec(frame_packets(data, ch), ch) == Ok::<(Seq<u8>, u16), ApduErrorView>(
            (data.take(data.len() - 2), be16(data[data.len() - 2], data[data.len() - 1]) as u16),
        ),
{
    let pk = frame_packets(data, ch);
    let p0 = pk[0];
    assert(p0 == frame_packet(data, ch, 0));
    assert(p0[5] == ((data.len() / 256) % 256) as u8);
    assert(p0[6] == (data.len() % 256) as u8);
    assert(announced_length(pk) == data.len());
    assert(data.take(0) =~= Seq::<u8>::empty());
    lemma_collect_frame(data, ch, 0);
}

proof fn lemma_collect_ignores_trailing(ps: Seq<Seq<u8>>, q: Seq<u8>, ch: u16, total: int, i: int, acc: Seq<u8>)
    requires
        0 <= i,
        i < ps.len() || acc.len() < total,
        collect_packets(ps, ch, total, i, acc) matches Ok(d) && d.len() >= total,
    ensures
        collect_packets(ps.push(q), ch, total, i, acc) == collect_packets(ps, ch, total, i, acc),
    decreases ps.len() - i,
{
    if i < ps.len() {
        assert(ps.push(q)[i] == ps[i]);
        if packet_error(ps[i], ch, i).is_none() {
            let acc2 = acc + packet_chunk(ps[i], i, total, acc.len() as int);
            if acc2.len() < total {
                lemma_collect_ignores_trailing(ps, q, ch, total, i + 1, acc2);
            }
        }
    }
}

/// Packets after the one that completes a response are never read: once the packets
/// `ps` carry all the bytes their first packet announces, a further packet `q`, whatever
/// it holds, leaves the parsed response unchanged.
pub proof fn lemma_parse_ignores_trailing(ps: Seq<Seq<u8>>, q: Seq<u8>, ch: u16)
    requires
        ps.len() > 0,
        collect_packets(ps, ch, announced_length(ps), 0, Seq::empty()) matches Ok(d) && d.len() >= announced_length(ps),
    ensures
        parse_response_spec(ps.push(q), ch) == parse_response_spec(ps, ch),
{
    assert(ps.push(q)[0] == ps[0]);
    assert(announced_length(ps.push(q)) == announced_length(ps));
    lemma_collect_ignores_trailing(ps, q, ch, announced_length(ps), 0, Seq::empty());
}

/// Every packet of a framing starts with the channel (big-endian), the APDU tag and the
/// packet's sequence number (big-endian, modulo 65536); the first packet then carries
/// the data length, big-endian and modulo 65536: its high byte, then its low byte.
pub proof fn lemma_frame_headers(data: Seq<u8>, ch: u16, k: int)
    requires
        0 <= k < packet_count(data.len() as int),
    ensures
        frame_packet(data, ch, k).len() == 64,
        frame_packet(data, ch, k)[0] as int * 256 + frame_packet(data, ch, k)[1] as int == ch as int,
        frame_packet(data, ch, k)[2] == 0x05,
        frame_packet(data, ch, k)[3] as int * 256 + frame_packet(data, ch, k)[4] as int == k % 65536,
        k == 0 ==> frame_packet(data, ch, 0)[5] as int == (data.len() / 256) % 256,
        k == 0 ==> frame_packet(data, ch, 0)[6] as int == data.len() % 256,
        k == 0 ==> frame_packet(data, ch, 0)[5] as int * 256 + frame_packet(data, ch, 0)[6] as int == data.len() % 65536,
{
    let p = frame_packet(data, ch, k);
    assert(p[0] == (ch / 256) as u8);
    assert(p[1] == (ch % 256) as u8);
    assert(p[3] == ((k / 256) % 256) as u8);
    assert(p[4] == (k % 256) as u8);
    assert(((k / 256) % 256) * 256 + k % 256 == k % 65536) by (nonlinear_arith)
        requires
            k >= 0,
    ;
    if k == 0 {
        let n = data.len() as int;
        assert(p[5] == ((n / 256) % 256) as u8);
        assert(p[6] == (n % 256) as u8);
        assert(((n / 256) % 256) * 256 + n % 256 == n % 65536) by (nonlinear_arith)
            requires
                n >= 0,
        ;
    }
}

/// The length a response announces is read big-endian from bytes 5 (high) and 6 (low)
/// of its first packet; without such a packet it is 0.
pub proof fn lemma_announced_length_big_endian(packets: Seq<Seq<u8>>)
    ensures
        packets.len() > 0 && packets[0].len() >= 7 ==> announced_length(packets) == packets[0][5] as int * 256
            + packets[0][6] as int,
        !(packets.len() > 0 && packets[0].len() >= 7) ==> announced_length(packets) == 0,
        0 <= announced_length(packets) <= 65535,
{
}

} // verus!
