//! What the device tells about itself: the answer to the get-version command and the
//! pages of the list of installed applications.
use vstd::prelude::*;
use vstd::utf8::{decode_utf8, valid_utf8};
use crate::error::{device_read_message, DeviceError, DeviceErrorView};
use crate::text::{lowercase, to_lowercase, utf8_error_text, utf8_to_string};
use vstd::string::StringExecFns;

verus! {

/// Information queried from a Ledger device.
///
/// The MCU target id is always the target id.
#[derive(Debug)]
pub struct DeviceInfo {
    pub target_id: u32,
    pub version: String,
    pub flags: Vec<u8>,
    pub is_bootloader: bool,
    pub se_version: Option<String>,
    pub se_target_id: u32,
    pub mcu_version: Option<String>,
}

/// Mathematical value of a [`DeviceInfo`].
pub struct DeviceInfoView {
    pub target_id: u32,
    pub version: Seq<char>,
    pub flags: Seq<u8>,
    pub is_bootloader: bool,
    pub se_version: Option<Seq<char>>,
    pub se_target_id: u32,
    pub mcu_version: Option<Seq<char>>,
}

/// The characters of an optional string.
pub open spec fn opt_chars(s: Option<String>) -> Option<Seq<char>> {
    match s {
        Some(t) => Some(t@),
        None => None,
    }
}

impl View for DeviceInfo {
    type V = DeviceInfoView;

    open spec fn view(&self) -> DeviceInfoView {
        DeviceInfoView {
            target_id: self.target_id,
            version: self.version@,
            flags: self.flags@,
            is_bootloader: self.is_bootloader,
            se_version: opt_chars(self.se_version),
            se_target_id: self.se_target_id,
            mcu_version: opt_chars(self.mcu_version),
        }
    }
}

/// Big-endian 32-bit value of `d[i..i + 4]`.
pub open spec fn be32(d: Seq<u8>, i: int) -> u32 {
    (d[i] as int * 16777216 + d[i + 1] as int * 65536 + d[i + 2] as int * 256 + d[i + 3] as int) as u32
}

/// Big-endian 16-bit value of `d[i..i + 2]`.
pub open spec fn be16_at(d: Seq<u8>, i: int) -> u16 {
    (d[i] as int * 256 + d[i + 1] as int) as u16
}

/// The text that `b` encodes in UTF-8, if it is valid UTF-8.
pub open spec fn utf8_text(b: Seq<u8>) -> Option<Seq<char>> {
    if valid_utf8(b) {
        Some(decode_utf8(b))
    } else {
        None
    }
}

/// Whether a target id is that of a device in bootloader mode: its top four bits are
/// not `0x3`.
pub open spec fn is_bootloader_target(target_id: u32) -> bool {
    target_id / 0x10000000 != 3
}

/// The rest of a get-version answer from a device in bootloader mode, from position `i`.
pub open spec fn bootloader_tail(d: Seq<u8>, i: int, target: u32, version: Seq<char>, flags: Seq<u8>) -> Result<DeviceInfoView, DeviceErrorView> {
    if d.len() < i + 1 {
        Err(DeviceErrorView::InsufficientData)
    } else {
        let p1 = d[i] as int;
        if d.len() < i + 1 + p1 {
            Err(DeviceErrorView::InsufficientData)
        } else if p1 >= 5 {
            let i2 = i + 1 + p1;
            match utf8_text(d.subrange(i + 1, i2)) {
                None => Err(DeviceErrorView::InvalidUtf8(utf8_error_text(d.subrange(i + 1, i2)))),
                Some(se_version) => if d.len() < i2 + 1 {
                    Err(DeviceErrorView::InsufficientData)
                } else {
                    let p2 = d[i2] as int;
                    if d.len() < i2 + 1 + p2 {
                        Err(DeviceErrorView::InsufficientData)
                    } else if p2 != 4 {
                        Err(DeviceErrorView::InvalidFormat("Invalid SE target ID length"@))
                    } else {
                        Ok(DeviceInfoView {
                            target_id: target,
                            version,
                            flags,
                            is_bootloader: true,
                            se_version: Some(se_version),
                            se_target_id: be32(d, i2 + 1),
                            mcu_version: None,
                        })
                    }
                },
            }
        } else if p1 != 4 {
            Err(DeviceErrorView::InvalidFormat("Invalid SE target ID length"@))
        } else {
            Ok(DeviceInfoView {
                target_id: target,
                version,
                flags,
                is_bootloader: true,
                se_version: None,
                se_target_id: be32(d, i + 1),
                mcu_version: None,
            })
        }
    }
}

/// `b` without its last byte when that byte is 0.
pub open spec fn trim_nul(b: Seq<u8>) -> Seq<u8> {
    if b.len() > 0 && b.last() == 0 {
        b.drop_last()
    } else {
        b
    }
}

/// The rest of a get-version answer from a device running its OS, from position `i`.
pub open spec fn os_tail(d: Seq<u8>, i: int, target: u32, version: Seq<char>, flags: Seq<u8>) -> Result<DeviceInfoView, DeviceErrorView> {
    if d.len() < i + 1 {
        Err(DeviceErrorView::InsufficientData)
    } else {
        let m = d[i] as int;
        if d.len() < i + 1 + m {
            Err(DeviceErrorView::InsufficientData)
        } else if m == 0 {
            Err(DeviceErrorView::InvalidFormat(EMPTY_MCU_VERSION@))
        } else {
            let mcu_bytes = trim_nul(d.subrange(i + 1, i + 1 + m));
            match utf8_text(mcu_bytes) {
                None => Err(DeviceErrorView::InvalidUtf8(utf8_error_text(mcu_bytes))),
                Some(mcu) => Ok(DeviceInfoView {
                    target_id: target,
                    version,
                    flags,
                    is_bootloader: false,
                    se_version: Some(version),
                    se_target_id: target,
                    mcu_version: Some(mcu),
                }),
            }
        }
    }
}

/// The message of the error raised by an answer from a device running its OS whose MCU
/// version field is empty.
pub const EMPTY_MCU_VERSION: &'static str = "Empty MCU version";

/// The device information that the get-version answer (`ret`, `d`) carries, or the
/// error it raises.
pub open spec fn version_response(ret: u16, d: Seq<u8>) -> Result<DeviceInfoView, DeviceErrorView> {
    if ret == 0x5515 {
        Err(DeviceErrorView::Locked)
    } else if ret != 0x9000 {
        Err(DeviceErrorView::NotReady(ret))
    } else if d.len() < 5 {
        Err(DeviceErrorView::InsufficientData)
    } else {
        let target = be32(d, 0);
        let l = d[4] as int;
        if d.len() < 5 + l + 1 {
            Err(DeviceErrorView::InsufficientData)
        } else {
            match utf8_text(d.subrange(5, 5 + l)) {
                None => Err(DeviceErrorView::InvalidUtf8(utf8_error_text(d.subrange(5, 5 + l)))),
                Some(version) => {
                    let f = d[5 + l] as int;
                    if d.len() < 6 + l + f {
                        Err(DeviceErrorView::InsufficientData)
                    } else {
                        let flags = d.subrange(6 + l, 6 + l + f);
                        if is_bootloader_target(target) {
                            bootloader_tail(d, 6 + l + f, target, version, flags)
                        } else {
                            os_tail(d, 6 + l + f, target, version, flags)
                        }
                    }
                },
            }
        }
    }
}

/// The four bytes of `t`, most significant first.
pub open spec fn be32_bytes(t: u32) -> Seq<u8> {
    seq![(t / 0x1000000) as u8, ((t / 0x10000) % 256) as u8, ((t / 0x100) % 256) as u8, (t % 256) as u8]
}

/// A get-version answer as a device running its OS sends it: target id, version,
/// flags and MCU version, each field after its length byte.
pub open spec fn os_version_answer(target: u32, version: Seq<u8>, flags: Seq<u8>, mcu: Seq<u8>) -> Seq<u8> {
    be32_bytes(target) + seq![version.len() as u8] + version + seq![flags.len() as u8] + flags + seq![mcu.len() as u8] + mcu
}

/// What a device tells of itself, whenever its get-version answer is read: the status
/// word is success, the target id is the answer's first four bytes, big-endian, and the
/// device is in bootloader mode exactly when the top four bits of its target id are not
/// `0x3`; a device running its OS has its target id as SE target id, its version as SE
/// version, and an MCU version.
pub proof fn lemma_version_answer_fields(ret: u16, d: Seq<u8>)
    requires
        version_response(ret, d) is Ok,
    ensures
        version_response(ret, d) matches Ok(info) && {
            &&& ret == 0x9000
            &&& d.len() >= 5
            &&& info.target_id as int == d[0] as int * 0x1000000 + d[1] as int * 0x10000 + d[2] as int * 0x100 + d[3] as int
            &&& info.is_bootloader <==> (info.target_id & 0xF000_0000u32) != 0x3000_0000u32
            &&& !info.is_bootloader ==> info.se_target_id == info.target_id && info.se_version == Some(info.version)
                && info.mcu_version is Some
        },
{
    let info = version_response(ret, d)->Ok_0;
    let t = info.target_id;
    let (b0, b1, b2, b3) = (d[0], d[1], d[2], d[3]);
    assert(b0 as int * 0x1000000 + b1 as int * 0x10000 + b2 as int * 0x100 + b3 as int <= 0xFFFF_FFFF) by (nonlinear_arith)
        requires
            b0 < 256,
            b1 < 256,
            b2 < 256,
            b3 < 256,
    ;
    assert(t == be32(d, 0));
    assert((t & 0xF000_0000u32) != 0x3000_0000u32 <==> t / 0x10000000 != 3) by (bit_vector);
}

/// Every answer a device running its OS sends is read: whatever its target id with top
/// four bits `0x3` (such as a Nano S's `0x31100004`), its version, flags and MCU version
/// (valid UTF-8, the MCU version not empty, with or without a final NUL byte), the
/// device is read as running its OS, with exactly these fields.
pub proof fn lemma_os_answer_read(target: u32, version: Seq<u8>, flags: Seq<u8>, mcu_text: Seq<u8>, nul: bool)
    requires
        (target & 0xF000_0000u32) == 0x3000_0000u32,
        version.len() < 256,
        flags.len() < 256,
        0 < mcu_text.len() < 255,
        mcu_text.last() != 0,
        valid_utf8(version),
        valid_utf8(mcu_text),
    ensures
        version_response(0x9000, os_version_answer(target, version, flags, if nul { mcu_text.push(0) } else { mcu_text }))
            == Ok::<DeviceInfoView, DeviceErrorView>(DeviceInfoView {
                target_id: target,
                version: decode_utf8(version),
                flags,
                is_bootloader: false,
                se_version: Some(decode_utf8(version)),
                se_target_id: target,
                mcu_version: Some(decode_utf8(mcu_text)),
            }),
{
    let mcu = if nul { mcu_text.push(0) } else { mcu_text };
    let d = os_version_answer(target, version, flags, mcu);
    let lv = version.len() as int;
    let lf = flags.len() as int;
    let lm = mcu.len() as int;
    assert(d.len() == 7 + lv + lf + lm);
    let hdr = be32_bytes(target);
    assert(d[0] == hdr[0] && d[1] == hdr[1] && d[2] == hdr[2] && d[3] == hdr[3]);
    let t = target;
    assert(((t / 0x1000000) as u8) as int * 0x1000000 + (((t / 0x10000) % 256) as u8) as int * 0x10000
        + (((t / 0x100) % 256) as u8) as int * 0x100 + ((t % 256) as u8) as int == t as int) by (bit_vector);
    assert(be32(d, 0) == target);
    assert(target / 0x10000000 == 3) by (bit_vector)
        requires
            (target & 0xF000_0000u32) == 0x3000_0000u32,
    ;
    assert(d[4] as int == lv);
    assert(d.subrange(5, 5 + lv) =~= version);
    assert(d[5 + lv] as int == lf);
    assert(d.subrange(6 + lv, 6 + lv + lf) =~= flags);
    let i = 6 + lv + lf;
    assert(d[i] as int == lm);
    assert(d.subrange(i + 1, i + 1 + lm) =~= mcu);
    assert(trim_nul(mcu) =~= mcu_text);
}

/// A get-version answer as a device in bootloader mode sends it: target id, version and
/// flags, then the SE version when there is one, then the SE target id, each field
/// after its length byte.
pub open spec fn bootloader_version_answer(target: u32, version: Seq<u8>, flags: Seq<u8>, se_version: Option<Seq<u8>>, se_target: u32) -> Seq<u8> {
    be32_bytes(target) + seq![version.len() as u8] + version + seq![flags.len() as u8] + flags + match se_version {
        Some(s) => seq![s.len() as u8] + s,
        None => Seq::empty(),
    } + seq![4u8] + be32_bytes(se_target)
}

/// Every answer a device in bootloader mode sends is read: whatever its target id with
/// top four bits other than `0x3`, its version and flags, its SE version (valid UTF-8
/// of 5 bytes or more) or none, and its SE target id, the device is read as in
/// bootloader mode, with exactly these fields and no MCU version.
pub proof fn lemma_bootloader_answer_read(target: u32, version: Seq<u8>, flags: Seq<u8>, se_version: Option<Seq<u8>>, se_target: u32)
    requires
        (target & 0xF000_0000u32) != 0x3000_0000u32,
        version.len() < 256,
        flags.len() < 256,
        valid_utf8(version),
        se_version matches Some(sv) ==> 5 <= sv.len() < 256 && valid_utf8(sv),
    ensures
        version_response(0x9000, bootloader_version_answer(target, version, flags, se_version, se_target))
            == Ok::<DeviceInfoView, DeviceErrorView>(DeviceInfoView {
                target_id: target,
                version: decode_utf8(version),
                flags,
                is_bootloader: true,
                se_version: match se_version {
                    Some(sv) => Some(decode_utf8(sv)),
                    None => None,
                },
                se_target_id: se_target,
                mcu_version: None,
            }),
{
    let d = bootloader_version_answer(target, version, flags, se_version, se_target);
    let lv = version.len() as int;
    let lf = flags.len() as int;
    let hdr = be32_bytes(target);
    assert(d[0] == hdr[0] && d[1] == hdr[1] && d[2] == hdr[2] && d[3] == hdr[3]);
    let t = target;
    assert(((t / 0x1000000) as u8) as int * 0x1000000 + (((t / 0x10000) % 256) as u8) as int * 0x10000
        + (((t / 0x100) % 256) as u8) as int * 0x100 + ((t % 256) as u8) as int == t as int) by (bit_vector);
    assert(be32(d, 0) == target);
    assert(target / 0x10000000 != 3) by (bit_vector)
        requires
            (target & 0xF000_0000u32) != 0x3000_0000u32,
    ;
    assert(d[4] as int == lv);
    assert(d.subrange(5, 5 + lv) =~= version);
    assert(d[5 + lv] as int == lf);
    assert(d.subrange(6 + lv, 6 + lv + lf) =~= flags);
    let i = 6 + lv + lf;
    let s2 = se_target;
    let tail = be32_bytes(se_target);
    assert(((s2 / 0x1000000) as u8) as int * 0x1000000 + (((s2 / 0x10000) % 256) as u8) as int * 0x10000
        + (((s2 / 0x100) % 256) as u8) as int * 0x100 + ((s2 % 256) as u8) as int == s2 as int) by (bit_vector);
    match se_version {
        Some(sv) => {
            let ls = sv.len() as int;
            assert(d.len() == i + 1 + ls + 5);
            assert(d[i] as int == ls);
            assert(d.subrange(i + 1, i + 1 + ls) =~= sv);
            let i2 = i + 1 + ls;
            assert(d[i2] == 4);
            assert(d[i2 + 1] == tail[0] && d[i2 + 2] == tail[1] && d[i2 + 3] == tail[2] && d[i2 + 4] == tail[3]);
            assert(be32(d, i2 + 1) == se_target);
        },
        None => {
            assert(d.len() == i + 5);
            assert(d[i] == 4);
            assert(d[i + 1] == tail[0] && d[i + 2] == tail[1] && d[i + 3] == tail[2] && d[i + 4] == tail[3]);
            assert(be32(d, i + 1) == se_target);
        },
    }
}

/// Copy of `data[start..end]`.
pub fn copy_range(data: &[u8], start: usize, end: usize) -> (v: Vec<u8>)
    requires
        start <= end <= data@.len(),
    ensures
        v@ == data@.subrange(start as int, end as int),
{
    let mut v: Vec<u8> = Vec::new();
    let mut k = start;
    while k < end
        invariant
            start <= k <= end,
            end <= data@.len(),
            v@ == data@.subrange(start as int, k as int),
        decreases end - k,
    {
        v.push(data[k]);
        k = k + 1;
    }
    v
}

/// Big-endian 32-bit value of `data[i..i + 4]`.
fn read_be32(data: &[u8], i: usize) -> (v: u32)
    requires
        i + 4 <= data@.len(),
    ensures
        v == be32(data@, i as int),
{
    (data[i] as u32) * 16777216 + (data[i + 1] as u32) * 65536 + (data[i + 2] as u32) * 256 + data[i + 3] as u32
}

impl DeviceInfo {
    /// Device information from the answer to the get-version command, its status word
    /// `retcode` and its data, or the error the answer raises (see [`version_response`]).
    pub fn from_version_answer(retcode: u16, data: &[u8]) -> (res: Result<DeviceInfo, DeviceError>)
        ensures
            match (res, version_response(retcode, data@)) {
                (Ok(info), Ok(si)) => info@ == si,
                (Err(e), Err(se)) => e@ == se,
                _ => false,
            },
    {
        if retcode == 0x5515 {
            return Err(DeviceError::Locked);
        } else if retcode != 0x9000 {
            return Err(DeviceError::NotReady(retcode));
        }
        let ghost d = data@;
        if data.len() < 5 {
            return Err(DeviceError::InsufficientData);
        }
        let target_id = read_be32(data, 0);
        let raw_ver_len = data[4] as usize;
        if data.len() - 5 < raw_ver_len + 1 {
            return Err(DeviceError::InsufficientData);
        }
        let version = match utf8_to_string(&data[5..5 + raw_ver_len]) {
            Ok(v) => v,
            Err(m) => {
                return Err(DeviceError::InvalidUtf8(m));
            },
        };
        let mut i = 5 + raw_ver_len;
        let flags_len = data[i] as usize;
        i = i + 1;
        if data.len() - i < flags_len {
            return Err(DeviceError::InsufficientData);
        }
        let flags = copy_range(data, i, i + flags_len);
        i = i + flags_len;
        let is_bootloader = target_id / 0x10000000 != 3;
        if is_bootloader {
            if data.len() - i < 1 {
                return Err(DeviceError::InsufficientData);
            }
            let part1_len = data[i] as usize;
            i = i + 1;
            if data.len() - i < part1_len {
                return Err(DeviceError::InsufficientData);
            }
            let part1_start = i;
            i = i + part1_len;
            if part1_len >= 5 {
                let se_version = match utf8_to_string(&data[part1_start..i]) {
                    Ok(v) => v,
                    Err(m) => {
                        return Err(DeviceError::InvalidUtf8(m));
                    },
                };
                if data.len() - i < 1 {
                    return Err(DeviceError::InsufficientData);
                }
                let part2_len = data[i] as usize;
                i = i + 1;
                if data.len() - i < part2_len {
                    return Err(DeviceError::InsufficientData);
                }
                if part2_len != 4 {
                    return Err(DeviceError::InvalidFormat("Invalid SE target ID length".to_string()));
                }
                let se_target_id = read_be32(data, i);
                Ok(DeviceInfo {
                    target_id,
                    version,
                    flags,
                    is_bootloader,
                    se_version: Some(se_version),
                    se_target_id,
                    mcu_version: None,
                })
            } else {
                if part1_len != 4 {
                    return Err(DeviceError::InvalidFormat("Invalid SE target ID length".to_string()));
                }
                let se_target_id = read_be32(data, part1_start);
                Ok(DeviceInfo {
                    target_id,
                    version,
                    flags,
                    is_bootloader,
                    se_version: None,
                    se_target_id,
                    mcu_version: None,
                })
            }
        } else {
            if data.len() - i < 1 {
                return Err(DeviceError::InsufficientData);
            }
            let mcu_len = data[i] as usize;
            i = i + 1;
            if data.len() - i < mcu_len {
                return Err(DeviceError::InsufficientData);
            }
            if mcu_len == 0 {
                return Err(DeviceError::InvalidFormat(EMPTY_MCU_VERSION.to_string()));
            }
            let end = if data[i + mcu_len - 1] == 0 { i + mcu_len - 1 } else { i + mcu_len };
            assert(data@.subrange(i as int, end as int) =~= trim_nul(d.subrange(i as int, i + mcu_len)));
            let mcu_version = match utf8_to_string(&data[i..end]) {
                Ok(v) => v,
                Err(m) => {
                    return Err(DeviceError::InvalidUtf8(m));
                },
            };
            let se_version = version.clone();
            Ok(DeviceInfo {
                target_id,
                version,
                flags,
                is_bootloader,
                se_version: Some(se_version),
                se_target_id: target_id,
                mcu_version: Some(mcu_version),
            })
        }
    }

    /// Query information about this device from its answer to the get-version command,
    /// its status word `retcode` and its data: the information the answer carries, or
    /// the text of the error it raises (see [`device_read_message`]).
    pub fn new(retcode: u16, data: &[u8]) -> (res: Result<DeviceInfo, String>)
        ensures
            match (res, version_response(retcode, data@)) {
                (Ok(info), Ok(si)) => info@ == si,
                (Err(m), Err(se)) => m@ == device_read_message(se),
                _ => false,
            },
    {
        match DeviceInfo::from_version_answer(retcode, data) {
            Ok(info) => Ok(info),
            Err(e) => Err(e.read_message()),
        }
    }
}

/// Target id, version and MCU version read from a get-version answer by the lenient
/// reader of the browser front end: `None` when the header or the version is not
/// there, and no MCU version when its field is missing, cut, or not UTF-8.
pub open spec fn version_info_spec(d: Seq<u8>) -> Option<(u32, Seq<char>, Option<Seq<char>>)> {
    if d.len() < 5 {
        None
    } else {
        let l = d[4] as int;
        if d.len() < 5 + l + 1 {
            None
        } else {
            match utf8_text(d.subrange(5, 5 + l)) {
                None => None,
                Some(version) => {
                    let i = 6 + l + d[5 + l] as int;
                    let mcu = if d.len() > i && d.len() >= i + 1 + d[i] as int {
                        utf8_text(trim_nul(d.subrange(i + 1, i + 1 + d[i] as int)))
                    } else {
                        None
                    };
                    Some((be32(d, 0), version, mcu))
                },
            }
        }
    }
}

/// Parse device version info from a get-version answer: target id, version and MCU
/// version.
pub fn parse_version_info(data: &[u8]) -> (res: Option<(u32, String, Option<String>)>)
    ensures
        match (res, version_info_spec(data@)) {
            (Some((t, v, m)), Some((st, sv, sm))) => t == st && v@ == sv && opt_chars(m) == sm,
            (None, None) => true,
            _ => false,
        },
{
    if data.len() < 5 {
        return None;
    }
    let target_id = read_be32(data, 0);
    let ver_len = data[4] as usize;
    if data.len() - 5 < ver_len + 1 {
        return None;
    }
    let version = match utf8_to_string(&data[5..5 + ver_len]) {
        Ok(v) => v,
        Err(_) => {
            return None;
        },
    };
    let flags_len = data[5 + ver_len] as usize;
    let i = 6 + ver_len + flags_len;
    let mcu_version = if data.len() > i {
        let mcu_len = data[i] as usize;
        if data.len() - (i + 1) >= mcu_len {
            let start = i + 1;
            let end = if mcu_len > 0 && data[start + mcu_len - 1] == 0 { start + mcu_len - 1 } else { start + mcu_len };
            assert(data@.subrange(start as int, end as int) =~= trim_nul(data@.subrange(start as int, start + mcu_len)));
            utf8_to_string(&data[start..end]).ok()
        } else {
            None
        }
    } else {
        None
    };
    Some((target_id, version, mcu_version))
}

/// Information about an application as queried directly from the device.
#[derive(Debug)]
pub struct InstalledApp {
    pub name: String,
    pub hash: Vec<u8>,
    pub hash_code_data: Vec<u8>,
    pub blocks: u16,
    pub flags: u16,
}

/// Mathematical value of an [`InstalledApp`].
pub struct InstalledAppView {
    pub name: Seq<char>,
    pub hash: Seq<u8>,
    pub hash_code_data: Seq<u8>,
    pub blocks: u16,
    pub flags: u16,
}

impl View for InstalledApp {
    type V = InstalledAppView;

    open spec fn view(&self) -> InstalledAppView {
        InstalledAppView {
            name: self.name@,
            hash: self.hash@,
            hash_code_data: self.hash_code_data@,
            blocks: self.blocks,
            flags: self.flags,
        }
    }
}

/// The application record of `d` at position `i`.
pub open spec fn app_record(d: Seq<u8>, i: int) -> InstalledAppView {
    InstalledAppView {
        name: decode_utf8(d.subrange(i + 70, i + 70 + d[i + 69] as int)),
        hash: d.subrange(i + 37, i + 69),
        hash_code_data: d.subrange(i + 5, i + 37),
        blocks: be16_at(d, i + 1),
        flags: be16_at(d, i + 3),
    }
}

/// The applications of a page of the list of installed apps, from position `i` on, or
/// the error the page raises.
pub open spec fn app_records_from(d: Seq<u8>, i: int) -> Result<Seq<InstalledAppView>, DeviceErrorView>
    decreases d.len() - i,
{
    if i < 1 || i >= d.len() {
        Ok(Seq::empty())
    } else if d.len() < i + 70 {
        Err(DeviceErrorView::InsufficientData)
    } else {
        let name_len = d[i + 69] as int;
        if d.len() < i + 70 + name_len {
            Err(DeviceErrorView::InsufficientData)
        } else if d[i] as int != name_len + 70 {
            Err(DeviceErrorView::InvalidFormat("Invalid listApps length data."@))
        } else if !valid_utf8(d.subrange(i + 70, i + 70 + name_len)) {
            Err(DeviceErrorView::InvalidUtf8(utf8_error_text(d.subrange(i + 70, i + 70 + name_len))))
        } else {
            match app_records_from(d, i + 70 + name_len) {
                Err(e) => Err(e),
                Ok(rest) => Ok(seq![app_record(d, i)] + rest),
            }
        }
    }
}

/// The message of the error raised by a page of the list of installed apps that does
/// not start with `0x01`.
pub const NOT_AN_APPS_PAGE: &'static str = "Invalid listApps data: the page does not start with 0x01.";

/// The applications of a page of the list of installed apps, or the error the page
/// raises: an empty page has none, any other must start with `0x01`.
pub open spec fn page_records(d: Seq<u8>) -> Result<Seq<InstalledAppView>, DeviceErrorView> {
    if d.len() > 0 && d[0] != 0x01 {
        Err(DeviceErrorView::InvalidFormat(NOT_AN_APPS_PAGE@))
    } else {
        app_records_from(d, 1)
    }
}

/// Parse one page of the answer to the list-apps commands: a `0x01` byte, then
/// application records (length byte, blocks, flags, code-data hash, hash, name).
pub fn list_installed_apps_page(data: &[u8]) -> (res: Result<Vec<InstalledApp>, DeviceError>)
    ensures
        match (res, page_records(data@)) {
            (Ok(apps), Ok(sapps)) => apps@.map_values(|a: InstalledApp| a@) == sapps,
            (Err(e), Err(se)) => e@ == se,
            _ => false,
        },
{
    let mut apps: Vec<InstalledApp> = Vec::new();
    if data.len() == 0 {
        assert(apps@.map_values(|a: InstalledApp| a@) =~= Seq::<InstalledAppView>::empty());
        return Ok(apps);
    }
    if data[0] != 0x01 {
        return Err(DeviceError::InvalidFormat(NOT_AN_APPS_PAGE.to_string()));
    }
    let ghost d = data@;
    let mut i: usize = 1;
    while i < data.len()
        invariant
            d == data@,
            d.len() > 0 && d[0] == 0x01,
            1 <= i <= d.len(),
            app_records_from(d, 1) matches Ok(all) ==> (app_records_from(d, i as int) matches Ok(rest)
                && all == apps@.map_values(|a: InstalledApp| a@) + rest),
            app_records_from(d, 1) is Err ==> app_records_from(d, i as int) == app_records_from(d, 1),
        decreases d.len() - i,
    {
        if data.len() - i < 70 {
            return Err(DeviceError::InsufficientData);
        }
        let len = data[i] as usize;
        let blocks: u16 = (data[i + 1] as u16) * 256 + data[i + 2] as u16;
        let flags: u16 = (data[i + 3] as u16) * 256 + data[i + 4] as u16;
        let hash_code_data = copy_range(data, i + 5, i + 37);
        let hash = copy_range(data, i + 37, i + 69);
        let name_len = data[i + 69] as usize;
        let start = i + 70;
        if data.len() - start < name_len {
            return Err(DeviceError::InsufficientData);
        }
        if len != name_len + 70 {
            return Err(DeviceError::InvalidFormat("Invalid listApps length data.".to_string()));
        }
        let name = match utf8_to_string(&data[start..start + name_len]) {
            Ok(n) => n,
            Err(m) => {
                return Err(DeviceError::InvalidUtf8(m));
            },
        };
        let app = InstalledApp { name, hash, hash_code_data, blocks, flags };
        assert(app@ == app_record(d, i as int));
        let ghost old_apps = apps@;
        apps.push(app);
        assert(apps@.map_values(|a: InstalledApp| a@) =~= old_apps.map_values(|a: InstalledApp| a@).push(app_record(d, i as int)));
        i = start + name_len;
    }
    Ok(apps)
}

/// The `(name, hash)` pairs of the records of a page read leniently from position `i`
/// on: reading stops at the first record that is cut or whose length byte does not
/// match, and records whose name is not UTF-8 are skipped.
pub open spec fn lenient_app_records(d: Seq<u8>, i: int) -> Seq<(Seq<char>, Seq<u8>)>
    decreases d.len() - i,
{
    if i < 1 || i >= d.len() || d.len() < i + 70 {
        Seq::empty()
    } else {
        let name_len = d[i + 69] as int;
        if d.len() < i + 70 + name_len || d[i] as int != name_len + 70 {
            Seq::empty()
        } else {
            let name = d.subrange(i + 70, i + 70 + name_len);
            let here = if valid_utf8(name) {
                seq![(decode_utf8(name), d.subrange(i + 37, i + 69))]
            } else {
                Seq::empty()
            };
            here + lenient_app_records(d, i + 70 + name_len)
        }
    }
}

/// The `(name, hash)` pairs a page of the list of installed apps carries, read
/// leniently (see [`lenient_app_records`]); nothing when the page does not start with
/// `0x01`.
pub open spec fn installed_apps_spec(d: Seq<u8>) -> Seq<(Seq<char>, Seq<u8>)> {
    if d.len() == 0 || d[0] != 0x01 {
        Seq::empty()
    } else {
        lenient_app_records(d, 1)
    }
}

/// The characters and bytes of a `(name, hash)` pair.
pub open spec fn name_hash_view(p: (String, Vec<u8>)) -> (Seq<char>, Seq<u8>) {
    (p.0@, p.1@)
}

/// Parse installed apps from a page of the answer to the list-apps commands: the
/// `(name, hash)` pairs of its records.
pub fn parse_installed_apps(data: &[u8]) -> (apps: Vec<(String, Vec<u8>)>)
    ensures
        apps@.map_values(|p: (String, Vec<u8>)| name_hash_view(p)) == installed_apps_spec(data@),
{
    let mut apps: Vec<(String, Vec<u8>)> = Vec::new();
    if data.len() == 0 || data[0] != 0x01 {
        assert(apps@.map_values(|p: (String, Vec<u8>)| name_hash_view(p)) =~= installed_apps_spec(data@));
        return apps;
    }
    let ghost d = data@;
    let mut i: usize = 1;
    while i < data.len()
        invariant_except_break
            d == data@,
            d.len() > 0 && d[0] == 0x01,
            1 <= i <= d.len(),
            installed_apps_spec(d) == apps@.map_values(|p: (String, Vec<u8>)| name_hash_view(p)) + lenient_app_records(d, i as int),
        ensures
            installed_apps_spec(d) == apps@.map_values(|p: (String, Vec<u8>)| name_hash_view(p)),
        decreases d.len() - i,
    {
        if data.len() - i < 70 {
            assert(lenient_app_records(d, i as int) =~= Seq::empty());
            assert(apps@.map_values(|p: (String, Vec<u8>)| name_hash_view(p)) + lenient_app_records(d, i as int)
                =~= apps@.map_values(|p: (String, Vec<u8>)| name_hash_view(p)));
            break;
        }
        let len = data[i] as usize;
        let hash = copy_range(data, i + 37, i + 69);
        let name_len = data[i + 69] as usize;
        let start = i + 70;
        if data.len() - start < name_len || len != name_len + 70 {
            assert(lenient_app_records(d, i as int) =~= Seq::empty());
            assert(apps@.map_values(|p: (String, Vec<u8>)| name_hash_view(p)) + lenient_app_records(d, i as int)
                =~= apps@.map_values(|p: (String, Vec<u8>)| name_hash_view(p)));
            break;
        }
        let ghost old_apps = apps@.map_values(|p: (String, Vec<u8>)| name_hash_view(p));
        let ghost name_bytes = d.subrange(start as int, start + name_len);
        match utf8_to_string(&data[start..start + name_len]) {
            Ok(name) => {
                apps.push((name, hash));
                assert(apps@.map_values(|p: (String, Vec<u8>)| name_hash_view(p)) =~= old_apps + seq![(decode_utf8(name_bytes), d.subrange(i + 37, i + 69))]);
            },
            Err(_) => {
            },
        }
        assert(lenient_app_records(d, i as int) == (if valid_utf8(name_bytes) {
            seq![(decode_utf8(name_bytes), d.subrange(i + 37, i + 69))]
        } else {
            Seq::empty()
        }) + lenient_app_records(d, start + name_len));
        assert(installed_apps_spec(d) =~= apps@.map_values(|p: (String, Vec<u8>)| name_hash_view(p)) + lenient_app_records(d, start + name_len));
        i = start + name_len;
    }
    apps
}

/// The views of a sequence of installed applications.
pub open spec fn app_views(apps: Seq<InstalledApp>) -> Seq<InstalledAppView> {
    apps.map_values(|a: InstalledApp| a@)
}

/// Where listing the installed applications stands after a page of the device's answer.
pub enum ListAppsStep {
    /// More pages may follow: ask for the next one. The applications listed so far.
    Continue(Vec<InstalledApp>),
    /// The device sent an empty page: these are all the applications.
    Done(Vec<InstalledApp>),
    /// The page could not be read.
    Failed(DeviceError),
}

/// One step of listing the installed applications: `listed` are those of the pages read
/// so far, `page` the data of the device's last answer. An empty page ends the list;
/// any other is parsed (see [`list_installed_apps_page`]) and its applications follow
/// those listed.
pub fn list_installed_apps_step(listed: Vec<InstalledApp>, page: &[u8]) -> (res: ListAppsStep)
    ensures
        page@.len() == 0 ==> (res matches ListAppsStep::Done(v) && v@ == listed@),
        page@.len() > 0 ==> match page_records(page@) {
            Ok(recs) => (res matches ListAppsStep::Continue(v) && app_views(v@) == app_views(listed@) + recs),
            Err(e) => (res matches ListAppsStep::Failed(f) && f@ == e),
        },
{
    if page.len() == 0 {
        return ListAppsStep::Done(listed);
    }
    match list_installed_apps_page(page) {
        Err(e) => ListAppsStep::Failed(e),
        Ok(new_apps) => {
            let mut all = listed;
            let mut more = new_apps;
            let ghost before = all@;
            let ghost added = more@;
            all.append(&mut more);
            assert(all@ == before + added);
            assert(app_views(all@) =~= app_views(before) + app_views(added));
            ListAppsStep::Continue(all)
        },
    }
}

/// The name and hash of an application record.
pub open spec fn name_and_hash(a: InstalledAppView) -> (Seq<char>, Seq<u8>) {
    (a.name, a.hash)
}

/// From position `i` on, a page that the strict reader accepts is read alike by the
/// lenient one.
proof fn lemma_readers_agree_from(d: Seq<u8>, i: int)
    requires
        i >= 1,
        app_records_from(d, i) is Ok,
    ensures
        lenient_app_records(d, i) == app_records_from(d, i)->Ok_0.map_values(|a: InstalledAppView| name_and_hash(a)),
    decreases d.len() - i,
{
    if i >= d.len() {
        assert(app_records_from(d, i)->Ok_0.map_values(|a: InstalledAppView| name_and_hash(a)) =~= Seq::empty());
    } else {
        let name_len = d[i + 69] as int;
        let next = i + 70 + name_len;
        lemma_readers_agree_from(d, next);
        let rest = app_records_from(d, next)->Ok_0;
        let recs = app_records_from(d, i)->Ok_0;
        assert(recs == seq![app_record(d, i)] + rest);
        assert(recs.map_values(|a: InstalledAppView| name_and_hash(a)) =~= seq![name_and_hash(app_record(d, i))]
            + rest.map_values(|a: InstalledAppView| name_and_hash(a)));
    }
}

/// The two readers of a page of the list of installed apps agree: on every page that
/// [`list_installed_apps_page`] reads without error, [`parse_installed_apps`] gives the
/// name and hash of each of its applications, in order.
pub proof fn lemma_page_readers_agree(d: Seq<u8>)
    requires
        d.len() > 0,
        d[0] == 0x01,
        app_records_from(d, 1) is Ok,
    ensures
        installed_apps_spec(d) == app_records_from(d, 1)->Ok_0.map_values(|a: InstalledAppView| name_and_hash(a)),
{
    lemma_readers_agree_from(d, 1);
}

/// The two readers of a get-version answer agree on devices running their OS: when
/// [`DeviceInfo::new`] reads such an answer, [`parse_version_info`] gives the same
/// target id, version and MCU version.
pub proof fn lemma_version_readers_agree(retcode: u16, d: Seq<u8>)
    requires
        version_response(retcode, d) matches Ok(info) && !info.is_bootloader,
    ensures
        version_response(retcode, d) matches Ok(info)
            && version_info_spec(d) == Some((info.target_id, info.version, info.mcu_version)),
{
}

/// The name, in lowercase, of the Bitcoin app (`"bitcoin test"` for the testnet one).
pub open spec fn bitcoin_app_name(is_testnet: bool) -> Seq<char> {
    if is_testnet {
        "bitcoin test"@
    } else {
        "bitcoin"@
    }
}

/// Whether an application of name `name` is the Bitcoin app (or the testnet one).
pub open spec fn is_bitcoin_app_name(name: Seq<char>, is_testnet: bool) -> bool {
    lowercase(name) == bitcoin_app_name(is_testnet)
}

/// The name, in lowercase, of the Bitcoin app (`"bitcoin test"` for the testnet one).
pub fn lowercase_bitcoin_app_name(is_testnet: bool) -> (s: String)
    ensures
        s@ == bitcoin_app_name(is_testnet),
{
    if is_testnet {
        String::from_str("bitcoin test")
    } else {
        String::from_str("bitcoin")
    }
}

/// Whether `name` names the Bitcoin app (or the testnet one), whatever its case.
pub fn is_bitcoin_app(name: &String, is_testnet: bool) -> (b: bool)
    ensures
        b == is_bitcoin_app_name(name@, is_testnet),
{
    let lower = to_lowercase(name.as_str());
    lower == lowercase_bitcoin_app_name(is_testnet)
}

/// The installed Bitcoin app, if any, among the applications listed by the device: the
/// first one named "Bitcoin" ("Bitcoin Test" for testnet), whatever the case.
pub fn bitcoin_app_installed(listed: Vec<InstalledApp>, is_testnet: bool) -> (res: Option<InstalledApp>)
    ensures
        match res {
            Some(app) => exists|k: int|
                #![trigger listed@[k]]
                0 <= k < listed@.len() && app@ == listed@[k]@ && is_bitcoin_app_name(listed@[k].name@, is_testnet)
                    && forall|j: int| 0 <= j < k ==> !is_bitcoin_app_name(#[trigger] listed@[j].name@, is_testnet),
            None => forall|j: int| 0 <= j < listed@.len() ==> !is_bitcoin_app_name(#[trigger] listed@[j].name@, is_testnet),
        },
{
    let mut apps = listed;
    let ghost orig = apps@;
    let mut k: usize = 0;
    while k < apps.len()
        invariant
            apps@ == orig,
            orig == listed@,
            0 <= k <= apps@.len(),
            forall|j: int| 0 <= j < k ==> !is_bitcoin_app_name(#[trigger] orig[j].name@, is_testnet),
        decreases apps@.len() - k,
    {
        if is_bitcoin_app(&apps[k].name, is_testnet) {
            let app = apps.remove(k);
            assert(app == orig[k as int]);
            assert(0 <= k < orig.len() && app@ == orig[k as int]@ && is_bitcoin_app_name(orig[k as int].name@, is_testnet)
                && forall|j: int| 0 <= j < k ==> !is_bitcoin_app_name(#[trigger] orig[j].name@, is_testnet));
            assert(exists|k2: int|
                #![trigger orig[k2]]
                0 <= k2 < orig.len() && app@ == orig[k2]@ && is_bitcoin_app_name(orig[k2].name@, is_testnet)
                    && forall|j: int| 0 <= j < k2 ==> !is_bitcoin_app_name(#[trigger] orig[j].name@, is_testnet));
            return Some(app);
        }
        k = k + 1;
    }
    None
}

/// Whether the Bitcoin app (or the testnet one) is among the listed applications.
pub fn is_bitcoin_app_installed(apps: Vec<InstalledApp>, is_testnet: bool) -> (b: bool)
    ensures
        b == exists|j: int| 0 <= j < apps@.len() && is_bitcoin_app_name(#[trigger] apps@[j].name@, is_testnet),
{
    let res = bitcoin_app_installed(apps, is_testnet);
    res.is_some()
}

} // verus!
