//! URLs of the remote HSM sessions and of the Ledger Manager API requests.
use vstd::prelude::*;
use vstd::string::StringExecFns;
use vstd::utf8::encode_utf8;
use crate::constants::{BASE_API_V1_URL, BASE_SOCKET_URL, LIVE_COMMON_VERSION, PROVIDER};
use crate::firmware::{FinalFirmware, OsuFirmware, osu_version_name, osu_version_name_spec};
use crate::apps::BitcoinAppInfo;
use crate::text::{decimal, decimal_int, hex_digit_upper, push_decimal, push_decimal_i64};

verus! {

/// Whether `application/x-www-form-urlencoded` serialization keeps byte `b` as is:
/// `*`, `-`, `.`, `_`, digits and ASCII letters.
pub open spec fn form_unchanged(b: u8) -> bool {
    b == 42 || b == 45 || b == 46 || b == 95 || (48 <= b <= 57) || (65 <= b <= 90) || (97 <= b <= 122)
}

/// The form-urlencoded rendering of byte `b`: itself when kept, `+` for a space,
/// otherwise `%` and two uppercase hexadecimal digits.
pub open spec fn form_byte(b: u8) -> Seq<char> {
    if form_unchanged(b) {
        seq![b as char]
    } else if b == 32 {
        seq!['+']
    } else {
        seq!['%', hex_digit_upper((b / 16) as nat), hex_digit_upper((b % 16) as nat)]
    }
}

/// The form-urlencoded rendering of the bytes `b`.
pub open spec fn form_encode(b: Seq<u8>) -> Seq<char>
    decreases b.len(),
{
    if b.len() == 0 {
        Seq::empty()
    } else {
        form_encode(b.drop_last()) + form_byte(b.last())
    }
}

/// A name/value pair in form-urlencoded syntax: `name=value`, both encoded from their
/// UTF-8 bytes.
pub open spec fn form_pair(name: Seq<char>, value: Seq<char>) -> Seq<char> {
    form_encode(encode_utf8(name)) + seq!['='] + form_encode(encode_utf8(value))
}

/// Appends the pair `name=value` to the form-urlencoded `target`, after a `&` when the
/// target is not empty (`form_urlencoded::Serializer::append_pair` on a `String` target).
#[verifier::external_body]
fn append_form_pair(target: &mut String, name: &str, value: &str)
    ensures
        final(target)@ == old(target)@ + (if old(target)@.len() > 0 { seq!['&'] } else { Seq::empty() }) + form_pair(name@, value@),
{
    form_urlencoded::Serializer::new(target).append_pair(name, value);
}

/// Whether `c` can stand in an escaped query value: it is none of `&`, `=`, `#`, `?` or
/// a space, which would end or split a parameter.
pub open spec fn is_query_safe(c: char) -> bool {
    c != '&' && c != '=' && c != '#' && c != '?' && c != ' '
}

/// Escaped values stay within their parameter: the form-urlencoded rendering of any
/// bytes holds no `&`, `=`, `#`, `?` or space.
pub proof fn lemma_form_encode_query_safe(b: Seq<u8>)
    ensures
        forall|i: int| 0 <= i < form_encode(b).len() ==> is_query_safe(#[trigger] form_encode(b)[i]),
    decreases b.len(),
{
    if b.len() > 0 {
        lemma_form_encode_query_safe(b.drop_last());
        let last = b.last();
        let prev = form_encode(b.drop_last());
        assert(form_encode(b) == prev + form_byte(last));
        assert forall|i: int| 0 <= i < form_byte(last).len() implies is_query_safe(#[trigger] form_byte(last)[i]) by {
            if form_unchanged(last) {
                assert(last != 38 && last != 61 && last != 35 && last != 63 && last != 32);
            }
        }
        assert forall|i: int| 0 <= i < form_encode(b).len() implies is_query_safe(#[trigger] form_encode(b)[i]) by {
            if i < prev.len() {
                assert(form_encode(b)[i] == prev[i]);
            } else {
                assert(form_encode(b)[i] == form_byte(last)[i - prev.len()]);
            }
        }
    }
}

/// Escaped values stay within their parameter: the percent-encoding of any bytes holds
/// no `&`, `=`, `#`, `?` or space.
pub proof fn lemma_percent_encode_query_safe(b: Seq<u8>)
    ensures
        forall|i: int| 0 <= i < percent_encode(b).len() ==> is_query_safe(#[trigger] percent_encode(b)[i]),
    decreases b.len(),
{
    if b.len() > 0 {
        lemma_percent_encode_query_safe(b.drop_last());
        let last = b.last();
        let prev = percent_encode(b.drop_last());
        let tail: Seq<char> = if percent_unchanged(last) {
            seq![last as char]
        } else {
            seq!['%', hex_digit_upper((last / 16) as nat), hex_digit_upper((last % 16) as nat)]
        };
        assert(percent_encode(b) == prev + tail);
        assert forall|i: int| 0 <= i < tail.len() implies is_query_safe(#[trigger] tail[i]) by {
            if percent_unchanged(last) {
                assert(last != 38 && last != 61 && last != 35 && last != 63 && last != 32);
            }
        }
        assert forall|i: int| 0 <= i < percent_encode(b).len() implies is_query_safe(#[trigger] percent_encode(b)[i]) by {
            if i < prev.len() {
                assert(percent_encode(b)[i] == prev[i]);
            } else {
                assert(percent_encode(b)[i] == tail[i - prev.len()]);
            }
        }
    }
}

/// Whether percent-encoding keeps byte `b` as is: ASCII letters, digits, `-`, `.`, `_`
/// and `~`.
pub open spec fn percent_unchanged(b: u8) -> bool {
    b == 45 || b == 46 || b == 95 || b == 126 || (48 <= b <= 57) || (65 <= b <= 90) || (97 <= b <= 122)
}

/// The percent-encoding of the bytes `b`: each byte kept as is, or `%` and two
/// uppercase hexadecimal digits.
pub open spec fn percent_encode(b: Seq<u8>) -> Seq<char>
    decreases b.len(),
{
    if b.len() == 0 {
        Seq::empty()
    } else {
        percent_encode(b.drop_last()) + if percent_unchanged(b.last()) {
            seq![b.last() as char]
        } else {
            seq!['%', hex_digit_upper((b.last() / 16) as nat), hex_digit_upper((b.last() % 16) as nat)]
        }
    }
}

/// Percent-encodes the UTF-8 bytes of `s` (`urlencoding::encode`).
#[verifier::external_body]
fn url_encode(s: &str) -> (res: String)
    ensures
        res@ == percent_encode(encode_utf8(s@)),
{
    urlencoding::encode(s).into_owned()
}

/// Appends `name=`, then the percent-encoding of `value`, to `target`, after a `&`
/// when `first` is false.
pub(crate) fn append_encoded_param(target: &mut String, first: bool, name: &str, value: &str)
    ensures
        final(target)@ == old(target)@ + (if first { Seq::empty() } else { seq!['&'] }) + name@ + seq!['=']
            + percent_encode(encode_utf8(value@)),
{
    if !first {
        crate::text::push_char(target, '&');
    }
    target.append(name);
    crate::text::push_char(target, '=');
    let encoded = url_encode(value);
    target.append(encoded.as_str());
}

/// `base` followed by each pair of `pairs`, each after a `&`.
pub open spec fn with_pairs(base: Seq<char>, pairs: Seq<(Seq<char>, Seq<char>)>) -> Seq<char>
    decreases pairs.len(),
{
    if pairs.len() == 0 {
        base
    } else {
        with_pairs(base, pairs.drop_last()) + seq!['&'] + form_pair(pairs.last().0, pairs.last().1)
    }
}

/// Appends the decimal rendering of `n` as a new string.
fn decimal_of(n: u64) -> (s: String)
    ensures
        s@ == decimal(n as nat),
{
    crate::text::decimal_string(n)
}

/// Appending a pair extends the text by `&` and the pair.
pub proof fn lemma_with_pairs_push(base: Seq<char>, pairs: Seq<(Seq<char>, Seq<char>)>, name: Seq<char>, value: Seq<char>)
    ensures
        with_pairs(base, pairs.push((name, value))) == with_pairs(base, pairs) + seq!['&'] + form_pair(name, value),
{
    assert(pairs.push((name, value)).drop_last() =~= pairs);
}

/// `target`, a non-empty form-urlencoded text, with the pair `name=value` appended.
pub fn add_pair(target: &mut String, name: &str, value: &str)
    requires
        old(target)@.len() > 0,
    ensures
        final(target)@ == old(target)@ + seq!['&'] + form_pair(name@, value@),
        final(target)@.len() > 0,
{
    append_form_pair(target, name, value);
}

/// `base` and `suffix` joined in a new string.
fn joined(base: &str, suffix: &str) -> (s: String)
    ensures
        s@ == base@ + suffix@,
{
    String::from_str(base).concat(suffix)
}

/// URL of the genuine-check session for device `target_id`, whose firmware has
/// personalization `perso`.
pub fn genuine_check_url(target_id: u32, perso: &str) -> (url: String)
    ensures
        url@ == with_pairs(BASE_SOCKET_URL@ + "/genuine?"@, seq![("targetId"@, decimal(target_id as nat)), ("perso"@, perso@)]),
{
    proof {
        reveal_strlit("/genuine?");
    }
    let mut url = joined(BASE_SOCKET_URL, "/genuine?");
    let ghost base = url@;
    let id = decimal_of(target_id as u64);
    let ghost e = Seq::<(Seq<char>, Seq<char>)>::empty();
    assert(with_pairs(base, e) == base);
    add_pair(&mut url, "targetId", id.as_str());
    proof {
        lemma_with_pairs_push(base, e, "targetId"@, id@);
    }
    add_pair(&mut url, "perso", perso);
    proof {
        lemma_with_pairs_push(base, e.push(("targetId"@, id@)), "perso"@, perso@);
        assert(e.push(("targetId"@, id@)).push(("perso"@, perso@)) =~= seq![("targetId"@, decimal(target_id as nat)), ("perso"@, perso@)]);
    }
    url
}

/// The characters of a list of name/value pairs.
pub open spec fn pairs_view(pairs: Seq<(String, String)>) -> Seq<(Seq<char>, Seq<char>)> {
    pairs.map_values(|p: (String, String)| (p.0@, p.1@))
}

/// `base` followed by the form-urlencoded pairs of `pairs`, each after a `&`.
pub fn form_url(base: &str, suffix: &str, pairs: &Vec<(String, String)>) -> (url: String)
    requires
        (base@ + suffix@).len() > 0,
    ensures
        url@ == with_pairs(base@ + suffix@, pairs_view(pairs@)),
{
    let mut url = joined(base, suffix);
    let ghost b = url@;
    let mut i: usize = 0;
    assert(pairs_view(pairs@).take(0) =~= Seq::<(Seq<char>, Seq<char>)>::empty());
    while i < pairs.len()
        invariant
            0 <= i <= pairs@.len(),
            b == base@ + suffix@,
            b.len() > 0,
            url@.len() > 0,
            url@ == with_pairs(b, pairs_view(pairs@).take(i as int)),
        decreases pairs@.len() - i,
    {
        let (name, value) = &pairs[i];
        proof {
            lemma_with_pairs_push(b, pairs_view(pairs@).take(i as int), name@, value@);
            assert(pairs_view(pairs@).take(i as int).push((name@, value@)) =~= pairs_view(pairs@).take(i + 1));
        }
        add_pair(&mut url, name.as_str(), value.as_str());
        i = i + 1;
    }
    assert(pairs_view(pairs@).take(pairs@.len() as int) =~= pairs_view(pairs@));
    url
}

/// The pair `(name, value)` as owned strings.
fn pair(name: &str, value: &String) -> (p: (String, String))
    ensures
        p.0@ == name@,
        p.1@ == value@,
{
    (String::from_str(name), value.clone())
}

/// URL of the session that installs (or updates) app `app` on device `target_id`.
pub fn install_app_url(target_id: u32, app: &BitcoinAppInfo) -> (url: String)
    ensures
        url@ == with_pairs(BASE_SOCKET_URL@ + "/install?"@, seq![
            ("targetId"@, decimal(target_id as nat)),
            ("perso"@, app.perso@),
            ("deleteKey"@, app.delete_key@),
            ("firmware"@, app.firmware@),
            ("firmwareKey"@, app.firmware_key@),
            ("hash"@, app.hash@),
        ]),
{
    proof {
        reveal_strlit("/install?");
    }
    let mut pairs: Vec<(String, String)> = Vec::new();
    pairs.push(pair("targetId", &decimal_of(target_id as u64)));
    pairs.push(pair("perso", &app.perso));
    pairs.push(pair("deleteKey", &app.delete_key));
    pairs.push(pair("firmware", &app.firmware));
    pairs.push(pair("firmwareKey", &app.firmware_key));
    pairs.push(pair("hash", &app.hash));
    let url = form_url(BASE_SOCKET_URL, "/install?", &pairs);
    assert(pairs_view(pairs@) =~= seq![
        ("targetId"@, decimal(target_id as nat)),
        ("perso"@, app.perso@),
        ("deleteKey"@, app.delete_key@),
        ("firmware"@, app.firmware@),
        ("firmwareKey"@, app.firmware_key@),
        ("hash"@, app.hash@),
    ]);
    url
}

/// The pairs of a firmware installation session: target id, firmware, firmware key,
/// personalization and Ledger Live version.
pub open spec fn firmware_install_pairs(target_id: u32, firmware: Seq<char>, firmware_key: Seq<char>, perso: Seq<char>) -> Seq<(Seq<char>, Seq<char>)> {
    seq![
        ("targetId"@, decimal(target_id as nat)),
        ("firmware"@, firmware),
        ("firmwareKey"@, firmware_key),
        ("perso"@, perso),
        ("livecommonversion"@, LIVE_COMMON_VERSION@),
    ]
}

fn firmware_install_url(target_id: u32, firmware: &String, firmware_key: &String, perso: &String) -> (url: String)
    ensures
        url@ == with_pairs(BASE_SOCKET_URL@ + "/install?"@, firmware_install_pairs(target_id, firmware@, firmware_key@, perso@)),
{
    proof {
        reveal_strlit("/install?");
    }
    let mut pairs: Vec<(String, String)> = Vec::new();
    pairs.push(pair("targetId", &decimal_of(target_id as u64)));
    pairs.push(pair("firmware", firmware));
    pairs.push(pair("firmwareKey", firmware_key));
    pairs.push(pair("perso", perso));
    pairs.push(pair("livecommonversion", &String::from_str(LIVE_COMMON_VERSION)));
    let url = form_url(BASE_SOCKET_URL, "/install?", &pairs);
    assert(pairs_view(pairs@) =~= firmware_install_pairs(target_id, firmware@, firmware_key@, perso@));
    url
}

/// URL of a firmware installation session on device `target_id`.
pub open spec fn firmware_install_url_spec(target_id: u32, firmware: Seq<char>, firmware_key: Seq<char>, perso: Seq<char>) -> Seq<char> {
    with_pairs(BASE_SOCKET_URL@ + "/install?"@, firmware_install_pairs(target_id, firmware, firmware_key, perso))
}

/// URL of the session that installs the OSU `osu` on device `target_id`.
pub fn osu_install_url(target_id: u32, osu: &OsuFirmware) -> (url: String)
    ensures
        url@ == firmware_install_url_spec(target_id, osu.firmware@, osu.firmware_key@, osu.perso@),
{
    firmware_install_url(target_id, &osu.firmware, &osu.firmware_key, &osu.perso)
}

/// URL of the session that installs the final firmware `fw` on device `target_id`.
pub fn final_install_url(target_id: u32, fw: &FinalFirmware) -> (url: String)
    ensures
        url@ == firmware_install_url_spec(target_id, fw.firmware@, fw.firmware_key@, fw.perso@),
{
    firmware_install_url(target_id, &fw.firmware, &fw.firmware_key, &fw.perso)
}

/// URL of the session that flashes MCU (or bootloader) version `version` on device
/// `target_id`.
pub open spec fn mcu_flash_url_spec(target_id: u32, version: Seq<char>) -> Seq<char> {
    with_pairs(BASE_SOCKET_URL@ + "/mcu?"@, seq![
        ("targetId"@, decimal(target_id as nat)),
        ("version"@, version),
        ("livecommonversion"@, LIVE_COMMON_VERSION@),
    ])
}

/// URL of the session that flashes MCU (or bootloader) version `version` on device
/// `target_id` (see [`mcu_flash_url_spec`]).
pub fn mcu_flash_url(target_id: u32, version: &str) -> (url: String)
    ensures
        url@ == mcu_flash_url_spec(target_id, version@),
{
    proof {
        reveal_strlit("/mcu?");
    }
    let mut pairs: Vec<(String, String)> = Vec::new();
    pairs.push(pair("targetId", &decimal_of(target_id as u64)));
    pairs.push(pair("version", &String::from_str(version)));
    pairs.push(pair("livecommonversion", &String::from_str(LIVE_COMMON_VERSION)));
    let url = form_url(BASE_SOCKET_URL, "/mcu?", &pairs);
    assert(pairs_view(pairs@) =~= seq![
        ("targetId"@, decimal(target_id as nat)),
        ("version"@, version@),
        ("livecommonversion"@, LIVE_COMMON_VERSION@),
    ]);
    url
}

/// URL of the `get_device_version` request for device `target_id`.
pub open spec fn device_version_url_spec(target_id: u32) -> Seq<char> {
    BASE_API_V1_URL@ + "/get_device_version?livecommonversion="@ + LIVE_COMMON_VERSION@ + "&provider="@
        + decimal(PROVIDER as nat) + "&target_id="@ + decimal(target_id as nat)
}

/// URL of the `get_device_version` request for device `target_id`.
pub fn device_version_url(target_id: u32) -> (url: String)
    ensures
        url@ == device_version_url_spec(target_id),
{
    let mut url = joined(BASE_API_V1_URL, "/get_device_version?livecommonversion=");
    url.append(LIVE_COMMON_VERSION);
    url.append("&provider=");
    push_decimal(&mut url, PROVIDER as u64);
    url.append("&target_id=");
    push_decimal(&mut url, target_id as u64);
    url
}

/// URL of the `get_latest_firmware` request.
pub open spec fn latest_firmware_url_spec(salt: Seq<char>, current_version: i64, device_version: i64) -> Seq<char> {
    BASE_API_V1_URL@ + "/get_latest_firmware?livecommonversion="@ + LIVE_COMMON_VERSION@ + "&salt="@ + salt
        + "&current_se_firmware_final_version="@ + decimal_int(current_version as int) + "&device_version="@
        + decimal_int(device_version as int) + "&provider="@ + decimal(PROVIDER as nat)
}

/// URL of the `get_latest_firmware` request.
pub fn latest_firmware_url(salt: &str, current_version: i64, device_version: i64) -> (url: String)
    ensures
        url@ == latest_firmware_url_spec(salt@, current_version, device_version),
{
    let mut url = joined(BASE_API_V1_URL, "/get_latest_firmware?livecommonversion=");
    url.append(LIVE_COMMON_VERSION);
    url.append("&salt=");
    url.append(salt);
    url.append("&current_se_firmware_final_version=");
    push_decimal_i64(&mut url, current_version);
    url.append("&device_version=");
    push_decimal_i64(&mut url, device_version);
    url.append("&provider=");
    push_decimal(&mut url, PROVIDER as u64);
    url
}

/// URL of the `get_osu_version` request: the version name gets its "-osu" suffix.
pub fn osu_firmware_url(device_version_id: i64, version_name: &str) -> (url: String)
    ensures
        url@ == BASE_API_V1_URL@ + "/get_osu_version?livecommonversion="@ + LIVE_COMMON_VERSION@ + "&device_version="@
            + decimal_int(device_version_id as int) + "&version_name="@ + osu_version_name_spec(version_name@) + "&provider="@
            + decimal(PROVIDER as nat),
{
    let name = osu_version_name(version_name);
    let mut url = joined(BASE_API_V1_URL, "/get_osu_version?livecommonversion=");
    url.append(LIVE_COMMON_VERSION);
    url.append("&device_version=");
    push_decimal_i64(&mut url, device_version_id);
    url.append("&version_name=");
    url.append(name.as_str());
    url.append("&provider=");
    push_decimal(&mut url, PROVIDER as u64);
    url
}

/// URL of the request for final firmware `id`.
pub open spec fn final_firmware_url_spec(id: i64) -> Seq<char> {
    BASE_API_V1_URL@ + "/firmware_final_versions/"@ + decimal_int(id as int) + "?livecommonversion="@
        + LIVE_COMMON_VERSION@
}

/// URL of the request for final firmware `id`.
pub fn final_firmware_url(id: i64) -> (url: String)
    ensures
        url@ == final_firmware_url_spec(id),
{
    let mut url = joined(BASE_API_V1_URL, "/firmware_final_versions/");
    push_decimal_i64(&mut url, id);
    url.append("?livecommonversion=");
    url.append(LIVE_COMMON_VERSION);
    url
}

/// URL of the request for all MCU versions.
pub open spec fn mcu_versions_url_spec() -> Seq<char> {
    BASE_API_V1_URL@ + "/mcu_versions?livecommonversion="@ + LIVE_COMMON_VERSION@
}

/// URL of the request for all MCU versions.
pub fn mcu_versions_url() -> (url: String)
    ensures
        url@ == mcu_versions_url_spec(),
{
    let mut url = joined(BASE_API_V1_URL, "/mcu_versions?livecommonversion=");
    url.append(LIVE_COMMON_VERSION);
    url
}

/// URL of the `get_firmware_version` request for a device version and a firmware
/// version name.
pub open spec fn current_firmware_version_url_spec(device_version_id: i64, version_name: Seq<char>) -> Seq<char> {
    BASE_API_V1_URL@ + "/get_firmware_version?livecommonversion="@ + LIVE_COMMON_VERSION@ + "&device_version="@
        + decimal_int(device_version_id as int) + "&version_name="@ + version_name + "&provider="@ + decimal(PROVIDER as nat)
}

/// URL of the `get_firmware_version` request for a device version and a firmware
/// version name.
pub fn current_firmware_version_url(device_version_id: i64, version_name: &str) -> (url: String)
    ensures
        url@ == current_firmware_version_url_spec(device_version_id, version_name@),
{
    let mut url = joined(BASE_API_V1_URL, "/get_firmware_version?livecommonversion=");
    url.append(LIVE_COMMON_VERSION);
    url.append("&device_version=");
    push_decimal_i64(&mut url, device_version_id);
    url.append("&version_name=");
    url.append(version_name);
    url.append("&provider=");
    push_decimal(&mut url, PROVIDER as u64);
    url
}

} // verus!
