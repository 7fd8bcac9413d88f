//! Character-level helpers: decimal and hexadecimal renderings of integers, UTF-8
//! decoding and lowercasing of text.
use vstd::prelude::*;
use vstd::utf8::*;
use vstd::string::StringExecFns;

verus! {

/// The ASCII digit of value `d` (below 10).
pub open spec fn decimal_digit(d: nat) -> char {
    ('0' as u32 + d) as char
}

/// Decimal rendering of `n`, without leading zeros.
pub open spec fn decimal(n: nat) -> Seq<char>
    decreases n,
{
    if n < 10 {
        seq![decimal_digit(n)]
    } else {
        decimal(n / 10).push(decimal_digit(n % 10))
    }
}

/// The lowercase hexadecimal digit of value `d` (below 16).
pub open spec fn hex_digit_lower(d: nat) -> char {
    if d < 10 {
        ('0' as u32 + d) as char
    } else {
        ('a' as u32 + d - 10) as char
    }
}

/// The uppercase hexadecimal digit of value `d` (below 16).
pub open spec fn hex_digit_upper(d: nat) -> char {
    if d < 10 {
        ('0' as u32 + d) as char
    } else {
        ('A' as u32 + d - 10) as char
    }
}

/// The `width` lowest hexadecimal digits of `n`, lowercase, most significant first.
pub open spec fn hex_lower_fixed(n: nat, width: nat) -> Seq<char>
    decreases width,
{
    if width == 0 {
        Seq::empty()
    } else {
        hex_lower_fixed(n / 16, (width - 1) as nat).push(hex_digit_lower(n % 16))
    }
}

/// `hex_lower_fixed(n, width)` has `width` digits, each a lowercase hexadecimal digit.
pub proof fn lemma_hex_lower_fixed_digits(n: nat, width: nat)
    ensures
        hex_lower_fixed(n, width).len() == width,
        forall|i: int| 0 <= i < width ==> is_lower_hex_digit(#[trigger] hex_lower_fixed(n, width)[i]),
    decreases width,
{
    if width > 0 {
        lemma_hex_lower_fixed_digits(n / 16, (width - 1) as nat);
    }
}

/// Whether `c` is one of `0`-`9`, `a`-`f`.
pub open spec fn is_lower_hex_digit(c: char) -> bool {
    ('0' <= c <= '9') || ('a' <= c <= 'f')
}

/// Lowercase hexadecimal rendering of `n`, without leading zeros.
pub open spec fn hex_lower(n: nat) -> Seq<char>
    decreases n,
{
    if n < 16 {
        seq![hex_digit_lower(n)]
    } else {
        hex_lower(n / 16).push(hex_digit_lower(n % 16))
    }
}

/// Decimal rendering of the integer `i`, with a leading `-` when it is negative.
pub open spec fn decimal_int(i: int) -> Seq<char> {
    if i < 0 {
        seq!['-'] + decimal((-i) as nat)
    } else {
        decimal(i as nat)
    }
}

/// Appends `c` to `s` (`String::push`).
#[verifier::external_body]
pub(crate) fn push_char(s: &mut String, c: char)
    ensures
        final(s)@ == old(s)@.push(c),
{
    s.push(c);
}

fn digit_char(d: u64) -> (c: char)
    requires
        d < 10,
    ensures
        c == decimal_digit(d as nat),
{
    if d == 0 { '0' } else if d == 1 { '1' } else if d == 2 { '2' } else if d == 3 { '3' } else if d == 4 {
        '4'
    } else if d == 5 { '5' } else if d == 6 { '6' } else if d == 7 { '7' } else if d == 8 { '8' } else {
        '9'
    }
}

fn hex_char_lower(d: u64) -> (c: char)
    requires
        d < 16,
    ensures
        c == hex_digit_lower(d as nat),
{
    if d < 10 {
        digit_char(d)
    } else if d == 10 { 'a' } else if d == 11 { 'b' } else if d == 12 { 'c' } else if d == 13 {
        'd'
    } else if d == 14 { 'e' } else {
        'f'
    }
}

/// Appends the decimal rendering of `n` to `s`.
pub fn push_decimal(s: &mut String, n: u64)
    ensures
        final(s)@ == old(s)@ + decimal(n as nat),
    decreases n,
{
    if n >= 10 {
        push_decimal(s, n / 10);
    }
    push_char(s, digit_char(n % 10));
    assert(s@ =~= old(s)@ + decimal(n as nat));
}

/// Appends the `width` lowest lowercase hexadecimal digits of `n` to `s`.
pub fn push_hex_lower(s: &mut String, n: u64, width: u32)
    ensures
        final(s)@ == old(s)@ + hex_lower_fixed(n as nat, width as nat),
    decreases width,
{
    if width > 0 {
        push_hex_lower(s, n / 16, width - 1);
        push_char(s, hex_char_lower(n % 16));
        assert(s@ =~= old(s)@ + hex_lower_fixed(n as nat, width as nat));
    } else {
        assert(s@ =~= old(s)@ + hex_lower_fixed(n as nat, width as nat));
    }
}

/// Appends the lowercase hexadecimal rendering of `n`, without leading zeros, to `s`.
pub fn push_hex_min(s: &mut String, n: u64)
    ensures
        final(s)@ == old(s)@ + hex_lower(n as nat),
    decreases n,
{
    if n >= 16 {
        push_hex_min(s, n / 16);
    }
    push_char(s, hex_char_lower(n % 16));
    assert(s@ =~= old(s)@ + hex_lower(n as nat));
}

/// Appends the decimal rendering of `i` (with `-` when negative) to `s`.
pub fn push_decimal_i64(s: &mut String, i: i64)
    ensures
        final(s)@ == old(s)@ + decimal_int(i as int),
{
    if i < 0 {
        push_char(s, '-');
        let magnitude: u64 = if i == i64::MIN { 0x8000_0000_0000_0000 } else { (-i) as u64 };
        push_decimal(s, magnitude);
        assert(s@ =~= old(s)@ + decimal_int(i as int));
    } else {
        push_decimal(s, i as u64);
    }
}

/// Appends the decimal rendering of `n` to `s`.
pub fn push_decimal_u128(s: &mut String, n: u128)
    ensures
        final(s)@ == old(s)@ + decimal(n as nat),
    decreases n,
{
    if n >= 10 {
        push_decimal_u128(s, n / 10);
    }
    push_char(s, digit_char((n % 10) as u64));
    assert(s@ =~= old(s)@ + decimal(n as nat));
}

/// Decimal rendering of `n` as a new string.
pub fn decimal_string(n: u64) -> (s: String)
    ensures
        s@ == decimal(n as nat),
{
    let mut s = String::new();
    push_decimal(&mut s, n);
    assert(s@ =~= decimal(n as nat));
    s
}

/// Whether `s` holds exactly the text `lit`.
pub fn str_eq(s: &String, lit: &str) -> (b: bool)
    ensures
        b == (s@ == lit@),
{
    let t = String::from_str(lit);
    *s == t
}

/// The characters of `s`, in order.
pub fn chars_of(s: &str) -> (v: Vec<char>)
    ensures
        v@ == s@,
{
    let mut v: Vec<char> = Vec::new();
    for c in it: s.chars()
        invariant
            v@ == it.seq().take(it.index() as int),
    {
        v.push(c);
    }
    v
}

/// The text with which Rust's `Debug` writes the character `c`: between single quotes,
/// with escapes for quotes, backslashes and characters that do not print.
pub uninterp spec fn char_debug_text(c: char) -> Seq<char>;

/// The `Debug` text of `c` (`<char as Debug>::fmt`), named by [`char_debug_text`].
#[verifier::external_body]
pub(crate) fn char_debug(c: char) -> (s: String)
    ensures
        s@ == char_debug_text(c),
{
    format!("{:?}", c)
}

/// The text of the error that `std::str::from_utf8` gives on the bytes `b` (its
/// `Display`, which tells where the first invalid sequence starts).
pub uninterp spec fn utf8_error_text(b: Seq<u8>) -> Seq<char>;

/// Decodes `bytes` as UTF-8 (`std::str::from_utf8`): `Ok` exactly when they are valid
/// UTF-8, with the text they encode; otherwise the text of the error, named by
/// [`utf8_error_text`].
#[verifier::external_body]
pub(crate) fn utf8_to_string(bytes: &[u8]) -> (res: Result<String, String>)
    ensures
        res.is_ok() <==> valid_utf8(bytes@),
        res matches Ok(s) ==> s@ == decode_utf8(bytes@),
        res matches Err(m) ==> m@ == utf8_error_text(bytes@),
{
    std::str::from_utf8(bytes).map(|s| s.to_string()).map_err(|e| e.to_string())
}

/// Lowercase form of `s` as `str::to_lowercase` computes it (Unicode case mapping).
pub uninterp spec fn lowercase(s: Seq<char>) -> Seq<char>;

/// Lowercases `s` (`str::to_lowercase`).
#[verifier::external_body]
pub(crate) fn to_lowercase(s: &str) -> (res: String)
    ensures
        res@ == lowercase(s@),
{
    s.to_lowercase()
}

} // verus!
