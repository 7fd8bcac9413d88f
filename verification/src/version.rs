//! Version strings: the major.minor part of a bootloader version, the numeric
//! components of a version name and their order, and substring tests.
use vstd::prelude::*;
use crate::text::{chars_of, push_char};

verus! {

/// Index of the first `c` in `s`, or the length of `s` when there is none.
pub open spec fn first_index(s: Seq<char>, c: char) -> int
    decreases s.len(),
{
    if s.len() == 0 {
        0
    } else if s[0] == c {
        0
    } else {
        1 + first_index(s.drop_first(), c)
    }
}

/// The part of `s` before its first `c` (all of `s` when there is none).
pub open spec fn before_char(s: Seq<char>, c: char) -> Seq<char> {
    s.take(first_index(s, c))
}

/// The part of `s` after its first `c` (nothing when there is none).
pub open spec fn after_char(s: Seq<char>, c: char) -> Seq<char> {
    if first_index(s, c) < s.len() {
        s.skip(first_index(s, c) + 1)
    } else {
        Seq::empty()
    }
}

/// The major.minor part of a bootloader version: the first two dot-separated parts,
/// the second cut at its first `-`; the version itself when it has no dot.
pub open spec fn maj_min_spec(v: Seq<char>) -> Seq<char> {
    if first_index(v, '.') == v.len() {
        v
    } else {
        before_char(v, '.') + seq!['.'] + before_char(before_char(after_char(v, '.'), '.'), '-')
    }
}

proof fn lemma_first_index_bounds(s: Seq<char>, c: char)
    ensures
        0 <= first_index(s, c) <= s.len(),
        first_index(s, c) < s.len() ==> s[first_index(s, c)] == c,
        forall|j: int| 0 <= j < first_index(s, c) ==> s[j] != c,
    decreases s.len(),
{
    if s.len() > 0 && s[0] != c {
        lemma_first_index_bounds(s.drop_first(), c);
        assert forall|j: int| 0 <= j < first_index(s, c) implies s[j] != c by {
            if j > 0 {
                assert(s[j] == s.drop_first()[j - 1]);
            }
        }
    }
}

proof fn lemma_first_index_is(s: Seq<char>, c: char, k: int)
    requires
        0 <= k <= s.len(),
        k < s.len() ==> s[k] == c,
        forall|j: int| 0 <= j < k ==> s[j] != c,
    ensures
        first_index(s, c) == k,
    decreases s.len(),
{
    if s.len() > 0 && k > 0 {
        lemma_first_index_is(s.drop_first(), c, k - 1);
    }
}

/// Index of the first `c` in `v[from..]`, or `v.len()` when there is none.
fn find_char(v: &Vec<char>, from: usize, c: char) -> (k: usize)
    requires
        from <= v@.len(),
    ensures
        from <= k <= v@.len(),
        k - from == first_index(v@.skip(from as int), c),
{
    let mut k = from;
    while k < v.len()
        invariant_except_break
            from <= k <= v@.len(),
            forall|j: int| from <= j < k ==> v@[j] != c,
        ensures
            from <= k <= v@.len(),
            forall|j: int| from <= j < k ==> v@[j] != c,
            k < v@.len() ==> v@[k as int] == c,
        decreases v@.len() - k,
    {
        if v[k] == c {
            break;
        }
        k = k + 1;
    }
    proof {
        let s = v@.skip(from as int);
        lemma_first_index_is(s, c, k - from);
    }
    k
}

/// Characters `v[from..to]` as a new string.
fn string_of_range(v: &Vec<char>, from: usize, to: usize) -> (s: String)
    requires
        from <= to <= v@.len(),
    ensures
        s@ == v@.subrange(from as int, to as int),
{
    let mut s = String::new();
    let mut k = from;
    while k < to
        invariant
            from <= k <= to,
            to <= v@.len(),
            s@ == v@.subrange(from as int, k as int),
        decreases to - k,
    {
        push_char(&mut s, v[k]);
        k = k + 1;
    }
    s
}

/// Extract the major.minor version from a bootloader version string: "0.6" from "0.6",
/// "1.5" from "1.5-rc3", "1.5" from "1.5.2".
pub fn get_bootloader_maj_min(version: &str) -> (res: String)
    ensures
        res@ == maj_min_spec(version@),
{
    let v = chars_of(version);
    let dot = find_char(&v, 0, '.');
    assert(v@.skip(0) =~= v@);
    if dot == v.len() {
        return string_of_range(&v, 0, v.len());
    }
    let dot2 = find_char(&v, dot + 1, '.');
    let dash = find_char(&v, dot + 1, '-');
    let end = if dash < dot2 { dash } else { dot2 };
    let mut res = string_of_range(&v, 0, dot);
    push_char(&mut res, '.');
    let mut k = dot + 1;
    let ghost head = res@;
    while k < end
        invariant
            dot + 1 <= k <= end,
            end <= v@.len(),
            res@ == head + v@.subrange(dot + 1, k as int),
        decreases end - k,
    {
        push_char(&mut res, v[k]);
        k = k + 1;
    }
    proof {
        let s = version@;
        lemma_first_index_bounds(s, '.');
        let a = after_char(s, '.');
        assert(a =~= s.skip(dot + 1));
        lemma_first_index_bounds(a, '.');
        let b = before_char(a, '.');
        lemma_first_index_bounds(b, '-');
        lemma_first_index_bounds(a, '-');
        let m = if dash < dot2 { dash - (dot + 1) } else { dot2 - (dot + 1) };
        assert forall|j: int| 0 <= j < m implies b[j] != '-' by {
            assert(b[j] == a[j]);
        }
        if m < b.len() {
            assert(b[m] == a[m]);
        }
        lemma_first_index_is(b, '-', m);
        assert(before_char(b, '-') =~= v@.subrange(dot + 1, end as int));
        assert(res@ =~= maj_min_spec(s));
    }
    res
}

/// Whether `t` occurs in `s`.
pub open spec fn contains_text(s: Seq<char>, t: Seq<char>) -> bool {
    exists|i: int| 0 <= i && i + t.len() <= s.len() && #[trigger] s.subrange(i, i + t.len()) == t
}

/// Whether the text `t` occurs in `s`.
pub fn contains_str(s: &str, t: &str) -> (b: bool)
    ensures
        b == contains_text(s@, t@),
{
    let sv = chars_of(s);
    let tv = chars_of(t);
    if tv.len() > sv.len() {
        return false;
    }
    let mut i: usize = 0;
    while i <= sv.len() - tv.len()
        invariant
            sv@ == s@,
            tv@ == t@,
            tv@.len() <= sv@.len(),
            i <= sv@.len() - tv@.len() + 1,
            forall|p: int| 0 <= p < i ==> #[trigger] sv@.subrange(p, p + tv@.len()) != tv@,
        decreases sv@.len() - i,
    {
        let mut j: usize = 0;
        let mut same = true;
        while j < tv.len()
            invariant
                sv@ == s@,
                tv@ == t@,
                i + tv@.len() <= sv@.len(),
                sv@.len() <= usize::MAX,
                0 <= j <= tv@.len(),
                same == forall|q: int| 0 <= q < j ==> sv@[i + q] == tv@[q],
            decreases tv@.len() - j,
        {
            if sv[i + j] != tv[j] {
                same = false;
            }
            j = j + 1;
        }
        if same {
            assert(sv@.subrange(i as int, i + tv@.len()) =~= tv@);
            return true;
        }
        assert(sv@.subrange(i as int, i + tv@.len()) != tv@) by {
            let q = choose|q: int| 0 <= q < tv@.len() && sv@[i + q] != tv@[q];
            assert(sv@.subrange(i as int, i + tv@.len())[q] == sv@[i + q]);
        }
        i = i + 1;
    }
    false
}

/// Whether `c` is an ASCII decimal digit.
pub open spec fn is_digit(c: char) -> bool {
    '0' <= c <= '9'
}

/// Value of the decimal digits `s`.
pub open spec fn digits_value(s: Seq<char>) -> nat
    decreases s.len(),
{
    if s.len() == 0 {
        0
    } else {
        digits_value(s.drop_last()) * 10 + (s.last() as nat - 48) as nat
    }
}

/// `s` without its leading `+`, if it has one.
pub open spec fn strip_plus(s: Seq<char>) -> Seq<char> {
    if s.len() > 0 && s[0] == '+' {
        s.drop_first()
    } else {
        s
    }
}

/// Whether `d` is made of decimal digits only.
pub open spec fn all_digits(d: Seq<char>) -> bool {
    forall|i: int| 0 <= i < d.len() ==> is_digit(#[trigger] d[i])
}

/// The `u32` that `s` denotes as `str::parse::<u32>` reads it: an optional `+`, then
/// one or more decimal digits, of value at most `u32::MAX`.
pub open spec fn parse_u32_spec(s: Seq<char>) -> Option<u32> {
    let d = strip_plus(s);
    if d.len() == 0 || !all_digits(d) || digits_value(d) > u32::MAX {
        None
    } else {
        Some(digits_value(d) as u32)
    }
}

/// Parses `v[from..to]` as `str::parse::<u32>` does (see [`parse_u32_spec`]).
fn parse_u32_range(v: &Vec<char>, from: usize, to: usize) -> (res: Option<u32>)
    requires
        from <= to <= v@.len(),
    ensures
        res == parse_u32_spec(v@.subrange(from as int, to as int)),
{
    let ghost s = v@.subrange(from as int, to as int);
    let start = if from < to && v[from] == '+' { from + 1 } else { from };
    let ghost d = v@.subrange(start as int, to as int);
    assert(d =~= strip_plus(s));
    if start == to {
        return None;
    }
    let mut value: u64 = 0;
    let mut overflow = false;
    let mut k = start;
    while k < to
        invariant
            start <= k <= to,
            to <= v@.len(),
            d == v@.subrange(start as int, to as int),
            s == v@.subrange(from as int, to as int),
            d == strip_plus(s),
            forall|i: int| start <= i < k ==> is_digit(#[trigger] v@[i]),
            !overflow ==> value as nat == digits_value(v@.subrange(start as int, k as int)),
            !overflow ==> value <= u32::MAX,
            overflow ==> digits_value(v@.subrange(start as int, k as int)) > u32::MAX,
        decreases to - k,
    {
        let c = v[k];
        if !('0' <= c && c <= '9') {
            assert(!is_digit(d[k - start]));
            return None;
        }
        let ghost prev = v@.subrange(start as int, k as int);
        assert(v@.subrange(start as int, k + 1).drop_last() =~= prev);
        if !overflow {
            let digit = (c as u32 - 48) as u64;
            value = value * 10 + digit;
            if value > 0xFFFF_FFFF {
                overflow = true;
            }
        }
        k = k + 1;
    }
    assert(v@.subrange(start as int, to as int) =~= d);
    assert forall|i: int| 0 <= i < d.len() implies is_digit(#[trigger] d[i]) by {
        assert(d[i] == v@[start + i]);
    }
    if overflow {
        None
    } else {
        Some(value as u32)
    }
}

/// The numeric components of a version name: its dot-separated parts that parse as
/// `u32`, in order.
pub open spec fn version_key(s: Seq<char>) -> Seq<u32>
    decreases s.len(),
{
    let k = first_index(s, '.');
    let here = match parse_u32_spec(s.take(k)) {
        Some(n) => seq![n],
        None => Seq::empty(),
    };
    if k >= s.len() || k < 0 {
        here
    } else {
        here + version_key(s.skip(k + 1))
    }
}

/// The numeric components of version name `name` (see [`version_key`]).
pub fn version_components(name: &str) -> (key: Vec<u32>)
    ensures
        key@ == version_key(name@),
{
    let v = chars_of(name);
    let mut key: Vec<u32> = Vec::new();
    let mut from: usize = 0;
    assert(v@.skip(0) =~= v@);
    loop
        invariant
            v@ == name@,
            from <= v@.len(),
            version_key(name@) == key@ + version_key(v@.skip(from as int)),
        decreases v@.len() - from,
    {
        let ghost rest = v@.skip(from as int);
        let dot = find_char(&v, from, '.');
        proof {
            lemma_first_index_bounds(rest, '.');
        }
        let ghost here_key = key@;
        match parse_u32_range(&v, from, dot) {
            Some(n) => {
                key.push(n);
            },
            None => {},
        }
        assert(rest.take(dot - from) =~= v@.subrange(from as int, dot as int));
        if dot == v.len() {
            assert(key@ =~= here_key + version_key(rest));
            return key;
        }
        assert(rest.skip(dot - from + 1) =~= v@.skip(dot + 1));
        assert(version_key(name@) =~= key@ + version_key(v@.skip(dot + 1)));
        from = dot + 1;
    }
}

/// Lexicographic order of numeric version components (the order of `Vec<u32>`).
pub open spec fn lex_lt(a: Seq<u32>, b: Seq<u32>) -> bool
    decreases a.len(),
{
    if a.len() == 0 {
        b.len() > 0
    } else if b.len() == 0 {
        false
    } else if a[0] < b[0] {
        true
    } else if a[0] > b[0] {
        false
    } else {
        lex_lt(a.drop_first(), b.drop_first())
    }
}

/// `lex_lt` is irreflexive.
pub proof fn lemma_lex_irreflexive(a: Seq<u32>)
    ensures
        !lex_lt(a, a),
    decreases a.len(),
{
    if a.len() > 0 {
        lemma_lex_irreflexive(a.drop_first());
    }
}

/// `lex_lt` is transitive.
pub proof fn lemma_lex_transitive(a: Seq<u32>, b: Seq<u32>, c: Seq<u32>)
    requires
        lex_lt(a, b),
        lex_lt(b, c),
    ensures
        lex_lt(a, c),
    decreases a.len(),
{
    if a.len() > 0 && b.len() > 0 && c.len() > 0 && a[0] == b[0] && b[0] == c[0] {
        lemma_lex_transitive(a.drop_first(), b.drop_first(), c.drop_first());
    }
}

/// `lex_lt` is total: of two different sequences, one is below the other.
pub proof fn lemma_lex_total(a: Seq<u32>, b: Seq<u32>)
    ensures
        a == b || lex_lt(a, b) || lex_lt(b, a),
    decreases a.len(),
{
    if a.len() > 0 && b.len() > 0 && a[0] == b[0] {
        lemma_lex_total(a.drop_first(), b.drop_first());
        if a.drop_first() == b.drop_first() {
            assert(a =~= seq![a[0]] + a.drop_first());
            assert(b =~= seq![b[0]] + b.drop_first());
        }
    } else if a.len() == 0 && b.len() == 0 {
        assert(a =~= b);
    }
}

/// Whether `a` comes before `b` in lexicographic order.
pub fn lex_less(a: &Vec<u32>, b: &Vec<u32>) -> (r: bool)
    ensures
        r == lex_lt(a@, b@),
{
    let mut i: usize = 0;
    assert(a@.skip(0) =~= a@);
    assert(b@.skip(0) =~= b@);
    while i < a.len() && i < b.len()
        invariant
            0 <= i <= a@.len(),
            i <= b@.len(),
            forall|j: int| 0 <= j < i ==> a@[j] == b@[j],
            lex_lt(a@, b@) == lex_lt(a@.skip(i as int), b@.skip(i as int)),
        decreases a@.len() - i,
    {
        if a[i] < b[i] {
            return true;
        }
        if a[i] > b[i] {
            return false;
        }
        assert(a@.skip(i as int).drop_first() =~= a@.skip(i + 1));
        assert(b@.skip(i as int).drop_first() =~= b@.skip(i + 1));
        i = i + 1;
    }
    i == a.len() && i < b.len()
}

} // verus!
