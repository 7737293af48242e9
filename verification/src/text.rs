//! Character-level helpers: conversion between strings and character
//! sequences, decimal numbers, and literal comparisons.

use vstd::prelude::*;

verus! {

/// Appends one character to a string (`String::push`).
#[verifier::external_body]
pub(crate) fn push_char(s: &mut String, c: char)
    ensures
        final(s)@ == old(s)@.push(c),
{
    s.push(c);
}

/// The characters of a string slice, in order.
pub fn chars_of(s: &str) -> (v: Vec<char>)
    ensures
        v@ == s@,
{
    let mut v: Vec<char> = Vec::new();
    for c in it: s.chars()
        invariant
            v@ == it.seq().take(it.index() as int),
            it.seq() == s@,
    {
        v.push(c);
    }
    v
}

/// A string holding exactly the given characters.
pub fn string_from_chars(v: &[char]) -> (s: String)
    ensures
        s@ == v@,
{
    let mut s = String::new();
    let mut i: usize = 0;
    while i < v.len()
        invariant
            i <= v.len(),
            s@ == v@.take(i as int),
        decreases v.len() - i,
    {
        push_char(&mut s, v[i]);
        proof {
            assert(v@.take(i as int + 1) =~= v@.take(i as int).push(v@[i as int]));
        }
        i += 1;
    }
    proof {
        assert(v@.take(v@.len() as int) =~= v@);
    }
    s
}

/// Whether two character slices hold the same characters.
pub fn chars_equal(a: &[char], b: &[char]) -> (r: bool)
    ensures
        r == (a@ == b@),
{
    if a.len() != b.len() {
        return false;
    }
    let mut i: usize = 0;
    while i < a.len()
        invariant
            a.len() == b.len(),
            i <= a.len(),
            forall|j: int| 0 <= j < i ==> a@[j] == b@[j],
        decreases a.len() - i,
    {
        if a[i] != b[i] {
            return false;
        }
        i += 1;
    }
    proof {
        assert(a@ =~= b@);
    }
    true
}

/// Whether two strings hold the same characters.
pub fn str_eq(a: &str, b: &str) -> (r: bool)
    ensures
        r == (a@ == b@),
{
    let va = chars_of(a);
    let vb = chars_of(b);
    chars_equal(va.as_slice(), vb.as_slice())
}

/// Whether `s` ends with the characters of `suffix`.
pub open spec fn seq_ends_with(s: Seq<char>, suffix: Seq<char>) -> bool {
    suffix.len() <= s.len() && s.subrange(s.len() - suffix.len(), s.len() as int) == suffix
}

/// Whether the characters `s` end with the characters of the string `suffix`.
pub fn chars_end_with(s: &[char], suffix: &str) -> (r: bool)
    ensures
        r == seq_ends_with(s@, suffix@),
{
    let suf = chars_of(suffix);
    if suf.len() > s.len() {
        return false;
    }
    let off = s.len() - suf.len();
    let mut i: usize = 0;
    while i < suf.len()
        invariant
            suf@ == suffix@,
            off + suf@.len() == s@.len(),
            i <= suf.len(),
            forall|j: int| 0 <= j < i ==> s@[off + j] == suf@[j],
        decreases suf.len() - i,
    {
        assert(off + i < s.len());
        if s[off + i] != suf[i] {
            assert(s@.subrange(off as int, s@.len() as int)[i as int] != suffix@[i as int]);
            return false;
        }
        i += 1;
    }
    assert(s@.subrange(off as int, s@.len() as int) =~= suffix@);
    true
}

/// Whether the decimal digit `c` is an ASCII digit.
pub open spec fn is_digit(c: char) -> bool {
    48 <= (c as u32) <= 57
}

/// The value of an ASCII digit.
pub open spec fn digit_value(c: char) -> nat {
    ((c as u32) - 48) as nat
}

/// Whether every character of `s` is an ASCII digit.
pub open spec fn all_digits(s: Seq<char>) -> bool {
    forall|i: int| 0 <= i < s.len() ==> is_digit(#[trigger] s[i])
}

/// The value of a string of decimal digits, most significant first.
pub open spec fn digits_value(s: Seq<char>) -> nat
    decreases s.len(),
{
    if s.len() == 0 {
        0
    } else {
        digits_value(s.drop_last()) * 10 + digit_value(s.last())
    }
}

/// The digits that std's unsigned `FromStr` reads: one leading `+` is
/// skipped when something follows it.
pub open spec fn unsigned_digits(s: Seq<char>) -> Seq<char> {
    if s.len() > 1 && s[0] == '+' {
        s.drop_first()
    } else {
        s
    }
}

/// Decimal parsing of an unsigned integer no larger than `max`, as std's
/// `FromStr` for `u8`, `u16` and `u32` does it: an optional `+`, then at
/// least one ASCII digit and nothing else.
pub open spec fn parse_unsigned(s: Seq<char>, max: nat) -> Option<nat> {
    let d = unsigned_digits(s);
    if d.len() > 0 && all_digits(d) && digits_value(d) <= max {
        Some(digits_value(d))
    } else {
        None
    }
}

/// The prefix of a digit string never exceeds the whole.
pub proof fn lemma_digits_prefix_le(s: Seq<char>, j: int)
    requires
        all_digits(s),
        0 <= j <= s.len(),
    ensures
        digits_value(s.subrange(0, j)) <= digits_value(s),
    decreases s.len(),
{
    if j < s.len() {
        let t = s.drop_last();
        assert(all_digits(t));
        lemma_digits_prefix_le(t, j);
        assert(t.subrange(0, j) =~= s.subrange(0, j));
    } else {
        assert(s.subrange(0, j) =~= s);
    }
}

/// Whether every character is an ASCII digit.
pub fn chars_all_digits(v: &[char]) -> (r: bool)
    ensures
        r == all_digits(v@),
{
    let mut i: usize = 0;
    while i < v.len()
        invariant
            i <= v.len(),
            forall|j: int| 0 <= j < i ==> is_digit(#[trigger] v@[j]),
        decreases v.len() - i,
    {
        let cu = v[i] as u32;
        if cu < 48 || cu > 57 {
            assert(!is_digit(v@[i as int]));
            return false;
        }
        i += 1;
    }
    true
}

/// The value of a run of decimal digits whose value fits in `u64`.
pub fn chars_digits_value(v: &[char]) -> (r: u64)
    requires
        all_digits(v@),
        digits_value(v@) <= u64::MAX,
    ensures
        r == digits_value(v@),
{
    let mut acc: u64 = 0;
    let mut i: usize = 0;
    while i < v.len()
        invariant
            i <= v.len(),
            all_digits(v@),
            digits_value(v@) <= u64::MAX,
            acc == digits_value(v@.take(i as int)),
        decreases v.len() - i,
    {
        proof {
            lemma_digits_prefix_le(v@, i + 1);
            assert(v@.take(i as int + 1).drop_last() =~= v@.take(i as int));
            assert(v@.subrange(0, i as int + 1) =~= v@.take(i as int + 1));
        }
        let d = (v[i] as u32 - 48) as u64;
        acc = acc * 10 + d;
        i += 1;
    }
    assert(v@.take(v@.len() as int) =~= v@);
    acc
}

/// Decimal parsing of an unsigned integer no larger than `max`.
pub fn parse_unsigned_str(s: &str, max: u32) -> (r: Option<u32>)
    ensures
        match parse_unsigned(s@, max as nat) {
            Some(v) => r == Some(v as u32),
            None => r is None,
        },
{
    let v = chars_of(s);
    let n = v.len();
    let mut start: usize = 0;
    if n > 1 && v[0] == '+' {
        start = 1;
    }
    let ghost d = unsigned_digits(s@);
    assert(d =~= v@.subrange(start as int, n as int));
    if start >= n {
        return None;
    }
    let mut acc: u64 = 0;
    let mut i: usize = start;
    while i < n
        invariant
            v@ == s@,
            n == v@.len(),
            start <= i <= n,
            d == v@.subrange(start as int, n as int),
            d == unsigned_digits(s@),
            d.len() > 0,
            all_digits(v@.subrange(start as int, i as int)),
            acc as nat == digits_value(v@.subrange(start as int, i as int)),
            acc <= max,
        decreases n - i,
    {
        let c = v[i];
        let cu = c as u32;
        if cu < 48 || cu > 57 {
            assert(d[i - start] == c);
            assert(!is_digit(d[i - start]));
            return None;
        }
        let dv: u64 = (cu - 48) as u64;
        proof {
            let p = v@.subrange(start as int, i as int + 1);
            assert(p.drop_last() =~= v@.subrange(start as int, i as int));
            assert(p.last() == c);
            assert(all_digits(p));
        }
        acc = acc * 10 + dv;
        if acc > max as u64 {
            proof {
                if all_digits(d) {
                    lemma_digits_prefix_le(d, i - start + 1);
                    assert(d.subrange(0, i - start + 1) =~= v@.subrange(start as int, i as int + 1));
                }
            }
            return None;
        }
        i += 1;
    }
    Some(acc as u32)
}

/// The ASCII digit for `d < 10`.
pub open spec fn digit_char(d: nat) -> char {
    ((d + 48) as u8) as char
}

/// The shortest decimal text of `n`, as std's `Display` writes it.
pub open spec fn decimal_text(n: nat) -> Seq<char>
    decreases n,
{
    if n < 10 {
        seq![digit_char(n)]
    } else {
        decimal_text(n / 10).push(digit_char(n % 10))
    }
}

/// Two-digit, zero-padded decimal text (`{:02}`).
pub open spec fn pad2_text(n: nat) -> Seq<char> {
    if n < 10 {
        seq!['0'].push(digit_char(n))
    } else {
        decimal_text(n)
    }
}

/// Decimal text of a signed integer.
pub open spec fn signed_text(n: int) -> Seq<char> {
    if n < 0 {
        seq!['-'] + decimal_text((-n) as nat)
    } else {
        decimal_text(n as nat)
    }
}

/// Decimal text is a non-empty run of digits whose value is the number.
pub proof fn lemma_decimal_text_digits(n: nat)
    ensures
        decimal_text(n).len() > 0,
        all_digits(decimal_text(n)),
        digits_value(decimal_text(n)) == n,
    decreases n,
{
    if n < 10 {
        let t = decimal_text(n);
        assert(t.drop_last() =~= Seq::<char>::empty());
        assert(((n + 48) as u8) as char as u32 == n + 48);
        assert(digit_value(t.last()) == n);
        assert(digits_value(t) == digits_value(t.drop_last()) * 10 + digit_value(t.last()));
        assert(digits_value(Seq::<char>::empty()) == 0);
    } else {
        lemma_decimal_text_digits(n / 10);
        let t = decimal_text(n);
        assert(t.drop_last() =~= decimal_text(n / 10));
        assert((((n % 10) + 48) as u8) as char as u32 == (n % 10) + 48);
        assert(digit_value(t.last()) == n % 10);
        assert(digits_value(t) == digits_value(t.drop_last()) * 10 + digit_value(t.last()));
        assert(n == (n / 10) * 10 + n % 10);
    }
}

/// Decimal parsing gives back the number that decimal text was made of.
pub proof fn lemma_parse_decimal_text(n: nat, max: nat)
    requires
        n <= max,
    ensures
        parse_unsigned(decimal_text(n), max) == Some(n),
{
    lemma_decimal_text_digits(n);
    assert(is_digit(decimal_text(n)[0]));
    assert(unsigned_digits(decimal_text(n)) == decimal_text(n));
}

/// Parsing gives back the number that two-digit text was made of.
pub proof fn lemma_parse_pad2_text(n: nat, max: nat)
    requires
        n <= max,
        n < 100,
    ensures
        parse_unsigned(pad2_text(n), max) == Some(n),
        pad2_text(n).len() == 2,
        all_digits(pad2_text(n)),
{
    lemma_decimal_text_digits(n);
    if n < 10 {
        let t = pad2_text(n);
        assert(t.drop_last() =~= seq!['0']);
        assert(seq!['0'].drop_last() =~= Seq::<char>::empty());
        assert(((n + 48) as u8) as char as u32 == n + 48);
        assert(digit_value(t.last()) == n);
        assert(digits_value(seq!['0']) == digits_value(seq!['0'].drop_last()) * 10 + digit_value('0'));
        assert(digits_value(seq!['0']) == 0);
        assert(digits_value(t) == digits_value(t.drop_last()) * 10 + digit_value(t.last()));
        assert(is_digit(t[0]) && is_digit(t[1]));
        assert(unsigned_digits(t) == t);
    } else {
        lemma_parse_decimal_text(n, max);
        assert(decimal_text(n / 10).len() == 1);
    }
}

/// Appends the decimal text of `n`.
pub fn push_decimal(s: &mut String, n: u64)
    ensures
        final(s)@ == old(s)@ + decimal_text(n as nat),
    decreases n,
{
    if n >= 10 {
        push_decimal(s, n / 10);
    }
    let d: u8 = (n % 10) as u8;
    push_char(s, (d + 48) as char);
    proof {
        if n >= 10 {
            assert(decimal_text(n as nat) == decimal_text((n / 10) as nat).push(digit_char((n % 10) as nat)));
        }
    }
    assert(final(s)@ =~= old(s)@ + decimal_text(n as nat));
}

/// Decimal text of `n`.
pub fn decimal_string(n: u64) -> (s: String)
    ensures
        s@ == decimal_text(n as nat),
{
    let mut s = String::new();
    push_decimal(&mut s, n);
    assert(s@ =~= decimal_text(n as nat));
    s
}

/// Two-digit, zero-padded decimal text of `n`.
pub fn pad2_string(n: u8) -> (s: String)
    ensures
        s@ == pad2_text(n as nat),
{
    let mut s = String::new();
    if n < 10 {
        push_char(&mut s, '0');
        push_char(&mut s, (n + 48) as char);
        assert(s@ =~= pad2_text(n as nat));
    } else {
        push_decimal(&mut s, n as u64);
        assert(s@ =~= pad2_text(n as nat));
    }
    s
}

/// Appends the decimal text of a signed integer.
pub fn push_signed(s: &mut String, n: i64)
    ensures
        final(s)@ == old(s)@ + signed_text(n as int),
{
    if n < 0 {
        push_char(s, '-');
        let m: u64 = if n == i64::MIN { 9223372036854775808u64 } else { (-n) as u64 };
        push_decimal(s, m);
        assert(final(s)@ =~= old(s)@ + signed_text(n as int));
    } else {
        push_decimal(s, n as u64);
    }
}

/// Decimal text of a signed integer.
pub fn signed_string(n: i64) -> (s: String)
    ensures
        s@ == signed_text(n as int),
{
    let mut s = String::new();
    push_signed(&mut s, n);
    assert(s@ =~= signed_text(n as int));
    s
}

/// The boolean named by a flag text: `1`, `true`, `True`, `TRUE` or `0`,
/// `false`, `False`, `FALSE`.
pub open spec fn flag_of_text(s: Seq<char>) -> Option<bool> {
    if s == "1"@ || s == "true"@ || s == "True"@ || s == "TRUE"@ {
        Some(true)
    } else if s == "0"@ || s == "false"@ || s == "False"@ || s == "FALSE"@ {
        Some(false)
    } else {
        None
    }
}

/// Parse a boolean flag text.
pub fn parse_flag(s: &str) -> (r: Option<bool>)
    ensures
        r == flag_of_text(s@),
{
    if str_eq(s, "1") || str_eq(s, "true") || str_eq(s, "True") || str_eq(s, "TRUE") {
        Some(true)
    } else if str_eq(s, "0") || str_eq(s, "false") || str_eq(s, "False") || str_eq(s, "FALSE") {
        Some(false)
    } else {
        None
    }
}

/// An owned copy of a string slice.
pub fn owned(s: &str) -> (r: String)
    ensures
        r@ == s@,
{
    s.to_owned()
}

/// Appends a string slice.
pub fn push_str(s: &mut String, t: &str)
    ensures
        final(s)@ == old(s)@ + t@,
{
    let v = chars_of(t);
    let ghost base = s@;
    let mut i: usize = 0;
    while i < v.len()
        invariant
            i <= v.len(),
            v@ == t@,
            s@ == base + v@.take(i as int),
        decreases v.len() - i,
    {
        push_char(s, v[i]);
        assert(v@.take(i as int + 1) =~= v@.take(i as int).push(v@[i as int]));
        i += 1;
    }
    assert(v@.take(v@.len() as int) =~= v@);
}

/// Unicode white space, as `char::is_whitespace` defines it (the
/// `White_Space` property).
pub open spec fn is_white(c: char) -> bool {
    let u = c as u32;
    (0x09 <= u && u <= 0x0D) || u == 0x20 || u == 0x85 || u == 0xA0 || u == 0x1680
        || (0x2000 <= u && u <= 0x200A) || u == 0x2028 || u == 0x2029 || u == 0x202F
        || u == 0x205F || u == 0x3000
}

/// `s` without its leading white space.
pub open spec fn trim_start_text(s: Seq<char>) -> Seq<char>
    decreases s.len(),
{
    if s.len() > 0 && is_white(s[0]) {
        trim_start_text(s.drop_first())
    } else {
        s
    }
}

/// `s` without its trailing white space.
pub open spec fn trim_end_text(s: Seq<char>) -> Seq<char>
    decreases s.len(),
{
    if s.len() > 0 && is_white(s.last()) {
        trim_end_text(s.drop_last())
    } else {
        s
    }
}

/// `s` without leading and trailing white space (`str::trim`).
pub open spec fn trim_text(s: Seq<char>) -> Seq<char> {
    trim_end_text(trim_start_text(s))
}

fn is_white_char(c: char) -> (r: bool)
    ensures
        r == is_white(c),
{
    let u = c as u32;
    (0x09 <= u && u <= 0x0D) || u == 0x20 || u == 0x85 || u == 0xA0 || u == 0x1680
        || (0x2000 <= u && u <= 0x200A) || u == 0x2028 || u == 0x2029 || u == 0x202F
        || u == 0x205F || u == 0x3000
}

proof fn lemma_trim_start_skip(s: Seq<char>, i: int)
    requires
        0 <= i <= s.len(),
        forall|j: int| 0 <= j < i ==> is_white(#[trigger] s[j]),
    ensures
        trim_start_text(s) == trim_start_text(s.skip(i)),
    decreases i,
{
    if i > 0 {
        assert(s.skip(1) =~= s.drop_first());
        lemma_trim_start_skip(s.drop_first(), i - 1);
        assert(s.drop_first().skip(i - 1) =~= s.skip(i));
    } else {
        assert(s.skip(0) =~= s);
    }
}

proof fn lemma_trim_end_take(s: Seq<char>, i: int)
    requires
        0 <= i <= s.len(),
        forall|j: int| i <= j < s.len() ==> is_white(#[trigger] s[j]),
    ensures
        trim_end_text(s) == trim_end_text(s.take(i)),
    decreases s.len() - i,
{
    if i < s.len() {
        lemma_trim_end_take(s.drop_last(), i);
        assert(s.drop_last().take(i) =~= s.take(i));
    } else {
        assert(s.take(i) =~= s);
    }
}

/// The characters of `s` without leading and trailing white space.
pub fn trim_chars(s: &[char]) -> (r: Vec<char>)
    ensures
        r@ == trim_text(s@),
{
    let n = s.len();
    let mut a: usize = 0;
    while a < n && is_white_char(s[a])
        invariant
            a <= n,
            n == s@.len(),
            forall|j: int| 0 <= j < a ==> is_white(#[trigger] s@[j]),
        decreases n - a,
    {
        a += 1;
    }
    proof {
        lemma_trim_start_skip(s@, a as int);
        if a < n {
            assert(!is_white(s@.skip(a as int)[0]));
        }
    }
    let ghost mid = s@.skip(a as int);
    assert(trim_start_text(s@) == mid);
    let mut b: usize = n;
    while b > a && is_white_char(s[b - 1])
        invariant
            a <= b <= n,
            n == s@.len(),
            mid == s@.skip(a as int),
            forall|j: int| b - a <= j < mid.len() ==> is_white(#[trigger] mid[j]),
        decreases b,
    {
        assert(mid[b - 1 - a] == s@[b - 1]);
        b -= 1;
    }
    proof {
        lemma_trim_end_take(mid, b - a);
        let t = mid.take(b - a);
        if b > a {
            assert(t.last() == s@[b - 1]);
        }
    }
    let mut r: Vec<char> = Vec::new();
    let mut i: usize = a;
    while i < b
        invariant
            a <= i <= b <= n,
            n == s@.len(),
            r@ == s@.subrange(a as int, i as int),
        decreases b - i,
    {
        r.push(s[i]);
        assert(s@.subrange(a as int, i as int + 1) =~= s@.subrange(a as int, i as int).push(s@[i as int]));
        i += 1;
    }
    assert(r@ =~= mid.take(b - a));
    r
}

/// Decoding of UTF-8 bytes (`core::str::from_utf8`): `Some` exactly for
/// valid UTF-8, holding the decoded characters.
#[verifier::external_body]
pub(crate) fn utf8_text(bytes: &[u8]) -> (r: Option<&str>)
    ensures
        r is Some <==> vstd::utf8::valid_utf8(bytes@),
        r matches Some(s) ==> s@ == vstd::utf8::decode_utf8(bytes@),
{
    match core::str::from_utf8(bytes) {
        Ok(s) => Some(s),
        Err(_) => None,
    }
}

} // verus!
