//! Wi-Fi captive portal helpers: parsing the credentials form (URL-encoded
//! or JSON) and the portal page.

use vstd::prelude::*;

use crate::text::{chars_of, owned, push_char, string_from_chars, trim_chars, trim_text};

verus! {

/// Whether `c` is a hexadecimal digit.
pub open spec fn is_hex(c: char) -> bool {
    let u = c as u32;
    (48 <= u && u <= 57) || (65 <= u && u <= 70) || (97 <= u && u <= 102)
}

/// The value of a hexadecimal digit.
pub open spec fn hex_value(c: char) -> nat {
    let u = c as u32;
    if 48 <= u && u <= 57 {
        (u - 48) as nat
    } else if 65 <= u && u <= 70 {
        (u - 55) as nat
    } else {
        (u - 87) as nat
    }
}

/// Whether `%ab` is an escape that std's `u8::from_str_radix(.., 16)`
/// reads: two hex digits, or `+` and one hex digit.
pub open spec fn escape_ok(a: char, b: char) -> bool {
    (is_hex(a) && is_hex(b)) || (a == '+' && is_hex(b))
}

/// The byte an escape stands for.
pub open spec fn escape_byte(a: char, b: char) -> u8 {
    if a == '+' {
        hex_value(b) as u8
    } else {
        (16 * hex_value(a) + hex_value(b)) as u8
    }
}

/// The hexadecimal digit for `v` (below 16): `0`-`9`, then `A`-`F` when
/// `upper`, `a`-`f` otherwise.
pub open spec fn hex_digit_char(v: nat, upper: bool) -> char {
    if upper {
        seq!['0', '1', '2', '3', '4', '5', '6', '7', '8', '9', 'A', 'B', 'C', 'D', 'E', 'F'][v as int]
    } else {
        seq!['0', '1', '2', '3', '4', '5', '6', '7', '8', '9', 'a', 'b', 'c', 'd', 'e', 'f'][v as int]
    }
}

proof fn lemma_hex_digit_char(v: nat, upper: bool)
    requires
        v < 16,
    ensures
        is_hex(hex_digit_char(v, upper)),
        hex_value(hex_digit_char(v, upper)) == v,
        hex_digit_char(v, upper) != '+',
{
    let tu = seq!['0', '1', '2', '3', '4', '5', '6', '7', '8', '9', 'A', 'B', 'C', 'D', 'E', 'F'];
    let tl = seq!['0', '1', '2', '3', '4', '5', '6', '7', '8', '9', 'a', 'b', 'c', 'd', 'e', 'f'];
    assert(is_hex(tu[0]) && hex_value(tu[0]) == 0 && tu[0] != '+');
    assert(is_hex(tu[1]) && hex_value(tu[1]) == 1 && tu[1] != '+');
    assert(is_hex(tu[2]) && hex_value(tu[2]) == 2 && tu[2] != '+');
    assert(is_hex(tu[3]) && hex_value(tu[3]) == 3 && tu[3] != '+');
    assert(is_hex(tu[4]) && hex_value(tu[4]) == 4 && tu[4] != '+');
    assert(is_hex(tu[5]) && hex_value(tu[5]) == 5 && tu[5] != '+');
    assert(is_hex(tu[6]) && hex_value(tu[6]) == 6 && tu[6] != '+');
    assert(is_hex(tu[7]) && hex_value(tu[7]) == 7 && tu[7] != '+');
    assert(is_hex(tu[8]) && hex_value(tu[8]) == 8 && tu[8] != '+');
    assert(is_hex(tu[9]) && hex_value(tu[9]) == 9 && tu[9] != '+');
    assert(is_hex(tu[10]) && hex_value(tu[10]) == 10 && tu[10] != '+');
    assert(is_hex(tu[11]) && hex_value(tu[11]) == 11 && tu[11] != '+');
    assert(is_hex(tu[12]) && hex_value(tu[12]) == 12 && tu[12] != '+');
    assert(is_hex(tu[13]) && hex_value(tu[13]) == 13 && tu[13] != '+');
    assert(is_hex(tu[14]) && hex_value(tu[14]) == 14 && tu[14] != '+');
    assert(is_hex(tu[15]) && hex_value(tu[15]) == 15 && tu[15] != '+');
    assert(is_hex(tl[0]) && hex_value(tl[0]) == 0 && tl[0] != '+');
    assert(is_hex(tl[1]) && hex_value(tl[1]) == 1 && tl[1] != '+');
    assert(is_hex(tl[2]) && hex_value(tl[2]) == 2 && tl[2] != '+');
    assert(is_hex(tl[3]) && hex_value(tl[3]) == 3 && tl[3] != '+');
    assert(is_hex(tl[4]) && hex_value(tl[4]) == 4 && tl[4] != '+');
    assert(is_hex(tl[5]) && hex_value(tl[5]) == 5 && tl[5] != '+');
    assert(is_hex(tl[6]) && hex_value(tl[6]) == 6 && tl[6] != '+');
    assert(is_hex(tl[7]) && hex_value(tl[7]) == 7 && tl[7] != '+');
    assert(is_hex(tl[8]) && hex_value(tl[8]) == 8 && tl[8] != '+');
    assert(is_hex(tl[9]) && hex_value(tl[9]) == 9 && tl[9] != '+');
    assert(is_hex(tl[10]) && hex_value(tl[10]) == 10 && tl[10] != '+');
    assert(is_hex(tl[11]) && hex_value(tl[11]) == 11 && tl[11] != '+');
    assert(is_hex(tl[12]) && hex_value(tl[12]) == 12 && tl[12] != '+');
    assert(is_hex(tl[13]) && hex_value(tl[13]) == 13 && tl[13] != '+');
    assert(is_hex(tl[14]) && hex_value(tl[14]) == 14 && tl[14] != '+');
    assert(is_hex(tl[15]) && hex_value(tl[15]) == 15 && tl[15] != '+');
}

/// A form-encoded byte decodes to the character with that code: for every
/// byte `b`, `%` followed by the two hexadecimal digits of `b` (in upper or
/// lower case) decodes to the single character `b`, and decoding goes on
/// after it.
pub proof fn lemma_percent_escape_decodes(b: u8, upper_high: bool, upper_low: bool, rest: Seq<char>)
    ensures
        url_decode_text(
            seq!['%', hex_digit_char((b / 16) as nat, upper_high), hex_digit_char((b % 16) as nat, upper_low)] + rest,
        ) == seq![b as char] + url_decode_text(rest),
{
    let hi = hex_digit_char((b / 16) as nat, upper_high);
    let lo = hex_digit_char((b % 16) as nat, upper_low);
    lemma_hex_digit_char((b / 16) as nat, upper_high);
    lemma_hex_digit_char((b % 16) as nat, upper_low);
    let s = seq!['%', hi, lo] + rest;
    assert(s[0] == '%' && s[1] == hi && s[2] == lo);
    assert(s.skip(3) =~= rest);
    assert(escape_byte(hi, lo) == b);
}

/// `application/x-www-form-urlencoded` decoding: `+` is a space, `%XX` is
/// the character with that byte value; a bad escape keeps `%` and the (up
/// to two) characters after it as they are.
pub open spec fn url_decode_text(s: Seq<char>) -> Seq<char>
    decreases s.len(),
{
    if s.len() == 0 {
        Seq::empty()
    } else if s[0] == '+' {
        seq![' '] + url_decode_text(s.drop_first())
    } else if s[0] == '%' {
        if s.len() >= 3 && escape_ok(s[1], s[2]) {
            seq![escape_byte(s[1], s[2]) as char] + url_decode_text(s.skip(3))
        } else {
            let k = if s.len() < 3 { s.len() as int } else { 3 };
            s.take(k) + url_decode_text(s.skip(k))
        }
    } else {
        seq![s[0]] + url_decode_text(s.drop_first())
    }
}

fn hex_digit(c: char) -> (r: Option<u8>)
    ensures
        r is Some <==> is_hex(c),
        r matches Some(v) ==> v == hex_value(c),
{
    let u = c as u32;
    if 48 <= u && u <= 57 {
        Some((u - 48) as u8)
    } else if 65 <= u && u <= 70 {
        Some((u - 55) as u8)
    } else if 97 <= u && u <= 102 {
        Some((u - 87) as u8)
    } else {
        None
    }
}

fn url_decode(value: &str) -> (out: String)
    ensures
        out@ == url_decode_text(value@),
{
    let v = chars_of(value);
    let n = v.len();
    let mut out = String::new();
    let mut i: usize = 0;
    assert(v@.skip(0) =~= v@);
    while i < n
        invariant
            n == v@.len(),
            v@ == value@,
            i <= n,
            out@ + url_decode_text(v@.skip(i as int)) == url_decode_text(value@),
        decreases n - i,
    {
        let ghost rest = v@.skip(i as int);
        let c = v[i];
        assert(rest[0] == c);
        if c == '+' {
            push_char(&mut out, ' ');
            assert(rest.drop_first() =~= v@.skip(i + 1));
            i += 1;
        } else if c == '%' {
            let mut ok = false;
            if n - i > 2 {
                let a = v[i + 1];
                let b = v[i + 2];
                assert(rest[1] == a && rest[2] == b);
                match (hex_digit(a), hex_digit(b)) {
                    (Some(x), Some(y)) => {
                        push_char(&mut out, (16 * x + y) as char);
                        ok = true;
                    },
                    (None, Some(y)) => {
                        if a == '+' {
                            push_char(&mut out, y as char);
                            ok = true;
                        }
                    },
                    _ => {},
                }
            }
            if ok {
                assert(rest.skip(3) =~= v@.skip(i + 3));
                i += 3;
            } else {
                let k: usize = if n - i < 3 { n - i } else { 3 };
                let mut j: usize = 0;
                let ghost base = out@;
                while j < k
                    invariant
                        j <= k,
                        k <= n - i,
                        n == v@.len(),
                        out@ == base + rest.take(j as int),
                        rest == v@.skip(i as int),
                    decreases k - j,
                {
                    push_char(&mut out, v[i + j]);
                    assert(rest.take(j as int + 1) =~= rest.take(j as int).push(v@[i + j]));
                    j += 1;
                }
                assert(rest.skip(k as int) =~= v@.skip(i + k));
                i += k;
            }
        } else {
            push_char(&mut out, c);
            assert(rest.drop_first() =~= v@.skip(i + 1));
            i += 1;
        }
    }
    assert(v@.skip(n as int) =~= Seq::<char>::empty());
    assert(out@ =~= url_decode_text(value@));
    out
}

/// The index of the first `c` in `s`, or its length.
pub open spec fn index_of_char(s: Seq<char>, c: char) -> int
    decreases s.len(),
{
    if s.len() == 0 {
        0
    } else if s[0] == c {
        0
    } else {
        1 + index_of_char(s.drop_first(), c)
    }
}

pub proof fn lemma_index_of_char(s: Seq<char>, c: char)
    ensures
        0 <= index_of_char(s, c) <= s.len(),
        index_of_char(s, c) < s.len() ==> s[index_of_char(s, c)] == c,
        forall|i: int| 0 <= i < index_of_char(s, c) ==> #[trigger] s[i] != c,
    decreases s.len(),
{
    if s.len() > 0 && s[0] != c {
        let t = s.drop_first();
        lemma_index_of_char(t, c);
        assert forall|i: int| 0 <= i < index_of_char(s, c) implies #[trigger] s[i] != c by {
            if i > 0 {
                assert(s[i] == t[i - 1]);
            }
        }
    }
}

pub(crate) fn find_char(s: &[char], c: char) -> (i: usize)
    ensures
        i == index_of_char(s@, c),
        i <= s.len(),
{
    let mut i: usize = 0;
    while i < s.len() && s[i] != c
        invariant
            i <= s.len(),
            forall|j: int| 0 <= j < i ==> #[trigger] s@[j] != c,
        decreases s.len() - i,
    {
        i += 1;
    }
    proof {
        lemma_index_of_char(s@, c);
        let d = index_of_char(s@, c);
        if d < i {
            assert(s@[d] == c);
        } else if d > i {
            assert(s@[i as int] != c);
        }
    }
    i
}

/// The key of a form pair: the text before the first `=`.
pub open spec fn pair_key(p: Seq<char>) -> Seq<char> {
    p.take(index_of_char(p, '='))
}

/// The raw value of a form pair: the text after the first `=`, if any.
pub open spec fn pair_value(p: Seq<char>) -> Seq<char> {
    if index_of_char(p, '=') < p.len() {
        p.skip(index_of_char(p, '=') + 1)
    } else {
        Seq::empty()
    }
}

/// The decoded value of the last `key=value` pair with the given key in the
/// `&`-separated pairs of `s`, read left to right from `acc`.
pub open spec fn form_field_from(s: Seq<char>, key: Seq<char>, acc: Option<Seq<char>>) -> Option<Seq<char>>
    decreases s.len(),
{
    let i = index_of_char(s, '&');
    let pair = s.take(i);
    let acc2 = if pair_key(pair) == key { Some(url_decode_text(pair_value(pair))) } else { acc };
    if i >= s.len() {
        acc2
    } else {
        proof {
            lemma_index_of_char(s, '&');
        }
        form_field_from(s.skip(i + 1), key, acc2)
    }
}

/// The decoded value of the last pair with the given key in a form body.
pub open spec fn form_field(body: Seq<char>, key: Seq<char>) -> Option<Seq<char>> {
    form_field_from(body, key, None)
}

/// The text of a JSON document's string member: `None` when the text is not
/// JSON, `Some(None)` when the document has no such member or it is not a
/// string (serde_json's `from_str::<Value>`, then `Value::get`, `as_str`).
pub uninterp spec fn json_text_member(body: Seq<char>, key: Seq<char>) -> Option<Option<Seq<char>>>;

/// The view of a nested optional string.
pub open spec fn opt_opt_text(r: Option<Option<String>>) -> Option<Option<Seq<char>>> {
    match r {
        None => None,
        Some(None) => Some(None),
        Some(Some(s)) => Some(Some(s@)),
    }
}

/// serde_json: parses `body` as a JSON value and reads the string member
/// `key` (`serde_json::from_str::<serde_json::Value>`, `Value::get`,
/// `Value::as_str`). Its result is named, not described: this library does
/// not restate JSON.
#[verifier::external_body]
fn json_member(body: &str, key: &str) -> (r: Option<Option<String>>)
    ensures
        opt_opt_text(r) == json_text_member(body@, key@),
{
    let value: serde_json::Value = match serde_json::from_str(body) {
        Ok(v) => v,
        Err(_) => return None,
    };
    Some(value.get(key).and_then(|v| v.as_str()).map(|s| s.to_string()))
}

/// The credentials that a JSON document's `ssid` and `password` members
/// give: a string `ssid` is required; a `password` that is missing or not a
/// string is empty.
pub open spec fn credentials_of(
    ssid: Option<Option<Seq<char>>>,
    password: Option<Option<Seq<char>>>,
) -> Option<(Seq<char>, Seq<char>)> {
    match ssid {
        Some(Some(s)) => Some((s, match password {
            Some(Some(p)) => p,
            _ => Seq::empty(),
        })),
        _ => None,
    }
}

/// The credentials that the looked-up `ssid` and `password` members of a
/// JSON document give (each `None` when the text is not JSON, `Some(None)`
/// when the member is missing or not a string).
pub fn credentials_from_members(
    ssid: Option<Option<String>>,
    password: Option<Option<String>>,
) -> (r: Option<(String, String)>)
    ensures
        match r {
            Some((s, p)) => credentials_of(opt_opt_text(ssid), opt_opt_text(password)) == Some((s@, p@)),
            None => credentials_of(opt_opt_text(ssid), opt_opt_text(password)) is None,
        },
{
    match ssid {
        Some(Some(s)) => {
            let p = match password {
                Some(Some(p)) => p,
                _ => String::new(),
            };
            Some((s, p))
        },
        _ => None,
    }
}

/// The credentials a portal body carries, once trimmed: none for an empty
/// body; a body starting with `{` is JSON with a string `ssid` and an
/// optional string `password`; otherwise the form fields `ssid` and
/// `password` (missing password: empty).
pub open spec fn wifi_payload_of(body: Seq<char>) -> Option<(Seq<char>, Seq<char>)> {
    let b = trim_text(body);
    if b.len() == 0 {
        None
    } else if b[0] == '{' {
        credentials_of(json_text_member(b, "ssid"@), json_text_member(b, "password"@))
    } else {
        match form_field(b, "ssid"@) {
            Some(ssid) => Some((ssid, match form_field(b, "password"@) {
                Some(p) => p,
                None => Seq::empty(),
            })),
            None => None,
        }
    }
}

fn form_field_of(body: &[char], key: &str) -> (r: Option<String>)
    ensures
        match r {
            Some(s) => form_field(body@, key@) == Some(s@),
            None => form_field(body@, key@) is None,
        },
{
    let key_chars = chars_of(key);
    let mut found: Option<String> = None;
    let mut start: usize = 0;
    let n = body.len();
    assert(body@.skip(0) =~= body@);
    loop
        invariant
            start <= n,
            n == body@.len(),
            key_chars@ == key@,
            form_field_from(body@.skip(start as int), key@, match found { Some(s) => Some(s@), None => None })
                == form_field(body@, key@),
        decreases n - start,
    {
        let rest = &body[start..n];
        assert(rest@ =~= body@.skip(start as int));
        let i = find_char(rest, '&');
        let pair = &rest[0..i];
        let eq = find_char(pair, '=');
        let k = &pair[0..eq];
        assert(k@ =~= pair_key(pair@));
        if crate::text::chars_equal(k, key_chars.as_slice()) {
            let value: &[char] = if eq < pair.len() { &pair[eq + 1..pair.len()] } else { &pair[0..0] };
            assert(value@ =~= pair_value(pair@));
            let raw = string_from_chars(value);
            found = Some(url_decode(raw.as_str()));
        }
        assert(pair@ =~= rest@.take(i as int));
        if i >= rest.len() {
            return found;
        }
        assert(rest@.skip(i + 1) =~= body@.skip(start + i + 1));
        start = start + i + 1;
    }
}

/// Parse the captive-portal POST body into `(ssid, password)`.
///
/// Supports both `application/x-www-form-urlencoded` (from the built-in
/// HTML form) and JSON `{"ssid":"...","password":"..."}`.
pub fn parse_wifi_payload(body: &str) -> (r: Option<(String, String)>)
    ensures
        match r {
            Some((s, p)) => wifi_payload_of(body@) == Some((s@, p@)),
            None => wifi_payload_of(body@) is None,
        },
{
    let all = chars_of(body);
    let b = trim_chars(all.as_slice());
    if b.len() == 0 {
        return None;
    }
    if b[0] == '{' {
        let text = string_from_chars(b.as_slice());
        let ssid = json_member(text.as_str(), "ssid");
        let password = json_member(text.as_str(), "password");
        return credentials_from_members(ssid, password);
    }
    match form_field_of(b.as_slice(), "ssid") {
        Some(ssid) => {
            let password = match form_field_of(b.as_slice(), "password") {
                Some(p) => p,
                None => String::new(),
            };
            Some((ssid, password))
        },
        None => None,
    }
}


/// Text that form encoding leaves alone decodes to itself: without `%` and
/// `+`, decoding changes nothing.
pub proof fn lemma_plain_text_decodes_to_itself(s: Seq<char>)
    requires
        forall|i: int| 0 <= i < s.len() ==> s[i] != '%' && s[i] != '+',
    ensures
        url_decode_text(s) == s,
    decreases s.len(),
{
    if s.len() > 0 {
        let t = s.drop_first();
        assert forall|i: int| 0 <= i < t.len() implies t[i] != '%' && t[i] != '+' by {
            assert(t[i] == s[i + 1]);
        }
        lemma_plain_text_decodes_to_itself(t);
        assert(seq![s[0]] + t =~= s);
    }
}

proof fn lemma_index_of_char_after(x: Seq<char>, y: Seq<char>, c: char)
    requires
        forall|i: int| 0 <= i < x.len() ==> x[i] != c,
    ensures
        index_of_char(x + y, c) == x.len() + index_of_char(y, c),
    decreases x.len(),
{
    if x.len() == 0 {
        assert(x + y =~= y);
    } else {
        assert((x + y)[0] == x[0]);
        let t = x.drop_first();
        assert forall|i: int| 0 <= i < t.len() implies t[i] != c by {
            assert(t[i] == x[i + 1]);
        }
        lemma_index_of_char_after(t, y, c);
        assert((x + y).drop_first() =~= t + y);
    }
}

proof fn lemma_index_of_char_absent(x: Seq<char>, c: char)
    requires
        forall|i: int| 0 <= i < x.len() ==> x[i] != c,
    ensures
        index_of_char(x, c) == x.len(),
{
    lemma_index_of_char_after(x, Seq::empty(), c);
    assert(x + Seq::<char>::empty() =~= x);
}

/// A value the portal's form posts unchanged: no `&`, `=`, `%` or `+`.
pub open spec fn plain_form_value(v: Seq<char>) -> bool {
    forall|i: int| 0 <= i < v.len() ==> v[i] != '&' && v[i] != '=' && v[i] != '%' && v[i] != '+'
}

/// The body the portal's form posts for a network name and password.
pub open spec fn form_submission(ssid: Seq<char>, password: Seq<char>) -> Seq<char> {
    "ssid="@ + ssid + "&password="@ + password
}

proof fn lemma_plain_pair(key: Seq<char>, v: Seq<char>)
    requires
        plain_form_value(v),
        forall|i: int| 0 <= i < key.len() ==> key[i] != '&' && key[i] != '=',
    ensures
        index_of_char(key + seq!['='] + v, '&') == (key + seq!['='] + v).len(),
        pair_key(key + seq!['='] + v) == key,
        pair_value(key + seq!['='] + v) == v,
        url_decode_text(pair_value(key + seq!['='] + v)) == v,
{
    let p = key + seq!['='] + v;
    assert forall|i: int| 0 <= i < p.len() implies p[i] != '&' by {
        if i < key.len() {
            assert(p[i] == key[i]);
        } else if i > key.len() {
            assert(p[i] == v[i - key.len() - 1]);
        }
    }
    lemma_index_of_char_absent(p, '&');
    lemma_index_of_char_after(key, seq!['='] + v, '=');
    assert(key + seq!['='] + v =~= key + (seq!['='] + v));
    assert(index_of_char(seq!['='] + v, '=') == 0);
    assert(p.take(key.len() as int) =~= key);
    assert(p.skip(key.len() as int + 1) =~= v);
    lemma_plain_text_decodes_to_itself(v);
}

/// What the portal's form posts is what the portal reads: for plain values
/// (and a password that does not end in white space, which trimming the
/// body would drop), parsing the submission gives back the network name and
/// the password.
pub proof fn lemma_form_submission_round_trip(ssid: Seq<char>, password: Seq<char>)
    requires
        plain_form_value(ssid),
        plain_form_value(password),
        password.len() == 0 || !crate::text::is_white(password.last()),
    ensures
        wifi_payload_of(form_submission(ssid, password)) == Some((ssid, password)),
{
    reveal_strlit("ssid=");
    reveal_strlit("&password=");
    reveal_strlit("ssid");
    reveal_strlit("password");
    let k1 = "ssid"@;
    let k2 = "password"@;
    let p1 = k1 + seq!['='] + ssid;
    let p2 = k2 + seq!['='] + password;
    let body = form_submission(ssid, password);
    assert(body =~= p1 + seq!['&'] + p2);
    lemma_plain_pair(k1, ssid);
    lemma_plain_pair(k2, password);
    // Trimming leaves the body alone.
    assert(!crate::text::is_white(body[0]));
    assert(crate::text::trim_start_text(body) == body);
    assert(body.last() == (if password.len() == 0 { '=' } else { password.last() }));
    assert(crate::text::trim_end_text(body) == body);
    assert(crate::text::trim_text(body) == body);
    assert(body[0] != '{');
    // The pairs of the body.
    assert forall|i: int| 0 <= i < p1.len() implies p1[i] != '&' by {
        if i < 4 {
            assert(p1[i] == k1[i]);
        } else if i > 4 {
            assert(p1[i] == ssid[i - 5]);
        }
    }
    lemma_index_of_char_after(p1, seq!['&'] + p2, '&');
    assert(p1 + seq!['&'] + p2 =~= p1 + (seq!['&'] + p2));
    assert(index_of_char(seq!['&'] + p2, '&') == 0);
    let i = index_of_char(body, '&');
    assert(i == p1.len());
    assert(body.take(i) =~= p1);
    assert(body.skip(i + 1) =~= p2);
    assert(p2.take(p2.len() as int) =~= p2);
    assert(k1 != k2) by {
        assert(k1.len() != k2.len());
    }
    assert(form_field_from(p2, k1, Some(ssid)) == Some(ssid));
    assert(form_field(body, k1) == Some(ssid));
    assert(form_field_from(p2, k2, None) == Some(password));
    assert(form_field(body, k2) == Some(password));
}

/// How the portal answers a credentials submission.
#[derive(Debug)]
pub struct PortalReply {
    /// The credentials to save (then restart), if the body carried them.
    pub credentials: Option<(String, String)>,
    /// HTTP status.
    pub status: u16,
    /// Plain-text body.
    pub message: &'static str,
}

/// Answer a `POST /wifi` body: credentials are saved with `200 Saved.
/// Restarting...`; a body without them gets `400 Invalid payload`.
pub fn handle_portal_submission(body: &str) -> (r: PortalReply)
    ensures
        match wifi_payload_of(body@) {
            Some((ssid, password)) => r.credentials matches Some((s, p)) && s@ == ssid && p@ == password
                && r.status == 200 && r.message@ == "Saved. Restarting..."@,
            None => r.credentials is None && r.status == 400 && r.message@ == "Invalid payload"@,
        },
{
    match parse_wifi_payload(body) {
        Some(creds) => PortalReply { credentials: Some(creds), status: 200, message: "Saved. Restarting..." },
        None => PortalReply { credentials: None, status: 400, message: "Invalid payload" },
    }
}

/// The captive portal HTML page served in AP mode.
pub open spec fn portal_page_text() -> Seq<char> {
    r#"<!doctype html>
<html lang="en">
<head>
  <meta charset="utf-8" />
  <meta name="viewport" content="width=device-width,initial-scale=1" />
  <title>Winderoo WiFi Setup</title>
  <style>
    body { font-family: system-ui, -apple-system, sans-serif; margin: 2rem; }
    label { display: block; margin-top: 1rem; }
    input { width: 100%; padding: .6rem; font-size: 1rem; }
    button { margin-top: 1.2rem; padding: .8rem 1rem; font-size: 1rem; }
    .hint { color: #666; font-size: .9rem; }
  </style>
</head>
<body>
  <h2>Winderoo WiFi Setup</h2>
  <p class="hint">Enter your WiFi credentials to connect this device.</p>
  <form method="post" action="/wifi">
    <label>SSID
      <input name="ssid" autocomplete="off" required />
    </label>
    <label>Password
      <input name="password" type="password" autocomplete="off" />
    </label>
    <button type="submit">Save &amp; Restart</button>
  </form>
</body>
</html>"#@
}

/// The captive portal HTML page served in AP mode.
pub fn config_portal_page() -> (page: &'static str)
    ensures
        page@ == portal_page_text(),
{
    r#"<!doctype html>
<html lang="en">
<head>
  <meta charset="utf-8" />
  <meta name="viewport" content="width=device-width,initial-scale=1" />
  <title>Winderoo WiFi Setup</title>
  <style>
    body { font-family: system-ui, -apple-system, sans-serif; margin: 2rem; }
    label { display: block; margin-top: 1rem; }
    input { width: 100%; padding: .6rem; font-size: 1rem; }
    button { margin-top: 1.2rem; padding: .8rem 1rem; font-size: 1rem; }
    .hint { color: #666; font-size: .9rem; }
  </style>
</head>
<body>
  <h2>Winderoo WiFi Setup</h2>
  <p class="hint">Enter your WiFi credentials to connect this device.</p>
  <form method="post" action="/wifi">
    <label>SSID
      <input name="ssid" autocomplete="off" required />
    </label>
    <label>Password
      <input name="password" type="password" autocomplete="off" />
    </label>
    <button type="submit">Save &amp; Restart</button>
  </form>
</body>
</html>"#
}

} // verus!
