//! Decisions of the ESP32 runtime: query flags of API requests, the static
//! asset a request names and the headers it is served with, the device id,
//! the Wi-Fi authentication mode, and the main loop's schedule.

use vstd::prelude::*;

use crate::embassy::http::truthy;
use crate::text::{chars_equal, chars_of, owned, push_char, string_from_chars};
use crate::wifi_portal::{find_char, index_of_char, lemma_index_of_char};

verus! {

/// The query of a URI: the text after its first `?`, up to the next `?`.
pub open spec fn query_of(uri: Seq<char>) -> Option<Seq<char>> {
    let i = index_of_char(uri, '?');
    if i >= uri.len() {
        None
    } else {
        let rest = uri.skip(i + 1);
        Some(rest.take(index_of_char(rest, '?')))
    }
}

/// The flag of the first `key=value` pair of a query whose key is `key`;
/// the value ends at a further `=`, and reads as `true` when it is `1`,
/// `true`, `True` or `TRUE`.
pub open spec fn query_flag_from(q: Seq<char>, key: Seq<char>) -> Option<bool>
    decreases q.len(),
{
    let i = index_of_char(q, '&');
    let part = q.take(i);
    let eq = index_of_char(part, '=');
    if eq < part.len() && part.take(eq) == key {
        let v = part.skip(eq + 1);
        Some(truthy(v.take(index_of_char(v, '='))))
    } else if i >= q.len() {
        None
    } else {
        proof {
            lemma_index_of_char(q, '&');
        }
        query_flag_from(q.skip(i + 1), key)
    }
}

/// The flag a URI's query gives `key`, if any.
pub open spec fn query_flag(uri: Seq<char>, key: Seq<char>) -> Option<bool> {
    match query_of(uri) {
        Some(q) => query_flag_from(q, key),
        None => None,
    }
}

fn sub_chars(v: &[char], a: usize, b: usize) -> (r: &[char])
    requires
        a <= b <= v.len(),
    ensures
        r@ == v@.subrange(a as int, b as int),
{
    let r = &v[a..b];
    assert(r@ =~= v@.subrange(a as int, b as int));
    r
}

fn truthy_chars(v: &[char]) -> (b: bool)
    ensures
        b == truthy(v@),
{
    let s = string_from_chars(v);
    crate::embassy::http::parse_bool_any(s.as_str())
}

/// Read a boolean query parameter of a request URI.
pub fn parse_query_bool(uri: &str, key: &str) -> (r: Option<bool>)
    ensures
        r == query_flag(uri@, key@),
{
    let u = chars_of(uri);
    let key_chars = chars_of(key);
    let q_start = find_char(u.as_slice(), '?');
    proof {
        lemma_index_of_char(u@, '?');
    }
    if q_start >= u.len() {
        return None;
    }
    let rest = sub_chars(u.as_slice(), q_start + 1, u.len());
    assert(rest@ =~= u@.skip(q_start + 1));
    let q_len = find_char(rest, '?');
    let q = sub_chars(rest, 0, q_len);
    assert(q@ =~= rest@.take(q_len as int));
    let n = q.len();
    let mut start: usize = 0;
    assert(q@.skip(0) =~= q@);
    loop
        invariant
            start <= n,
            n == q@.len(),
            key_chars@ == key@,
            query_of(uri@) == Some(q@),
            query_flag_from(q@.skip(start as int), key@) == query_flag(uri@, key@),
        decreases n - start,
    {
        let tail = sub_chars(q, start, n);
        assert(tail@ =~= q@.skip(start as int));
        let i = find_char(tail, '&');
        let part = sub_chars(tail, 0, i);
        assert(part@ =~= tail@.take(i as int));
        let eq = find_char(part, '=');
        if eq < part.len() {
            let k = sub_chars(part, 0, eq);
            assert(k@ =~= part@.take(eq as int));
            if chars_equal(k, key_chars.as_slice()) {
                let v = sub_chars(part, eq + 1, part.len());
                assert(v@ =~= part@.skip(eq + 1));
                let v_len = find_char(v, '=');
                let value = sub_chars(v, 0, v_len);
                assert(value@ =~= v@.take(v_len as int));
                return Some(truthy_chars(value));
            }
        }
        if i >= tail.len() {
            return None;
        }
        assert(tail@.skip(i + 1) =~= q@.skip(start + i + 1));
        start = start + i + 1;
    }
}

/// `s` without its leading `/` characters.
pub open spec fn trim_leading_slashes(s: Seq<char>) -> Seq<char>
    decreases s.len(),
{
    if s.len() > 0 && s[0] == '/' {
        trim_leading_slashes(s.drop_first())
    } else {
        s
    }
}

/// Whether `s` contains `..`.
pub open spec fn has_dot_dot(s: Seq<char>) -> bool {
    exists|i: int| 0 <= i && i + 1 < s.len() && s[i] == '.' && #[trigger] s[i + 1] == '.'
}

/// The path of a request URI before any `?`, without leading `/`, and
/// `index.html` when that is empty.
pub open spec fn asset_candidate(uri: Seq<char>) -> Seq<char> {
    let p = trim_leading_slashes(uri.take(index_of_char(uri, '?')));
    if p.len() == 0 {
        "index.html"@
    } else {
        p
    }
}

/// The asset path a request URI names: the path before any `?`, without
/// leading `/`, `index.html` when empty; no asset when it contains `..`.
pub open spec fn asset_path_of(uri: Seq<char>) -> Option<Seq<char>> {
    let path = asset_candidate(uri);
    if has_dot_dot(path) {
        None
    } else {
        Some(path)
    }
}

/// The asset path, relative to the web root, that a request URI names.
pub fn asset_request_path(uri: &str) -> (r: Option<String>)
    ensures
        match asset_path_of(uri@) {
            Some(p) => r matches Some(s) && s@ == p,
            None => r is None,
        },
{
    let u = chars_of(uri);
    let end = find_char(u.as_slice(), '?');
    let mut start: usize = 0;
    let path_chars = sub_chars(u.as_slice(), 0, end);
    assert(path_chars@ =~= u@.take(end as int));
    assert(path_chars@.skip(0) =~= path_chars@);
    while start < path_chars.len() && path_chars[start] == '/'
        invariant
            start <= path_chars@.len(),
            trim_leading_slashes(path_chars@.skip(start as int)) == trim_leading_slashes(path_chars@),
        decreases path_chars@.len() - start,
    {
        assert(path_chars@.skip(start as int).drop_first() =~= path_chars@.skip(start + 1));
        start += 1;
    }
    let trimmed = sub_chars(path_chars, start, path_chars.len());
    assert(trimmed@ =~= path_chars@.skip(start as int));
    assert(trim_leading_slashes(trimmed@) == trimmed@);
    assert(trimmed@ == trim_leading_slashes(uri@.take(index_of_char(uri@, '?'))));
    let path: String = if trimmed.len() == 0 {
        owned("index.html")
    } else {
        string_from_chars(trimmed)
    };
    let pv = chars_of(path.as_str());
    assert(asset_candidate(uri@) == path@);
    let mut i: usize = 0;
    while i < pv.len() && pv.len() - i > 1
        invariant
            i <= pv.len(),
            pv@ == path@,
            asset_candidate(uri@) == path@,
            forall|j: int| 0 <= j < i ==> !(#[trigger] pv@[j] == '.' && pv@[j + 1] == '.'),
        decreases pv.len() - i,
    {
        if pv[i] == '.' && pv[i + 1] == '.' {
            assert(has_dot_dot(path@)) by {
                assert(path@[i as int] == '.' && path@[i + 1] == '.');
            }
            return None;
        }
        i += 1;
    }
    assert(!has_dot_dot(path@)) by {
        if has_dot_dot(path@) {
            let k = choose|k: int| 0 <= k && k + 1 < path@.len() && path@[k] == '.' && #[trigger] path@[k + 1] == '.';
            assert(pv@[k] == '.' && pv@[k + 1] == '.');
        }
    }
    Some(path)
}

/// The CORS header that allows every origin.
pub fn cors_allow_origin() -> (h: (&'static str, &'static str))
    ensures
        h.0@ == "Access-Control-Allow-Origin"@,
        h.1@ == "*"@,
{
    ("Access-Control-Allow-Origin", "*")
}

/// The CORS header that lists the API's methods.
pub fn cors_allow_methods() -> (h: (&'static str, &'static str))
    ensures
        h.0@ == "Access-Control-Allow-Methods"@,
        h.1@ == "GET,POST,OPTIONS"@,
{
    ("Access-Control-Allow-Methods", "GET,POST,OPTIONS")
}

/// The CORS header that lists the request headers the API accepts.
pub fn cors_allow_headers() -> (h: (&'static str, &'static str))
    ensures
        h.0@ == "Access-Control-Allow-Headers"@,
        h.1@ == "Content-Type, Access-Control-Allow-Headers, Authorization, X-Requested-With"@,
{
    ("Access-Control-Allow-Headers", "Content-Type, Access-Control-Allow-Headers, Authorization, X-Requested-With")
}

/// A `Cache-Control` header with the given value.
pub fn cache_control(value: &'static str) -> (h: (&'static str, &'static str))
    ensures
        h.0@ == "Cache-Control"@,
        h.1 == value,
{
    ("Cache-Control", value)
}

/// The headers a static asset is served with.
#[derive(Debug)]
pub struct AssetMeta {
    /// MIME type of the asset.
    pub content_type: &'static str,
    /// `Cache-Control` value.
    pub cache_control: &'static str,
    /// `Content-Encoding` value; empty for an uncompressed file.
    pub content_encoding: &'static str,
}

/// The MIME type of a file extension.
pub open spec fn content_type_of(ext: Seq<char>) -> Seq<char> {
    if ext == "html"@ || ext == "htm"@ {
        "text/html"@
    } else if ext == "css"@ {
        "text/css"@
    } else if ext == "js"@ {
        "application/javascript"@
    } else if ext == "json"@ {
        "application/json"@
    } else if ext == "ico"@ {
        "image/x-icon"@
    } else if ext == "svg"@ {
        "image/svg+xml"@
    } else if ext == "png"@ {
        "image/png"@
    } else if ext == "jpg"@ || ext == "jpeg"@ {
        "image/jpeg"@
    } else {
        "application/octet-stream"@
    }
}

/// Scripts and stylesheets are cached for a year, everything else is not.
pub open spec fn cache_control_of(ext: Seq<char>) -> Seq<char> {
    if ext == "js"@ || ext == "css"@ {
        "max-age=31536000"@
    } else {
        "no-cache"@
    }
}

fn content_type_for(ext: &str) -> (t: &'static str)
    ensures
        t@ == content_type_of(ext@),
{
    if crate::text::str_eq(ext, "html") || crate::text::str_eq(ext, "htm") {
        "text/html"
    } else if crate::text::str_eq(ext, "css") {
        "text/css"
    } else if crate::text::str_eq(ext, "js") {
        "application/javascript"
    } else if crate::text::str_eq(ext, "json") {
        "application/json"
    } else if crate::text::str_eq(ext, "ico") {
        "image/x-icon"
    } else if crate::text::str_eq(ext, "svg") {
        "image/svg+xml"
    } else if crate::text::str_eq(ext, "png") {
        "image/png"
    } else if crate::text::str_eq(ext, "jpg") || crate::text::str_eq(ext, "jpeg") {
        "image/jpeg"
    } else {
        "application/octet-stream"
    }
}

/// The headers of an asset whose file has extension `ext` (for a gzipped
/// file, the extension under `.gz`).
pub fn asset_meta(ext: &str, gzipped: bool) -> (m: AssetMeta)
    ensures
        m.content_type@ == content_type_of(ext@),
        m.cache_control@ == cache_control_of(ext@),
        m.content_encoding@ == (if gzipped { "gzip"@ } else { ""@ }),
{
    let content_type = content_type_for(ext);
    let cache_control = if crate::text::str_eq(ext, "js") || crate::text::str_eq(ext, "css") {
        "max-age=31536000"
    } else {
        "no-cache"
    };
    let content_encoding = if gzipped { "gzip" } else { "" };
    AssetMeta { content_type, cache_control, content_encoding }
}

/// The upper-case hexadecimal digit of `d`.
pub open spec fn hex_upper(d: int) -> char {
    if d < 10 {
        (48 + d) as char
    } else {
        (55 + d) as char
    }
}

/// The device id: `winderoo-` and the last three bytes of the station MAC
/// address in upper-case hexadecimal.
pub open spec fn device_id_of(mac: Seq<u8>) -> Seq<char> {
    "winderoo-"@ + seq![
        hex_upper(mac[3] as int / 16),
        hex_upper(mac[3] as int % 16),
        hex_upper(mac[4] as int / 16),
        hex_upper(mac[4] as int % 16),
        hex_upper(mac[5] as int / 16),
        hex_upper(mac[5] as int % 16),
    ]
}

fn push_hex_digit(s: &mut String, d: u8)
    requires
        d < 16,
    ensures
        final(s)@ == old(s)@.push(hex_upper(d as int)),
{
    let c = if d < 10 { (48 + d) as char } else { (55 + d) as char };
    push_char(s, c);
}

/// The device id of a station MAC address.
pub fn device_id(mac: &[u8; 6]) -> (id: String)
    ensures
        id@ == device_id_of(mac@),
{
    let mut id = owned("winderoo-");
    push_hex_digit(&mut id, mac[3] / 16);
    push_hex_digit(&mut id, mac[3] % 16);
    push_hex_digit(&mut id, mac[4] / 16);
    push_hex_digit(&mut id, mac[4] % 16);
    push_hex_digit(&mut id, mac[5] / 16);
    push_hex_digit(&mut id, mac[5] % 16);
    assert(id@ =~= device_id_of(mac@));
    id
}

/// The authentication mode of a Wi-Fi network.
#[derive(Debug, Clone, Copy, PartialEq, Eq, Structural)]
pub enum WifiAuth {
    /// An open network.
    Open,
    /// WPA2 with a pre-shared key.
    Wpa2Personal,
}

/// The authentication a network with this password uses: open when the
/// password is empty, WPA2 otherwise.
pub fn auth_method_for(password: &str) -> (a: WifiAuth)
    ensures
        a == (if password@.len() == 0 { WifiAuth::Open } else { WifiAuth::Wpa2Personal }),
{
    let v = chars_of(password);
    if v.len() == 0 {
        WifiAuth::Open
    } else {
        WifiAuth::Wpa2Personal
    }
}

/// Milliseconds between two controller ticks of the main loop.
pub const TICK_INTERVAL_MS: u64 = 1000;

/// Milliseconds between two Home Assistant state publications.
pub const STATE_PUBLISH_INTERVAL_MS: u64 = 5000;

/// What the main loop does on a pass.
#[derive(Debug, Clone, Copy, PartialEq, Eq, Structural)]
pub struct LoopDue {
    /// Run a controller tick.
    pub tick: bool,
    /// Publish the state to Home Assistant.
    pub publish_state: bool,
}

/// What is due on a pass of the main loop, given the milliseconds since the
/// last tick and since the last publication.
pub fn loop_due(since_tick_ms: u64, since_publish_ms: u64) -> (d: LoopDue)
    ensures
        d.tick == (since_tick_ms >= TICK_INTERVAL_MS),
        d.publish_state == (since_publish_ms >= STATE_PUBLISH_INTERVAL_MS),
{
    LoopDue { tick: since_tick_ms >= TICK_INTERVAL_MS, publish_state: since_publish_ms >= STATE_PUBLISH_INTERVAL_MS }
}

} // verus!
