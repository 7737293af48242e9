//! Time of day, `HH:MM` text, and epoch conversions with a UTC offset.

use vstd::prelude::*;

use crate::text::{
    all_digits, decimal_text, digits_value, is_digit, lemma_decimal_text_digits, push_decimal,
    chars_of, pad2_string, pad2_text, parse_unsigned, parse_unsigned_str, push_char,
    string_from_chars,
};

verus! {

/// Errors returned when parsing or constructing a [`TimeOfDay`].
#[derive(Debug, Clone, PartialEq, Eq)]
pub enum TimeError {
    /// Hour was outside the 0-23 range.
    InvalidHour(u8),
    /// Minute was outside the 0-59 range.
    InvalidMinute(u8),
    /// The input string was not in the expected `HH:MM` format.
    InvalidFormat(String),
}

/// Mathematical model of a [`TimeError`].
pub enum TimeErrorModel {
    InvalidHour(u8),
    InvalidMinute(u8),
    InvalidFormat(Seq<char>),
}

impl View for TimeError {
    type V = TimeErrorModel;

    open spec fn view(&self) -> TimeErrorModel {
        match self {
            TimeError::InvalidHour(h) => TimeErrorModel::InvalidHour(*h),
            TimeError::InvalidMinute(m) => TimeErrorModel::InvalidMinute(*m),
            TimeError::InvalidFormat(s) => TimeErrorModel::InvalidFormat(s@),
        }
    }
}

/// A 24-hour clock time without a date or timezone.
#[derive(Debug, Clone, Copy, PartialEq, Eq, Structural)]
pub struct TimeOfDay {
    /// Hour in 24-hour form (0-23).
    pub hour: u8,
    /// Minute (0-59).
    pub minute: u8,
}

impl TimeOfDay {
    /// A valid time of day has hour 0-23 and minute 0-59.
    pub open spec fn valid(self) -> bool {
        self.hour <= 23 && self.minute <= 59
    }

    /// Minutes since midnight.
    pub open spec fn minutes_of_day(self) -> int {
        self.hour * 60 + self.minute
    }
}

/// The result of constructing a time of day from an hour and a minute.
pub open spec fn time_new_result(hour: u8, minute: u8) -> Result<TimeOfDay, TimeErrorModel> {
    if hour > 23 {
        Err(TimeErrorModel::InvalidHour(hour))
    } else if minute > 59 {
        Err(TimeErrorModel::InvalidMinute(minute))
    } else {
        Ok(TimeOfDay { hour, minute })
    }
}

/// The view of a time result.
pub open spec fn time_result_view(r: Result<TimeOfDay, TimeError>) -> Result<TimeOfDay, TimeErrorModel> {
    match r {
        Ok(t) => Ok(t),
        Err(e) => Err(e@),
    }
}

/// Whether `s` holds no `:`.
pub open spec fn no_colon(s: Seq<char>) -> bool {
    forall|i: int| 0 <= i < s.len() ==> s[i] != ':'
}

/// Whether position `k` holds the one and only `:` of `s`.
pub open spec fn single_colon_at(s: Seq<char>, k: int) -> bool {
    0 <= k < s.len() && s[k] == ':' && no_colon(s.take(k)) && no_colon(s.skip(k + 1))
}

/// Parsing of `HH:MM` text: exactly one `:`, an unsigned 8-bit decimal on each
/// side, then the range checks of [`TimeOfDay::new`].
pub open spec fn parse_hh_mm_result(s: Seq<char>) -> Result<TimeOfDay, TimeErrorModel> {
    if exists|k: int| single_colon_at(s, k) {
        let k = choose|k: int| single_colon_at(s, k);
        match (parse_unsigned(s.take(k), 255), parse_unsigned(s.skip(k + 1), 255)) {
            (Some(h), Some(m)) => time_new_result(h as u8, m as u8),
            _ => Err(TimeErrorModel::InvalidFormat(s)),
        }
    } else {
        Err(TimeErrorModel::InvalidFormat(s))
    }
}

/// The zero-padded `HH:MM` text of a time.
pub open spec fn hh_mm_text(t: TimeOfDay) -> Seq<char> {
    pad2_text(t.hour as nat) + seq![':'] + pad2_text(t.minute as nat)
}

impl TimeOfDay {
    /// Construct a new [`TimeOfDay`] after validating the hour and minute ranges.
    pub fn new(hour: u8, minute: u8) -> (r: Result<Self, TimeError>)
        ensures
            time_result_view(r) == time_new_result(hour, minute),
    {
        if hour > 23 {
            return Err(TimeError::InvalidHour(hour));
        }
        if minute > 59 {
            return Err(TimeError::InvalidMinute(minute));
        }
        Ok(Self { hour, minute })
    }

    /// Parse a `HH:MM` string into a [`TimeOfDay`].
    pub fn parse_hh_mm(input: &str) -> (r: Result<Self, TimeError>)
        ensures
            time_result_view(r) == parse_hh_mm_result(input@),
    {
        let v = chars_of(input);
        let n = v.len();
        let mut colons: usize = 0;
        let mut first: usize = 0;
        let mut i: usize = 0;
        while i < n
            invariant
                n == v@.len(),
                i <= n,
                colons <= i,
                colons == 0 ==> no_colon(v@.take(i as int)),
                colons >= 1 ==> first < i && v@[first as int] == ':' && no_colon(v@.take(first as int)),
                colons == 1 ==> no_colon(v@.subrange(first as int + 1, i as int)),
                colons >= 2 ==> !no_colon(v@.subrange(first as int + 1, i as int)),
            decreases n - i,
        {
            if v[i] == ':' {
                if colons == 0 {
                    first = i;
                    assert(v@.take(i as int) =~= v@.take(first as int));
                } else {
                    assert(v@.subrange(first as int + 1, i as int + 1)[i - first - 1] == ':');
                }
                colons += 1;
            } else {
                proof {
                    if colons == 0 {
                        assert forall|j: int| 0 <= j < i + 1 implies #[trigger] v@.take(i as int + 1)[j] != ':' by {
                            if j < i {
                                assert(v@.take(i as int)[j] == v@[j]);
                            }
                        }
                    }
                    if colons == 1 {
                        assert forall|j: int| 0 <= j < i - first implies
                            #[trigger] v@.subrange(first as int + 1, i as int + 1)[j] != ':' by {
                            if j < i - first - 1 {
                                assert(v@.subrange(first as int + 1, i as int)[j] == v@[first + 1 + j]);
                            }
                        }
                    }
                    if colons >= 2 {
                        let a = v@.subrange(first as int + 1, i as int);
                        let b = v@.subrange(first as int + 1, i as int + 1);
                        let j = choose|j: int| 0 <= j < a.len() && a[j] == ':';
                        assert(b[j] == a[j]);
                    }
                }
            }
            i += 1;
        }
        proof {
            assert(v@.take(n as int) =~= v@);
            assert(v@ == input@);
            if colons == 1 {
                assert(v@.skip(first + 1) =~= v@.subrange(first as int + 1, n as int));
                assert(single_colon_at(input@, first as int));
                assert forall|k: int| single_colon_at(input@, k) implies k == first by {
                    if k < first {
                        assert(input@.take(first as int)[k] == ':');
                    } else if k > first {
                        assert(input@.skip(k + 1) == input@.skip(k + 1));
                        assert(input@.take(k)[first as int] == ':');
                    }
                }
            } else if colons == 0 {
                assert forall|k: int| !single_colon_at(input@, k) by {
                    if 0 <= k < input@.len() {
                        assert(input@.take(n as int)[k] == input@[k]);
                    }
                }
            } else {
                assert forall|k: int| !single_colon_at(input@, k) by {
                    if single_colon_at(input@, k) {
                        let a = v@.subrange(first as int + 1, n as int);
                        let j = choose|j: int| 0 <= j < a.len() && a[j] == ':';
                        if k < first {
                            assert(input@.skip(k + 1)[first - k - 1] == ':');
                        } else if k == first {
                            assert(input@.skip(k + 1)[j] == ':');
                        } else {
                            assert(input@.take(k)[first as int] == ':');
                        }
                    }
                }
            }
        }
        if colons != 1 {
            return Err(TimeError::InvalidFormat(string_from_chars(v.as_slice())));
        }
        let hour_text = string_from_chars(&v.as_slice()[0..first]);
        let minute_text = string_from_chars(&v.as_slice()[first + 1..n]);
        assert(hour_text@ =~= input@.take(first as int));
        assert(minute_text@ =~= input@.skip(first + 1));
        let hour = match parse_unsigned_str(hour_text.as_str(), 255) {
            Some(h) => h as u8,
            None => return Err(TimeError::InvalidFormat(string_from_chars(v.as_slice()))),
        };
        let minute = match parse_unsigned_str(minute_text.as_str(), 255) {
            Some(m) => m as u8,
            None => return Err(TimeError::InvalidFormat(string_from_chars(v.as_slice()))),
        };
        Self::new(hour, minute)
    }

    /// Render the time as a zero-padded `HH:MM` string.
    pub fn to_hh_mm(&self) -> (s: String)
        ensures
            s@ == hh_mm_text(*self),
    {
        let mut s = pad2_string(self.hour);
        push_char(&mut s, ':');
        let m = pad2_string(self.minute);
        let mut i: usize = 0;
        let mv = chars_of(m.as_str());
        let ghost base = s@;
        while i < mv.len()
            invariant
                i <= mv.len(),
                s@ == base + mv@.take(i as int),
            decreases mv.len() - i,
        {
            push_char(&mut s, mv[i]);
            assert(mv@.take(i as int + 1) =~= mv@.take(i as int).push(mv@[i as int]));
            i += 1;
        }
        assert(mv@.take(mv@.len() as int) =~= mv@);
        assert(s@ =~= hh_mm_text(*self));
        s
    }

    /// Total minutes since midnight.
    pub fn total_minutes(&self) -> (m: u16)
        ensures
            m as int == self.hour * 60 + self.minute,
    {
        (self.hour as u16) * 60 + (self.minute as u16)
    }
}

/// `HH:MM` text parses back to the time it was made from.
pub proof fn lemma_hh_mm_round_trip(t: TimeOfDay)
    requires
        t.valid(),
    ensures
        parse_hh_mm_result(hh_mm_text(t)) == Ok::<TimeOfDay, TimeErrorModel>(t),
{
    crate::text::lemma_parse_pad2_text(t.hour as nat, 255);
    crate::text::lemma_parse_pad2_text(t.minute as nat, 255);
    let s = hh_mm_text(t);
    let h = pad2_text(t.hour as nat);
    let m = pad2_text(t.minute as nat);
    assert(s.take(2) =~= h);
    assert(s.skip(3) =~= m);
    assert forall|i: int| 0 <= i < 2 implies #[trigger] h[i] != ':' by {
        assert(crate::text::is_digit(h[i]));
    }
    assert forall|i: int| 0 <= i < 2 implies #[trigger] m[i] != ':' by {
        assert(crate::text::is_digit(m[i]));
    }
    assert(single_colon_at(s, 2));
    assert forall|k: int| single_colon_at(s, k) implies k == 2 by {
        if k < 2 {
            assert(s[k] == h[k]);
        } else if k > 2 {
            assert(s[k] == m[k - 3]);
        }
    }
}

/// The offset from UTC in seconds, with one hour more when DST applies.
pub open spec fn offset_secs_of(gmt_offset_secs: i32, dst: bool) -> int {
    gmt_offset_secs + if dst { 3600int } else { 0int }
}

/// The local time of day of a UTC epoch under an offset.
pub open spec fn local_time_of_day(epoch: u64, gmt_offset_secs: i32, dst: bool) -> TimeOfDay {
    let secs = (epoch + offset_secs_of(gmt_offset_secs, dst)) % 86400;
    TimeOfDay { hour: (secs / 3600) as u8, minute: ((secs % 3600) / 60) as u8 }
}

/// The shifted ("local") epoch: `0` stays `0`, results at or below zero
/// become `0`, and a result beyond `u64::MAX` wraps as the cast to `u64` does.
pub open spec fn local_epoch(epoch: u64, gmt_offset_secs: i32, dst: bool) -> u64 {
    let adjusted = epoch + offset_secs_of(gmt_offset_secs, dst);
    if epoch == 0 {
        0
    } else if adjusted <= 0 {
        0
    } else if adjusted > u64::MAX {
        (adjusted - 0x1_0000_0000_0000_0000) as u64
    } else {
        adjusted as u64
    }
}

/// The UTC offset in seconds, with one more hour when DST applies.
pub fn offset_seconds(gmt_offset_secs: i32, dst: bool) -> (r: i64)
    ensures
        r == offset_secs_of(gmt_offset_secs, dst),
{
    let mut offset = gmt_offset_secs as i64;
    if dst {
        offset += 3600;
    }
    offset
}

/// Convert a UTC epoch into a local [`TimeOfDay`] using a UTC offset (in
/// seconds) and a DST flag.
pub fn time_of_day_from_epoch(epoch: u64, gmt_offset_secs: i32, dst: bool) -> (t: TimeOfDay)
    ensures
        t == local_time_of_day(epoch, gmt_offset_secs, dst),
        t.valid(),
{
    let adjusted: i128 = (epoch as i128) + (offset_seconds(gmt_offset_secs, dst) as i128);
    // Shift by a whole number of days so the remainder is taken of a non-negative value.
    let shifted: i128 = adjusted + 86_400 * 25_000;
    let seconds_in_day: i128 = shifted % 86_400;
    proof {
        vstd::arithmetic::div_mod::lemma_mod_multiples_vanish(25_000, adjusted as int, 86_400);
    }
    let hour = (seconds_in_day / 3600) as u8;
    let minute = ((seconds_in_day % 3600) / 60) as u8;
    TimeOfDay { hour, minute }
}

/// Convert a UTC epoch into a "local epoch" by applying the configured UTC
/// offset and DST flag. `0` means "unset" and is returned unchanged; results
/// at or below zero are clamped to `0`.
pub fn epoch_with_offset(epoch: u64, gmt_offset_secs: i32, dst: bool) -> (r: u64)
    ensures
        r == local_epoch(epoch, gmt_offset_secs, dst),
{
    if epoch == 0 {
        return 0;
    }
    let adjusted: i128 = (epoch as i128) + (offset_seconds(gmt_offset_secs, dst) as i128);
    if adjusted <= 0 {
        0
    } else if adjusted > 0xFFFF_FFFF_FFFF_FFFFi128 {
        (adjusted - 0x1_0000_0000_0000_0000i128) as u64
    } else {
        adjusted as u64
    }
}

/// `10` to the power `k`.
pub open spec fn pow10(k: nat) -> nat
    decreases k,
{
    if k == 0 {
        1
    } else {
        10 * pow10((k - 1) as nat)
    }
}

/// The index of the first `.` in `s`, or its length when there is none.
pub open spec fn dot_index(s: Seq<char>) -> int
    decreases s.len(),
{
    if s.len() == 0 {
        0
    } else if s[0] == '.' {
        0
    } else {
        1 + dot_index(s.drop_first())
    }
}

/// An offset text without its sign.
pub open spec fn offset_body(s: Seq<char>) -> Seq<char> {
    if s.len() > 0 && (s[0] == '+' || s[0] == '-') {
        s.drop_first()
    } else {
        s
    }
}

/// The whole-hours digits of an offset body.
pub open spec fn offset_int_part(b: Seq<char>) -> Seq<char> {
    b.take(dot_index(b))
}

/// The fraction digits of an offset body (after the first `.`).
pub open spec fn offset_frac_part(b: Seq<char>) -> Seq<char> {
    if dot_index(b) < b.len() {
        b.skip(dot_index(b) + 1)
    } else {
        Seq::empty()
    }
}

/// The index of the first exponent mark (`e` or `E`) in `s`, or its length
/// when there is none.
pub open spec fn exp_index(s: Seq<char>) -> int
    decreases s.len(),
{
    if s.len() == 0 {
        0
    } else if s[0] == 'e' || s[0] == 'E' {
        0
    } else {
        1 + exp_index(s.drop_first())
    }
}

/// The mantissa of an offset body: what stands before its exponent mark.
pub open spec fn offset_mantissa(b: Seq<char>) -> Seq<char> {
    b.take(exp_index(b))
}

/// The value of an exponent text: an optional sign and at least one digit.
pub open spec fn exponent_of(x: Seq<char>) -> Option<int> {
    let d = offset_body(x);
    if d.len() >= 1 && all_digits(d) {
        Some(if x.len() > 0 && x[0] == '-' { -(digits_value(d) as int) } else { digits_value(d) as int })
    } else {
        None
    }
}

/// The exponent of an offset body: zero without an exponent mark, else the
/// value of the text after the mark.
pub open spec fn offset_exponent(b: Seq<char>) -> Option<int> {
    if exp_index(b) >= b.len() {
        Some(0)
    } else {
        exponent_of(b.skip(exp_index(b) + 1))
    }
}

/// The seconds in `n * 10^t` hours, rounded half away from zero.
pub open spec fn scaled_hours_secs(n: nat, t: int) -> nat {
    if t > 0 {
        3600 * n * pow10(t as nat)
    } else {
        (7200 * n + pow10((-t) as nat)) / (2 * pow10((-t) as nat))
    }
}

/// The UTC offset in seconds that a decimal hours text names: an optional
/// sign, whole-hour digits, optionally `.` and fraction digits, at least one
/// and at most 18 digits in all, then optionally an exponent (`e` or `E`, an
/// optional sign and digits). Hours times 3600 are rounded half away from
/// zero; offsets beyond `i32` seconds are not accepted.
pub open spec fn offset_secs_of_text(s: Seq<char>) -> Option<i32> {
    let neg = s.len() > 0 && s[0] == '-';
    let b = offset_body(s);
    let m = offset_mantissa(b);
    let ip = offset_int_part(m);
    let fp = offset_frac_part(m);
    if all_digits(ip) && all_digits(fp) && ip.len() + fp.len() >= 1 && ip.len() + fp.len() <= 18
        && offset_exponent(b) is Some
    {
        let mag = scaled_hours_secs(digits_value(ip + fp), offset_exponent(b)->0 - fp.len());
        if mag <= i32::MAX {
            Some(if neg { (-mag) as i32 } else { mag as i32 })
        } else {
            None
        }
    } else {
        None
    }
}

proof fn lemma_exp_index_range(s: Seq<char>)
    ensures
        0 <= exp_index(s) <= s.len(),
        exp_index(s) < s.len() ==> s[exp_index(s)] == 'e' || s[exp_index(s)] == 'E',
        forall|i: int| 0 <= i < exp_index(s) ==> #[trigger] s[i] != 'e' && s[i] != 'E',
    decreases s.len(),
{
    if s.len() > 0 && s[0] != 'e' && s[0] != 'E' {
        let t = s.drop_first();
        lemma_exp_index_range(t);
        assert forall|i: int| 0 <= i < exp_index(s) implies #[trigger] s[i] != 'e' && s[i] != 'E' by {
            if i > 0 {
                assert(s[i] == t[i - 1]);
            }
        }
    }
}

proof fn lemma_exp_index_none(s: Seq<char>)
    requires
        forall|i: int| 0 <= i < s.len() ==> s[i] != 'e' && s[i] != 'E',
    ensures
        exp_index(s) == s.len(),
    decreases s.len(),
{
    if s.len() > 0 {
        let t = s.drop_first();
        assert forall|i: int| 0 <= i < t.len() implies t[i] != 'e' && t[i] != 'E' by {
            assert(t[i] == s[i + 1]);
        }
        lemma_exp_index_none(t);
    }
}

proof fn lemma_scaled_zero(t: int)
    ensures
        scaled_hours_secs(0, t) == 0,
{
    if t <= 0 {
        let p = pow10((-t) as nat);
        lemma_pow10_monotone(0, (-t) as nat);
        assert((7200 * 0 + p) / (2 * p) == 0) by (nonlinear_arith)
            requires
                p >= 1,
        ;
    } else {
        let p = pow10(t as nat);
        assert(3600 * 0 * p == 0) by (nonlinear_arith);
    }
}

proof fn lemma_scaled_large(n: nat, t: int)
    requires
        n >= 1,
        t >= 7,
    ensures
        scaled_hours_secs(n, t) > i32::MAX,
{
    lemma_pow10_monotone(7, t as nat);
    reveal_with_fuel(pow10, 8);
    let p = pow10(t as nat);
    assert(3600 * n * p >= 3600 * 10_000_000) by (nonlinear_arith)
        requires
            n >= 1,
            p >= 10_000_000,
    ;
}

proof fn lemma_scaled_tiny(n: nat, t: int)
    requires
        n < 1_000_000_000_000_000_000,
        t <= -23,
    ensures
        scaled_hours_secs(n, t) == 0,
{
    lemma_pow10_monotone(23, (-t) as nat);
    reveal_with_fuel(pow10, 24);
    let p = pow10((-t) as nat);
    assert((7200 * n + p) / (2 * p) == 0) by (nonlinear_arith)
        requires
            p >= 100_000_000_000_000_000_000_000,
            n < 1_000_000_000_000_000_000,
    ;
}

proof fn lemma_dot_index_range(s: Seq<char>)
    ensures
        0 <= dot_index(s) <= s.len(),
        dot_index(s) < s.len() ==> s[dot_index(s)] == '.',
        forall|i: int| 0 <= i < dot_index(s) ==> #[trigger] s[i] != '.',
    decreases s.len(),
{
    if s.len() > 0 && s[0] != '.' {
        let t = s.drop_first();
        lemma_dot_index_range(t);
        assert forall|i: int| 0 <= i < dot_index(s) implies #[trigger] s[i] != '.' by {
            if i > 0 {
                assert(s[i] == t[i - 1]);
            }
        }
    }
}

proof fn lemma_pow10_monotone(j: nat, k: nat)
    requires
        j <= k,
    ensures
        1 <= pow10(j) <= pow10(k),
    decreases k,
{
    if k > j {
        lemma_pow10_monotone(j, (k - 1) as nat);
    } else if k > 0 {
        lemma_pow10_monotone(0, (k - 1) as nat);
    }
}

proof fn lemma_pow10_bound(k: nat)
    requires
        k <= 18,
    ensures
        1 <= pow10(k) <= 1_000_000_000_000_000_000,
{
    lemma_pow10_monotone(k, 18);
    reveal_with_fuel(pow10, 19);
}

proof fn lemma_digits_bound(d: Seq<char>)
    requires
        all_digits(d),
    ensures
        digits_value(d) < pow10(d.len()),
    decreases d.len(),
{
    if d.len() > 0 {
        let t = d.drop_last();
        assert(all_digits(t));
        lemma_digits_bound(t);
        assert(crate::text::digit_value(d.last()) <= 9);
    }
}

/// The first `.` in a character slice, or its length.
fn find_dot(b: &[char]) -> (d: usize)
    ensures
        d == dot_index(b@),
{
    let mut i: usize = 0;
    while i < b.len() && b[i] != '.'
        invariant
            i <= b.len(),
            forall|j: int| 0 <= j < i ==> #[trigger] b@[j] != '.',
        decreases b.len() - i,
    {
        i += 1;
    }
    proof {
        lemma_dot_index_range(b@);
        let d = dot_index(b@);
        if d < i {
            assert(b@[d] == '.');
        } else if d > i {
            assert(b@[i as int] != '.');
        }
    }
    i
}

/// The first exponent mark in a character slice, or its length.
fn find_exp(b: &[char]) -> (d: usize)
    ensures
        d == exp_index(b@),
{
    let mut i: usize = 0;
    while i < b.len() && b[i] != 'e' && b[i] != 'E'
        invariant
            i <= b.len(),
            forall|j: int| 0 <= j < i ==> #[trigger] b@[j] != 'e' && b@[j] != 'E',
        decreases b.len() - i,
    {
        i += 1;
    }
    proof {
        lemma_exp_index_range(b@);
        let d = exp_index(b@);
        if d < i {
            assert(b@[d] == 'e' || b@[d] == 'E');
        } else if d > i {
            assert(b@[i as int] != 'e' && b@[i as int] != 'E');
        }
    }
    i
}

/// The value of a digit string, capped at 1000.
fn digits_value_capped(d: &[char]) -> (r: u64)
    requires
        all_digits(d@),
    ensures
        r == if digits_value(d@) < 1000 { digits_value(d@) } else { 1000 },
{
    let mut acc: u64 = 0;
    let mut i: usize = 0;
    while i < d.len()
        invariant
            i <= d.len(),
            all_digits(d@),
            acc == if digits_value(d@.take(i as int)) < 1000 { digits_value(d@.take(i as int)) } else { 1000 },
        decreases d.len() - i,
    {
        let ghost prev = d@.take(i as int);
        assert(d@.take(i as int + 1).drop_last() =~= prev);
        assert(is_digit(d@[i as int]));
        let c = d[i] as u32 - 48;
        assert(c == crate::text::digit_value(d@[i as int]));
        if acc < 1000 {
            let next = acc * 10 + c as u64;
            acc = if next < 1000 { next } else { 1000 };
        }
        i += 1;
    }
    assert(d@.take(d.len() as int) =~= d@);
    acc
}

/// The value of an exponent text, capped at magnitude 1000.
fn parse_exponent(x: &[char]) -> (r: Option<i64>)
    ensures
        match exponent_of(x@) {
            None => r is None,
            Some(e) => r == Some((if e > 1000 { 1000 } else if e < -1000 { -1000 } else { e }) as i64),
        },
{
    let n = x.len();
    let mut start: usize = 0;
    let mut neg = false;
    if n > 0 && (x[0] == '+' || x[0] == '-') {
        neg = x[0] == '-';
        start = 1;
    }
    let d = &x[start..n];
    assert(d@ =~= offset_body(x@));
    if d.len() == 0 || !crate::text::chars_all_digits(d) {
        return None;
    }
    let v = digits_value_capped(d);
    if neg {
        Some(-(v as i64))
    } else {
        Some(v as i64)
    }
}

/// The seconds in `value * 10^(e - k)` hours, rounded half away from zero,
/// where `e` is the exponent capped at magnitude 1000: `None` when they
/// exceed `i32`.
fn offset_magnitude(value: u64, e: i64, k: u64, Ghost(e_true): Ghost<int>) -> (r: Option<u128>)
    requires
        value < 1_000_000_000_000_000_000,
        k <= 18,
        e == (if e_true > 1000 { 1000 } else if e_true < -1000 { -1000 } else { e_true }),
    ensures
        match r {
            None => scaled_hours_secs(value as nat, e_true - k) > i32::MAX,
            Some(m) => m == scaled_hours_secs(value as nat, e_true - k),
        },
{
    let ghost t_spec = e_true - k;
    let t: i64 = e - k as i64;
    let mag: u128;
    if value == 0 {
        proof {
            lemma_scaled_zero(t_spec);
        }
        mag = 0;
    } else if t >= 7 {
        proof {
            lemma_scaled_large(value as nat, t_spec);
        }
        return None;
    } else if t > 0 {
        let mut scale: u128 = 1;
        let mut j: i64 = 0;
        while j < t
            invariant
                0 <= j <= t <= 6,
                scale == pow10(j as nat),
            decreases t - j,
        {
            proof {
                lemma_pow10_monotone((j + 1) as nat, 6);
                reveal_with_fuel(pow10, 7);
            }
            scale = scale * 10;
            j += 1;
        }
        proof {
            lemma_pow10_monotone(t as nat, 6);
            reveal_with_fuel(pow10, 7);
            assert(3600 * (value as u128) * scale <= 3600 * 1_000_000_000_000_000_000 * 1_000_000) by (nonlinear_arith)
                requires
                    value < 1_000_000_000_000_000_000,
                    scale <= 1_000_000,
            ;
        }
        mag = 3600 * (value as u128) * scale;
    } else if t <= -23 {
        proof {
            lemma_scaled_tiny(value as nat, t_spec);
        }
        mag = 0;
    } else {
        let q: i64 = -t;
        let mut scale: u128 = 1;
        let mut j: i64 = 0;
        while j < q
            invariant
                0 <= j <= q <= 22,
                scale == pow10(j as nat),
            decreases q - j,
        {
            proof {
                lemma_pow10_monotone((j + 1) as nat, 22);
                reveal_with_fuel(pow10, 23);
            }
            scale = scale * 10;
            j += 1;
        }
        proof {
            lemma_pow10_monotone(q as nat, 22);
            lemma_pow10_monotone(0, q as nat);
            reveal_with_fuel(pow10, 23);
        }
        mag = (7200 * (value as u128) + scale) / (2 * scale);
    }
    Some(mag)
}

/// Parse a UTC offset given in decimal hours (such as `-9.5`, `5.75` or
/// `1e1`) into seconds.
///
/// The hours are read as an exact decimal number, with an optional exponent,
/// and rounded to whole seconds half away from zero. Texts that name no
/// finite number (`inf`, `NaN`), and offsets beyond `i32` seconds, give
/// `None`.
pub fn parse_offset_hours(text: &str) -> (r: Option<i32>)
    ensures
        r == offset_secs_of_text(text@),
{
    let v = chars_of(text);
    let n = v.len();
    let mut start: usize = 0;
    let mut neg = false;
    if n > 0 && (v[0] == '+' || v[0] == '-') {
        neg = v[0] == '-';
        start = 1;
    }
    let whole = &v.as_slice()[start..n];
    assert(whole@ =~= offset_body(text@));
    let ei = find_exp(whole);
    proof {
        lemma_exp_index_range(whole@);
    }
    let mant = &whole[0..ei];
    assert(mant@ =~= offset_mantissa(whole@));
    let d = find_dot(mant);
    proof {
        lemma_dot_index_range(mant@);
    }
    let mut digits: Vec<char> = Vec::new();
    let mut i: usize = 0;
    while i < d
        invariant
            i <= d <= mant@.len(),
            digits@ == mant@.take(i as int),
        decreases d - i,
    {
        digits.push(mant[i]);
        assert(mant@.take(i as int + 1) =~= mant@.take(i as int).push(mant@[i as int]));
        i += 1;
    }
    let ghost ip = mant@.take(d as int);
    let mut k: usize = 0;
    if d < mant.len() {
        let mut j: usize = d + 1;
        while j < mant.len()
            invariant
                d < j <= mant@.len(),
                digits@ == ip + mant@.subrange(d + 1, j as int),
                k == j - d - 1,
            decreases mant.len() - j,
        {
            digits.push(mant[j]);
            assert(mant@.subrange(d + 1, j as int + 1) =~= mant@.subrange(d + 1, j as int).push(mant@[j as int]));
            k += 1;
            j += 1;
        }
        assert(mant@.subrange(d + 1, mant@.len() as int) =~= offset_frac_part(mant@));
    } else {
        assert(offset_frac_part(mant@) =~= Seq::<char>::empty());
    }
    assert(digits@ =~= offset_int_part(mant@) + offset_frac_part(mant@));
    assert(k == offset_frac_part(mant@).len());
    let count = digits.len();
    if count == 0 || count > 18 {
        return None;
    }
    if !crate::text::chars_all_digits(digits.as_slice()) {
        proof {
            let ip = offset_int_part(mant@);
            let fp = offset_frac_part(mant@);
            if all_digits(ip) && all_digits(fp) {
                assert forall|x: int| 0 <= x < digits@.len() implies is_digit(#[trigger] digits@[x]) by {
                    if x < ip.len() {
                        assert(digits@[x] == ip[x]);
                    } else {
                        assert(digits@[x] == fp[x - ip.len()]);
                    }
                }
            }
        }
        return None;
    }
    proof {
        let ip = offset_int_part(mant@);
        let fp = offset_frac_part(mant@);
        assert forall|x: int| 0 <= x < ip.len() implies is_digit(#[trigger] ip[x]) by {
            assert(digits@[x] == ip[x]);
        }
        assert forall|x: int| 0 <= x < fp.len() implies is_digit(#[trigger] fp[x]) by {
            assert(digits@[ip.len() + x] == fp[x]);
        }
        lemma_digits_bound(digits@);
        lemma_pow10_bound(count as nat);
        lemma_pow10_bound(k as nat);
    }
    let value = crate::text::chars_digits_value(digits.as_slice());
    let e: i64 = if ei < whole.len() {
        let rest = &whole[ei + 1..whole.len()];
        assert(rest@ =~= whole@.skip(ei + 1));
        match parse_exponent(rest) {
            None => return None,
            Some(x) => x,
        }
    } else {
        0
    };
    let mag = match offset_magnitude(value, e, k as u64, Ghost(offset_exponent(whole@)->0)) {
        None => return None,
        Some(m) => m,
    };
    if mag > 0x7FFF_FFFF {
        return None;
    }
    let m = mag as i32;
    if neg {
        Some(-m)
    } else {
        Some(m)
    }
}

/// Decimal hours text of an offset in seconds: a `-` for negative offsets,
/// the whole hours, then up to four fraction digits (truncated, trailing
/// zeros dropped). Offsets that are a multiple of 9 seconds are exact.
pub open spec fn offset_hours_text(secs: i32) -> Seq<char> {
    let a = if secs < 0 { -(secs as int) } else { secs as int };
    let h = a / 3600;
    let f = ((a % 3600) * 10000) / 3600;
    (if secs < 0 { seq!['-'] } else { Seq::<char>::empty() }) + decimal_text(h as nat)
        + (if f == 0 { Seq::<char>::empty() } else { seq!['.'] + fraction_digits(f as nat, 4) })
}

/// The `width` digits of `f` zero-padded on the left, without trailing zeros.
pub open spec fn fraction_digits(f: nat, width: nat) -> Seq<char>
    decreases width,
{
    if width == 0 {
        Seq::empty()
    } else if f % 10 == 0 {
        fraction_digits(f / 10, (width - 1) as nat)
    } else {
        padded_digits(f, width)
    }
}

/// The `width` low decimal digits of `f`, most significant first.
pub open spec fn padded_digits(f: nat, width: nat) -> Seq<char>
    decreases width,
{
    if width == 0 {
        Seq::empty()
    } else {
        padded_digits(f / 10, (width - 1) as nat).push(crate::text::digit_char(f % 10))
    }
}

fn push_padded(s: &mut String, f: u32, width: u32)
    ensures
        final(s)@ == old(s)@ + padded_digits(f as nat, width as nat),
    decreases width,
{
    if width == 0 {
        assert(final(s)@ =~= old(s)@ + padded_digits(f as nat, width as nat));
        return;
    }
    push_padded(s, f / 10, width - 1);
    let d: u8 = (f % 10) as u8;
    push_char(s, (d + 48) as char);
    assert(final(s)@ =~= old(s)@ + padded_digits(f as nat, width as nat));
}

fn push_fraction(s: &mut String, f: u32, width: u32)
    ensures
        final(s)@ == old(s)@ + fraction_digits(f as nat, width as nat),
    decreases width,
{
    if width == 0 {
        assert(final(s)@ =~= old(s)@ + fraction_digits(f as nat, width as nat));
    } else if f % 10 == 0 {
        push_fraction(s, f / 10, width - 1);
    } else {
        push_padded(s, f, width);
    }
}

/// Decimal hours text of an offset in seconds.
pub fn offset_hours_string(secs: i32) -> (s: String)
    ensures
        s@ == offset_hours_text(secs),
{
    let a: u32 = if secs < 0 { (-(secs as i64)) as u32 } else { secs as u32 };
    let h = a / 3600;
    let f = ((a % 3600) * 10000) / 3600;
    let mut s = String::new();
    if secs < 0 {
        push_char(&mut s, '-');
    }
    push_decimal(&mut s, h as u64);
    if f != 0 {
        push_char(&mut s, '.');
        push_fraction(&mut s, f, 4);
    }
    assert(s@ =~= offset_hours_text(secs));
    s
}


proof fn lemma_digits_concat(x: Seq<char>, y: Seq<char>)
    ensures
        digits_value(x + y) == digits_value(x) * pow10(y.len()) + digits_value(y),
    decreases y.len(),
{
    if y.len() == 0 {
        assert(x + y =~= x);
        assert(pow10(0) == 1);
        assert(digits_value(y) == 0);
    } else {
        lemma_digits_concat(x, y.drop_last());
        assert((x + y).drop_last() =~= x + y.drop_last());
        assert((x + y).last() == y.last());
        let dx = digits_value(x);
        let p = pow10((y.len() - 1) as nat);
        let dy = digits_value(y.drop_last());
        assert(digits_value(x + y) == digits_value((x + y).drop_last()) * 10 + crate::text::digit_value((x + y).last()));
        assert(digits_value(y) == dy * 10 + crate::text::digit_value(y.last()));
        assert(pow10(y.len()) == 10 * p);
        assert(digits_value(x + y.drop_last()) == dx * p + dy);
        assert(digits_value(x + y) == (dx * p + dy) * 10 + crate::text::digit_value(y.last()));
        assert((dx * p + dy) * 10 == dx * (10 * p) + dy * 10) by (nonlinear_arith);
    }
}

proof fn lemma_all_digits_concat(x: Seq<char>, y: Seq<char>)
    requires
        all_digits(x),
        all_digits(y),
    ensures
        all_digits(x + y),
{
    assert forall|i: int| 0 <= i < (x + y).len() implies is_digit(#[trigger] (x + y)[i]) by {
        if i < x.len() {
            assert((x + y)[i] == x[i]);
        } else {
            assert((x + y)[i] == y[i - x.len()]);
        }
    }
}

proof fn lemma_padded_digits(f: nat, w: nat)
    ensures
        padded_digits(f, w).len() == w,
        all_digits(padded_digits(f, w)),
        digits_value(padded_digits(f, w)) == f % pow10(w),
    decreases w,
{
    if w > 0 {
        let t = padded_digits((f / 10) as nat, (w - 1) as nat);
        lemma_padded_digits((f / 10) as nat, (w - 1) as nat);
        let d = crate::text::digit_char(f % 10);
        assert(((f % 10 + 48) as u8) as char as u32 == f % 10 + 48);
        assert(padded_digits(f, w) == t.push(d));
        assert(t.push(d).drop_last() =~= t);
        assert(all_digits(t.push(d))) by {
            assert forall|i: int| 0 <= i < t.push(d).len() implies is_digit(#[trigger] t.push(d)[i]) by {
                if i < t.len() {
                    assert(t.push(d)[i] == t[i]);
                }
            }
        }
        let p = pow10((w - 1) as nat);
        assert(p >= 1) by {
            lemma_pow10_monotone(0, (w - 1) as nat);
        }
        assert(((f / 10) % p) * 10 + f % 10 == f % (10 * p)) by (nonlinear_arith)
            requires
                p >= 1,
        {
            vstd::arithmetic::div_mod::lemma_breakdown(f as int, 10, p as int);
        }
    }
}

proof fn lemma_fraction_digits(f: nat, w: nat)
    requires
        f < pow10(w),
    ensures
        fraction_digits(f, w).len() <= w,
        all_digits(fraction_digits(f, w)),
        digits_value(fraction_digits(f, w)) * pow10((w - fraction_digits(f, w).len()) as nat) == f,
        f != 0 ==> fraction_digits(f, w).len() >= 1,
        fraction_digits(f, w).len() == 0 || fraction_digits(f, w)[0] != '.',
    decreases w,
{
    assert(pow10(0) == 1);
    if w == 0 {
        assert(f == 0);
        let e = fraction_digits(f, w);
        assert(e.len() == 0);
        assert(digits_value(e) == 0);
        assert(digits_value(e) * pow10((w - e.len()) as nat) == f);
    } else if f % 10 == 0 {
        let g = (f / 10) as nat;
        assert(pow10(w) == 10 * pow10((w - 1) as nat));
        assert(g < pow10((w - 1) as nat));
        lemma_fraction_digits(g, (w - 1) as nat);
        let fd = fraction_digits(g, (w - 1) as nat);
        assert(fraction_digits(f, w) == fd);
        let e = ((w - 1) - fd.len()) as nat;
        assert((w - fd.len()) as nat == e + 1);
        assert(pow10(e + 1) == 10 * pow10(e));
        assert(f == g * 10);
        assert(digits_value(fd) * pow10(e) == g);
        assert(digits_value(fd) * (10 * pow10(e)) == (digits_value(fd) * pow10(e)) * 10) by (nonlinear_arith);
        assert(digits_value(fd) * pow10(e + 1) == f);
        assert(digits_value(fraction_digits(f, w)) * pow10((w - fraction_digits(f, w).len()) as nat) == f);
    } else {
        lemma_padded_digits(f, w);
        let pd = padded_digits(f, w);
        assert(fraction_digits(f, w) == pd);
        assert(f % pow10(w) == f) by {
            vstd::arithmetic::div_mod::lemma_small_mod(f, pow10(w));
        }
        assert(is_digit(pd[0]));
        assert((w - pd.len()) as nat == 0);
        assert(digits_value(pd) * pow10(0) == f);
    }
}

proof fn lemma_decimal_text_len(n: nat, m: nat)
    requires
        n < pow10(m),
        m >= 1,
    ensures
        decimal_text(n).len() <= m,
    decreases n,
{
    if n >= 10 {
        assert(m >= 2) by {
            if m == 1 {
                assert(pow10(1) == 10 * pow10(0));
                assert(pow10(0) == 1);
            }
        }
        let p = pow10((m - 1) as nat);
        assert(pow10(m) == 10 * p);
        assert(n / 10 < p) by (nonlinear_arith)
            requires
                n < 10 * p,
        ;
        lemma_decimal_text_len(n / 10, (m - 1) as nat);
        assert(decimal_text(n) == decimal_text(n / 10).push(crate::text::digit_char(n % 10)));
    }
}

proof fn lemma_dot_index_after_digits(x: Seq<char>, y: Seq<char>)
    requires
        all_digits(x),
        y.len() == 0 || y[0] == '.',
    ensures
        dot_index(x + y) == x.len(),
    decreases x.len(),
{
    if x.len() == 0 {
        assert(x + y =~= y);
    } else {
        assert(is_digit(x[0]));
        assert((x + y)[0] == x[0]);
        let t = x.drop_first();
        assert(all_digits(t)) by {
            assert forall|i: int| 0 <= i < t.len() implies is_digit(#[trigger] t[i]) by {
                assert(t[i] == x[i + 1]);
            }
        }
        lemma_dot_index_after_digits(t, y);
        assert((x + y).drop_first() =~= t + y);
    }
}

/// The offset text a device publishes reads back as the same offset: for an
/// offset that is a whole number of 9-second steps (every offset the
/// Home Assistant select offers), parsing [`offset_hours_text`] gives it
/// back.
pub proof fn lemma_offset_text_round_trip(secs: i32)
    requires
        secs % 9 == 0,
    ensures
        offset_secs_of_text(offset_hours_text(secs)) == Some(secs),
{
    let a: int = if secs < 0 { -(secs as int) } else { secs as int };
    assert(a <= i32::MAX) by {
        if secs < 0 {
            assert(secs != i32::MIN);
        }
    }
    let h = a / 3600;
    let r = a % 3600;
    let f = (r * 10000) / 3600;
    assert(r % 9 == 0) by {
        vstd::arithmetic::div_mod::lemma_mod_mod(a, 9, 400);
        assert(a % 9 == 0);
    }
    assert(f * 9 == r * 25 && 0 <= f < 10000) by (nonlinear_arith)
        requires
            r % 9 == 0,
            0 <= r < 3600,
            f == (r * 10000) / 3600,
    ;
    let d = decimal_text(h as nat);
    reveal_with_fuel(pow10, 7);
    lemma_decimal_text_digits(h as nat);
    lemma_decimal_text_len(h as nat, 6);
    lemma_fraction_digits(f as nat, 4);
    let fd = fraction_digits(f as nat, 4);
    let tail = if f == 0 { Seq::<char>::empty() } else { seq!['.'] + fd };
    let sign = if secs < 0 { seq!['-'] } else { Seq::<char>::empty() };
    let t = offset_hours_text(secs);
    assert(t == sign + d + tail);
    let b = d + tail;
    assert(offset_body(t) == b) by {
        if secs < 0 {
            assert(t[0] == '-');
            assert(t.drop_first() =~= b);
        } else {
            assert(sign + d + tail =~= b);
            assert(is_digit(d[0]));
            assert(t[0] == d[0]);
        }
    }
    assert(t.len() > 0 && t[0] == '-' <==> secs < 0) by {
        if secs >= 0 {
            assert(t[0] == d[0] && is_digit(d[0]));
        }
    }
    lemma_dot_index_after_digits(d, tail);
    assert forall|i: int| 0 <= i < b.len() implies b[i] != 'e' && b[i] != 'E' by {
        if i < d.len() {
            assert(b[i] == d[i] && is_digit(d[i]));
        } else if i > d.len() {
            assert(b[i] == fd[i - d.len() - 1] && is_digit(fd[i - d.len() - 1]));
        } else {
            assert(b[i] == '.');
        }
    }
    lemma_exp_index_none(b);
    assert(offset_mantissa(b) =~= b);
    assert(offset_exponent(b) == Some(0int));
    assert(offset_int_part(b) =~= d);
    let fp = if f == 0 { Seq::<char>::empty() } else { fd };
    assert(offset_frac_part(b) =~= fp) by {
        if f != 0 {
            assert(b.skip(d.len() as int + 1) =~= fd);
        }
    }
    let k = fp.len();
    assert(k <= 4);
    assert(all_digits(fp));
    lemma_all_digits_concat(d, fp);
    lemma_digits_concat(d, fp);
    let n = digits_value(d + fp);
    let v = digits_value(fp);
    assert(n == h * pow10(k) + v);
    let e = (4 - k) as nat;
    assert(v * pow10(e) == f) by {
        if f == 0 {
            assert(fp.len() == 0);
            assert(v == 0);
        }
    }
    lemma_pow10_monotone(k, 4);
    lemma_pow10_monotone(e, 4);
    assert(pow10(k) * pow10(e) == 10000) by {
        lemma_pow10_add(k, e);
    }
    let p = pow10(k);
    let q = pow10(e);
    assert(7200 * n == 2 * p * a) by (nonlinear_arith)
        requires
            n == h * p + v,
            v * q == f,
            p * q == 10000,
            f * 9 == r * 25,
            a == 3600 * h + r,
            q >= 1,
    ;
    assert((7200 * n + p) / (2 * p) == a) by (nonlinear_arith)
        requires
            7200 * n == 2 * p * a,
            p >= 1,
            a >= 0,
    ;
}

proof fn lemma_pow10_add(j: nat, k: nat)
    ensures
        pow10(j) * pow10(k) == pow10(j + k),
    decreases j,
{
    if j > 0 {
        let i = (j - 1) as nat;
        lemma_pow10_add(i, k);
        let a = pow10(i);
        let b = pow10(k);
        assert(pow10(j) == 10 * a);
        assert(pow10(j + k) == 10 * pow10(i + k));
        assert(a * b == pow10(i + k));
        assert((10 * a) * b == 10 * (a * b)) by (nonlinear_arith);
    } else {
        assert(pow10(0) == 1);
        assert(j + k == k);
    }
}

} // verus!
