use chrono::{DateTime, Local, NaiveDateTime, NaiveTime, TimeZone, Timelike, Utc};
use vstd::prelude::*;
use vstd::string::StringExecFns;

verus! {

/// Which textual form an input time matched; it picks the rendering template.
#[derive(Debug, Clone, Copy, PartialEq, Eq, Structural)]
pub enum TimeFormat {
    RFC3339,
    ISO8601,
    HumanReadable,
    Timestamp,
    Now,
    TimeOnly,
}

/// Why an input time was refused.
#[derive(Debug, Clone, Copy, PartialEq, Eq, Structural)]
pub enum ParseError {
    /// The input matched none of the accepted forms.
    TimeFormat,
    /// The input is an integer outside the range of representable instants.
    TimestampRange,
    /// A bare time of day names no instant today in the local zone: it falls
    /// in a daylight-saving gap.
    NonexistentLocalTime,
}

pub open spec fn format_error_message() -> Seq<char> {
    "Invalid time format. Expected: timestamp, 'now', RFC3339 (e.g., '2024-01-01T12:00:00Z'), ISO8601 (e.g., '2024-01-01T12:00:00+00:00'), date time string (e.g., '2024-01-01 12:00:00'), or time only (e.g., '15:00' or '15:30:45')"@
}

pub open spec fn timestamp_error_message() -> Seq<char> {
    "Invalid timestamp"@
}

pub open spec fn local_error_message() -> Seq<char> {
    "Nonexistent local time (skipped by a daylight-saving change)"@
}

impl ParseError {
    pub open spec fn message_spec(self) -> Seq<char> {
        match self {
            ParseError::TimeFormat => format_error_message(),
            ParseError::TimestampRange => timestamp_error_message(),
            ParseError::NonexistentLocalTime => local_error_message(),
        }
    }

    /// The text shown to the user for this error.
    pub fn message(&self) -> (r: String)
        ensures
            r@ == self.message_spec(),
    {
        match self {
            ParseError::TimeFormat => String::from_str(
                "Invalid time format. Expected: timestamp, 'now', RFC3339 (e.g., '2024-01-01T12:00:00Z'), ISO8601 (e.g., '2024-01-01T12:00:00+00:00'), date time string (e.g., '2024-01-01 12:00:00'), or time only (e.g., '15:00' or '15:30:45')",
            ),
            ParseError::TimestampRange => String::from_str("Invalid timestamp"),
            ParseError::NonexistentLocalTime => String::from_str(
                "Nonexistent local time (skipped by a daylight-saving change)",
            ),
        }
    }
}

/// Instant (Unix seconds) of an RFC 3339 text, as chrono reads it.
pub uninterp spec fn rfc3339_seconds(s: Seq<char>) -> Option<int>;

/// Instant (Unix seconds) of a `%Y-%m-%dT%H:%M:%S%:z` text, as chrono reads it.
pub uninterp spec fn iso8601_seconds(s: Seq<char>) -> Option<int>;

/// The first representable second, -262143-01-01 00:00:00 UTC.
pub const MIN_TIMESTAMP: i64 = -8334601228800;

/// The last representable second, 262142-12-31 23:59:59 UTC.
pub const MAX_TIMESTAMP: i64 = 8210266876799;

/// Whether chrono can represent the UTC instant this many seconds after the epoch.
pub open spec fn utc_representable(t: int) -> bool {
    MIN_TIMESTAMP <= t <= MAX_TIMESTAMP
}

/// `s` ends in the UTC designator `Z` (either case).
pub open spec fn ends_in_zulu(s: Seq<char>) -> bool {
    s.len() > 0 && (s.last() == 'Z' || s.last() == 'z')
}

/// What the local zone makes of a wall-clock time today.
pub enum LocalOutcome {
    /// Exactly one instant.
    Single(i64),
    /// Two instants, in a daylight-saving overlap.
    Ambiguous(i64, i64),
    /// No instant, in a daylight-saving gap.
    Gap,
}

/// `t` shows `seconds_of_day` on a clock that is less than a day off UTC.
pub open spec fn shows_clock(t: int, seconds_of_day: int) -> bool {
    exists|off: int| -86400 < off < 86400 && #[trigger] ((t + off) % 86400) == seconds_of_day
}

/// The policy for a local wall-clock time: a single instant is taken as it
/// is, the earlier of two instants in an overlap is taken, and a gap names
/// no instant.
pub open spec fn local_policy(o: LocalOutcome) -> Option<int> {
    match o {
        LocalOutcome::Single(t) => Some(t as int),
        LocalOutcome::Ambiguous(a, b) => Some(if a <= b { a as int } else { b as int }),
        LocalOutcome::Gap => None,
    }
}

/// Applies the daylight-saving policy to what the local zone made of a
/// wall-clock time.
pub fn resolve_local(o: &LocalOutcome) -> (r: Option<i64>)
    ensures
        opt_int(r) == local_policy(*o),
{
    match o {
        LocalOutcome::Single(t) => Some(*t),
        LocalOutcome::Ambiguous(a, b) => if *a <= *b {
            Some(*a)
        } else {
            Some(*b)
        },
        LocalOutcome::Gap => None,
    }
}

/// Instant (Unix seconds) of a `%Y-%m-%d %H:%M:%S` text read as UTC, as chrono reads it.
pub uninterp spec fn naive_utc_seconds(s: Seq<char>) -> Option<int>;

/// Seconds after midnight of a time of day read by chrono with format `fmt`.
pub uninterp spec fn clock_seconds(s: Seq<char>, fmt: Seq<char>) -> Option<int>;

pub open spec fn opt_int(r: Option<i64>) -> Option<int> {
    match r {
        Some(v) => Some(v as int),
        None => None,
    }
}

pub open spec fn opt_nat(r: Option<u32>) -> Option<int> {
    match r {
        Some(v) => Some(v as int),
        None => None,
    }
}

pub open spec fn ascii_lower(c: char) -> char {
    if 'A' <= c && c <= 'Z' {
        ((c as u32) + 32) as char
    } else {
        c
    }
}

/// `s` is the word "now" in any mix of letter cases.
pub open spec fn is_now_text(s: Seq<char>) -> bool {
    &&& s.len() == 3
    &&& ascii_lower(s[0]) == 'n'
    &&& ascii_lower(s[1]) == 'o'
    &&& ascii_lower(s[2]) == 'w'
}

pub open spec fn is_digit(c: char) -> bool {
    '0' <= c && c <= '9'
}

pub open spec fn all_digits(s: Seq<char>) -> bool {
    s.len() > 0 && forall|i: int| 0 <= i < s.len() ==> is_digit(#[trigger] s[i])
}

/// Value of a string of decimal digits.
pub open spec fn digits_value(s: Seq<char>) -> int
    decreases s.len(),
{
    if s.len() == 0 {
        0
    } else {
        digits_value(s.drop_last()) * 10 + (s.last() as int - '0' as int)
    }
}

/// Value of an optional `+` or `-` sign followed by decimal digits, the form
/// that `i64::from_str` reads.
pub open spec fn integer_text_value(s: Seq<char>) -> Option<int> {
    if s.len() > 0 && (s[0] == '+' || s[0] == '-') && all_digits(s.skip(1)) {
        if s[0] == '-' {
            Some(-digits_value(s.skip(1)))
        } else {
            Some(digits_value(s.skip(1)))
        }
    } else if all_digits(s) {
        Some(digits_value(s))
    } else {
        None
    }
}

/// The integer written by `s`, where it fits in `i64`.
pub open spec fn timestamp_value(s: Seq<char>) -> Option<int> {
    match integer_text_value(s) {
        Some(v) => if i64::MIN <= v <= i64::MAX { Some(v) } else { None },
        None => None,
    }
}

pub open spec fn clock_of(s: Seq<char>) -> Option<int> {
    if clock_seconds(s, "%H:%M"@) is Some {
        clock_seconds(s, "%H:%M"@)
    } else {
        clock_seconds(s, "%H:%M:%S"@)
    }
}

/// The first form of the cascade that matched, given the outcome of each
/// attempt in order: the "now" keyword, RFC 3339 in UTC (a `Z` suffix),
/// ISO 8601 with a numeric offset, any other RFC 3339 text, an integer of Unix seconds (and whether that instant is
/// representable), a UTC date and time, a bare time of day (and its instant
/// today in the local zone).
pub open spec fn cascade(
    s: Seq<char>,
    is_now: bool,
    now: int,
    rfc3339: Option<int>,
    iso8601: Option<int>,
    integer: Option<int>,
    representable: bool,
    naive_utc: Option<int>,
    clock: bool,
    local: Option<int>,
) -> Result<(Seq<char>, int, TimeFormat), ParseError> {
    if is_now {
        Ok(("now"@, now, TimeFormat::Now))
    } else if rfc3339 is Some && ends_in_zulu(s) {
        Ok((s, rfc3339->0, TimeFormat::RFC3339))
    } else if iso8601 is Some {
        Ok((s, iso8601->0, TimeFormat::ISO8601))
    } else if rfc3339 is Some {
        Ok((s, rfc3339->0, TimeFormat::RFC3339))
    } else if integer is Some {
        if representable {
            Ok((s, integer->0, TimeFormat::Timestamp))
        } else {
            Err(ParseError::TimestampRange)
        }
    } else if naive_utc is Some {
        Ok((s, naive_utc->0, TimeFormat::HumanReadable))
    } else if clock {
        match local {
            Some(t) => Ok((s, t, TimeFormat::TimeOnly)),
            None => Err(ParseError::NonexistentLocalTime),
        }
    } else {
        Err(ParseError::TimeFormat)
    }
}

/// The outcome of reading `s`, where `now` is the current instant and `local`
/// the instant of today's date at the given time of day in the local zone.
pub open spec fn parse_spec(s: Seq<char>, now: int, local: Option<int>) -> Result<
    (Seq<char>, int, TimeFormat),
    ParseError,
> {
    cascade(
        s,
        is_now_text(s),
        now,
        rfc3339_seconds(s),
        iso8601_seconds(s),
        timestamp_value(s),
        timestamp_value(s) is Some && utc_representable(timestamp_value(s)->0),
        naive_utc_seconds(s),
        clock_of(s) is Some,
        local,
    )
}

/// The text to echo of a successful read.
pub open spec fn parsed_echo(r: Result<(String, i64, TimeFormat), ParseError>) -> Seq<char> {
    match r {
        Ok((e, _, _)) => e@,
        Err(_) => Seq::empty(),
    }
}

/// The instant of a successful read.
pub open spec fn parsed_instant(r: Result<(String, i64, TimeFormat), ParseError>) -> int {
    match r {
        Ok((_, t, _)) => t as int,
        Err(_) => 0,
    }
}

/// The form of a successful read.
pub open spec fn parsed_format(r: Result<(String, i64, TimeFormat), ParseError>) -> Option<TimeFormat> {
    match r {
        Ok((_, _, f)) => Some(f),
        Err(_) => None,
    }
}

pub open spec fn parsed_view(r: Result<(String, i64, TimeFormat), ParseError>) -> Result<
    (Seq<char>, int, TimeFormat),
    ParseError,
> {
    match r {
        Ok((e, t, f)) => Ok((e@, t as int, f)),
        Err(e) => Err(e),
    }
}

/// Relies on chrono's `DateTime::parse_from_rfc3339`; that parser demands
/// four year digits followed by a dash.
#[verifier::external_body]
fn parse_rfc3339(s: &str) -> (r: Option<i64>)
    ensures
        opt_int(r) == rfc3339_seconds(s@),
        r is Some ==> s@.len() > 4 && s@[4] == '-',
{
    match DateTime::parse_from_rfc3339(s) {
        Ok(dt) => Some(dt.timestamp()),
        Err(_) => None,
    }
}

/// Relies on chrono's `DateTime::parse_from_str` with the pattern
/// `%Y-%m-%dT%H:%M:%S%:z`, whose literal `T` must appear in the input.
#[verifier::external_body]
fn parse_iso8601(s: &str) -> (r: Option<i64>)
    ensures
        opt_int(r) == iso8601_seconds(s@),
        r is Some ==> s@.contains('T'),
{
    match DateTime::parse_from_str(s, "%Y-%m-%dT%H:%M:%S%:z") {
        Ok(dt) => Some(dt.timestamp()),
        Err(_) => None,
    }
}

proof fn lemma_digits_value_nonneg(s: Seq<char>)
    requires
        forall|i: int| 0 <= i < s.len() ==> is_digit(#[trigger] s[i]),
    ensures
        digits_value(s) >= 0,
    decreases s.len(),
{
    if s.len() > 0 {
        lemma_digits_value_nonneg(s.drop_last());
    }
}

/// A digit string is worth at least any of its prefixes.
proof fn lemma_digits_value_prefix(s: Seq<char>, k: int)
    requires
        forall|i: int| 0 <= i < s.len() ==> is_digit(#[trigger] s[i]),
        0 <= k <= s.len(),
    ensures
        digits_value(s) >= digits_value(s.take(k)),
    decreases s.len(),
{
    if k == s.len() {
        assert(s.take(k) =~= s);
    } else {
        assert(s.drop_last().take(k) =~= s.take(k));
        lemma_digits_value_prefix(s.drop_last(), k);
        lemma_digits_value_nonneg(s.drop_last());
    }
}

/// Reads an optional `+` or `-` sign followed by decimal digits as an
/// `i64`, the form that `i64::from_str` accepts; `None` for any other text
/// or a value out of range.
pub fn parse_integer(s: &str) -> (r: Option<i64>)
    ensures
        opt_int(r) == timestamp_value(s@),
{
    let n = s.unicode_len();
    if n == 0 {
        return None;
    }
    let first = s.get_char(0);
    let negative = first == '-';
    let start: usize = if first == '+' || first == '-' { 1 } else { 0 };
    if start == n {
        assert(!all_digits(s@.skip(1)));
        assert(!is_digit(s@[0]));
        return None;
    }
    let ghost t = s@.skip(start as int);
    let mut acc: i128 = 0;
    let mut i: usize = start;
    while i < n
        invariant
            n == s@.len(),
            start <= i <= n,
            start < n,
            start <= 1,
            (start == 1) == (s@[0] == '+' || s@[0] == '-'),
            negative == (s@[0] == '-'),
            t == s@.skip(start as int),
            forall|j: int| 0 <= j < i - start ==> is_digit(#[trigger] t[j]),
            acc == digits_value(t.take(i - start)),
            0 <= acc <= 9223372036854775808,
        decreases n - i,
    {
        let c = s.get_char(i);
        assert(t[i - start] == c);
        if !('0' <= c && c <= '9') {
            assert(!all_digits(t));
            assert(!all_digits(s@)) by {
                if start == 1 {
                    assert(!is_digit(s@[0]));
                } else {
                    assert(t =~= s@);
                }
            }
            return None;
        }
        assert(t.take(i - start + 1).drop_last() =~= t.take(i - start));
        acc = acc * 10 + (c as u32 - '0' as u32) as i128;
        i = i + 1;
        if acc > 9223372036854775808 {
            proof {
                let k = i - start;
                if all_digits(t) {
                    lemma_digits_value_prefix(t, k);
                }
                if start == 0 {
                    assert(t =~= s@);
                } else {
                    assert(!is_digit(s@[0]));
                }
            }
            return None;
        }
    }
    assert(t.take(n - start) =~= t);
    proof {
        if start == 0 {
            assert(t =~= s@);
        } else {
            assert(!is_digit(s@[0]));
        }
    }
    if negative {
        Some((-acc) as i64)
    } else if acc <= 9223372036854775807 {
        Some(acc as i64)
    } else {
        None
    }
}

/// Relies on chrono's `Utc.timestamp_opt(t, 0)`: a single instant exactly
/// when `DateTime::from_timestamp` accepts `t`, that is for the dates from
/// -262143-01-01 to 262142-12-31.
#[verifier::external_body]
fn timestamp_representable(t: i64) -> (r: bool)
    ensures
        r == utc_representable(t as int),
{
    match Utc.timestamp_opt(t, 0) {
        chrono::LocalResult::Single(_) => true,
        _ => false,
    }
}

/// Relies on chrono's `NaiveDateTime::parse_from_str` with the pattern
/// `%Y-%m-%d %H:%M:%S`, the result taken as UTC.
#[verifier::external_body]
fn parse_naive_utc(s: &str) -> (r: Option<i64>)
    ensures
        opt_int(r) == naive_utc_seconds(s@),
{
    match NaiveDateTime::parse_from_str(s, "%Y-%m-%d %H:%M:%S") {
        Ok(dt) => Some(dt.and_utc().timestamp()),
        Err(_) => None,
    }
}

/// Relies on chrono's `NaiveTime::parse_from_str` and
/// `Timelike::num_seconds_from_midnight`, which lies in 0..86400.
#[verifier::external_body]
fn parse_clock(s: &str, fmt: &str) -> (r: Option<u32>)
    ensures
        opt_nat(r) == clock_seconds(s@, fmt@),
        r matches Some(v) ==> v < 86400,
{
    match NaiveTime::parse_from_str(s, fmt) {
        Ok(t) => Some(t.num_seconds_from_midnight()),
        Err(_) => None,
    }
}

/// Relies on chrono's `Utc::now`: the current instant, whatever it is.
#[verifier::external_body]
fn now_seconds() -> (r: i64) {
    Utc::now().timestamp()
}

/// Relies on chrono's `Local::now`, `NaiveDate::and_time` and
/// `Local.from_local_datetime`: today's date in the process's zone at the
/// given time of day, as one instant, two, or none. Local offsets are
/// `FixedOffset`s, less than a day.
#[verifier::external_body]
fn local_today_at(seconds_of_day: u32) -> (r: LocalOutcome)
    requires
        seconds_of_day < 86400,
    ensures
        r matches LocalOutcome::Single(t) ==> shows_clock(t as int, seconds_of_day as int),
        r matches LocalOutcome::Ambiguous(a, b) ==> shows_clock(a as int, seconds_of_day as int)
            && shows_clock(b as int, seconds_of_day as int),
{
    let time = NaiveTime::from_num_seconds_from_midnight_opt(seconds_of_day, 0).unwrap();
    let naive = Local::now().date_naive().and_time(time);
    match Local.from_local_datetime(&naive) {
        chrono::LocalResult::Single(dt) => LocalOutcome::Single(dt.timestamp()),
        chrono::LocalResult::Ambiguous(a, b) => LocalOutcome::Ambiguous(a.timestamp(), b.timestamp()),
        chrono::LocalResult::None => LocalOutcome::Gap,
    }
}

/// Whether `s` is the word "now" in any mix of letter cases.
pub fn is_now_keyword(s: &str) -> (r: bool)
    ensures
        r == is_now_text(s@),
{
    if s.unicode_len() != 3 {
        return false;
    }
    let a = s.get_char(0);
    let b = s.get_char(1);
    let c = s.get_char(2);
    (a == 'n' || a == 'N') && (b == 'o' || b == 'O') && (c == 'w' || c == 'W')
}

/// Each character of an integer text is a digit, or a sign in first place.
proof fn lemma_integer_text_chars(s: Seq<char>)
    requires
        integer_text_value(s) is Some,
    ensures
        forall|i: int| 0 <= i < s.len() ==> is_digit(#[trigger] s[i]) || (i == 0 && (s[i] == '+' || s[i] == '-')),
{
    assert forall|i: int| 0 <= i < s.len() implies is_digit(#[trigger] s[i]) || (i == 0 && (s[i] == '+' || s[i] == '-')) by {
        if i > 0 && s.len() > 0 && (s[0] == '+' || s[0] == '-') && all_digits(s.skip(1)) {
            assert(s.skip(1)[i - 1] == s[i]);
        }
    }
}

/// Picks the result of the first form in the cascade that matched, from the
/// outcomes of each attempt: the "now" keyword, RFC 3339 (taken first only
/// with a `Z` suffix), ISO 8601 with a numeric offset, an integer of Unix seconds (with whether it is
/// representable), a UTC date and time, and a bare time of day resolved in
/// the local zone.
pub fn select_time_format(
    time_str: &str,
    is_now: bool,
    now: i64,
    rfc3339: Option<i64>,
    iso8601: Option<i64>,
    integer: Option<i64>,
    representable: bool,
    naive_utc: Option<i64>,
    clock: bool,
    local: Option<i64>,
) -> (r: Result<(String, i64, TimeFormat), ParseError>)
    ensures
        parsed_view(r) == cascade(
            time_str@,
            is_now,
            now as int,
            opt_int(rfc3339),
            opt_int(iso8601),
            opt_int(integer),
            representable,
            opt_int(naive_utc),
            clock,
            opt_int(local),
        ),
{
    if is_now {
        return Ok((String::from_str("now"), now, TimeFormat::Now));
    }
    let n = time_str.unicode_len();
    let zulu = n > 0 && {
        let c = time_str.get_char(n - 1);
        c == 'Z' || c == 'z'
    };
    if let Some(t) = rfc3339 {
        if zulu {
            return Ok((String::from_str(time_str), t, TimeFormat::RFC3339));
        }
    }
    if let Some(t) = iso8601 {
        return Ok((String::from_str(time_str), t, TimeFormat::ISO8601));
    }
    if let Some(t) = rfc3339 {
        return Ok((String::from_str(time_str), t, TimeFormat::RFC3339));
    }
    if let Some(t) = integer {
        if representable {
            return Ok((String::from_str(time_str), t, TimeFormat::Timestamp));
        }
        return Err(ParseError::TimestampRange);
    }
    if let Some(t) = naive_utc {
        return Ok((String::from_str(time_str), t, TimeFormat::HumanReadable));
    }
    if clock {
        return match local {
            Some(t) => Ok((String::from_str(time_str), t, TimeFormat::TimeOnly)),
            None => Err(ParseError::NonexistentLocalTime),
        };
    }
    Err(ParseError::TimeFormat)
}

/// Reads a time expression: returns the text to echo, the instant in Unix
/// seconds, and the form that matched. The forms are tried in a fixed order
/// and the first that matches wins.
pub fn parse_time(time_str: &str) -> (r: Result<(String, i64, TimeFormat), ParseError>)
    ensures
        exists|now: int, local: Option<int>| #[trigger] parse_spec(time_str@, now, local) == parsed_view(r),
        is_now_text(time_str@) ==> parsed_echo(r) == "now"@ && parsed_format(r) == Some(TimeFormat::Now),
        timestamp_value(time_str@) is Some && utc_representable(timestamp_value(time_str@)->0) ==> parsed_view(r) == Ok::<(Seq<char>, int, TimeFormat), ParseError>((time_str@, timestamp_value(time_str@)->0, TimeFormat::Timestamp)),
        timestamp_value(time_str@) is Some && !utc_representable(timestamp_value(time_str@)->0) ==> r == Err::<(String, i64, TimeFormat), ParseError>(ParseError::TimestampRange),
        parsed_format(r) == Some(TimeFormat::TimeOnly) ==> clock_of(time_str@) is Some && shows_clock(parsed_instant(r), clock_of(time_str@)->0),
{
    let ghost s = time_str@;
    proof {
        if timestamp_value(s) is Some {
            lemma_integer_text_chars(s);
            assert(!is_now_text(s));
            if s.len() > 4 {
                assert(is_digit(s[4]));
            }
            if s.contains('T') {
                let i = choose|i: int| 0 <= i < s.len() && s[i] == 'T';
                assert(is_digit(s[i]) || s[i] == '+' || s[i] == '-');
            }
        }
    }
    let is_now = is_now_keyword(time_str);
    let mut now: i64 = 0;
    let mut rfc3339: Option<i64> = None;
    let mut iso8601: Option<i64> = None;
    let mut integer: Option<i64> = None;
    let mut representable = false;
    let mut naive_utc: Option<i64> = None;
    let mut clock = false;
    let mut local: Option<i64> = None;
    if is_now {
        now = now_seconds();
    } else {
        rfc3339 = parse_rfc3339(time_str);
        let n = time_str.unicode_len();
        let zulu = n > 0 && {
            let c = time_str.get_char(n - 1);
            c == 'Z' || c == 'z'
        };
        if rfc3339.is_none() || !zulu {
            iso8601 = parse_iso8601(time_str);
        }
        if rfc3339.is_none() && iso8601.is_none() {
            integer = parse_integer(time_str);
            if let Some(t) = integer {
                representable = timestamp_representable(t);
            } else {
                naive_utc = parse_naive_utc(time_str);
                if naive_utc.is_none() {
                    let mut secs = parse_clock(time_str, "%H:%M");
                    proof {
                        reveal_strlit("%H:%M");
                    }
                    if secs.is_none() {
                        secs = parse_clock(time_str, "%H:%M:%S");
                    }
                    if let Some(v) = secs {
                        clock = true;
                        let outcome = local_today_at(v);
                        local = resolve_local(&outcome);
                    }
                }
            }
        }
    }
    let r = select_time_format(
        time_str,
        is_now,
        now,
        rfc3339,
        iso8601,
        integer,
        representable,
        naive_utc,
        clock,
        local,
    );
    assert(parse_spec(s, now as int, opt_int(local)) == parsed_view(r));
    r
}

} // verus!
