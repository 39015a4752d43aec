use crate::text::{lemma_decimal_len, padded, push_padded};
use crate::time::{is_digit, TimeFormat, MAX_TIMESTAMP, MIN_TIMESTAMP};
use chrono::{Datelike, DateTime, Offset, TimeZone, Timelike};
use chrono_tz::Tz;
use vstd::arithmetic::div_mod::lemma_fundamental_div_mod_converse;
use vstd::prelude::*;
use vstd::string::StringExecFns;

verus! {

/// A zone's wall clock at one instant, with the zone's total offset from UTC
/// (in seconds, east positive) and its abbreviation at that instant.
pub struct LocalTime {
    pub year: i32,
    pub month: u32,
    pub day: u32,
    pub hour: u32,
    pub minute: u32,
    pub second: u32,
    pub offset_seconds: i32,
    pub abbreviation: String,
}

/// Days from 1970-01-01 to the given date of the proleptic Gregorian calendar.
pub open spec fn days_from_civil(year: int, month: int, day: int) -> int {
    let y = if month <= 2 { year - 1 } else { year };
    let era = y / 400;
    let yoe = y - era * 400;
    let mp = (month + 9) % 12;
    let doy = (153 * mp + 2) / 5 + day - 1;
    let doe = yoe * 365 + yoe / 4 - yoe / 100 + doy;
    era * 146097 + doe - 719468
}

impl LocalTime {
    /// Fields within their ranges, and an offset of less than a day.
    pub open spec fn wf(&self) -> bool {
        &&& 1 <= self.month <= 12
        &&& 1 <= self.day <= 31
        &&& self.hour < 24
        &&& self.minute < 60
        &&& self.second < 60
        &&& -86400 < self.offset_seconds < 86400
    }

    /// Seconds after midnight on the wall clock.
    pub open spec fn time_of_day(&self) -> int {
        self.hour * 3600 + self.minute * 60 + self.second
    }

    /// The wall clock is `instant` (Unix seconds) shifted by the offset.
    pub open spec fn shows_instant(&self, instant: int) -> bool {
        days_from_civil(self.year as int, self.month as int, self.day as int) * 86400
            + self.time_of_day() == instant + self.offset_seconds
    }
}

pub open spec fn year_text(y: int) -> Seq<char> {
    if 0 <= y <= 9999 {
        padded(y as nat, 4)
    } else if y < 0 {
        "-"@ + padded((-y) as nat, 4)
    } else {
        "+"@ + padded(y as nat, 4)
    }
}

/// The date and time fields of `l`, with `sep` between date and time.
pub open spec fn body_text(l: LocalTime, sep: Seq<char>) -> Seq<char> {
    year_text(l.year as int) + "-"@ + padded(l.month as nat, 2) + "-"@ + padded(l.day as nat, 2)
        + sep + padded(l.hour as nat, 2) + ":"@ + padded(l.minute as nat, 2) + ":"@
        + padded(l.second as nat, 2)
}

/// RFC 3339 and ISO 8601 inputs render with a `T` between date and time,
/// all others with a space.
pub open spec fn separator(f: TimeFormat) -> Seq<char> {
    match f {
        TimeFormat::RFC3339 | TimeFormat::ISO8601 => "T"@,
        _ => " "@,
    }
}

pub open spec fn abs(x: int) -> int {
    if x < 0 { -x } else { x }
}

/// `±HH:MM`: the sign tells ahead of or behind UTC, then whole hours and the
/// remaining minutes of the offset's magnitude.
pub open spec fn offset_text(offset: int) -> Seq<char> {
    (if offset < 0 { "-"@ } else { "+"@ }) + padded((abs(offset) / 3600) as nat, 2) + ":"@
        + padded(((abs(offset) / 60) % 60) as nat, 2)
}

/// An abbreviation made only of digits and signs, which is itself an offset.
pub open spec fn is_offset_label(a: Seq<char>) -> bool {
    forall|i: int| 0 <= i < a.len() ==> is_digit(#[trigger] a[i]) || a[i] == '+' || a[i] == '-'
}

/// The rendered line for a zone reading: the body, then the abbreviation and
/// the offset, without repeating an offset that the abbreviation already is.
pub open spec fn line_text(body: Seq<char>, abbreviation: Seq<char>, offset: int) -> Seq<char> {
    if abbreviation.len() == 0 {
        body + " ("@ + offset_text(offset) + ")"@
    } else if is_offset_label(abbreviation) {
        body + " "@ + abbreviation
    } else {
        body + " "@ + abbreviation + " ("@ + offset_text(offset) + ")"@
    }
}

pub open spec fn line_of(l: LocalTime, f: TimeFormat) -> Seq<char> {
    line_text(body_text(l, separator(f)), l.abbreviation@, l.offset_seconds as int)
}

/// Formats a zone offset given in seconds east of UTC as `±HH:MM`.
pub fn format_offset(offset_seconds: i32) -> (r: String)
    ensures
        r@ == offset_text(offset_seconds as int),
{
    proof {
        reveal_strlit("-");
        reveal_strlit("+");
        reveal_strlit(":");
    }
    let magnitude: i64 = if offset_seconds < 0 {
        -(offset_seconds as i64)
    } else {
        offset_seconds as i64
    };
    let mut r = if offset_seconds < 0 {
        String::from_str("-")
    } else {
        String::from_str("+")
    };
    push_padded(&mut r, (magnitude / 3600) as u32, 2);
    r.append(":");
    push_padded(&mut r, ((magnitude / 60) % 60) as u32, 2);
    r
}

/// Whether every character of `a` is a digit or a sign.
pub fn is_offset_abbreviation(a: &str) -> (r: bool)
    ensures
        r == is_offset_label(a@),
{
    let n = a.unicode_len();
    let mut i: usize = 0;
    while i < n
        invariant
            n == a@.len(),
            i <= n,
            forall|j: int| 0 <= j < i ==> is_digit(#[trigger] a@[j]) || a@[j] == '+' || a@[j] == '-',
        decreases n - i,
    {
        let c = a.get_char(i);
        if !(('0' <= c && c <= '9') || c == '+' || c == '-') {
            return false;
        }
        i = i + 1;
    }
    true
}

/// Renders a zone reading: the wall clock in the template that the input's
/// form selects, then the abbreviation and the offset.
pub fn format_timezone_output(_timezone: &str, converted: &LocalTime, format: TimeFormat) -> (r:
    String)
    ensures
        r@ == line_of(*converted, format),
{
    proof {
        reveal_strlit("-");
        reveal_strlit("+");
        reveal_strlit(":");
        reveal_strlit("T");
        reveal_strlit(" ");
        reveal_strlit(" (");
        reveal_strlit(")");
    }
    let y = converted.year;
    let mut r = String::new();
    if 0 <= y && y <= 9999 {
        push_padded(&mut r, y as u32, 4);
    } else if y < 0 {
        r.append("-");
        push_padded(&mut r, (-(y as i64)) as u32, 4);
    } else {
        r.append("+");
        push_padded(&mut r, y as u32, 4);
    }
    r.append("-");
    push_padded(&mut r, converted.month, 2);
    r.append("-");
    push_padded(&mut r, converted.day, 2);
    match format {
        TimeFormat::RFC3339 | TimeFormat::ISO8601 => r.append("T"),
        _ => r.append(" "),
    }
    push_padded(&mut r, converted.hour, 2);
    r.append(":");
    push_padded(&mut r, converted.minute, 2);
    r.append(":");
    push_padded(&mut r, converted.second, 2);
    assert(r@ =~= body_text(*converted, separator(format)));
    let abbreviation = converted.abbreviation.as_str();
    if abbreviation.unicode_len() == 0 {
        r.append(" (");
        let o = format_offset(converted.offset_seconds);
        r.append(o.as_str());
        r.append(")");
    } else if is_offset_abbreviation(abbreviation) {
        r.append(" ");
        r.append(abbreviation);
    } else {
        r.append(" ");
        r.append(abbreviation);
        r.append(" (");
        let o = format_offset(converted.offset_seconds);
        r.append(o.as_str());
        r.append(")");
    }
    r
}

/// Whether chrono-tz's table holds a zone of this name.
pub uninterp spec fn zone_known(name: Seq<char>) -> bool;

/// Total offset from UTC, in seconds, of the named zone at `instant`.
pub uninterp spec fn zone_offset(name: Seq<char>, instant: int) -> int;

/// Abbreviation of the named zone at `instant`, as chrono's `%Z` writes it.
pub uninterp spec fn zone_abbreviation(name: Seq<char>, instant: int) -> Seq<char>;

/// Instants whose wall clock in every zone stays within chrono's range: a
/// day inside the range of representable instants.
pub open spec fn renderable(instant: int) -> bool {
    MIN_TIMESTAMP + 86400 <= instant <= MAX_TIMESTAMP - 86400
}

/// Relies on chrono-tz's `FromStr` for `Tz`: an exact lookup in the IANA
/// table compiled into the crate; on failure, that error's message.
#[verifier::external_body]
fn lookup_zone(name: &str) -> (r: Result<(), String>)
    ensures
        r is Ok == zone_known(name@),
{
    match name.parse::<Tz>() {
        Ok(_) => Ok(()),
        Err(e) => Err(e.to_string()),
    }
}

/// Relies on chrono-tz's `FromStr` for `Tz`, chrono's
/// `DateTime::from_timestamp`, the zone's `offset_from_utc_datetime` (its
/// total offset, DST included, always less than a day),
/// `NaiveDateTime::checked_add_offset` for the wall clock, and the `%Z`
/// format for the abbreviation. chrono returns `None` only outside its range
/// of dates; the table's `UTC` zone has offset zero and abbreviation `UTC`.
#[verifier::external_body]
fn zone_reading(name: &str, instant: i64) -> (r: Option<LocalTime>)
    ensures
        zone_known(name@) && renderable(instant as int) ==> r is Some,
        r is Some ==> zone_known(name@),
        r matches Some(l) ==> l.wf() && l.shows_instant(instant as int) && l.offset_seconds
            == zone_offset(name@, instant as int) && l.abbreviation@ == zone_abbreviation(
            name@,
            instant as int,
        ),
        name@ == "UTC"@ ==> (r matches Some(l) ==> l.offset_seconds == 0 && l.abbreviation@
            == "UTC"@),
{
    let tz = name.parse::<Tz>().ok()?;
    let utc = DateTime::from_timestamp(instant, 0)?.naive_utc();
    let offset = tz.offset_from_utc_datetime(&utc).fix();
    let local = utc.checked_add_offset(offset)?;
    let abbreviation = tz.from_utc_datetime(&utc).format("%Z").to_string();
    Some(LocalTime {
        year: local.year(),
        month: local.month(),
        day: local.day(),
        hour: local.hour(),
        minute: local.minute(),
        second: local.second(),
        offset_seconds: offset.local_minus_utc(),
        abbreviation,
    })
}

/// Why one requested zone could not be rendered.
#[derive(Debug)]
pub enum RenderError {
    /// The name is not in the zone table; `reason` is the lookup's message.
    InvalidTimezone { name: String, reason: String },
    /// The instant's wall clock in this zone lies outside the representable range.
    OutOfRange { name: String },
}

pub open spec fn invalid_zone_text(name: Seq<char>, reason: Seq<char>) -> Seq<char> {
    "Invalid timezone '"@ + name + "': "@ + reason
}

pub open spec fn out_of_range_text(name: Seq<char>) -> Seq<char> {
    "Time out of range in timezone '"@ + name + "'"@
}

impl RenderError {
    pub open spec fn message_spec(&self) -> Seq<char> {
        match self {
            RenderError::InvalidTimezone { name, reason } => invalid_zone_text(name@, reason@),
            RenderError::OutOfRange { name } => out_of_range_text(name@),
        }
    }

    /// The text shown to the user for this error.
    pub fn message(&self) -> (r: String)
        ensures
            r@ == self.message_spec(),
    {
        match self {
            RenderError::InvalidTimezone { name, reason } => {
                let mut r = String::from_str("Invalid timezone '");
                r.append(name.as_str());
                r.append("': ");
                r.append(reason.as_str());
                r
            },
            RenderError::OutOfRange { name } => {
                let mut r = String::from_str("Time out of range in timezone '");
                r.append(name.as_str());
                r.append("'");
                r
            },
        }
    }
}

/// `l` is the named zone's wall clock, offset and abbreviation at `instant`.
pub open spec fn reads_zone(l: LocalTime, name: Seq<char>, instant: int) -> bool {
    &&& l.wf()
    &&& l.shows_instant(instant)
    &&& l.offset_seconds == zone_offset(name, instant)
    &&& l.abbreviation@ == zone_abbreviation(name, instant)
}

/// `text` is the rendering of `instant` in the named zone.
pub open spec fn renders_instant(text: Seq<char>, name: Seq<char>, instant: int, format: TimeFormat) -> bool {
    exists|l: LocalTime| #[trigger] reads_zone(l, name, instant) && text == line_of(l, format)
}

/// `text` renders `instant` in the `UTC` zone, read with offset zero and
/// abbreviation `UTC`.
pub open spec fn renders_utc(text: Seq<char>, instant: int, format: TimeFormat) -> bool {
    exists|l: LocalTime| #[trigger] reads_zone(l, "UTC"@, instant) && l.offset_seconds == 0
        && l.abbreviation@ == "UTC"@ && text == line_of(l, format)
}

/// Renders `instant` (Unix seconds) in the named zone.
pub fn render_zone(timezone: &str, instant: i64, format: TimeFormat) -> (r: Result<
    String,
    RenderError,
>)
    ensures
        r is Ok ==> zone_known(timezone@) && renders_instant(r->Ok_0@, timezone@, instant as int, format),
        zone_known(timezone@) && renderable(instant as int) ==> r is Ok,
        timezone@ == "UTC"@ ==> (r is Ok ==> renders_utc(r->Ok_0@, instant as int, format)),
        !zone_known(timezone@) ==> r matches Err(RenderError::InvalidTimezone { .. }),
        r matches Err(RenderError::InvalidTimezone { name, reason }) ==> !zone_known(timezone@)
            && name@ == timezone@,
        r matches Err(RenderError::OutOfRange { name }) ==> zone_known(timezone@) && !renderable(
            instant as int,
        ) && name@ == timezone@,
{
    match lookup_zone(timezone) {
        Err(reason) => Err(RenderError::InvalidTimezone { name: String::from_str(timezone), reason }),
        Ok(()) => match zone_reading(timezone, instant) {
            None => Err(RenderError::OutOfRange { name: String::from_str(timezone) }),
            Some(l) => {
                let line = format_timezone_output(timezone, &l, format);
                assert(reads_zone(l, timezone@, instant as int) && line@ == line_of(l, format));
                proof {
                    if timezone@ == "UTC"@ {
                        assert(reads_zone(l, "UTC"@, instant as int));
                    }
                }
                Ok(line)
            },
        },
    }
}

/// One line of output: a converted time for standard output, or an error
/// for standard error.
#[derive(Debug)]
pub enum OutputLine {
    Converted(String),
    Failed(String),
}

/// `line` is what stands for zone `name`: `<name>: <rendering>` where the
/// zone renders, `Error: <message>` where the name is unknown or the instant
/// lies outside the range in which it can be rendered.
pub open spec fn line_for(name: Seq<char>, instant: int, format: TimeFormat, line: OutputLine) -> bool {
    match line {
        OutputLine::Converted(s) => zone_known(name) && exists|body: Seq<char>|
            #[trigger] renders_instant(body, name, instant, format) && s@ == name + ": "@ + body,
        OutputLine::Failed(s) => (!zone_known(name) && exists|reason: Seq<char>|
            s@ == "Error: "@ + #[trigger] invalid_zone_text(name, reason)) || (zone_known(name)
            && !renderable(instant) && s@ == "Error: "@ + out_of_range_text(name)),
    }
}

/// Renders `instant` in each requested zone, in the order given; a zone that
/// fails gives an error line and the others go on.
pub fn render_lines(timezones: &Vec<String>, instant: i64, format: TimeFormat) -> (r: Vec<OutputLine>)
    ensures
        r@.len() == timezones@.len(),
        forall|i: int| 0 <= i < r@.len() ==> line_for(timezones@[i]@, instant as int, format, #[trigger] r@[i]),
        forall|i: int| 0 <= i < r@.len() && !zone_known(timezones@[i]@) ==> (#[trigger] r@[i]) is Failed,
        forall|i: int| 0 <= i < r@.len() && zone_known(timezones@[i]@) && renderable(instant as int)
            ==> (#[trigger] r@[i]) is Converted,
{
    proof {
        reveal_strlit(": ");
        reveal_strlit("Error: ");
    }
    let mut r: Vec<OutputLine> = Vec::new();
    let mut i: usize = 0;
    while i < timezones.len()
        invariant
            i <= timezones@.len(),
            r@.len() == i,
            forall|j: int| 0 <= j < i ==> line_for(timezones@[j]@, instant as int, format, #[trigger] r@[j]),
            forall|j: int| 0 <= j < i && !zone_known(timezones@[j]@) ==> (#[trigger] r@[j]) is Failed,
            forall|j: int| 0 <= j < i && zone_known(timezones@[j]@) && renderable(instant as int)
                ==> (#[trigger] r@[j]) is Converted,
        decreases timezones@.len() - i,
    {
        let name = timezones[i].as_str();
        let line = match render_zone(name, instant, format) {
            Ok(body) => {
                let mut s = String::from_str(name);
                s.append(": ");
                s.append(body.as_str());
                assert(renders_instant(body@, name@, instant as int, format) && s@ == name@ + ": "@ + body@);
                OutputLine::Converted(s)
            },
            Err(e) => {
                let mut s = String::from_str("Error: ");
                let m = e.message();
                s.append(m.as_str());
                proof {
                    match e {
                        RenderError::InvalidTimezone { name: n, reason } => {
                            assert(n@ == name@);
                            assert(s@ == "Error: "@ + invalid_zone_text(name@, reason@));
                        },
                        RenderError::OutOfRange { name: n } => {},
                    }
                }
                OutputLine::Failed(s)
            },
        };
        r.push(line);
        i = i + 1;
    }
    r
}

/// In a zone whose offset is zero at the instant, the rendered wall clock is
/// the instant's UTC time of day, and the offset reads `+00:00`.
pub proof fn utc_reading_shows_utc_clock(l: LocalTime, instant: int)
    requires
        l.wf(),
        l.shows_instant(instant),
        l.offset_seconds == 0,
    ensures
        l.time_of_day() == instant % 86400,
        offset_text(l.offset_seconds as int) == "+00:00"@,
{
    lemma_fundamental_div_mod_converse(
        instant,
        86400,
        days_from_civil(l.year as int, l.month as int, l.day as int),
        l.time_of_day(),
    );
    reveal_strlit("+00:00");
    reveal_strlit("+");
    reveal_strlit(":");
    assert(offset_text(0) =~= "+00:00"@);
}

/// Rendered in the `UTC` zone, an instant shows its UTC time of day, followed
/// by ` UTC (+00:00)`.
pub proof fn utc_zone_rendering(text: Seq<char>, instant: int, format: TimeFormat)
    requires
        renders_utc(text, instant, format),
    ensures
        exists|l: LocalTime| #[trigger] reads_zone(l, "UTC"@, instant) && l.time_of_day() == instant
            % 86400 && text == body_text(l, separator(format)) + " UTC (+00:00)"@,
{
    let l = choose|l: LocalTime| #[trigger] reads_zone(l, "UTC"@, instant) && l.offset_seconds == 0
        && l.abbreviation@ == "UTC"@ && text == line_of(l, format);
    utc_reading_shows_utc_clock(l, instant);
    reveal_strlit("UTC");
    reveal_strlit(" UTC (+00:00)");
    reveal_strlit("+00:00");
    reveal_strlit(" ");
    reveal_strlit(" (");
    reveal_strlit(")");
    assert(!is_offset_label(l.abbreviation@)) by {
        assert(!is_digit(l.abbreviation@[0]));
    }
    assert(" "@ + "UTC"@ + " ("@ + "+00:00"@ + ")"@ =~= " UTC (+00:00)"@);
    let body = body_text(l, separator(format));
    assert(text =~= body + " UTC (+00:00)"@);
}

/// An abbreviation that is itself an offset appears once, and no offset in
/// parentheses follows it.
pub proof fn offset_abbreviation_not_repeated(l: LocalTime, format: TimeFormat)
    requires
        l.abbreviation@.len() > 0,
        is_offset_label(l.abbreviation@),
    ensures
        line_of(l, format) == body_text(l, separator(format)) + " "@ + l.abbreviation@,
{
}

/// A named abbreviation is followed by the offset: `<body> <ABBR> (±HH:MM)`,
/// where the offset has a sign, two hour digits, a colon and two minute digits.
pub proof fn named_abbreviation_with_offset(l: LocalTime, format: TimeFormat)
    requires
        l.wf(),
        l.abbreviation@.len() > 0,
        !is_offset_label(l.abbreviation@),
    ensures
        line_of(l, format) == body_text(l, separator(format)) + " "@ + l.abbreviation@ + " ("@
            + offset_text(l.offset_seconds as int) + ")"@,
        offset_text(l.offset_seconds as int).len() == 6,
        offset_text(l.offset_seconds as int)[0] == '+' || offset_text(l.offset_seconds as int)[0] == '-',
        offset_text(l.offset_seconds as int)[3] == ':',
{
    let o = l.offset_seconds as int;
    lemma_decimal_len((abs(o) / 3600) as nat);
    lemma_decimal_len(((abs(o) / 60) % 60) as nat);
    reveal_strlit("+");
    reveal_strlit("-");
    reveal_strlit(":");
}

} // verus!
