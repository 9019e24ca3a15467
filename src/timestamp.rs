//! Calendar timestamps and their fixed text form `YYYY-MM-DD YYYY at HH:MM:SS`,
//! the form in which every time field of the persisted data is written.
use vstd::prelude::*;
use vstd::string::StringExecFns;

verus! {

/// A point in time as the calendar fields that the text form carries.
#[derive(Clone, Copy, Debug, PartialEq, Eq, Structural)]
pub struct Timestamp {
    pub year: u16,
    pub month: u8,
    pub day: u8,
    pub hour: u8,
    pub minute: u8,
    pub second: u8,
}

/// The character of a decimal digit.
pub open spec fn digit_char(d: int) -> char {
    if d == 0 { '0' }
    else if d == 1 { '1' }
    else if d == 2 { '2' }
    else if d == 3 { '3' }
    else if d == 4 { '4' }
    else if d == 5 { '5' }
    else if d == 6 { '6' }
    else if d == 7 { '7' }
    else if d == 8 { '8' }
    else { '9' }
}

/// The text form of a timestamp: date, year, and time of day.
pub open spec fn timestamp_text(t: Timestamp) -> Seq<char> {
    let y = t.year as int;
    seq![
        digit_char(y / 1000), digit_char((y / 100) % 10), digit_char((y / 10) % 10),
        digit_char(y % 10), '-',
        digit_char(t.month as int / 10), digit_char(t.month as int % 10), '-',
        digit_char(t.day as int / 10), digit_char(t.day as int % 10), ' ',
        digit_char(y / 1000), digit_char((y / 100) % 10), digit_char((y / 10) % 10),
        digit_char(y % 10), ' ', 'a', 't', ' ',
        digit_char(t.hour as int / 10), digit_char(t.hour as int % 10), ':',
        digit_char(t.minute as int / 10), digit_char(t.minute as int % 10), ':',
        digit_char(t.second as int / 10), digit_char(t.second as int % 10)
    ]
}

impl Timestamp {
    /// Fields within the ranges of a date and time of day, with a year of at
    /// most four digits; day 0 stands for the zero time's day.
    pub open spec fn wf(self) -> bool {
        &&& self.year <= 9999
        &&& 1 <= self.month <= 12
        &&& self.day <= 31
        &&& self.hour <= 23
        &&& self.minute <= 59
        &&& self.second <= 60
    }

    /// Well formed, with a year of four digits: the text form writes the year
    /// without padding, and reads it back only as four digits.
    pub open spec fn writable(self) -> bool {
        &&& self.wf()
        &&& 1000 <= self.year
    }

    /// Whether the timestamp can be written in the text form.
    pub fn is_writable(&self) -> (r: bool)
        ensures
            r == self.writable(),
    {
        1000 <= self.year && self.year <= 9999 && 1 <= self.month && self.month <= 12
            && self.day <= 31 && self.hour <= 23 && self.minute <= 59 && self.second <= 60
    }

    /// The zero time: year 1900, the first month, day 0, midnight.
    pub fn zero() -> (r: Timestamp)
        ensures
            r == (Timestamp { year: 1900, month: 1, day: 0, hour: 0, minute: 0, second: 0 }),
            r.writable(),
    {
        Timestamp { year: 1900, month: 1, day: 0, hour: 0, minute: 0, second: 0 }
    }

    /// Whether `self` lies strictly before `other`.
    pub open spec fn spec_before(self, other: Timestamp) -> bool {
        if self.year != other.year { self.year < other.year }
        else if self.month != other.month { self.month < other.month }
        else if self.day != other.day { self.day < other.day }
        else if self.hour != other.hour { self.hour < other.hour }
        else if self.minute != other.minute { self.minute < other.minute }
        else { self.second < other.second }
    }

    /// Whether `self` lies strictly before `other`.
    pub fn before(&self, other: &Timestamp) -> (r: bool)
        ensures
            r == self.spec_before(*other),
    {
        if self.year != other.year { self.year < other.year }
        else if self.month != other.month { self.month < other.month }
        else if self.day != other.day { self.day < other.day }
        else if self.hour != other.hour { self.hour < other.hour }
        else if self.minute != other.minute { self.minute < other.minute }
        else { self.second < other.second }
    }

    /// The fields that `time::Tm` holds for this timestamp.
    pub fn to_tm(&self) -> (r: (i32, i32, i32, i32, i32, i32))
        requires
            self.wf(),
        ensures
            r == tm_fields(*self),
    {
        (
            self.year as i32 - 1900,
            self.month as i32 - 1,
            self.day as i32,
            self.hour as i32,
            self.minute as i32,
            self.second as i32,
        )
    }

    /// The timestamp that the `time::Tm` fields `f` hold, when they are
    /// within range.
    pub fn from_tm(f: (i32, i32, i32, i32, i32, i32)) -> (r: Option<Timestamp>)
        ensures
            r == timestamp_of_tm(f),
            r matches Some(t) ==> t.wf(),
    {
        let (y, mo, d, h, mi, se) = f;
        if -1900 <= y && y <= 8099 && 0 <= mo && mo <= 11 && 0 <= d && d <= 31 && 0 <= h && h <= 23
            && 0 <= mi && mi <= 59 && 0 <= se && se <= 60 {
            Some(
                Timestamp {
                    year: (y + 1900) as u16,
                    month: (mo + 1) as u8,
                    day: d as u8,
                    hour: h as u8,
                    minute: mi as u8,
                    second: se as u8,
                },
            )
        } else {
            None
        }
    }

    /// The text form of this timestamp.
    pub fn format(&self) -> (r: String)
        requires
            self.writable(),
        ensures
            r@ == timestamp_text(*self),
    {
        let f = self.to_tm();
        proof {
            lemma_tm_round_trip(*self);
        }
        match strftime_tm(TIME_FORMAT, f) {
            Some(text) => text,
            None => String::new(),
        }
    }

    /// Reads a timestamp from its text form. The text of every well-formed
    /// timestamp reads back as that timestamp.
    pub fn parse(s: &str) -> (r: Option<Timestamp>)
        ensures
            r == parsed_time(s@),
            r matches Some(t) ==> t.wf(),
            forall|t: Timestamp| t.writable() && 1 <= t.day && timestamp_text(t) == s@ ==> r == Some(t),
            forall|t: Timestamp| t.writable() && t.day == 0 && timestamp_text(t) == s@ ==> r is None,
    {
        let r = match strptime_tm(s, TIME_FORMAT) {
            Some(f) => Timestamp::from_tm(f),
            None => None,
        };
        proof {
            assert forall|t: Timestamp| t.writable() && 1 <= t.day && timestamp_text(t) == s@ implies r == Some(t) by {
                lemma_tm_round_trip(t);
            }
        }
        r
    }
}

/// The pattern of the timestamp text: date, year, and time of day.
pub const TIME_FORMAT: &'static str = "%F %Y at %T";

/// The fields of `time::Tm` for `t`: years since 1900, months from 0.
pub open spec fn tm_fields(t: Timestamp) -> (i32, i32, i32, i32, i32, i32) {
    (
        (t.year - 1900) as i32,
        (t.month - 1) as i32,
        t.day as i32,
        t.hour as i32,
        t.minute as i32,
        t.second as i32,
    )
}

/// The well-formed timestamp that the `time::Tm` fields `f` hold, if any.
pub open spec fn timestamp_of_tm(f: (i32, i32, i32, i32, i32, i32)) -> Option<Timestamp> {
    if -1900 <= f.0 <= 8099 && 0 <= f.1 <= 11 && 0 <= f.2 <= 31 && 0 <= f.3 <= 23 && 0 <= f.4 <= 59
        && 0 <= f.5 <= 60 {
        Some(
            Timestamp {
                year: (f.0 + 1900) as u16,
                month: (f.1 + 1) as u8,
                day: f.2 as u8,
                hour: f.3 as u8,
                minute: f.4 as u8,
                second: f.5 as u8,
            },
        )
    } else {
        None
    }
}

/// A well-formed timestamp comes back from its `time::Tm` fields.
pub proof fn lemma_tm_round_trip(t: Timestamp)
    requires
        t.wf(),
    ensures
        timestamp_of_tm(tm_fields(t)) == Some(t),
{
}

/// What `time::strptime` reads from `s` with the timestamp pattern, as the
/// fields year since 1900, month from 0, day, hour, minute, second.
pub uninterp spec fn strptime_fields(s: Seq<char>) -> Option<(i32, i32, i32, i32, i32, i32)>;

/// The timestamp that `s` reads as, if any.
pub open spec fn parsed_time(s: Seq<char>) -> Option<Timestamp> {
    match strptime_fields(s) {
        Some(f) => timestamp_of_tm(f),
        None => None,
    }
}

/// Relies on `time::strptime` with `%F %Y at %T`: the result depends on the
/// text alone. `%Y` reads four digits; `%m`, `%d`, `%H`, `%M` and `%S` read
/// one or two within their ranges (months 1 to 12, kept as 0 to 11; seconds
/// up to 60; days 1 to 31); each other pattern character must match. So the
/// text of a writable timestamp reads as its fields, but for day `00`, which
/// `%d` refuses.
#[verifier::external_body]
fn strptime_tm(s: &str, format: &str) -> (r: Option<(i32, i32, i32, i32, i32, i32)>)
    requires
        format@ == TIME_FORMAT@,
    ensures
        r == strptime_fields(s@),
        forall|t: Timestamp| t.writable() && 1 <= t.day && timestamp_text(t) == s@ ==> r == Some(tm_fields(t)),
        forall|t: Timestamp| t.writable() && t.day == 0 && timestamp_text(t) == s@ ==> r is None,
{
    time::strptime(s, format).ok().map(
        |tm| (tm.tm_year, tm.tm_mon, tm.tm_mday, tm.tm_hour, tm.tm_min, tm.tm_sec),
    )
}

/// Relies on `time::strftime` with `%F %Y at %T`: the pattern is valid, so it
/// gives text (its check looks only at the month and weekday, so day 0 is
/// written as `00`). `%Y` writes `tm_year + 1900` (four digits for these years),
/// `%m` writes `tm_mon + 1`, and `%d`, `%H`, `%M`, `%S` write their fields,
/// each in two digits.
#[verifier::external_body]
fn strftime_tm(format: &str, f: (i32, i32, i32, i32, i32, i32)) -> (r: Option<String>)
    requires
        format@ == TIME_FORMAT@,
        timestamp_of_tm(f) is Some,
        timestamp_of_tm(f)->0.writable(),
    ensures
        r is Some,
        r->0@ == timestamp_text(timestamp_of_tm(f)->0),
{
    let tm = time::Tm {
        tm_sec: f.5,
        tm_min: f.4,
        tm_hour: f.3,
        tm_mday: f.2,
        tm_mon: f.1,
        tm_year: f.0,
        tm_wday: 0,
        tm_yday: 0,
        tm_isdst: 0,
        tm_utcoff: 0,
        tm_nsec: 0,
    };
    time::strftime(format, &tm).ok()
}

/// Reads the timestamp whose text is `s`.
pub fn read_time(s: &String) -> (r: Option<Timestamp>)
    ensures
        r == parsed_time(s@),
        r matches Some(t) ==> t.wf(),
        forall|t: Timestamp| t.writable() && 1 <= t.day && timestamp_text(t) == s@ ==> r == Some(t),
        forall|t: Timestamp| t.writable() && t.day == 0 && timestamp_text(t) == s@ ==> r is None,
{
    Timestamp::parse(s.as_str())
}

/// The decimal text of `n`, without leading zeros.
pub open spec fn decimal(n: nat) -> Seq<char>
    decreases n,
{
    if n < 10 {
        seq![digit_char(n as int)]
    } else {
        decimal(n / 10).push(digit_char((n % 10) as int))
    }
}

/// The decimal text of `n`.
pub fn decimal_text(n: u64) -> (r: String)
    ensures
        r@ == decimal(n as nat),
    decreases n,
{
    if n < 10 {
        String::from_str(digit_str(n as u8))
    } else {
        let mut s = decimal_text(n / 10);
        s.append(digit_str((n % 10) as u8));
        s
    }
}

/// The one-character text of a digit.
fn digit_str(d: u8) -> (r: &'static str)
    requires
        d < 10,
    ensures
        r@ == seq![digit_char(d as int)],
{
    proof {
        reveal_strlit("0");
        reveal_strlit("1");
        reveal_strlit("2");
        reveal_strlit("3");
        reveal_strlit("4");
        reveal_strlit("5");
        reveal_strlit("6");
        reveal_strlit("7");
        reveal_strlit("8");
        reveal_strlit("9");
    }
    if d == 0 { "0" }
    else if d == 1 { "1" }
    else if d == 2 { "2" }
    else if d == 3 { "3" }
    else if d == 4 { "4" }
    else if d == 5 { "5" }
    else if d == 6 { "6" }
    else if d == 7 { "7" }
    else if d == 8 { "8" }
    else { "9" }
}

} // verus!
