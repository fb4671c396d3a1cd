use vstd::prelude::*;

verus! {

/// The earliest year that chrono's calendar holds.
pub const MIN_YEAR: i32 = -262143;

/// The latest year that chrono's calendar holds.
pub const MAX_YEAR: i32 = 262142;

/// A local date and time of day, to the nanosecond, as plain fields.
#[derive(Debug, Clone, Copy, PartialEq, Eq, Structural)]
pub struct Timestamp {
    pub year: i32,
    pub month: u32,
    pub day: u32,
    pub hour: u32,
    pub minute: u32,
    pub second: u32,
    pub nanosecond: u32,
}

/// Leap years of the proleptic Gregorian calendar.
pub open spec fn is_leap_year(y: int) -> bool {
    (y % 4 == 0 && y % 100 != 0) || y % 400 == 0
}

pub open spec fn days_in_month(y: int, m: int) -> int {
    if m == 2 {
        if is_leap_year(y) { 29 } else { 28 }
    } else if m == 4 || m == 6 || m == 9 || m == 11 {
        30
    } else {
        31
    }
}

impl Timestamp {
    /// A real calendar date within chrono's range, and a time of day without
    /// a leap second.
    pub open spec fn wf(&self) -> bool {
        &&& MIN_YEAR <= self.year <= MAX_YEAR
        &&& 1 <= self.month <= 12
        &&& 1 <= self.day <= days_in_month(self.year as int, self.month as int)
        &&& self.hour < 24
        &&& self.minute < 60
        &&& self.second < 60
        &&& self.nanosecond < 1_000_000_000
    }

    pub open spec fn millisecond(&self) -> nat {
        (self.nanosecond / 1_000_000) as nat
    }
}

pub open spec fn digit(d: nat) -> char {
    seq!['0', '1', '2', '3', '4', '5', '6', '7', '8', '9'][(d % 10) as int]
}

/// The decimal digits of `n`, without leading zeros.
pub open spec fn decimal(n: nat) -> Seq<char>
    decreases n,
{
    if n < 10 {
        seq![digit(n)]
    } else {
        decimal(n / 10).push(digit(n % 10))
    }
}

/// The decimal digits of `n`, with zeros in front up to `width` characters.
pub open spec fn zero_padded(n: nat, width: nat) -> Seq<char> {
    let ds = decimal(n);
    if ds.len() >= width {
        ds
    } else {
        Seq::new((width - ds.len()) as nat, |i: int| '0') + ds
    }
}

/// A year as `%Y` writes it: four digits at least, and a sign outside
/// 0 to 9999.
pub open spec fn year_text(y: int) -> Seq<char> {
    if 0 <= y <= 9999 {
        zero_padded(y as nat, 4)
    } else if y < 0 {
        seq!['-'] + zero_padded((-y) as nat, 4)
    } else {
        seq!['+'] + zero_padded(y as nat, 4)
    }
}

/// `YYYY-MM-DD hh:mm:ss.mmm`
pub open spec fn display_text(t: Timestamp) -> Seq<char> {
    year_text(t.year as int) + seq!['-'] + zero_padded(t.month as nat, 2) + seq!['-']
        + zero_padded(t.day as nat, 2) + seq![' '] + zero_padded(t.hour as nat, 2) + seq![':']
        + zero_padded(t.minute as nat, 2) + seq![':'] + zero_padded(t.second as nat, 2) + seq![
        '.',
    ] + zero_padded(t.millisecond(), 3)
}

/// The strftime pattern for `display_text`.
pub open spec fn display_pattern() -> Seq<char> {
    "%Y-%m-%d %H:%M:%S%.3f"@
}

/// Relies on chrono's `NaiveDate::from_ymd_opt` and
/// `NaiveDate::and_hms_nano_opt`, which accept every valid timestamp, and on
/// `NaiveDateTime::format`, which with the pattern `%Y-%m-%d %H:%M:%S%.3f`
/// writes the fields as `display_text` spells them.
#[verifier::external_body]
fn chrono_format(t: &Timestamp, pattern: &str) -> (r: String)
    requires
        t.wf(),
        pattern@ == display_pattern(),
    ensures
        r@ == display_text(*t),
{
    let date = chrono::NaiveDate::from_ymd_opt(t.year, t.month, t.day).unwrap();
    let time = date.and_hms_nano_opt(t.hour, t.minute, t.second, t.nanosecond).unwrap();
    time.format(pattern).to_string()
}

/// Relies on chrono's `From<SystemTime> for DateTime<Local>`, applied to
/// `SystemTime::now()`: it turns the system clock, before 1970 too, into a
/// valid local date and time without a leap second. chrono still panics on a
/// clock outside its year range, and on time-zone data that gives no usable
/// local time type or offset; no argument can rule those out.
#[verifier::external_body]
fn chrono_local_now() -> (r: Timestamp)
    ensures
        r.wf(),
{
    let now = chrono::DateTime::<chrono::Local>::from(std::time::SystemTime::now());
    Timestamp {
        year: chrono::Datelike::year(&now),
        month: chrono::Datelike::month(&now),
        day: chrono::Datelike::day(&now),
        hour: chrono::Timelike::hour(&now),
        minute: chrono::Timelike::minute(&now),
        second: chrono::Timelike::second(&now),
        nanosecond: chrono::Timelike::nanosecond(&now),
    }
}

pub fn is_leap(year: i32) -> (r: bool)
    ensures
        r == is_leap_year(year as int),
{
    (year % 4 == 0 && year % 100 != 0) || year % 400 == 0
}

impl Timestamp {
    /// The current local date and time.
    pub fn now() -> (r: Timestamp)
        ensures
            r.wf(),
    {
        chrono_local_now()
    }

    /// Whether the fields name a real date and time of day.
    pub fn is_valid(&self) -> (r: bool)
        ensures
            r == self.wf(),
    {
        if self.year < MIN_YEAR || self.year > MAX_YEAR || self.month < 1 || self.month > 12 {
            return false;
        }
        let days: u32 = if self.month == 2 {
            if is_leap(self.year) {
                29
            } else {
                28
            }
        } else if self.month == 4 || self.month == 6 || self.month == 9 || self.month == 11 {
            30
        } else {
            31
        };
        1 <= self.day && self.day <= days && self.hour < 24 && self.minute < 60 && self.second
            < 60 && self.nanosecond < 1_000_000_000
    }

    /// The timestamp as `YYYY-MM-DD hh:mm:ss.mmm`, the milliseconds cut
    /// rather than rounded.
    pub fn to_display_string(&self) -> (r: String)
        requires
            self.wf(),
        ensures
            r@ == display_text(*self),
    {
        chrono_format(self, "%Y-%m-%d %H:%M:%S%.3f")
    }
}

} // verus!
