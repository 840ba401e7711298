//! Camera timestamps: parsing the fixed EXIF layout `YYYY:MM:DD HH:MM:SS`
//! and rendering the parsed value as text.
use chrono::{Datelike, Timelike};
use vstd::prelude::*;

verus! {

/// A date and time of day without a time zone, as the parser splits it.
#[derive(Clone, Copy, Debug, PartialEq, Eq, Structural)]
pub struct CaptureTime {
    pub year: i32,
    pub month: u32,
    pub day: u32,
    pub hour: u32,
    pub minute: u32,
    pub second: u32,
    /// Fraction of the second; values from one billion on mark a leap second.
    pub nanosecond: u32,
}

/// Year, month, day, hour, minute, second and nanosecond.
pub type Fields = (int, int, int, int, int, int, int);

impl CaptureTime {
    pub open spec fn fields(self) -> Fields {
        (
            self.year as int,
            self.month as int,
            self.day as int,
            self.hour as int,
            self.minute as int,
            self.second as int,
            self.nanosecond as int,
        )
    }
}

/// What the parser makes of `s` under the layout `%Y:%m:%d %H:%M:%S`.
pub uninterp spec fn camera_date(s: Seq<char>) -> Option<Fields>;

/// The text that the date-time with fields `f` displays as, if `f` is one.
pub uninterp spec fn naive_text(f: Fields) -> Option<Seq<char>>;

pub open spec fn is_leap_year(y: int) -> bool {
    (y % 4 == 0 && y % 100 != 0) || y % 400 == 0
}

pub open spec fn days_in_month(y: int, m: int) -> int {
    if m == 2 {
        if is_leap_year(y) { 29 } else { 28 }
    } else if m == 4 || m == 6 || m == 9 || m == 11 {
        30
    } else {
        31
    }
}

/// A calendar date and a time of day with whole seconds and no leap second.
pub open spec fn valid_civil(y: int, mo: int, d: int, h: int, mi: int, s: int) -> bool {
    1 <= mo <= 12 && 1 <= d <= days_in_month(y, mo) && 0 <= h < 24 && 0 <= mi < 60 && 0 <= s < 60
}

pub open spec fn is_digit(c: char) -> bool {
    '0' <= c && c <= '9'
}

pub open spec fn digit(c: char) -> int {
    c as int - '0' as int
}

/// The number written by the digits of `s` from `i` to `j`, most significant first.
pub open spec fn number_at(s: Seq<char>, i: int, j: int) -> int
    decreases j - i,
{
    if j <= i {
        0
    } else {
        10 * number_at(s, i, j - 1) + digit(s[j - 1])
    }
}

/// `s` is `DDDD?DD?DD DD!DD!DD` with `?` the date separator and `!` the time
/// separator, every `D` a decimal digit.
pub open spec fn fixed_layout(s: Seq<char>, date_sep: char, time_sep: char) -> bool {
    &&& s.len() == 19
    &&& s[4] == date_sep && s[7] == date_sep
    &&& s[10] == ' '
    &&& s[13] == time_sep && s[16] == time_sep
    &&& forall|i: int|
        0 <= i < 19 && i != 4 && i != 7 && i != 10 && i != 13 && i != 16 ==> is_digit(#[trigger] s[i])
}

/// The six numbers that a text in the fixed layout writes.
pub open spec fn layout_fields(s: Seq<char>) -> (int, int, int, int, int, int) {
    (
        number_at(s, 0, 4),
        number_at(s, 5, 7),
        number_at(s, 8, 10),
        number_at(s, 11, 13),
        number_at(s, 14, 16),
        number_at(s, 17, 19),
    )
}

/// A camera timestamp in its exact layout that names a real date and time.
pub open spec fn canonical_camera_date(s: Seq<char>) -> bool {
    let (y, mo, d, h, mi, sec) = layout_fields(s);
    fixed_layout(s, ':', ':') && valid_civil(y, mo, d, h, mi, sec)
}

/// `t` is the display text `YYYY-MM-DD HH:MM:SS` of the given numbers.
pub open spec fn displays_as(t: Seq<char>, f: (int, int, int, int, int, int)) -> bool {
    fixed_layout(t, '-', ':') && layout_fields(t) == f
}

/// Relies on chrono::NaiveDateTime::parse_from_str with `%Y:%m:%d %H:%M:%S`:
/// the parsed date and time read back field by field. Its parser takes each
/// field as up to its width in digits, so a text in the exact layout that
/// names a real date and time parses to the numbers it writes.
#[verifier::external_body]
fn parse_camera_date(s: &str) -> (r: Option<CaptureTime>)
    ensures
        r is Some <==> camera_date(s@) is Some,
        r is Some ==> r->0.fields() == camera_date(s@)->0,
        canonical_camera_date(s@) ==> ({
            let (y, mo, d, h, mi, sec) = layout_fields(s@);
            r is Some && r->0.fields() == (y, mo, d, h, mi, sec, 0int)
        }),
{
    chrono::NaiveDateTime::parse_from_str(s, "%Y:%m:%d %H:%M:%S").ok().map(|d| CaptureTime {
        year: d.year(),
        month: d.month(),
        day: d.day(),
        hour: d.hour(),
        minute: d.minute(),
        second: d.second(),
        nanosecond: d.nanosecond(),
    })
}

/// Relies on chrono's Display of NaiveDateTime: `YYYY-MM-DD HH:MM:SS` for a
/// year from 0 to 9999 and a whole second; None where the fields name no
/// date-time.
#[verifier::external_body]
fn render_date_time(t: &CaptureTime) -> (r: Option<String>)
    ensures
        r is Some <==> naive_text(t.fields()) is Some,
        r is Some ==> r->0@ == naive_text(t.fields())->0,
        valid_civil(t.year as int, t.month as int, t.day as int, t.hour as int, t.minute as int, t.second as int)
            && 0 <= t.year <= 9999 && t.nanosecond == 0 ==> ({
            r is Some && displays_as(r->0@, (t.year as int, t.month as int, t.day as int, t.hour as int, t.minute as int, t.second as int))
        }),
{
    chrono::NaiveDate::from_ymd_opt(t.year, t.month, t.day)
        .and_then(|d| d.and_hms_nano_opt(t.hour, t.minute, t.second, t.nanosecond))
        .map(|d| d.to_string())
}

proof fn lemma_four_digits(s: Seq<char>)
    requires
        fixed_layout(s, ':', ':'),
    ensures
        0 <= number_at(s, 0, 4) <= 9999,
{
    assert(is_digit(s[0]) && is_digit(s[1]) && is_digit(s[2]) && is_digit(s[3]));
    reveal_with_fuel(number_at, 5);
}

/// What `normalize_date` yields for `s`.
pub open spec fn normalized_date(s: Seq<char>) -> Option<Seq<char>> {
    match camera_date(s) {
        Some(f) => naive_text(f),
        None => None,
    }
}

/// Parses a camera timestamp and renders it as display text; absent where
/// the text does not parse.
pub fn normalize_date(s: &str) -> (r: Option<String>)
    ensures
        r is Some <==> normalized_date(s@) is Some,
        r is Some ==> r->0@ == normalized_date(s@)->0,
        canonical_camera_date(s@) ==> r is Some && displays_as(r->0@, layout_fields(s@)),
{
    match parse_camera_date(s) {
        Some(t) => {
            proof {
                if canonical_camera_date(s@) {
                    lemma_four_digits(s@);
                }
            }
            render_date_time(&t)
        },
        None => None,
    }
}

} // verus!
