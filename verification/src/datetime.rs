//! Local dates and times as a directory listing shows them: the parts of a
//! date and time, and their text in chrono's `"%Y-%m-%d %T"` format.

use vstd::prelude::*;
use crate::text::decimal;

verus! {

/// A leap year of the proleptic Gregorian calendar.
pub open spec fn is_leap_year(y: int) -> bool {
    y % 4 == 0 && (y % 100 != 0 || y % 400 == 0)
}

/// The number of days of month `m` (1 to 12) of year `y`.
pub open spec fn days_in_month(y: int, m: int) -> int {
    if m == 2 {
        if is_leap_year(y) { 29 } else { 28 }
    } else if m == 4 || m == 6 || m == 9 || m == 11 {
        30
    } else {
        31
    }
}

/// The parts that chrono accepts as a date and time
/// (`NaiveDate::from_ymd_opt`, then `and_hms_nano_opt`): a year from -262143
/// to 262142, a month from 1 to 12, a day of that month, an hour below 24, a
/// minute and a second below 60, and a nanosecond below 2_000_000_000, at
/// least 1_000_000_000 only in second 59 (a leap second).
pub open spec fn valid_date_time(
    year: i32,
    month: u32,
    day: u32,
    hour: u32,
    minute: u32,
    second: u32,
    nanosecond: u32,
) -> bool {
    &&& -262143 <= year <= 262142
    &&& 1 <= month <= 12
    &&& 1 <= day <= days_in_month(year as int, month as int)
    &&& hour < 24
    &&& minute < 60
    &&& second < 60
    &&& nanosecond < 2_000_000_000
    &&& nanosecond >= 1_000_000_000 ==> second == 59
}

/// The decimal digits of `n`, with zeros in front up to `width` characters.
pub open spec fn zero_padded(n: nat, width: nat) -> Seq<char> {
    let d = decimal(n);
    if d.len() >= width {
        d
    } else {
        Seq::new((width - d.len()) as nat, |i: int| '0') + d
    }
}

/// chrono's `%Y`: four digits, zero-padded, for the years 0 to 9999; a sign
/// and at least four digits otherwise.
pub open spec fn year_text(y: int) -> Seq<char> {
    if 0 <= y <= 9999 {
        zero_padded(y as nat, 4)
    } else if y < 0 {
        seq!['-'] + zero_padded((-y) as nat, 4)
    } else {
        seq!['+'] + zero_padded(y as nat, 4)
    }
}

/// chrono's `"%Y-%m-%d %T"` for these parts: year, then month, day, hour,
/// minute and second in two digits each; a leap second shows as second 60.
pub open spec fn date_time_text(
    year: i32,
    month: u32,
    day: u32,
    hour: u32,
    minute: u32,
    second: u32,
    nanosecond: u32,
) -> Seq<char> {
    year_text(year as int) + seq!['-'] + zero_padded(month as nat, 2) + seq!['-']
        + zero_padded(day as nat, 2) + seq![' '] + zero_padded(hour as nat, 2) + seq![':']
        + zero_padded(minute as nat, 2) + seq![':']
        + zero_padded((second + nanosecond / 1_000_000_000) as nat, 2)
}

/// Builds a `chrono::NaiveDateTime` from the parts with
/// `NaiveDate::from_ymd_opt` and `and_hms_nano_opt` and formats it with
/// `"%Y-%m-%d %T"`. Claimed, from chrono's source: `None` exactly when the
/// parts are no valid date and time; otherwise the text `date_time_text`
/// states (chrono's `write_year`, `write_two`, and the `Second` item, which
/// adds the leap second).
#[verifier::external_body]
fn chrono_format(
    year: i32,
    month: u32,
    day: u32,
    hour: u32,
    minute: u32,
    second: u32,
    nanosecond: u32,
) -> (r: Option<String>)
    ensures
        match r {
            Some(s) => valid_date_time(year, month, day, hour, minute, second, nanosecond)
                && s@ == date_time_text(year, month, day, hour, minute, second, nanosecond),
            None => !valid_date_time(year, month, day, hour, minute, second, nanosecond),
        },
{
    match chrono::NaiveDate::from_ymd_opt(year, month, day) {
        Some(date) => match date.and_hms_nano_opt(hour, minute, second, nanosecond) {
            Some(t) => Some(t.format("%Y-%m-%d %T").to_string()),
            None => None,
        },
        None => None,
    }
}

/// A local date and time (a file's modification time), with its text.
pub struct LocalTime {
    year: i32,
    month: u32,
    day: u32,
    hour: u32,
    minute: u32,
    second: u32,
    nanosecond: u32,
    text: String,
}

impl LocalTime {
    /// The parts are a valid date and time, and the text is theirs.
    #[verifier::type_invariant]
    spec fn well_formed(self) -> bool {
        &&& valid_date_time(
            self.year,
            self.month,
            self.day,
            self.hour,
            self.minute,
            self.second,
            self.nanosecond,
        )
        &&& self.text@ == date_time_text(
            self.year,
            self.month,
            self.day,
            self.hour,
            self.minute,
            self.second,
            self.nanosecond,
        )
    }

    /// The parts: year, month, day, hour, minute, second, nanosecond.
    pub closed spec fn parts(&self) -> (i32, u32, u32, u32, u32, u32, u32) {
        (self.year, self.month, self.day, self.hour, self.minute, self.second, self.nanosecond)
    }

    /// The text, `"%Y-%m-%d %T"` of the date and time.
    pub closed spec fn text(&self) -> Seq<char> {
        self.text@
    }

    /// A local date and time from its parts, or `None` when they are no
    /// valid date and time.
    pub fn new(
        year: i32,
        month: u32,
        day: u32,
        hour: u32,
        minute: u32,
        second: u32,
        nanosecond: u32,
    ) -> (r: Option<LocalTime>)
        ensures
            r is Some <==> valid_date_time(year, month, day, hour, minute, second, nanosecond),
            r matches Some(t) ==> t.parts() == (year, month, day, hour, minute, second, nanosecond)
                && t.text() == date_time_text(year, month, day, hour, minute, second, nanosecond),
    {
        match chrono_format(year, month, day, hour, minute, second, nanosecond) {
            Some(text) => Some(LocalTime { year, month, day, hour, minute, second, nanosecond, text }),
            None => None,
        }
    }

    /// The text of the date and time.
    pub fn text_str(&self) -> (s: &str)
        ensures
            s@ == self.text(),
            ({
                let (y, mo, d, h, mi, sec, ns) = self.parts();
                valid_date_time(y, mo, d, h, mi, sec, ns) && s@ == date_time_text(y, mo, d, h, mi, sec, ns)
            }),
    {
        proof {
            use_type_invariant(self);
        }
        self.text.as_str()
    }
}

/// A decimal rendering has at least one digit.
proof fn lemma_decimal_nonempty(n: nat)
    ensures
        decimal(n).len() >= 1,
    decreases n,
{
    if n >= 10 {
        lemma_decimal_nonempty(n / 10);
    }
}

/// A value below 10000 has at most four digits.
proof fn lemma_decimal_at_most_four(n: nat)
    requires
        n < 10000,
    ensures
        decimal(n).len() <= 4,
{
    if n >= 10 {
        let a = n / 10;
        assert(decimal(n).len() == decimal(a).len() + 1);
        if a >= 10 {
            let b = a / 10;
            assert(decimal(a).len() == decimal(b).len() + 1);
            if b >= 10 {
                let c = b / 10;
                assert(c < 10);
                assert(decimal(b).len() == decimal(c).len() + 1);
                assert(decimal(c).len() == 1);
            }
        }
    }
}

/// A value below 100 is shown in exactly two digits.
pub proof fn lemma_two_digits(n: nat)
    requires
        n < 100,
    ensures
        zero_padded(n, 2).len() == 2,
{
    lemma_decimal_nonempty(n);
    if n >= 10 {
        lemma_decimal_nonempty(n / 10);
        assert(n / 10 < 10);
    }
}

/// For the years 0 to 9999, the text of a date and time has 19 characters.
pub proof fn law_date_time_text_length(
    year: i32,
    month: u32,
    day: u32,
    hour: u32,
    minute: u32,
    second: u32,
    nanosecond: u32,
)
    requires
        valid_date_time(year, month, day, hour, minute, second, nanosecond),
        0 <= year <= 9999,
    ensures
        date_time_text(year, month, day, hour, minute, second, nanosecond).len() == 19,
{
    let y = year as nat;
    lemma_decimal_nonempty(y);
    lemma_decimal_at_most_four(y);
    lemma_two_digits(month as nat);
    lemma_two_digits(day as nat);
    lemma_two_digits(hour as nat);
    lemma_two_digits(minute as nat);
    lemma_two_digits((second + nanosecond / 1_000_000_000) as nat);
}

} // verus!
