use vstd::prelude::*;
use vstd::string::*;

verus! {

/// The character for one decimal digit.
pub open spec fn digit_char(digit: nat) -> char
    recommends
        digit < 10,
{
    if digit == 0 {
        '0'
    } else if digit == 1 {
        '1'
    } else if digit == 2 {
        '2'
    } else if digit == 3 {
        '3'
    } else if digit == 4 {
        '4'
    } else if digit == 5 {
        '5'
    } else if digit == 6 {
        '6'
    } else if digit == 7 {
        '7'
    } else if digit == 8 {
        '8'
    } else {
        '9'
    }
}

/// The decimal numeral for `number`: no sign, no leading zeros, `"0"` for zero.
pub open spec fn decimal_text(number: nat) -> Seq<char>
    decreases number,
{
    if number < 10 {
        seq![digit_char(number)]
    } else {
        decimal_text(number / 10).push(digit_char(number % 10))
    }
}

/// How a display shows the age of a reading taken `taken_at_ms` after process
/// start: the whole seconds, in decimal.
pub open spec fn elapsed_text(taken_at_ms: u64) -> Seq<char> {
    decimal_text((taken_at_ms / 1000) as nat)
}

fn digit_str(digit: u64) -> (text: &'static str)
    requires
        digit < 10,
    ensures
        text@ == seq![digit_char(digit as nat)],
{
    proof {
        reveal_strlit("0");
        reveal_strlit("1");
        reveal_strlit("2");
        reveal_strlit("3");
        reveal_strlit("4");
        reveal_strlit("5");
        reveal_strlit("6");
        reveal_strlit("7");
        reveal_strlit("8");
        reveal_strlit("9");
    }
    let text = if digit == 0 {
        "0"
    } else if digit == 1 {
        "1"
    } else if digit == 2 {
        "2"
    } else if digit == 3 {
        "3"
    } else if digit == 4 {
        "4"
    } else if digit == 5 {
        "5"
    } else if digit == 6 {
        "6"
    } else if digit == 7 {
        "7"
    } else if digit == 8 {
        "8"
    } else {
        "9"
    };
    assert(text@ =~= seq![digit_char(digit as nat)]);
    text
}

fn append_decimal(text: &mut String, number: u64)
    ensures
        final(text)@ == old(text)@ + decimal_text(number as nat),
    decreases number,
{
    if number >= 10 {
        append_decimal(text, number / 10);
    }
    text.append(digit_str(number % 10));
    assert(text@ =~= old(text)@ + decimal_text(number as nat));
}

/// Writes `number` in decimal.
pub fn decimal_string(number: u64) -> (text: String)
    ensures
        text@ == decimal_text(number as nat),
{
    let mut text = String::new();
    append_decimal(&mut text, number);
    assert(text@ =~= decimal_text(number as nat));
    text
}

/// The text a display shows for a reading taken `taken_at_ms` after process start.
pub fn elapsed_string(taken_at_ms: u64) -> (text: String)
    ensures
        text@ == elapsed_text(taken_at_ms),
{
    decimal_string(taken_at_ms / 1000)
}

/// How a display writes the moment a reading was taken.
#[derive(Clone, Copy, Debug, PartialEq, Eq, Structural)]
pub enum TimestampStyle {
    /// Whole seconds since the process started, in decimal.
    ElapsedSeconds,
    /// Local date and time of day. The monotonic timestamp is turned into
    /// wall-clock time only here, from the wall-clock time at which the
    /// process started and the local offset from UTC.
    WallClock { started_unix_seconds: i64, utc_offset_seconds: i32 },
}

impl TimestampStyle {
    /// Seconds from 1970-01-01 00:00:00 local time to the moment a reading
    /// stamped `taken_at_ms` was taken, where the style asks for wall-clock
    /// time and that number fits.
    pub open spec fn local_seconds(self, taken_at_ms: u64) -> Option<i64> {
        match self {
            TimestampStyle::ElapsedSeconds => None,
            TimestampStyle::WallClock { started_unix_seconds, utc_offset_seconds } => {
                let total = started_unix_seconds + utc_offset_seconds + taken_at_ms / 1000;
                if i64::MIN <= total <= i64::MAX {
                    Some(total as i64)
                } else {
                    None
                }
            },
        }
    }

    /// The calendar form of the moment a reading stamped `taken_at_ms` was
    /// taken, where the style asks for one and the calendar reaches that far.
    pub open spec fn calendar(self, taken_at_ms: u64) -> Option<Seq<char>> {
        match self.local_seconds(taken_at_ms) {
            Some(seconds) => calendar_text(seconds),
            None => None,
        }
    }

    /// Computes [`TimestampStyle::local_seconds`].
    pub fn local_seconds_of(&self, taken_at_ms: u64) -> (seconds: Option<i64>)
        ensures
            seconds == self.local_seconds(taken_at_ms),
    {
        match self {
            TimestampStyle::ElapsedSeconds => None,
            TimestampStyle::WallClock { started_unix_seconds, utc_offset_seconds } => {
                let total: i128 = *started_unix_seconds as i128 + *utc_offset_seconds as i128 + (
                taken_at_ms / 1000) as i128;
                if i64::MIN as i128 <= total && total <= i64::MAX as i128 {
                    Some(total as i64)
                } else {
                    None
                }
            },
        }
    }

    /// Computes [`TimestampStyle::calendar`].
    pub fn calendar_of(&self, taken_at_ms: u64) -> (text: Option<String>)
        ensures
            match text {
                Some(text) => self.calendar(taken_at_ms) == Some(text@),
                None => self.calendar(taken_at_ms) is None,
            },
    {
        match self.local_seconds_of(taken_at_ms) {
            Some(seconds) => format_calendar(seconds),
            None => None,
        }
    }
}

/// The date and time of day that lie `local_seconds` after
/// 1970-01-01 00:00:00, written as year, month and day with hyphens, a space,
/// then hours, minutes and seconds with colons; `None` where the calendar
/// does not reach that far.
pub uninterp spec fn calendar_text(local_seconds: i64) -> Option<Seq<char>>;

/// Calls `chrono::DateTime::from_timestamp` with no nanoseconds and, where
/// that yields a moment, `chrono::DateTime::format` with the pattern
/// `%Y-%m-%d %H:%M:%S`, written out through `to_string`.
///
/// Trusted: the text depends on `local_seconds` alone, and there is none
/// exactly when chrono has no date for that many seconds. Every item of the
/// pattern is numeric and the moment carries both a date and a time, so
/// writing it out cannot fail.
#[verifier::external_body]
fn format_calendar(local_seconds: i64) -> (text: Option<String>)
    ensures
        match text {
            Some(text) => calendar_text(local_seconds) == Some(text@),
            None => calendar_text(local_seconds) is None,
        },
{
    match chrono::DateTime::from_timestamp(local_seconds, 0) {
        Some(moment) => Some(moment.format("%Y-%m-%d %H:%M:%S").to_string()),
        None => None,
    }
}

/// The timestamp a display shows for a reading stamped `taken_at_ms`: its
/// calendar form where there is one, else the elapsed seconds.
pub open spec fn stamp_text(taken_at_ms: u64, calendar: Option<Seq<char>>) -> Seq<char> {
    match calendar {
        Some(text) => text,
        None => elapsed_text(taken_at_ms),
    }
}

/// Chooses the timestamp to show, given the calendar form if one was made.
pub fn stamp_string(taken_at_ms: u64, calendar: Option<String>) -> (text: String)
    ensures
        text@ == stamp_text(
            taken_at_ms,
            match calendar {
                Some(calendar) => Some(calendar@),
                None => None,
            },
        ),
{
    match calendar {
        Some(text) => text,
        None => elapsed_string(taken_at_ms),
    }
}

} // verus!
