//! The modification-time column: local calendar time, in a compact human
//! form (`D Mon 'YY HH:MM`) or a sortable one (`YYYY-MM-DD HH:MM`).
use vstd::prelude::*;
use vstd::string::StringExecFns;

use crate::arguments::{Arguments, HasColor};
use crate::entry::Entry;
use crate::style::{views, Color, Span, SpanView};
use crate::text::{aligned_with, decimal, decimal_string, pad_left, pad_with, right_aligned};

verus! {

/// The width of the column.
pub const WIDTH: usize = 16;

/// A calendar date and time of day, to the minute.
#[derive(Clone, Copy, Debug, PartialEq, Eq, Structural)]
pub struct CivilTime {
    pub year: i32,
    /// From 1 (January) to 12.
    pub month: u8,
    pub day: u8,
    pub hour: u8,
    pub minute: u8,
}

impl CivilTime {
    /// Every field is in its calendar range.
    pub open spec fn wf(self) -> bool {
        &&& -9999 <= self.year <= 9999
        &&& 1 <= self.month <= 12
        &&& 1 <= self.day <= 31
        &&& self.hour < 24
        &&& self.minute < 60
    }
}

/// The calendar time of a Unix timestamp at a UTC offset in seconds, as the
/// time crate computes it, where both are in its range.
pub uninterp spec fn civil_of(seconds: i64, offset: i32) -> Option<CivilTime>;

/// Relies on the time crate: `OffsetDateTime::from_unix_timestamp`, then
/// `checked_to_offset` with `UtcOffset::from_whole_seconds`, and the calendar
/// fields of the result. Each step fails outside the crate's range; the
/// fields are within the calendar's.
#[verifier::external_body]
fn civil_time(seconds: i64, offset: i32) -> (r: Option<CivilTime>)
    ensures
        r == civil_of(seconds, offset),
        r matches Some(c) ==> c.wf(),
{
    let utc = time::OffsetDateTime::from_unix_timestamp(seconds).ok()?;
    let t = utc.checked_to_offset(time::UtcOffset::from_whole_seconds(offset).ok()?)?;
    Some(CivilTime { year: t.year(), month: u8::from(t.month()), day: t.day(), hour: t.hour(), minute: t.minute() })
}

/// Two digits, zero-padded.
pub open spec fn two_digits(n: nat) -> Seq<char> {
    pad_with(decimal(n), 2, '0')
}

/// Two characters, space-padded.
pub open spec fn two_spaced(n: nat) -> Seq<char> {
    pad_left(decimal(n), 2)
}

/// The year in at least four digits, with a sign only when negative.
pub open spec fn year_text(y: int) -> Seq<char> {
    if y < 0 {
        seq!['-'] + pad_with(decimal((-y) as nat), 4, '0')
    } else {
        pad_with(decimal(y as nat), 4, '0')
    }
}

/// The abbreviated name of a month.
pub open spec fn month_abbr(m: int) -> Seq<char> {
    if m == 1 {
        "Jan"@
    } else if m == 2 {
        "Feb"@
    } else if m == 3 {
        "Mar"@
    } else if m == 4 {
        "Apr"@
    } else if m == 5 {
        "May"@
    } else if m == 6 {
        "Jun"@
    } else if m == 7 {
        "Jul"@
    } else if m == 8 {
        "Aug"@
    } else if m == 9 {
        "Sep"@
    } else if m == 10 {
        "Oct"@
    } else if m == 11 {
        "Nov"@
    } else {
        "Dec"@
    }
}

/// The text of a calendar time: `D Mon 'YY HH:MM` (day and hour
/// space-padded) or `YYYY-MM-DD HH:MM`.
pub open spec fn time_text(c: CivilTime, human_readable: bool) -> Seq<char> {
    if human_readable {
        two_spaced(c.day as nat) + seq![' '] + month_abbr(c.month as int) + seq![' ', '\''] + two_digits(
            ((if c.year < 0 { -c.year } else { c.year as int }) % 100) as nat,
        ) + seq![' '] + two_spaced(c.hour as nat) + seq![':'] + two_digits(c.minute as nat)
    } else {
        year_text(c.year as int) + seq!['-'] + two_digits(c.month as nat) + seq!['-'] + two_digits(
            c.day as nat,
        ) + seq![' '] + two_digits(c.hour as nat) + seq![':'] + two_digits(c.minute as nat)
    }
}

/// The placeholder for a time that cannot be had.
pub open spec fn no_time() -> SpanView {
    (pad_left("-"@, WIDTH as nat), Some(Color::BrightBlack))
}

/// The calendar time to show for a timestamp: at the offset, or in UTC where
/// the offset cannot be applied.
pub open spec fn local_civil(seconds: i64, offset: i32) -> Option<CivilTime> {
    match civil_of(seconds, offset) {
        Some(c) => Some(c),
        None => civil_of(seconds, 0),
    }
}

fn abbr_of(m: u8) -> (r: &'static str)
    ensures
        r@ == month_abbr(m as int),
{
    if m == 1 {
        "Jan"
    } else if m == 2 {
        "Feb"
    } else if m == 3 {
        "Mar"
    } else if m == 4 {
        "Apr"
    } else if m == 5 {
        "May"
    } else if m == 6 {
        "Jun"
    } else if m == 7 {
        "Jul"
    } else if m == 8 {
        "Aug"
    } else if m == 9 {
        "Sep"
    } else if m == 10 {
        "Oct"
    } else if m == 11 {
        "Nov"
    } else {
        "Dec"
    }
}

fn two_digits_of(n: u64) -> (r: String)
    ensures
        r@ == two_digits(n as nat),
{
    aligned_with(decimal_string(n).as_str(), 2, '0')
}

fn two_spaced_of(n: u64) -> (r: String)
    ensures
        r@ == two_spaced(n as nat),
{
    right_aligned(decimal_string(n).as_str(), 2)
}

/// Formats a calendar time in the human form or the sortable one.
pub fn format_time(c: CivilTime, human_readable: bool) -> (r: String)
    requires
        c.wf(),
    ensures
        r@ == time_text(c, human_readable),
{
    proof {
        reveal_strlit(" ");
        reveal_strlit(" '");
        reveal_strlit(":");
        reveal_strlit("-");
    }
    let magnitude: u64 = if c.year < 0 {
        (-(c.year as i64)) as u64
    } else {
        c.year as u64
    };
    if human_readable {
        let mut s = two_spaced_of(c.day as u64);
        s.append(" ");
        s.append(abbr_of(c.month));
        s.append(" '");
        s.append(two_digits_of(magnitude % 100).as_str());
        s.append(" ");
        s.append(two_spaced_of(c.hour as u64).as_str());
        s.append(":");
        s.append(two_digits_of(c.minute as u64).as_str());
        assert(s@ =~= time_text(c, human_readable));
        s
    } else {
        let mut s = if c.year < 0 {
            String::from_str("-")
        } else {
            String::new()
        };
        s.append(aligned_with(decimal_string(magnitude).as_str(), 4, '0').as_str());
        s.append("-");
        s.append(two_digits_of(c.month as u64).as_str());
        s.append("-");
        s.append(two_digits_of(c.day as u64).as_str());
        s.append(" ");
        s.append(two_digits_of(c.hour as u64).as_str());
        s.append(":");
        s.append(two_digits_of(c.minute as u64).as_str());
        assert(s@ =~= time_text(c, human_readable));
        s
    }
}

/// Displays an entry's modification date.
#[derive(Clone, Copy, Debug, PartialEq, Eq, Structural)]
pub struct ModifiedDisplay {
    /// Whether to use color.
    pub color: Option<bool>,
    /// Whether to use the human form.
    pub human_readable: bool,
}

impl HasColor for ModifiedDisplay {
    open spec fn color_spec(&self) -> Option<bool> {
        self.color
    }

    fn has_color(&self) -> (r: Option<bool>) {
        self.color
    }
}

impl ModifiedDisplay {
    /// The modification-time column of `e` at the UTC offset `offset`.
    pub open spec fn modified_spans(&self, e: Entry, offset: i32) -> Seq<SpanView> {
        match e.data.modified {
            Some(t) => match local_civil(t.seconds, offset) {
                Some(c) => seq![(time_text(c, self.human_readable), Some(Color::BrightBlue))],
                None => seq![no_time()],
            },
            None => seq![no_time()],
        }
    }

    /// Creates a new `ModifiedDisplay`.
    pub fn new(arguments: &Arguments) -> (r: ModifiedDisplay)
        ensures
            r.color == arguments.color,
            r.human_readable == arguments.human_readable,
    {
        ModifiedDisplay { color: arguments.color, human_readable: arguments.human_readable }
    }

    /// Displays an entry's modification time at the local UTC offset
    /// `offset` (in seconds), falling back to UTC where the offset cannot be
    /// applied, and to a dimmed dash where there is no time to show.
    pub fn show(&self, entry: &Entry, offset: i32) -> (r: Vec<Span>)
        ensures
            views(r@) == self.modified_spans(*entry, offset),
    {
        let missing = Span { text: right_aligned("-", WIDTH), color: Some(Color::BrightBlack) };
        let r = match entry.data.modified {
            Some(t) => {
                let local = match civil_time(t.seconds, offset) {
                    Some(c) => Some(c),
                    None => civil_time(t.seconds, 0),
                };
                match local {
                    Some(c) => vec![
                        Span { text: format_time(c, self.human_readable), color: Some(Color::BrightBlue) },
                    ],
                    None => vec![missing],
                }
            },
            None => vec![missing],
        };
        assert(views(r@) =~= self.modified_spans(*entry, offset));
        r
    }
}

} // verus!
