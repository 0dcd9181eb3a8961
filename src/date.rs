//! Local dates and times, and the stamps written from them.

use vstd::prelude::*;

use crate::text::{push_char, push_zero_padded, zero_padded};

verus! {

/// A local date and time of day, to the second.
#[derive(Debug, Clone, Copy, PartialEq, Eq)]
pub struct Date {
    pub year: i32,
    /// 1 to 12.
    pub month: u32,
    /// 1 to 31.
    pub day: u32,
    /// 0 to 23.
    pub hour: u32,
    /// 0 to 59.
    pub minute: u32,
    /// 0 to 59.
    pub second: u32,
}

/// The year as chrono's `%Y` writes it: four digits, zero padded, for years
/// 0 to 9999; otherwise a sign followed by at least four digits.
pub open spec fn year_text(y: int) -> Seq<char> {
    if 0 <= y <= 9999 {
        zero_padded(y as nat, 4)
    } else if y > 9999 {
        seq!['+'] + zero_padded(y as nat, 4)
    } else {
        seq!['-'] + zero_padded((-y) as nat, 4)
    }
}

/// The date as `%Y%m%d`.
pub open spec fn compact_date(d: Date) -> Seq<char> {
    year_text(d.year as int) + zero_padded(d.month as nat, 2) + zero_padded(d.day as nat, 2)
}

/// The date and time as `%Y-%m-%d %H:%M:%S`.
pub open spec fn timestamp(d: Date) -> Seq<char> {
    year_text(d.year as int) + seq!['-'] + zero_padded(d.month as nat, 2) + seq!['-']
        + zero_padded(d.day as nat, 2) + seq![' '] + zero_padded(d.hour as nat, 2) + seq![':']
        + zero_padded(d.minute as nat, 2) + seq![':'] + zero_padded(d.second as nat, 2)
}

fn push_year(s: &mut String, y: i32)
    ensures
        final(s)@ == old(s)@ + year_text(y as int),
{
    let ghost start = s@;
    if 0 <= y && y <= 9999 {
        push_zero_padded(s, y as u64, 4);
    } else if y > 9999 {
        push_char(s, '+');
        push_zero_padded(s, y as u64, 4);
    } else {
        push_char(s, '-');
        let m: u64 = (0i64 - y as i64) as u64;
        push_zero_padded(s, m, 4);
    }
    assert(s@ =~= start + year_text(y as int));
}

impl Date {
    pub open spec fn wf(&self) -> bool {
        &&& 1 <= self.month <= 12
        &&& 1 <= self.day <= 31
        &&& self.hour <= 23
        &&& self.minute <= 59
        &&& self.second <= 59
    }

    /// A date from its parts.
    pub fn new(year: i32, month: u32, day: u32, hour: u32, minute: u32, second: u32) -> (r: Date)
        ensures
            r == (Date { year, month, day, hour, minute, second }),
    {
        Date { year, month, day, hour, minute, second }
    }

    /// Relies on `chrono::Local::now` with `chrono::Datelike` and
    /// `chrono::Timelike`: the local date and time now; chrono documents
    /// month 1 to 12, day 1 to 31, hour 0 to 23, minute and second 0 to 59.
    #[verifier::external_body]
    pub fn now() -> (r: Date)
        ensures
            r.wf(),
    {
        let now = chrono::Local::now();
        Date {
            year: chrono::Datelike::year(&now),
            month: chrono::Datelike::month(&now),
            day: chrono::Datelike::day(&now),
            hour: chrono::Timelike::hour(&now),
            minute: chrono::Timelike::minute(&now),
            second: chrono::Timelike::second(&now),
        }
    }

    /// The date as `YYYY-MM-DD hh:mm:ss`.
    pub fn timestamp_text(&self) -> (r: String)
        ensures
            r@ == timestamp(*self),
    {
        let mut s = String::new();
        push_year(&mut s, self.year);
        push_char(&mut s, '-');
        push_zero_padded(&mut s, self.month as u64, 2);
        push_char(&mut s, '-');
        push_zero_padded(&mut s, self.day as u64, 2);
        push_char(&mut s, ' ');
        push_zero_padded(&mut s, self.hour as u64, 2);
        push_char(&mut s, ':');
        push_zero_padded(&mut s, self.minute as u64, 2);
        push_char(&mut s, ':');
        push_zero_padded(&mut s, self.second as u64, 2);
        assert(s@ =~= timestamp(*self));
        s
    }

    /// The date as `YYYYMMDD`.
    pub fn compact_text(&self) -> (r: String)
        ensures
            r@ == compact_date(*self),
    {
        let mut s = String::new();
        push_year(&mut s, self.year);
        push_zero_padded(&mut s, self.month as u64, 2);
        push_zero_padded(&mut s, self.day as u64, 2);
        assert(s@ =~= compact_date(*self));
        s
    }
}

} // verus!
