//! Calendar values the schedulers reason about: weekdays, sets of weekdays,
//! a local date and time, and the `YYYY-MM-DD` date key of a day.
use chrono::{Datelike, Timelike};
use vstd::prelude::*;

verus! {

/// A day of the week, Monday first.
#[derive(Clone, Copy, Debug, PartialEq, Eq, Structural)]
pub enum Weekday {
    Mon,
    Tue,
    Wed,
    Thu,
    Fri,
    Sat,
    Sun,
}

impl Weekday {
    /// Days since Monday: Monday is 0, Sunday is 6.
    pub open spec fn index(self) -> nat {
        match self {
            Weekday::Mon => 0,
            Weekday::Tue => 1,
            Weekday::Wed => 2,
            Weekday::Thu => 3,
            Weekday::Fri => 4,
            Weekday::Sat => 5,
            Weekday::Sun => 6,
        }
    }

    pub fn num_days_from_monday(&self) -> (r: u8)
        ensures
            r == self.index(),
    {
        match self {
            Weekday::Mon => 0,
            Weekday::Tue => 1,
            Weekday::Wed => 2,
            Weekday::Thu => 3,
            Weekday::Fri => 4,
            Weekday::Sat => 5,
            Weekday::Sun => 6,
        }
    }

    /// The weekday that lies `n` days after Monday, for `n < 7`.
    pub fn from_days_from_monday(n: u32) -> (r: Option<Weekday>)
        ensures
            n < 7 <==> r.is_some(),
            r matches Some(d) ==> d.index() == n,
    {
        match n {
            0 => Some(Weekday::Mon),
            1 => Some(Weekday::Tue),
            2 => Some(Weekday::Wed),
            3 => Some(Weekday::Thu),
            4 => Some(Weekday::Fri),
            5 => Some(Weekday::Sat),
            6 => Some(Weekday::Sun),
            _ => None,
        }
    }
}

/// A set of weekdays, one flag per day.
#[derive(Clone, Copy, Debug, PartialEq, Eq, Structural)]
pub struct WeekdaySet {
    pub mon: bool,
    pub tue: bool,
    pub wed: bool,
    pub thu: bool,
    pub fri: bool,
    pub sat: bool,
    pub sun: bool,
}

impl WeekdaySet {
    pub open spec fn has(self, d: Weekday) -> bool {
        match d {
            Weekday::Mon => self.mon,
            Weekday::Tue => self.tue,
            Weekday::Wed => self.wed,
            Weekday::Thu => self.thu,
            Weekday::Fri => self.fri,
            Weekday::Sat => self.sat,
            Weekday::Sun => self.sun,
        }
    }

    pub fn empty() -> (r: WeekdaySet)
        ensures
            forall|d: Weekday| !r.has(d),
    {
        WeekdaySet { mon: false, tue: false, wed: false, thu: false, fri: false, sat: false, sun: false }
    }

    /// This set with `d` added.
    pub fn with(self, d: Weekday) -> (r: WeekdaySet)
        ensures
            forall|e: Weekday| r.has(e) == (self.has(e) || e == d),
    {
        let mut r = self;
        match d {
            Weekday::Mon => r.mon = true,
            Weekday::Tue => r.tue = true,
            Weekday::Wed => r.wed = true,
            Weekday::Thu => r.thu = true,
            Weekday::Fri => r.fri = true,
            Weekday::Sat => r.sat = true,
            Weekday::Sun => r.sun = true,
        }
        r
    }

    /// Every day but `rest`.
    pub fn all_except(rest: Weekday) -> (r: WeekdaySet)
        ensures
            forall|e: Weekday| r.has(e) == (e != rest),
    {
        let mut r = WeekdaySet { mon: true, tue: true, wed: true, thu: true, fri: true, sat: true, sun: true };
        match rest {
            Weekday::Mon => r.mon = false,
            Weekday::Tue => r.tue = false,
            Weekday::Wed => r.wed = false,
            Weekday::Thu => r.thu = false,
            Weekday::Fri => r.fri = false,
            Weekday::Sat => r.sat = false,
            Weekday::Sun => r.sun = false,
        }
        r
    }

    /// The default training days: Monday, Wednesday and Friday.
    pub fn training_default() -> (r: WeekdaySet)
        ensures
            forall|e: Weekday| r.has(e) == (e == Weekday::Mon || e == Weekday::Wed || e == Weekday::Fri),
    {
        WeekdaySet::empty().with(Weekday::Mon).with(Weekday::Wed).with(Weekday::Fri)
    }

    pub fn contains(&self, d: Weekday) -> (r: bool)
        ensures
            r == self.has(d),
    {
        match d {
            Weekday::Mon => self.mon,
            Weekday::Tue => self.tue,
            Weekday::Wed => self.wed,
            Weekday::Thu => self.thu,
            Weekday::Fri => self.fri,
            Weekday::Sat => self.sat,
            Weekday::Sun => self.sun,
        }
    }
}


/// The decimal digit character for `n < 10`.
pub open spec fn digit_char(n: nat) -> char {
    if n == 0 { '0' }
    else if n == 1 { '1' }
    else if n == 2 { '2' }
    else if n == 3 { '3' }
    else if n == 4 { '4' }
    else if n == 5 { '5' }
    else if n == 6 { '6' }
    else if n == 7 { '7' }
    else if n == 8 { '8' }
    else { '9' }
}

/// `n` written with exactly two decimal digits, for `n < 100`.
pub open spec fn two_digits(n: nat) -> Seq<char> {
    seq![digit_char(n / 10), digit_char(n % 10)]
}

/// `n` written with exactly four decimal digits, for `n < 10000`.
pub open spec fn four_digits(n: nat) -> Seq<char> {
    seq![digit_char(n / 1000), digit_char((n / 100) % 10), digit_char((n / 10) % 10), digit_char(n % 10)]
}

/// The `YYYY-MM-DD` key of a calendar day.
pub open spec fn date_key_of(year: nat, month: nat, day: nat) -> Seq<char> {
    four_digits(year) + seq!['-'] + two_digits(month) + seq!['-'] + two_digits(day)
}

/// The one-character string of the decimal digit `n`.
pub fn digit_str(n: u8) -> (r: &'static str)
    requires
        n < 10,
    ensures
        r@ == seq![digit_char(n as nat)],
{
    proof {
        reveal_strlit("0");
        reveal_strlit("1");
        reveal_strlit("2");
        reveal_strlit("3");
        reveal_strlit("4");
        reveal_strlit("5");
        reveal_strlit("6");
        reveal_strlit("7");
        reveal_strlit("8");
        reveal_strlit("9");
    }
    match n {
        0 => "0",
        1 => "1",
        2 => "2",
        3 => "3",
        4 => "4",
        5 => "5",
        6 => "6",
        7 => "7",
        8 => "8",
        _ => "9",
    }
}

/// The plain-value reading of a local date and time.
pub struct DateTimeView {
    pub year: nat,
    pub month: nat,
    pub day: nat,
    pub hour: nat,
    pub minute: nat,
    pub weekday: Weekday,
}

/// A local date and time of day, to the minute, with its weekday.
/// Years run from 0 to 9999, so that a date key has four year digits.
#[derive(Clone, Copy, Debug)]
pub struct LocalDateTime {
    year: u16,
    month: u8,
    day: u8,
    hour: u8,
    minute: u8,
    weekday: Weekday,
}

impl LocalDateTime {
    #[verifier::type_invariant]
    pub closed spec fn wf(self) -> bool {
        &&& self.year <= 9999
        &&& 1 <= self.month <= 12
        &&& 1 <= self.day <= 31
        &&& self.hour < 24
        &&& self.minute < 60
    }

    pub closed spec fn view(self) -> DateTimeView {
        DateTimeView {
            year: self.year as nat,
            month: self.month as nat,
            day: self.day as nat,
            hour: self.hour as nat,
            minute: self.minute as nat,
            weekday: self.weekday,
        }
    }

    /// The date key of this value's day.
    pub open spec fn key(self) -> Seq<char> {
        date_key_of(self@.year, self@.month, self@.day)
    }

    /// Whether the parts name a representable date and time.
    pub open spec fn parts_ok(year: int, month: int, day: int, hour: int, minute: int) -> bool {
        &&& 0 <= year <= 9999
        &&& 1 <= month <= 12
        &&& 1 <= day <= 31
        &&& 0 <= hour < 24
        &&& 0 <= minute < 60
    }

    /// Builds a value from its parts; `None` where a part is out of range.
    pub fn from_parts(year: i32, month: u32, day: u32, hour: u32, minute: u32, weekday: Weekday) -> (r: Option<LocalDateTime>)
        ensures
            r.is_some() == Self::parts_ok(year as int, month as int, day as int, hour as int, minute as int),
            r matches Some(t) ==> t@ == (DateTimeView {
                year: year as nat,
                month: month as nat,
                day: day as nat,
                hour: hour as nat,
                minute: minute as nat,
                weekday,
            }),
    {
        if 0 <= year && year <= 9999 && 1 <= month && month <= 12 && 1 <= day && day <= 31 && hour < 24 && minute < 60 {
            Some(LocalDateTime {
                year: year as u16,
                month: month as u8,
                day: day as u8,
                hour: hour as u8,
                minute: minute as u8,
                weekday,
            })
        } else {
            None
        }
    }

    pub fn hour(&self) -> (r: u8)
        ensures
            r == self@.hour,
            r < 24,
    {
        proof {
            use_type_invariant(self);
        }
        self.hour
    }

    pub fn weekday(&self) -> (r: Weekday)
        ensures
            r == self@.weekday,
    {
        self.weekday
    }

    /// The local date and time now, as the system clock and time zone give it;
    /// `None` in a year outside 0 to 9999.
    pub fn now() -> (r: Option<LocalDateTime>) {
        let (year, month, day, hour, minute, from_monday) = local_clock();
        match Weekday::from_days_from_monday(from_monday) {
            Some(weekday) => LocalDateTime::from_parts(year, month, day, hour, minute, weekday),
            None => None,
        }
    }

    /// The day's key in `YYYY-MM-DD` form.
    pub fn date_key(&self) -> (r: String)
        ensures
            r@ == self.key(),
    {
        proof {
            use_type_invariant(self);
        }
        let y = self.year;
        let mut s = String::new();
        s.append(digit_str((y / 1000) as u8));
        s.append(digit_str(((y / 100) % 10) as u8));
        s.append(digit_str(((y / 10) % 10) as u8));
        s.append(digit_str((y % 10) as u8));
        proof {
            reveal_strlit("-");
        }
        s.append("-");
        s.append(digit_str(self.month / 10));
        s.append(digit_str(self.month % 10));
        s.append("-");
        s.append(digit_str(self.day / 10));
        s.append(digit_str(self.day % 10));
        proof {
            assert(s@ =~= self.key());
        }
        s
    }
}

/// Relies on chrono::Local::now, read through Datelike and Timelike: year,
/// month (1 to 12), day of month (1 to 31), hour (0 to 23), minute (0 to 59)
/// and days since Monday (0 to 6) of the local time now.
#[verifier::external_body]
fn local_clock() -> (r: (i32, u32, u32, u32, u32, u32))
    ensures
        1 <= r.1 <= 12,
        1 <= r.2 <= 31,
        r.3 < 24,
        r.4 < 60,
        r.5 < 7,
{
    let now = chrono::Local::now();
    (now.year(), now.month(), now.day(), now.hour(), now.minute(), now.weekday().num_days_from_monday())
}

} // verus!
