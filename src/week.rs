use vstd::prelude::*;

verus! {

#[derive(Clone, Copy, Debug, PartialEq, Eq, Structural)]
pub enum Weekday {
    Monday,
    Tuesday,
    Wednesday,
    Thursday,
    Friday,
    Saturday,
    Sunday,
}

/// Monday is 0, Sunday is 6.
pub open spec fn weekday_index(w: Weekday) -> int {
    match w {
        Weekday::Monday => 0,
        Weekday::Tuesday => 1,
        Weekday::Wednesday => 2,
        Weekday::Thursday => 3,
        Weekday::Friday => 4,
        Weekday::Saturday => 5,
        Weekday::Sunday => 6,
    }
}

impl Weekday {
    pub fn index(&self) -> (r: u8)
        ensures
            r as int == weekday_index(*self),
            r < 7,
    {
        match self {
            Weekday::Monday => 0,
            Weekday::Tuesday => 1,
            Weekday::Wednesday => 2,
            Weekday::Thursday => 3,
            Weekday::Friday => 4,
            Weekday::Saturday => 5,
            Weekday::Sunday => 6,
        }
    }
}

/// A locale's week conventions.
#[derive(Clone, Copy, Debug, PartialEq, Eq, Structural)]
pub struct WeekRules {
    /// The day on which a week starts.
    pub first_weekday: Weekday,
    /// How many of its days a year must hold for a week to count as its first
    /// week; from 1 to 7.
    pub min_week_days: u8,
}

impl WeekRules {
    pub open spec fn wf(&self) -> bool {
        1 <= self.min_week_days <= 7
    }
}

/// Which year a week number counts in, relative to the year of the date.
#[derive(Clone, Copy, Debug, PartialEq, Eq, Structural)]
pub enum RelativeYear {
    Previous,
    Current,
    Next,
}

/// A week number and the year that owns the week.
#[derive(Clone, Copy, Debug, PartialEq, Eq, Structural)]
pub struct WeekOfYear {
    pub week: u16,
    pub year: RelativeYear,
}

/// Days from the start of the week to a day of weekday `w`, from 0 to 6.
pub open spec fn days_into_week(rules: WeekRules, w: int) -> int {
    (w - weekday_index(rules.first_weekday) + 7) % 7
}

/// Where week 1 starts, counted in days from the first day of the year
/// (negative when it starts in the previous year), given how far into its
/// week the year's first day falls.
pub open spec fn first_week_offset(rules: WeekRules, start_into_week: int) -> int {
    if 7 - start_into_week >= rules.min_week_days {
        -start_into_week
    } else {
        7 - start_into_week
    }
}

/// How many weeks a year of `len` days owns: whole weeks from week 1 on, and
/// a last partial week that holds at least the minimum of the year's days.
pub open spec fn weeks_in_year(rules: WeekRules, len: int, start_into_week: int) -> int {
    let n = len - first_week_offset(rules, start_into_week);
    n / 7 + if n % 7 >= rules.min_week_days {
        1int
    } else {
        0int
    }
}

/// How far into its week the first day of a year falls, given the weekday of
/// day `day` (1-based) of that year.
pub open spec fn year_start_into_week(rules: WeekRules, day: int, w: Weekday) -> int {
    (days_into_week(rules, weekday_index(w)) + 7 - (day - 1) % 7) % 7
}

/// The week of day `day` (1-based) of a year of `len` days that follows a
/// year of `prev_len` days, where that day falls on weekday `w`.
pub open spec fn week_of_spec(rules: WeekRules, prev_len: int, len: int, day: int, w: Weekday) -> (int, RelativeYear) {
    let s = year_start_into_week(rules, day, w);
    let since = (day - 1) - first_week_offset(rules, s);
    if since < 0 {
        let prev_s = (s + 7 - prev_len % 7) % 7;
        (weeks_in_year(rules, prev_len, prev_s), RelativeYear::Previous)
    } else if since / 7 + 1 > weeks_in_year(rules, len, s) {
        (1, RelativeYear::Next)
    } else {
        (since / 7 + 1, RelativeYear::Current)
    }
}

fn offset_exec(rules: &WeekRules, s: i32) -> (r: i32)
    requires
        0 <= s < 7,
    ensures
        r == first_week_offset(*rules, s as int),
        -7 < r <= 7,
{
    if 7 - s >= rules.min_week_days as i32 {
        -s
    } else {
        7 - s
    }
}

fn weeks_exec(rules: &WeekRules, len: u16, s: i32) -> (r: i32)
    requires
        0 <= s < 7,
    ensures
        r == weeks_in_year(*rules, len as int, s as int),
{
    let n: i32 = len as i32 - offset_exec(rules, s);
    // n is at least -7: shift it so that the division rounds towards minus infinity
    let extra: i32 = if (n + 7) % 7 >= rules.min_week_days as i32 {
        1
    } else {
        0
    };
    (n + 7) / 7 - 1 + extra
}

/// Week of the year of day `day_of_year` (1-based) of a year of `days_in_year`
/// days, which falls on `weekday`, following a year of `days_in_prev_year`
/// days. The first and last days of a year may count in the adjacent year's
/// weeks. The previous year must span at least a week, so that its last week
/// has a number.
pub fn week_of(
    rules: &WeekRules,
    days_in_prev_year: u16,
    days_in_year: u16,
    day_of_year: u16,
    weekday: Weekday,
) -> (r: WeekOfYear)
    requires
        rules.wf(),
        1 <= day_of_year <= days_in_year,
        days_in_prev_year >= 7,
    ensures
        ({
            let e = week_of_spec(*rules, days_in_prev_year as int, days_in_year as int, day_of_year as int, weekday);
            r.week as int == e.0 && r.year == e.1
        }),
{
    let w = weekday.index() as i32;
    let first = rules.first_weekday.index() as i32;
    let into: i32 = (w - first + 7) % 7;
    let s: i32 = (into + 7 - (day_of_year as i32 - 1) % 7) % 7;
    let since: i32 = (day_of_year as i32 - 1) - offset_exec(rules, s);
    if since < 0 {
        let prev_s: i32 = (s + 7 - days_in_prev_year as i32 % 7) % 7;
        let n = weeks_exec(rules, days_in_prev_year, prev_s);
        proof {
            assert(0 <= n <= 65535) by {
                assert(days_in_prev_year as int - first_week_offset(*rules, prev_s as int) >= 0);
            }
        }
        WeekOfYear { week: n as u16, year: RelativeYear::Previous }
    } else if since / 7 + 1 > weeks_exec(rules, days_in_year, s) {
        WeekOfYear { week: 1, year: RelativeYear::Next }
    } else {
        WeekOfYear { week: (since / 7 + 1) as u16, year: RelativeYear::Current }
    }
}

} // verus!
