use vstd::prelude::*;

verus! {

/// The hour numbering convention of an hour field.
#[derive(Clone, Copy, Debug, PartialEq, Eq, Structural)]
pub enum HourCycle {
    /// 0 to 11.
    H11,
    /// 1 to 12.
    H12,
    /// 0 to 23.
    H23,
    /// 1 to 24.
    H24,
}

/// The semantic kind of a pattern field.
#[derive(Clone, Copy, Debug, PartialEq, Eq, Structural)]
pub enum FieldSymbol {
    Era,
    Year,
    Month,
    Week,
    Day,
    Weekday,
    DayPeriod,
    Hour(HourCycle),
    Minute,
    Second,
}

/// Name form of a textual field.
#[derive(Clone, Copy, Debug, PartialEq, Eq, Structural)]
pub enum TextWidth {
    Abbreviated,
    Wide,
    Narrow,
}

/// Position of a field kind in the locale-independent canonical order
/// (era, year, month, week, day, weekday, day period, hour, minute, second).
pub open spec fn rank_of(s: FieldSymbol) -> nat {
    match s {
        FieldSymbol::Era => 0,
        FieldSymbol::Year => 1,
        FieldSymbol::Month => 2,
        FieldSymbol::Week => 3,
        FieldSymbol::Day => 4,
        FieldSymbol::Weekday => 5,
        FieldSymbol::DayPeriod => 6,
        FieldSymbol::Hour(_) => 7,
        FieldSymbol::Minute => 8,
        FieldSymbol::Second => 9,
    }
}

/// Two symbols name the same field kind (hour fields of any cycle are one kind).
pub open spec fn same_kind(a: FieldSymbol, b: FieldSymbol) -> bool {
    rank_of(a) == rank_of(b)
}

/// Whether a field of this kind and length is rendered from a symbol table
/// rather than as a number: era and day period always, month and weekday
/// from length 3 on.
pub open spec fn is_textual(s: FieldSymbol, length: u8) -> bool {
    match s {
        FieldSymbol::Era | FieldSymbol::DayPeriod => true,
        FieldSymbol::Month | FieldSymbol::Weekday => length >= 3,
        _ => false,
    }
}

/// The fixed mapping from a textual field's length to its name form.
pub open spec fn text_width_of(length: u8) -> TextWidth {
    if length <= 3 {
        TextWidth::Abbreviated
    } else if length == 4 {
        TextWidth::Wide
    } else {
        TextWidth::Narrow
    }
}

impl FieldSymbol {
    pub fn rank(&self) -> (r: u8)
        ensures
            r as nat == rank_of(*self),
    {
        match self {
            FieldSymbol::Era => 0,
            FieldSymbol::Year => 1,
            FieldSymbol::Month => 2,
            FieldSymbol::Week => 3,
            FieldSymbol::Day => 4,
            FieldSymbol::Weekday => 5,
            FieldSymbol::DayPeriod => 6,
            FieldSymbol::Hour(_) => 7,
            FieldSymbol::Minute => 8,
            FieldSymbol::Second => 9,
        }
    }

    pub fn is_textual(&self, length: u8) -> (r: bool)
        ensures
            r == is_textual(*self, length),
    {
        match self {
            FieldSymbol::Era | FieldSymbol::DayPeriod => true,
            FieldSymbol::Month | FieldSymbol::Weekday => length >= 3,
            _ => false,
        }
    }
}

impl TextWidth {
    pub fn from_length(length: u8) -> (r: TextWidth)
        ensures
            r == text_width_of(length),
    {
        if length <= 3 {
            TextWidth::Abbreviated
        } else if length == 4 {
            TextWidth::Wide
        } else {
            TextWidth::Narrow
        }
    }
}

} // verus!
