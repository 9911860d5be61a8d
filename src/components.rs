use vstd::prelude::*;
use crate::fields::{rank_of, FieldSymbol, HourCycle};
use crate::pattern::{ItemModel, Pattern, PatternItem};
use crate::skeleton::SkeletonField;

verus! {

/// Form of a numeric component.
#[derive(Clone, Copy, Debug, PartialEq, Eq, Structural)]
pub enum Numeric {
    Numeric,
    TwoDigit,
}

/// Form of a named component.
#[derive(Clone, Copy, Debug, PartialEq, Eq, Structural)]
pub enum Text {
    Short,
    Long,
    Narrow,
}

/// Form of the month.
#[derive(Clone, Copy, Debug, PartialEq, Eq, Structural)]
pub enum Month {
    Numeric,
    TwoDigit,
    Short,
    Long,
    Narrow,
}

/// A set of wanted date and time components with their forms, in no order.
#[derive(Clone, Copy, Debug, PartialEq, Eq, Structural)]
pub struct Bag {
    pub era: Option<Text>,
    pub year: Option<Numeric>,
    pub month: Option<Month>,
    pub week: Option<Numeric>,
    pub day: Option<Numeric>,
    pub weekday: Option<Text>,
    pub hour: Option<Numeric>,
    pub minute: Option<Numeric>,
    pub second: Option<Numeric>,
    /// The hour cycle wanted for the hour, if any.
    pub hour_cycle: Option<HourCycle>,
}

pub open spec fn numeric_length(n: Numeric) -> u8 {
    match n {
        Numeric::Numeric => 1,
        Numeric::TwoDigit => 2,
    }
}

pub open spec fn text_length(t: Text) -> u8 {
    match t {
        Text::Short => 3,
        Text::Long => 4,
        Text::Narrow => 5,
    }
}

pub open spec fn month_length(m: Month) -> u8 {
    match m {
        Month::Numeric => 1,
        Month::TwoDigit => 2,
        Month::Short => 3,
        Month::Long => 4,
        Month::Narrow => 5,
    }
}

/// A skeleton entry for `s` with length `o`, or nothing.
pub open spec fn entry(o: Option<u8>, s: FieldSymbol) -> Seq<SkeletonField> {
    match o {
        Some(l) => seq![SkeletonField { symbol: s, length: l }],
        None => Seq::empty(),
    }
}

pub open spec fn numeric_opt(o: Option<Numeric>) -> Option<u8> {
    match o {
        Some(n) => Some(numeric_length(n)),
        None => None,
    }
}

pub open spec fn text_opt(o: Option<Text>) -> Option<u8> {
    match o {
        Some(t) => Some(text_length(t)),
        None => None,
    }
}

pub open spec fn month_opt(o: Option<Month>) -> Option<u8> {
    match o {
        Some(m) => Some(month_length(m)),
        None => None,
    }
}

/// The skeleton of a bag: its components in canonical order, each with the
/// length of its form.
pub open spec fn bag_skeleton(b: Bag) -> Seq<SkeletonField> {
    entry(text_opt(b.era), FieldSymbol::Era) + entry(numeric_opt(b.year), FieldSymbol::Year) + entry(
        month_opt(b.month),
        FieldSymbol::Month,
    ) + entry(numeric_opt(b.week), FieldSymbol::Week) + entry(numeric_opt(b.day), FieldSymbol::Day) + entry(
        text_opt(b.weekday),
        FieldSymbol::Weekday,
    ) + entry(numeric_opt(b.hour), FieldSymbol::Hour(HourCycle::H23)) + entry(numeric_opt(b.minute), FieldSymbol::Minute)
        + entry(numeric_opt(b.second), FieldSymbol::Second)
}

/// Length of the last field of rank `r` among the items, if any.
pub open spec fn last_length(items: Seq<ItemModel>, r: nat) -> Option<u8>
    decreases items.len(),
{
    if items.len() == 0 {
        None
    } else {
        match items.last() {
            ItemModel::Field(f, l) => if rank_of(f) == r {
                Some(l)
            } else {
                last_length(items.drop_last(), r)
            },
            _ => last_length(items.drop_last(), r),
        }
    }
}

/// Cycle of the last hour field among the items, if any.
pub open spec fn last_hour_cycle(items: Seq<ItemModel>) -> Option<HourCycle>
    decreases items.len(),
{
    if items.len() == 0 {
        None
    } else {
        match items.last() {
            ItemModel::Field(FieldSymbol::Hour(hc), _) => Some(hc),
            _ => last_hour_cycle(items.drop_last()),
        }
    }
}

/// The numeric form a field length stands for.
pub open spec fn numeric_of(l: u8) -> Numeric {
    if l == 2 {
        Numeric::TwoDigit
    } else {
        Numeric::Numeric
    }
}

/// The name form a field length stands for.
pub open spec fn text_of(l: u8) -> Text {
    if l <= 3 {
        Text::Short
    } else if l == 4 {
        Text::Long
    } else {
        Text::Narrow
    }
}

pub open spec fn month_of(l: u8) -> Month {
    if l <= 1 {
        Month::Numeric
    } else if l == 2 {
        Month::TwoDigit
    } else if l == 3 {
        Month::Short
    } else if l == 4 {
        Month::Long
    } else {
        Month::Narrow
    }
}

pub open spec fn numeric_of_opt(o: Option<u8>) -> Option<Numeric> {
    match o {
        Some(l) => Some(numeric_of(l)),
        None => None,
    }
}

pub open spec fn text_of_opt(o: Option<u8>) -> Option<Text> {
    match o {
        Some(l) => Some(text_of(l)),
        None => None,
    }
}

pub open spec fn month_of_opt(o: Option<u8>) -> Option<Month> {
    match o {
        Some(l) => Some(month_of(l)),
        None => None,
    }
}

/// The components a pattern shows: for each kind, the form given by the
/// pattern's last field of that kind (day periods are not components).
pub open spec fn components_of(items: Seq<ItemModel>) -> Bag {
    Bag {
        era: text_of_opt(last_length(items, 0)),
        year: numeric_of_opt(last_length(items, 1)),
        month: month_of_opt(last_length(items, 2)),
        week: numeric_of_opt(last_length(items, 3)),
        day: numeric_of_opt(last_length(items, 4)),
        weekday: text_of_opt(last_length(items, 5)),
        hour: numeric_of_opt(last_length(items, 7)),
        minute: numeric_of_opt(last_length(items, 8)),
        second: numeric_of_opt(last_length(items, 9)),
        hour_cycle: last_hour_cycle(items),
    }
}

fn numeric_of_exec(l: u8) -> (r: Numeric)
    ensures
        r == numeric_of(l),
{
    if l == 2 {
        Numeric::TwoDigit
    } else {
        Numeric::Numeric
    }
}

fn text_of_exec(l: u8) -> (r: Text)
    ensures
        r == text_of(l),
{
    if l <= 3 {
        Text::Short
    } else if l == 4 {
        Text::Long
    } else {
        Text::Narrow
    }
}

fn month_of_exec(l: u8) -> (r: Month)
    ensures
        r == month_of(l),
{
    if l <= 1 {
        Month::Numeric
    } else if l == 2 {
        Month::TwoDigit
    } else if l == 3 {
        Month::Short
    } else if l == 4 {
        Month::Long
    } else {
        Month::Narrow
    }
}

fn push_entry(v: &mut Vec<SkeletonField>, o: Option<u8>, s: FieldSymbol)
    ensures
        final(v)@ == old(v)@ + entry(o, s),
{
    match o {
        Some(l) => {
            v.push(SkeletonField { symbol: s, length: l });
            assert(final(v)@ =~= old(v)@ + entry(o, s));
        },
        None => {
            assert(final(v)@ =~= old(v)@ + entry(o, s));
        },
    }
}

fn numeric_len_opt(o: Option<Numeric>) -> (r: Option<u8>)
    ensures
        r == numeric_opt(o),
{
    match o {
        Some(Numeric::Numeric) => Some(1),
        Some(Numeric::TwoDigit) => Some(2),
        None => None,
    }
}

fn text_len_opt(o: Option<Text>) -> (r: Option<u8>)
    ensures
        r == text_opt(o),
{
    match o {
        Some(Text::Short) => Some(3),
        Some(Text::Long) => Some(4),
        Some(Text::Narrow) => Some(5),
        None => None,
    }
}

fn month_len_opt(o: Option<Month>) -> (r: Option<u8>)
    ensures
        r == month_opt(o),
{
    match o {
        Some(Month::Numeric) => Some(1),
        Some(Month::TwoDigit) => Some(2),
        Some(Month::Short) => Some(3),
        Some(Month::Long) => Some(4),
        Some(Month::Narrow) => Some(5),
        None => None,
    }
}

impl Bag {
    /// The skeleton that the bag requests.
    pub fn to_skeleton(&self) -> (r: Vec<SkeletonField>)
        ensures
            r@ == bag_skeleton(*self),
            r@.len() <= 9,
    {
        let mut v: Vec<SkeletonField> = Vec::new();
        push_entry(&mut v, text_len_opt(self.era), FieldSymbol::Era);
        push_entry(&mut v, numeric_len_opt(self.year), FieldSymbol::Year);
        push_entry(&mut v, month_len_opt(self.month), FieldSymbol::Month);
        push_entry(&mut v, numeric_len_opt(self.week), FieldSymbol::Week);
        push_entry(&mut v, numeric_len_opt(self.day), FieldSymbol::Day);
        push_entry(&mut v, text_len_opt(self.weekday), FieldSymbol::Weekday);
        push_entry(&mut v, numeric_len_opt(self.hour), FieldSymbol::Hour(HourCycle::H23));
        push_entry(&mut v, numeric_len_opt(self.minute), FieldSymbol::Minute);
        push_entry(&mut v, numeric_len_opt(self.second), FieldSymbol::Second);
        v
    }

    /// The components that a pattern shows.
    pub fn of_pattern(p: &Pattern) -> (r: Bag)
        ensures
            r == components_of(p@),
    {
        let mut b = Bag {
            era: None,
            year: None,
            month: None,
            week: None,
            day: None,
            weekday: None,
            hour: None,
            minute: None,
            second: None,
            hour_cycle: None,
        };
        let mut i: usize = 0;
        assert(b == components_of(p@.subrange(0, 0)));
        while i < p.items.len()
            invariant
                i <= p.items@.len(),
                b == components_of(p@.subrange(0, i as int)),
            decreases p.items@.len() - i,
        {
            proof {
                assert(p@.subrange(0, i + 1).drop_last() =~= p@.subrange(0, i as int));
                assert(p@.subrange(0, i + 1).last() == p.items@[i as int]@);
            }
            if let PatternItem::Field(f, l) = &p.items[i] {
                let l = *l;
                match f {
                    FieldSymbol::Era => b.era = Some(text_of_exec(l)),
                    FieldSymbol::Year => b.year = Some(numeric_of_exec(l)),
                    FieldSymbol::Month => b.month = Some(month_of_exec(l)),
                    FieldSymbol::Week => b.week = Some(numeric_of_exec(l)),
                    FieldSymbol::Day => b.day = Some(numeric_of_exec(l)),
                    FieldSymbol::Weekday => b.weekday = Some(text_of_exec(l)),
                    FieldSymbol::DayPeriod => {},
                    FieldSymbol::Hour(hc) => {
                        b.hour = Some(numeric_of_exec(l));
                        b.hour_cycle = Some(*hc);
                    },
                    FieldSymbol::Minute => b.minute = Some(numeric_of_exec(l)),
                    FieldSymbol::Second => b.second = Some(numeric_of_exec(l)),
                }
            }
            i = i + 1;
        }
        assert(p@.subrange(0, i as int) =~= p@);
        b
    }
}

} // verus!
