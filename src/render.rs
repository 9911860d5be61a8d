use vstd::prelude::*;
use crate::error::DateTimeFormatterError;
use crate::fields::{is_textual, text_width_of, FieldSymbol, HourCycle, TextWidth};
use crate::number::{numeral_text, write_numeral, NumberingSystem};
use crate::pattern::{field_count, ItemModel, Pattern, PatternItem};
use crate::sink::TextSink;
use crate::symbols::{symbol_text, SymbolSetModel, SymbolTable};
use crate::week::{week_of, week_of_spec, weekday_index, WeekRules, Weekday};

verus! {

/// The calendar system a date is expressed in.
#[derive(Clone, Copy, Debug, PartialEq, Eq, Structural)]
pub enum Calendar {
    Gregorian,
    Buddhist,
    Japanese,
    Indian,
    Coptic,
    Ethiopian,
}

impl Calendar {
    /// The calendar's BCP-47 identifier, the value of a locale's `ca` keyword.
    pub fn bcp47_identifier(&self) -> (r: &'static str)
        ensures
            r@ == match *self {
                Calendar::Gregorian => "gregory"@,
                Calendar::Buddhist => "buddhist"@,
                Calendar::Japanese => "japanese"@,
                Calendar::Indian => "indian"@,
                Calendar::Coptic => "coptic"@,
                Calendar::Ethiopian => "ethiopic"@,
            },
    {
        match self {
            Calendar::Gregorian => "gregory",
            Calendar::Buddhist => "buddhist",
            Calendar::Japanese => "japanese",
            Calendar::Indian => "indian",
            Calendar::Coptic => "coptic",
            Calendar::Ethiopian => "ethiopic",
        }
    }
}

/// A date and time as computed by a calendar: every value a pattern field can
/// read.
#[derive(Clone, Copy, Debug, PartialEq, Eq, Structural)]
pub struct DateTimeInput {
    pub calendar: Calendar,
    /// Index of the era in the era names.
    pub era: u8,
    /// Year within the era.
    pub year: u32,
    /// Month of the year, from 1.
    pub month: u8,
    /// Day of the month, from 1.
    pub day: u8,
    /// Day of the year, from 1.
    pub day_of_year: u16,
    pub days_in_year: u16,
    pub days_in_prev_year: u16,
    pub weekday: Weekday,
    /// Hour of the day, from 0 to 23.
    pub hour: u8,
    pub minute: u8,
    pub second: u8,
}

impl DateTimeInput {
    /// The day of the year lies in the year, and the previous year spans at
    /// least a week.
    pub open spec fn wf(&self) -> bool {
        &&& 1 <= self.day_of_year <= self.days_in_year
        &&& self.days_in_prev_year >= 7
    }
}

/// The locale tables a pattern is rendered with.
#[derive(Debug)]
pub struct FormatData {
    /// Names of months, weekdays and eras.
    pub date_symbols: SymbolTable,
    /// Names of day periods.
    pub time_symbols: SymbolTable,
    pub week_rules: WeekRules,
    pub numbering: NumberingSystem,
}

/// What the format data holds.
pub struct FormatModel {
    pub date_symbols: Seq<SymbolSetModel>,
    pub time_symbols: Seq<SymbolSetModel>,
    pub week_rules: WeekRules,
    pub digits: Seq<char>,
}

impl View for FormatData {
    type V = FormatModel;

    open spec fn view(&self) -> FormatModel {
        FormatModel {
            date_symbols: self.date_symbols@,
            time_symbols: self.time_symbols@,
            week_rules: self.week_rules,
            digits: self.numbering.digits@,
        }
    }
}

impl FormatData {
    pub open spec fn wf(&self) -> bool {
        self.week_rules.wf()
    }

    pub fn copy(&self) -> (r: FormatData)
        ensures
            r@ == self@,
            r.wf() == self.wf(),
    {
        FormatData {
            date_symbols: self.date_symbols.copy(),
            time_symbols: self.time_symbols.copy(),
            week_rules: self.week_rules,
            numbering: self.numbering,
        }
    }
}

/// The hour as shown in hour cycle `hc`.
pub open spec fn hour_in_cycle(h: nat, hc: HourCycle) -> nat {
    match hc {
        HourCycle::H11 => h % 12,
        HourCycle::H12 => if h % 12 == 0 {
            12
        } else {
            h % 12
        },
        HourCycle::H23 => h,
        HourCycle::H24 => if h == 0 {
            24
        } else {
            h
        },
    }
}

/// The number a numeric field shows.
pub open spec fn numeric_value(f: FieldSymbol, d: DateTimeInput, rules: WeekRules) -> nat {
    match f {
        FieldSymbol::Year => d.year as nat,
        FieldSymbol::Month => d.month as nat,
        FieldSymbol::Week => week_of_spec(
            rules,
            d.days_in_prev_year as int,
            d.days_in_year as int,
            d.day_of_year as int,
            d.weekday,
        ).0 as nat,
        FieldSymbol::Day => d.day as nat,
        FieldSymbol::Weekday => (weekday_index(d.weekday) + 1) as nat,
        FieldSymbol::Hour(hc) => hour_in_cycle(d.hour as nat, hc),
        FieldSymbol::Minute => d.minute as nat,
        FieldSymbol::Second => d.second as nat,
        _ => 0,
    }
}

/// The index of the name a textual field shows.
pub open spec fn name_index(f: FieldSymbol, d: DateTimeInput) -> int {
    match f {
        FieldSymbol::Month => d.month - 1,
        FieldSymbol::Weekday => weekday_index(d.weekday),
        FieldSymbol::Era => d.era as int,
        FieldSymbol::DayPeriod => if d.hour < 12 {
            0
        } else {
            1
        },
        _ => 0,
    }
}

/// Day periods are named by the time symbols, all other fields by the date symbols.
pub open spec fn table_for(f: FieldSymbol, data: FormatModel) -> Seq<SymbolSetModel> {
    if f is DayPeriod {
        data.time_symbols
    } else {
        data.date_symbols
    }
}

/// Text of one pattern item, or none when a name is missing.
pub open spec fn item_text(item: ItemModel, d: DateTimeInput, data: FormatModel, alone: bool) -> Option<Seq<char>> {
    match item {
        ItemModel::Literal(s) => Some(s),
        ItemModel::Field(f, l) => if is_textual(f, l) {
            symbol_text(table_for(f, data), f, text_width_of(l), alone, name_index(f, d))
        } else {
            Some(numeral_text(numeric_value(f, d, data.week_rules), l as nat, data.digits))
        },
    }
}

/// Text of a sequence of items, left to right, or none when any item fails.
pub open spec fn items_text(items: Seq<ItemModel>, d: DateTimeInput, data: FormatModel, alone: bool) -> Option<Seq<char>>
    decreases items.len(),
{
    if items.len() == 0 {
        Some(Seq::empty())
    } else {
        match (items_text(items.drop_last(), d, data, alone), item_text(items.last(), d, data, alone)) {
            (Some(a), Some(b)) => Some(a + b),
            _ => None,
        }
    }
}

/// Text of a whole pattern; a field stands alone when it is the pattern's
/// only field.
pub open spec fn pattern_text(p: Seq<ItemModel>, d: DateTimeInput, data: FormatModel) -> Option<Seq<char>> {
    items_text(p, d, data, field_count(p) == 1)
}

fn sink_write<W: TextSink>(out: &mut W, s: &str) -> (r: Result<(), DateTimeFormatterError>)
    ensures
        r is Ok ==> final(out).text() == old(out).text() + s@,
        r is Err ==> r == Err::<(), _>(DateTimeFormatterError::WriteFailure),
        old(out).accepts_all() ==> r is Ok && final(out).accepts_all(),
{
    match out.write_text(s) {
        Ok(()) => Ok(()),
        Err(()) => Err(DateTimeFormatterError::WriteFailure),
    }
}

fn hour_exec(h: u8, hc: HourCycle) -> (r: u32)
    ensures
        r as nat == hour_in_cycle(h as nat, hc),
{
    match hc {
        HourCycle::H11 => (h % 12) as u32,
        HourCycle::H12 => if h % 12 == 0 {
            12
        } else {
            (h % 12) as u32
        },
        HourCycle::H23 => h as u32,
        HourCycle::H24 => if h == 0 {
            24
        } else {
            h as u32
        },
    }
}

fn write_item<W: TextSink>(
    item: &PatternItem,
    d: &DateTimeInput,
    data: &FormatData,
    alone: bool,
    out: &mut W,
) -> (r: Result<(), DateTimeFormatterError>)
    requires
        d.wf(),
        data.wf(),
    ensures
        r is Ok ==> (item_text(item@, *d, data@, alone) matches Some(t) && final(out).text() == old(out).text() + t),
        item_text(item@, *d, data@, alone) is None <==> r == Err::<(), _>(DateTimeFormatterError::MissingSymbol),
        r is Err ==> r == Err::<(), _>(DateTimeFormatterError::MissingSymbol) || r == Err::<(), _>(
            DateTimeFormatterError::WriteFailure,
        ),
        old(out).accepts_all() ==> r != Err::<(), _>(DateTimeFormatterError::WriteFailure)
            && final(out).accepts_all(),
{
    match item {
        PatternItem::Literal(s) => sink_write(out, s.as_str()),
        PatternItem::Field(f, l) => {
            if f.is_textual(*l) {
                let w = TextWidth::from_length(*l);
                let table = if let FieldSymbol::DayPeriod = f {
                    &data.time_symbols
                } else {
                    &data.date_symbols
                };
                let index: u32 = match f {
                    FieldSymbol::Month => {
                        if d.month == 0 {
                            return Err(DateTimeFormatterError::MissingSymbol);
                        }
                        (d.month - 1) as u32
                    },
                    FieldSymbol::Weekday => d.weekday.index() as u32,
                    FieldSymbol::Era => d.era as u32,
                    _ => if d.hour < 12 {
                        0
                    } else {
                        1
                    },
                };
                match table.lookup(*f, w, alone, index) {
                    Some(s) => sink_write(out, s.as_str()),
                    None => Err(DateTimeFormatterError::MissingSymbol),
                }
            } else {
                let v: u32 = match f {
                    FieldSymbol::Year => d.year,
                    FieldSymbol::Month => d.month as u32,
                    FieldSymbol::Week => {
                        let wk = week_of(&data.week_rules, d.days_in_prev_year, d.days_in_year, d.day_of_year, d.weekday);
                        wk.week as u32
                    },
                    FieldSymbol::Day => d.day as u32,
                    FieldSymbol::Weekday => d.weekday.index() as u32 + 1,
                    FieldSymbol::Hour(hc) => hour_exec(d.hour, *hc),
                    FieldSymbol::Minute => d.minute as u32,
                    _ => d.second as u32,
                };
                let mut digits = String::new();
                write_numeral(v, *l, &data.numbering, &mut digits);
                assert(digits@ =~= numeral_text(v as nat, *l as nat, data.numbering.digits@));
                sink_write(out, digits.as_str())
            }
        },
    }
}

/// Renders `p` for `d` into `out`, item by item. On success `out` gains
/// exactly the pattern's text. A missing name gives `MissingSymbol`, and a
/// write that the sink refuses gives `WriteFailure`; either ends the pass, and
/// what was written before stays in the sink.
pub fn write_pattern<W: TextSink>(
    p: &Pattern,
    d: &DateTimeInput,
    data: &FormatData,
    out: &mut W,
) -> (r: Result<(), DateTimeFormatterError>)
    requires
        d.wf(),
        data.wf(),
    ensures
        r is Ok ==> (pattern_text(p@, *d, data@) matches Some(t) && final(out).text() == old(out).text() + t),
        r == Err::<(), _>(DateTimeFormatterError::MissingSymbol) ==> pattern_text(p@, *d, data@) is None,
        r is Err ==> r == Err::<(), _>(DateTimeFormatterError::MissingSymbol) || r == Err::<(), _>(
            DateTimeFormatterError::WriteFailure,
        ),
        old(out).accepts_all() ==> (pattern_text(p@, *d, data@) is None <==> r is Err) && r != Err::<(), _>(
            DateTimeFormatterError::WriteFailure,
        ),
{
    let alone = p.field_count() == 1;
    let ghost start = out.text();
    let ghost all = out.accepts_all();
    let mut i: usize = 0;
    while i < p.items.len()
        invariant
            i <= p.items@.len(),
            d.wf(),
            data.wf(),
            alone == (field_count(p@) == 1),
            items_text(p@.subrange(0, i as int), *d, data@, alone) matches Some(t) && out.text() == start + t,
            all == old(out).accepts_all(),
            start == old(out).text(),
            all ==> out.accepts_all(),
        decreases p.items@.len() - i,
    {
        proof {
            assert(p@.subrange(0, i + 1).drop_last() =~= p@.subrange(0, i as int));
            assert(p@.subrange(0, i + 1).last() == p.items@[i as int]@);
        }
        match write_item(&p.items[i], d, data, alone, out) {
            Ok(()) => {
                proof {
                    assert(out.text() =~= start + items_text(p@.subrange(0, i + 1), *d, data@, alone)->Some_0);
                }
            },
            Err(e) => {
                proof {
                    if e == DateTimeFormatterError::MissingSymbol {
                        lemma_failure_persists(p@, *d, data@, alone, i as int + 1);
                    }
                }
                return Err(e);
            },
        }
        i = i + 1;
    }
    assert(p@.subrange(0, i as int) =~= p@);
    Ok(())
}

/// The concatenated text of the literal items.
pub open spec fn literal_text(items: Seq<ItemModel>) -> Seq<char>
    decreases items.len(),
{
    if items.len() == 0 {
        Seq::empty()
    } else {
        literal_text(items.drop_last()) + match items.last() {
            ItemModel::Literal(s) => s,
            _ => Seq::empty(),
        }
    }
}

/// A pattern of literal items only renders as exactly its text, whatever the
/// date, time and locale tables.
pub proof fn lemma_literal_pattern_text(p: Seq<ItemModel>, d: DateTimeInput, data: FormatModel)
    requires
        forall|k: int| 0 <= k < p.len() ==> #[trigger] p[k] is Literal,
    ensures
        pattern_text(p, d, data) == Some(literal_text(p)),
{
    lemma_literal_items_text(p, d, data, field_count(p) == 1);
}

proof fn lemma_literal_items_text(items: Seq<ItemModel>, d: DateTimeInput, data: FormatModel, alone: bool)
    requires
        forall|k: int| 0 <= k < items.len() ==> #[trigger] items[k] is Literal,
    ensures
        items_text(items, d, data, alone) == Some(literal_text(items)),
    decreases items.len(),
{
    if items.len() > 0 {
        let pre = items.drop_last();
        assert forall|k: int| 0 <= k < pre.len() implies #[trigger] pre[k] is Literal by {
            assert(pre[k] == items[k]);
        }
        lemma_literal_items_text(pre, d, data, alone);
        assert(items[items.len() - 1] is Literal);
    }
}

/// A field whose name the symbol tables lack makes the whole pattern fail:
/// no text is produced for it, neither an empty one nor a substitute.
pub proof fn lemma_missing_symbol_fails(p: Seq<ItemModel>, d: DateTimeInput, data: FormatModel, k: int)
    requires
        0 <= k < p.len(),
        item_text(p[k], d, data, field_count(p) == 1) is None,
    ensures
        pattern_text(p, d, data) is None,
{
    let alone = field_count(p) == 1;
    assert(p.subrange(0, k + 1).drop_last() =~= p.subrange(0, k));
    assert(p.subrange(0, k + 1).last() == p[k]);
    lemma_failure_persists(p, d, data, alone, k + 1);
}

proof fn lemma_failure_persists(items: Seq<ItemModel>, d: DateTimeInput, data: FormatModel, alone: bool, n: int)
    requires
        0 <= n <= items.len(),
        items_text(items.subrange(0, n), d, data, alone) is None,
    ensures
        items_text(items, d, data, alone) is None,
    decreases items.len() - n,
{
    if n < items.len() {
        assert(items.subrange(0, n + 1).drop_last() =~= items.subrange(0, n));
        lemma_failure_persists(items, d, data, alone, n + 1);
    } else {
        assert(items.subrange(0, n) =~= items);
    }
}

} // verus!
