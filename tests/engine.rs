use icu_datetime::{
    assemble, best_match, week_of, write_numeral, write_pattern, Calendar, DateTimeFormatterError,
    DateTimeInput, FieldSymbol, FormatData, HourCycle, NumberingSystem, Pattern, PatternItem,
    PenaltyTable, RelativeYear, SkeletonEntry, SkeletonField, SymbolContext, SymbolSet, SymbolTable,
    TextWidth, WeekOfYear, WeekRules, Weekday,
};

fn latin() -> NumberingSystem {
    NumberingSystem { digits: ['0', '1', '2', '3', '4', '5', '6', '7', '8', '9'] }
}

fn iso() -> WeekRules {
    WeekRules { first_weekday: Weekday::Monday, min_week_days: 4 }
}

fn months(context: SymbolContext, list: [&str; 3]) -> SymbolSet {
    SymbolSet {
        field: FieldSymbol::Month,
        context,
        width: TextWidth::Wide,
        names: list.iter().map(|s| s.to_string()).collect(),
    }
}

fn data_with(date_sets: Vec<SymbolSet>, rules: WeekRules) -> FormatData {
    FormatData {
        date_symbols: SymbolTable { sets: date_sets },
        time_symbols: SymbolTable { sets: vec![] },
        week_rules: rules,
        numbering: latin(),
    }
}

fn input(day_of_year: u16, days_in_year: u16, days_in_prev_year: u16, weekday: Weekday) -> DateTimeInput {
    DateTimeInput {
        calendar: Calendar::Gregorian,
        era: 1,
        year: 2015,
        month: 1,
        day: 1,
        day_of_year,
        days_in_year,
        days_in_prev_year,
        weekday,
        hour: 5,
        minute: 0,
        second: 9,
    }
}

fn render(items: Vec<PatternItem>, d: &DateTimeInput, data: &FormatData) -> Result<String, DateTimeFormatterError> {
    let p = Pattern::from_items(items);
    let mut s = String::new();
    write_pattern(&p, d, data, &mut s).map(|_| s)
}

#[test]
fn iso_last_day_of_year_starting_thursday_is_week_53() {
    // 2015 starts on a Thursday; December 31 2015 is a Thursday
    let w = week_of(&iso(), 365, 365, 365, Weekday::Thursday);
    assert_eq!(w, WeekOfYear { week: 53, year: RelativeYear::Current });
}

#[test]
fn iso_year_starting_friday_boundaries() {
    // 2016 starts on a Friday and is a leap year; 2015 had 53 weeks
    let first = week_of(&iso(), 365, 366, 1, Weekday::Friday);
    assert_eq!(first, WeekOfYear { week: 53, year: RelativeYear::Previous });
    let last = week_of(&iso(), 365, 366, 366, Weekday::Saturday);
    assert_eq!(last, WeekOfYear { week: 52, year: RelativeYear::Current });
    // 2021 starts on a Friday; December 31 2021 is a Friday
    let end_2021 = week_of(&iso(), 366, 365, 365, Weekday::Friday);
    assert_eq!(end_2021, WeekOfYear { week: 52, year: RelativeYear::Current });
    let start_2021 = week_of(&iso(), 366, 365, 1, Weekday::Friday);
    assert_eq!(start_2021, WeekOfYear { week: 53, year: RelativeYear::Previous });
}

#[test]
fn iso_last_days_counting_in_next_year() {
    // December 29 2014 is a Monday and starts week 1 of 2015
    let w = week_of(&iso(), 365, 365, 363, Weekday::Monday);
    assert_eq!(w, WeekOfYear { week: 1, year: RelativeYear::Next });
    let before = week_of(&iso(), 365, 365, 362, Weekday::Sunday);
    assert_eq!(before, WeekOfYear { week: 52, year: RelativeYear::Current });
}

#[test]
fn sunday_first_week_rules() {
    let us = WeekRules { first_weekday: Weekday::Sunday, min_week_days: 1 };
    // January 1 2022 is a Saturday: a one-day first week
    assert_eq!(week_of(&us, 365, 365, 1, Weekday::Saturday), WeekOfYear { week: 1, year: RelativeYear::Current });
    assert_eq!(week_of(&us, 365, 365, 2, Weekday::Sunday), WeekOfYear { week: 2, year: RelativeYear::Current });
    // December 31 2022 is a Saturday, in week 53
    assert_eq!(week_of(&us, 365, 365, 365, Weekday::Saturday), WeekOfYear { week: 53, year: RelativeYear::Current });
}

#[test]
fn week_field_renders_week_number() {
    let data = data_with(vec![], iso());
    let d = input(365, 365, 365, Weekday::Thursday);
    let r = render(vec![PatternItem::Literal("W".to_string()), PatternItem::Field(FieldSymbol::Week, 2)], &d, &data);
    assert_eq!(r.unwrap(), "W53");
    let early = input(3, 365, 365, Weekday::Saturday);
    let r = render(vec![PatternItem::Field(FieldSymbol::Week, 2)], &early, &data);
    assert_eq!(r.unwrap(), "01");
}

#[test]
fn hour_zero_padding() {
    let data = data_with(vec![], iso());
    let d = input(1, 365, 365, Weekday::Thursday);
    let two = render(vec![PatternItem::Field(FieldSymbol::Hour(HourCycle::H23), 2)], &d, &data);
    assert_eq!(two.unwrap(), "05");
    let one = render(vec![PatternItem::Field(FieldSymbol::Hour(HourCycle::H23), 1)], &d, &data);
    assert_eq!(one.unwrap(), "5");
}

#[test]
fn numerals_pad_and_never_truncate() {
    let mut s = String::new();
    write_numeral(5, 2, &latin(), &mut s);
    assert_eq!(s, "05");
    let mut s = String::from("x");
    write_numeral(2020, 2, &latin(), &mut s);
    assert_eq!(s, "x2020");
    let mut s = String::new();
    write_numeral(0, 3, &latin(), &mut s);
    assert_eq!(s, "000");
    let mut s = String::new();
    write_numeral(4294967295, 1, &latin(), &mut s);
    assert_eq!(s, "4294967295");
}

#[test]
fn numerals_use_locale_digits() {
    let arabic = NumberingSystem { digits: ['٠', '١', '٢', '٣', '٤', '٥', '٦', '٧', '٨', '٩'] };
    let mut s = String::new();
    write_numeral(907, 4, &arabic, &mut s);
    assert_eq!(s, "٠٩٠٧");
}

#[test]
fn literal_only_pattern_reproduces_text() {
    let data = data_with(vec![], iso());
    let items = || {
        vec![
            PatternItem::Literal("It's ".to_string()),
            PatternItem::Literal("{0} o'clock — ".to_string()),
            PatternItem::Literal("".to_string()),
            PatternItem::Literal("yyyy".to_string()),
        ]
    };
    let a = render(items(), &input(1, 365, 365, Weekday::Thursday), &data).unwrap();
    let b = render(items(), &input(200, 366, 365, Weekday::Sunday), &data).unwrap();
    assert_eq!(a, "It's {0} o'clock — yyyy");
    assert_eq!(a, b);
}

#[test]
fn stand_alone_names_preferred_for_lone_field() {
    let data = data_with(
        vec![
            months(SymbolContext::Format, ["ene", "feb", "mar"]),
            months(SymbolContext::StandAlone, ["Enero", "Febrero", "Marzo"]),
        ],
        iso(),
    );
    let mut d = input(40, 365, 365, Weekday::Monday);
    d.month = 2;
    let alone = render(vec![PatternItem::Field(FieldSymbol::Month, 4)], &d, &data);
    assert_eq!(alone.unwrap(), "Febrero");
    let with_day = render(
        vec![PatternItem::Field(FieldSymbol::Day, 1), PatternItem::Literal(" de ".to_string()), PatternItem::Field(FieldSymbol::Month, 4)],
        &d,
        &data,
    );
    assert_eq!(with_day.unwrap(), "1 de feb");
}

#[test]
fn stand_alone_falls_back_to_format_names() {
    let data = data_with(vec![months(SymbolContext::Format, ["ene", "feb", "mar"])], iso());
    let mut d = input(60, 365, 365, Weekday::Monday);
    d.month = 3;
    let alone = render(vec![PatternItem::Field(FieldSymbol::Month, 4)], &d, &data);
    assert_eq!(alone.unwrap(), "mar");
}

#[test]
fn missing_names_give_missing_symbol() {
    let data = data_with(vec![months(SymbolContext::Format, ["ene", "feb", "mar"])], iso());
    let mut d = input(100, 365, 365, Weekday::Monday);
    d.month = 4;
    let r = render(vec![PatternItem::Field(FieldSymbol::Month, 4)], &d, &data);
    assert_eq!(r, Err(DateTimeFormatterError::MissingSymbol));
    d.month = 1;
    let abbreviated = render(vec![PatternItem::Field(FieldSymbol::Month, 3)], &d, &data);
    assert_eq!(abbreviated, Err(DateTimeFormatterError::MissingSymbol));
    let day_period = render(vec![PatternItem::Field(FieldSymbol::DayPeriod, 1)], &d, &data);
    assert_eq!(day_period, Err(DateTimeFormatterError::MissingSymbol));
}

#[test]
fn glue_places_date_and_time() {
    assert_eq!(assemble("{1} at {0}", "Sep 1, 2020", "12:34:28 PM"), "Sep 1, 2020 at 12:34:28 PM");
    assert_eq!(assemble("{0} {1}", "D", "T"), "T D");
    assert_eq!(assemble("{1}{", "D", "T"), "D{");
    assert_eq!(assemble("{2} {1", "D", "T"), "{2} {1");
    assert_eq!(assemble("", "D", "T"), "");
}

fn entry(fields: &[(FieldSymbol, u8)], items: Vec<PatternItem>) -> SkeletonEntry {
    SkeletonEntry {
        skeleton: fields.iter().map(|&(symbol, length)| SkeletonField { symbol, length }).collect(),
        pattern: Pattern::from_items(items),
    }
}

fn penalties() -> PenaltyTable {
    PenaltyTable { numeric_width: 1, text_width: 10, missing_field: 1000, reject_at: 5000 }
}

#[test]
fn best_match_prefers_lower_score() {
    let table = vec![
        entry(&[(FieldSymbol::Year, 1)], vec![PatternItem::Field(FieldSymbol::Year, 1)]),
        entry(
            &[(FieldSymbol::Year, 1), (FieldSymbol::Month, 4)],
            vec![PatternItem::Field(FieldSymbol::Month, 4), PatternItem::Field(FieldSymbol::Year, 1)],
        ),
        entry(
            &[(FieldSymbol::Year, 2), (FieldSymbol::Month, 2)],
            vec![PatternItem::Field(FieldSymbol::Month, 2), PatternItem::Field(FieldSymbol::Year, 2)],
        ),
    ];
    let req = vec![
        SkeletonField { symbol: FieldSymbol::Year, length: 1 },
        SkeletonField { symbol: FieldSymbol::Month, length: 1 },
    ];
    // year-only scores 1000, the wide month 10, the two-digit pair 2
    assert_eq!(best_match(&req, &table, &penalties()), Ok(2));
}

#[test]
fn best_match_breaks_ties_by_canonical_order() {
    let table = vec![
        entry(
            &[(FieldSymbol::Year, 1), (FieldSymbol::Month, 1)],
            vec![PatternItem::Field(FieldSymbol::Month, 1), PatternItem::Field(FieldSymbol::Year, 1)],
        ),
        entry(
            &[(FieldSymbol::Year, 1), (FieldSymbol::Month, 1)],
            vec![PatternItem::Field(FieldSymbol::Year, 1), PatternItem::Literal("-".to_string()), PatternItem::Field(FieldSymbol::Month, 1)],
        ),
        entry(
            &[(FieldSymbol::Year, 1), (FieldSymbol::Month, 1)],
            vec![PatternItem::Field(FieldSymbol::Year, 1), PatternItem::Field(FieldSymbol::Month, 1)],
        ),
    ];
    let req = vec![
        SkeletonField { symbol: FieldSymbol::Month, length: 1 },
        SkeletonField { symbol: FieldSymbol::Year, length: 1 },
    ];
    assert_eq!(best_match(&req, &table, &penalties()), Ok(1));
}

#[test]
fn best_match_rejects_unrequested_fields_and_high_scores() {
    let table = vec![
        entry(&[(FieldSymbol::Era, 3), (FieldSymbol::Year, 1)], vec![PatternItem::Field(FieldSymbol::Year, 1)]),
        entry(&[(FieldSymbol::Day, 1)], vec![PatternItem::Field(FieldSymbol::Day, 1)]),
    ];
    let req = vec![SkeletonField { symbol: FieldSymbol::Year, length: 1 }];
    let strict = PenaltyTable { numeric_width: 1, text_width: 10, missing_field: 1000, reject_at: 1000 };
    assert_eq!(best_match(&req, &table, &strict), Err(DateTimeFormatterError::UnsupportedSkeleton));
    let lenient = PenaltyTable { numeric_width: 1, text_width: 10, missing_field: 1000, reject_at: 1001 };
    assert_eq!(best_match(&req, &table, &lenient), Err(DateTimeFormatterError::UnsupportedSkeleton));
    let empty: Vec<SkeletonEntry> = vec![];
    assert_eq!(best_match(&req, &empty, &lenient), Err(DateTimeFormatterError::UnsupportedSkeleton));
}

#[test]
fn best_match_allows_day_period_with_hour() {
    let table = vec![
        entry(&[(FieldSymbol::Minute, 2), (FieldSymbol::DayPeriod, 1)], vec![PatternItem::Field(FieldSymbol::Minute, 2)]),
        entry(
            &[(FieldSymbol::Hour(HourCycle::H12), 1), (FieldSymbol::DayPeriod, 1)],
            vec![PatternItem::Field(FieldSymbol::Hour(HourCycle::H12), 1), PatternItem::Field(FieldSymbol::DayPeriod, 1)],
        ),
    ];
    let req = vec![SkeletonField { symbol: FieldSymbol::Hour(HourCycle::H23), length: 1 }];
    assert_eq!(best_match(&req, &table, &penalties()), Ok(1));
    let minute = vec![SkeletonField { symbol: FieldSymbol::Minute, length: 2 }];
    assert_eq!(best_match(&minute, &table, &penalties()), Err(DateTimeFormatterError::UnsupportedSkeleton));
}

#[test]
fn calendar_identifiers() {
    assert_eq!(Calendar::Gregorian.bcp47_identifier(), "gregory");
    assert_eq!(Calendar::Buddhist.bcp47_identifier(), "buddhist");
    assert_eq!(Calendar::Japanese.bcp47_identifier(), "japanese");
    assert_eq!(Calendar::Indian.bcp47_identifier(), "indian");
    assert_eq!(Calendar::Coptic.bcp47_identifier(), "coptic");
    assert_eq!(Calendar::Ethiopian.bcp47_identifier(), "ethiopic");
}
