use icu_datetime::{
    Bag, Calendar, CalendarData, DateFormatter, DateTimeFormatter, DateTimeFormatterError,
    DateTimeFormatterOptions, DateTimeInput, FieldSymbol, FormatData, HourCycle, Length,
    LengthBag, LengthGlue, LengthPatterns, Month, Numeric, NumberingSystem, Pattern, PatternItem,
    PenaltyTable, SkeletonEntry, SkeletonField, SymbolContext, SymbolSet, SymbolTable, Text,
    TextSink, TextWidth, TimeFormatter, WeekRules, Weekday,
};

fn lit(s: &str) -> PatternItem {
    PatternItem::Literal(s.to_string())
}

fn field(s: FieldSymbol, l: u8) -> PatternItem {
    PatternItem::Field(s, l)
}

fn pattern(items: Vec<PatternItem>) -> Pattern {
    Pattern::from_items(items)
}

fn names(list: &[&str]) -> Vec<String> {
    list.iter().map(|s| s.to_string()).collect()
}

fn set(f: FieldSymbol, c: SymbolContext, w: TextWidth, list: &[&str]) -> SymbolSet {
    SymbolSet { field: f, context: c, width: w, names: names(list) }
}

const H12: FieldSymbol = FieldSymbol::Hour(HourCycle::H12);
const H23: FieldSymbol = FieldSymbol::Hour(HourCycle::H23);

fn latin() -> NumberingSystem {
    NumberingSystem { digits: ['0', '1', '2', '3', '4', '5', '6', '7', '8', '9'] }
}

fn format_data() -> FormatData {
    let date_symbols = SymbolTable {
        sets: vec![
            set(
                FieldSymbol::Month,
                SymbolContext::Format,
                TextWidth::Abbreviated,
                &["Jan", "Feb", "Mar", "Apr", "May", "Jun", "Jul", "Aug", "Sep", "Oct", "Nov", "Dec"],
            ),
            set(
                FieldSymbol::Month,
                SymbolContext::Format,
                TextWidth::Wide,
                &[
                    "January", "February", "March", "April", "May", "June", "July", "August",
                    "September", "October", "November", "December",
                ],
            ),
            set(
                FieldSymbol::Weekday,
                SymbolContext::Format,
                TextWidth::Wide,
                &["Monday", "Tuesday", "Wednesday", "Thursday", "Friday", "Saturday", "Sunday"],
            ),
            set(
                FieldSymbol::Weekday,
                SymbolContext::Format,
                TextWidth::Abbreviated,
                &["Mon", "Tue", "Wed", "Thu", "Fri", "Sat", "Sun"],
            ),
            set(FieldSymbol::Era, SymbolContext::Format, TextWidth::Abbreviated, &["BC", "AD"]),
        ],
    };
    let time_symbols = SymbolTable {
        sets: vec![set(FieldSymbol::DayPeriod, SymbolContext::Format, TextWidth::Abbreviated, &["AM", "PM"])],
    };
    FormatData {
        date_symbols,
        time_symbols,
        week_rules: WeekRules { first_weekday: Weekday::Sunday, min_week_days: 1 },
        numbering: latin(),
    }
}

fn skeleton(fields: &[(FieldSymbol, u8)]) -> Vec<SkeletonField> {
    fields.iter().map(|&(symbol, length)| SkeletonField { symbol, length }).collect()
}

fn skeletons() -> Vec<SkeletonEntry> {
    vec![
        SkeletonEntry {
            skeleton: skeleton(&[(FieldSymbol::Year, 1)]),
            pattern: pattern(vec![field(FieldSymbol::Year, 1)]),
        },
        SkeletonEntry {
            skeleton: skeleton(&[(FieldSymbol::Year, 1), (FieldSymbol::Month, 3), (FieldSymbol::Day, 1)]),
            pattern: pattern(vec![
                field(FieldSymbol::Month, 3),
                lit(" "),
                field(FieldSymbol::Day, 1),
                lit(", "),
                field(FieldSymbol::Year, 1),
            ]),
        },
        SkeletonEntry {
            skeleton: skeleton(&[(FieldSymbol::Year, 1), (FieldSymbol::Month, 3)]),
            pattern: pattern(vec![field(FieldSymbol::Month, 3), lit(" "), field(FieldSymbol::Year, 1)]),
        },
        SkeletonEntry {
            skeleton: skeleton(&[(H12, 1), (FieldSymbol::Minute, 2), (FieldSymbol::DayPeriod, 1)]),
            pattern: pattern(vec![
                field(H12, 1),
                lit(":"),
                field(FieldSymbol::Minute, 2),
                lit(" "),
                field(FieldSymbol::DayPeriod, 1),
            ]),
        },
    ]
}

fn en_data() -> CalendarData {
    CalendarData {
        calendar: Calendar::Gregorian,
        date_patterns: LengthPatterns {
            full: Some(pattern(vec![
                field(FieldSymbol::Weekday, 4),
                lit(", "),
                field(FieldSymbol::Month, 4),
                lit(" "),
                field(FieldSymbol::Day, 1),
                lit(", "),
                field(FieldSymbol::Year, 1),
            ])),
            long: Some(pattern(vec![
                field(FieldSymbol::Month, 4),
                lit(" "),
                field(FieldSymbol::Day, 1),
                lit(", "),
                field(FieldSymbol::Year, 1),
            ])),
            medium: Some(pattern(vec![
                field(FieldSymbol::Month, 3),
                lit(" "),
                field(FieldSymbol::Day, 1),
                lit(", "),
                field(FieldSymbol::Year, 1),
            ])),
            short: Some(pattern(vec![
                field(FieldSymbol::Month, 1),
                lit("/"),
                field(FieldSymbol::Day, 1),
                lit("/"),
                field(FieldSymbol::Year, 1),
            ])),
        },
        time_patterns: LengthPatterns {
            full: None,
            long: None,
            medium: Some(pattern(vec![
                field(H12, 1),
                lit(":"),
                field(FieldSymbol::Minute, 2),
                lit(":"),
                field(FieldSymbol::Second, 2),
                lit(" "),
                field(FieldSymbol::DayPeriod, 1),
            ])),
            short: Some(pattern(vec![field(H12, 1), lit(":"), field(FieldSymbol::Minute, 2)])),
        },
        glue: LengthGlue {
            full: Some("{1} 'at' {0}".to_string()),
            long: None,
            medium: Some("{1} at {0}".to_string()),
            short: Some("{1}, {0}".to_string()),
        },
        skeletons: skeletons(),
        penalties: PenaltyTable { numeric_width: 1, text_width: 10, missing_field: 1000, reject_at: 1000 },
        format: format_data(),
    }
}

fn sep_1_2020() -> DateTimeInput {
    DateTimeInput {
        calendar: Calendar::Gregorian,
        era: 1,
        year: 2020,
        month: 9,
        day: 1,
        day_of_year: 245,
        days_in_year: 366,
        days_in_prev_year: 365,
        weekday: Weekday::Tuesday,
        hour: 12,
        minute: 34,
        second: 28,
    }
}

fn length_bag(date: Option<Length>, time: Option<Length>) -> DateTimeFormatterOptions {
    DateTimeFormatterOptions::Length(LengthBag { date, time, hour_cycle: None })
}

fn empty_bag() -> Bag {
    Bag {
        era: None,
        year: None,
        month: None,
        week: None,
        day: None,
        weekday: None,
        hour: None,
        minute: None,
        second: None,
        hour_cycle: None,
    }
}

#[test]
fn date_lengths_render_canonical_patterns() {
    let data = en_data();
    let d = sep_1_2020();
    let cases = [
        (Length::Full, "Tuesday, September 1, 2020"),
        (Length::Long, "September 1, 2020"),
        (Length::Medium, "Sep 1, 2020"),
        (Length::Short, "9/1/2020"),
    ];
    for (l, want) in cases {
        let f = DateFormatter::try_new(Calendar::Gregorian, &data, l).unwrap();
        assert_eq!(f.format_to_string(&d).unwrap(), want);
    }
}

#[test]
fn length_styles_resolve_documented_widths() {
    let data = en_data();
    let full = DateTimeFormatter::try_new(Calendar::Gregorian, &data, &length_bag(Some(Length::Full), None)).unwrap();
    let c = full.resolve_components();
    assert_eq!(c.weekday, Some(Text::Long));
    assert_eq!(c.month, Some(Month::Long));
    assert_eq!(c.day, Some(Numeric::Numeric));
    assert_eq!(c.year, Some(Numeric::Numeric));
    let long = DateTimeFormatter::try_new(Calendar::Gregorian, &data, &length_bag(Some(Length::Long), None)).unwrap();
    assert_eq!(long.resolve_components().month, Some(Month::Long));
    assert_eq!(long.resolve_components().weekday, None);
    let medium =
        DateTimeFormatter::try_new(Calendar::Gregorian, &data, &length_bag(Some(Length::Medium), None)).unwrap();
    assert_eq!(medium.resolve_components().month, Some(Month::Short));
    let short = DateTimeFormatter::try_new(Calendar::Gregorian, &data, &length_bag(Some(Length::Short), None)).unwrap();
    assert_eq!(short.resolve_components().month, Some(Month::Numeric));
}

#[test]
fn time_formatter_medium() {
    let data = en_data();
    let f = TimeFormatter::try_new(Calendar::Gregorian, &data, Length::Medium, None).unwrap();
    assert_eq!(f.format_to_string(&sep_1_2020()).unwrap(), "12:34:28 PM");
    let formatted = f.format(&sep_1_2020()).unwrap();
    assert_eq!(formatted.as_str(), "12:34:28 PM");
}

#[test]
fn time_formatter_hour_cycle_preference() {
    let data = en_data();
    let mut d = sep_1_2020();
    d.hour = 0;
    d.minute = 5;
    let want = [
        (None, "12:05"),
        (Some(HourCycle::H11), "0:05"),
        (Some(HourCycle::H12), "12:05"),
        (Some(HourCycle::H23), "0:05"),
        (Some(HourCycle::H24), "24:05"),
    ];
    for (hc, text) in want {
        let f = TimeFormatter::try_new(Calendar::Gregorian, &data, Length::Short, hc).unwrap();
        assert_eq!(f.format_to_string(&d).unwrap(), text);
    }
}

#[test]
fn time_formatter_missing_length_is_missing_data() {
    let data = en_data();
    let r = TimeFormatter::try_new(Calendar::Gregorian, &data, Length::Full, None);
    assert_eq!(r.err(), Some(DateTimeFormatterError::MissingData));
}

#[test]
fn formatter_for_other_calendar_is_missing_data() {
    let data = en_data();
    assert_eq!(
        DateFormatter::try_new(Calendar::Buddhist, &data, Length::Medium).err(),
        Some(DateTimeFormatterError::MissingData)
    );
    assert_eq!(
        DateTimeFormatter::try_new(Calendar::Japanese, &data, &length_bag(Some(Length::Medium), None)).err(),
        Some(DateTimeFormatterError::MissingData)
    );
}

#[test]
fn date_and_time_joined_by_glue() {
    let data = en_data();
    let date = DateFormatter::try_new(Calendar::Gregorian, &data, Length::Medium).unwrap();
    let time = TimeFormatter::try_new(Calendar::Gregorian, &data, Length::Medium, None).unwrap();
    let f = DateTimeFormatter::try_from_date_and_time(date, time).unwrap();
    assert_eq!(f.format_to_string(&sep_1_2020()).unwrap(), "Sep 1, 2020 at 12:34:28 PM");
    let mut w = String::from(">> ");
    f.format_to_write(&mut w, &sep_1_2020()).unwrap();
    assert_eq!(w, ">> Sep 1, 2020 at 12:34:28 PM");
}

#[test]
fn date_and_time_without_glue_is_missing_data() {
    let data = en_data();
    let date = DateFormatter::try_new(Calendar::Gregorian, &data, Length::Long).unwrap();
    let time = TimeFormatter::try_new(Calendar::Gregorian, &data, Length::Medium, None).unwrap();
    let r = DateTimeFormatter::try_from_date_and_time(date, time);
    assert_eq!(r.err(), Some(DateTimeFormatterError::MissingData));
}

#[test]
fn length_bag_with_date_and_time() {
    let data = en_data();
    let f = DateTimeFormatter::try_new(
        Calendar::Gregorian,
        &data,
        &length_bag(Some(Length::Short), Some(Length::Short)),
    )
    .unwrap();
    assert_eq!(f.format_to_string(&sep_1_2020()).unwrap(), "9/1/2020, 12:34");
    let c = f.resolve_components();
    assert_eq!(c.month, Some(Month::Numeric));
    assert_eq!(c.hour, Some(Numeric::Numeric));
    assert_eq!(c.minute, Some(Numeric::TwoDigit));
    assert_eq!(c.hour_cycle, Some(HourCycle::H12));
}

#[test]
fn length_bag_without_styles_is_missing_data() {
    let data = en_data();
    let r = DateTimeFormatter::try_new(Calendar::Gregorian, &data, &length_bag(None, None));
    assert_eq!(r.err(), Some(DateTimeFormatterError::MissingData));
}

#[test]
fn length_bag_time_only() {
    let data = en_data();
    let opts = DateTimeFormatterOptions::Length(LengthBag {
        date: None,
        time: Some(Length::Short),
        hour_cycle: Some(HourCycle::H23),
    });
    let f = DateTimeFormatter::try_new(Calendar::Gregorian, &data, &opts).unwrap();
    let mut d = sep_1_2020();
    d.hour = 17;
    assert_eq!(f.format_to_string(&d).unwrap(), "17:34");
    assert_eq!(f.resolve_components().hour_cycle, Some(HourCycle::H23));
}

#[test]
fn components_year_month_rounds_to_nearest_skeleton() {
    let data = en_data();
    let mut bag = empty_bag();
    bag.year = Some(Numeric::Numeric);
    bag.month = Some(Month::Numeric);
    let f = DateTimeFormatter::try_new(Calendar::Gregorian, &data, &DateTimeFormatterOptions::Components(bag)).unwrap();
    assert_eq!(f.format_to_string(&sep_1_2020()).unwrap(), "Sep 2020");
    let c = f.resolve_components();
    assert_eq!(c.year, Some(Numeric::Numeric));
    assert_eq!(c.month, Some(Month::Short));
    assert_eq!(c.day, None);
}

#[test]
fn components_matching_is_deterministic() {
    let data = en_data();
    let mut bag = empty_bag();
    bag.year = Some(Numeric::Numeric);
    bag.month = Some(Month::Short);
    bag.day = Some(Numeric::Numeric);
    let opts = DateTimeFormatterOptions::Components(bag);
    let a = DateTimeFormatter::try_new(Calendar::Gregorian, &data, &opts).unwrap();
    let b = DateTimeFormatter::try_new(Calendar::Gregorian, &data, &opts).unwrap();
    assert_eq!(a.resolve_components(), b.resolve_components());
    assert_eq!(a.format_to_string(&sep_1_2020()).unwrap(), b.format_to_string(&sep_1_2020()).unwrap());
    assert_eq!(a.format_to_string(&sep_1_2020()).unwrap(), "Sep 1, 2020");
}

#[test]
fn components_hour_minute_brings_day_period() {
    let data = en_data();
    let mut bag = empty_bag();
    bag.hour = Some(Numeric::Numeric);
    bag.minute = Some(Numeric::TwoDigit);
    let f = DateTimeFormatter::try_new(Calendar::Gregorian, &data, &DateTimeFormatterOptions::Components(bag)).unwrap();
    assert_eq!(f.format_to_string(&sep_1_2020()).unwrap(), "12:34 PM");
}

#[test]
fn components_without_close_skeleton_is_unsupported() {
    let data = en_data();
    let mut bag = empty_bag();
    bag.era = Some(Text::Short);
    let r = DateTimeFormatter::try_new(Calendar::Gregorian, &data, &DateTimeFormatterOptions::Components(bag));
    assert_eq!(r.err(), Some(DateTimeFormatterError::UnsupportedSkeleton));
}

#[test]
fn missing_symbol_is_an_error() {
    let mut data = en_data();
    // no narrow month names in the table
    data.date_patterns.medium = Some(pattern(vec![field(FieldSymbol::Month, 5), lit(" "), field(FieldSymbol::Day, 1)]));
    let f = DateFormatter::try_new(Calendar::Gregorian, &data, Length::Medium).unwrap();
    assert_eq!(f.format_to_string(&sep_1_2020()).err(), Some(DateTimeFormatterError::MissingSymbol));
    assert!(f.format(&sep_1_2020()).is_err());
}

#[test]
fn missing_value_in_symbol_set_is_an_error() {
    let data = en_data();
    let f = DateFormatter::try_new(Calendar::Gregorian, &data, Length::Medium).unwrap();
    let mut d = sep_1_2020();
    d.month = 13;
    assert_eq!(f.format_to_string(&d).err(), Some(DateTimeFormatterError::MissingSymbol));
    d.month = 0;
    assert_eq!(f.format_to_string(&d).err(), Some(DateTimeFormatterError::MissingSymbol));
}

#[test]
fn missing_symbol_through_date_time_formatter() {
    let mut data = en_data();
    data.format.time_symbols = SymbolTable { sets: vec![] };
    let f = DateTimeFormatter::try_new(
        Calendar::Gregorian,
        &data,
        &length_bag(Some(Length::Medium), Some(Length::Medium)),
    )
    .unwrap();
    assert_eq!(f.format_to_string(&sep_1_2020()).err(), Some(DateTimeFormatterError::MissingSymbol));
}

#[test]
fn era_and_weekday_names() {
    let mut data = en_data();
    data.date_patterns.short = Some(pattern(vec![
        field(FieldSymbol::Weekday, 3),
        lit(" "),
        field(FieldSymbol::Year, 1),
        lit(" "),
        field(FieldSymbol::Era, 1),
    ]));
    let f = DateFormatter::try_new(Calendar::Gregorian, &data, Length::Short).unwrap();
    assert_eq!(f.format_to_string(&sep_1_2020()).unwrap(), "Tue 2020 AD");
}

#[test]
fn time_formatter_accepts_pattern_with_two_digit_hour() {
    let mut data = en_data();
    data.time_patterns.full = Some(pattern(vec![field(H23, 2), lit(":"), field(FieldSymbol::Minute, 2)]));
    let f = TimeFormatter::try_new(Calendar::Gregorian, &data, Length::Full, None).unwrap();
    let mut d = sep_1_2020();
    d.hour = 5;
    d.minute = 7;
    assert_eq!(f.format_to_string(&d).unwrap(), "05:07");
}

struct Limited {
    text: String,
    writes_left: usize,
}

impl TextSink for Limited {
    fn write_text(&mut self, s: &str) -> Result<(), ()> {
        if self.writes_left == 0 {
            return Err(());
        }
        self.writes_left -= 1;
        self.text.push_str(s);
        Ok(())
    }
}

#[test]
fn refused_write_is_write_failure() {
    let data = en_data();
    let f = DateFormatter::try_new(Calendar::Gregorian, &data, Length::Medium).unwrap();
    let mut sink = Limited { text: String::new(), writes_left: 2 };
    let r = f.format_to_write(&mut sink, &sep_1_2020());
    assert_eq!(r, Err(DateTimeFormatterError::WriteFailure));
    assert_eq!(sink.text, "Sep ");
    let mut roomy = Limited { text: String::new(), writes_left: 100 };
    assert_eq!(f.format_to_write(&mut roomy, &sep_1_2020()), Ok(()));
    assert_eq!(roomy.text, "Sep 1, 2020");
}

#[test]
fn refused_write_through_glue() {
    let data = en_data();
    let f = DateTimeFormatter::try_new(
        Calendar::Gregorian,
        &data,
        &length_bag(Some(Length::Medium), Some(Length::Medium)),
    )
    .unwrap();
    let mut closed = Limited { text: String::new(), writes_left: 0 };
    assert_eq!(f.format_to_write(&mut closed, &sep_1_2020()), Err(DateTimeFormatterError::WriteFailure));
    assert_eq!(closed.text, "");
}
