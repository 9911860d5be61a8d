use vstd::prelude::*;
use crate::components::{bag_skeleton, components_of, Bag};
use crate::error::DateTimeFormatterError;
use crate::fields::HourCycle;
use crate::glue::{assemble, glue_text};
use crate::pattern::{with_hour_cycle, ItemModel, Pattern};
use crate::provider::{glue_for, pattern_for, CalendarData, Length};
use crate::render::{pattern_text, write_pattern, Calendar, DateTimeInput, FormatData, FormatModel};
use crate::sink::TextSink;
use crate::skeleton::{best_match, eligible, is_best_match, lemma_best_match_unique};

verus! {

/// Length styles for a date, a time, or both; with both, the date's style
/// picks the glue pattern.
#[derive(Clone, Copy, Debug, PartialEq, Eq, Structural)]
pub struct LengthBag {
    pub date: Option<Length>,
    pub time: Option<Length>,
    /// The hour cycle wanted for the time, if any.
    pub hour_cycle: Option<HourCycle>,
}

/// What a date/time formatter is asked to show.
#[derive(Clone, Copy, Debug, PartialEq, Eq, Structural)]
pub enum DateTimeFormatterOptions {
    Length(LengthBag),
    Components(Bag),
}

/// How rendering `text` into a sink may end: on success the sink gained
/// exactly the text; `MissingSymbol` only when the text does not exist;
/// `WriteFailure` only when the sink refused a write, which a sink that
/// accepts all writes never does.
pub open spec fn sink_outcome<W: TextSink>(
    text: Option<Seq<char>>,
    before: W,
    after: W,
    r: Result<(), DateTimeFormatterError>,
) -> bool {
    &&& r is Ok ==> (text matches Some(t) && after.text() == before.text() + t)
    &&& r == Err::<(), _>(DateTimeFormatterError::MissingSymbol) ==> text is None
    &&& r is Err ==> r == Err::<(), _>(DateTimeFormatterError::MissingSymbol) || r == Err::<(), _>(
        DateTimeFormatterError::WriteFailure,
    )
    &&& before.accepts_all() ==> (text is None <==> r is Err) && r != Err::<(), _>(
        DateTimeFormatterError::WriteFailure,
    )
}

/// The pattern, switched to the preferred hour cycle when there is one.
pub open spec fn with_preference(p: Seq<ItemModel>, hc: Option<HourCycle>) -> Seq<ItemModel> {
    match hc {
        Some(c) => with_hour_cycle(p, c),
        None => p,
    }
}

/// Each component of `a`, or of `b` where `a` lacks it.
pub open spec fn merge_bags(a: Bag, b: Bag) -> Bag {
    Bag {
        era: if a.era is Some { a.era } else { b.era },
        year: if a.year is Some { a.year } else { b.year },
        month: if a.month is Some { a.month } else { b.month },
        week: if a.week is Some { a.week } else { b.week },
        day: if a.day is Some { a.day } else { b.day },
        weekday: if a.weekday is Some { a.weekday } else { b.weekday },
        hour: if a.hour is Some { a.hour } else { b.hour },
        minute: if a.minute is Some { a.minute } else { b.minute },
        second: if a.second is Some { a.second } else { b.second },
        hour_cycle: if a.hour_cycle is Some { a.hour_cycle } else { b.hour_cycle },
    }
}

fn merge_exec(a: Bag, b: Bag) -> (r: Bag)
    ensures
        r == merge_bags(a, b),
{
    Bag {
        era: if a.era.is_some() { a.era } else { b.era },
        year: if a.year.is_some() { a.year } else { b.year },
        month: if a.month.is_some() { a.month } else { b.month },
        week: if a.week.is_some() { a.week } else { b.week },
        day: if a.day.is_some() { a.day } else { b.day },
        weekday: if a.weekday.is_some() { a.weekday } else { b.weekday },
        hour: if a.hour.is_some() { a.hour } else { b.hour },
        minute: if a.minute.is_some() { a.minute } else { b.minute },
        second: if a.second.is_some() { a.second } else { b.second },
        hour_cycle: if a.hour_cycle.is_some() { a.hour_cycle } else { b.hour_cycle },
    }
}

/// A copy of `p`, switched to the preferred hour cycle when there is one.
fn prepare_pattern(p: &Pattern, hc: Option<HourCycle>) -> (r: Pattern)
    ensures
        r@ == with_preference(p@, hc),
{
    let mut q = p.copy();
    if let Some(c) = hc {
        q.apply_hour_cycle(c);
    }
    q
}

fn text_or_error(r: Result<(), DateTimeFormatterError>, out: String) -> (t: Result<String, DateTimeFormatterError>)
    ensures
        r is Ok ==> (t matches Ok(s) && s@ == out@),
        r matches Err(e) ==> t == Err::<String, _>(e),
{
    match r {
        Ok(()) => Ok(out),
        Err(e) => Err(e),
    }
}

/// Formats times with a pattern resolved once from a length style.
#[derive(Debug)]
pub struct TimeFormatter {
    calendar: Calendar,
    pattern: Pattern,
    data: FormatData,
}

impl TimeFormatter {
    pub closed spec fn cal(&self) -> Calendar {
        self.calendar
    }

    pub closed spec fn pattern_model(&self) -> Seq<ItemModel> {
        self.pattern@
    }

    pub closed spec fn data_model(&self) -> FormatModel {
        self.data@
    }

    pub closed spec fn wf(&self) -> bool {
        self.data.wf()
    }

    /// Text of `d`, or none when a name is missing.
    pub open spec fn text_for(&self, d: DateTimeInput) -> Option<Seq<char>> {
        pattern_text(self.pattern_model(), d, self.data_model())
    }

    /// A formatter for the locale's time pattern of style `length`, with its
    /// hour fields switched to `hour_cycle` when one is given. `MissingData`
    /// when the data is for another calendar or lacks that pattern.
    pub fn try_new(calendar: Calendar, data: &CalendarData, length: Length, hour_cycle: Option<HourCycle>) -> (r: Result<
        TimeFormatter,
        DateTimeFormatterError,
    >)
        requires
            data.wf(),
        ensures
            data.calendar != calendar || pattern_for(data.time_patterns, length) is None ==> r == Err::<
                TimeFormatter,
                _,
            >(DateTimeFormatterError::MissingData),
            data.calendar == calendar && pattern_for(data.time_patterns, length) is Some ==> (r matches Ok(f) && f.wf()
                && f.cal() == calendar && f.pattern_model() == with_preference(
                pattern_for(data.time_patterns, length)->Some_0@,
                hour_cycle,
            ) && f.data_model() == data.format@),
    {
        if data.calendar != calendar {
            return Err(DateTimeFormatterError::MissingData);
        }
        match data.time_patterns.get(length) {
            None => Err(DateTimeFormatterError::MissingData),
            Some(p) => Ok(TimeFormatter { calendar, pattern: prepare_pattern(p, hour_cycle), data: data.format.copy() }),
        }
    }

    /// Writes the text of `value` into `w`; `MissingSymbol` when a name is
    /// missing and `WriteFailure` when `w` refuses a write, with what was
    /// written before left in `w`.
    pub fn format_to_write<W: TextSink>(&self, w: &mut W, value: &DateTimeInput) -> (r: Result<(), DateTimeFormatterError>)
        requires
            self.wf(),
            value.wf(),
        ensures
            sink_outcome(self.text_for(*value), *old(w), *final(w), r),
    {
        write_pattern(&self.pattern, value, &self.data, w)
    }

    /// The text of `value`; `MissingSymbol` when a name is missing.
    pub fn format_to_string(&self, value: &DateTimeInput) -> (r: Result<String, DateTimeFormatterError>)
        requires
            self.wf(),
            value.wf(),
        ensures
            self.text_for(*value) matches Some(t) ==> r matches Ok(s) && s@ == t,
            self.text_for(*value) is None ==> r == Err::<String, _>(DateTimeFormatterError::MissingSymbol),
    {
        let mut s = String::new();
        let r = self.format_to_write(&mut s, value);
        text_or_error(r, s)
    }

    /// The text of `value` as a formatted value.
    pub fn format(&self, value: &DateTimeInput) -> (r: Result<FormattedDateTime, DateTimeFormatterError>)
        requires
            self.wf(),
            value.wf(),
        ensures
            self.text_for(*value) matches Some(t) ==> r matches Ok(f) && f@ == t,
            self.text_for(*value) is None ==> r == Err::<FormattedDateTime, _>(DateTimeFormatterError::MissingSymbol),
    {
        match self.format_to_string(value) {
            Ok(s) => Ok(FormattedDateTime { text: s }),
            Err(e) => Err(e),
        }
    }
}

/// Formats dates with a pattern resolved once from a length style.
#[derive(Debug)]
pub struct DateFormatter {
    calendar: Calendar,
    pattern: Pattern,
    data: FormatData,
    glue: Option<String>,
}

impl DateFormatter {
    pub closed spec fn cal(&self) -> Calendar {
        self.calendar
    }

    pub closed spec fn pattern_model(&self) -> Seq<ItemModel> {
        self.pattern@
    }

    pub closed spec fn data_model(&self) -> FormatModel {
        self.data@
    }

    /// The glue pattern of the formatter's length style, if the locale has one.
    pub closed spec fn glue_model(&self) -> Option<Seq<char>> {
        match self.glue {
            Some(g) => Some(g@),
            None => None,
        }
    }

    pub closed spec fn wf(&self) -> bool {
        self.data.wf()
    }

    pub open spec fn text_for(&self, d: DateTimeInput) -> Option<Seq<char>> {
        pattern_text(self.pattern_model(), d, self.data_model())
    }

    /// A formatter for the locale's date pattern of style `length`.
    /// `MissingData` when the data is for another calendar or lacks that
    /// pattern.
    pub fn try_new(calendar: Calendar, data: &CalendarData, length: Length) -> (r: Result<
        DateFormatter,
        DateTimeFormatterError,
    >)
        requires
            data.wf(),
        ensures
            data.calendar != calendar || pattern_for(data.date_patterns, length) is None ==> r == Err::<
                DateFormatter,
                _,
            >(DateTimeFormatterError::MissingData),
            data.calendar == calendar && pattern_for(data.date_patterns, length) is Some ==> (r matches Ok(f) && f.wf()
                && f.cal() == calendar && f.pattern_model() == pattern_for(data.date_patterns, length)->Some_0@
                && f.data_model() == data.format@ && f.glue_model() == match glue_for(data.glue, length) {
                Some(g) => Some(g@),
                None => None::<Seq<char>>,
            }),
    {
        if data.calendar != calendar {
            return Err(DateTimeFormatterError::MissingData);
        }
        match data.date_patterns.get(length) {
            None => Err(DateTimeFormatterError::MissingData),
            Some(p) => {
                let glue = match data.glue.get(length) {
                    Some(g) => Some(g.clone()),
                    None => None,
                };
                Ok(DateFormatter { calendar, pattern: p.copy(), data: data.format.copy(), glue })
            },
        }
    }

    /// Writes the text of `value` into `w`; `MissingSymbol` when a name is
    /// missing and `WriteFailure` when `w` refuses a write, with what was
    /// written before left in `w`.
    pub fn format_to_write<W: TextSink>(&self, w: &mut W, value: &DateTimeInput) -> (r: Result<(), DateTimeFormatterError>)
        requires
            self.wf(),
            value.wf(),
            value.calendar == self.cal(),
        ensures
            sink_outcome(self.text_for(*value), *old(w), *final(w), r),
    {
        write_pattern(&self.pattern, value, &self.data, w)
    }

    /// The text of `value`; `MissingSymbol` when a name is missing.
    pub fn format_to_string(&self, value: &DateTimeInput) -> (r: Result<String, DateTimeFormatterError>)
        requires
            self.wf(),
            value.wf(),
            value.calendar == self.cal(),
        ensures
            self.text_for(*value) matches Some(t) ==> r matches Ok(s) && s@ == t,
            self.text_for(*value) is None ==> r == Err::<String, _>(DateTimeFormatterError::MissingSymbol),
    {
        let mut s = String::new();
        let r = self.format_to_write(&mut s, value);
        text_or_error(r, s)
    }

    /// The text of `value` as a formatted value.
    pub fn format(&self, value: &DateTimeInput) -> (r: Result<FormattedDateTime, DateTimeFormatterError>)
        requires
            self.wf(),
            value.wf(),
            value.calendar == self.cal(),
        ensures
            self.text_for(*value) matches Some(t) ==> r matches Ok(f) && f@ == t,
            self.text_for(*value) is None ==> r == Err::<FormattedDateTime, _>(DateTimeFormatterError::MissingSymbol),
    {
        match self.format_to_string(value) {
            Ok(s) => Ok(FormattedDateTime { text: s }),
            Err(e) => Err(e),
        }
    }
}

/// Text produced by a formatter.
#[derive(Debug)]
pub struct FormattedDateTime {
    text: String,
}

impl View for FormattedDateTime {
    type V = Seq<char>;

    closed spec fn view(&self) -> Seq<char> {
        self.text@
    }
}

impl FormattedDateTime {
    pub fn as_str(&self) -> (r: &str)
        ensures
            r@ == self@,
    {
        self.text.as_str()
    }
}

/// How a date/time formatter renders: one pattern, or a date and a time
/// joined by a glue pattern.
#[derive(Debug)]
enum Layout {
    Single(Pattern, FormatData),
    Combined(DateFormatter, TimeFormatter, String),
}

/// What a date/time formatter renders with.
pub enum LayoutModel {
    Single(Seq<ItemModel>, FormatModel),
    Combined(Seq<ItemModel>, FormatModel, Seq<ItemModel>, FormatModel, Seq<char>),
}

/// Text of `d` under a layout: the pattern's text, or the glue pattern with
/// the date text and the time text in its placeholders.
pub open spec fn layout_text(l: LayoutModel, d: DateTimeInput) -> Option<Seq<char>> {
    match l {
        LayoutModel::Single(p, data) => pattern_text(p, d, data),
        LayoutModel::Combined(dp, dd, tp, td, g) => match (pattern_text(dp, d, dd), pattern_text(tp, d, td)) {
            (Some(a), Some(b)) => Some(glue_text(g, a, b)),
            _ => None,
        },
    }
}

/// Components shown by a layout.
pub open spec fn layout_components(l: LayoutModel) -> Bag {
    match l {
        LayoutModel::Single(p, _) => components_of(p),
        LayoutModel::Combined(dp, _, tp, _, _) => merge_bags(components_of(dp), components_of(tp)),
    }
}

/// The formatter resolves the components request `bag` against `data`: it
/// renders the pattern of the best-matching skeleton entry, switched to the
/// bag's hour cycle, and reports that pattern's components.
pub open spec fn resolves_components(f: DateTimeFormatter, data: CalendarData, bag: Bag) -> bool {
    exists|i: int|
        #![trigger data.skeletons@[i]]
        is_best_match(bag_skeleton(bag), data.skeletons@, data.penalties, i) && f.layout_model() == LayoutModel::Single(
            with_preference(data.skeletons@[i].pattern@, bag.hour_cycle),
            data.format@,
        )
}

/// Formats dates, times, or both, with patterns resolved once at construction.
#[derive(Debug)]
pub struct DateTimeFormatter {
    calendar: Calendar,
    layout: Layout,
    components: Bag,
}

impl DateTimeFormatter {
    pub closed spec fn cal(&self) -> Calendar {
        self.calendar
    }

    pub closed spec fn layout_model(&self) -> LayoutModel {
        match self.layout {
            Layout::Single(p, data) => LayoutModel::Single(p@, data@),
            Layout::Combined(df, tf, g) => LayoutModel::Combined(
                df.pattern_model(),
                df.data_model(),
                tf.pattern_model(),
                tf.data_model(),
                g@,
            ),
        }
    }

    pub closed spec fn components_model(&self) -> Bag {
        self.components
    }

    pub closed spec fn wf(&self) -> bool {
        &&& self.components == layout_components(self.layout_model())
        &&& match self.layout {
            Layout::Single(_, data) => data.wf(),
            Layout::Combined(df, tf, _) => df.wf() && tf.wf() && df.cal() == self.calendar,
        }
    }

    pub open spec fn text_for(&self, d: DateTimeInput) -> Option<Seq<char>> {
        layout_text(self.layout_model(), d)
    }

    /// Joins a date formatter and a time formatter with the glue pattern of
    /// the date's length style; `MissingData` when the locale has none.
    pub fn try_from_date_and_time(date: DateFormatter, time: TimeFormatter) -> (r: Result<
        DateTimeFormatter,
        DateTimeFormatterError,
    >)
        requires
            date.wf(),
            time.wf(),
        ensures
            date.glue_model() is None ==> r == Err::<DateTimeFormatter, _>(DateTimeFormatterError::MissingData),
            date.glue_model() matches Some(g) ==> (r matches Ok(f) && f.wf() && f.cal() == date.cal()
                && f.layout_model() == LayoutModel::Combined(
                date.pattern_model(),
                date.data_model(),
                time.pattern_model(),
                time.data_model(),
                g,
            )),
    {
        let glue = match &date.glue {
            Some(g) => g.clone(),
            None => {
                return Err(DateTimeFormatterError::MissingData);
            },
        };
        let components = merge_exec(Bag::of_pattern(&date.pattern), Bag::of_pattern(&time.pattern));
        let calendar = date.calendar;
        Ok(DateTimeFormatter { calendar, layout: Layout::Combined(date, time, glue), components })
    }

    /// A formatter for `options` from the locale data of `calendar`:
    /// - length styles: the date pattern, the time pattern (switched to the
    ///   preferred hour cycle), or both joined by the glue of the date style;
    ///   `MissingData` when any of them is missing or none is asked for;
    /// - components: the pattern of the best-matching skeleton entry;
    ///   `UnsupportedSkeleton` when no entry qualifies.
    /// `MissingData` when the data is for another calendar.
    pub fn try_new(calendar: Calendar, data: &CalendarData, options: &DateTimeFormatterOptions) -> (r: Result<
        DateTimeFormatter,
        DateTimeFormatterError,
    >)
        requires
            data.wf(),
        ensures
            r matches Ok(f) ==> f.wf() && f.cal() == calendar,
            data.calendar != calendar ==> r == Err::<DateTimeFormatter, _>(DateTimeFormatterError::MissingData),
            data.calendar == calendar ==> match *options {
                DateTimeFormatterOptions::Length(b) => match (b.date, b.time) {
                    (None, None) => r == Err::<DateTimeFormatter, _>(DateTimeFormatterError::MissingData),
                    (Some(dl), None) => match pattern_for(data.date_patterns, dl) {
                        None => r == Err::<DateTimeFormatter, _>(DateTimeFormatterError::MissingData),
                        Some(p) => r matches Ok(f) && f.layout_model() == LayoutModel::Single(p@, data.format@),
                    },
                    (None, Some(tl)) => match pattern_for(data.time_patterns, tl) {
                        None => r == Err::<DateTimeFormatter, _>(DateTimeFormatterError::MissingData),
                        Some(p) => r matches Ok(f) && f.layout_model() == LayoutModel::Single(
                            with_preference(p@, b.hour_cycle),
                            data.format@,
                        ),
                    },
                    (Some(dl), Some(tl)) => match (
                        pattern_for(data.date_patterns, dl),
                        pattern_for(data.time_patterns, tl),
                        glue_for(data.glue, dl),
                    ) {
                        (Some(dp), Some(tp), Some(g)) => r matches Ok(f) && f.layout_model() == LayoutModel::Combined(
                            dp@,
                            data.format@,
                            with_preference(tp@, b.hour_cycle),
                            data.format@,
                            g@,
                        ),
                        _ => r == Err::<DateTimeFormatter, _>(DateTimeFormatterError::MissingData),
                    },
                },
                DateTimeFormatterOptions::Components(bag) => {
                    &&& r matches Ok(f) ==> resolves_components(f, *data, bag)
                    &&& r is Err ==> r == Err::<DateTimeFormatter, _>(DateTimeFormatterError::UnsupportedSkeleton)
                        && forall|j: int| !eligible(bag_skeleton(bag), data.skeletons@, data.penalties, j)
                },
            },
    {
        if data.calendar != calendar {
            return Err(DateTimeFormatterError::MissingData);
        }
        match options {
            DateTimeFormatterOptions::Length(b) => match (b.date, b.time) {
                (None, None) => Err(DateTimeFormatterError::MissingData),
                (Some(dl), None) => match data.date_patterns.get(dl) {
                    None => Err(DateTimeFormatterError::MissingData),
                    Some(p) => Ok(DateTimeFormatter::single(calendar, p.copy(), data.format.copy())),
                },
                (None, Some(tl)) => match data.time_patterns.get(tl) {
                    None => Err(DateTimeFormatterError::MissingData),
                    Some(p) => Ok(DateTimeFormatter::single(calendar, prepare_pattern(p, b.hour_cycle), data.format.copy())),
                },
                (Some(dl), Some(tl)) => {
                    let date = DateFormatter::try_new(calendar, data, dl)?;
                    let time = TimeFormatter::try_new(calendar, data, tl, b.hour_cycle)?;
                    DateTimeFormatter::try_from_date_and_time(date, time)
                },
            },
            DateTimeFormatterOptions::Components(bag) => {
                let req = bag.to_skeleton();
                let i = best_match(&req, &data.skeletons, &data.penalties)?;
                let p = prepare_pattern(&data.skeletons[i].pattern, bag.hour_cycle);
                let f = DateTimeFormatter::single(calendar, p, data.format.copy());
                assert(resolves_components(f, *data, *bag)) by {
                    assert(data.skeletons@[i as int] == data.skeletons@[i as int]);
                }
                Ok(f)
            },
        }
    }

    fn single(calendar: Calendar, pattern: Pattern, data: FormatData) -> (r: DateTimeFormatter)
        requires
            data.wf(),
        ensures
            r.wf(),
            r.cal() == calendar,
            r.layout_model() == LayoutModel::Single(pattern@, data@),
    {
        let components = Bag::of_pattern(&pattern);
        DateTimeFormatter { calendar, layout: Layout::Single(pattern, data), components }
    }

    /// Writes the text of `value` into `w`; `MissingSymbol` when a name is
    /// missing and `WriteFailure` when `w` refuses a write.
    pub fn format_to_write<W: TextSink>(&self, w: &mut W, value: &DateTimeInput) -> (r: Result<(), DateTimeFormatterError>)
        requires
            self.wf(),
            value.wf(),
            value.calendar == self.cal(),
        ensures
            sink_outcome(self.text_for(*value), *old(w), *final(w), r),
    {
        match &self.layout {
            Layout::Single(p, data) => write_pattern(p, value, data, w),
            Layout::Combined(df, tf, g) => {
                let date = df.format_to_string(value)?;
                let time = tf.format_to_string(value)?;
                let text = assemble(g.as_str(), date.as_str(), time.as_str());
                match w.write_text(text.as_str()) {
                    Ok(()) => Ok(()),
                    Err(()) => Err(DateTimeFormatterError::WriteFailure),
                }
            },
        }
    }

    /// The text of `value`; `MissingSymbol` when a name is missing.
    pub fn format_to_string(&self, value: &DateTimeInput) -> (r: Result<String, DateTimeFormatterError>)
        requires
            self.wf(),
            value.wf(),
            value.calendar == self.cal(),
        ensures
            self.text_for(*value) matches Some(t) ==> r matches Ok(s) && s@ == t,
            self.text_for(*value) is None ==> r == Err::<String, _>(DateTimeFormatterError::MissingSymbol),
    {
        let mut s = String::new();
        let r = self.format_to_write(&mut s, value);
        text_or_error(r, s)
    }

    /// The text of `value` as a formatted value.
    pub fn format(&self, value: &DateTimeInput) -> (r: Result<FormattedDateTime, DateTimeFormatterError>)
        requires
            self.wf(),
            value.wf(),
            value.calendar == self.cal(),
        ensures
            self.text_for(*value) matches Some(t) ==> r matches Ok(f) && f@ == t,
            self.text_for(*value) is None ==> r == Err::<FormattedDateTime, _>(DateTimeFormatterError::MissingSymbol),
    {
        match self.format_to_string(value) {
            Ok(s) => Ok(FormattedDateTime { text: s }),
            Err(e) => Err(e),
        }
    }

    /// The components that the resolved pattern or patterns show, which may
    /// differ from those requested.
    pub fn resolve_components(&self) -> (r: Bag)
        requires
            self.wf(),
        ensures
            r == layout_components(self.layout_model()),
    {
        self.components
    }
}

/// Resolving a components request is deterministic: two formatters built
/// from the same request and the same data render with the same pattern and
/// report the same components.
pub proof fn lemma_components_resolution_deterministic(
    f1: DateTimeFormatter,
    f2: DateTimeFormatter,
    data: CalendarData,
    bag: Bag,
)
    requires
        resolves_components(f1, data, bag),
        resolves_components(f2, data, bag),
    ensures
        f1.layout_model() == f2.layout_model(),
        layout_components(f1.layout_model()) == layout_components(f2.layout_model()),
{
    let i = choose|i: int|
        #![trigger data.skeletons@[i]]
        is_best_match(bag_skeleton(bag), data.skeletons@, data.penalties, i) && f1.layout_model() == LayoutModel::Single(
            with_preference(data.skeletons@[i].pattern@, bag.hour_cycle),
            data.format@,
        );
    let j = choose|j: int|
        #![trigger data.skeletons@[j]]
        is_best_match(bag_skeleton(bag), data.skeletons@, data.penalties, j) && f2.layout_model() == LayoutModel::Single(
            with_preference(data.skeletons@[j].pattern@, bag.hour_cycle),
            data.format@,
        );
    lemma_best_match_unique(bag_skeleton(bag), data.skeletons@, data.penalties, i, j);
}

} // verus!
