//! Locale-driven date and time formatting: pattern resolution by length style
//! or by skeleton matching, field rendering, week numbering and date/time
//! composition, each stated and proved against a mathematical model.

pub mod error;
pub mod fields;
pub mod number;
pub mod week;
pub mod pattern;
pub mod symbols;
pub mod sink;
pub mod render;
pub mod glue;
pub mod skeleton;
pub mod components;
pub mod provider;
pub mod datetime;

pub use components::{Bag, Month, Numeric, Text};
pub use datetime::{
    DateFormatter, DateTimeFormatter, DateTimeFormatterOptions, FormattedDateTime, LengthBag, TimeFormatter,
};
pub use error::DateTimeFormatterError;
pub use fields::{FieldSymbol, HourCycle, TextWidth};
pub use glue::assemble;
pub use number::{write_numeral, NumberingSystem};
pub use pattern::{ItemModel, Pattern, PatternItem};
pub use provider::{CalendarData, Length, LengthGlue, LengthPatterns};
pub use render::{write_pattern, Calendar, DateTimeInput, FormatData};
pub use sink::TextSink;
pub use skeleton::{best_match, PenaltyTable, SkeletonEntry, SkeletonField, MAX_REQUEST_FIELDS};
pub use symbols::{SymbolContext, SymbolSet, SymbolTable};
pub use week::{week_of, RelativeYear, WeekOfYear, WeekRules, Weekday};
