use vstd::prelude::*;
use crate::pattern::Pattern;
use crate::render::{Calendar, FormatData};
use crate::skeleton::{PenaltyTable, SkeletonEntry};

verus! {

/// A length style.
#[derive(Clone, Copy, Debug, PartialEq, Eq, Structural)]
pub enum Length {
    Full,
    Long,
    Medium,
    Short,
}

/// One pattern per length style, where the locale has it.
#[derive(Debug)]
pub struct LengthPatterns {
    pub full: Option<Pattern>,
    pub long: Option<Pattern>,
    pub medium: Option<Pattern>,
    pub short: Option<Pattern>,
}

pub open spec fn pattern_for(lp: LengthPatterns, l: Length) -> Option<Pattern> {
    match l {
        Length::Full => lp.full,
        Length::Long => lp.long,
        Length::Medium => lp.medium,
        Length::Short => lp.short,
    }
}

impl LengthPatterns {
    /// The canonical pattern of the length style `l`, if the locale has one.
    pub fn get(&self, l: Length) -> (r: Option<&Pattern>)
        ensures
            r is Some <==> pattern_for(*self, l) is Some,
            r matches Some(p) ==> *p == pattern_for(*self, l)->Some_0,
    {
        match l {
            Length::Full => self.full.as_ref(),
            Length::Long => self.long.as_ref(),
            Length::Medium => self.medium.as_ref(),
            Length::Short => self.short.as_ref(),
        }
    }
}

/// One glue pattern per date length style, where the locale has it: `{1}`
/// stands for the date and `{0}` for the time.
#[derive(Debug)]
pub struct LengthGlue {
    pub full: Option<String>,
    pub long: Option<String>,
    pub medium: Option<String>,
    pub short: Option<String>,
}

pub open spec fn glue_for(g: LengthGlue, l: Length) -> Option<String> {
    match l {
        Length::Full => g.full,
        Length::Long => g.long,
        Length::Medium => g.medium,
        Length::Short => g.short,
    }
}

impl LengthGlue {
    pub fn get(&self, l: Length) -> (r: Option<&String>)
        ensures
            r is Some <==> glue_for(*self, l) is Some,
            r matches Some(p) ==> *p == glue_for(*self, l)->Some_0,
    {
        match l {
            Length::Full => self.full.as_ref(),
            Length::Long => self.long.as_ref(),
            Length::Medium => self.medium.as_ref(),
            Length::Short => self.short.as_ref(),
        }
    }
}

/// Everything a locale supplies for one calendar.
#[derive(Debug)]
pub struct CalendarData {
    /// The calendar the data is for.
    pub calendar: Calendar,
    pub date_patterns: LengthPatterns,
    pub time_patterns: LengthPatterns,
    pub glue: LengthGlue,
    pub skeletons: Vec<SkeletonEntry>,
    pub penalties: PenaltyTable,
    pub format: FormatData,
}

impl CalendarData {
    pub open spec fn wf(&self) -> bool {
        self.format.wf()
    }
}

} // verus!
