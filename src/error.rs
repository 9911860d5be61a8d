use vstd::prelude::*;

verus! {

/// Why a formatter could not be built or a value could not be rendered.
#[derive(Clone, Copy, Debug, PartialEq, Eq, Structural)]
pub enum DateTimeFormatterError {
    /// The locale data lacks a pattern or glue pattern that was asked for, or
    /// was made for another calendar.
    MissingData,
    /// No skeleton of the locale data comes close enough to the requested components.
    UnsupportedSkeleton,
    /// A pattern needs a name that the symbol tables lack.
    MissingSymbol,
    /// The output sink refused a write.
    WriteFailure,
}

} // verus!
