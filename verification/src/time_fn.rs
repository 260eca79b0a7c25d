//! The unit in which a timed function reports how long it ran.

use crate::text::same_text;
use vstd::prelude::*;

verus! {

/// The unit of a reported duration.
#[derive(Debug, Clone, Copy, PartialEq, Eq, Structural)]
pub enum TimeFormat {
    Seconds,
    Milliseconds,
    Nanoseconds,
}

/// The unit that an argument asks for: `ms` or `milliseconds`, `ns` or
/// `nanoseconds`, and seconds for anything else.
pub open spec fn format_for(argument: Seq<char>) -> TimeFormat {
    if argument == "ms"@ || argument == "milliseconds"@ {
        TimeFormat::Milliseconds
    } else if argument == "ns"@ || argument == "nanoseconds"@ {
        TimeFormat::Nanoseconds
    } else {
        TimeFormat::Seconds
    }
}

/// Reads the unit from the argument of the `time` attribute.
pub fn time_format(argument: &str) -> (format: TimeFormat)
    ensures
        format == format_for(argument@),
{
    if same_text(argument, "ms") || same_text(argument, "milliseconds") {
        TimeFormat::Milliseconds
    } else if same_text(argument, "ns") || same_text(argument, "nanoseconds") {
        TimeFormat::Nanoseconds
    } else {
        TimeFormat::Seconds
    }
}

} // verus!
