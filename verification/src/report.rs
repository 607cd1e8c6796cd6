//! Decisions behind the console messages: units, colours and wording.
use vstd::prelude::*;
use crate::text::{decimal_text, radix_digits};

verus! {

/// How a duration is shown: in milliseconds, in seconds, or in seconds
/// marked as slow.
#[derive(PartialEq, Eq, Structural, Clone, Copy, Debug)]
pub enum DurationStyle {
    Millis,
    Seconds,
    SlowSeconds,
}

/// Under a second in milliseconds; under five seconds in seconds; above, in
/// seconds marked as slow.
pub open spec fn style_of_millis(millis: u128) -> DurationStyle {
    if millis < 1000 {
        DurationStyle::Millis
    } else if millis < 5000 {
        DurationStyle::Seconds
    } else {
        DurationStyle::SlowSeconds
    }
}

/// How a duration of `millis` whole milliseconds is shown.
pub fn duration_style(millis: u128) -> (r: DurationStyle)
    ensures
        r == style_of_millis(millis),
{
    if millis < 1000 {
        DurationStyle::Millis
    } else if millis < 5000 {
        DurationStyle::Seconds
    } else {
        DurationStyle::SlowSeconds
    }
}

/// A duration in whole milliseconds, as `{}ms`.
pub fn millis_label(millis: u128) -> (r: String)
    ensures
        r@ == radix_digits(millis as nat, 10) + "ms"@,
{
    let mut s = decimal_text(millis);
    s.append("ms");
    s
}

/// The noun after a file count.
pub fn files_word(count: usize) -> (r: &'static str)
    ensures
        r@ == (if count == 1 {
            "file"@
        } else {
            "files"@
        }),
{
    if count == 1 {
        "file"
    } else {
        "files"
    }
}

} // verus!
