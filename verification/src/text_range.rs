//! Text ranges of the input method protocol.

use vstd::prelude::*;

verus! {

/// The location that AppKit uses for "no range" and "no index".
pub const NOT_FOUND: u64 = 0x7fff_ffff_ffff_ffff;

/// A range as AppKit passes it.
#[derive(Clone, Copy, Debug, PartialEq, Eq, Structural)]
pub struct NsRange {
    pub location: u64,
    pub length: u64,
}

/// A half-open range of text positions.
#[derive(Clone, Copy, Debug, PartialEq, Eq, Structural)]
pub struct TextRange {
    pub start: u64,
    pub end: u64,
}

/// The range that stands for "no range".
pub open spec fn no_range() -> NsRange {
    NsRange { location: NOT_FOUND, length: 0 }
}

/// The half-open range that `range` means.
pub open spec fn as_text_range(range: NsRange) -> Option<TextRange> {
    if range.location == NOT_FOUND {
        None
    } else {
        Some(TextRange { start: range.location, end: (range.location + range.length) as u64 })
    }
}

/// The range in AppKit's form.
pub open spec fn as_ns_range(range: TextRange) -> NsRange {
    NsRange { location: range.start, length: (range.end - range.start) as u64 }
}

/// How an optional range is told to AppKit.
pub open spec fn told_range(range: Option<TextRange>) -> NsRange {
    match range {
        Some(range) => as_ns_range(range),
        None => no_range(),
    }
}

/// The range of text that is asked for when AppKit asks for a substring.
pub open spec fn requested_substring(range: NsRange) -> Option<TextRange> {
    if range.length == 0 {
        None
    } else {
        as_text_range(range)
    }
}

/// The range that AppKit is told a substring is from.
pub open spec fn told_substring(request: TextRange, adjusted: Option<TextRange>) -> NsRange {
    match adjusted {
        Some(range) => as_ns_range(range),
        None => as_ns_range(request),
    }
}

/// How an optional index is told to AppKit.
pub open spec fn told_index(index: Option<u64>) -> u64 {
    match index {
        Some(index) => index,
        None => NOT_FOUND,
    }
}

/// The range that stands for "no range".
pub fn invalid_ns_range() -> (result: NsRange)
    ensures
        result == no_range(),
{
    NsRange { location: NOT_FOUND, length: 0 }
}

impl NsRange {
    /// The half-open range that this range means; `None` for "no range".
    pub fn to_range_option(self) -> (result: Option<TextRange>)
        requires
            self.location != NOT_FOUND ==> self.location + self.length <= u64::MAX,
        ensures
            result == as_text_range(self),
            result matches Some(range) ==> range.end == self.location + self.length,
    {
        if self.location != NOT_FOUND {
            Some(TextRange { start: self.location, end: self.location + self.length })
        } else {
            None
        }
    }
}

/// AppKit's form of an optional range, as reported for the marked and for the selected text.
pub fn ns_range_or_invalid(range: Option<TextRange>) -> (result: NsRange)
    requires
        range matches Some(range) ==> range.start <= range.end,
    ensures
        result == told_range(range),
        result == match range {
            Some(range) => as_ns_range(range),
            None => no_range(),
        },
{
    match range {
        Some(range) => NsRange { location: range.start, length: range.end - range.start },
        None => invalid_ns_range(),
    }
}

/// The range for which an attributed substring is asked from the input handler: none if the
/// proposed range is no range or empty.
pub fn substring_request(range: NsRange) -> (result: Option<TextRange>)
    requires
        range.location != NOT_FOUND ==> range.location + range.length <= u64::MAX,
    ensures
        result == requested_substring(range),
        result == if range.location == NOT_FOUND || range.length == 0 {
            None
        } else {
            as_text_range(range)
        },
{
    match range.to_range_option() {
        Some(request) => if request.start >= request.end {
            None
        } else {
            Some(request)
        },
        None => None,
    }
}

/// The range that is reported as the actual range of an attributed substring: the adjusted one if
/// the input handler adjusted the request.
pub fn substring_actual_range(request: TextRange, adjusted: Option<TextRange>) -> (result: NsRange)
    requires
        request.start <= request.end,
        adjusted matches Some(range) ==> range.start <= range.end,
    ensures
        result == told_substring(request, adjusted),
        result == as_ns_range(match adjusted {
            Some(range) => range,
            None => request,
        }),
{
    match adjusted {
        Some(range) => ns_range_or_invalid(Some(range)),
        None => ns_range_or_invalid(Some(request)),
    }
}

/// AppKit's form of an optional character index.
pub fn character_index_or_not_found(index: Option<u64>) -> (result: u64)
    ensures
        result == told_index(index),
        result == match index {
            Some(index) => index,
            None => NOT_FOUND,
        },
{
    match index {
        Some(index) => index,
        None => NOT_FOUND,
    }
}

/// A range that AppKit is told is understood as the same range when it comes back, unless it
/// starts at the position that stands for "no range".
pub proof fn ranges_survive_the_round_trip(range: TextRange)
    requires
        range.start <= range.end,
        range.start != NOT_FOUND,
    ensures
        as_text_range(as_ns_range(range)) == Some(range),
{
}

/// "No range" is understood as no range.
pub proof fn invalid_range_is_no_range()
    ensures
        as_text_range(no_range()) is None,
{
}

/// A range starts where AppKit says and is as long as AppKit says; "no range" is the one that
/// starts at the largest signed number.
pub proof fn ranges_start_and_end_as_told(range: NsRange)
    requires
        range.location + range.length <= u64::MAX,
    ensures
        as_text_range(range) is None <==> range.location == 0x7fff_ffff_ffff_ffff,
        as_text_range(range) matches Some(text) ==> text.start == range.location && text.end
            - text.start == range.length,
{
}

/// AppKit is told where a range starts and how long it is, and "no range" if there is none.
pub proof fn ranges_are_told_by_start_and_length(range: TextRange)
    requires
        range.start <= range.end,
    ensures
        told_range(Some(range)).location == range.start,
        told_range(Some(range)).location + told_range(Some(range)).length == range.end,
        told_range(None).location == 0x7fff_ffff_ffff_ffff,
        told_range(None).length == 0,
        told_index(None) == 0x7fff_ffff_ffff_ffff,
        told_index(Some(range.start)) == range.start,
{
}

/// A substring is asked for exactly if there is a range with something in it, and of exactly that
/// range. AppKit is told the range that was taken instead, if one was.
pub proof fn substrings_are_asked_for_if_there_is_something(
    range: NsRange,
    adjusted: TextRange,
)
    requires
        range.location + range.length <= u64::MAX,
        adjusted.start <= adjusted.end,
    ensures
        requested_substring(range) is Some <==> range.location != 0x7fff_ffff_ffff_ffff
            && range.length > 0,
        requested_substring(range) matches Some(request) ==> {
            &&& request.start == range.location
            &&& request.end == range.location + range.length
            &&& told_substring(request, None) == range
            &&& told_substring(request, Some(adjusted)).location == adjusted.start
            &&& told_substring(request, Some(adjusted)).length == adjusted.end - adjusted.start
        },
{
}

} // verus!
