//! The wall clock, read as a local time stamp.

use crate::decimal::is_digit;
use vstd::prelude::*;

verus! {

/// The pattern of a time stamp: year, month and day, then hour, minute and
/// second of the local time.
pub const STAMP_FORMAT: &'static str = "%Y-%m-%d %H:%M:%S";

/// Whether `year` is a year as a time stamp writes it: four digits, or a
/// sign followed by at least four digits for years outside 0 to 9999.
pub open spec fn is_stamp_year(year: Seq<char>) -> bool {
    if year.len() > 0 && (year[0] == '+' || year[0] == '-') {
        &&& year.len() >= 5
        &&& forall|i: int| 1 <= i < year.len() ==> is_digit(#[trigger] year[i])
    } else {
        &&& year.len() == 4
        &&& forall|i: int| 0 <= i < year.len() ==> is_digit(#[trigger] year[i])
    }
}

/// Whether `tail` reads `-MM-DD HH:MM:SS` with a digit in each lettered place.
pub open spec fn is_stamp_tail(tail: Seq<char>) -> bool {
    &&& tail.len() == 15
    &&& tail[0] == '-'
    &&& is_digit(tail[1])
    &&& is_digit(tail[2])
    &&& tail[3] == '-'
    &&& is_digit(tail[4])
    &&& is_digit(tail[5])
    &&& tail[6] == ' '
    &&& is_digit(tail[7])
    &&& is_digit(tail[8])
    &&& tail[9] == ':'
    &&& is_digit(tail[10])
    &&& is_digit(tail[11])
    &&& tail[12] == ':'
    &&& is_digit(tail[13])
    &&& is_digit(tail[14])
}

/// Whether `stamp` has the shape of a time stamp, `YYYY-MM-DD HH:MM:SS`.
pub open spec fn is_stamp(stamp: Seq<char>) -> bool {
    &&& stamp.len() >= 19
    &&& is_stamp_year(stamp.subrange(0, stamp.len() - 15))
    &&& is_stamp_tail(stamp.subrange(stamp.len() - 15, stamp.len() as int))
}

/// A time stamp holds digits, signs, colons and one space: no line feed.
pub proof fn lemma_stamp_has_no_line_feed(stamp: Seq<char>)
    requires
        is_stamp(stamp),
    ensures
        forall|i: int| 0 <= i < stamp.len() ==> #[trigger] stamp[i] != '\n',
{
    let split = stamp.len() - 15;
    let year = stamp.subrange(0, split);
    let tail = stamp.subrange(split, stamp.len() as int);
    assert forall|i: int| 0 <= i < stamp.len() implies #[trigger] stamp[i] != '\n' by {
        if i < split {
            assert(stamp[i] == year[i]);
        } else {
            assert(stamp[i] == tail[i - split]);
        }
    }
}

/// Reads the clock and writes the local time after `format`.
///
/// Calls `chrono::Local::now`, then `format` and `to_string` on what it
/// returns. Nothing is proved of the call. The contract claims the shape that
/// chrono gives the six fields under [`STAMP_FORMAT`]: a zero-padded year of
/// four digits (signed and longer outside 0 to 9999), and two digits for each
/// of the other fields, between the separators of the pattern. Which instant
/// is written is not stated: two calls may differ. chrono does not return
/// where the system clock stands before the year 1970.
#[verifier::external_body]
pub(crate) fn local_time(format: &str) -> (stamp: String)
    requires
        format@ == STAMP_FORMAT@,
    ensures
        is_stamp(stamp@),
{
    chrono::Local::now().format(format).to_string()
}

/// The local time of the call as a time stamp, `YYYY-MM-DD HH:MM:SS`.
pub fn timestamp() -> (stamp: String)
    ensures
        is_stamp(stamp@),
{
    local_time(STAMP_FORMAT)
}

} // verus!
