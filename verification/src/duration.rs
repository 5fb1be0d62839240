//! Human-readable duration text, parsed lazily each tick so that edits to
//! the schedule fields take effect without an explicit apply step.

use vstd::prelude::*;
use vstd::string::StrSliceExecFns;

verus! {

/// The longest duration text the library hands to the parser; longer text
/// counts as failing to parse for that tick. The bound keeps the parser
/// away from its one panic, which needs a text worth 2^64 - 1 whole
/// seconds: a span's value is below `10^(span length - 1)` years' worth of
/// seconds (its unit takes a character, and a year — the largest unit — is
/// 31,557,600 seconds), so spans totalling 12 characters express fewer
/// than `31_557_600 * 10^11 < 2^64 - 1` seconds. Twelve characters still
/// cover every duration the schedule can use: the wire carries 32-bit
/// milliseconds, under 50 days.
pub const MAX_DURATION_TEXT_CHARS: usize = 12;

/// The millisecond reading of a duration text, `None` where the text is
/// not a valid duration. A function of the characters alone.
pub uninterp spec fn parsed_duration_ms(s: Seq<char>) -> Option<u128>;

/// The tick's reading of a duration text: the parsed milliseconds, with
/// text beyond [`MAX_DURATION_TEXT_CHARS`] treated as unparseable.
pub open spec fn duration_text_ms(s: Seq<char>) -> Option<u128> {
    if s.len() <= MAX_DURATION_TEXT_CHARS {
        parsed_duration_ms(s)
    } else {
        None
    }
}

/// Relies on humantime::parse_duration: a pure parser from duration text
/// (`"6h30m"`, `"250ms"`) to a time span, deterministic in the characters
/// alone; reported here at millisecond granularity. Its only panic is the
/// final nanosecond carry overflowing a 2^64 - 1 second total, which the
/// length bound keeps out of reach (see [`MAX_DURATION_TEXT_CHARS`]);
/// every other step fails with an error value instead.
#[verifier::external_body]
fn parse_duration_ms(s: &str) -> (r: Option<u128>)
    requires
        s@.len() <= MAX_DURATION_TEXT_CHARS,
    ensures
        r == parsed_duration_ms(s@),
{
    match humantime::parse_duration(s) {
        Ok(d) => Some(d.as_millis()),
        Err(_) => None,
    }
}

/// Read a schedule duration text: its parsed milliseconds, or `None` for
/// invalid or over-long text.
pub(crate) fn read_duration_ms(s: &str) -> (r: Option<u128>)
    ensures
        r == duration_text_ms(s@),
{
    if s.unicode_len() <= MAX_DURATION_TEXT_CHARS {
        parse_duration_ms(s)
    } else {
        None
    }
}

} // verus!
