//! The wall clock and the timestamps of rule comments, read through chrono.
use vstd::prelude::*;

verus! {

/// `chrono::ParseError`, which says why chrono could not read a text.
/// Nothing of it is looked into.
#[verifier::external_type_specification]
#[verifier::external_body]
pub struct ExParseError(chrono::ParseError);

/// The local time at one instant, as the scheduler reads it.
#[derive(Clone, Debug)]
pub struct Moment {
    /// Seconds since the Unix epoch.
    pub seconds: i64,
    /// The local date and time of day, as `YYYY-MM-DD HH:MM:SS`.
    pub stamp: String,
    /// The local offset from UTC, as `+HHMM`.
    pub offset: String,
}

/// The local time at one instant, with its texts as sequences of characters.
pub struct MomentView {
    pub seconds: i64,
    pub stamp: Seq<char>,
    pub offset: Seq<char>,
}

impl View for Moment {
    type V = MomentView;

    open spec fn view(&self) -> MomentView {
        MomentView { seconds: self.seconds, stamp: self.stamp@, offset: self.offset@ }
    }
}

/// The seconds since the Unix epoch that chrono reads out of `text` under
/// `format`, where it can read the text at all.
pub uninterp spec fn parsed_seconds(text: Seq<char>, format: Seq<char>) -> Option<i64>;

/// The format under which a stamp with its offset is read back.
pub open spec fn stamp_with_offset_format() -> Seq<char> {
    "%Y-%m-%d %H:%M:%S %z"@
}

/// The instant that a stamp names in the zone of `offset`.
pub open spec fn instant_of(stamp: Seq<char>, offset: Seq<char>) -> Option<i64> {
    parsed_seconds(stamp + " "@ + offset, stamp_with_offset_format())
}

/// Calls `chrono::Local::now` and takes the instant apart with
/// `DateTime::timestamp` and `DateTime::format`. The two formats are fixed,
/// because `format` on a format that chrono cannot read makes `to_string`
/// panic. The result depends on the clock and the machine's time zone, so
/// nothing is claimed of it.
#[verifier::external_body]
fn local_now(stamp_format: &str, offset_format: &str) -> (now: Moment)
    requires
        stamp_format@ == "%Y-%m-%d %H:%M:%S"@,
        offset_format@ == "%z"@,
{
    let now = chrono::Local::now();
    Moment {
        seconds: now.timestamp(),
        stamp: now.format(stamp_format).to_string(),
        offset: now.format(offset_format).to_string(),
    }
}

/// Calls `chrono::DateTime::parse_from_str` and, where it reads the text,
/// `DateTime::timestamp`. The text must carry its own offset, so the result
/// depends on the two arguments alone; `parsed_seconds` names it.
#[verifier::external_body]
fn parse_from_str(text: &str, format: &str) -> (r: Result<i64, chrono::ParseError>)
    ensures
        r is Ok <==> parsed_seconds(text@, format@) is Some,
        r is Ok ==> parsed_seconds(text@, format@) == Some(r->Ok_0),
{
    match chrono::DateTime::parse_from_str(text, format) {
        Ok(at) => Ok(at.timestamp()),
        Err(e) => Err(e),
    }
}

impl Moment {
    /// The local time now.
    pub fn now() -> Moment {
        local_now("%Y-%m-%d %H:%M:%S", "%z")
    }

    /// The instant that `stamp` names in the zone of `offset`, in seconds
    /// since the Unix epoch; `None` where the two do not read as a date, a
    /// time of day and an offset.
    pub fn instant(stamp: &str, offset: &str) -> (r: Option<i64>)
        ensures
            r == instant_of(stamp@, offset@),
    {
        let mut text = String::from_str(stamp);
        text.append(" ");
        text.append(offset);
        match parse_from_str(text.as_str(), "%Y-%m-%d %H:%M:%S %z") {
            Ok(seconds) => Some(seconds),
            Err(_) => None,
        }
    }
}

} // verus!
