//! Text: formatting under a calendar pattern, and parsing.

use vstd::prelude::*;
use crate::datetime::{viewed, DateTime};
use crate::host::{
    format_instant, formatted_text, parse_rfc2822, parse_rfc3339, replace_text, replaced,
    rfc2822_instant, rfc3339_instant, trim_text, trimmed,
};
use crate::model::parsed;
use crate::types::{DateTimeError, DateTimeKind};

verus! {

/// The `strftime` pattern for a calendar pattern: each token of the table
/// replaced by its directive, one token after the other in the order of
/// the table; everything else stays as it is.
///
/// | token    | directive |
/// |----------|-----------|
/// | `yyyy`   | `%Y`      |
/// | `MM`     | `%m`      |
/// | `dd`     | `%d`      |
/// | `hh`     | `%H`      |
/// | `mm`     | `%M`      |
/// | `ss`     | `%S`      |
/// | `ffffff` | `%6f`     |
/// | `fff`    | `%3f`     |
pub open spec fn strftime_pattern(pattern: Seq<char>) -> Seq<char> {
    let year = replaced(pattern, "yyyy"@, "%Y"@);
    let month = replaced(year, "MM"@, "%m"@);
    let day = replaced(month, "dd"@, "%d"@);
    let hour = replaced(day, "hh"@, "%H"@);
    let minute = replaced(hour, "mm"@, "%M"@);
    let second = replaced(minute, "ss"@, "%S"@);
    let micro = replaced(second, "ffffff"@, "%6f"@);
    replaced(micro, "fff"@, "%3f"@)
}

/// The `strftime` pattern for a calendar pattern.
pub fn format_pattern(format: &str) -> (r: String)
    ensures
        r@ == strftime_pattern(format@),
{
    proof {
        reveal_strlit("yyyy");
        reveal_strlit("MM");
        reveal_strlit("dd");
        reveal_strlit("hh");
        reveal_strlit("mm");
        reveal_strlit("ss");
        reveal_strlit("ffffff");
        reveal_strlit("fff");
    }
    let year = replace_text(format, "yyyy", "%Y");
    let month = replace_text(year.as_str(), "MM", "%m");
    let day = replace_text(month.as_str(), "dd", "%d");
    let hour = replace_text(day.as_str(), "hh", "%H");
    let minute = replace_text(hour.as_str(), "mm", "%M");
    let second = replace_text(minute.as_str(), "ss", "%S");
    let micro = replace_text(second.as_str(), "ffffff", "%6f");
    replace_text(micro.as_str(), "fff", "%3f")
}

impl DateTime {
    /// The naive instant written under a calendar pattern. Fails with
    /// `InvalidFormat` where the formatter rejects the pattern so made.
    pub fn toString(&self, format: &str) -> (r: Result<String, DateTimeError>)
        ensures
            match r {
                Ok(text) => formatted_text(
                    self@.parts().0,
                    self@.parts().1,
                    self@.parts().2,
                    strftime_pattern(format@),
                ) == Some(text@),
                Err(e) => e == DateTimeError::InvalidFormat && formatted_text(
                    self@.parts().0,
                    self@.parts().1,
                    self@.parts().2,
                    strftime_pattern(format@),
                ) is None,
            },
    {
        let pattern = format_pattern(format);
        match format_instant(self.instant(), pattern.as_str()) {
            Some(text) => Ok(text),
            None => Err(DateTimeError::InvalidFormat),
        }
    }

    /// The value of kind `Unspecified` that a text names. The text is
    /// trimmed and read as an internet date and time; failing that, as
    /// an email date and time. The instant read is taken in UTC. Fails
    /// with `InvalidFormat` where neither layout reads the text, and with
    /// `TicksOutOfRange` where the instant lies outside year 1 to year 9999.
    pub fn parse(s: &str) -> (r: Result<DateTime, DateTimeError>)
        ensures
            viewed(r) == parsed(rfc3339_instant(trimmed(s@)), rfc2822_instant(trimmed(s@))),
    {
        let text = trim_text(s);
        match parse_rfc3339(text) {
            Ok(at) => DateTime::new(at, DateTimeKind::Unspecified),
            Err(_) => match parse_rfc2822(text) {
                Ok(at) => DateTime::new(at, DateTimeKind::Unspecified),
                Err(_) => Err(DateTimeError::InvalidFormat),
            },
        }
    }

    /// The value that a text names, or `None` where `parse` fails.
    pub fn tryParse(s: &str) -> (r: Option<DateTime>)
        ensures
            match r {
                Some(v) => parsed(rfc3339_instant(trimmed(s@)), rfc2822_instant(trimmed(s@)))
                    == Ok::<_, DateTimeError>(v@),
                None => parsed(rfc3339_instant(trimmed(s@)), rfc2822_instant(trimmed(s@))) is Err,
            },
    {
        match Self::parse(s) {
            Ok(v) => Some(v),
            Err(_) => None,
        }
    }
}

} // verus!
