//! The head of the dashboard: the name of the tool and the day.

use vstd::prelude::*;

verus! {

/// The day of an instant as `chrono` writes it with the pattern
/// `%a %b %e %Y` in UTC, for example `Thu Jan  1 1970` for instant 0. The
/// instant is given in seconds since the start of 1970; `None` for an
/// instant outside the years that `chrono` covers.
pub uninterp spec fn day_line(unix_seconds: i64) -> Option<Seq<char>>;

/// Calls `chrono::DateTime::from_timestamp` and formats what it gives with
/// `chrono::DateTime::format`. The result depends on the instant alone: the
/// clock is not read here, and UTC has no zone rules to look up.
#[verifier::external_body]
fn format_day(unix_seconds: i64) -> (line: Option<String>)
    ensures
        match line {
            Some(text) => day_line(unix_seconds) == Some(text@),
            None => day_line(unix_seconds) is None,
        },
{
    chrono::DateTime::from_timestamp(unix_seconds, 0).map(|instant| format!("{}", instant.format("%a %b %e %Y")))
}

/// What the head of the dashboard shows.
#[derive(Clone, PartialEq, Eq, Debug)]
pub struct Header {
    pub title: String,
    pub day: String,
}

/// The head of the dashboard at an instant: the name of the tool, and the
/// day where the instant has one. An instant without a day leaves the place
/// of the day empty.
pub fn header(unix_seconds: i64) -> (head: Header)
    ensures
        head.title@ == "Nazad"@,
        head.day@ == match day_line(unix_seconds) {
            Some(line) => line,
            None => Seq::empty(),
        },
{
    let day = match format_day(unix_seconds) {
        Some(line) => line,
        None => String::new(),
    };
    Header { title: "Nazad".to_owned(), day }
}

} // verus!
