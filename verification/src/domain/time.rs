//! Points in time as the store writes them.

use vstd::prelude::*;

verus! {

/// A point in time in the store's own notation, `YYYY-MM-DD HH:MM:SS`. The
/// library carries the text through and does not look into it.
#[derive(Debug, Clone, PartialEq, Eq)]
pub struct Timestamp {
    pub text: String,
}

impl View for Timestamp {
    type V = Seq<char>;

    open spec fn view(&self) -> Seq<char> {
        self.text@
    }
}

/// The text of a column that may be empty.
pub open spec fn optional_text(column: Option<String>) -> Option<Seq<char>> {
    match column {
        Some(text) => Some(text@),
        None => None,
    }
}

/// The time in a column that may be empty.
pub open spec fn optional_time(column: Option<Timestamp>) -> Option<Seq<char>> {
    match column {
        Some(time) => Some(time@),
        None => None,
    }
}

/// The instant that `chrono` reads out of a text in a given notation, as
/// whole seconds since 1970 in universal time and the nanoseconds past
/// them; `None` for a text that is not in the notation or names no instant.
pub uninterp spec fn parsed_instant(text: Seq<char>, notation: Seq<char>) -> Option<(i64, u32)>;

/// `chrono::NaiveDateTime::parse_from_str`, read as universal time
/// (`and_utc`) and taken apart into seconds (`timestamp`) and nanoseconds
/// (`timestamp_subsec_nanos`). The parse looks at the two texts and at
/// nothing else, so its result has a name; of what the name is, nothing is
/// claimed. Only the store's own notation is admitted.
#[verifier::external_body]
fn parse_instant(text: &str, notation: &str) -> (instant: Option<(i64, u32)>)
    requires
        notation@ == "%Y-%m-%d %H:%M:%S"@,
    ensures
        instant == parsed_instant(text@, notation@),
{
    match chrono::NaiveDateTime::parse_from_str(text, notation) {
        Ok(time) => Some((time.and_utc().timestamp(), time.and_utc().timestamp_subsec_nanos())),
        Err(_) => None,
    }
}

impl Timestamp {
    /// The store's notation of a point in time.
    pub fn notation() -> (notation: &'static str)
        ensures
            notation@ == "%Y-%m-%d %H:%M:%S"@,
    {
        "%Y-%m-%d %H:%M:%S"
    }

    /// The instant the text stands for, in universal time: seconds since
    /// 1970 and nanoseconds past them. `None` for a text that the store
    /// cannot have written.
    pub fn instant(&self) -> (instant: Option<(i64, u32)>)
        ensures
            instant == parsed_instant(self@, "%Y-%m-%d %H:%M:%S"@),
    {
        parse_instant(self.text.as_str(), Timestamp::notation())
    }

    /// The time that a column holds.
    pub fn of_column(text: String) -> (time: Timestamp)
        ensures
            time@ == text@,
    {
        Timestamp { text }
    }

    /// The time that a column holds, if it holds one.
    pub fn of_optional_column(column: Option<String>) -> (time: Option<Timestamp>)
        ensures
            optional_time(time) == optional_text(column),
    {
        match column {
            Some(text) => Some(Timestamp { text }),
            None => None,
        }
    }
}

} // verus!
