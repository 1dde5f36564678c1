//! The diagnostics record of a profile and how it is read from a JSON
//! document.

use vstd::prelude::*;
use crate::json::{as_count, document_shape, member, shape_of, JsonShape};

verus! {

/// The counters shown in the diagnostics panel.
#[derive(Clone, Copy, PartialEq, Eq, Debug, Structural)]
pub struct UserDiagnostics {
    pub total_study_time: usize,
    pub daily_average: usize,
    pub vocab_size: usize,
    pub chapters_read: usize,
    pub books_read: usize,
    pub videos_watched: usize,
    pub goals_completed: usize,
}

#[verifier::external_type_specification]
#[verifier::external_body]
pub struct ExIoError(std::io::Error);

/// Why a load of diagnostics left the profile as it was.
#[derive(Clone, Copy, PartialEq, Eq, Debug, Structural)]
pub enum LoadError {
    /// The file could not be read.
    Io,
    /// The content is no JSON document, or a required counter is missing
    /// from it or is no non-negative integer.
    Parse,
}

/// The counter that a document holds under `name`: the member of that name of
/// an object, where it is a non-negative integer that fits in `usize`.
pub open spec fn counter(shape: JsonShape, name: Seq<char>) -> Option<usize> {
    match shape {
        JsonShape::Object(members) => if members.contains_key(name) {
            match members[name] {
                JsonShape::Count(n) => if n <= usize::MAX {
                    Some(n as usize)
                } else {
                    None
                },
                _ => None,
            }
        } else {
            None
        },
        _ => None,
    }
}

/// The record made of seven counters, if none of them is missing.
pub open spec fn assembled(
    total_study_time: Option<usize>,
    daily_average: Option<usize>,
    vocab_size: Option<usize>,
    chapters_read: Option<usize>,
    books_read: Option<usize>,
    videos_watched: Option<usize>,
    goals_completed: Option<usize>,
) -> Option<UserDiagnostics> {
    if total_study_time is Some && daily_average is Some && vocab_size is Some
        && chapters_read is Some && books_read is Some && videos_watched is Some
        && goals_completed is Some {
        Some(
            UserDiagnostics {
                total_study_time: total_study_time->0,
                daily_average: daily_average->0,
                vocab_size: vocab_size->0,
                chapters_read: chapters_read->0,
                books_read: books_read->0,
                videos_watched: videos_watched->0,
                goals_completed: goals_completed->0,
            },
        )
    } else {
        None
    }
}

/// The record that a document of the given shape describes: each field is
/// the counter under the field's own name. Members under other names do not
/// matter.
pub open spec fn record_of(shape: JsonShape) -> Option<UserDiagnostics> {
    assembled(
        counter(shape, "total_study_time"@),
        counter(shape, "daily_average"@),
        counter(shape, "vocab_size"@),
        counter(shape, "chapters_read"@),
        counter(shape, "books_read"@),
        counter(shape, "videos_watched"@),
        counter(shape, "goals_completed"@),
    )
}

/// The record that a text describes: it must parse as JSON and hold all
/// seven counters.
pub open spec fn diagnostics_in(text: Seq<char>) -> Option<UserDiagnostics> {
    match document_shape(text) {
        Some(shape) => record_of(shape),
        None => None,
    }
}

impl UserDiagnostics {
    /// The record with every counter at zero.
    pub open spec fn spec_empty() -> UserDiagnostics {
        UserDiagnostics {
            total_study_time: 0,
            daily_average: 0,
            vocab_size: 0,
            chapters_read: 0,
            books_read: 0,
            videos_watched: 0,
            goals_completed: 0,
        }
    }

    /// The record with every counter at zero.
    #[verifier::when_used_as_spec(spec_empty)]
    pub fn empty() -> (record: UserDiagnostics)
        ensures
            record == UserDiagnostics::spec_empty(),
    {
        UserDiagnostics {
            total_study_time: 0,
            daily_average: 0,
            vocab_size: 0,
            chapters_read: 0,
            books_read: 0,
            videos_watched: 0,
            goals_completed: 0,
        }
    }

    /// Builds the record from what was found of each counter. One missing
    /// counter fails the whole: there is no partial record.
    pub fn assemble(
        total_study_time: Option<usize>,
        daily_average: Option<usize>,
        vocab_size: Option<usize>,
        chapters_read: Option<usize>,
        books_read: Option<usize>,
        videos_watched: Option<usize>,
        goals_completed: Option<usize>,
    ) -> (record: Option<UserDiagnostics>)
        ensures
            record == assembled(
                total_study_time,
                daily_average,
                vocab_size,
                chapters_read,
                books_read,
                videos_watched,
                goals_completed,
            ),
    {
        match (
            total_study_time,
            daily_average,
            vocab_size,
            chapters_read,
            books_read,
            videos_watched,
            goals_completed,
        ) {
            (Some(t), Some(d), Some(v), Some(c), Some(b), Some(w), Some(g)) => Some(
                UserDiagnostics {
                    total_study_time: t,
                    daily_average: d,
                    vocab_size: v,
                    chapters_read: c,
                    books_read: b,
                    videos_watched: w,
                    goals_completed: g,
                },
            ),
            _ => None,
        }
    }
}

/// Reads one counter of a parsed document.
pub fn read_counter(document: &serde_json::Value, name: &str) -> (found: Option<usize>)
    ensures
        found == counter(shape_of(*document), name@),
{
    match member(document, name) {
        Some(inner) => match as_count(inner) {
            Some(n) => if n <= usize::MAX as u64 {
                Some(n as usize)
            } else {
                None
            },
            None => None,
        },
        None => None,
    }
}

/// Reads the record out of a parsed document.
pub fn read_diagnostics(document: &serde_json::Value) -> (record: Result<UserDiagnostics, LoadError>)
    ensures
        record == match record_of(shape_of(*document)) {
            Some(found) => Ok::<UserDiagnostics, LoadError>(found),
            None => Err(LoadError::Parse),
        },
{
    let record = UserDiagnostics::assemble(
        read_counter(document, "total_study_time"),
        read_counter(document, "daily_average"),
        read_counter(document, "vocab_size"),
        read_counter(document, "chapters_read"),
        read_counter(document, "books_read"),
        read_counter(document, "videos_watched"),
        read_counter(document, "goals_completed"),
    );
    match record {
        Some(found) => Ok(found),
        None => Err(LoadError::Parse),
    }
}

} // verus!
