//! The records that storage takes and hands back.

use crate::d2::models::{CharacterData, CharacterDataHeaderView};
use vstd::prelude::*;

verus! {

/// A point in time without a time zone: whole seconds since the start of
/// 1970 and the nanoseconds within the second.
#[derive(Clone, Copy, Debug, PartialEq, Eq, Structural)]
pub struct Timestamp {
    pub secs: i64,
    pub nanos: u32,
}

/// A character that storage does not hold yet.
#[derive(Debug, PartialEq, Eq)]
pub struct NewCharacter {
    pub name: String,
    pub level: i32,
    pub class: String,
    pub is_expansion: bool,
    pub has_died: bool,
    pub is_hardcore: bool,
    pub is_ladder: bool,
    pub saved_at: Timestamp,
}

/// A character as storage holds it: the record it was made of, the identity
/// and the two times that storage gave it.
#[derive(Debug, PartialEq, Eq)]
pub struct Character {
    pub id: i32,
    pub name: String,
    pub level: i32,
    pub class: String,
    pub is_expansion: bool,
    pub has_died: bool,
    pub is_hardcore: bool,
    pub is_ladder: bool,
    pub saved_at: Timestamp,
    pub created_at: Timestamp,
    pub updated_at: Timestamp,
}

/// The start of 1970, which stands in where a time cannot be made.
pub open spec fn epoch() -> Timestamp {
    Timestamp { secs: 0, nanos: 0 }
}

/// The point in time that lies `millis` milliseconds after the start of 1970,
/// or before it where `millis` is negative.
pub open spec fn timestamp_of_millis(millis: int) -> Timestamp {
    Timestamp { secs: (millis / 1000) as i64, nanos: ((millis % 1000) * 1_000_000) as u32 }
}

/// The point in time that lies `secs` whole seconds after the start of 1970.
pub open spec fn timestamp_of_seconds(secs: int) -> Timestamp {
    Timestamp { secs: secs as i64, nanos: 0 }
}

/// The record that a character's header gives: name, level, class and flags
/// are those of the header, and `saved_at` is the time last played, which
/// the header gives in seconds since the start of 1970.
pub open spec fn is_record_of(record: NewCharacter, header: CharacterDataHeaderView) -> bool {
    &&& record.name@ == header.name
    &&& record.level == header.level
    &&& record.class@ == header.class
    &&& record.is_expansion == header.status.expansion
    &&& record.has_died == header.status.died
    &&& record.is_hardcore == header.status.hardcore
    &&& record.is_ladder == header.status.ladder
    &&& record.saved_at == timestamp_of_seconds(header.last_played as int)
}

/// The largest number of milliseconds that a time last played comes to.
pub const LAST_PLAYED_MILLIS_MAX: i64 = 4_294_967_295_000;

/// `chrono::NaiveDateTime::from_timestamp_millis`, with the time that it
/// makes taken apart by `timestamp` and `timestamp_subsec_nanos`: the
/// seconds are `millis / 1000`, rounded down, and the rest of the
/// milliseconds are the nanoseconds. A time is made of every number of
/// milliseconds from 0 up to `LAST_PLAYED_MILLIS_MAX`, which lies in the
/// year 2106; of other numbers it is not said here whether one is made.
#[allow(deprecated)]
#[verifier::external_body]
fn datetime_from_timestamp_millis(millis: i64) -> (r: Option<Timestamp>)
    ensures
        0 <= millis <= LAST_PLAYED_MILLIS_MAX ==> r is Some,
        r matches Some(time) ==> time == timestamp_of_millis(millis as int),
{
    match chrono::NaiveDateTime::from_timestamp_millis(millis) {
        Some(time) => Some(
            Timestamp {
                secs: time.and_utc().timestamp(),
                nanos: time.and_utc().timestamp_subsec_nanos(),
            },
        ),
        None => None,
    }
}

/// The time that was made, or the start of 1970 where none was.
pub fn saved_at_or_epoch(made: Option<Timestamp>) -> (r: Timestamp)
    ensures
        r == match made {
            Some(time) => time,
            None => epoch(),
        },
{
    match made {
        Some(time) => time,
        None => Timestamp { secs: 0, nanos: 0 },
    }
}

impl NewCharacter {
    /// The record to store for a character. The time last played is in
    /// seconds; the time saved is made of it in milliseconds.
    pub fn from_character_data(character_data: CharacterData) -> (r: NewCharacter)
        ensures
            is_record_of(r, character_data.header.deep_view()),
    {
        let header = character_data.header;
        let status = header.status;
        let millis: i64 = header.last_played as i64 * 1000;
        let saved_at = saved_at_or_epoch(datetime_from_timestamp_millis(millis));
        NewCharacter {
            name: header.name,
            level: header.level as i32,
            class: header.class,
            is_expansion: status.expansion,
            has_died: status.died,
            is_hardcore: status.hardcore,
            is_ladder: status.ladder,
            saved_at,
        }
    }
}

} // verus!
