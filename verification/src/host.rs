//! What the crate asks of the machine it runs on: an identifier and the time.

use vstd::prelude::*;

verus! {

#[verifier::external_type_specification]
#[verifier::external_body]
pub struct ExUuid(uuid::Uuid);

/// A digit of a lower-case hexadecimal number.
pub open spec fn is_lower_hex(c: char) -> bool {
    ('0' <= c && c <= '9') || ('a' <= c && c <= 'f')
}

/// The shape of an identifier: 32 lower-case hexadecimal digits in groups of
/// 8, 4, 4, 4 and 12, with a hyphen between the groups.
pub open spec fn is_identifier(s: Seq<char>) -> bool {
    &&& s.len() == 36
    &&& forall|i: int|
        0 <= i < 36 ==> if i == 8 || i == 13 || i == 18 || i == 23 {
            s[i] == '-'
        } else {
            is_lower_hex(#[trigger] s[i])
        }
}

/// `Uuid::new_v4` of the uuid crate: an identifier drawn at random.
#[verifier::external_body]
pub(crate) fn random_uuid() -> uuid::Uuid {
    uuid::Uuid::new_v4()
}

/// The `Display` of a `Uuid`: its hyphenated form in lower case.
#[verifier::external_body]
pub(crate) fn uuid_text(id: &uuid::Uuid) -> (text: String)
    ensures
        is_identifier(text@),
{
    id.to_string()
}

/// `SystemTime::now` of the standard library, made a `DateTime<Utc>` by
/// chrono's `From<SystemTime>` and counted by `DateTime::timestamp_millis`:
/// the milliseconds since the start of 1970, below zero on a machine whose
/// clock stands before 1970.
#[verifier::external_body]
pub(crate) fn clock_millis() -> i64 {
    chrono::DateTime::<chrono::Utc>::from(std::time::SystemTime::now()).timestamp_millis()
}

} // verus!
