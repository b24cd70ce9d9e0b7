use vstd::prelude::*;
use crate::book::Timestamp;

verus! {

/// The version and variant bits that every random (version 4) UUID carries.
pub open spec fn is_v4_id(id: u128) -> bool {
    id & 0xF000C000000000000000u128 == 0x40008000000000000000u128
}

/// Relies on uuid's `Uuid::new_v4` and `Uuid::as_u128`: a random identifier whose
/// version nibble is 4 and whose variant bits are `10`.
#[verifier::external_body]
pub(crate) fn new_book_id() -> (r: u128)
    ensures
        is_v4_id(r),
{
    uuid::Uuid::new_v4().as_u128()
}

/// Relies on chrono's `Local::now`, read back through `DateTime::timestamp`,
/// `DateTime::timestamp_subsec_nanos` and `FixedOffset::local_minus_utc`: the
/// sub-second part stays under two seconds (a leap second may exceed one) and the
/// offset lies strictly within a day.
#[verifier::external_body]
pub(crate) fn now() -> (r: Timestamp)
    ensures
        r.nanos < 2_000_000_000,
        -86_400 < r.offset_secs < 86_400,
{
    let t = chrono::Local::now();
    Timestamp {
        secs: t.timestamp(),
        nanos: t.timestamp_subsec_nanos(),
        offset_secs: t.offset().local_minus_utc(),
    }
}

} // verus!
