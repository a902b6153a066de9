//! The wall clock, as far as the engine needs it: time stamps are taken and
//! carried along, never computed with.

use vstd::prelude::*;

verus! {

/// `std::time::SystemTime`, an instant of the wall clock. Nothing inside it
/// is read: such a value is only carried from where it was taken to where it
/// is handed out.
#[verifier::external_type_specification]
#[verifier::external_body]
pub struct ExSystemTime(std::time::SystemTime);

/// `SystemTime` is `Copy`: `SystemTime::clone` hands back the same instant.
pub assume_specification[ <std::time::SystemTime as Clone>::clone ](
    t: &std::time::SystemTime,
) -> (r: std::time::SystemTime)
    ensures
        r == *t,
;

/// Reads the wall clock with `SystemTime::now`. Nothing is claimed of the
/// instant that comes back.
#[verifier::external_body]
pub(crate) fn wall_clock_now() -> std::time::SystemTime {
    std::time::SystemTime::now()
}

} // verus!
