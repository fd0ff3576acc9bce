use vstd::prelude::*;
use crate::rfc3339_utc_shape;

verus! {

/// Relies on chrono's `Utc::now` and `DateTime::<Utc>::to_rfc3339`: one read
/// of the wall clock, written as an RFC 3339 string. For a UTC datetime the
/// writer emits at least the 19-character date-time (the year is padded to
/// four digits) and always the six-character `+00:00` offset at the end, so
/// every outcome has the shape below; nothing more is promised of a clock
/// reading.
#[verifier::external_body]
pub(crate) fn now_rfc3339() -> (r: String)
    ensures
        rfc3339_utc_shape(r@),
{
    chrono::Utc::now().to_rfc3339()
}

} // verus!
