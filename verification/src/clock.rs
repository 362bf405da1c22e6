//! The wall clock, as far as the history log needs it.

use vstd::prelude::*;

verus! {

/// Reads the current time with `chrono::Utc::now` and hands it out as
/// milliseconds since the Unix epoch, through `DateTime::timestamp_millis`.
///
/// Trusted, and nothing is claimed of the value: it is whatever the
/// machine's clock says.
#[verifier::external_body]
pub(crate) fn now_millis() -> (millis: i64) {
    chrono::Utc::now().timestamp_millis()
}

} // verus!
