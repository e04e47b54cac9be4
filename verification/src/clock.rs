//! The stopwatch that measures one trial.
//!
//! A reading depends on the moment at which it is taken. All that is
//! claimed of one is that it is not negative; whatever uses a reading is
//! verified for every reading.

use vstd::prelude::*;

verus! {

/// A running stopwatch of the `stopwatch` crate.
#[verifier::external_type_specification]
#[verifier::external_body]
pub struct ExStopwatch(stopwatch::Stopwatch);

/// `Stopwatch::start_new` hands out a stopwatch that is running from now on.
pub assume_specification[ stopwatch::Stopwatch::start_new ]() -> (watch: stopwatch::Stopwatch);

/// `Stopwatch::elapsed_ms` reads the whole milliseconds that the stopwatch
/// has run for. It counts them as an unsigned number and hands that number
/// out as an `i64`, so a reading is negative only after 2^63 milliseconds,
/// which is some 292 million years: no stopwatch has run that long.
pub assume_specification[ stopwatch::Stopwatch::elapsed_ms ](
    watch: &stopwatch::Stopwatch,
) -> (elapsed_ms: i64)
    ensures
        elapsed_ms >= 0,
;

} // verus!
