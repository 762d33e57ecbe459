use vstd::prelude::*;

verus! {

/// A monotonic clock reading; opaque.
#[verifier::external_type_specification]
#[verifier::external_body]
pub struct ExInstant(std::time::Instant);

/// Relies on std::time::Instant::now: a reading of the monotonic clock.
/// The value depends on the machine's clock, so nothing is stated of it.
#[verifier::external_body]
pub(crate) fn instant_now() -> std::time::Instant {
    std::time::Instant::now()
}

/// Relies on std::time::Instant::elapsed: the time since the reading was
/// taken. Depends on the clock, so nothing is stated of it.
#[verifier::external_body]
pub(crate) fn instant_elapsed(t: &std::time::Instant) -> std::time::Duration {
    t.elapsed()
}

/// Relies on std::time::Duration::as_secs: the whole seconds of the span.
#[verifier::external_body]
pub(crate) fn duration_secs(d: std::time::Duration) -> u64 {
    d.as_secs()
}

} // verus!
