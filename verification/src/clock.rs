use vstd::prelude::*;

verus! {

#[verifier::external_type_specification]
#[verifier::external_body]
pub struct ExSystemTime(std::time::SystemTime);

/// Relies on std::time::SystemTime::now. The reading depends on the machine's
/// clock, so nothing is promised of it.
#[verifier::external_body]
fn system_now() -> std::time::SystemTime {
    std::time::SystemTime::now()
}

/// Relies on std::time::SystemTime::duration_since: the span from the UNIX
/// epoch to `t`, or zero if the clock sits before the epoch. Nothing is
/// promised of the opaque span.
#[verifier::external_body]
fn since_unix_epoch(t: std::time::SystemTime) -> std::time::Duration {
    match t.duration_since(std::time::UNIX_EPOCH) {
        Ok(d) => d,
        Err(_) => std::time::Duration::ZERO,
    }
}

/// Relies on std::time::Duration::as_micros, truncated to 64 bits. Nothing is
/// promised of the value: callers state what holds for every reading.
#[verifier::external_body]
fn duration_as_micros(d: &std::time::Duration) -> u64 {
    d.as_micros() as u64
}

/// One clock reading: the current time in microseconds. The dispatcher's
/// contracts quantify over every possible reading, so no property of the
/// clock itself is assumed.
pub(crate) fn now_micros() -> u64 {
    let t = system_now();
    let d = since_unix_epoch(t);
    duration_as_micros(&d)
}

} // verus!
