//! The crate's trusted boundary: declarations and thin wrappers around the
//! clock, the process's user id, signal-number lookup and timestamp
//! formatting. Verus believes the contracts here; everything else is proved
//! against them.

use vstd::prelude::*;

verus! {

#[verifier::external_type_specification]
#[verifier::external_body]
pub struct ExInstant(std::time::Instant);

/// Relies on std::time::Instant::now: a reading of the monotonic clock.
/// Nothing can be promised of the value itself.
#[verifier::external_body]
pub(crate) fn instant_now() -> (r: std::time::Instant) {
    std::time::Instant::now()
}

/// Relies on std::time::Instant::saturating_duration_since and
/// std::time::Duration::as_millis: the span from `start` to `end` in whole
/// milliseconds, zero when `start` is the later reading. Never panics.
#[verifier::external_body]
pub(crate) fn millis_between(start: &std::time::Instant, end: &std::time::Instant) -> (r: u128) {
    end.saturating_duration_since(*start).as_millis()
}

/// Relies on chrono's From<std::time::SystemTime> for DateTime<Local>, which
/// handles a clock reading before the Unix epoch without panicking, and on
/// chrono::DateTime::to_rfc3339_opts: the wall-clock time of the call,
/// written as an RFC 3339 timestamp with whole-second precision. The value
/// depends on the clock and the machine's time zone, so nothing is promised
/// of it.
#[verifier::external_body]
pub(crate) fn local_now_rfc3339() -> (r: String) {
    let now = chrono::DateTime::<chrono::Local>::from(std::time::SystemTime::now());
    now.to_rfc3339_opts(chrono::format::SecondsFormat::Secs, true)
}

/// Relies on nix::unistd::getuid and nix::unistd::Uid::is_root: whether the
/// process's real user id is 0. The value depends on the process, so nothing
/// is promised of it.
#[verifier::external_body]
pub(crate) fn uid_is_root() -> (r: bool) {
    nix::unistd::getuid().is_root()
}

/// Whether `n` is one of the platform's signal numbers, as
/// nix::sys::signal::Signal::try_from accepts it.
pub uninterp spec fn is_signal_code(n: int) -> bool;

/// The name of the platform's signal with number `n`, as
/// nix::sys::signal::Signal::as_str writes it.
pub uninterp spec fn signal_name(n: int) -> Seq<char>;

/// Relies on nix::sys::signal::Signal::try_from, which succeeds exactly on
/// the platform's signal numbers, and on nix::sys::signal::Signal::as_str,
/// which gives the signal's name; both are fixed for a given build target.
#[verifier::external_body]
pub(crate) fn lookup_signal_name(n: i32) -> (r: Option<String>)
    ensures
        r is Some <==> is_signal_code(n as int),
        r matches Some(name) ==> name@ == signal_name(n as int),
{
    match nix::sys::signal::Signal::try_from(n) {
        Ok(sig) => Some(sig.as_str().to_owned()),
        Err(_) => None,
    }
}

} // verus!
