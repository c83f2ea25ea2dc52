//! The command timer: when the last command started, how long it took, and
//! the threshold below which the elapsed time is not shown.

use vstd::prelude::*;

use crate::ext;
use crate::strutil;

verus! {

/// What the timer knows of the previous command. One value of this type lives
/// for the whole shell session; the lifecycle hooks update it in place.
pub struct TimingInfo {
    /// The monotonic-clock reading taken when the current command started,
    /// cleared again when it finishes.
    pub last_start: Option<std::time::Instant>,
    /// How long the most recently completed command ran, in milliseconds;
    /// absent when its start was never seen.
    pub last_duration_ms: Option<u128>,
    /// The wall-clock time the most recent command finished, as an RFC 3339
    /// timestamp.
    pub last_end: Option<String>,
}

impl TimingInfo {
    /// A timer that has seen no command yet.
    pub fn new() -> (r: TimingInfo)
        ensures
            r.last_start is None,
            r.last_duration_ms is None,
            r.last_end is None,
    {
        TimingInfo { last_start: None, last_duration_ms: None, last_end: None }
    }
}

/// A command is about to run: record the clock. Everything else is kept.
pub fn pre_exec(t: &mut TimingInfo)
    ensures
        final(t).last_start is Some,
        final(t).last_duration_ms == old(t).last_duration_ms,
        final(t).last_end == old(t).last_end,
{
    let now = ext::instant_now();
    t.last_start = Some(now);
}

/// How one stop of the timer relates the state before it to the state after
/// it: the start mark is consumed, a duration is present exactly when a start
/// was, and the end timestamp is freshly set.
pub open spec fn pre_cmd_rel(pre: TimingInfo, post: TimingInfo) -> bool {
    &&& post.last_start is None
    &&& (post.last_duration_ms is Some <==> pre.last_start is Some)
    &&& post.last_end is Some
}

/// A command just finished: store how long it ran since the matching
/// `pre_exec`, or clear the duration when there was no matching start, and
/// note the wall-clock end time.
pub fn pre_cmd(t: &mut TimingInfo)
    ensures
        pre_cmd_rel(*old(t), *final(t)),
{
    let end = ext::instant_now();
    let end_ts = ext::local_now_rfc3339();
    match &t.last_start {
        Some(start) => {
            let ms = ext::millis_between(start, &end);
            t.last_duration_ms = Some(ms);
        },
        None => {
            t.last_duration_ms = None;
        },
    }
    t.last_start = None;
    t.last_end = Some(end_ts);
}

/// Two stops with no start in between leave no elapsed duration: after the
/// second one, nothing stale is reported.
pub proof fn lemma_pre_cmd_idempotent(t1: TimingInfo, t2: TimingInfo, t3: TimingInfo)
    requires
        pre_cmd_rel(t1, t2),
        pre_cmd_rel(t2, t3),
    ensures
        t3.last_duration_ms is None,
{
}

/// The elapsed time of the previous command, read once per prompt render.
pub struct LastCommandTiming {
    pub elapsed_ms: Option<u128>,
}

impl LastCommandTiming {
    /// Reads the last completed duration without changing the timer.
    pub fn get(t: &TimingInfo) -> (r: LastCommandTiming)
        ensures
            r.elapsed_ms == t.last_duration_ms,
    {
        LastCommandTiming { elapsed_ms: t.last_duration_ms }
    }
}

/// Why a threshold update was refused.
#[derive(Debug)]
pub enum ThresholdError {
    /// Not exactly one argument was given.
    Usage,
    /// The argument is not an unsigned integer that fits the threshold.
    NotUnsigned,
}

impl ThresholdError {
    /// The message the host prints to its error output for this failure.
    pub fn message(&self) -> (r: String)
        ensures
            self is Usage ==> r@ == "Usage:\n\t_rust-prompt-alpha_set-timing-threshold THRESHOLD_MS"@,
            self is NotUnsigned ==> r@ == "Could not convert $1 to unsigned integer"@,
    {
        match self {
            ThresholdError::Usage => "Usage:\n\t_rust-prompt-alpha_set-timing-threshold THRESHOLD_MS".to_owned(),
            ThresholdError::NotUnsigned => "Could not convert $1 to unsigned integer".to_owned(),
        }
    }

    /// The exit code reported for this failure.
    pub fn exit_code(&self) -> (r: i32)
        ensures
            r == 1,
    {
        1
    }
}

/// Overwrites the suppression threshold from the single string argument, in
/// milliseconds. Succeeds exactly when there is one argument and it is an
/// unsigned decimal numeral that fits in the threshold; on failure the
/// threshold keeps its old value.
pub fn set_timing_threshold(threshold_ms: &mut u32, args: &Vec<String>) -> (r: Result<
    (),
    ThresholdError,
>)
    ensures
        args@.len() != 1 ==> r == Err::<(), ThresholdError>(ThresholdError::Usage)
            && *final(threshold_ms) == *old(threshold_ms),
        args@.len() == 1 && !strutil::is_u32_numeral(args@[0]@) ==> r == Err::<(), ThresholdError>(
            ThresholdError::NotUnsigned,
        ) && *final(threshold_ms) == *old(threshold_ms),
        args@.len() == 1 && strutil::is_u32_numeral(args@[0]@) ==> r == Ok::<(), ThresholdError>(())
            && *final(threshold_ms) == strutil::u32_numeral_value(args@[0]@),
{
    if args.len() != 1 {
        return Err(ThresholdError::Usage);
    }
    match strutil::parse_u32(args[0].as_str()) {
        Some(v) => {
            *threshold_ms = v;
            Ok(())
        },
        None => Err(ThresholdError::NotUnsigned),
    }
}

} // verus!
