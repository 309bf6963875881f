//! The integer side of a clock that interpolates PTP time between readings:
//! combining the last PTP reading with the locally measured (already
//! frequency-adjusted) time since then, and keeping the result strictly
//! increasing.

use vstd::prelude::*;

use crate::ptp_phc::error::Error;
use crate::ptp_phc::time::PtpTime;

verus! {

/// Error type for clock operations.
#[derive(Debug)]
pub enum ClockError {
    /// Error accessing the PTP clock.
    PtpClock(Error),
    /// Computed elapsed time is negative (the PTP clock moved backward past the
    /// point where it was first read), in nanoseconds.
    NegativeElapsed(i128),
    /// Elapsed time exceeds the largest duration (`u64::MAX` seconds and
    /// 999_999_999 nanoseconds).
    DurationOverflow,
    /// The previous result was already the largest duration, so no strictly
    /// greater one exists.
    MonotonicityLimit,
}

/// The largest duration, in nanoseconds: `u64::MAX` seconds and 999_999_999
/// nanoseconds.
pub const DURATION_MAX_NANOS: u128 = 18_446_744_073_709_551_615_999_999_999;

/// Whether an integer fits an `i128`.
pub open spec fn fits_i128(x: int) -> bool {
    i128::MIN <= x <= i128::MAX
}

/// A signed nanosecond count as a duration: negative counts and counts past
/// the largest duration are errors.
pub open spec fn duration_of_nanos(nanos: int) -> Result<u128, ClockError> {
    if nanos < 0 {
        Err(ClockError::NegativeElapsed(nanos as i128))
    } else if nanos > DURATION_MAX_NANOS {
        Err(ClockError::DurationOverflow)
    } else {
        Ok(nanos as u128)
    }
}

/// The elapsed duration returned after `last_returned`, when the PTP time that
/// passed since the first reading is `base`, the adjusted local time since the
/// last reading is `adjusted`, and the phase correction is `phase`.
///
/// Sums that leave the `i128` range are overflows; a candidate that is not past
/// `last_returned` is replaced by `last_returned` plus one nanosecond.
pub open spec fn next_elapsed(base: int, adjusted: int, phase: int, last_returned: u128) -> Result<
    u128,
    ClockError,
> {
    if !fits_i128(base + adjusted) || !fits_i128(base + adjusted + phase) {
        Err(ClockError::DurationOverflow)
    } else {
        match duration_of_nanos(base + adjusted + phase) {
            Err(e) => Err(e),
            Ok(d) => if d > last_returned {
                Ok(d)
            } else if last_returned >= DURATION_MAX_NANOS {
                Err(ClockError::MonotonicityLimit)
            } else {
                Ok((last_returned + 1) as u128)
            },
        }
    }
}

/// Converts a signed nanosecond count to a duration, held as its total
/// nanoseconds.
///
/// Fails with [`ClockError::NegativeElapsed`] on a negative count and with
/// [`ClockError::DurationOverflow`] when the whole seconds exceed `u64::MAX`.
pub fn i128_nanos_to_duration(nanos: i128) -> (r: Result<u128, ClockError>)
    ensures
        r == duration_of_nanos(nanos as int),
{
    if nanos < 0 {
        return Err(ClockError::NegativeElapsed(nanos));
    }
    let secs = nanos / 1_000_000_000;
    let nsecs = (nanos % 1_000_000_000) as u32;
    if secs > u64::MAX as i128 {
        return Err(ClockError::DurationOverflow);
    }
    let secs = secs as u64;
    proof {
        assert(nanos == secs * 1_000_000_000 + nsecs);
    }
    Ok((secs as u128) * 1_000_000_000 + (nsecs as u128))
}

/// The PTP reference points and last result of an interpolating clock.
///
/// Elapsed time is the PTP time between the first reading and the last one,
/// plus the adjusted local time since the last reading, plus a phase
/// correction; every result is strictly greater than the one before.
#[derive(Debug, Clone, Copy)]
pub struct MonotonicElapsed {
    initial_ptp_time: PtpTime,
    last_ptp_time: PtpTime,
    phase_offset_ns: i64,
    last_returned: u128,
}

impl MonotonicElapsed {
    #[verifier::type_invariant]
    spec fn last_within_range(self) -> bool {
        self.last_returned <= DURATION_MAX_NANOS
    }

    /// The clock as numbers (see [`ElapsedState`]).
    pub open spec fn state(self) -> ElapsedState {
        (self.initial_ns(), self.last_ns(), self.phase_offset(), self.last_returned_ns())
    }

    /// The first PTP reading, in nanoseconds.
    pub closed spec fn initial_ns(self) -> int {
        self.initial_ptp_time@
    }

    /// The most recent PTP reading, in nanoseconds.
    pub closed spec fn last_ns(self) -> int {
        self.last_ptp_time@
    }

    /// The phase correction, in nanoseconds.
    pub closed spec fn phase_offset(self) -> int {
        self.phase_offset_ns as int
    }

    /// The last elapsed value returned, in nanoseconds (zero before the first).
    pub closed spec fn last_returned_ns(self) -> u128 {
        self.last_returned
    }

    /// Starts from a first PTP reading, with no phase correction and nothing
    /// returned yet.
    pub fn new(initial_ptp_time: PtpTime) -> (r: Self)
        ensures
            r.initial_ns() == initial_ptp_time@,
            r.last_ns() == initial_ptp_time@,
            r.phase_offset() == 0,
            r.last_returned_ns() == 0,
    {
        MonotonicElapsed {
            initial_ptp_time,
            last_ptp_time: initial_ptp_time,
            phase_offset_ns: 0,
            last_returned: 0,
        }
    }

    /// The phase correction, in nanoseconds.
    pub fn phase_offset_ns(&self) -> (r: i64)
        ensures
            r == self.phase_offset(),
    {
        self.phase_offset_ns
    }

    /// The most recent PTP reading.
    pub fn last_ptp_time(&self) -> (r: PtpTime)
        ensures
            r@ == self.last_ns(),
    {
        self.last_ptp_time
    }

    /// Moves the reference point to a new PTP reading with a new phase
    /// correction; the first reading and the last result stay.
    pub fn resync(&mut self, current_ptp_time: PtpTime, phase_offset_ns: i64)
        ensures
            final(self).initial_ns() == old(self).initial_ns(),
            final(self).last_ns() == current_ptp_time@,
            final(self).phase_offset() == phase_offset_ns,
            final(self).last_returned_ns() == old(self).last_returned_ns(),
            final(self).state() == elapsed_step(
                old(self).state(),
                ElapsedCall::Resync(current_ptp_time, phase_offset_ns),
            ).0,
    {
        proof {
            use_type_invariant(&*self);
        }
        self.last_ptp_time = current_ptp_time;
        self.phase_offset_ns = phase_offset_ns;
    }

    /// Returns the elapsed time, in nanoseconds, given the frequency-adjusted
    /// local time since the last PTP reading.
    ///
    /// A result is strictly greater than every earlier one; on an error nothing
    /// changes.
    pub fn compute_elapsed(&mut self, adjusted_instant_ns: i128) -> (r: Result<u128, ClockError>)
        ensures
            r == next_elapsed(
                old(self).last_ns() - old(self).initial_ns(),
                adjusted_instant_ns as int,
                old(self).phase_offset(),
                old(self).last_returned_ns(),
            ),
            r matches Ok(d) ==> d > old(self).last_returned_ns() && final(self).last_returned_ns()
                == d,
            r is Err ==> final(self).last_returned_ns() == old(self).last_returned_ns(),
            final(self).initial_ns() == old(self).initial_ns(),
            final(self).last_ns() == old(self).last_ns(),
            final(self).phase_offset() == old(self).phase_offset(),
            (final(self).state(), Some(r)) == elapsed_step(
                old(self).state(),
                ElapsedCall::Compute(adjusted_instant_ns),
            ),
    {
        proof {
            use_type_invariant(&*self);
            self.initial_ptp_time.lemma_range();
            self.last_ptp_time.lemma_range();
        }
        let initial_ns = self.initial_ptp_time.as_nanos();
        let last_ns = self.last_ptp_time.as_nanos();
        let ptp_base_ns = last_ns - initial_ns;
        let elapsed_ns = match ptp_base_ns.checked_add(adjusted_instant_ns) {
            Some(v) => v,
            None => return Err(ClockError::DurationOverflow),
        };
        let elapsed_ns = match elapsed_ns.checked_add(self.phase_offset_ns as i128) {
            Some(v) => v,
            None => return Err(ClockError::DurationOverflow),
        };
        let duration = match i128_nanos_to_duration(elapsed_ns) {
            Ok(d) => d,
            Err(e) => return Err(e),
        };
        let duration = if duration <= self.last_returned {
            if self.last_returned >= DURATION_MAX_NANOS {
                return Err(ClockError::MonotonicityLimit);
            }
            self.last_returned + 1
        } else {
            duration
        };
        self.last_returned = duration;
        Ok(duration)
    }
}

/// One call on a [`MonotonicElapsed`]: [`MonotonicElapsed::compute_elapsed`]
/// with an adjusted local time, or [`MonotonicElapsed::resync`] to a PTP
/// reading and phase correction.
pub enum ElapsedCall {
    /// `compute_elapsed(adjusted_instant_ns)`.
    Compute(i128),
    /// `resync(current_ptp_time, phase_offset_ns)`.
    Resync(PtpTime, i64),
}

/// The state of an interpolating clock as numbers: the first and the latest
/// PTP reading, the phase correction and the last result, all in nanoseconds.
pub type ElapsedState = (int, int, int, u128);

/// The state after one call and, for a computation, its result.
pub open spec fn elapsed_step(s: ElapsedState, c: ElapsedCall) -> (
    ElapsedState,
    Option<Result<u128, ClockError>>,
) {
    match c {
        ElapsedCall::Compute(adjusted) => {
            let r = next_elapsed(s.1 - s.0, adjusted as int, s.2, s.3);
            (
                match r {
                    Ok(d) => (s.0, s.1, s.2, d),
                    Err(_) => s,
                },
                Some(r),
            )
        },
        ElapsedCall::Resync(t, phase) => ((s.0, t@, phase as int, s.3), None),
    }
}

/// The state after a series of calls, and the result of each call (`None` for
/// a resynchronization).
pub open spec fn elapsed_run(s: ElapsedState, calls: Seq<ElapsedCall>) -> (
    ElapsedState,
    Seq<Option<Result<u128, ClockError>>>,
)
    decreases calls.len(),
{
    if calls.len() == 0 {
        (s, Seq::empty())
    } else {
        let (before, results) = elapsed_run(s, calls.drop_last());
        let (after, r) = elapsed_step(before, calls.last());
        (after, results.push(r))
    }
}

/// The duration a call returned, if it returned one.
pub open spec fn returned(r: Option<Result<u128, ClockError>>) -> Option<u128> {
    match r {
        Some(Ok(d)) => Some(d),
        _ => None,
    }
}

/// Whether a call failed with one of the errors of a computation: overflow,
/// a negative elapsed time, or no duration left above the last one.
pub open spec fn computation_error(r: Option<Result<u128, ClockError>>) -> bool {
    match r {
        Some(Err(e)) => e is DurationOverflow || e is NegativeElapsed || e is MonotonicityLimit,
        _ => true,
    }
}

/// Over any series of computations and resynchronizations, every duration
/// returned is strictly greater than every one returned before it, and than
/// the last result the clock started from; the last result never decreases,
/// and a computation fails only with overflow, a negative elapsed time or the
/// monotonicity limit.
pub proof fn lemma_elapsed_strictly_increasing(s: ElapsedState, calls: Seq<ElapsedCall>)
    ensures
        elapsed_run(s, calls).1.len() == calls.len(),
        elapsed_run(s, calls).0.3 >= s.3,
        forall|i: int|
            0 <= i < calls.len() ==> computation_error(#[trigger] elapsed_run(s, calls).1[i]),
        forall|i: int|
            0 <= i < calls.len() && (#[trigger] returned(elapsed_run(s, calls).1[i])) is Some ==> s.3
                < returned(elapsed_run(s, calls).1[i])->0 <= elapsed_run(s, calls).0.3,
        forall|i: int, j: int|
            0 <= i < j < calls.len() && (#[trigger] returned(elapsed_run(s, calls).1[i])) is Some && (
            #[trigger] returned(elapsed_run(s, calls).1[j])) is Some ==> returned(
                elapsed_run(s, calls).1[i],
            )->0 < returned(elapsed_run(s, calls).1[j])->0,
    decreases calls.len(),
{
    if calls.len() > 0 {
        let prev = calls.drop_last();
        lemma_elapsed_strictly_increasing(s, prev);
        let (before, results) = elapsed_run(s, prev);
        let (after, r) = elapsed_step(before, calls.last());
        let all = elapsed_run(s, calls).1;
        assert(all == results.push(r));
        assert(returned(r) is Some ==> returned(r)->0 > before.3 && after.3 == returned(r)->0);
        assert(after.3 >= before.3);
        assert forall|i: int, j: int|
            0 <= i < j < calls.len() && (#[trigger] returned(all[i])) is Some && (#[trigger] returned(
                all[j],
            )) is Some implies returned(all[i])->0 < returned(all[j])->0 by {
            if j < calls.len() - 1 {
                assert(all[i] == results[i] && all[j] == results[j]);
            } else {
                assert(all[i] == results[i] && all[j] == r);
            }
        }
        assert forall|i: int|
            0 <= i < calls.len() && (#[trigger] returned(all[i])) is Some implies s.3 < returned(
                all[i],
            )->0 <= after.3 by {
            if i < calls.len() - 1 {
                assert(all[i] == results[i]);
            }
        }
        assert forall|i: int| 0 <= i < calls.len() implies computation_error(#[trigger] all[i]) by {
            if i < calls.len() - 1 {
                assert(all[i] == results[i]);
            }
        }
    }
}

} // verus!
