use vstd::prelude::*;

use crate::ptp_phc::time::{PtpTime, ptp_time_range};

verus! {

/// Length of the AVTP timestamp wrap window (`2^32` ns, about 4.29 s).
pub open spec fn avtp_wrap() -> int {
    0x1_0000_0000
}

/// Absolute value of an integer.
pub open spec fn abs_int(x: int) -> int {
    if x < 0 { -x } else { x }
}

/// The absolute time, in nanoseconds, that [`AvtpTimestamp::expand_near`] chooses:
/// among the three instants congruent to `ts` modulo `2^32` around the wrap window
/// of `reference_ns`, the first one with the smallest distance to the reference.
pub open spec fn expand_near_spec(ts: u32, reference_ns: int) -> int {
    let base = (reference_ns / avtp_wrap()) * avtp_wrap() + ts;
    let c0 = base - avtp_wrap();
    let c1 = base;
    let c2 = base + avtp_wrap();
    let d0 = abs_int(c0 - reference_ns);
    let d1 = abs_int(c1 - reference_ns);
    let d2 = abs_int(c2 - reference_ns);
    if d0 <= d1 && d0 <= d2 {
        c0
    } else if d1 <= d2 {
        c1
    } else {
        c2
    }
}

/// 32-bit AVTP presentation timestamp in nanoseconds:
/// `(gptp_seconds * 1_000_000_000 + gptp_nanoseconds) mod 2^32`.
#[derive(Debug, Clone, Copy, PartialEq, Eq, PartialOrd, Ord, Hash)]
pub struct AvtpTimestamp(u32);

impl View for AvtpTimestamp {
    type V = u32;

    closed spec fn view(&self) -> u32 {
        self.0
    }
}

/// The timestamp with the given raw value.
pub closed spec fn timestamp_of(value: u32) -> AvtpTimestamp {
    AvtpTimestamp(value)
}

/// Every timestamp is the timestamp of its raw value.
pub broadcast proof fn lemma_timestamp_of_view(t: AvtpTimestamp)
    ensures
        #[trigger] timestamp_of(t@) == t,
{
}

/// The raw value of the timestamp of a value is that value.
pub broadcast proof fn lemma_view_of_timestamp(value: u32)
    ensures
        #[trigger] timestamp_of(value)@ == value,
{
}

/// Timestamps are their raw values.
pub broadcast group group_timestamp {
    lemma_timestamp_of_view,
    lemma_view_of_timestamp,
}

impl AvtpTimestamp {
    /// Creates a timestamp from a raw 32-bit value.
    pub fn from_u32(value: u32) -> (r: Self)
        ensures
            r@ == value,
            r == timestamp_of(value),
    {
        Self(value)
    }

    /// Extracts the raw 32-bit value.
    pub fn as_u32(self) -> (r: u32)
        ensures
            r == self@,
            timestamp_of(r) == self,
    {
        self.0
    }

    /// Consumes the timestamp and returns the raw 32-bit value.
    pub fn into_u32(self) -> (r: u32)
        ensures
            r == self@,
            timestamp_of(r) == self,
    {
        self.0
    }

    /// Adds nanoseconds to this timestamp using AVTP's 32-bit wraparound semantics.
    pub fn wrapping_add(self, rhs: u32) -> (r: Self)
        ensures
            r@ as int == (self@ as int + rhs as int) % avtp_wrap(),
            r == timestamp_of(((self@ as int + rhs as int) % avtp_wrap()) as u32),
    {
        Self(self.0.wrapping_add(rhs))
    }

    /// Derives the AVTP timestamp of an absolute PTP time: its total nanoseconds
    /// modulo `2^32`.
    pub fn from_ptp_time(ptp_time: PtpTime) -> (r: Self)
        ensures
            r@ as int == ptp_time@ % avtp_wrap(),
            r == timestamp_of((ptp_time@ % avtp_wrap()) as u32),
    {
        let total = ptp_time.as_nanos();
        let wrapped = total.checked_rem_euclid(0x1_0000_0000i128).unwrap();
        Self(wrapped as u32)
    }

    /// Derives the AVTP timestamp of a duration given in nanoseconds (such as
    /// `Duration::as_nanos`): the count modulo `2^32`.
    pub fn from_nanos(nanos: u128) -> (r: Self)
        ensures
            r@ as int == nanos as int % avtp_wrap(),
            r == timestamp_of((nanos as int % avtp_wrap()) as u32),
    {
        Self((nanos % 0x1_0000_0000u128) as u32)
    }

    /// Expands this wrapping 32-bit timestamp to the absolute [`PtpTime`] nearest to
    /// a reference time (see [`expand_near_spec`]).
    ///
    /// The chosen instant must be representable as a [`PtpTime`].
    pub fn expand_near(self, reference_time: PtpTime) -> (r: PtpTime)
        requires
            ptp_time_range(expand_near_spec(self@, reference_time@)),
        ensures
            r@ == expand_near_spec(self@, reference_time@),
            r@ % avtp_wrap() == self@ as int,
    {
        proof {
            lemma_expand_near_is_nearest(self@, reference_time@);
        }
        self.try_expand_near(reference_time).unwrap()
    }

    /// The instant [`AvtpTimestamp::expand_near`] chooses, or `None` when it is
    /// not representable as a [`PtpTime`].
    pub fn try_expand_near(self, reference_time: PtpTime) -> (r: Option<PtpTime>)
        ensures
            r is Some <==> ptp_time_range(expand_near_spec(self@, reference_time@)),
            r matches Some(t) ==> t@ == expand_near_spec(self@, reference_time@),
            r matches Some(t) ==> t@ % avtp_wrap() == self@ as int,
    {
        proof {
            lemma_expand_near_is_nearest(self@, reference_time@);
        }
        let wrap: i128 = 0x1_0000_0000i128;
        let reference_ns = reference_time.as_nanos();
        proof {
            reference_time.lemma_range();
        }
        let base_cycles = reference_ns.checked_div_euclid(wrap).unwrap();
        let base_candidate = base_cycles * wrap + (self.0 as i128);
        let c0 = base_candidate - wrap;
        let c1 = base_candidate;
        let c2 = base_candidate + wrap;
        let d0 = if c0 < reference_ns { reference_ns - c0 } else { c0 - reference_ns };
        let d1 = if c1 < reference_ns { reference_ns - c1 } else { c1 - reference_ns };
        let d2 = if c2 < reference_ns { reference_ns - c2 } else { c2 - reference_ns };
        let expanded_ns = if d0 <= d1 && d0 <= d2 {
            c0
        } else if d1 <= d2 {
            c1
        } else {
            c2
        };
        PtpTime::from_ns_i128(expanded_ns)
    }
}

impl core::ops::Add<u32> for AvtpTimestamp {
    type Output = Self;

    fn add(self, rhs: u32) -> (r: Self)
        ensures
            r@ as int == (self@ as int + rhs as int) % avtp_wrap(),
            r == timestamp_of(((self@ as int + rhs as int) % avtp_wrap()) as u32),
    {
        self.wrapping_add(rhs)
    }
}

impl vstd::std_specs::ops::AddSpecImpl<u32> for AvtpTimestamp {
    open spec fn obeys_add_spec() -> bool {
        true
    }

    open spec fn add_req(self, rhs: u32) -> bool {
        true
    }

    closed spec fn add_spec(self, rhs: u32) -> Self {
        timestamp_of(((self.0 as int + rhs as int) % avtp_wrap()) as u32)
    }
}

impl core::ops::AddAssign<u32> for AvtpTimestamp {
    fn add_assign(&mut self, rhs: u32)
        ensures
            final(self)@ as int == (old(self)@ as int + rhs as int) % avtp_wrap(),
            *final(self) == timestamp_of(((old(self)@ as int + rhs as int) % avtp_wrap()) as u32),
    {
        *self = self.wrapping_add(rhs);
    }
}

impl From<u32> for AvtpTimestamp {
    fn from(value: u32) -> (r: Self)
        ensures
            r@ == value,
            r == timestamp_of(value),
    {
        Self(value)
    }
}

impl vstd::std_specs::convert::FromSpecImpl<u32> for AvtpTimestamp {
    open spec fn obeys_from_spec() -> bool {
        true
    }

    closed spec fn from_spec(value: u32) -> Self {
        timestamp_of(value)
    }
}

impl From<AvtpTimestamp> for u32 {
    fn from(ts: AvtpTimestamp) -> (r: u32)
        ensures
            r == ts@,
    {
        ts.0
    }
}

impl vstd::std_specs::convert::FromSpecImpl<AvtpTimestamp> for u32 {
    open spec fn obeys_from_spec() -> bool {
        true
    }

    closed spec fn from_spec(ts: AvtpTimestamp) -> u32 {
        ts.0
    }
}

impl From<PtpTime> for AvtpTimestamp {
    fn from(ptp_time: PtpTime) -> (r: Self)
        ensures
            r@ as int == ptp_time@ % avtp_wrap(),
            r == timestamp_of((ptp_time@ % avtp_wrap()) as u32),
    {
        Self::from_ptp_time(ptp_time)
    }
}

impl vstd::std_specs::convert::FromSpecImpl<PtpTime> for AvtpTimestamp {
    open spec fn obeys_from_spec() -> bool {
        true
    }

    closed spec fn from_spec(ptp_time: PtpTime) -> Self {
        timestamp_of((ptp_time@ % avtp_wrap()) as u32)
    }
}

/// The expanded time is congruent to the timestamp modulo `2^32` and lies within
/// half a wrap window of the reference.
pub proof fn lemma_expand_near_is_nearest(ts: u32, reference_ns: int)
    ensures
        expand_near_spec(ts, reference_ns) % avtp_wrap() == ts as int,
        abs_int(expand_near_spec(ts, reference_ns) - reference_ns) <= avtp_wrap() / 2,
{
    let w = avtp_wrap();
    let q = reference_ns / w;
    let base = q * w + ts;
    vstd::arithmetic::div_mod::lemma_fundamental_div_mod(reference_ns, w);
    assert(0 <= reference_ns - q * w < w);
    let e = expand_near_spec(ts, reference_ns);
    assert(e == base - w || e == base || e == base + w);
    assert(e % w == ts as int) by {
        if e == base - w {
            vstd::arithmetic::div_mod::lemma_fundamental_div_mod_converse(e, w, q - 1, ts as int);
        } else if e == base {
            vstd::arithmetic::div_mod::lemma_fundamental_div_mod_converse(e, w, q, ts as int);
        } else {
            vstd::arithmetic::div_mod::lemma_fundamental_div_mod_converse(e, w, q + 1, ts as int);
        }
    }
}

/// The timestamp of an instant within half a wrap window (about 2.1 s) of the
/// reference expands back to that instant.
pub proof fn lemma_expand_near_recovers(instant_ns: int, reference_ns: int)
    requires
        abs_int(instant_ns - reference_ns) < avtp_wrap() / 2,
    ensures
        expand_near_spec((instant_ns % avtp_wrap()) as u32, reference_ns) == instant_ns,
{
    let w = avtp_wrap();
    let ts = (instant_ns % w) as u32;
    assert(ts as int == instant_ns % w);
    lemma_expand_near_is_nearest(ts, reference_ns);
    let e = expand_near_spec(ts, reference_ns);
    vstd::arithmetic::div_mod::lemma_fundamental_div_mod(e, w);
    vstd::arithmetic::div_mod::lemma_fundamental_div_mod(instant_ns, w);
    let qe = e / w;
    let qx = instant_ns / w;
    assert(e - instant_ns == (qe - qx) * w) by (nonlinear_arith)
        requires
            e == w * qe + e % w,
            instant_ns == w * qx + instant_ns % w,
            e % w == instant_ns % w,
    ;
    assert(-w < e - instant_ns < w);
    assert(qe == qx) by (nonlinear_arith)
        requires
            -w < (qe - qx) * w < w,
            w > 0,
    ;
}

} // verus!
