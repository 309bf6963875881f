use vstd::prelude::*;

use crate::ptp_phc::abi::PtpClockTime;
use crate::ptp_phc::error::Error;
use crate::io::text::{decimal_chars, decimal_text, padded_decimal_chars, padded_decimal_text, string_from_chars};

verus! {

/// Nanoseconds per second.
pub const NSEC_PER_SEC: i64 = 1_000_000_000;

/// Nanoseconds per second, unsigned.
pub const NSEC_PER_SEC_U32: u32 = 1_000_000_000;

/// Smallest number of nanoseconds a [`PtpTime`] can hold (`i64::MIN` seconds).
pub open spec fn min_time_ns() -> int {
    i64::MIN * 1_000_000_000
}

/// Largest number of nanoseconds a [`PtpTime`] can hold (`i64::MAX` seconds plus a
/// full second minus one nanosecond).
pub open spec fn max_time_ns() -> int {
    i64::MAX * 1_000_000_000 + 999_999_999
}

/// Whether a total nanosecond count can be held by a [`PtpTime`].
pub open spec fn ptp_time_range(ns: int) -> bool {
    min_time_ns() <= ns <= max_time_ns()
}

/// The text of a timestamp: the signed whole seconds, a point, and nine digits
/// of nanoseconds.
pub open spec fn ptp_time_text(seconds: int, nanos: int) -> Seq<char> {
    (if seconds < 0 {
        seq!['-']
    } else {
        Seq::empty()
    }) + decimal_text((if seconds < 0 {
        -seconds
    } else {
        seconds
    }) as nat) + seq!['.'] + padded_decimal_text(nanos as nat, 9)
}

/// Nanoseconds within a second (0-999_999_999).
#[derive(Debug, Clone, Copy, PartialEq, Eq, PartialOrd, Ord, Hash)]
pub(crate) struct Nanoseconds(u32);

impl Nanoseconds {
    #[verifier::type_invariant]
    spec fn below_one_second(self) -> bool {
        self.0 < 1_000_000_000
    }

    /// The fraction held, reduced below one second (the type invariant makes the
    /// reduction the identity on every value that code can hold).
    pub(crate) closed spec fn value(self) -> u32 {
        (self.0 % 1_000_000_000) as u32
    }

    /// Creates a `Nanoseconds` value from a number known to be below one second.
    pub(crate) fn new_unchecked(nanos: u32) -> (r: Self)
        requires
            nanos < 1_000_000_000,
        ensures
            r.value() == nanos,
    {
        Self(nanos)
    }

    /// Returns the nanoseconds value as a `u32`.
    pub(crate) fn get(self) -> (r: u32)
        ensures
            r == self.value(),
            r < 1_000_000_000,
    {
        proof {
            use_type_invariant(&self);
        }
        self.0
    }
}

/// Precision Hardware Clock (PHC) timestamp: signed seconds plus a normalized
/// nanosecond fraction in `[0, 1_000_000_000)`.
///
/// Its model (`@`) is the total number of nanoseconds since the clock's epoch.
#[derive(Debug, Clone, Copy, PartialEq, Eq, PartialOrd, Ord, Hash)]
pub struct PtpTime {
    seconds: i64,
    nanoseconds: Nanoseconds,
}

impl View for PtpTime {
    type V = int;

    closed spec fn view(&self) -> int {
        self.seconds * 1_000_000_000 + self.nanoseconds.value()
    }
}

impl PtpTime {
    /// Creates a timestamp from seconds and nanoseconds; nanoseconds of one second
    /// or more carry over into the seconds.
    ///
    /// The carry must not overflow the seconds counter.
    pub fn new(seconds: i64, nanos: u32) -> (r: Self)
        requires
            seconds + nanos / 1_000_000_000 <= i64::MAX,
        ensures
            r@ == seconds * 1_000_000_000 + nanos,
            r.seconds_spec() == seconds + nanos / 1_000_000_000,
    {
        if nanos < NSEC_PER_SEC_U32 {
            Self { seconds, nanoseconds: Nanoseconds::new_unchecked(nanos) }
        } else {
            let carry = (nanos / NSEC_PER_SEC_U32) as i64;
            let secs = seconds + carry;
            let rest = nanos % NSEC_PER_SEC_U32;
            Self { seconds: secs, nanoseconds: Nanoseconds::new_unchecked(rest) }
        }
    }

    /// Creates a timestamp from an already normalized nanosecond fraction.
    pub fn new_unchecked(seconds: i64, nanoseconds: u32) -> (r: Self)
        requires
            nanoseconds < 1_000_000_000,
        ensures
            r@ == seconds * 1_000_000_000 + nanoseconds,
    {
        Self { seconds, nanoseconds: Nanoseconds::new_unchecked(nanoseconds) }
    }

    /// The whole seconds of this timestamp, as a spec value.
    pub closed spec fn seconds_spec(self) -> int {
        self.seconds as int
    }

    /// Every timestamp lies in the representable nanosecond range, and its
    /// seconds are the floor of its total nanoseconds.
    pub proof fn lemma_range(self)
        ensures
            ptp_time_range(self@),
            self.seconds_spec() == self@ / 1_000_000_000,
            i64::MIN <= self.seconds_spec() <= i64::MAX,
    {
        let n = self.nanoseconds.value();
        assert(n < 1_000_000_000);
        assert(self@ == self.seconds * 1_000_000_000 + n);
        assert(self.seconds_spec() == self@ / 1_000_000_000) by {
            vstd::arithmetic::div_mod::lemma_fundamental_div_mod_converse(
                self@, 1_000_000_000, self.seconds as int, n as int);
        }
    }

    /// Creates a timestamp from a signed number of nanoseconds.
    pub fn from_ns(ns: i64) -> (r: Self)
        ensures
            r@ == ns as int,
    {
        let seconds = ns.checked_div_euclid(NSEC_PER_SEC).unwrap();
        let rem = ns.checked_rem_euclid(NSEC_PER_SEC).unwrap();
        Self { seconds, nanoseconds: Nanoseconds::new_unchecked(rem as u32) }
    }

    /// Creates a timestamp from a signed number of nanoseconds held in an `i128`.
    ///
    /// Returns `None` when the seconds do not fit an `i64`.
    pub fn from_ns_i128(ns: i128) -> (r: Option<Self>)
        ensures
            r is Some <==> ptp_time_range(ns as int),
            r matches Some(t) ==> t@ == ns as int,
    {
        let seconds = ns.checked_div_euclid(1_000_000_000i128).unwrap();
        let rem = ns.checked_rem_euclid(1_000_000_000i128).unwrap();
        if seconds < i64::MIN as i128 || seconds > i64::MAX as i128 {
            return None;
        }
        Some(Self { seconds: seconds as i64, nanoseconds: Nanoseconds::new_unchecked(rem as u32) })
    }

    /// Creates a timestamp from a kernel time record, whose nanoseconds the kernel
    /// keeps below one second.
    pub fn from_abi(time: PtpClockTime) -> (r: Self)
        requires
            time.nsec < 1_000_000_000,
        ensures
            r@ == time.sec * 1_000_000_000 + time.nsec,
            r.seconds_spec() == time.sec,
    {
        Self { seconds: time.sec, nanoseconds: Nanoseconds::new_unchecked(time.nsec) }
    }

    /// The kernel time record of this timestamp.
    pub fn into_abi(self) -> (r: PtpClockTime)
        ensures
            r.sec == self.seconds_spec(),
            r.nsec == self@ % 1_000_000_000,
            r.reserved == 0,
            r.sec * 1_000_000_000 + r.nsec == self@,
    {
        proof {
            self.lemma_range();
        }
        let nsec = self.subsec_nanos();
        PtpClockTime { sec: self.seconds, nsec, reserved: 0 }
    }

    /// Converts a non-negative duration, given as whole seconds and a subsecond
    /// nanosecond part, into a timestamp.
    ///
    /// Fails with [`Error::DurationTooLarge`] when the seconds exceed `i64::MAX`.
    pub fn try_from_duration(secs: u64, subsec_nanos: u32) -> (r: Result<Self, Error>)
        requires
            subsec_nanos < 1_000_000_000,
        ensures
            secs <= i64::MAX <==> r is Ok,
            r matches Ok(t) ==> t@ == secs * 1_000_000_000 + subsec_nanos,
            r matches Err(e) ==> e is DurationTooLarge,
    {
        if secs > i64::MAX as u64 {
            return Err(Error::DurationTooLarge);
        }
        Ok(Self { seconds: secs as i64, nanoseconds: Nanoseconds::new_unchecked(subsec_nanos) })
    }

    /// The text of this timestamp: the signed whole seconds, a point, and nine
    /// digits of nanoseconds (`"12.000000345"`).
    pub fn to_string(&self) -> (r: String)
        ensures
            r@ == ptp_time_text(self.seconds_spec(), self@ % 1_000_000_000),
    {
        let mut v: Vec<char> = Vec::new();
        let magnitude: u64 = if self.seconds < 0 {
            v.push('-');
            ((-(self.seconds + 1)) as u64) + 1
        } else {
            self.seconds as u64
        };
        let digits = decimal_chars(magnitude);
        let mut i: usize = 0;
        let ghost start = v@;
        while i < digits.len()
            invariant
                i <= digits@.len(),
                v@ == start + digits@.subrange(0, i as int),
            decreases digits@.len() - i,
        {
            v.push(digits[i]);
            i += 1;
            assert(v@ =~= start + digits@.subrange(0, i as int));
        }
        assert(digits@.subrange(0, i as int) =~= digits@);
        v.push('.');
        let nanos = padded_decimal_chars(self.subsec_nanos() as u64, 9);
        let ghost mid = v@;
        let mut j: usize = 0;
        while j < nanos.len()
            invariant
                j <= nanos@.len(),
                v@ == mid + nanos@.subrange(0, j as int),
            decreases nanos@.len() - j,
        {
            v.push(nanos[j]);
            j += 1;
            assert(v@ =~= mid + nanos@.subrange(0, j as int));
        }
        assert(nanos@.subrange(0, j as int) =~= nanos@);
        proof {
            self.lemma_range();
        }
        assert(v@ =~= ptp_time_text(self.seconds_spec(), self@ % 1_000_000_000));
        string_from_chars(&v)
    }

    /// Returns the whole seconds component.
    pub fn seconds(self) -> (r: i64)
        ensures
            r as int == self@ / 1_000_000_000,
            r as int == self.seconds_spec(),
    {
        proof {
            use_type_invariant(&self.nanoseconds);
        }
        self.seconds
    }

    /// Returns the subsecond nanoseconds component (always below one second).
    pub fn subsec_nanos(self) -> (r: u32)
        ensures
            r as int == self@ % 1_000_000_000,
            r < 1_000_000_000,
    {
        self.nanoseconds.get()
    }

    /// Converts this time to a signed total number of nanoseconds.
    pub fn as_nanos(self) -> (r: i128)
        ensures
            r as int == self@,
    {
        let n = self.nanoseconds.get();
        (self.seconds as i128) * 1_000_000_000i128 + (n as i128)
    }
}

} // verus!
