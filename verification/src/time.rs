//! Points in time as the host reports them.

use core::cmp::Ordering;
use vstd::prelude::*;
use vstd::std_specs::cmp::PartialOrdSpecImpl;

verus! {

/// A point in time, in milliseconds since the Unix epoch.
#[derive(Copy, Clone, Debug, PartialEq, Eq, Structural)]
pub struct Posix {
    milliseconds: i128,
}

impl View for Posix {
    type V = int;

    closed spec fn view(&self) -> int {
        self.milliseconds as int
    }
}

/// The duration of `milliseconds` milliseconds.
pub uninterp spec fn duration_of_millis(milliseconds: u64) -> core::time::Duration;

/// The whole milliseconds that a duration holds.
pub uninterp spec fn millis_of(duration: core::time::Duration) -> u128;

/// Makes a duration of a number of milliseconds with `Duration::from_millis`.
/// The duration depends on the number alone, and holds that many whole
/// milliseconds.
#[verifier::external_body]
fn duration_from_millis(milliseconds: u64) -> (duration: core::time::Duration)
    ensures
        duration == duration_of_millis(milliseconds),
        millis_of(duration) == milliseconds,
{
    core::time::Duration::from_millis(milliseconds)
}

/// Counts the whole milliseconds of a duration with `Duration::as_millis`. The
/// count depends on the duration alone.
#[verifier::external_body]
fn duration_as_millis(duration: &core::time::Duration) -> (milliseconds: u128)
    ensures
        milliseconds == millis_of(*duration),
{
    duration.as_millis()
}

/// The whole milliseconds of a duration as they fit in 64 bits: the higher bits
/// of a longer count are cut off.
pub fn whole_millis(duration: core::time::Duration) -> (milliseconds: u64)
    ensures
        milliseconds == millis_of(duration) % 0x1_0000_0000_0000_0000,
{
    let count = duration_as_millis(&duration);
    (count % 0x1_0000_0000_0000_0000) as u64
}

/// Integer division that rounds toward zero.
pub open spec fn div_toward_zero(a: int, b: int) -> int
    recommends
        b > 0,
{
    if a >= 0 {
        a / b
    } else {
        -((-a) / b)
    }
}

/// The milliseconds from `earlier` to `later` where they fit in 64 bits and `later` is not the earlier of the two, else zero.
pub open spec fn millis_between(later: Posix, earlier: Posix) -> u64 {
    if 0 <= later@ - earlier@ <= u64::MAX {
        (later@ - earlier@) as u64
    } else {
        0
    }
}

impl Posix {
    pub fn from_millis(milliseconds: i128) -> (posix: Posix)
        ensures
            posix@ == milliseconds,
    {
        Posix { milliseconds }
    }

    pub fn as_millis(&self) -> (milliseconds: i128)
        ensures
            milliseconds == self@,
    {
        self.milliseconds
    }

    /// Whole seconds since the epoch; a fraction of a second is cut off toward zero.
    pub fn as_secs(&self) -> (seconds: i128)
        ensures
            seconds == div_toward_zero(self@, 1000),
    {
        self.milliseconds / 1000
    }

    /// The milliseconds that lie between `other` and `self`. The result is zero when
    /// `self` is the earlier of the two, and when the distance does not fit in 64 bits.
    pub fn millis_since(&self, other: &Posix) -> (elapsed: u64)
        ensures
            elapsed == millis_between(*self, *other),
    {
        if self.milliseconds < other.milliseconds {
            return 0;
        }
        if other.milliseconds < 0 && self.milliseconds > i128::MAX + other.milliseconds {
            return 0;
        }
        let diff: i128 = self.milliseconds - other.milliseconds;
        if diff > 0xffff_ffff_ffff_ffff {
            0
        } else {
            diff as u64
        }
    }
}

/// Two points in time are equal exactly if their milliseconds are.
pub proof fn lemma_equal_by_millis(a: Posix, b: Posix)
    ensures
        a@ == b@ <==> a == b,
{
}

impl PartialOrd for Posix {
    /// The earlier point in time is the lesser.
    fn partial_cmp(&self, other: &Posix) -> (r: Option<Ordering>) {
        if self.milliseconds < other.milliseconds {
            Some(Ordering::Less)
        } else if self.milliseconds > other.milliseconds {
            Some(Ordering::Greater)
        } else {
            Some(Ordering::Equal)
        }
    }
}

impl PartialOrdSpecImpl for Posix {
    open spec fn obeys_partial_cmp_spec() -> bool {
        true
    }

    open spec fn partial_cmp_spec(&self, other: &Posix) -> Option<Ordering> {
        if self@ < other@ {
            Some(Ordering::Less)
        } else if self@ > other@ {
            Some(Ordering::Greater)
        } else {
            Some(Ordering::Equal)
        }
    }
}

impl core::ops::Sub for Posix {
    type Output = core::time::Duration;

    /// The time that has passed from `other` to `self`; see `millis_since`.
    fn sub(self, other: Self) -> (elapsed: core::time::Duration) {
        duration_from_millis(self.millis_since(&other))
    }
}

impl vstd::std_specs::ops::SubSpecImpl for Posix {
    open spec fn obeys_sub_spec() -> bool {
        true
    }

    open spec fn sub_req(self, other: Posix) -> bool {
        true
    }

    open spec fn sub_spec(self, other: Posix) -> core::time::Duration {
        duration_of_millis(millis_between(self, other))
    }
}

} // verus!
