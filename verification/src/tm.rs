use vstd::prelude::*;
use core::time::Duration;
use vstd::std_specs::ops::SubSpecImpl;

verus! {

/// The number of nanoseconds in a second.
pub const NANOS_PER_SEC: i64 = 1_000_000_000;

/// The duration that `Duration::new(secs, nanos)` builds, for `nanos` below
/// one second.
pub uninterp spec fn duration_of(secs: u64, nanos: u32) -> Duration;

/// Calls `core::time::Duration::new`, which builds the duration of `secs`
/// seconds and `nanos` nanoseconds. Under one second of nanoseconds nothing
/// carries over into the seconds, so the call cannot panic; the contract
/// names the result `duration_of(secs, nanos)`.
#[verifier::external_body]
fn duration_new(secs: u64, nanos: u32) -> (d: Duration)
    requires
        nanos < NANOS_PER_SEC,
    ensures
        d == duration_of(secs, nanos),
{
    Duration::new(secs, nanos)
}

/// A point in time as the kernel reports it: seconds and nanoseconds.
#[derive(Debug, Clone, Copy, PartialEq, Eq, Structural)]
pub struct Timespec {
    pub tv_sec: i64,
    pub tv_nsec: i64,
}

/// The zero time.
pub fn new_timespec() -> (t: Timespec)
    ensures
        t == (Timespec { tv_sec: 0, tv_nsec: 0 }),
{
    Timespec { tv_sec: 0, tv_nsec: 0 }
}

/// The nanoseconds from `other` to `this`, as the subtraction computes them:
/// the difference of seconds, taken as an unsigned count, in nanoseconds,
/// plus the signed difference of nanoseconds.
pub open spec fn elapsed_nanos(this: Timespec, other: Timespec) -> int {
    ((this.tv_sec - other.tv_sec) as i64 as u64) as int * NANOS_PER_SEC + (this.tv_nsec - other.tv_nsec)
}

/// Whether `this - other` is defined: both differences fit in an `i64`, and
/// the elapsed time is neither negative nor beyond what a `Duration` holds.
pub open spec fn sub_defined(this: Timespec, other: Timespec) -> bool {
    &&& i64::MIN <= this.tv_sec - other.tv_sec <= i64::MAX
    &&& i64::MIN <= this.tv_nsec - other.tv_nsec <= i64::MAX
    &&& 0 <= elapsed_nanos(this, other)
    &&& elapsed_nanos(this, other) / (NANOS_PER_SEC as int) <= u64::MAX
}

/// The duration from `other` to `this`.
pub open spec fn spec_elapsed(this: Timespec, other: Timespec) -> Duration {
    duration_of(
        (elapsed_nanos(this, other) / (NANOS_PER_SEC as int)) as u64,
        (elapsed_nanos(this, other) % (NANOS_PER_SEC as int)) as u32,
    )
}

impl core::ops::Sub<Timespec> for Timespec {
    type Output = Duration;

    /// The time elapsed from `other` to `self`.
    fn sub(self, other: Timespec) -> (d: Duration) {
        let sec: i64 = self.tv_sec - other.tv_sec;
        let nsec: i64 = self.tv_nsec - other.tv_nsec;
        let whole: u64 = sec as u64;
        let total: i128 = whole as i128 * 1_000_000_000i128 + nsec as i128;
        assert(total == elapsed_nanos(self, other));
        let t: u128 = total as u128;
        let secs: u64 = (t / 1_000_000_000u128) as u64;
        let nanos: u32 = (t % 1_000_000_000u128) as u32;
        duration_new(secs, nanos)
    }
}

impl SubSpecImpl<Timespec> for Timespec {
    open spec fn obeys_sub_spec() -> bool {
        true
    }

    open spec fn sub_req(self, other: Timespec) -> bool {
        sub_defined(self, other)
    }

    open spec fn sub_spec(self, other: Timespec) -> Duration {
        spec_elapsed(self, other)
    }
}

/// A time as the kernel hands it out: seconds not negative, nanoseconds
/// below one second.
pub open spec fn is_normalized(t: Timespec) -> bool {
    t.tv_sec >= 0 && 0 <= t.tv_nsec < NANOS_PER_SEC
}

/// Whether `a` is not earlier than `b`.
pub open spec fn not_earlier(a: Timespec, b: Timespec) -> bool {
    a.tv_sec > b.tv_sec || (a.tv_sec == b.tv_sec && a.tv_nsec >= b.tv_nsec)
}

/// Law: elapsed times add up. For normalized times `a`, `b`, `c`, none
/// earlier than the next, each subtraction is defined, and the time from `c`
/// to `a` is the time from `c` to `b` plus the time from `b` to `a`.
pub proof fn lemma_elapsed_adds_up(a: Timespec, b: Timespec, c: Timespec)
    requires
        is_normalized(a),
        is_normalized(b),
        is_normalized(c),
        not_earlier(a, b),
        not_earlier(b, c),
    ensures
        sub_defined(a, b),
        sub_defined(b, c),
        sub_defined(a, c),
        elapsed_nanos(a, c) == elapsed_nanos(a, b) + elapsed_nanos(b, c),
        elapsed_nanos(a, b) == (a.tv_sec - b.tv_sec) * NANOS_PER_SEC + (a.tv_nsec - b.tv_nsec),
{
    lemma_elapsed_of_ordered(a, b);
    lemma_elapsed_of_ordered(b, c);
    lemma_elapsed_of_ordered(a, c);
}

/// For normalized times, the later first, the subtraction is defined and its
/// elapsed time is the plain difference in nanoseconds.
proof fn lemma_elapsed_of_ordered(a: Timespec, b: Timespec)
    requires
        is_normalized(a),
        is_normalized(b),
        not_earlier(a, b),
    ensures
        sub_defined(a, b),
        elapsed_nanos(a, b) == (a.tv_sec - b.tv_sec) * NANOS_PER_SEC + (a.tv_nsec - b.tv_nsec),
{
    let d: int = a.tv_sec - b.tv_sec;
    assert(0 <= d <= i64::MAX);
    assert((d as i64 as u64) as int == d);
    let e = elapsed_nanos(a, b);
    assert(e == d * NANOS_PER_SEC + (a.tv_nsec - b.tv_nsec));
    assert(0 <= e);
    assert(e / (NANOS_PER_SEC as int) <= u64::MAX) by (nonlinear_arith)
        requires
            e == d * 1_000_000_000 + (a.tv_nsec - b.tv_nsec),
            0 <= d <= i64::MAX,
            -1_000_000_000 < a.tv_nsec - b.tv_nsec < 1_000_000_000,
            0 <= e,
            NANOS_PER_SEC == 1_000_000_000,
    ;
}

/// Law: when `a` is not earlier than `b` in whole seconds, the elapsed time
/// is the duration of exactly `(a.tv_sec - b.tv_sec) * 10^9 + (a.tv_nsec -
/// b.tv_nsec)` nanoseconds: that total divided by `10^9` whole seconds, and the
/// remainder in nanoseconds. The subtraction is defined whenever that total
/// is not negative and its seconds fit in a `u64`.
pub proof fn lemma_elapsed_is_the_nanosecond_difference(a: Timespec, b: Timespec)
    requires
        a.tv_sec >= b.tv_sec,
        a.tv_sec - b.tv_sec <= i64::MAX,
        i64::MIN <= a.tv_nsec - b.tv_nsec <= i64::MAX,
        0 <= (a.tv_sec - b.tv_sec) * 1_000_000_000 + (a.tv_nsec - b.tv_nsec),
        ((a.tv_sec - b.tv_sec) * 1_000_000_000 + (a.tv_nsec - b.tv_nsec)) / 1_000_000_000 <= u64::MAX,
    ensures
        sub_defined(a, b),
        spec_elapsed(a, b) == duration_of(
            (((a.tv_sec - b.tv_sec) * 1_000_000_000 + (a.tv_nsec - b.tv_nsec)) / 1_000_000_000) as u64,
            (((a.tv_sec - b.tv_sec) * 1_000_000_000 + (a.tv_nsec - b.tv_nsec)) % 1_000_000_000) as u32,
        ),
{
    let d: int = a.tv_sec - b.tv_sec;
    assert((d as i64 as u64) as int == d);
}

} // verus!
