//! Duration types and unit conversion.
//!
//! Durations are either hardware tick counts ([`Ticks`]) or
//! milliseconds ([`Milliseconds`]); either can be turned into ticks
//! against a tick rate ([`Hz`]) through the [`Convert`] trait.
//! Milliseconds convert by `ceil(ms * freq / 1000)`, with the
//! multiplication saturating at `u32::MAX` so that the conversion is
//! total. Tick arithmetic is modular: the hardware counter wraps, and
//! intervals across the rollover are computed with wrapping addition
//! and subtraction.

use vstd::prelude::*;

verus! {

/// Tick rate of the alarm driver's hardware counter, in ticks per second.
#[derive(Copy, Clone, Debug, PartialEq, Eq, Structural)]
pub struct Hz(pub u32);

/// A duration (or instant) measured in hardware ticks of the alarm counter.
///
/// A tick count carries no unit beyond "ticks at the driver's current
/// frequency"; any conversion is explicit.
#[derive(Copy, Clone, Debug, PartialEq, Eq, Structural)]
pub struct Ticks(pub u32);

/// A duration measured in milliseconds.
#[derive(Copy, Clone, Debug, PartialEq, Eq, Structural)]
pub struct Milliseconds(pub u32);

/// `a * b`, capped at `u32::MAX`.
pub open spec fn saturating_mul_spec(a: u32, b: u32) -> u32 {
    if a * b > u32::MAX {
        u32::MAX
    } else {
        (a * b) as u32
    }
}

/// `a / b`, rounded up. Meaningful for `b > 0`.
pub open spec fn div_ceil_spec(a: u32, b: u32) -> u32
    recommends
        b > 0,
{
    if a % b == 0 {
        (a / b) as u32
    } else {
        (a / b + 1) as u32
    }
}

/// The number of ticks spanned by `ms` milliseconds at `freq` ticks per
/// second: `ceil(ms * freq / 1000)`, the product capped at `u32::MAX`.
pub open spec fn ms_to_ticks_spec(ms: u32, freq: u32) -> u32 {
    div_ceil_spec(saturating_mul_spec(ms, freq), 1000)
}

/// `a + b` modulo 2^32.
pub open spec fn wrapping_add_spec(a: u32, b: u32) -> u32 {
    ((a + b) % 0x1_0000_0000) as u32
}

/// `a - b` modulo 2^32.
pub open spec fn wrapping_sub_spec(a: u32, b: u32) -> u32 {
    ((a - b + 0x1_0000_0000) % 0x1_0000_0000) as u32
}

impl Ticks {
    /// Modular addition of tick counts: the hardware counter wraps, and
    /// `deadline + interval` must wrap with it.
    pub fn wrapping_add(self, other: Ticks) -> (r: Ticks)
        ensures
            r.0 == wrapping_add_spec(self.0, other.0),
    {
        Ticks(self.0.wrapping_add(other.0))
    }

    /// Modular subtraction of tick counts: `now - start` is the elapsed
    /// interval even when the counter rolled over in between.
    pub fn wrapping_sub(self, other: Ticks) -> (r: Ticks)
        ensures
            r.0 == wrapping_sub_spec(self.0, other.0),
    {
        Ticks(self.0.wrapping_sub(other.0))
    }
}

/// Adding a tick count and then subtracting it again returns to the
/// starting value, including when the addition wraps around 2^32.
pub proof fn lemma_wrapping_add_sub_inverse(a: Ticks, b: Ticks)
    ensures
        wrapping_sub_spec(wrapping_add_spec(a.0, b.0), b.0) == a.0,
{
}

/// Converting milliseconds to ticks preserves order: saturation and
/// rounding never swap two durations.
pub proof fn lemma_to_ticks_monotonic(a: Milliseconds, b: Milliseconds, f: Hz)
    requires
        a.0 <= b.0,
    ensures
        ms_to_ticks_spec(a.0, f.0) <= ms_to_ticks_spec(b.0, f.0),
{
    assert(a.0 * f.0 <= b.0 * f.0) by (nonlinear_arith)
        requires
            a.0 <= b.0,
            f.0 >= 0,
    ;
    lemma_div_ceil_monotonic(saturating_mul_spec(a.0, f.0), saturating_mul_spec(b.0, f.0), 1000);
}

/// Rounding up divides monotonically: a smaller numerator never gives a
/// larger ceiling quotient.
proof fn lemma_div_ceil_monotonic(x: u32, y: u32, d: u32)
    requires
        x <= y,
        d > 0,
    ensures
        div_ceil_spec(x, d) <= div_ceil_spec(y, d),
{
    vstd::arithmetic::div_mod::lemma_div_is_ordered(x as int, y as int, d as int);
    vstd::arithmetic::div_mod::lemma_fundamental_div_mod(x as int, d as int);
    vstd::arithmetic::div_mod::lemma_fundamental_div_mod(y as int, d as int);
    vstd::arithmetic::div_mod::lemma_div_pos_is_pos(x as int, d as int);
    vstd::arithmetic::div_mod::lemma_div_pos_is_pos(y as int, d as int);
    vstd::arithmetic::div_mod::lemma_div_nonincreasing(x as int, d as int);
    vstd::arithmetic::div_mod::lemma_div_nonincreasing(y as int, d as int);
    if x % d != 0 {
        // A nonzero remainder needs a divisor of at least 2, so the
        // quotient is strictly below x and the round-up cannot overflow.
        if x > 0 {
            vstd::arithmetic::div_mod::lemma_div_is_strictly_smaller(x as int, d as int);
        }
        if y % d == 0 {
            // Equal quotients would put x above y; so y's quotient is
            // larger and absorbs the round-up on x.
            assert(x / d != y / d);
        }
    }
    if y % d != 0 && y > 0 {
        vstd::arithmetic::div_mod::lemma_div_is_strictly_smaller(y as int, d as int);
    }
}

/// Conversion rounds up, and by no more than it must: where the product
/// `ms * freq` does not saturate, the resulting tick count covers the
/// requested duration, while one tick fewer would fall short.
pub proof fn lemma_to_ticks_rounds_up(m: Milliseconds, f: Hz)
    requires
        m.0 * f.0 <= u32::MAX,
    ensures
        ms_to_ticks_spec(m.0, f.0) * 1000 >= m.0 * f.0,
        (ms_to_ticks_spec(m.0, f.0) - 1) * 1000 < m.0 * f.0,
{
    let p: int = m.0 * f.0;
    vstd::arithmetic::div_mod::lemma_fundamental_div_mod(p, 1000);
    assert(saturating_mul_spec(m.0, f.0) == p);
    let t: int = ms_to_ticks_spec(m.0, f.0) as int;
    assert(t * 1000 >= p && (t - 1) * 1000 < p) by (nonlinear_arith)
        requires
            p == (p / 1000) * 1000 + p % 1000,
            0 <= p % 1000 < 1000,
            t == if p % 1000 == 0 {
                p / 1000
            } else {
                p / 1000 + 1
            },
    ;
}

/// Saturation keeps the conversion total: once the product `ms * freq`
/// overflows 32 bits, the result is pinned at `ceil(u32::MAX / 1000)`
/// ticks, a valid finite deadline, however far past the cap the
/// product lies.
pub proof fn lemma_saturated_conversion(m: Milliseconds, f: Hz)
    requires
        m.0 * f.0 > u32::MAX,
    ensures
        ms_to_ticks_spec(m.0, f.0) == div_ceil_spec(u32::MAX, 1000),
{
}

/// A duration that has a tick count at any given frequency.
pub trait Convert: Sized {
    /// The tick count that this duration stands for at frequency `freq`.
    spec fn ticks_at(self, freq: Hz) -> u32;

    /// Converts a time unit by rounding up.
    fn to_ticks(self, freq: Hz) -> (r: Ticks)
        ensures
            r.0 == self.ticks_at(freq),
    ;
}

impl Convert for Ticks {
    open spec fn ticks_at(self, freq: Hz) -> u32 {
        self.0
    }

    /// A tick count is already in ticks: the conversion is the
    /// identity, whatever the frequency.
    fn to_ticks(self, _freq: Hz) -> (r: Ticks)
        ensures
            r == self,
    {
        self
    }
}

impl Convert for Milliseconds {
    open spec fn ticks_at(self, freq: Hz) -> u32 {
        ms_to_ticks_spec(self.0, freq.0)
    }

    /// `ceil(ms * freq / 1000)` with a saturating multiplication, so a
    /// requested minimum sleep never underruns and the conversion never
    /// fails. Saturation tops out at about an hour at 1 MHz, which is
    /// plenty for an alarm.
    fn to_ticks(self, freq: Hz) -> (r: Ticks) {
        proof {
            let a: int = self.0 as int;
            let b: int = freq.0 as int;
            assert(a * b <= 0xFFFF_FFFF * 0xFFFF_FFFF) by (nonlinear_arith)
                requires
                    0 <= a <= 0xFFFF_FFFF,
                    0 <= b <= 0xFFFF_FFFF,
            ;
        }
        let wide: u64 = (self.0 as u64) * (freq.0 as u64);
        let sat: u32 = if wide > u32::MAX as u64 {
            u32::MAX
        } else {
            wide as u32
        };
        let d: u32 = sat / 1000;
        let m: u32 = sat % 1000;
        if m == 0 {
            Ticks(d)
        } else {
            Ticks(d + 1)
        }
    }
}

} // verus!
