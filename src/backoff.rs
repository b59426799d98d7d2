//! Exponential backoff: the capped cooldown of the syncer and the fully
//! jittered reconnect delay of the relay.

use vstd::prelude::*;
use vstd::arithmetic::power::pow;

verus! {

/// Options of the syncer's exponential cooldown (delays in milliseconds).
#[derive(Debug, Clone, Copy)]
pub struct CooldownOptions {
    pub base_delay_ms: u64,
    pub max_delay_ms: u64,
    pub multiplier: u64,
}

impl Default for CooldownOptions {
    fn default() -> (r: Self)
        ensures
            r.base_delay_ms == 1000,
            r.max_delay_ms == 300_000,
            r.multiplier == 2,
    {
        CooldownOptions { base_delay_ms: 1000, max_delay_ms: 300_000, multiplier: 2 }
    }
}

/// `min(max, base * multiplier^attempt)`.
pub open spec fn exp_backoff(o: CooldownOptions, attempt: nat) -> int {
    let raw = o.base_delay_ms * pow(o.multiplier as int, attempt);
    if raw < o.max_delay_ms {
        raw
    } else {
        o.max_delay_ms as int
    }
}

proof fn lemma_pow_nonneg(b: int, e: nat)
    requires
        b >= 0,
    ensures
        pow(b, e) >= 0,
    decreases e,
{
    reveal(pow);
    if e > 0 {
        lemma_pow_nonneg(b, (e - 1) as nat);
        assert(b * pow(b, (e - 1) as nat) >= 0) by (nonlinear_arith)
            requires b >= 0, pow(b, (e - 1) as nat) >= 0;
    }
}

proof fn lemma_pow_monotone(b: int, e1: nat, e2: nat)
    requires
        b >= 1,
        e1 <= e2,
    ensures
        pow(b, e1) <= pow(b, e2),
    decreases e2,
{
    reveal(pow);
    if e1 < e2 {
        lemma_pow_monotone(b, e1, (e2 - 1) as nat);
        lemma_pow_nonneg(b, (e2 - 1) as nat);
        let p = pow(b, (e2 - 1) as nat);
        assert(p <= b * p) by (nonlinear_arith)
            requires b >= 1, p >= 0;
    }
}

/// The capped cooldown lies between zero and the cap, and with a multiplier of
/// at least one it never shrinks as the attempt count grows.
pub proof fn lemma_exp_backoff_bounded_monotone(o: CooldownOptions, a1: nat, a2: nat)
    ensures
        0 <= exp_backoff(o, a1) <= o.max_delay_ms,
        o.multiplier >= 1 && a1 <= a2 ==> exp_backoff(o, a1) <= exp_backoff(o, a2),
{
    lemma_pow_nonneg(o.multiplier as int, a1);
    let pw_lo = pow(o.multiplier as int, a1);
    assert(o.base_delay_ms * pw_lo >= 0) by (nonlinear_arith)
        requires pw_lo >= 0;
    if o.multiplier >= 1 && a1 <= a2 {
        lemma_pow_monotone(o.multiplier as int, a1, a2);
        let pw_hi = pow(o.multiplier as int, a2);
        assert(o.base_delay_ms * pw_lo <= o.base_delay_ms * pw_hi) by (nonlinear_arith)
            requires pw_lo <= pw_hi;
    }
}

/// Cooldown after `attempt` consecutive failures, in milliseconds:
/// `min(max_delay, base_delay * multiplier^attempt)`.
pub fn calc_exp_backoff(options: &CooldownOptions, attempt: u32) -> (r: u64)
    ensures
        r == exp_backoff(*options, attempt as nat),
{
    let ghost o = *options;
    let max = options.max_delay_ms as u128;
    let mult = options.multiplier as u128;
    let mut delay: u128 = options.base_delay_ms as u128;
    let mut i: u32 = 0;
    proof {
        reveal(pow);
    }
    while i < attempt
        invariant
            i <= attempt,
            o == *options,
            max == o.max_delay_ms,
            mult == o.multiplier,
            delay == o.base_delay_ms * pow(o.multiplier as int, i as nat),
            delay <= u64::MAX * u64::MAX,
            delay > u64::MAX ==> mult >= 1,
        decreases attempt - i,
    {
        if delay > max && mult >= 1 {
            proof {
                lemma_pow_monotone(o.multiplier as int, i as nat, attempt as nat);
                let pi = pow(o.multiplier as int, i as nat);
                let pa = pow(o.multiplier as int, attempt as nat);
                let b = o.base_delay_ms as int;
                assert(b * pi <= b * pa) by (nonlinear_arith)
                    requires pi <= pa, b >= 0;
            }
            return options.max_delay_ms;
        }
        proof {
            reveal(pow);
            assert(delay * mult <= u64::MAX * u64::MAX) by (nonlinear_arith)
                requires delay <= u64::MAX, mult <= u64::MAX;
            let pi = pow(o.multiplier as int, i as nat);
            let b = o.base_delay_ms as int;
            let m = o.multiplier as int;
            assert(b * (m * pi) == (b * pi) * m) by (nonlinear_arith);
            assert(delay * mult > u64::MAX ==> mult >= 1) by (nonlinear_arith)
                requires delay <= u64::MAX;
        }
        delay = delay * mult;
        i = i + 1;
    }
    if delay < max {
        delay as u64
    } else {
        options.max_delay_ms
    }
}

/// Upper end of the relay's reconnect delay, in seconds:
/// `min(cap, base * 2^min(attempt, 62))`, the product held at the largest `u64`.
pub open spec fn jitter_ceiling(attempt: nat, base_secs: u64, cap_secs: u64) -> int {
    let shift: nat = if attempt < 62 { attempt } else { 62 };
    let raw = base_secs * pow(2, shift);
    let exp = if raw > u64::MAX { u64::MAX as int } else { raw };
    if exp < cap_secs { exp } else { cap_secs as int }
}

/// The jitter ceiling never exceeds the cap and never shrinks as attempts grow.
pub proof fn lemma_jitter_ceiling_monotone(a1: nat, a2: nat, base_secs: u64, cap_secs: u64)
    requires
        a1 <= a2,
    ensures
        0 <= jitter_ceiling(a1, base_secs, cap_secs) <= jitter_ceiling(a2, base_secs, cap_secs),
        jitter_ceiling(a2, base_secs, cap_secs) <= cap_secs,
{
    let s1: nat = if a1 < 62 { a1 } else { 62 };
    let s2: nat = if a2 < 62 { a2 } else { 62 };
    lemma_pow_monotone(2, s1, s2);
    lemma_pow_nonneg(2, s1);
    let pw_lo = pow(2, s1);
    let pw_hi = pow(2, s2);
    let b = base_secs as int;
    assert(0 <= b * pw_lo <= b * pw_hi) by (nonlinear_arith)
        requires 0 <= pw_lo <= pw_hi, b >= 0;
}

/// Pseudo-random spread of a seed: one linear congruential step, high bits kept.
pub open spec fn jitter_mix(seed: u64) -> u64 {
    seed.wrapping_mul(6364136223846793005).wrapping_add(1442695040888963407) >> 33
}

/// `ceiling` seconds in milliseconds, held at the largest `u64`.
pub open spec fn ceiling_millis(ceiling: int) -> int {
    if ceiling * 1000 > u64::MAX {
        u64::MAX as int
    } else {
        ceiling * 1000
    }
}

/// The jittered reconnect delay in milliseconds: the seed's spread reduced into
/// `[0, ceiling * 1000)`, where the ceiling is `jitter_ceiling`; zero when the
/// ceiling is zero.
pub open spec fn jitter_delay(attempt: u32, base_secs: u64, cap_secs: u64, seed: u64) -> u64 {
    let c = jitter_ceiling(attempt as nat, base_secs, cap_secs);
    if c == 0 {
        0
    } else {
        (jitter_mix(seed) as int % ceiling_millis(c)) as u64
    }
}

/// Reconnect delay in milliseconds with full jitter (see `jitter_delay`).
pub fn backoff_delay(attempt: u32, base_secs: u64, cap_secs: u64, seed: u64) -> (r: u64)
    ensures
        r == jitter_delay(attempt, base_secs, cap_secs, seed),
        jitter_ceiling(attempt as nat, base_secs, cap_secs) == 0 ==> r == 0,
        jitter_ceiling(attempt as nat, base_secs, cap_secs) > 0 ==> r == (jitter_mix(seed) as int)
            % ceiling_millis(jitter_ceiling(attempt as nat, base_secs, cap_secs)) && r
            < jitter_ceiling(attempt as nat, base_secs, cap_secs) * 1000,
{
    let shift: u32 = if attempt < 62 { attempt } else { 62 };
    let mut factor: u64 = 1;
    let mut k: u32 = 0;
    proof {
        reveal(pow);
        reveal_with_fuel(pow, 63);
        assert(pow(2, 62) == 0x4000_0000_0000_0000);
        lemma_pow_monotone(2, 0, 62);
    }
    while k < shift
        invariant
            k <= shift <= 62,
            factor == pow(2, k as nat),
            pow(2, 62) == 0x4000_0000_0000_0000,
            factor <= 0x4000_0000_0000_0000u64,
        decreases shift - k,
    {
        proof {
            reveal(pow);
            lemma_pow_monotone(2, (k + 1) as nat, 62);
        }
        factor = factor * 2;
        k = k + 1;
    }
    proof {
        lemma_pow_nonneg(2, shift as nat);
        assert((base_secs as int) * (factor as int) <= u64::MAX * pow(2, 62)) by (nonlinear_arith)
            requires factor <= pow(2, 62), factor >= 0;
    }
    let raw: u128 = (base_secs as u128) * (factor as u128);
    let exp: u64 = if raw > u64::MAX as u128 { u64::MAX } else { raw as u64 };
    let ceiling: u64 = if exp < cap_secs { exp } else { cap_secs };
    if ceiling > 0 {
        let wide: u128 = (ceiling as u128) * 1000;
        let ceiling_ms: u64 = if wide > u64::MAX as u128 { u64::MAX } else { wide as u64 };
        let mixed: u64 = seed.wrapping_mul(6364136223846793005).wrapping_add(1442695040888963407) >> 33;
        mixed % ceiling_ms
    } else {
        0
    }
}

} // verus!
