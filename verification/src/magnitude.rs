use vstd::prelude::*;
use vstd::arithmetic::power2::pow2;
use vstd::arithmetic::power2::lemma_pow2_adds;
use vstd::arithmetic::power2::lemma_pow2_pos;
use vstd::arithmetic::power2::lemma_pow2_strictly_increases;
use vstd::arithmetic::power2::lemma2_to64;
use vstd::arithmetic::power2::lemma2_to64_rest;

verus! {

/// A 64-bit IEEE 754 magnitude, held as its bit pattern: one sign bit, eleven
/// exponent bits, fifty-two fraction bits. `==` compares patterns; the
/// comparison of values, exact and within a tolerance, is a function of its own.
#[derive(Clone, Copy, Debug, PartialEq, Eq, Structural)]
pub struct Magnitude {
    pub bits: u64,
}

/// The position of the highest set bit of `m`; 0 for 0 and 1.
pub open spec fn floor_log2(m: nat) -> nat
    decreases m,
{
    if m <= 1 {
        0
    } else {
        1 + floor_log2(m / 2)
    }
}

/// `m`, at least 1, scaled to a 53-bit significand: exactly where it has at most
/// 53 bits, else rounded to the nearest, a tie going to the even one. The result
/// may be 2^53, which carries into the exponent.
pub open spec fn significand(m: nat) -> nat {
    let e = floor_log2(m);
    if e <= 52 {
        m * pow2((52 - e) as nat)
    } else {
        let d = pow2((e - 52) as nat);
        let q = m / d;
        let r = m % d;
        if 2 * r > d || (2 * r == d && q % 2 == 1) {
            q + 1
        } else {
            q
        }
    }
}

/// The bit pattern of the non-negative whole number `m` as a 64-bit float.
pub open spec fn bits_of_nat(m: nat) -> nat {
    if m == 0 {
        0
    } else {
        ((floor_log2(m) + 1023) * pow2(52) + significand(m) - pow2(52)) as nat
    }
}

/// The bit pattern of the 64-bit float nearest to `i`, ties to even.
pub open spec fn bits_of_int(i: int) -> nat {
    if i < 0 {
        pow2(63) + bits_of_nat((-i) as nat)
    } else {
        bits_of_nat(i as nat)
    }
}

/// `pow2(floor_log2(m)) <= m < 2 * pow2(floor_log2(m))` for `m` of at least 1.
pub proof fn lemma_floor_log2_bounds(m: nat)
    requires
        m >= 1,
    ensures
        pow2(floor_log2(m)) <= m < 2 * pow2(floor_log2(m)),
    decreases m,
{
    lemma2_to64();
    if m > 1 {
        lemma_floor_log2_bounds(m / 2);
        let e = floor_log2(m / 2);
        lemma_pow2_adds(1, e);
        assert(pow2(e + 1) == 2 * pow2(e));
        assert(floor_log2(m) == e + 1);
    }
}

/// The significand of `m` stands for the representable value nearest to `m`.
/// With `e` the position of the highest bit of `m`: where `e` is at most 52 the
/// significand holds `m` exactly; above that, with `d` for 2 to the power
/// `e - 52`, the value `significand(m) * d` is at most half of `d` away from
/// `m`, and where it is exactly half away the significand is even.
pub proof fn lemma_significand_is_nearest(m: nat)
    requires
        m >= 1,
    ensures
        pow2(52) <= significand(m) <= pow2(53),
        floor_log2(m) <= 52 ==> significand(m) * pow2(floor_log2(m)) == m * pow2(52),
        floor_log2(m) > 52 ==> 2 * (significand(m) * pow2((floor_log2(m) - 52) as nat) - m) <= pow2(
            (floor_log2(m) - 52) as nat,
        ) && 2 * (m - significand(m) * pow2((floor_log2(m) - 52) as nat)) <= pow2(
            (floor_log2(m) - 52) as nat,
        ),
        floor_log2(m) > 52 && (2 * (significand(m) * pow2((floor_log2(m) - 52) as nat) - m) == pow2(
            (floor_log2(m) - 52) as nat,
        ) || 2 * (m - significand(m) * pow2((floor_log2(m) - 52) as nat)) == pow2(
            (floor_log2(m) - 52) as nat,
        )) ==> significand(m) % 2 == 0,
{
    let e = floor_log2(m);
    let p = pow2(52);
    lemma_floor_log2_bounds(m);
    lemma_pow2_adds(1, 52);
    lemma2_to64();
    assert(pow2(53) == 2 * p);
    if e <= 52 {
        let pe = pow2(e);
        let ps = pow2((52 - e) as nat);
        lemma_pow2_adds(e, (52 - e) as nat);
        lemma_pow2_pos((52 - e) as nat);
        assert(p <= m * ps <= 2 * p && (m * ps) * pe == m * p) by (nonlinear_arith)
            requires
                pe <= m < 2 * pe,
                ps > 0,
                pe * ps == p,
        ;
    } else {
        let d = pow2((e - 52) as nat);
        let q = m / d;
        let r = m % d;
        lemma_pow2_adds(52, (e - 52) as nat);
        lemma_pow2_pos((e - 52) as nat);
        assert(p * d == pow2(e));
        assert(p <= q < 2 * p && m == q * d + r && 0 <= r < d && (q + 1) * d == q * d + d)
            by (nonlinear_arith)
            requires
                p * d <= m < 2 * (p * d),
                d > 0,
                q == m / d,
                r == m % d,
        ;
    }
}

fn pow2_u64(k: u64) -> (r: u64)
    requires
        k <= 63,
    ensures
        r == pow2(k as nat),
{
    let mut r: u64 = 1;
    let mut j: u64 = 0;
    proof {
        lemma2_to64();
    }
    while j < k
        invariant
            j <= k <= 63,
            r == pow2(j as nat),
        decreases k - j,
    {
        proof {
            lemma_pow2_adds(1, j as nat);
            lemma2_to64();
            lemma2_to64_rest();
            if j + 1 < 63 {
                lemma_pow2_strictly_increases((j + 1) as nat, 63);
            }
        }
        r = r * 2;
        j = j + 1;
    }
    r
}

/// The highest bit of a number below 2 to the power 64 is at most bit 63.
pub proof fn lemma_floor_log2_below_64(m: nat)
    requires
        1 <= m < pow2(64),
    ensures
        floor_log2(m) <= 63,
{
    lemma_floor_log2_bounds(m);
    if floor_log2(m) > 64 {
        lemma_pow2_strictly_increases(64, floor_log2(m));
    }
}

fn floor_log2_u64(m: u64) -> (e: u64)
    requires
        m >= 1,
    ensures
        e == floor_log2(m as nat),
        e <= 63,
{
    proof {
        lemma2_to64_rest();
        lemma_floor_log2_below_64(m as nat);
    }
    let mut e: u64 = 0;
    let mut t: u64 = m;
    while t > 1
        invariant
            t >= 1,
            e + floor_log2(t as nat) == floor_log2(m as nat),
            floor_log2(m as nat) <= 63,
        decreases t,
    {
        t = t / 2;
        e = e + 1;
    }
    e
}

impl Magnitude {
    /// The magnitude that a cast of `i` to a 64-bit float gives: the nearest
    /// representable value, a tie going to the even significand.
    pub fn from_integer(i: i64) -> (r: Magnitude)
        ensures
            r.bits as nat == bits_of_int(i as int),
    {
        if i == 0 {
            return Magnitude { bits: 0 };
        }
        let negative: bool = i < 0;
        let m: u64 = if i == i64::MIN {
            9223372036854775808u64
        } else if negative {
            (-i) as u64
        } else {
            i as u64
        };
        let e: u64 = floor_log2_u64(m);
        proof {
            lemma_floor_log2_bounds(m as nat);
            lemma2_to64();
            lemma2_to64_rest();
        }
        let sig: u64 = if e <= 52 {
            let s: u64 = pow2_u64(52 - e);
            proof {
                lemma_pow2_adds(e as nat, (52 - e) as nat);
                let pe = pow2(e as nat);
                let ps = pow2((52 - e) as nat);
                let p = pow2(52);
                assert(pe * ps == p);
                assert(p <= m * ps < 2 * p) by (nonlinear_arith)
                    requires
                        pe <= m < 2 * pe,
                        ps > 0,
                        pe * ps == p,
                ;
            }
            m * s
        } else {
            let d: u64 = pow2_u64(e - 52);
            let q: u64 = m / d;
            let r: u64 = m % d;
            proof {
                lemma_pow2_adds(52, (e - 52) as nat);
                let p = pow2(52);
                assert(p * d == pow2(e as nat));
                assert(p <= q < 2 * p) by (nonlinear_arith)
                    requires
                        p * d <= m < 2 * (p * d),
                        d > 0,
                        q == m / d,
                ;
            }
            if r > d - r || (r == d - r && q % 2 == 1) {
                q + 1
            } else {
                q
            }
        };
        let magnitude_bits: u64 = (e + 1023) * 4503599627370496 + (sig - 4503599627370496);
        if negative {
            Magnitude { bits: 9223372036854775808u64 + magnitude_bits }
        } else {
            Magnitude { bits: magnitude_bits }
        }
    }
}

} // verus!
