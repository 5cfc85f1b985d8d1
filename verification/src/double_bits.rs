//! Whole numbers and the bit patterns of IEEE 754 double-precision numbers,
//! as values of program code hold numbers: the double nearest to a whole
//! number, and the whole number a double converts to.
use vstd::prelude::*;

verus! {

/// Two to the power `k`.
pub open spec fn two_to(k: nat) -> nat
    decreases k,
{
    if k == 0 {
        1
    } else {
        2 * two_to((k - 1) as nat)
    }
}

/// The position of the highest set bit of `n` (0 for 0 and 1).
pub open spec fn exponent_of(n: nat) -> nat
    decreases n,
{
    if n < 2 {
        0
    } else {
        1 + exponent_of(n / 2)
    }
}

/// The 53-bit significand of `n`: `n` scaled up to 53 bits, or cut down to
/// 53 bits rounding to the nearest, ties to the even one (which may carry
/// into a 54th bit).
pub open spec fn significand_of(n: nat) -> nat {
    let e = exponent_of(n);
    if e <= 52 {
        n * two_to((52 - e) as nat)
    } else {
        let p = two_to((e - 52) as nat);
        let q = n / p;
        let r = n % p;
        if r * 2 > p || (r * 2 == p && q % 2 == 1) {
            q + 1
        } else {
            q
        }
    }
}

/// The bit pattern of the double nearest to `n`, ties to even: a zero sign,
/// the biased exponent `1023 + e` in bits 52 to 62 and the significand
/// without its leading bit below (a carry into the 54th significand bit
/// raises the exponent by one, as the sum does by itself).
pub open spec fn double_bits(n: nat) -> nat {
    if n == 0 {
        0
    } else {
        (1022 + exponent_of(n)) * two_to(52) + significand_of(n)
    }
}

/// Powers of two add up.
proof fn lemma_two_to_add(a: nat, b: nat)
    ensures
        two_to(a + b) == two_to(a) * two_to(b),
    decreases b,
{
    if b > 0 {
        let b1 = (b - 1) as nat;
        lemma_two_to_add(a, b1);
        assert(a + b == (a + b1) + 1);
        assert(two_to(a + b) == 2 * two_to(a + b1));
        assert(two_to(b) == 2 * two_to(b1));
        let x = two_to(a);
        let y = two_to(b1);
        assert(2 * (x * y) == x * (2 * y)) by (nonlinear_arith);
        assert(two_to(a + b) == x * two_to(b));
    } else {
        assert(two_to(0) == 1);
        assert(a + b == a);
    }
}

/// Powers of two grow.
pub proof fn lemma_two_to_grows(a: nat, b: nat)
    requires
        a <= b,
    ensures
        1 <= two_to(a) <= two_to(b),
    decreases b,
{
    if b > a {
        lemma_two_to_grows(a, (b - 1) as nat);
    } else {
        lemma_two_to_positive(a);
    }
}

/// Powers of two are positive.
pub proof fn lemma_two_to_positive(k: nat)
    ensures
        two_to(k) >= 1,
    decreases k,
{
    if k > 0 {
        lemma_two_to_positive((k - 1) as nat);
    }
}

/// `n` lies between two to the power of its exponent and the next power.
proof fn lemma_exponent_bounds(n: nat)
    requires
        n >= 1,
    ensures
        two_to(exponent_of(n)) <= n < two_to(exponent_of(n) + 1),
    decreases n,
{
    if n >= 2 {
        lemma_exponent_bounds(n / 2);
    }
}

/// The powers of two the conversion works with.
pub proof fn lemma_two_to_constants()
    ensures
        two_to(11) == 2048,
        two_to(12) == 4096,
        two_to(63) == 0x8000_0000_0000_0000,
        two_to(52) == 0x10_0000_0000_0000,
        two_to(53) == 0x20_0000_0000_0000,
        two_to(64) == 0x1_0000_0000_0000_0000,
{
    reveal_with_fuel(two_to, 65);
}

/// The exponent of a nonzero `n`, which is below 64.
fn exponent(n: u64) -> (e: u64)
    requires
        n >= 1,
    ensures
        e as nat == exponent_of(n as nat),
        e < 64,
        two_to(e as nat) <= n as nat,
        (n as nat) < two_to((e + 1) as nat),
{
    proof {
        lemma_exponent_bounds(n as nat);
        lemma_two_to_constants();
        if exponent_of(n as nat) >= 64 {
            lemma_two_to_grows(64, exponent_of(n as nat));
        }
    }
    let ghost big_e = exponent_of(n as nat);
    let mut m = n;
    let mut e: u64 = 0;
    while m >= 2
        invariant
            1 <= m <= n,
            big_e == e + exponent_of(m as nat),
            big_e < 64,
        decreases m,
    {
        m = m / 2;
        e = e + 1;
    }
    e
}

/// The significand of `n` when it has at most 53 bits: `n` scaled up.
fn scaled_significand(n: u64, e: u64) -> (r: u64)
    requires
        e <= 52,
        two_to(e as nat) <= n as nat,
        (n as nat) < two_to((e + 1) as nat),
    ensures
        r as nat == (n as nat) * two_to((52 - e) as nat),
        (r as nat) <= two_to(53),
{
    proof {
        lemma_two_to_constants();
    }
    let mut s = n;
    let mut k = e;
    assert(two_to(0) == 1);
    assert(two_to((k - e) as nat) == 1);
    assert((n as nat) * 1 == n as nat);
    while k < 52
        invariant
            e <= k <= 52,
            (s as nat) == (n as nat) * two_to((k - e) as nat),
            (s as nat) < two_to((k + 1) as nat),
            two_to(53) == 0x20_0000_0000_0000,
        decreases 52 - k,
    {
        proof {
            lemma_two_to_grows((k + 1) as nat, 53);
            let t = two_to((k - e) as nat);
            assert((n as nat) * (2 * t) == 2 * ((n as nat) * t)) by (nonlinear_arith);
            assert(two_to((k + 1 - e) as nat) == 2 * t);
            assert(two_to((k + 2) as nat) == 2 * two_to((k + 1) as nat));
        }
        s = s * 2;
        k = k + 1;
    }
    s
}

/// The significand of `n` when it has more than 53 bits: `n` cut down to 53
/// bits, rounding to the nearest, ties to even.
fn rounded_significand(n: u64, e: u64) -> (r: u64)
    requires
        52 < e < 64,
        two_to(e as nat) <= n as nat,
        (n as nat) < two_to((e + 1) as nat),
    ensures
        r as nat == ({
            let p = two_to((e - 52) as nat);
            let q = (n as nat) / p;
            let rem = (n as nat) % p;
            if rem * 2 > p || (rem * 2 == p && q % 2 == 1) {
                q + 1
            } else {
                q
            }
        }),
        (r as nat) <= two_to(53),
{
    proof {
        lemma_two_to_constants();
    }
    let shift = e - 52;
    let mut p: u64 = 1;
    let mut k: u64 = 0;
    assert(two_to(0) == 1);
    while k < shift
        invariant
            k <= shift <= 11,
            p as nat == two_to(k as nat),
            two_to(11) == 2048,
        decreases shift - k,
    {
        proof {
            lemma_two_to_grows((k + 1) as nat, 11);
        }
        p = p * 2;
        k = k + 1;
    }
    proof {
        lemma_two_to_positive(shift as nat);
    }
    let q = n / p;
    let rem = n % p;
    proof {
        lemma_two_to_add(52, shift as nat);
        lemma_two_to_add(53, shift as nat);
        assert((52 + shift) as nat == e as nat);
        let big_p = two_to(shift as nat);
        let lo = two_to(52);
        let hi = two_to(53);
        lemma_two_to_positive(shift as nat);
        assert(n as nat >= lo * big_p);
        assert((n as nat) < hi * big_p);
        assert(q as nat >= lo) by (nonlinear_arith)
            requires
                n as nat >= lo * big_p,
                big_p > 0,
                q == n / p,
                p == big_p,
        ;
        assert((q as nat) < hi) by (nonlinear_arith)
            requires
                (n as nat) < hi * big_p,
                big_p > 0,
                q == n / p,
                p == big_p,
        ;
    }
    if rem * 2 > p || (rem * 2 == p && q % 2 == 1) {
        q + 1
    } else {
        q
    }
}

/// The bit pattern of the double nearest to `n` (what `n as f64` gives,
/// read back as bits).
pub fn integer_to_double_bits(n: u64) -> (r: u64)
    ensures
        r == double_bits(n as nat),
{
    if n == 0 {
        return 0;
    }
    let e = exponent(n);
    let significand = if e <= 52 {
        scaled_significand(n, e)
    } else {
        rounded_significand(n, e)
    };
    proof {
        lemma_two_to_constants();
    }
    assert(significand as nat == significand_of(n as nat));
    (1022 + e) * 0x10_0000_0000_0000 + significand
}

/// What converting the double with these bits to a `usize` gives (Rust's
/// `as usize`): the value rounded toward zero, 0 for NaN and for negative
/// values, and `usize::MAX` for values too large (infinity included).
pub open spec fn usize_of_double(bits: u64) -> nat {
    let sign = (bits as nat) / two_to(63);
    let e = ((bits as nat) / two_to(52)) % 2048;
    let m = (bits as nat) % two_to(52);
    if e == 2047 {
        if m == 0 && sign == 0 {
            usize::MAX as nat
        } else {
            0
        }
    } else if sign == 1 || e < 1023 {
        0
    } else {
        let v = if e >= 1075 {
            (two_to(52) + m) * two_to((e - 1075) as nat)
        } else {
            (two_to(52) + m) / two_to((1075 - e) as nat)
        };
        if v > usize::MAX {
            usize::MAX as nat
        } else {
            v
        }
    }
}

/// Two to the power `k`, for `k` up to 52.
fn power_of_two(k: u64) -> (r: u128)
    requires
        k <= 52,
    ensures
        r as nat == two_to(k as nat),
        r as nat <= two_to(52),
{
    proof {
        lemma_two_to_constants();
    }
    let mut p: u128 = 1;
    let mut i: u64 = 0;
    assert(two_to(0) == 1);
    while i < k
        invariant
            i <= k <= 52,
            p as nat == two_to(i as nat),
            two_to(52) == 0x10_0000_0000_0000,
        decreases k - i,
    {
        proof {
            lemma_two_to_grows((i + 1) as nat, 52);
        }
        p = p * 2;
        i = i + 1;
    }
    proof {
        lemma_two_to_grows(k as nat, 52);
    }
    p
}

/// The `usize` a double converts to (see `usize_of_double`).
pub fn double_to_usize(bits: u64) -> (r: usize)
    ensures
        r as nat == usize_of_double(bits),
{
    proof {
        lemma_two_to_constants();
    }
    let sign = bits / 0x8000_0000_0000_0000;
    let e = (bits / 0x10_0000_0000_0000) % 2048;
    let m = bits % 0x10_0000_0000_0000;
    if e == 2047 {
        if m == 0 && sign == 0 {
            usize::MAX
        } else {
            0
        }
    } else if sign == 1 || e < 1023 {
        0
    } else if e >= 1087 {
        proof {
            lemma_two_to_grows(12, (e - 1075) as nat);
            let big = two_to((e - 1075) as nat);
            let base = two_to(52) + (m as nat);
            assert(base * big >= 0x10_0000_0000_0000 * 4096) by (nonlinear_arith)
                requires
                    base >= 0x10_0000_0000_0000,
                    big >= 4096,
            ;
        }
        usize::MAX
    } else {
        let base: u128 = (0x10_0000_0000_0000 + m) as u128;
        let v: u128 = if e >= 1075 {
            let p = power_of_two(e - 1075);
            proof {
                lemma_two_to_grows((e - 1075) as nat, 11);
                assert((base as nat) * (p as nat) <= 0x20_0000_0000_0000 * 2048) by (nonlinear_arith)
                    requires
                        (base as nat) <= 0x20_0000_0000_0000,
                        (p as nat) <= 2048,
                ;
            }
            base * p
        } else {
            let p = power_of_two(1075 - e);
            proof {
                lemma_two_to_positive((1075 - e) as nat);
            }
            base / p
        };
        if v > usize::MAX as u128 {
            usize::MAX
        } else {
            v as usize
        }
    }
}

} // verus!
