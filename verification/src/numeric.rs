//! Integer numerics: two's-complement arithmetic exactly as the executor
//! needs it.
//!
//! Values move between their signed view and their bit pattern through
//! arithmetic conversions stated exactly; division and remainder trap on a
//! zero divisor and signed division traps on the one overflowing quotient.

use vstd::prelude::*;
use crate::trap::Trap;
use vstd::arithmetic::power2::{lemma2_to64, pow2};

verus! {

/// The bit pattern of a 32-bit signed value.
pub open spec fn spec_i32_bits(a: i32) -> u32 {
    if a >= 0 {
        a as u32
    } else {
        (a + 0x1_0000_0000) as u32
    }
}

/// The signed value of a 32-bit pattern.
pub open spec fn spec_u32_signed(u: u32) -> i32 {
    if u < 0x8000_0000 {
        u as i32
    } else {
        (u - 0x1_0000_0000) as i32
    }
}

/// The bit pattern of a 64-bit signed value.
pub open spec fn spec_i64_bits(a: i64) -> u64 {
    if a >= 0 {
        a as u64
    } else {
        (a + 0x1_0000_0000_0000_0000) as u64
    }
}

/// The signed value of a 64-bit pattern.
pub open spec fn spec_u64_signed(u: u64) -> i64 {
    if u < 0x8000_0000_0000_0000 {
        u as i64
    } else {
        (u - 0x1_0000_0000_0000_0000) as i64
    }
}

/// The bit pattern of a signed value.
pub fn i32_bits(a: i32) -> (r: u32)
    ensures
        r == spec_i32_bits(a),
{
    if a >= 0 {
        a as u32
    } else {
        let w = (-(a + 1)) as u32;
        0xFFFF_FFFFu32 - w
    }
}

/// The signed value of a bit pattern.
pub fn u32_signed(u: u32) -> (r: i32)
    ensures
        r == spec_u32_signed(u),
{
    if u < 0x8000_0000 {
        u as i32
    } else {
        let w = 0xFFFF_FFFFu32 - u;
        -(w as i32) - 1
    }
}

/// The bit pattern of a signed value.
pub fn i64_bits(a: i64) -> (r: u64)
    ensures
        r == spec_i64_bits(a),
{
    if a >= 0 {
        a as u64
    } else {
        let w = (-(a + 1)) as u64;
        0xFFFF_FFFF_FFFF_FFFFu64 - w
    }
}

/// The signed value of a bit pattern.
pub fn u64_signed(u: u64) -> (r: i64)
    ensures
        r == spec_u64_signed(u),
{
    if u < 0x8000_0000_0000_0000 {
        u as i64
    } else {
        let w = 0xFFFF_FFFF_FFFF_FFFFu64 - u;
        -(w as i64) - 1
    }
}

/// Two's-complement 32-bit addition: the sum modulo 2^32.
pub fn i32_add_wrap(a: i32, b: i32) -> (r: i32)
    ensures
        spec_i32_bits(r) == (spec_i32_bits(a) + spec_i32_bits(b)) % 0x1_0000_0000,
{
    let ua = i32_bits(a);
    let ub = i32_bits(b);
    let sum = ua.wrapping_add(ub);
    u32_signed(sum)
}

/// Two's-complement 32-bit subtraction: the difference modulo 2^32.
pub fn i32_sub_wrap(a: i32, b: i32) -> (r: i32)
    ensures
        spec_i32_bits(r) == (spec_i32_bits(a) - spec_i32_bits(b)) % 0x1_0000_0000,
{
    let ua = i32_bits(a);
    let ub = i32_bits(b);
    let d = ua.wrapping_sub(ub);
    u32_signed(d)
}

/// Two's-complement 32-bit multiplication: the product modulo 2^32.
pub fn i32_mul_wrap(a: i32, b: i32) -> (r: i32)
    ensures
        spec_i32_bits(r) == (spec_i32_bits(a) * spec_i32_bits(b)) % 0x1_0000_0000,
{
    let ua = i32_bits(a);
    let ub = i32_bits(b);
    let p = ua.wrapping_mul(ub);
    u32_signed(p)
}

/// Truncated signed division: the quotient rounded toward zero.
pub open spec fn spec_div_trunc(a: int, b: int) -> int {
    let m = (if a < 0 {
        -a
    } else {
        a
    }) / (if b < 0 {
        -b
    } else {
        b
    });
    if (a < 0) == (b < 0) {
        m
    } else {
        -m
    }
}

/// Truncated signed remainder: what division rounded toward zero leaves,
/// carrying the dividend's sign.
pub open spec fn spec_rem_trunc(a: int, b: int) -> int {
    let m = (if a < 0 {
        -a
    } else {
        a
    }) % (if b < 0 {
        -b
    } else {
        b
    });
    if a < 0 {
        -m
    } else {
        m
    }
}

/// Signed 32-bit division. Traps on a zero divisor; the single overflowing
/// quotient, the minimum value divided by minus one, traps as integer
/// overflow.
pub fn i32_div_s(a: i32, b: i32) -> (r: Result<i32, Trap>)
    ensures
        b == 0 ==> r == Err::<i32, Trap>(Trap::DivisionByZero),
        b != 0 && a == i32::MIN && b == -1i32 ==> r == Err::<i32, Trap>(Trap::IntegerOverflow),
        b != 0 && !(a == i32::MIN && b == -1i32) ==> (r matches Ok(v) && v as int == spec_div_trunc(
            a as int,
            b as int,
        )),
{
    if b == 0 {
        return Err(Trap::DivisionByZero);
    }
    if a == i32::MIN && b == -1 {
        return Err(Trap::IntegerOverflow);
    }
    let ma: u32 = if a >= 0 {
        a as u32
    } else {
        ((-(a + 1)) as u32) + 1
    };
    let mb: u32 = if b >= 0 {
        b as u32
    } else {
        ((-(b + 1)) as u32) + 1
    };
    let q = ma / mb;
    proof {
        assert(q <= ma) by (nonlinear_arith)
            requires
                mb >= 1,
                q == ma / mb,
        ;
        if a < 0 && b < -1 {
            assert(ma / mb <= ma / 2) by (nonlinear_arith)
                requires
                    mb >= 2,
            ;
        }
    }
    if (a >= 0) == (b >= 0) {
        Ok(q as i32)
    } else {
        if q == 0 {
            Ok(0)
        } else {
            Ok(-((q - 1) as i32) - 1)
        }
    }
}

/// Signed 32-bit remainder. Traps on a zero divisor only: the minimum value
/// modulo minus one is zero.
pub fn i32_rem_s(a: i32, b: i32) -> (r: Result<i32, Trap>)
    ensures
        b == 0 ==> r == Err::<i32, Trap>(Trap::DivisionByZero),
        b != 0 ==> (r matches Ok(v) && v as int == spec_rem_trunc(a as int, b as int)),
{
    if b == 0 {
        return Err(Trap::DivisionByZero);
    }
    let ma: u32 = if a >= 0 {
        a as u32
    } else {
        ((-(a + 1)) as u32) + 1
    };
    let mb: u32 = if b >= 0 {
        b as u32
    } else {
        ((-(b + 1)) as u32) + 1
    };
    let m = ma % mb;
    if a >= 0 {
        Ok(m as i32)
    } else {
        if m == 0 {
            Ok(0)
        } else {
            Ok(-((m - 1) as i32) - 1)
        }
    }
}

/// Unsigned 32-bit division on the bit patterns. Traps on a zero divisor.
pub fn i32_div_u(a: i32, b: i32) -> (r: Result<i32, Trap>)
    ensures
        spec_i32_bits(b) == 0 ==> r == Err::<i32, Trap>(Trap::DivisionByZero),
        spec_i32_bits(b) != 0 ==> (r matches Ok(v) && spec_i32_bits(v) == spec_i32_bits(a)
            / spec_i32_bits(b)),
{
    let ua = i32_bits(a);
    let ub = i32_bits(b);
    if ub == 0 {
        return Err(Trap::DivisionByZero);
    }
    proof {
        assert(ua / ub <= ua) by (nonlinear_arith)
            requires
                ub >= 1,
        ;
    }
    Ok(u32_signed(ua / ub))
}

/// Unsigned 32-bit remainder on the bit patterns. Traps on a zero divisor.
pub fn i32_rem_u(a: i32, b: i32) -> (r: Result<i32, Trap>)
    ensures
        spec_i32_bits(b) == 0 ==> r == Err::<i32, Trap>(Trap::DivisionByZero),
        spec_i32_bits(b) != 0 ==> (r matches Ok(v) && spec_i32_bits(v) == spec_i32_bits(a)
            % spec_i32_bits(b)),
{
    let ua = i32_bits(a);
    let ub = i32_bits(b);
    if ub == 0 {
        return Err(Trap::DivisionByZero);
    }
    Ok(u32_signed(ua % ub))
}

/// Two's-complement 64-bit addition: the sum modulo 2^64.
pub fn i64_add_wrap(a: i64, b: i64) -> (r: i64)
    ensures
        spec_i64_bits(r) == (spec_i64_bits(a) + spec_i64_bits(b)) % 0x1_0000_0000_0000_0000,
{
    let ua = i64_bits(a);
    let ub = i64_bits(b);
    u64_signed(ua.wrapping_add(ub))
}

/// Two's-complement 64-bit subtraction: the difference modulo 2^64.
pub fn i64_sub_wrap(a: i64, b: i64) -> (r: i64)
    ensures
        spec_i64_bits(r) == (spec_i64_bits(a) - spec_i64_bits(b)) % 0x1_0000_0000_0000_0000,
{
    let ua = i64_bits(a);
    let ub = i64_bits(b);
    u64_signed(ua.wrapping_sub(ub))
}

/// Two's-complement 64-bit multiplication: the product modulo 2^64.
pub fn i64_mul_wrap(a: i64, b: i64) -> (r: i64)
    ensures
        spec_i64_bits(r) == (spec_i64_bits(a) * spec_i64_bits(b)) % 0x1_0000_0000_0000_0000,
{
    let ua = i64_bits(a);
    let ub = i64_bits(b);
    u64_signed(ua.wrapping_mul(ub))
}

/// Signed 64-bit division, trapping as the 32-bit form does.
pub fn i64_div_s(a: i64, b: i64) -> (r: Result<i64, Trap>)
    ensures
        b == 0 ==> r == Err::<i64, Trap>(Trap::DivisionByZero),
        b != 0 && a == i64::MIN && b == -1i64 ==> r == Err::<i64, Trap>(Trap::IntegerOverflow),
        b != 0 && !(a == i64::MIN && b == -1i64) ==> (r matches Ok(v) && v as int == spec_div_trunc(
            a as int,
            b as int,
        )),
{
    if b == 0 {
        return Err(Trap::DivisionByZero);
    }
    if a == i64::MIN && b == -1 {
        return Err(Trap::IntegerOverflow);
    }
    let ma: u64 = if a >= 0 {
        a as u64
    } else {
        ((-(a + 1)) as u64) + 1
    };
    let mb: u64 = if b >= 0 {
        b as u64
    } else {
        ((-(b + 1)) as u64) + 1
    };
    let q = ma / mb;
    proof {
        assert(q <= ma) by (nonlinear_arith)
            requires
                mb >= 1,
                q == ma / mb,
        ;
        if a < 0 && b < -1 {
            assert(ma / mb <= ma / 2) by (nonlinear_arith)
                requires
                    mb >= 2,
            ;
        }
    }
    if (a >= 0) == (b >= 0) {
        Ok(q as i64)
    } else {
        if q == 0 {
            Ok(0)
        } else {
            Ok(-((q - 1) as i64) - 1)
        }
    }
}

/// Signed 64-bit remainder, trapping on a zero divisor only.
pub fn i64_rem_s(a: i64, b: i64) -> (r: Result<i64, Trap>)
    ensures
        b == 0 ==> r == Err::<i64, Trap>(Trap::DivisionByZero),
        b != 0 ==> (r matches Ok(v) && v as int == spec_rem_trunc(a as int, b as int)),
{
    if b == 0 {
        return Err(Trap::DivisionByZero);
    }
    let ma: u64 = if a >= 0 {
        a as u64
    } else {
        ((-(a + 1)) as u64) + 1
    };
    let mb: u64 = if b >= 0 {
        b as u64
    } else {
        ((-(b + 1)) as u64) + 1
    };
    let m = ma % mb;
    if a >= 0 {
        Ok(m as i64)
    } else {
        if m == 0 {
            Ok(0)
        } else {
            Ok(-((m - 1) as i64) - 1)
        }
    }
}

/// Unsigned 64-bit division on the bit patterns. Traps on a zero divisor.
pub fn i64_div_u(a: i64, b: i64) -> (r: Result<i64, Trap>)
    ensures
        spec_i64_bits(b) == 0 ==> r == Err::<i64, Trap>(Trap::DivisionByZero),
        spec_i64_bits(b) != 0 ==> (r matches Ok(v) && spec_i64_bits(v) == spec_i64_bits(a)
            / spec_i64_bits(b)),
{
    let ua = i64_bits(a);
    let ub = i64_bits(b);
    if ub == 0 {
        return Err(Trap::DivisionByZero);
    }
    proof {
        assert(ua / ub <= ua) by (nonlinear_arith)
            requires
                ub >= 1,
        ;
    }
    Ok(u64_signed(ua / ub))
}

/// Unsigned 64-bit remainder on the bit patterns. Traps on a zero divisor.
pub fn i64_rem_u(a: i64, b: i64) -> (r: Result<i64, Trap>)
    ensures
        spec_i64_bits(b) == 0 ==> r == Err::<i64, Trap>(Trap::DivisionByZero),
        spec_i64_bits(b) != 0 ==> (r matches Ok(v) && spec_i64_bits(v) == spec_i64_bits(a)
            % spec_i64_bits(b)),
{
    let ua = i64_bits(a);
    let ub = i64_bits(b);
    if ub == 0 {
        return Err(Trap::DivisionByZero);
    }
    Ok(u64_signed(ua % ub))
}

/// The bit length of a number: how many binary digits it takes.
pub open spec fn spec_bitlen(x: nat) -> nat
    decreases x,
{
    if x == 0 {
        0
    } else {
        1 + spec_bitlen(x / 2)
    }
}

/// The count of one bits of a number.
pub open spec fn spec_popcnt(x: nat) -> nat
    decreases x,
{
    if x == 0 {
        0
    } else {
        x % 2 + spec_popcnt(x / 2)
    }
}

/// The count of trailing zero bits, up to the width `w`.
pub open spec fn spec_ctz(x: nat, w: nat) -> nat
    decreases w,
{
    if w == 0 || x % 2 == 1 {
        0
    } else if x == 0 {
        w
    } else {
        1 + spec_ctz(x / 2, (w - 1) as nat)
    }
}

/// The bit length, computed by repeated halving.
pub fn bitlen_u64(x: u64) -> (r: u32)
    ensures
        r == spec_bitlen(x as nat),
        r <= 64,
{
    let mut v = x;
    let mut n: u32 = 0;
    proof {
        lemma_bitlen_bound(x as nat);
    }
    while v != 0
        invariant
            n + spec_bitlen(v as nat) == spec_bitlen(x as nat),
            spec_bitlen(x as nat) <= 64,
            n <= 64,
        decreases v,
    {
        proof {
            lemma_bitlen_bound(x as nat);
        }
        v = v / 2;
        n = n + 1;
    }
    n
}

/// A number below a power of two has at most that many binary digits.
proof fn lemma_bitlen_le(x: nat, k: nat)
    requires
        x < pow2(k),
    ensures
        spec_bitlen(x) <= k,
    decreases x,
{
    if x > 0 {
        if k == 0 {
            assert(pow2(0) == 1) by {
                lemma2_to64();
            }
        }
        assert(pow2(k) == 2 * pow2((k - 1) as nat)) by {
            vstd::arithmetic::power2::lemma_pow2_unfold(k);
        }
        assert(x / 2 < pow2((k - 1) as nat)) by (nonlinear_arith)
            requires
                x < 2 * pow2((k - 1) as nat),
        ;
        assert(x / 2 < x) by (nonlinear_arith)
            requires
                x >= 1,
        ;
        lemma_bitlen_le(x / 2, (k - 1) as nat);
    }
}

/// A 64-bit number has at most 64 binary digits.
pub proof fn lemma_bitlen_bound(x: nat)
    ensures
        x < 0x1_0000_0000_0000_0000 ==> spec_bitlen(x) <= 64,
        x < 0x1_0000_0000 ==> spec_bitlen(x) <= 32,
{
    lemma2_to64();
    if x < 0x1_0000_0000 {
        lemma_bitlen_le(x, 32);
    }
    if x < 0x1_0000_0000_0000_0000 {
        lemma_bitlen_le(x, 64);
    }
}

/// The one-bit count, computed by repeated halving.
pub fn popcnt_u64(x: u64) -> (r: u32)
    ensures
        r == spec_popcnt(x as nat),
{
    let mut v = x;
    let mut n: u32 = 0;
    proof {
        lemma_popcnt_bound(x as nat);
        lemma_bitlen_bound(x as nat);
    }
    while v != 0
        invariant
            n + spec_popcnt(v as nat) == spec_popcnt(x as nat),
            spec_popcnt(x as nat) <= 64,
        decreases v,
    {
        n = n + (v % 2) as u32;
        v = v / 2;
    }
    n
}

/// The one-bit count never exceeds the bit length.
proof fn lemma_popcnt_bound(x: nat)
    ensures
        spec_popcnt(x) <= spec_bitlen(x),
    decreases x,
{
    if x > 0 {
        lemma_popcnt_bound(x / 2);
    }
}

/// The trailing-zero count, computed by repeated halving.
pub fn ctz_u64(x: u64, width: u32) -> (r: u32)
    requires
        width <= 64,
    ensures
        r == spec_ctz(x as nat, width as nat),
        r <= width,
{
    let mut v = x;
    let mut w = width;
    let mut n: u32 = 0;
    while w != 0 && v % 2 == 0 && v != 0
        invariant
            w <= width <= 64,
            n + spec_ctz(v as nat, w as nat) == spec_ctz(x as nat, width as nat),
            n <= width - w,
        decreases w,
    {
        v = v / 2;
        w = w - 1;
        n = n + 1;
    }
    if v == 0 {
        n + w
    } else {
        n
    }
}

} // verus!
