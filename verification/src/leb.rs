//! LEB128 variable-length integers, the primitive of the binary format.
//!
//! Each number is decoded and encoded against a specification-level grammar:
//! an unsigned number is a little-endian sequence of 7-bit digits, a signed
//! number the two's-complement variant. Decoding accepts non-minimal
//! (padded) encodings up to the per-type byte limit, as the format allows;
//! encoding always produces the minimal form, and a proved lemma says that
//! decoding an encoded value yields the value back and consumes exactly the
//! encoded bytes.

use vstd::prelude::*;
use vstd::arithmetic::div_mod::{lemma_fundamental_div_mod, lemma_fundamental_div_mod_converse};

verus! {

/// Value and end position of the unsigned LEB128 number at `pos`, reading
/// at most `max` bytes, or `None` if the bytes are exhausted first.
pub open spec fn spec_decode_unsigned(s: Seq<u8>, pos: int, max: nat) -> Option<(nat, int)>
    decreases max,
{
    if pos < 0 || pos >= s.len() || max == 0 {
        None
    } else {
        let b = s[pos];
        if b < 0x80 {
            Some((b as nat, pos + 1))
        } else {
            match spec_decode_unsigned(s, pos + 1, (max - 1) as nat) {
                Some((v, end)) => Some(((b - 0x80) as nat + 128 * v, end)),
                None => None,
            }
        }
    }
}

/// Value and end position of the signed LEB128 number at `pos`, reading at
/// most `max` bytes. Bit 6 of the final byte is the sign.
pub open spec fn spec_decode_signed(s: Seq<u8>, pos: int, max: nat) -> Option<(int, int)>
    decreases max,
{
    if pos < 0 || pos >= s.len() || max == 0 {
        None
    } else {
        let b = s[pos];
        if b < 0x80 {
            if b >= 0x40 {
                Some((b as int - 128, pos + 1))
            } else {
                Some((b as int, pos + 1))
            }
        } else {
            match spec_decode_signed(s, pos + 1, (max - 1) as nat) {
                Some((v, end)) => Some(((b - 0x80) as int + 128 * v, end)),
                None => None,
            }
        }
    }
}

/// Minimal unsigned LEB128 encoding of `v`.
pub open spec fn spec_encode_unsigned(v: nat) -> Seq<u8>
    decreases v,
{
    if v < 128 {
        seq![v as u8]
    } else {
        seq![(v % 128 + 128) as u8] + spec_encode_unsigned(v / 128)
    }
}

/// Minimal signed LEB128 encoding of `v`.
pub open spec fn spec_encode_signed(v: int) -> Seq<u8>
    decreases (if v < 0 { -v } else { v }),
{
    if -64 <= v < 64 {
        if v >= 0 {
            seq![v as u8]
        } else {
            seq![(v + 128) as u8]
        }
    } else {
        seq![(v % 128 + 128) as u8] + spec_encode_signed(v / 128)
    }
}

/// A 32-bit unsigned number: at most 5 bytes, value under 2^32.
pub open spec fn spec_decode_u32(s: Seq<u8>, pos: int) -> Option<(u32, int)> {
    match spec_decode_unsigned(s, pos, 5) {
        Some((v, end)) => if v < 0x1_0000_0000 {
            Some((v as u32, end))
        } else {
            None
        },
        None => None,
    }
}

/// A 32-bit signed number: at most 5 bytes, value in the `i32` range.
pub open spec fn spec_decode_i32(s: Seq<u8>, pos: int) -> Option<(i32, int)> {
    match spec_decode_signed(s, pos, 5) {
        Some((v, end)) => if -0x8000_0000 <= v < 0x8000_0000 {
            Some((v as i32, end))
        } else {
            None
        },
        None => None,
    }
}

/// A 64-bit signed number: at most 10 bytes, value in the `i64` range.
pub open spec fn spec_decode_i64(s: Seq<u8>, pos: int) -> Option<(i64, int)> {
    match spec_decode_signed(s, pos, 10) {
        Some((v, end)) => if -0x8000_0000_0000_0000 <= v < 0x8000_0000_0000_0000 {
            Some((v as i64, end))
        } else {
            None
        },
        None => None,
    }
}

/// 128 to the `k`-th power: the count of values that `k` unsigned digits
/// can carry.
pub open spec fn pow128(k: nat) -> nat
    decreases k,
{
    if k == 0 {
        1
    } else {
        128 * pow128((k - 1) as nat)
    }
}

/// A value below `128^k` encodes in at most `k` unsigned digits.
proof fn lemma_unsigned_len_k(v: nat, k: nat)
    requires
        1 <= k,
        v < pow128(k),
    ensures
        spec_encode_unsigned(v).len() <= k,
    decreases v,
{
    if v >= 128 {
        assert(pow128(k) == 128 * pow128((k - 1) as nat));
        if k == 1 {
            assert(pow128(1nat) == 128);
        }
        assert(v / 128 < pow128((k - 1) as nat)) by (nonlinear_arith)
            requires
                v < 128 * pow128((k - 1) as nat),
        ;
        assert(v / 128 < v) by (nonlinear_arith)
            requires
                v >= 128,
        ;
        lemma_unsigned_len_k(v / 128, (k - 1) as nat);
    }
}

/// A value in the symmetric range of `k` signed digits encodes in at most
/// `k` of them.
pub proof fn lemma_signed_len_k(v: int, k: nat)
    requires
        1 <= k,
        -64 * pow128((k - 1) as nat) <= v < 64 * pow128((k - 1) as nat),
    ensures
        spec_encode_signed(v).len() <= k,
    decreases (if v < 0 { -v } else { v }),
{
    if !(-64 <= v < 64) {
        if k == 1 {
            assert(pow128(0nat) == 1);
        }
        let p = pow128((k - 2) as nat);
        assert(pow128((k - 1) as nat) == 128 * p);
        assert(-64 * (128 * p) <= v < 64 * (128 * p));
        assert(-64 * p <= v / 128 < 64 * p) by (nonlinear_arith)
            requires
                p >= 1,
                -64 * (128 * p) <= v < 64 * (128 * p),
        ;
        assert((if v / 128 < 0 { -(v / 128) } else { v / 128 }) < (if v < 0 { -v } else { v }))
            by (nonlinear_arith)
            requires
                v < -64 || v >= 64,
        ;
        lemma_signed_len_k(v / 128, (k - 1) as nat);
    }
}

/// The unsigned encoding of a value below 2^32 is at most 5 bytes long, one
/// below 2^64 at most 10.
pub proof fn lemma_encode_unsigned_len(v: nat)
    ensures
        1 <= spec_encode_unsigned(v).len(),
        v < 0x80 ==> spec_encode_unsigned(v).len() == 1,
        v < 0x1_0000_0000 ==> spec_encode_unsigned(v).len() <= 5,
        v < 0x1_0000_0000_0000_0000 ==> spec_encode_unsigned(v).len() <= 10,
{
    assert(pow128(5nat) == 0x8_0000_0000 && pow128(10nat) == 0x40_0000_0000_0000_0000) by {
        reveal_with_fuel(pow128, 11);
    }
    if v < 0x1_0000_0000 {
        lemma_unsigned_len_k(v, 5);
    }
    if v < 0x1_0000_0000_0000_0000 {
        lemma_unsigned_len_k(v, 10);
    }
}

/// The signed encoding of a value in the `i32` range is at most 5 bytes
/// long, one in the `i64` range at most 10.
pub proof fn lemma_encode_signed_len(v: int)
    ensures
        1 <= spec_encode_signed(v).len(),
        -0x8000_0000 <= v < 0x8000_0000 ==> spec_encode_signed(v).len() <= 5,
        -0x8000_0000_0000_0000 <= v < 0x8000_0000_0000_0000 ==> spec_encode_signed(v).len()
            <= 10,
{
    assert(pow128(4nat) == 0x1000_0000 && pow128(9nat) == 0x8000_0000_0000_0000) by {
        reveal_with_fuel(pow128, 11);
    }
    if -0x8000_0000 <= v < 0x8000_0000 {
        lemma_signed_len_k(v, 5);
    }
    if -0x8000_0000_0000_0000 <= v < 0x8000_0000_0000_0000 {
        lemma_signed_len_k(v, 10);
    }
}

/// Decoding an unsigned encoding embedded in a larger byte sequence yields
/// the encoded value and stops right after it.
pub proof fn lemma_unsigned_round_trip(s: Seq<u8>, pos: int, v: nat, max: nat)
    requires
        0 <= pos,
        pos + spec_encode_unsigned(v).len() <= s.len(),
        s.subrange(pos, pos + spec_encode_unsigned(v).len() as int) == spec_encode_unsigned(v),
        spec_encode_unsigned(v).len() <= max,
    ensures
        spec_decode_unsigned(s, pos, max) == Some(
            (v, pos + spec_encode_unsigned(v).len() as int),
        ),
    decreases v,
{
    let enc = spec_encode_unsigned(v);
    assert(s[pos] == s.subrange(pos, pos + enc.len() as int)[0]);
    if v < 128 {
        assert(s[pos] == v as u8);
    } else {
        let rest = spec_encode_unsigned(v / 128);
        assert(s[pos] == (v % 128 + 128) as u8);
        assert(s.subrange(pos + 1, pos + 1 + rest.len() as int) == rest) by {
            assert forall|i: int| 0 <= i < rest.len() implies s[pos + 1 + i] == rest[i] by {
                assert(s.subrange(pos, pos + enc.len() as int)[1 + i] == rest[i]);
            }
            assert(s.subrange(pos + 1, pos + 1 + rest.len() as int) =~= rest);
        }
        lemma_unsigned_round_trip(s, pos + 1, v / 128, (max - 1) as nat);
        assert(((v % 128 + 128) as u8 - 0x80) as nat + 128 * (v / 128) == v);
    }
}

/// Decoding a signed encoding embedded in a larger byte sequence yields the
/// encoded value and stops right after it.
pub proof fn lemma_signed_round_trip(s: Seq<u8>, pos: int, v: int, max: nat)
    requires
        0 <= pos,
        pos + spec_encode_signed(v).len() <= s.len(),
        s.subrange(pos, pos + spec_encode_signed(v).len() as int) == spec_encode_signed(v),
        spec_encode_signed(v).len() <= max,
    ensures
        spec_decode_signed(s, pos, max) == Some((v, pos + spec_encode_signed(v).len() as int)),
    decreases (if v < 0 { -v } else { v }),
{
    let enc = spec_encode_signed(v);
    assert(s[pos] == s.subrange(pos, pos + enc.len() as int)[0]);
    if -64 <= v < 64 {
        if v >= 0 {
            assert(s[pos] == v as u8);
        } else {
            assert(s[pos] == (v + 128) as u8);
            assert(0x40 <= s[pos] < 0x80);
            assert(s[pos] as int - 128 == v);
        }
    } else {
        let rest = spec_encode_signed(v / 128);
        assert(s[pos] == (v % 128 + 128) as u8);
        assert(s[pos] >= 0x80);
        assert(s.subrange(pos + 1, pos + 1 + rest.len() as int) == rest) by {
            assert forall|i: int| 0 <= i < rest.len() implies s[pos + 1 + i] == rest[i] by {
                assert(s.subrange(pos, pos + enc.len() as int)[1 + i] == rest[i]);
            }
            assert(s.subrange(pos + 1, pos + 1 + rest.len() as int) =~= rest);
        }
        lemma_signed_round_trip(s, pos + 1, v / 128, (max - 1) as nat);
        assert(((v % 128 + 128) as u8 - 0x80) as int + 128 * (v / 128) == v);
    }
}

/// A decoded unsigned number consumes at least one byte and ends inside
/// the sequence.
pub proof fn lemma_unsigned_advances(s: Seq<u8>, pos: int, max: nat)
    ensures
        spec_decode_unsigned(s, pos, max) matches Some((_, end)) ==> pos < end <= s.len(),
    decreases max,
{
    if 0 <= pos < s.len() && max > 0 && s[pos] >= 0x80 {
        lemma_unsigned_advances(s, pos + 1, (max - 1) as nat);
    }
}

/// A decoded signed number consumes at least one byte and ends inside the
/// sequence.
pub proof fn lemma_signed_advances(s: Seq<u8>, pos: int, max: nat)
    ensures
        spec_decode_signed(s, pos, max) matches Some((_, end)) ==> pos < end <= s.len(),
    decreases max,
{
    if 0 <= pos < s.len() && max > 0 && s[pos] >= 0x80 {
        lemma_signed_advances(s, pos + 1, (max - 1) as nat);
    }
}

/// Reads the unsigned number at `pos`, reporting, besides truncation, a
/// value that does not fit in 64 bits as a failure.
fn decode_unsigned(s: &[u8], pos: usize, max: usize) -> (r: Option<(u64, usize)>)
    ensures
        match spec_decode_unsigned(s@, pos as int, max as nat) {
            Some((v, end)) => pos < end <= s@.len() && (if v < 0x1_0000_0000_0000_0000 {
                r == Some((v as u64, end as usize))
            } else {
                r is None
            }),
            None => r is None,
        },
    decreases max,
{
    proof {
        lemma_unsigned_advances(s@, pos as int, max as nat);
    }
    if pos >= s.len() || max == 0 {
        return None;
    }
    let b = s[pos];
    if b < 0x80 {
        Some((b as u64, pos + 1))
    } else {
        match decode_unsigned(s, pos + 1, max - 1) {
            Some((v, end)) => {
                let low = (b - 0x80) as u64;
                if v <= (u64::MAX - low) / 128 {
                    proof {
                        assert(low + 128 * v <= u64::MAX) by (nonlinear_arith)
                            requires
                                low < 128,
                                v <= (u64::MAX - low) / 128,
                        ;
                    }
                    Some((low + 128 * v, end))
                } else {
                    proof {
                        let iv = spec_decode_unsigned(s@, pos as int + 1, (max - 1) as nat)
                            ->Some_0.0;
                        assert(low as nat + 128 * iv > u64::MAX) by (nonlinear_arith)
                            requires
                                iv > (u64::MAX - low) / 128,
                                low < 128,
                        ;
                    }
                    None
                }
            },
            None => {
                proof {
                    let inner = spec_decode_unsigned(s@, pos as int + 1, (max - 1) as nat);
                    if inner is Some {
                        let iv = inner->Some_0.0;
                        assert((b - 0x80) as nat + 128 * iv >= 0x1_0000_0000_0000_0000)
                            by (nonlinear_arith)
                            requires
                                iv >= 0x1_0000_0000_0000_0000,
                        ;
                    }
                }
                None
            },
        }
    }
}

/// Reads the signed number at `pos`, reporting, besides truncation, a value
/// outside the `i64` range as a failure.
pub fn decode_signed(s: &[u8], pos: usize, max: usize) -> (r: Option<(i64, usize)>)
    ensures
        match spec_decode_signed(s@, pos as int, max as nat) {
            Some((v, end)) => pos < end <= s@.len() && (if i64::MIN <= v <= i64::MAX {
                r matches Some(p) && p.0 as int == v && p.1 == end
            } else {
                r is None
            }),
            None => r is None,
        },
    decreases max,
{
    proof {
        lemma_signed_advances(s@, pos as int, max as nat);
    }
    if pos >= s.len() || max == 0 {
        return None;
    }
    let b = s[pos];
    if b < 0x80 {
        if b >= 0x40 {
            Some((b as i64 - 128, pos + 1))
        } else {
            Some((b as i64, pos + 1))
        }
    } else {
        let inner = decode_signed(s, pos + 1, max - 1);
        let ghost ispec = spec_decode_signed(s@, pos as int + 1, (max - 1) as nat);
        let low = (b - 0x80) as u64;
        match inner {
            Some((v, end)) => {
                if v >= 0 {
                    let u = v as u64;
                    if u <= ((i64::MAX as u64) - low) / 128 {
                        proof {
                            assert(low + 128 * u <= i64::MAX) by (nonlinear_arith)
                                requires
                                    low < 128,
                                    u <= ((i64::MAX as u64) - low) / 128,
                            ;
                        }
                        Some(((low + 128 * u) as i64, end))
                    } else {
                        proof {
                            assert(low as int + 128 * (u as int) > i64::MAX) by (nonlinear_arith)
                                requires
                                    low < 128,
                                    u > ((i64::MAX as u64) - low) / 128,
                            ;
                        }
                        None
                    }
                } else {
                    // value = low - 128 * (w + 1) where w = -(v + 1) >= 0
                    let w = (-(v + 1)) as u64;
                    if w <= ((0x8000_0000_0000_0000u64) - (128 - low)) / 128 {
                        // magnitude t = 128 * w + (128 - low) <= 2^63
                        let t = 128 * w + (128 - low);
                        proof {
                            assert(128 * w + (128 - low) <= 0x8000_0000_0000_0000u64)
                                by (nonlinear_arith)
                                requires
                                    low < 128,
                                    w <= ((0x8000_0000_0000_0000u64) - (128 - low)) / 128,
                            ;
                        }
                        let r = -((t - 1) as i64) - 1;
                        proof {
                            assert(r as int == low as int + 128 * (v as int));
                        }
                        Some((r, end))
                    } else {
                        proof {
                            assert(low as int + 128 * (v as int) < i64::MIN) by (nonlinear_arith)
                                requires
                                    low < 128,
                                    v as int == -1 - (w as int),
                                    w > ((0x8000_0000_0000_0000u64) - (128 - low)) / 128,
                            ;
                        }
                        None
                    }
                }
            },
            None => {
                proof {
                    if ispec is Some {
                        let iv = ispec->Some_0.0;
                        assert(low as int + 128 * iv > i64::MAX || low as int + 128 * iv
                            < i64::MIN) by (nonlinear_arith)
                            requires
                                low < 128,
                                iv > i64::MAX || iv < i64::MIN,
                        ;
                    }
                }
                None
            },
        }
    }
}

/// Reads the 32-bit unsigned number at `pos`.
pub fn decode_u32(s: &[u8], pos: usize) -> (r: Option<(u32, usize)>)
    ensures
        match spec_decode_u32(s@, pos as int) {
            Some((v, end)) => pos < end <= s@.len() && r == Some((v, end as usize)),
            None => r is None,
        },
{
    match decode_unsigned(s, pos, 5) {
        Some((v, end)) => if v < 0x1_0000_0000 {
            Some((v as u32, end))
        } else {
            None
        },
        None => None,
    }
}

/// Reads the 32-bit signed number at `pos`.
pub fn decode_i32(s: &[u8], pos: usize) -> (r: Option<(i32, usize)>)
    ensures
        match spec_decode_i32(s@, pos as int) {
            Some((v, end)) => pos < end <= s@.len() && r == Some((v, end as usize)),
            None => r is None,
        },
{
    match decode_signed(s, pos, 5) {
        Some((v, end)) => if -0x8000_0000 <= v && v < 0x8000_0000 {
            Some((v as i32, end))
        } else {
            None
        },
        None => None,
    }
}

/// Reads the 64-bit signed number at `pos`.
pub fn decode_i64(s: &[u8], pos: usize) -> (r: Option<(i64, usize)>)
    ensures
        match spec_decode_i64(s@, pos as int) {
            Some((v, end)) => pos < end <= s@.len() && r == Some((v, end as usize)),
            None => r is None,
        },
{
    decode_signed(s, pos, 10)
}

/// Appends the minimal unsigned encoding of `v` to `out`.
pub fn encode_u32(v: u32, out: &mut Vec<u8>)
    ensures
        final(out)@ == old(out)@ + spec_encode_unsigned(v as nat),
{
    let mut x: u32 = v;
    loop
        invariant
            old(out)@ + spec_encode_unsigned(v as nat) == out@ + spec_encode_unsigned(x as nat),
        decreases x,
    {
        if x < 0x80 {
            out.push(x as u8);
            proof {
                assert(out@ =~= old(out)@ + spec_encode_unsigned(v as nat));
            }
            return ;
        } else {
            let ghost pre = out@;
            out.push((x % 0x80 + 0x80) as u8);
            proof {
                assert(x / 0x80 < x) by (nonlinear_arith)
                    requires
                        x >= 0x80,
                ;
                assert(pre + spec_encode_unsigned(x as nat) =~= out@ + spec_encode_unsigned(
                    (x / 0x80) as nat,
                ));
                assert(old(out)@ + spec_encode_unsigned(v as nat) =~= out@ + spec_encode_unsigned(
                    (x / 0x80) as nat,
                ));
            }
            x = x / 0x80;
        }
    }
}

/// The Euclidean digit decomposition of a negative value `-1 - m`: the low
/// seven bits are `127 - m % 128` and the floor quotient is `-1 - m / 128`.
proof fn lemma_negative_digit(m: nat)
    ensures
        (-1 - m) % 128 == 127 - m % 128,
        (-1 - m) / 128 == -1 - m / 128,
{
    lemma_fundamental_div_mod(m as int, 128);
    lemma_fundamental_div_mod_converse(-1 - m, 128, -1 - m / 128, 127 - (m % 128));
}

/// Appends the minimal signed encoding of `v` to `out`.
pub fn encode_i64(v: i64, out: &mut Vec<u8>)
    ensures
        final(out)@ == old(out)@ + spec_encode_signed(v as int),
{
    if v >= 0 {
        let mut x: u64 = v as u64;
        loop
            invariant
                old(out)@ + spec_encode_signed(v as int) == out@ + spec_encode_signed(x as int),
            decreases x,
        {
            if x < 0x40 {
                out.push(x as u8);
                proof {
                    assert(out@ =~= old(out)@ + spec_encode_signed(v as int));
                }
                return ;
            } else {
                let ghost pre = out@;
                out.push((x % 0x80 + 0x80) as u8);
                proof {
                    assert(x / 0x80 < x) by (nonlinear_arith)
                        requires
                            x >= 0x40,
                    ;
                    assert(pre + spec_encode_signed(x as int) =~= out@ + spec_encode_signed(
                        (x / 0x80) as int,
                    ));
                    assert(old(out)@ + spec_encode_signed(v as int) =~= out@ + spec_encode_signed(
                        (x / 0x80) as int,
                    ));
                }
                x = x / 0x80;
            }
        }
    } else {
        // v == -1 - m; track the magnitude m in unsigned arithmetic
        let mut m: u64 = (-(v + 1)) as u64;
        loop
            invariant
                old(out)@ + spec_encode_signed(v as int) == out@ + spec_encode_signed(
                    -1 - m as int,
                ),
            decreases m,
        {
            if m < 0x40 {
                out.push((127 - (m as u8)) as u8);
                proof {
                    assert((-1 - m as int) + 128 == 127 - m as int);
                    assert(out@ =~= old(out)@ + spec_encode_signed(v as int));
                }
                return ;
            } else {
                let ghost pre = out@;
                out.push((255 - (m % 0x80) as u8) as u8);
                proof {
                    lemma_negative_digit(m as nat);
                    assert((-1 - m as int) % 128 + 128 == 255 - (m as int) % 128);
                    assert(m / 0x80 < m) by (nonlinear_arith)
                        requires
                            m >= 0x40,
                    ;
                    assert(pre + spec_encode_signed(-1 - m as int) =~= out@ + spec_encode_signed(
                        -1 - (m / 0x80) as int,
                    ));
                    assert(old(out)@ + spec_encode_signed(v as int) =~= out@ + spec_encode_signed(
                        -1 - (m / 0x80) as int,
                    ));
                }
                m = m / 0x80;
            }
        }
    }
}

/// Appends the minimal signed encoding of `v` to `out`.
pub fn encode_i32(v: i32, out: &mut Vec<u8>)
    ensures
        final(out)@ == old(out)@ + spec_encode_signed(v as int),
{
    encode_i64(v as i64, out);
}

} // verus!
