use vstd::prelude::*;

verus! {

/// The flag byte with Z (bit 7), N (bit 6), H (bit 5) and C (bit 4).
pub open spec fn mk_flags(z: bool, n: bool, h: bool, c: bool) -> u8 {
    (if z {
        0x80u8
    } else {
        0u8
    }) | (if n {
        0x40u8
    } else {
        0u8
    }) | (if h {
        0x20u8
    } else {
        0u8
    }) | (if c {
        0x10u8
    } else {
        0u8
    })
}

pub open spec fn zf(f: u8) -> bool {
    f & 0x80 != 0
}

pub open spec fn nf(f: u8) -> bool {
    f & 0x40 != 0
}

pub open spec fn hf(f: u8) -> bool {
    f & 0x20 != 0
}

pub open spec fn cf(f: u8) -> bool {
    f & 0x10 != 0
}

pub open spec fn bit_val(b: bool) -> int {
    if b {
        1
    } else {
        0
    }
}

/// The flags read back as they were packed; the low nibble is zero.
pub proof fn lemma_mk_flags(z: bool, n: bool, h: bool, c: bool)
    ensures
        zf(mk_flags(z, n, h, c)) == z,
        nf(mk_flags(z, n, h, c)) == n,
        hf(mk_flags(z, n, h, c)) == h,
        cf(mk_flags(z, n, h, c)) == c,
        mk_flags(z, n, h, c) & 0x0F == 0,
{
    let zb: u8 = if z { 0x80 } else { 0 };
    let nb: u8 = if n { 0x40 } else { 0 };
    let hb: u8 = if h { 0x20 } else { 0 };
    let cb: u8 = if c { 0x10 } else { 0 };
    assert({
        let f = zb | nb | hb | cb;
        &&& (f & 0x80 != 0) == (zb != 0)
        &&& (f & 0x40 != 0) == (nb != 0)
        &&& (f & 0x20 != 0) == (hb != 0)
        &&& (f & 0x10 != 0) == (cb != 0)
        &&& f & 0x0F == 0
    }) by (bit_vector)
        requires
            zb == 0x80 || zb == 0,
            nb == 0x40 || nb == 0,
            hb == 0x20 || hb == 0,
            cb == 0x10 || cb == 0,
    ;
}

/// ADD / ADC: result and flags of `a + v + cin`.
pub open spec fn add8(a: u8, v: u8, cin: bool) -> (u8, u8) {
    let sum = a + v + bit_val(cin);
    let r = (sum % 256) as u8;
    (r, mk_flags(r == 0, false, a % 16 + v % 16 + bit_val(cin) > 15, sum > 255))
}

/// SUB / SBC / CP: result and flags of `a - v - cin`.
pub open spec fn sub8(a: u8, v: u8, cin: bool) -> (u8, u8) {
    let r = ((a - v - bit_val(cin) + 512) % 256) as u8;
    (r, mk_flags(r == 0, true, a % 16 < v % 16 + bit_val(cin), a < v + bit_val(cin)))
}

/// The eight accumulator operations by their opcode field:
/// ADD, ADC, SUB, SBC, AND, XOR, OR, CP. Yields the new A and F.
pub open spec fn alu(op: u8, a: u8, v: u8, f: u8) -> (u8, u8) {
    if op == 0 {
        add8(a, v, false)
    } else if op == 1 {
        add8(a, v, cf(f))
    } else if op == 2 {
        sub8(a, v, false)
    } else if op == 3 {
        sub8(a, v, cf(f))
    } else if op == 4 {
        (a & v, mk_flags(a & v == 0, false, true, false))
    } else if op == 5 {
        (a ^ v, mk_flags(a ^ v == 0, false, false, false))
    } else if op == 6 {
        (a | v, mk_flags(a | v == 0, false, false, false))
    } else {
        (a, sub8(a, v, false).1)
    }
}

pub open spec fn inc8(x: u8, f: u8) -> (u8, u8) {
    let r = ((x + 1) % 256) as u8;
    (r, mk_flags(r == 0, false, x % 16 == 15, cf(f)))
}

pub open spec fn dec8(x: u8, f: u8) -> (u8, u8) {
    let r = ((x + 255) % 256) as u8;
    (r, mk_flags(r == 0, true, x % 16 == 0, cf(f)))
}

/// Result of the CB rotate / shift selected by `op`:
/// RLC, RRC, RL, RR, SLA, SRA, SWAP, SRL (`carry` is the incoming C flag).
pub open spec fn shift_result(op: u8, x: u8, carry: bool) -> u8 {
    if op == 0 {
        ((x * 2) % 256 + x / 128) as u8
    } else if op == 1 {
        (x / 2 + (x % 2) * 128) as u8
    } else if op == 2 {
        ((x * 2) % 256 + bit_val(carry)) as u8
    } else if op == 3 {
        (x / 2 + bit_val(carry) * 128) as u8
    } else if op == 4 {
        ((x * 2) % 256) as u8
    } else if op == 5 {
        (x / 2 + (x / 128) * 128) as u8
    } else if op == 6 {
        ((x % 16) * 16 + x / 16) as u8
    } else {
        (x / 2) as u8
    }
}

/// Carry out of the CB rotate / shift selected by `op`.
pub open spec fn shift_carry(op: u8, x: u8) -> bool {
    if op == 0 || op == 2 || op == 4 {
        x >= 128
    } else if op == 6 {
        false
    } else {
        x % 2 == 1
    }
}

/// Result and flags of a CB rotate / shift: Z from the result, N = H = 0.
pub open spec fn shift8(op: u8, x: u8, f: u8) -> (u8, u8) {
    let r = shift_result(op, x, cf(f));
    (r, mk_flags(r == 0, false, false, shift_carry(op, x)))
}

/// DAA: decimal adjustment of A after a BCD addition or subtraction.
pub open spec fn daa8(a: u8, f: u8) -> (u8, u8) {
    if !nf(f) {
        let lo = hf(f) || a % 16 > 9;
        let hi = cf(f) || a > 0x99;
        let corr = (if lo { 6int } else { 0 }) + (if hi { 0x60int } else { 0 });
        let r = ((a + corr) % 256) as u8;
        (r, mk_flags(r == 0, false, false, hi))
    } else {
        let corr = (if hf(f) { 6int } else { 0 }) + (if cf(f) { 0x60int } else { 0 });
        let r = ((a - corr + 256) % 256) as u8;
        (r, mk_flags(r == 0, true, false, cf(f)))
    }
}

/// SWAP is its own inverse.
pub proof fn lemma_swap_swap(x: u8)
    ensures
        shift_result(6, shift_result(6, x, false), false) == x,
{
    let y = ((x % 16) * 16 + x / 16) as u8;
    assert(y == (x % 16) * 16 + x / 16 && ((y % 16) * 16 + y / 16) as u8 == x) by (bit_vector)
        requires
            y == ((x % 16) * 16 + x / 16) as u8,
    ;
}

/// RLC undoes RRC, whatever the incoming carry.
pub proof fn lemma_rlc_rrc(x: u8, c1: bool, c2: bool)
    ensures
        shift_result(0, shift_result(1, x, c1), c2) == x,
{
    let y = (x / 2 + (x % 2) * 128) as u8;
    assert(y == x / 2 + (x % 2) * 128 && ((y * 2) % 256 + y / 128) as u8 == x) by (bit_vector)
        requires
            y == (x / 2 + (x % 2) * 128) as u8,
    ;
}

} // verus!
