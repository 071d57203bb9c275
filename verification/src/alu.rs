use vstd::prelude::*;

use crate::types::Size;
use crate::types::masked;
use crate::types::sign_of;
use crate::types::mask_to;

verus! {

/// Result of an arithmetic operation: the value truncated to the operand
/// size, the carry (or borrow) out, and the signed overflow indication.
#[derive(Clone, Copy, Debug, PartialEq, Eq, Structural)]
pub struct AluOut {
    pub value: u32,
    pub carry: bool,
    pub overflow: bool,
}

/// The untruncated sum entering an addition: both operands at size, plus the
/// carry-in.
pub open spec fn add_total(a: u32, b: u32, cin: bool, s: Size) -> int {
    masked(a, s) + masked(b, s) + if cin {
        1int
    } else {
        0int
    }
}

fn modulus64(s: Size) -> (r: u64)
    ensures
        r == s.modulus(),
{
    match s {
        Size::Byte => 0x100,
        Size::Word => 0x10000,
        Size::Long => 0x1_0000_0000,
    }
}

/// The addition outcome as a value: the wrapped sum, the carry out, and the
/// signed-overflow indication.
pub open spec fn spec_alu_add(a: u32, b: u32, cin: bool, s: Size) -> AluOut {
    let value = (add_total(a, b, cin, s) % s.modulus()) as u32;
    AluOut {
        value,
        carry: add_total(a, b, cin, s) >= s.modulus(),
        overflow: sign_of(a, s) == sign_of(b, s) && sign_of(value, s) != sign_of(a, s),
    }
}

/// Binary addition at a size: the value wraps at the size's modulus, carry
/// reports the wrap, and overflow reports a signed result of the wrong sign
/// (both operands of one sign, the result of the other).
pub fn alu_add(a: u32, b: u32, cin: bool, s: Size) -> (r: AluOut)
    ensures
        r == spec_alu_add(a, b, cin, s),
        r.value == add_total(a, b, cin, s) % s.modulus(),
        r.carry == (add_total(a, b, cin, s) >= s.modulus()),
        r.overflow == (sign_of(a, s) == sign_of(b, s) && sign_of(r.value, s) != sign_of(a, s)),
        r.value == masked(r.value, s),
{
    let m = modulus64(s);
    let t: u64 = mask_to(a, s) as u64 + mask_to(b, s) as u64 + if cin {
        1
    } else {
        0
    };
    let value = (t % m) as u32;
    proof {
        vstd::arithmetic::div_mod::lemma_small_mod((t % m) as nat, s.modulus() as nat);
    }
    let carry = t >= m;
    let overflow = sign_bit_exec(a, s) == sign_bit_exec(b, s) && sign_bit_exec(value, s)
        != sign_bit_exec(a, s);
    AluOut { value, carry, overflow }
}

/// The untruncated difference entering a subtraction (destination minus
/// source minus borrow-in), offset by one modulus so it is never negative.
pub open spec fn sub_total(dst: u32, src: u32, bin: bool, s: Size) -> int {
    s.modulus() + masked(dst, s) - masked(src, s) - if bin {
        1int
    } else {
        0int
    }
}

/// The subtraction outcome as a value: the wrapped difference, the borrow,
/// and the signed-overflow indication.
pub open spec fn spec_alu_sub(dst: u32, src: u32, bin: bool, s: Size) -> AluOut {
    let value = (sub_total(dst, src, bin, s) % s.modulus()) as u32;
    AluOut {
        value,
        carry: sub_total(dst, src, bin, s) < s.modulus(),
        overflow: sign_of(dst, s) != sign_of(src, s) && sign_of(value, s) != sign_of(dst, s),
    }
}

/// Binary subtraction at a size: the value wraps at the size's modulus,
/// carry reports the borrow (source plus borrow-in exceeding the
/// destination), and overflow a signed result of the wrong sign.
pub fn alu_sub(dst: u32, src: u32, bin: bool, s: Size) -> (r: AluOut)
    ensures
        r == spec_alu_sub(dst, src, bin, s),
        r.value == sub_total(dst, src, bin, s) % s.modulus(),
        r.carry == (sub_total(dst, src, bin, s) < s.modulus()),
        r.overflow == (sign_of(dst, s) != sign_of(src, s) && sign_of(r.value, s) != sign_of(
            dst,
            s,
        )),
        r.value == masked(r.value, s),
{
    let m = modulus64(s);
    let t: u64 = m + mask_to(dst, s) as u64 - mask_to(src, s) as u64 - if bin {
        1
    } else {
        0
    };
    let value = (t % m) as u32;
    proof {
        vstd::arithmetic::div_mod::lemma_small_mod((t % m) as nat, s.modulus() as nat);
    }
    let carry = t < m;
    let overflow = sign_bit_exec(dst, s) != sign_bit_exec(src, s) && sign_bit_exec(value, s)
        != sign_bit_exec(dst, s);
    AluOut { value, carry, overflow }
}

fn sign_bit_exec(v: u32, s: Size) -> (r: bool)
    ensures
        r == sign_of(v, s),
{
    crate::types::sign_bit(v, s)
}

/// Bitwise complement at a size: every bit of the low `s` bytes flipped.
pub fn alu_not(v: u32, s: Size) -> (r: u32)
    ensures
        r == s.modulus() - 1 - masked(v, s),
        r == masked(r, s),
{
    let m = modulus64(s);
    ((m - 1) - mask_to(v, s) as u64) as u32
}

/// State threaded through a shift or rotate, one bit position at a time.
#[derive(Clone, Copy, Debug, PartialEq, Eq, Structural)]
pub struct ShiftState {
    /// The operand so far, truncated to the size.
    pub value: u32,
    /// The last bit shifted out; before any step, false - except for a rotate
    /// through extend, which shows the extend flag when the count is zero.
    pub carry: bool,
    /// The extend flag as the operation leaves it.
    pub x: bool,
    /// For arithmetic left shifts: whether the sign bit changed at any step.
    pub overflow: bool,
}

use crate::instr::ShiftKind;

/// One single-bit step of each shift or rotate flavour, on a value already
/// truncated to the size. Left steps shift out the sign bit; right steps the
/// low bit. Arithmetic right keeps the sign; rotates feed the shifted-out bit
/// (plain) or the extend flag (extend form) back in. Arithmetic and logical
/// shifts copy each carry into extend; plain rotate leaves extend alone.
pub open spec fn shift_step(kind: ShiftKind, left: bool, s: Size, st: ShiftState) -> ShiftState {
    let m = s.modulus();
    let half = m / 2;
    let v = st.value;
    if left {
        let out = v >= half;
        let shifted = ((v * 2) % m) as u32;
        match kind {
            ShiftKind::Arith => ShiftState {
                value: shifted,
                carry: out,
                x: out,
                overflow: st.overflow || (sign_of(shifted, s) != sign_of(v, s)),
            },
            ShiftKind::Logical => ShiftState { value: shifted, carry: out, x: out, ..st },
            ShiftKind::RotateX => ShiftState {
                value: (shifted + if st.x {
                    1int
                } else {
                    0int
                }) as u32,
                carry: out,
                x: out,
                ..st
            },
            ShiftKind::Rotate => ShiftState {
                value: (shifted + if out {
                    1int
                } else {
                    0int
                }) as u32,
                carry: out,
                ..st
            },
        }
    } else {
        let out = v % 2 == 1;
        let shifted = v / 2;
        match kind {
            ShiftKind::Arith => ShiftState {
                value: (shifted + if v >= half {
                    half
                } else {
                    0int
                }) as u32,
                carry: out,
                x: out,
                ..st
            },
            ShiftKind::Logical => ShiftState { value: shifted, carry: out, x: out, ..st },
            ShiftKind::RotateX => ShiftState {
                value: (shifted + if st.x {
                    half
                } else {
                    0int
                }) as u32,
                carry: out,
                x: out,
                ..st
            },
            ShiftKind::Rotate => ShiftState {
                value: (shifted + if out {
                    half
                } else {
                    0int
                }) as u32,
                carry: out,
                ..st
            },
        }
    }
}

/// `c` single-bit steps applied after one another.
pub open spec fn shift_iter(kind: ShiftKind, left: bool, s: Size, st: ShiftState, c: nat) -> ShiftState
    decreases c,
{
    if c == 0 {
        st
    } else {
        shift_step(kind, left, s, shift_iter(kind, left, s, st, (c - 1) as nat))
    }
}

/// The state a shift or rotate starts from: the truncated operand, no carry
/// (the extend flag for the extend rotate, which shows X when the count is
/// zero), the current extend flag, and no overflow yet.
pub open spec fn shift_start(kind: ShiftKind, v: u32, s: Size, x: bool) -> ShiftState {
    ShiftState {
        value: masked(v, s),
        carry: if kind is RotateX {
            x
        } else {
            false
        },
        x: x,
        overflow: false,
    }
}

/// Run a shift or rotate of `c` single-bit steps (the step loop is the
/// executable mirror of `shift_iter`).
pub fn alu_shift(kind: ShiftKind, left: bool, s: Size, v: u32, x: bool, c: u32) -> (r: ShiftState)
    requires
        c <= 63,
    ensures
        r == shift_iter(kind, left, s, shift_start(kind, v, s, x), c as nat),
{
    let mut st = ShiftState {
        value: mask_to(v, s),
        carry: if matches!(kind, ShiftKind::RotateX) {
            x
        } else {
            false
        },
        x: x,
        overflow: false,
    };
    assert(st == shift_start(kind, v, s, x));
    let ghost start = st;
    let mut i: u32 = 0;
    while i < c
        invariant
            i <= c,
            st == shift_iter(kind, left, s, start, i as nat),
            st.value == masked(st.value, s),
        decreases c - i,
    {
        st = shift_step_exec(kind, left, s, st);
        i = i + 1;
    }
    st
}

/// Executable single-bit step; mirrors `shift_step` exactly.
#[verifier::rlimit(100)]
fn shift_step_exec(kind: ShiftKind, left: bool, s: Size, st: ShiftState) -> (r: ShiftState)
    requires
        st.value == masked(st.value, s),
    ensures
        r == shift_step(kind, left, s, st),
        r.value == masked(r.value, s),
{
    let m = modulus64(s);
    let half = (m / 2) as u32;
    let v = st.value;
    if left {
        let out = v >= half;
        let shifted = ((v as u64 * 2) % m) as u32;
        match kind {
            ShiftKind::Arith => ShiftState {
                value: shifted,
                carry: out,
                x: out,
                overflow: st.overflow || (sign_bit_exec(shifted, s) != sign_bit_exec(v, s)),
            },
            ShiftKind::Logical => ShiftState { value: shifted, carry: out, x: out, ..st },
            ShiftKind::RotateX => ShiftState {
                value: shifted + if st.x {
                    1
                } else {
                    0
                },
                carry: out,
                x: out,
                ..st
            },
            ShiftKind::Rotate => ShiftState {
                value: shifted + if out {
                    1
                } else {
                    0
                },
                carry: out,
                ..st
            },
        }
    } else {
        let out = v % 2 == 1;
        let shifted = v / 2;
        match kind {
            ShiftKind::Arith => ShiftState {
                value: shifted + if v >= half {
                    half
                } else {
                    0
                },
                carry: out,
                x: out,
                ..st
            },
            ShiftKind::Logical => ShiftState { value: shifted, carry: out, x: out, ..st },
            ShiftKind::RotateX => ShiftState {
                value: shifted + if st.x {
                    half
                } else {
                    0
                },
                carry: out,
                x: out,
                ..st
            },
            ShiftKind::Rotate => ShiftState {
                value: shifted + if out {
                    half
                } else {
                    0
                },
                carry: out,
                ..st
            },
        }
    }
}

} // verus!
