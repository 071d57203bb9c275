use vstd::prelude::*;

use crate::types::Fault;
use crate::types::Size;
use crate::types::masked;
use crate::types::sign_of;
use crate::types::mask_to;
use crate::types::sign_bit;

verus! {

/// The processor status word, kept as named fields rather than raw bits.
///
/// `trace`, `supervisor` and `int_mask` live in the privileged upper byte:
/// they may be written only by supervisor-mode instructions or by the
/// exception mechanism. `extend`, `negative`, `zero`, `overflow` and `carry`
/// form the condition-code byte and are freely writable in any mode.
#[derive(Clone, Copy, Debug, PartialEq, Eq, Structural)]
pub struct Status {
    pub trace: bool,
    pub supervisor: bool,
    /// Interrupt priority threshold, 0-7.
    pub int_mask: u8,
    pub extend: bool,
    pub negative: bool,
    pub zero: bool,
    pub overflow: bool,
    pub carry: bool,
}

/// Which of the five condition codes an instruction declares as affected.
#[derive(Clone, Copy, Debug, PartialEq, Eq, Structural)]
pub struct FlagSet {
    pub extend: bool,
    pub negative: bool,
    pub zero: bool,
    pub overflow: bool,
    pub carry: bool,
}

pub open spec fn bit16(b: bool, weight: u16) -> u16 {
    if b {
        weight
    } else {
        0
    }
}

impl Status {
    pub open spec fn wf(self) -> bool {
        self.int_mask <= 7
    }

    /// The packed 16-bit form: trace at bit 15, supervisor at bit 13, the
    /// interrupt mask at bits 8-10, then extend/negative/zero/overflow/carry
    /// at bits 4-0.
    pub open spec fn spec_word(self) -> u16 {
        (bit16(self.trace, 0x8000) + bit16(self.supervisor, 0x2000)
            + self.int_mask * 0x100 + bit16(self.extend, 0x10) + bit16(self.negative, 0x8)
            + bit16(self.zero, 0x4) + bit16(self.overflow, 0x2) + bit16(self.carry, 0x1)) as u16
    }

    /// The status described by a packed word; bits outside the defined
    /// positions are ignored.
    pub open spec fn spec_from_word(w: u16) -> Status {
        Status {
            trace: w / 0x8000 % 2 == 1,
            supervisor: w / 0x2000 % 2 == 1,
            int_mask: (w / 0x100 % 8) as u8,
            extend: w / 0x10 % 2 == 1,
            negative: w / 0x8 % 2 == 1,
            zero: w / 0x4 % 2 == 1,
            overflow: w / 0x2 % 2 == 1,
            carry: w / 0x1 % 2 == 1,
        }
    }

    /// The status word a fresh core powers up with: fully cleared - user
    /// mode, no trace, interrupt mask 0, all condition codes clear (the
    /// packed form is the zero word).
    pub open spec fn spec_power_up() -> Status {
        Status {
            trace: false,
            supervisor: false,
            int_mask: 0,
            extend: false,
            negative: false,
            zero: false,
            overflow: false,
            carry: false,
        }
    }

    pub fn power_up() -> (r: Status)
        ensures
            r == Status::spec_power_up(),
            r.wf(),
    {
        Status {
            trace: false,
            supervisor: false,
            int_mask: 0,
            extend: false,
            negative: false,
            zero: false,
            overflow: false,
            carry: false,
        }
    }

    pub fn to_word(&self) -> (r: u16)
        requires
            self.wf(),
        ensures
            r == self.spec_word(),
    {
        let t: u16 = if self.trace {
            0x8000
        } else {
            0
        };
        let s: u16 = if self.supervisor {
            0x2000
        } else {
            0
        };
        let x: u16 = if self.extend {
            0x10
        } else {
            0
        };
        let n: u16 = if self.negative {
            0x8
        } else {
            0
        };
        let z: u16 = if self.zero {
            0x4
        } else {
            0
        };
        let v: u16 = if self.overflow {
            0x2
        } else {
            0
        };
        let c: u16 = if self.carry {
            0x1
        } else {
            0
        };
        t + s + (self.int_mask as u16) * 0x100 + x + n + z + v + c
    }

    pub fn from_word(w: u16) -> (r: Status)
        ensures
            r == Status::spec_from_word(w),
            r.wf(),
    {
        Status {
            trace: w / 0x8000 % 2 == 1,
            supervisor: w / 0x2000 % 2 == 1,
            int_mask: (w / 0x100 % 8) as u8,
            extend: w / 0x10 % 2 == 1,
            negative: w / 0x8 % 2 == 1,
            zero: w / 0x4 % 2 == 1,
            overflow: w / 0x2 % 2 == 1,
            carry: w / 0x1 % 2 == 1,
        }
    }

    /// Replace the whole status word. Succeeds only when `privileged` holds,
    /// i.e. when invoked by the exception mechanism or by an instruction that
    /// already runs in supervisor mode; a user-mode attempt changes nothing
    /// and reports a privilege violation.
    pub fn write_word(&mut self, w: u16, privileged: bool) -> (r: Result<(), Fault>)
        requires
            old(self).wf(),
        ensures
            final(self).wf(),
            privileged ==> r == Ok::<(), Fault>(()) && *final(self) == Status::spec_from_word(w),
            !privileged ==> r == Err::<(), Fault>(Fault::PrivilegeViolation) && *final(self) == *old(
                self,
            ),
    {
        if privileged {
            *self = Status::from_word(w);
            Ok(())
        } else {
            Err(Fault::PrivilegeViolation)
        }
    }

    /// Replace the condition-code byte alone; legal in any mode. Only the
    /// five defined code bits of `b` are taken; the privileged byte is kept.
    pub fn write_ccr(&mut self, b: u8)
        requires
            old(self).wf(),
        ensures
            final(self).wf(),
            *final(self) == (Status {
                extend: b / 0x10 % 2 == 1,
                negative: b / 0x8 % 2 == 1,
                zero: b / 0x4 % 2 == 1,
                overflow: b / 0x2 % 2 == 1,
                carry: b / 0x1 % 2 == 1,
                ..*old(self)
            }),
    {
        self.extend = b / 0x10 % 2 == 1;
        self.negative = b / 0x8 % 2 == 1;
        self.zero = b / 0x4 % 2 == 1;
        self.overflow = b / 0x2 % 2 == 1;
        self.carry = b / 0x1 % 2 == 1;
    }

    /// The combined result-flag update: given the computed value, its size and
    /// carry/overflow reported by the operation, set exactly the flags named
    /// in `affect` and leave every other flag - the privileged byte above
    /// all - untouched. Negative and zero are derived from the value; extend,
    /// when affected, copies carry.
    pub fn apply_result_flags(&mut self, value: u32, s: Size, carry: bool, overflow: bool, affect: FlagSet)
        requires
            old(self).wf(),
        ensures
            final(self).wf(),
            *final(self) == (Status {
                extend: if affect.extend {
                    carry
                } else {
                    old(self).extend
                },
                negative: if affect.negative {
                    sign_of(value, s)
                } else {
                    old(self).negative
                },
                zero: if affect.zero {
                    masked(value, s) == 0
                } else {
                    old(self).zero
                },
                overflow: if affect.overflow {
                    overflow
                } else {
                    old(self).overflow
                },
                carry: if affect.carry {
                    carry
                } else {
                    old(self).carry
                },
                ..*old(self)
            }),
    {
        if affect.extend {
            self.extend = carry;
        }
        if affect.negative {
            self.negative = sign_bit(value, s);
        }
        if affect.zero {
            self.zero = mask_to(value, s) == 0;
        }
        if affect.overflow {
            self.overflow = overflow;
        }
        if affect.carry {
            self.carry = carry;
        }
    }
}

/// Packing the status into a word and reading it back yields the same status:
/// no field is lost or leaks into another's bits.
pub proof fn lemma_status_word_roundtrip(st: Status)
    requires
        st.wf(),
    ensures
        Status::spec_from_word(st.spec_word()) == st,
{
    let w = st.spec_word();
    let t = st.trace;
    let s = st.supervisor;
    let m = st.int_mask;
    let x = st.extend;
    let n = st.negative;
    let z = st.zero;
    let v = st.overflow;
    let c = st.carry;
    assert(w / 0x8000 % 2 == 1 <==> t) by (bit_vector)
        requires
            w == (bit16(t, 0x8000) + bit16(s, 0x2000) + m * 0x100 + bit16(x, 0x10) + bit16(n, 0x8)
                + bit16(z, 0x4) + bit16(v, 0x2) + bit16(c, 0x1)) as u16,
            m <= 7,
    ;
    assert(w / 0x2000 % 2 == 1 <==> s) by (bit_vector)
        requires
            w == (bit16(t, 0x8000) + bit16(s, 0x2000) + m * 0x100 + bit16(x, 0x10) + bit16(n, 0x8)
                + bit16(z, 0x4) + bit16(v, 0x2) + bit16(c, 0x1)) as u16,
            m <= 7,
    ;
    assert(w / 0x100 % 8 == m) by (bit_vector)
        requires
            w == (bit16(t, 0x8000) + bit16(s, 0x2000) + m * 0x100 + bit16(x, 0x10) + bit16(n, 0x8)
                + bit16(z, 0x4) + bit16(v, 0x2) + bit16(c, 0x1)) as u16,
            m <= 7,
    ;
    assert((w / 0x10 % 2 == 1 <==> x) && (w / 0x8 % 2 == 1 <==> n) && (w / 0x4 % 2 == 1 <==> z) && (
    w / 0x2 % 2 == 1 <==> v) && (w / 0x1 % 2 == 1 <==> c)) by (bit_vector)
        requires
            w == (bit16(t, 0x8000) + bit16(s, 0x2000) + m * 0x100 + bit16(x, 0x10) + bit16(n, 0x8)
                + bit16(z, 0x4) + bit16(v, 0x2) + bit16(c, 0x1)) as u16,
            m <= 7,
    ;
    assert(Status::spec_from_word(w).int_mask == st.int_mask);
}

} // verus!
