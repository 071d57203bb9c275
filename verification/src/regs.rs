use vstd::prelude::*;

verus! {

/// The register file: eight 32-bit data registers and eight 32-bit address
/// registers. Address register 7 is the stack pointer and is dual-backed: one
/// physical slot serves user mode (USP) and one supervisor mode (SSP). Which
/// slot index 7 reaches is selected by the privilege flag the caller passes
/// in; switching privilege therefore swaps the live slot without copying
/// either value. Pure storage plus selection - no arithmetic happens here.
pub struct Regs {
    /// D0-D7.
    pub d: Vec<u32>,
    /// A0-A6; the seven address registers that are not dual-backed.
    pub a: Vec<u32>,
    /// The user-mode backing of A7.
    pub usp: u32,
    /// The supervisor-mode backing of A7.
    pub ssp: u32,
}

impl Regs {
    pub open spec fn wf(self) -> bool {
        &&& self.d@.len() == 8
        &&& self.a@.len() == 7
    }

    /// The value address register `i` shows under privilege `sup`.
    pub open spec fn spec_a(self, i: int, sup: bool) -> u32 {
        if i < 7 {
            self.a@[i]
        } else if sup {
            self.ssp
        } else {
            self.usp
        }
    }

    pub fn new() -> (r: Regs)
        ensures
            r.wf(),
            forall|i: int| 0 <= i < 8 ==> r.d@[i] == 0,
            forall|i: int, sup: bool| 0 <= i < 8 ==> r.spec_a(i, sup) == 0,
    {
        let mut d: Vec<u32> = Vec::new();
        let mut a: Vec<u32> = Vec::new();
        let mut k: usize = 0;
        while k < 8
            invariant
                k <= 8,
                d@.len() == k,
                forall|i: int| 0 <= i < k ==> d@[i] == 0,
            decreases 8 - k,
        {
            d.push(0);
            k = k + 1;
        }
        let mut k: usize = 0;
        while k < 7
            invariant
                k <= 7,
                a@.len() == k,
                forall|i: int| 0 <= i < k ==> a@[i] == 0,
            decreases 7 - k,
        {
            a.push(0);
            k = k + 1;
        }
        Regs { d, a, usp: 0, ssp: 0 }
    }

    pub fn read_d(&self, i: usize) -> (r: u32)
        requires
            self.wf(),
            i < 8,
        ensures
            r == self.d@[i as int],
    {
        self.d[i]
    }

    pub fn write_d(&mut self, i: usize, v: u32)
        requires
            old(self).wf(),
            i < 8,
        ensures
            final(self).wf(),
            final(self).d@ == old(self).d@.update(i as int, v),
            final(self).a == old(self).a,
            final(self).usp == old(self).usp,
            final(self).ssp == old(self).ssp,
    {
        self.d[i] = v;
    }

    /// Read address register `i`; index 7 reaches whichever of {USP, SSP} the
    /// privilege flag selects.
    pub fn read_a(&self, i: usize, sup: bool) -> (r: u32)
        requires
            self.wf(),
            i < 8,
        ensures
            r == self.spec_a(i as int, sup),
    {
        if i < 7 {
            self.a[i]
        } else if sup {
            self.ssp
        } else {
            self.usp
        }
    }

    /// Write address register `i`; a write to index 7 lands only in the slot
    /// the privilege flag selects, leaving the other slot untouched.
    pub fn write_a(&mut self, i: usize, sup: bool, v: u32)
        requires
            old(self).wf(),
            i < 8,
        ensures
            final(self).wf(),
            final(self).d == old(self).d,
            final(self).spec_a(i as int, sup) == v,
            forall|j: int| 0 <= j < 7 && j != i ==> final(self).a@[j] == old(self).a@[j],
            i < 7 ==> final(self).a@ == old(self).a@.update(i as int, v),
            i < 7 ==> final(self).usp == old(self).usp && final(self).ssp == old(self).ssp,
            i == 7 && sup ==> final(self).ssp == v && final(self).usp == old(self).usp,
            i == 7 && !sup ==> final(self).usp == v && final(self).ssp == old(self).ssp,
            i == 7 ==> final(self).a == old(self).a,
    {
        if i < 7 {
            self.a[i] = v;
        } else if sup {
            self.ssp = v;
        } else {
            self.usp = v;
        }
    }
}

/// The stack-pointer slots are isolated across privilege modes: a value
/// written to address register 7 in one mode is invisible in the other mode,
/// and what the other mode sees is exactly what was there before the write.
pub proof fn lemma_sp_slot_isolation(pre: Regs, post: Regs, sup: bool, v: u32)
    requires
        pre.wf(),
        post.wf(),
        post.d == pre.d,
        post.a == pre.a,
        post.spec_a(7, sup) == v,
        sup ==> post.usp == pre.usp,
        !sup ==> post.ssp == pre.ssp,
    ensures
        post.spec_a(7, !sup) == pre.spec_a(7, !sup),
{
}

} // verus!
