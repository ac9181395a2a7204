//! The register file: two typed banks, the program counter and the base pointer.
use vstd::prelude::*;

use crate::isa::{F64Reg, F64RegType, UsizeReg, UsizeRegType};

verus! {

/// Contents of the register file.
pub struct RegsView {
    pub u: Seq<UsizeRegType>,
    pub f: Seq<F64RegType>,
    pub pc: UsizeRegType,
    pub bp: UsizeRegType,
}

/// The register file with every slot zero.
pub open spec fn zero_regs() -> RegsView {
    RegsView { u: Seq::new(8, |i: int| 0usize), f: Seq::new(8, |i: int| 0u64), pc: 0, bp: 0 }
}

#[derive(Debug)]
pub struct Regs {
    usize_regs: [UsizeRegType; 8],
    f64_regs: [F64RegType; 8],
    pc: UsizeRegType,
    bp: UsizeRegType,
}

impl View for Regs {
    type V = RegsView;

    closed spec fn view(&self) -> RegsView {
        RegsView { u: self.usize_regs@, f: self.f64_regs@, pc: self.pc, bp: self.bp }
    }
}

impl Default for Regs {
    fn default() -> (r: Self)
        ensures
            r@ == zero_regs(),
    {
        Self::new()
    }
}

impl Regs {
    /// Each bank holds eight registers.
    pub proof fn lemma_banks(&self)
        ensures
            self@.u.len() == 8,
            self@.f.len() == 8,
    {
    }

    pub fn new() -> (r: Self)
        ensures
            r@ == zero_regs(),
    {
        let r = Regs { usize_regs: [0; 8], f64_regs: [0; 8], pc: 0, bp: 0 };
        assert(r.usize_regs@ =~= Seq::new(8, |i: int| 0usize));
        assert(r.f64_regs@ =~= Seq::new(8, |i: int| 0u64));
        r
    }

    pub fn get_u_reg(&self, reg: UsizeReg) -> (r: UsizeRegType)
        ensures
            r == self@.u[reg.index()],
            self@.u.len() == 8,
            self@.f.len() == 8,
    {
        self.usize_regs[reg.slot()]
    }

    pub fn get_mut_u_reg(&mut self, reg: UsizeReg) -> (r: &mut UsizeRegType)
        ensures
            *r == old(self)@.u[reg.index()],
            final(self)@ == (RegsView {
                u: old(self)@.u.update(reg.index(), *final(r)),
                ..old(self)@
            }),
    {
        &mut self.usize_regs[reg.slot()]
    }

    pub fn set_u_reg(&mut self, reg: UsizeReg, val: UsizeRegType)
        ensures
            final(self)@ == (RegsView { u: old(self)@.u.update(reg.index(), val), ..old(self)@ }),
    {
        self.usize_regs[reg.slot()] = val;
    }

    pub fn get_f_reg(&self, reg: F64Reg) -> (r: F64RegType)
        ensures
            r == self@.f[reg.index()],
            self@.u.len() == 8,
            self@.f.len() == 8,
    {
        self.f64_regs[reg.slot()]
    }

    pub fn get_mut_f_reg(&mut self, reg: F64Reg) -> (r: &mut F64RegType)
        ensures
            *r == old(self)@.f[reg.index()],
            final(self)@ == (RegsView {
                f: old(self)@.f.update(reg.index(), *final(r)),
                ..old(self)@
            }),
    {
        &mut self.f64_regs[reg.slot()]
    }

    pub fn set_f_reg(&mut self, reg: F64Reg, val: F64RegType)
        ensures
            final(self)@ == (RegsView { f: old(self)@.f.update(reg.index(), val), ..old(self)@ }),
    {
        self.f64_regs[reg.slot()] = val;
    }

    pub fn get_bp(&self) -> (r: UsizeRegType)
        ensures
            r == self@.bp,
    {
        self.bp
    }

    pub fn set_bp(&mut self, bp: UsizeRegType)
        ensures
            final(self)@ == (RegsView { bp, ..old(self)@ }),
    {
        self.bp = bp;
    }

    pub fn get_pc(&self) -> (r: UsizeRegType)
        ensures
            r == self@.pc,
    {
        self.pc
    }

    pub fn set_pc(&mut self, pc: UsizeRegType)
        ensures
            final(self)@ == (RegsView { pc, ..old(self)@ }),
    {
        self.pc = pc;
    }

    pub fn reset(&mut self)
        ensures
            final(self)@ == zero_regs(),
    {
        self.usize_regs = [0; 8];
        self.f64_regs = [0; 8];
        self.pc = 0;
        self.bp = 0;
        assert(self.usize_regs@ =~= Seq::new(8, |i: int| 0usize));
        assert(self.f64_regs@ =~= Seq::new(8, |i: int| 0u64));
    }
}

} // verus!
