//! An embeddable register-based bytecode virtual machine.
//!
//! The machine has typed register banks, a sticky overflow flag, and three
//! memory segments: code, an auto-growing heap and a bounds-checked stack.
//! [`VmTmp::start`] runs the fetch-decode-execute loop for a bounded number of
//! cycles; it hands control back to the host for double-precision arithmetic
//! and for syscalls, and ends on `Halt` or on the first fault.
use vstd::prelude::*;

pub mod cpu;
pub mod isa;
pub mod laws;
pub mod memory;
pub mod programs;
pub mod sys_call;

use crate::cpu::{cycle, run_for, CpuCore, CpuErr, CpuView, CycleOut, Pause};
use crate::isa::{F64Reg, F64RegType, Flags, ISAErr, Inst, UsizeReg, UsizeRegType};
use crate::memory::heap::HeapObj;
use crate::memory::{same_cell, Heap, MemView, Memory, Stack};
use crate::sys_call::write::{write_payload, write_std_done, write_std_payload};

verus! {

/// Why a run ended in failure.
#[derive(Clone, Copy, Debug, PartialEq, Eq, Structural)]
pub enum VmErr {
    CpuErr(CpuErr),
    ISAErr(ISAErr),
}

impl From<ISAErr> for VmErr {
    fn from(err: ISAErr) -> (r: VmErr)
        ensures
            r == VmErr::ISAErr(err),
    {
        VmErr::ISAErr(err)
    }
}

impl vstd::std_specs::convert::FromSpecImpl<ISAErr> for VmErr {
    open spec fn obeys_from_spec() -> bool {
        true
    }

    open spec fn from_spec(err: ISAErr) -> VmErr {
        VmErr::ISAErr(err)
    }
}

impl From<CpuErr> for VmErr {
    fn from(err: CpuErr) -> (r: VmErr)
        ensures
            r == VmErr::CpuErr(err),
    {
        VmErr::CpuErr(err)
    }
}

impl vstd::std_specs::convert::FromSpecImpl<CpuErr> for VmErr {
    open spec fn obeys_from_spec() -> bool {
        true
    }

    open spec fn from_spec(err: CpuErr) -> VmErr {
        VmErr::CpuErr(err)
    }
}

/// The state of a whole machine.
pub struct VmView {
    pub cpu: CpuView,
    pub mem: MemView,
}

/// What [`VmTmp::start`] returns for a run of the loop that ended in `r`.
pub open spec fn vm_outcome(r: Result<Pause, CpuErr>) -> Result<Pause, VmErr> {
    match r {
        Ok(p) => Ok(p),
        Err(e) => Err(VmErr::CpuErr(e)),
    }
}

/// A virtual machine: one CPU core and the memory it runs on.
#[derive(Debug)]
pub struct VmTmp {
    core: CpuCore,
    mem: Memory,
}

/// The virtual machine under its short name.
pub type Vm = VmTmp;

impl View for VmTmp {
    type V = VmView;

    closed spec fn view(&self) -> VmView {
        VmView { cpu: self.core@, mem: self.mem@ }
    }
}

impl Default for VmTmp {
    fn default() -> (r: Self)
        ensures
            r@.cpu == crate::cpu::zero_cpu(),
            r@.mem.code.len() == 0,
            r@.mem.heap.len() == 0,
            r@.mem.stack.len() == 0,
    {
        Self::new()
    }
}

impl VmTmp {
    /// Each register bank holds eight registers.
    pub proof fn lemma_banks(&self)
        ensures
            self@.cpu.regs.u.len() == 8,
            self@.cpu.regs.f.len() == 8,
    {
        self.core.lemma_banks();
    }

    pub fn new() -> (r: VmTmp)
        ensures
            r@.cpu == crate::cpu::zero_cpu(),
            r@.mem.code.len() == 0,
            r@.mem.heap.len() == 0,
            r@.mem.stack.len() == 0,
    {
        VmTmp { core: CpuCore::new(), mem: Memory::new() }
    }

    /// Runs at most `max_steps` cycles; see [`CpuCore::start`].
    pub fn start(&mut self, max_steps: usize) -> (r: Result<Pause, VmErr>)
        ensures
            ({
                let (c, m, o) = run_for(old(self)@.cpu, old(self)@.mem, max_steps as nat);
                final(self)@ == (VmView { cpu: c, mem: m }) && r == vm_outcome(o)
            }),
    {
        match self.core.start(&mut self.mem, max_steps) {
            Ok(p) => Ok(p),
            Err(e) => Err(VmErr::CpuErr(e)),
        }
    }

    /// Runs one fetch-decode-execute cycle, so that a host can observe the
    /// machine or stop it between any two instructions.
    pub fn step(&mut self) -> (r: CycleOut)
        ensures
            ({
                let (c, m, o) = cycle(old(self)@.cpu, old(self)@.mem);
                final(self)@ == (VmView { cpu: c, mem: m }) && r == o
            }),
    {
        self.core.step(&mut self.mem)
    }

    /// Installs `code` as the code segment.
    pub fn set_code(&mut self, code: Vec<Inst>)
        ensures
            final(self)@ == (VmView { mem: old(self)@.mem.with_code(code@), ..old(self)@ }),
    {
        self.mem.store(Some(code), None, None);
    }

    /// Replaces each segment that is given.
    pub fn mem_store(&mut self, code: Option<Vec<Inst>>, heap: Option<Heap>, stack: Option<Stack>)
        ensures
            final(self)@.cpu == old(self)@.cpu,
            final(self)@.mem.code == (match code {
                Some(c) => c@,
                None => old(self)@.mem.code,
            }),
            final(self)@.mem.heap == (match heap {
                Some(h) => h@,
                None => old(self)@.mem.heap,
            }),
            final(self)@.mem.stack == (match stack {
                Some(s) => s@,
                None => old(self)@.mem.stack,
            }),
    {
        self.mem.store(code, heap, stack);
    }

    /// A snapshot of the three segments.
    pub fn mem_load(&self) -> (r: (Vec<Inst>, Vec<HeapObj>, Vec<crate::isa::RegType>))
        ensures
            r.0@ == self@.mem.code,
            r.1@.len() == self@.mem.heap.len(),
            forall|i: int| 0 <= i < r.1@.len() ==> same_cell(#[trigger] r.1@[i], self@.mem.heap[i]),
            r.2@ == self@.mem.stack,
    {
        self.mem.load()
    }

    /// Zeroes the CPU and clears all segments.
    pub fn reset(&mut self)
        ensures
            final(self)@.cpu == crate::cpu::zero_cpu(),
            final(self)@.mem.code.len() == 0,
            final(self)@.mem.heap.len() == 0,
            final(self)@.mem.stack.len() == 0,
    {
        self.core.reset();
        self.mem.reset();
    }

    pub fn get_pc(&self) -> (r: UsizeRegType)
        ensures
            r == self@.cpu.pc(),
    {
        self.core.get_pc()
    }

    pub fn get_bp(&self) -> (r: UsizeRegType)
        ensures
            r == self@.cpu.bp(),
    {
        self.core.get_bp()
    }

    pub fn get_u_reg(&self, reg: UsizeReg) -> (r: UsizeRegType)
        ensures
            r == self@.cpu.u(reg),
            self@.cpu.regs.u.len() == 8,
            self@.cpu.regs.f.len() == 8,
    {
        self.core.get_u_reg(reg)
    }

    pub fn get_f_reg(&self, reg: F64Reg) -> (r: F64RegType)
        ensures
            r == self@.cpu.f(reg),
            self@.cpu.regs.u.len() == 8,
            self@.cpu.regs.f.len() == 8,
    {
        self.core.get_f_reg(reg)
    }

    /// Stores a float register: how the host hands back the result of a [`Pause::Float`].
    pub fn set_f_reg(&mut self, reg: F64Reg, val: F64RegType)
        ensures
            final(self)@ == (VmView { cpu: old(self)@.cpu.with_f(reg, val), ..old(self)@ }),
    {
        self.core.set_f_reg(reg, val);
    }

    pub fn has_flag(&self, flag: Flags) -> (r: bool)
        ensures
            r == self@.cpu.overflow,
    {
        self.core.has_flag(flag)
    }

    /// The bytes the write syscall is to send.
    pub fn sys_write_payload(&self) -> (r: Vec<u8>)
        ensures
            r@ == write_payload(
                self@.mem.heap,
                self@.cpu.u(UsizeReg::U2) as int,
                self@.cpu.u(UsizeReg::U3) as nat,
            ),
    {
        write_std_payload(&self.core, &self.mem)
    }

    /// Records the host's answer to the write syscall (`Some(count)` or `None`
    /// on failure); a failure is the fault that ends the run.
    pub fn sys_write_done(&mut self, written: Option<usize>) -> (r: Result<(), VmErr>)
        ensures
            final(self)@.mem == old(self)@.mem,
            match written {
                Some(n) => r is Ok
                    && final(self)@.cpu == old(self)@.cpu.with_u(UsizeReg::U4, 0).with_u(UsizeReg::U5, n),
                None => r == Err::<(), VmErr>(VmErr::CpuErr(CpuErr::ISAErr(ISAErr::SysCallErr)))
                    && final(self)@.cpu == old(self)@.cpu.with_u(UsizeReg::U4, 1),
            },
            final(self)@.cpu.u(UsizeReg::U4) == (if written is Some {
                0usize
            } else {
                1usize
            }),
            written is Some ==> final(self)@.cpu.u(UsizeReg::U5) == written.unwrap(),
            forall|reg: UsizeReg|
                reg != UsizeReg::U4 && reg != UsizeReg::U5 ==> #[trigger] final(self)@.cpu.u(reg)
                    == old(self)@.cpu.u(reg),
            final(self)@.cpu.regs.f == old(self)@.cpu.regs.f,
            final(self)@.cpu.regs.pc == old(self)@.cpu.regs.pc,
            final(self)@.cpu.regs.bp == old(self)@.cpu.regs.bp,
            final(self)@.cpu.overflow == old(self)@.cpu.overflow,
    {
        match write_std_done(&mut self.core, written) {
            Ok(()) => Ok(()),
            Err(e) => Err(VmErr::CpuErr(CpuErr::ISAErr(ISAErr::from(e)))),
        }
    }
}

} // verus!
