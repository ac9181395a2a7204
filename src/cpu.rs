//! The CPU core: register file, overflow flag, and the fetch-decode-execute loop.
use vstd::prelude::*;

use crate::isa::{F64Reg, F64RegType, FloatReq, Flags, ISAErr, UsizeReg, UsizeRegType};
use crate::memory::{MemView, Memory, MemoryErr};
use crate::sys_call::SysCall;

pub mod exec;
pub mod regs;

use self::exec::exec_inst;
use self::regs::{zero_regs, Regs, RegsView};

verus! {

/// Faults that end a run.
#[derive(Clone, Copy, Debug, PartialEq, Eq, Structural)]
pub enum CpuErr {
    MemoryErr(MemoryErr),
    ISAErr(ISAErr),
}

impl From<MemoryErr> for CpuErr {
    fn from(err: MemoryErr) -> (r: CpuErr)
        ensures
            r == CpuErr::MemoryErr(err),
    {
        CpuErr::MemoryErr(err)
    }
}

impl vstd::std_specs::convert::FromSpecImpl<MemoryErr> for CpuErr {
    open spec fn obeys_from_spec() -> bool {
        true
    }

    open spec fn from_spec(err: MemoryErr) -> CpuErr {
        CpuErr::MemoryErr(err)
    }
}

impl From<ISAErr> for CpuErr {
    fn from(err: ISAErr) -> (r: CpuErr)
        ensures
            r == CpuErr::ISAErr(err),
    {
        CpuErr::ISAErr(err)
    }
}

impl vstd::std_specs::convert::FromSpecImpl<ISAErr> for CpuErr {
    open spec fn obeys_from_spec() -> bool {
        true
    }

    open spec fn from_spec(err: ISAErr) -> CpuErr {
        CpuErr::ISAErr(err)
    }
}

/// Why the loop handed control back to the host without ending the run.
/// The program counter already points past the instruction concerned.
#[derive(Clone, Copy, Debug, PartialEq, Eq, Structural)]
pub enum Pause {
    /// The step budget ran out.
    StepLimit,
    /// A float operation waits for its result, to be stored with `set_f_reg`.
    Float(FloatReq),
    /// A syscall waits for the host to carry it out.
    SysCall(SysCall),
}

/// Contents of the CPU: the register file and the overflow flag.
pub struct CpuView {
    pub regs: RegsView,
    pub overflow: bool,
}

impl CpuView {
    pub open spec fn u(self, r: UsizeReg) -> UsizeRegType {
        self.regs.u[r.index()]
    }

    pub open spec fn f(self, r: F64Reg) -> F64RegType {
        self.regs.f[r.index()]
    }

    pub open spec fn pc(self) -> UsizeRegType {
        self.regs.pc
    }

    pub open spec fn bp(self) -> UsizeRegType {
        self.regs.bp
    }

    pub open spec fn with_u(self, r: UsizeReg, v: UsizeRegType) -> CpuView {
        CpuView { regs: RegsView { u: self.regs.u.update(r.index(), v), ..self.regs }, ..self }
    }

    pub open spec fn with_f(self, r: F64Reg, v: F64RegType) -> CpuView {
        CpuView { regs: RegsView { f: self.regs.f.update(r.index(), v), ..self.regs }, ..self }
    }

    pub open spec fn with_pc(self, pc: UsizeRegType) -> CpuView {
        CpuView { regs: RegsView { pc, ..self.regs }, ..self }
    }

    pub open spec fn with_bp(self, bp: UsizeRegType) -> CpuView {
        CpuView { regs: RegsView { bp, ..self.regs }, ..self }
    }

    pub open spec fn with_overflow(self) -> CpuView {
        CpuView { overflow: true, ..self }
    }
}

/// The CPU in its reset state.
pub open spec fn zero_cpu() -> CpuView {
    CpuView { regs: zero_regs(), overflow: false }
}

#[derive(Debug)]
pub struct CpuCore {
    regs: Regs,
    overflow: bool,
}

impl View for CpuCore {
    type V = CpuView;

    closed spec fn view(&self) -> CpuView {
        CpuView { regs: self.regs@, overflow: self.overflow }
    }
}

impl Default for CpuCore {
    fn default() -> (r: Self)
        ensures
            r@ == zero_cpu(),
    {
        Self::new()
    }
}

impl CpuCore {
    /// Each register bank holds eight registers.
    pub proof fn lemma_banks(&self)
        ensures
            self@.regs.u.len() == 8,
            self@.regs.f.len() == 8,
    {
        self.regs.lemma_banks();
    }

    pub fn new() -> (r: CpuCore)
        ensures
            r@ == zero_cpu(),
    {
        CpuCore { regs: Regs::new(), overflow: false }
    }

    /// Zeroes registers, flags, program counter and base pointer.
    pub fn reset(&mut self)
        ensures
            final(self)@ == zero_cpu(),
    {
        self.regs.reset();
        self.overflow = false;
        self.set_bp(0);
        self.set_pc(0);
    }

    pub fn get_u_reg(&self, ur: UsizeReg) -> (r: UsizeRegType)
        ensures
            r == self@.u(ur),
            self@.regs.u.len() == 8,
            self@.regs.f.len() == 8,
    {
        self.regs.get_u_reg(ur)
    }

    pub fn set_u_reg(&mut self, ur: UsizeReg, val: UsizeRegType)
        ensures
            final(self)@ == old(self)@.with_u(ur, val),
    {
        self.regs.set_u_reg(ur, val);
    }

    pub fn get_f_reg(&self, fr: F64Reg) -> (r: F64RegType)
        ensures
            r == self@.f(fr),
            self@.regs.u.len() == 8,
            self@.regs.f.len() == 8,
    {
        self.regs.get_f_reg(fr)
    }

    /// Stores a float register; the host uses it to hand back the result of a [`Pause::Float`].
    pub fn set_f_reg(&mut self, fr: F64Reg, val: F64RegType)
        ensures
            final(self)@ == old(self)@.with_f(fr, val),
    {
        self.regs.set_f_reg(fr, val);
    }

    pub fn get_pc(&self) -> (r: UsizeRegType)
        ensures
            r == self@.pc(),
    {
        self.regs.get_pc()
    }

    pub fn set_pc(&mut self, pc: UsizeRegType)
        ensures
            final(self)@ == old(self)@.with_pc(pc),
    {
        self.regs.set_pc(pc);
    }

    pub fn get_bp(&self) -> (r: UsizeRegType)
        ensures
            r == self@.bp(),
    {
        self.regs.get_bp()
    }

    pub fn set_bp(&mut self, bp: UsizeRegType)
        ensures
            final(self)@ == old(self)@.with_bp(bp),
    {
        self.regs.set_bp(bp);
    }

    /// Whether `flag` is set.
    pub fn has_flag(&self, flag: Flags) -> (r: bool)
        ensures
            r == self@.overflow,
    {
        match flag {
            Flags::Overflow => self.overflow,
        }
    }

    /// Sets the overflow flag; nothing but a reset clears it.
    pub fn set_overflow(&mut self)
        ensures
            final(self)@ == old(self)@.with_overflow(),
    {
        self.overflow = true;
    }
}

/// What one cycle reports: `None` to go on, or why the loop stops.
pub type CycleOut = Option<Result<Pause, CpuErr>>;

/// One fetch-decode-execute cycle: fetch at pc (a fault past the end of the
/// code), advance pc by one, then execute.
pub open spec fn cycle(c: CpuView, m: MemView) -> (CpuView, MemView, CycleOut) {
    if c.pc() >= m.code.len() {
        (c, m, Some(Err(CpuErr::MemoryErr(MemoryErr::InvalidCodeAddr))))
    } else {
        let c1 = c.with_pc((c.pc() + 1) as usize);
        let (c2, m2, r) = exec_inst(c1, m, m.code[c.pc() as int]);
        (
            c2,
            m2,
            match r {
                Ok(None) => None,
                Ok(Some(p)) => Some(Ok(p)),
                Err(e) => Some(Err(CpuErr::ISAErr(e))),
            },
        )
    }
}

/// At most `fuel` cycles, stopping at the first that does not go on.
pub open spec fn run_for(c: CpuView, m: MemView, fuel: nat) -> (CpuView, MemView, Result<
    Pause,
    CpuErr,
>)
    decreases fuel,
{
    if fuel == 0 {
        (c, m, Ok(Pause::StepLimit))
    } else {
        let (c2, m2, o) = cycle(c, m);
        match o {
            None => run_for(c2, m2, (fuel - 1) as nat),
            Some(r) => (c2, m2, r),
        }
    }
}

/// The machine after `k` cycles that each go on.
pub open spec fn run_states(c: CpuView, m: MemView, k: nat) -> (CpuView, MemView)
    decreases k,
{
    if k == 0 {
        (c, m)
    } else {
        run_states(cycle(c, m).0, cycle(c, m).1, (k - 1) as nat)
    }
}

/// Whether each of the first `k` cycles goes on.
pub open spec fn continues(c: CpuView, m: MemView, k: nat) -> bool
    decreases k,
{
    if k == 0 {
        true
    } else {
        cycle(c, m).2 is None && continues(cycle(c, m).0, cycle(c, m).1, (k - 1) as nat)
    }
}

/// `a` cycles that go on, then `b` more, are `a + b` cycles that go on.
pub proof fn lemma_continues_trans(c: CpuView, m: MemView, a: nat, b: nat)
    requires
        continues(c, m, a),
        continues(run_states(c, m, a).0, run_states(c, m, a).1, b),
    ensures
        continues(c, m, a + b),
        run_states(c, m, a + b) == run_states(run_states(c, m, a).0, run_states(c, m, a).1, b),
    decreases a,
{
    if a > 0 {
        lemma_continues_trans(cycle(c, m).0, cycle(c, m).1, (a - 1) as nat, b);
        assert((a + b - 1) as nat == ((a - 1) as nat + b) as nat);
    }
}

/// A run of `a + f` cycles whose first `a` go on is a run of `f` cycles from
/// where those `a` left the machine.
pub proof fn lemma_run_split(c: CpuView, m: MemView, a: nat, f: nat)
    requires
        continues(c, m, a),
    ensures
        run_for(c, m, a + f) == run_for(run_states(c, m, a).0, run_states(c, m, a).1, f),
    decreases a,
{
    if a > 0 {
        lemma_run_split(cycle(c, m).0, cycle(c, m).1, (a - 1) as nat, f);
        assert((a + f - 1) as nat == ((a - 1) as nat + f) as nat);
    }
}

impl CpuCore {
    /// Runs one fetch-decode-execute cycle.
    pub fn step(&mut self, mem: &mut Memory) -> (r: CycleOut)
        ensures
            (final(self)@, final(mem)@, r) == cycle(old(self)@, old(mem)@),
    {
        proof {
            mem.lemma_bounds();
        }
        let pc = self.get_pc();
        let inst = match mem.fetch_code(pc) {
            Ok(i) => i,
            Err(e) => return Some(Err(CpuErr::MemoryErr(e))),
        };
        self.set_pc(pc + 1);
        match self.run_inst(&inst, mem) {
            Ok(None) => None,
            Ok(Some(p)) => Some(Ok(p)),
            Err(e) => Some(Err(CpuErr::ISAErr(e))),
        }
    }

    /// Runs cycles until the program halts or faults (`Err`), needs the host
    /// (`Ok` with the reason), or `max_steps` cycles have run (`Ok(StepLimit)`).
    pub fn start(&mut self, mem: &mut Memory, max_steps: usize) -> (r: Result<Pause, CpuErr>)
        ensures
            (final(self)@, final(mem)@, r) == run_for(old(self)@, old(mem)@, max_steps as nat),
    {
        let ghost c0 = self@;
        let ghost m0 = mem@;
        let mut n: usize = max_steps;
        while n > 0
            invariant
                c0 == old(self)@,
                m0 == old(mem)@,
                run_for(self@, mem@, n as nat) == run_for(c0, m0, max_steps as nat),
            decreases n,
        {
            let ghost cb = self@;
            let ghost mb = mem@;
            match self.step(mem) {
                None => {},
                Some(r) => {
                    assert(run_for(cb, mb, n as nat) == (self@, mem@, r));
                    return r;
                },
            }
            n -= 1;
        }
        Ok(Pause::StepLimit)
    }
}

} // verus!
