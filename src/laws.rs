//! Properties of the machine that hold for every program and state.
use vstd::prelude::*;

use crate::cpu::exec::exec_inst;
use crate::cpu::{continues, cycle, run_for, run_states, CpuErr, CpuView, Pause};
use crate::isa::{ISAErr, Inst, UsizeReg};
use crate::memory::heap::HeapObj;
use crate::memory::{MemoryErr, heap_grown, heap_read_f, heap_read_u, stack_top, zero_cell, MemView};

verus! {

/// A run is a function of the starting state: the same code, heap, stack and
/// registers give the same final state and the same outcome.
pub proof fn lemma_run_deterministic(c1: CpuView, m1: MemView, c2: CpuView, m2: MemView, fuel: nat)
    requires
        c1 == c2,
        m1 == m2,
    ensures
        run_for(c1, m1, fuel) == run_for(c2, m2, fuel),
{
}

/// An instruction that is not a jump, call or return leaves the program
/// counter one past its own address, whatever else it does or faults with.
pub proof fn lemma_pc_advances(c: CpuView, m: MemView)
    requires
        m.code.len() <= usize::MAX,
        c.pc() < m.code.len(),
        !m.code[c.pc() as int].is_control_flow(),
    ensures
        cycle(c, m).0.pc() == c.pc() + 1,
{
}

/// No instruction changes the code segment.
pub proof fn lemma_code_stays(c: CpuView, m: MemView)
    ensures
        cycle(c, m).1.code == m.code,
{
}

/// Where the code from the program counter on holds no jump, call or return,
/// the cycles that go on run the instructions from there in order, each once:
/// after `k` of them the program counter has moved on by `k`.
pub proof fn lemma_pc_advances_steps(c: CpuView, m: MemView, k: nat)
    requires
        m.code.len() <= usize::MAX,
        c.pc() + k <= m.code.len(),
        forall|i: int| c.pc() <= i < m.code.len() ==> !(#[trigger] m.code[i]).is_control_flow(),
    ensures
        run_states(c, m, k).0.pc() == c.pc() + k,
        run_states(c, m, k).1.code == m.code,
    decreases k,
{
    if k > 0 {
        lemma_pc_advances(c, m);
        lemma_code_stays(c, m);
        let (c1, m1, _) = cycle(c, m);
        lemma_pc_advances_steps(c1, m1, (k - 1) as nat);
    }
}

/// Where the code from the program counter on holds no jump, call or return, a
/// run executes the instructions from there in order, each once, and stops at
/// the first that does not go on: after the whole budget when it runs out; at
/// the end of the code when it falls off it, every instruction up to there
/// having gone on; otherwise just past the instruction that halted, faulted or
/// paused, every instruction before it having gone on.
pub proof fn lemma_pc_advances_run(c: CpuView, m: MemView, fuel: nat)
    requires
        m.code.len() <= usize::MAX,
        c.pc() <= m.code.len(),
        forall|i: int| c.pc() <= i < m.code.len() ==> !(#[trigger] m.code[i]).is_control_flow(),
    ensures
        ({
            let (c2, m2, o) = run_for(c, m, fuel);
            let limit = Ok::<Pause, CpuErr>(Pause::StepLimit);
            let off_end = Err::<Pause, CpuErr>(CpuErr::MemoryErr(MemoryErr::InvalidCodeAddr));
            &&& m2.code == m.code
            &&& c2.pc() <= c.pc() + fuel
            &&& o == limit ==> c2.pc() == c.pc() + fuel
            &&& o == off_end ==> c2.pc() == m.code.len()
            &&& o != limit && o != off_end ==> c.pc() < c2.pc() <= m.code.len()
            &&& o == limit ==> continues(c, m, fuel)
            &&& o == off_end ==> continues(c, m, (m.code.len() - c.pc()) as nat)
            &&& o != limit && o != off_end ==> {
                let j = (c2.pc() - 1 - c.pc()) as nat;
                &&& continues(c, m, j)
                &&& run_states(c, m, j).0.pc() == c2.pc() - 1
                &&& cycle(run_states(c, m, j).0, run_states(c, m, j).1) == (c2, m2, Some(o))
            }
        }),
    decreases fuel,
{
    if fuel > 0 && c.pc() < m.code.len() {
        lemma_pc_advances(c, m);
        lemma_code_stays(c, m);
        let (c1, m1, o) = cycle(c, m);
        if o is None {
            lemma_pc_advances_run(c1, m1, (fuel - 1) as nat);
        }
    }
}

/// A call followed by the matching return restores the base pointer, the
/// stack and its top index, and resumes right after the call, provided the
/// callee's own pushes and pops (and nested calls) balance: when it returns,
/// its frame's base pointer is back in place and the stack up to and
/// including the frame header is as the call left it.
pub proof fn lemma_call_ret_frame(c: CpuView, m: MemView, r: UsizeReg, c2: CpuView, m2: MemView)
    requires
        m.code.len() <= usize::MAX,
        c.pc() < m.code.len(),
        m.code[c.pc() as int] == Inst::Call(r),
        m.stack.len() + 2 <= usize::MAX,
        c2.bp() == cycle(c, m).0.bp(),
        m2.stack.len() >= cycle(c, m).1.stack.len(),
        m2.stack.take(cycle(c, m).1.stack.len() as int) == cycle(c, m).1.stack,
        c2.pc() < m2.code.len(),
        m2.code[c2.pc() as int] == Inst::Ret,
    ensures
        cycle(c2, m2).2 is None,
        cycle(c2, m2).0.pc() == c.pc() + 1,
        cycle(c2, m2).0.bp() == c.bp(),
        cycle(c2, m2).1.stack == m.stack,
        stack_top(cycle(c2, m2).1.stack) == stack_top(m.stack),
{
    let s1 = cycle(c, m).1.stack;
    assert(s1.len() == m.stack.len() + 2);
    assert(c2.bp() == m.stack.len() + 1);
    let d = m2.stack.take(c2.bp() + 1);
    assert(d == s1);
    assert(d.drop_last().drop_last() =~= m.stack);
}

/// Reading a heap address past the end yields zero, through the integer and
/// the float read alike, and grows the heap with zero cells up to that
/// address, leaving the cells it had alone; reading it again, either way,
/// yields the same zero and changes nothing.
pub proof fn lemma_heap_read_twice(h: Seq<HeapObj>, a: int)
    requires
        h.len() <= a,
    ensures
        heap_read_u(h, a) == Ok::<usize, ISAErr>(0),
        heap_read_f(h, a) == Ok::<u64, ISAErr>(0),
        heap_read_u(heap_grown(h, a), a) == Ok::<usize, ISAErr>(0),
        heap_read_f(heap_grown(h, a), a) == Ok::<u64, ISAErr>(0),
        heap_grown(heap_grown(h, a), a) == heap_grown(h, a),
        heap_grown(h, a).take(h.len() as int) == h,
        a < usize::MAX ==> heap_grown(h, a).len() == a + 1,
        forall|i: int| h.len() <= i < heap_grown(h, a).len() ==> #[trigger] heap_grown(h, a)[i] == zero_cell(),
{
    assert(heap_grown(h, a).take(h.len() as int) =~= h);
}

/// The stack offset register of a stack-relative load or store.
pub open spec fn stack_offset_reg(inst: Inst) -> Option<UsizeReg> {
    match inst {
        Inst::LoadUS(_, a) | Inst::LoadDS(_, a) | Inst::StoreUS(_, a) | Inst::StoreDS(_, a) => Some(
            a,
        ),
        _ => None,
    }
}

/// A stack-relative access at an offset at or past the current frame's size
/// faults with `InvalidStackAddr` and leaves the machine as it was: the stack
/// never grows to meet it.
pub proof fn lemma_stack_bounds_strict(c: CpuView, m: MemView, inst: Inst, a: UsizeReg)
    requires
        stack_offset_reg(inst) == Some(a),
        c.bp() + c.u(a) >= m.stack.len(),
    ensures
        exec_inst(c, m, inst) == (c, m, Err::<Option<Pause>, ISAErr>(
            ISAErr::InvalidStackAddr,
        )),
{
}

/// Integer division or remainder by a zero register ends the run with
/// `DivByZero`; the program counter stays just past the dividing instruction
/// and nothing else changes.
pub proof fn lemma_div_by_zero(c: CpuView, m: MemView, d: UsizeReg, a: UsizeReg, b: UsizeReg)
    requires
        m.code.len() <= usize::MAX,
        c.pc() < m.code.len(),
        m.code[c.pc() as int] == Inst::DivU(d, a, b) || m.code[c.pc() as int] == Inst::Mod(d, a, b),
        c.u(b) == 0,
    ensures
        cycle(c, m) == (c.with_pc((c.pc() + 1) as usize), m, Some(Err::<Pause, CpuErr>(
            CpuErr::ISAErr(ISAErr::DivByZero),
        ))),
{
}

/// No instruction clears the overflow flag.
pub proof fn lemma_overflow_sticky(c: CpuView, m: MemView)
    requires
        c.overflow,
    ensures
        cycle(c, m).0.overflow,
{
}

/// Once set, the overflow flag stays set for the rest of a run.
pub proof fn lemma_overflow_sticky_run(c: CpuView, m: MemView, fuel: nat)
    requires
        c.overflow,
    ensures
        run_for(c, m, fuel).0.overflow,
    decreases fuel,
{
    if fuel > 0 {
        lemma_overflow_sticky(c, m);
        let (c2, m2, o) = cycle(c, m);
        if o is None {
            lemma_overflow_sticky_run(c2, m2, (fuel - 1) as nat);
        }
    }
}

/// `n` no-ops followed by `Halt`.
pub open spec fn nops_then_halt(n: nat) -> Seq<Inst> {
    Seq::new(n, |i: int| Inst::Nop).push(Inst::Halt)
}

proof fn lemma_nops_from(c: CpuView, m: MemView, n: nat, fuel: nat)
    requires
        m.code == nops_then_halt(n),
        n + 1 <= usize::MAX,
        c.pc() <= n,
        c.pc() + fuel <= n + 1,
    ensures
        c.pc() + fuel <= n ==> run_for(c, m, fuel) == (c.with_pc((c.pc() + fuel) as usize), m, Ok::<
            Pause,
            CpuErr,
        >(Pause::StepLimit)),
        c.pc() + fuel == n + 1 ==> run_for(c, m, fuel) == (c.with_pc((n + 1) as usize), m, Err::<
            Pause,
            CpuErr,
        >(CpuErr::ISAErr(ISAErr::Halt))),
    decreases fuel,
{
    if fuel == 0 {
        assert(c.with_pc(c.pc()) == c);
    } else {
        let c1 = c.with_pc((c.pc() + 1) as usize);
        if c.pc() < n {
            assert(m.code[c.pc() as int] == Inst::Nop);
            assert(cycle(c, m) == (c1, m, None::<Result<Pause, CpuErr>>));
            assert(run_for(c, m, fuel) == run_for(c1, m, (fuel - 1) as nat));
            lemma_nops_from(c1, m, n, (fuel - 1) as nat);
            assert(c1.with_pc((c.pc() + fuel) as usize) == c.with_pc((c.pc() + fuel) as usize));
            assert(c1.with_pc((n + 1) as usize) == c.with_pc((n + 1) as usize));
        } else {
            assert(m.code[c.pc() as int] == Inst::Halt);
            assert(exec_inst(c1, m, Inst::Halt) == (c1, m, Err::<Option<Pause>, ISAErr>(
                ISAErr::Halt,
            )));
            let halted = Err::<Pause, CpuErr>(CpuErr::ISAErr(ISAErr::Halt));
            assert(cycle(c, m) == (c1, m, Some(halted)));
            assert(run_for(c, m, fuel) == (c1, m, halted));
        }
    }
}

/// `n` no-ops followed by `Halt`, started at address 0, end successfully after
/// exactly `n + 1` cycles with the program counter at `n + 1`; after `n`
/// cycles they are still running.
pub proof fn lemma_nops_then_halt(c: CpuView, m: MemView, n: nat)
    requires
        m.code == nops_then_halt(n),
        n + 1 <= usize::MAX,
        c.pc() == 0,
    ensures
        run_for(c, m, n) == (c.with_pc(n as usize), m, Ok::<Pause, CpuErr>(Pause::StepLimit)),
        run_for(c, m, n + 1) == (c.with_pc((n + 1) as usize), m, Err::<Pause, CpuErr>(
            CpuErr::ISAErr(ISAErr::Halt),
        )),
{
    lemma_nops_from(c, m, n, n);
    lemma_nops_from(c, m, n, n + 1);
}

} // verus!
