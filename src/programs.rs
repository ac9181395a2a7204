//! A sample program: Fibonacci through the call/return convention, beside a
//! direct computation of the same numbers.
use vstd::prelude::*;

use crate::cpu::{
    continues, cycle, lemma_continues_trans, lemma_run_split, run_for, run_states, zero_cpu, CpuErr,
    CpuView, Pause,
};
use crate::isa::{ISAErr, Inst, RegType, UsizeReg};
use crate::memory::MemView;
use crate::VmTmp;

verus! {

/// The Fibonacci numbers.
pub open spec fn fib(n: nat) -> nat
    decreases n,
{
    if n == 0 {
        0
    } else if n == 1 {
        1
    } else {
        fib((n - 1) as nat) + fib((n - 2) as nat)
    }
}

/// The `n`-th Fibonacci number, computed recursively.
pub fn fibonacci(n: usize) -> (r: usize)
    requires
        fib(n as nat) <= usize::MAX,
    ensures
        r == fib(n as nat),
    decreases n,
{
    if n == 0 {
        return 0;
    }
    if n == 1 {
        return 1;
    }
    fibonacci(n - 1) + fibonacci(n - 2)
}

/// Cycles granted to the sample program.
pub const FIB_STEPS: usize = 10_000_000;

/// The instruction at address `i` of the sample program.
pub open spec fn fib_inst(n: usize, i: int) -> Inst {
    if i == 0 {
        Inst::MU(UsizeReg::U8, 4)
    } else if i == 1 {
        Inst::MU(UsizeReg::U1, n)
    } else if i == 2 {
        Inst::Call(UsizeReg::U8)
    } else if i == 3 {
        Inst::Halt
    } else if i == 4 {
        Inst::MU(UsizeReg::U2, 7)
    } else if i == 5 {
        Inst::Jnz(UsizeReg::U2, UsizeReg::U1)
    } else if i == 6 {
        Inst::Ret
    } else if i == 7 {
        Inst::MU(UsizeReg::U2, 12)
    } else if i == 8 {
        Inst::SubUI(UsizeReg::U1, 1)
    } else if i == 9 {
        Inst::Jnz(UsizeReg::U2, UsizeReg::U1)
    } else if i == 10 {
        Inst::MU(UsizeReg::U1, 1)
    } else if i == 11 {
        Inst::Ret
    } else if i == 12 {
        Inst::PushU(UsizeReg::U1)
    } else if i == 13 {
        Inst::MU(UsizeReg::U2, 4)
    } else if i == 14 {
        Inst::Call(UsizeReg::U2)
    } else if i == 15 {
        Inst::PopU(UsizeReg::U2)
    } else if i == 16 {
        Inst::PushU(UsizeReg::U1)
    } else if i == 17 {
        Inst::MU(UsizeReg::U1, 1)
    } else if i == 18 {
        Inst::SubU(UsizeReg::U1, UsizeReg::U2, UsizeReg::U1)
    } else if i == 19 {
        Inst::MU(UsizeReg::U2, 4)
    } else if i == 20 {
        Inst::Call(UsizeReg::U2)
    } else if i == 21 {
        Inst::PopU(UsizeReg::U2)
    } else if i == 22 {
        Inst::AddU(UsizeReg::U1, UsizeReg::U2, UsizeReg::U1)
    } else {
        Inst::Ret
    }
}

/// The sample program: `U1 := fib(n)` by a recursive subroutine at address 4,
/// then `Halt`.
pub open spec fn fib_code(n: usize) -> Seq<Inst> {
    Seq::new(24, |i: int| fib_inst(n, i))
}

/// The sample program as instructions.
pub fn fib_program(n: usize) -> (r: Vec<Inst>)
    ensures
        r@ == fib_code(n),
{
    let r = vec![
        Inst::MU(UsizeReg::U8, 4),
        Inst::MU(UsizeReg::U1, n),
        Inst::Call(UsizeReg::U8),  // U1 = fib(n)
        Inst::Halt,
        Inst::MU(UsizeReg::U2, 7),  // 4: fib(U1) -> U1
        Inst::Jnz(UsizeReg::U2, UsizeReg::U1),  // fib(0) = 0
        Inst::Ret,
        Inst::MU(UsizeReg::U2, 12),  // 7
        Inst::SubUI(UsizeReg::U1, 1),  // U1 = n - 1
        Inst::Jnz(UsizeReg::U2, UsizeReg::U1),  // fib(1) = 1
        Inst::MU(UsizeReg::U1, 1),
        Inst::Ret,  // 11
        Inst::PushU(UsizeReg::U1),  // 12: save n - 1
        Inst::MU(UsizeReg::U2, 4),
        Inst::Call(UsizeReg::U2),  // U1 = fib(n - 1)
        Inst::PopU(UsizeReg::U2),  // U2 = n - 1
        Inst::PushU(UsizeReg::U1),  // save fib(n - 1)
        Inst::MU(UsizeReg::U1, 1),
        Inst::SubU(UsizeReg::U1, UsizeReg::U2, UsizeReg::U1),  // U1 = n - 2
        Inst::MU(UsizeReg::U2, 4),
        Inst::Call(UsizeReg::U2),  // U1 = fib(n - 2)
        Inst::PopU(UsizeReg::U2),  // U2 = fib(n - 1)
        Inst::AddU(UsizeReg::U1, UsizeReg::U2, UsizeReg::U1),  // U1 = fib(n - 1) + fib(n - 2)
        Inst::Ret,
    ];
    assert(r@ =~= fib_code(n));
    r
}

/// The memory of a fresh machine loaded with the sample program.
pub open spec fn fib_mem(n: usize) -> MemView {
    MemView { code: fib_code(n), heap: Seq::empty(), stack: Seq::empty() }
}

/// The sample program run for at most `FIB_STEPS` cycles on a fresh machine.
pub open spec fn fib_run(n: usize) -> (CpuView, MemView, Result<Pause, CpuErr>) {
    run_for(zero_cpu(), fib_mem(n), FIB_STEPS as nat)
}

/// What the sample program leaves in `U1` when it halts within `FIB_STEPS`
/// cycles on a fresh machine; `None` when it stops otherwise.
pub open spec fn fib_run_result(n: usize) -> Option<usize> {
    let (c, _, o) = fib_run(n);
    if o == Err::<Pause, CpuErr>(CpuErr::ISAErr(ISAErr::Halt)) {
        Some(c.u(UsizeReg::U1))
    } else {
        None
    }
}

/// Runs the sample program for `n` on a fresh machine and reads `U1`.
pub fn vm_fibonacci(n: usize) -> (r: Option<usize>)
    ensures
        r == fib_run_result(n),
        fib(n as nat) <= usize::MAX && fib_steps(n as nat) + 3 <= FIB_STEPS ==> r == Some(
            fib(n as nat) as usize,
        ),
{
    proof {
        if fib(n as nat) <= usize::MAX && fib_steps(n as nat) + 3 <= FIB_STEPS {
            lemma_fib_program(n);
        }
    }
    let mut vm = VmTmp::new();
    vm.set_code(fib_program(n));
    proof {
        assert(vm@.mem.heap =~= Seq::empty());
        assert(vm@.mem.stack =~= Seq::empty());
        assert(vm@.mem == fib_mem(n));
    }
    match vm.start(FIB_STEPS) {
        Err(crate::VmErr::CpuErr(CpuErr::ISAErr(ISAErr::Halt))) => Some(
            vm.get_u_reg(UsizeReg::U1),
        ),
        _ => None,
    }
}

/// Cycles that a call of the subroutine with `U1 = k` takes, from the call
/// to the return included.
pub open spec fn fib_steps(k: nat) -> nat
    decreases k,
{
    if k == 0 {
        4
    } else if k == 1 {
        8
    } else {
        16 + fib_steps((k - 1) as nat) + fib_steps((k - 2) as nat)
    }
}

/// The three places that call the subroutine, each with its address in the
/// register it calls through.
pub open spec fn fib_call_site(c: CpuView) -> bool {
    (c.pc() == 2 && c.u(UsizeReg::U8) == 4) || ((c.pc() == 14 || c.pc() == 20) && c.u(UsizeReg::U2)
        == 4)
}

proof fn lemma_cycle_one(c: CpuView, m: MemView)
    requires
        cycle(c, m).2 is None,
    ensures
        continues(c, m, 1),
        run_states(c, m, 1) == (cycle(c, m).0, cycle(c, m).1),
{
    reveal_with_fuel(continues, 2);
    reveal_with_fuel(run_states, 2);
}

/// One more cycle that goes on, after `a` that did.
proof fn lemma_extend(c: CpuView, m: MemView, a: nat)
    requires
        continues(c, m, a),
        cycle(run_states(c, m, a).0, run_states(c, m, a).1).2 is None,
    ensures
        continues(c, m, a + 1),
        run_states(c, m, a + 1) == (
            cycle(run_states(c, m, a).0, run_states(c, m, a).1).0,
            cycle(run_states(c, m, a).0, run_states(c, m, a).1).1,
        ),
{
    let (ca, ma) = run_states(c, m, a);
    lemma_cycle_one(ca, ma);
    lemma_continues_trans(c, m, a, 1);
}

proof fn lemma_fib_grows(k: nat)
    requires
        k >= 2,
    ensures
        fib((k - 1) as nat) <= fib(k),
        fib((k - 2) as nat) <= fib(k),
{
}

/// The subroutine's entry: the call, then `MU U2, 7`.
proof fn lemma_fib_enter(c: CpuView, m: MemView, n: usize)
    requires
        m.code == fib_code(n),
        fib_call_site(c),
        c.regs.u.len() == 8,
        m.stack.len() + 2 <= usize::MAX,
    ensures
        continues(c, m, 2),
        run_states(c, m, 2).0.pc() == 5,
        run_states(c, m, 2).0.bp() == m.stack.len() + 1,
        run_states(c, m, 2).0.regs.u == c.regs.u.update(UsizeReg::U2.index(), 7),
        run_states(c, m, 2).0.overflow == c.overflow,
        run_states(c, m, 2).1 == m.with_stack(
            m.stack.push(RegType::Usize(c.bp())).push(RegType::Usize((c.pc() + 1) as usize)),
        ),
{
    lemma_cycle_one(c, m);
    lemma_extend(c, m, 1);
}

/// A return from a frame whose header holds `b` and `r`.
proof fn lemma_fib_ret(c: CpuView, m: MemView, n: usize, s: Seq<RegType>, b: usize, r: usize)
    requires
        m.code == fib_code(n),
        c.pc() == 6 || c.pc() == 11 || c.pc() == 23,
        m.stack == s.push(RegType::Usize(b)).push(RegType::Usize(r)),
        c.bp() == s.len() + 1,
    ensures
        continues(c, m, 1),
        run_states(c, m, 1).0.pc() == r,
        run_states(c, m, 1).0.bp() == b,
        run_states(c, m, 1).0.regs.u == c.regs.u,
        run_states(c, m, 1).0.overflow == c.overflow,
        run_states(c, m, 1).1 == m.with_stack(s),
{
    assert(m.stack.take(s.len() + 2int) =~= m.stack);
    assert(m.stack.drop_last().drop_last() =~= s);
    lemma_cycle_one(c, m);
}

/// `U1 == 0` at the first test: `Jnz` falls through to the return.
proof fn lemma_fib_zero(c: CpuView, m: MemView, n: usize)
    requires
        m.code == fib_code(n),
        c.pc() == 5,
        c.regs.u.len() == 8,
        c.u(UsizeReg::U1) == 0,
    ensures
        continues(c, m, 1),
        run_states(c, m, 1) == (c.with_pc(6), m),
{
    lemma_cycle_one(c, m);
}

/// `U1 == k > 0` at the first test: jump to 7, `MU U2, 12`, `SubUI U1, 1`.
proof fn lemma_fib_down(c: CpuView, m: MemView, n: usize)
    requires
        m.code == fib_code(n),
        c.pc() == 5,
        c.regs.u.len() == 8,
        c.u(UsizeReg::U2) == 7,
        c.u(UsizeReg::U1) > 0,
    ensures
        continues(c, m, 3),
        run_states(c, m, 3).0.pc() == 9,
        run_states(c, m, 3).0.bp() == c.bp(),
        run_states(c, m, 3).0.regs.u == c.regs.u.update(UsizeReg::U2.index(), 12).update(
            UsizeReg::U1.index(),
            (c.u(UsizeReg::U1) - 1) as usize,
        ),
        run_states(c, m, 3).0.overflow == c.overflow,
        run_states(c, m, 3).1 == m,
{
    lemma_cycle_one(c, m);
    lemma_extend(c, m, 1);
    lemma_extend(c, m, 2);
}

/// `U1 == 0` at the second test: `Jnz` falls through, `MU U1, 1`.
proof fn lemma_fib_one(c: CpuView, m: MemView, n: usize)
    requires
        m.code == fib_code(n),
        c.pc() == 9,
        c.regs.u.len() == 8,
        c.u(UsizeReg::U1) == 0,
    ensures
        continues(c, m, 2),
        run_states(c, m, 2).0.pc() == 11,
        run_states(c, m, 2).0.bp() == c.bp(),
        run_states(c, m, 2).0.regs.u == c.regs.u.update(UsizeReg::U1.index(), 1),
        run_states(c, m, 2).0.overflow == c.overflow,
        run_states(c, m, 2).1 == m,
{
    lemma_cycle_one(c, m);
    lemma_extend(c, m, 1);
}

/// `U1 > 0` at the second test: jump to 12, `PushU U1`, `MU U2, 4`.
proof fn lemma_fib_push(c: CpuView, m: MemView, n: usize)
    requires
        m.code == fib_code(n),
        c.pc() == 9,
        c.regs.u.len() == 8,
        c.u(UsizeReg::U2) == 12,
        c.u(UsizeReg::U1) > 0,
    ensures
        continues(c, m, 3),
        run_states(c, m, 3).0.pc() == 14,
        run_states(c, m, 3).0.bp() == c.bp(),
        run_states(c, m, 3).0.regs.u == c.regs.u.update(UsizeReg::U2.index(), 4),
        run_states(c, m, 3).0.overflow == c.overflow,
        run_states(c, m, 3).1 == m.with_stack(m.stack.push(RegType::Usize(c.u(UsizeReg::U1)))),
{
    lemma_cycle_one(c, m);
    lemma_extend(c, m, 1);
    lemma_extend(c, m, 2);
}

/// Between the two recursive calls: `PopU U2`, `PushU U1`, `MU U1, 1`,
/// `SubU U1, U2, U1`, `MU U2, 4`.
proof fn lemma_fib_mid(c: CpuView, m: MemView, n: usize, s: Seq<RegType>, j: usize)
    requires
        m.code == fib_code(n),
        c.pc() == 15,
        c.regs.u.len() == 8,
        m.stack == s.push(RegType::Usize(j)),
        j >= 1,
    ensures
        continues(c, m, 5),
        run_states(c, m, 5).0.pc() == 20,
        run_states(c, m, 5).0.bp() == c.bp(),
        run_states(c, m, 5).0.regs.u == c.regs.u.update(UsizeReg::U2.index(), 4).update(
            UsizeReg::U1.index(),
            (j - 1) as usize,
        ),
        run_states(c, m, 5).0.overflow == c.overflow,
        run_states(c, m, 5).1 == m.with_stack(s.push(RegType::Usize(c.u(UsizeReg::U1)))),
{
    assert(m.stack.drop_last() =~= s);
    lemma_cycle_one(c, m);
    lemma_extend(c, m, 1);
    lemma_extend(c, m, 2);
    lemma_extend(c, m, 3);
    lemma_extend(c, m, 4);
}

/// After the second recursive call: `PopU U2`, `AddU U1, U2, U1`.
proof fn lemma_fib_add(c: CpuView, m: MemView, n: usize, s: Seq<RegType>, j: usize)
    requires
        m.code == fib_code(n),
        c.pc() == 21,
        c.regs.u.len() == 8,
        m.stack == s.push(RegType::Usize(j)),
        j + c.u(UsizeReg::U1) <= usize::MAX,
    ensures
        continues(c, m, 2),
        run_states(c, m, 2).0.pc() == 23,
        run_states(c, m, 2).0.bp() == c.bp(),
        run_states(c, m, 2).0.regs.u == c.regs.u.update(UsizeReg::U2.index(), j).update(
            UsizeReg::U1.index(),
            (j + c.u(UsizeReg::U1)) as usize,
        ),
        run_states(c, m, 2).0.overflow == c.overflow,
        run_states(c, m, 2).1 == m.with_stack(s),
{
    assert(m.stack.drop_last() =~= s);
    lemma_cycle_one(c, m);
    lemma_extend(c, m, 1);
}

/// A call of the subroutine with `U1 = k` takes `fib_steps(k)` cycles, all of
/// which go on, and returns to the instruction after the call with `fib(k)` in
/// `U1`, the caller's base pointer and memory as they were, and the overflow
/// flag untouched.
proof fn lemma_fib_call(c: CpuView, m: MemView, n: usize, k: nat)
    requires
        m.code == fib_code(n),
        fib_call_site(c),
        c.regs.u.len() == 8,
        c.u(UsizeReg::U1) == k,
        fib(k) <= usize::MAX,
        m.stack.len() + 3 * k + 3 <= usize::MAX,
    ensures
        continues(c, m, fib_steps(k)),
        run_states(c, m, fib_steps(k)).1 == m,
        run_states(c, m, fib_steps(k)).0.pc() == c.pc() + 1,
        run_states(c, m, fib_steps(k)).0.bp() == c.bp(),
        run_states(c, m, fib_steps(k)).0.u(UsizeReg::U1) == fib(k),
        run_states(c, m, fib_steps(k)).0.overflow == c.overflow,
        run_states(c, m, fib_steps(k)).0.regs.u.len() == 8,
    decreases k,
{
    let s = m.stack;
    let ret = (c.pc() + 1) as usize;
    let s2 = s.push(RegType::Usize(c.bp())).push(RegType::Usize(ret));
    lemma_fib_enter(c, m, n);
    let (c2, m2) = run_states(c, m, 2);
    assert(c2.u(UsizeReg::U1) == k && c2.u(UsizeReg::U2) == 7);
    if k == 0 {
        lemma_fib_zero(c2, m2, n);
        lemma_continues_trans(c, m, 2, 1);
        let (c3, m3) = run_states(c, m, 3);
        lemma_fib_ret(c3, m3, n, s, c.bp(), ret);
        lemma_continues_trans(c, m, 3, 1);
        assert(m.with_stack(s) == m);
    } else {
        lemma_fib_down(c2, m2, n);
        lemma_continues_trans(c, m, 2, 3);
        let (c5, m5) = run_states(c, m, 5);
        assert(c5.u(UsizeReg::U1) == k - 1 && c5.u(UsizeReg::U2) == 12 && m5 == m2);
        if k == 1 {
            lemma_fib_one(c5, m5, n);
            lemma_continues_trans(c, m, 5, 2);
            let (c7, m7) = run_states(c, m, 7);
            assert(c7.u(UsizeReg::U1) == 1);
            lemma_fib_ret(c7, m7, n, s, c.bp(), ret);
            lemma_continues_trans(c, m, 7, 1);
            assert(m.with_stack(s) == m);
        } else {
            lemma_fib_grows(k);
            let k1 = (k - 1) as nat;
            let k2 = (k - 2) as nat;
            lemma_fib_push(c5, m5, n);
            lemma_continues_trans(c, m, 5, 3);
            let (c8, m8) = run_states(c, m, 8);
            let s3 = s2.push(RegType::Usize(k1 as usize));
            assert(c8.u(UsizeReg::U1) == k1 && m8.stack == s3);
            lemma_fib_call(c8, m8, n, k1);
            lemma_continues_trans(c, m, 8, fib_steps(k1));
            let a = 8 + fib_steps(k1);
            let (c9, m9) = run_states(c, m, a);
            lemma_fib_mid(c9, m9, n, s2, k1 as usize);
            lemma_continues_trans(c, m, a, 5);
            let (c14, m14) = run_states(c, m, a + 5);
            let s4 = s2.push(RegType::Usize(fib(k1) as usize));
            assert(c14.u(UsizeReg::U1) == k2 && m14.stack == s4);
            lemma_fib_call(c14, m14, n, k2);
            lemma_continues_trans(c, m, a + 5, fib_steps(k2));
            let b = a + 5 + fib_steps(k2);
            let (c15, m15) = run_states(c, m, b);
            lemma_fib_add(c15, m15, n, s2, fib(k1) as usize);
            lemma_continues_trans(c, m, b, 2);
            let (c17, m17) = run_states(c, m, b + 2);
            assert(c17.u(UsizeReg::U1) == fib(k));
            lemma_fib_ret(c17, m17, n, s, c.bp(), ret);
            lemma_continues_trans(c, m, b + 2, 1);
            assert(m.with_stack(s) == m);
            assert(b + 3 == fib_steps(k));
        }
    }
}

proof fn lemma_fib_steps_lower(k: nat)
    ensures
        fib_steps(k) >= 4 * k + 4,
    decreases k,
{
    if k >= 2 {
        lemma_fib_steps_lower((k - 1) as nat);
        lemma_fib_steps_lower((k - 2) as nat);
    }
}

/// On a fresh machine the sample program halts with `fib(n)` in `U1`, the
/// value the direct computation gives, whenever `fib(n)` fits in a word and
/// the run fits in the cycle budget. It halts at the `Halt` after the call,
/// so the program counter ends at 4, with every frame unwound: the stack is
/// empty again and the heap untouched.
pub proof fn lemma_fib_program(n: usize)
    requires
        fib(n as nat) <= usize::MAX,
        fib_steps(n as nat) + 3 <= FIB_STEPS,
    ensures
        fib_run_result(n) == Some(fib(n as nat) as usize),
        fib_run(n).2 == Err::<Pause, CpuErr>(CpuErr::ISAErr(ISAErr::Halt)),
        fib_run(n).0.u(UsizeReg::U1) == fib(n as nat),
        fib_run(n).0.pc() == 4,
        fib_run(n).0.bp() == 0,
        fib_run(n).1 == fib_mem(n),
        fib_run(n).1.stack.len() == 0,
{
    let m = fib_mem(n);
    let c = zero_cpu();
    lemma_cycle_one(c, m);
    lemma_extend(c, m, 1);
    let (c2, m2) = run_states(c, m, 2);
    assert(c2.pc() == 2 && c2.u(UsizeReg::U8) == 4 && c2.u(UsizeReg::U1) == n && m2 == m);
    lemma_fib_steps_lower(n as nat);
    lemma_fib_call(c2, m2, n, n as nat);
    lemma_continues_trans(c, m, 2, fib_steps(n as nat));
    let t = 2 + fib_steps(n as nat);
    let (c3, m3) = run_states(c, m, t);
    assert(c3.pc() == 3 && c3.u(UsizeReg::U1) == fib(n as nat) && m3 == m);
    let rest = (FIB_STEPS - t) as nat;
    lemma_run_split(c, m, t, rest);
    assert(t + rest == FIB_STEPS);
    assert(cycle(c3, m3).2 == Some(Err::<Pause, CpuErr>(CpuErr::ISAErr(ISAErr::Halt))));
}

} // verus!
