//! What each instruction does, as a spec function, and the code that does it.
//!
//! The program counter has already been advanced past the instruction when
//! these run; only control-flow instructions write it.
use vstd::prelude::*;

use super::{CpuCore, CpuView, Pause};
use crate::isa::{F64Reg, F64RegType, Flags, FloatOp, FloatReq, ISAErr, Inst, RegType, UsizeReg};
use crate::memory::{
    heap_grown, heap_read_f, heap_read_u, heap_written, stack_dropped, stack_in_bounds,
    stack_pop_val, stack_popped, stack_read, MemView, Memory,
};
use crate::sys_call::{sys_call_at, sys_call_lookup};

verus! {

/// What an instruction yields: go on (`Ok(None)`), wait on the host
/// (`Ok(Some(..))`), or stop with a fault (`Err`).
pub type InstOut = Result<Option<Pause>, ISAErr>;

/// Sign bit of a double's bit pattern; negation flips it.
pub const SIGN_BIT: u64 = 0x8000_0000_0000_0000;

pub open spec fn cont(c: CpuView, m: MemView) -> (CpuView, MemView, InstOut) {
    (c, m, Ok(None))
}

pub open spec fn fault(c: CpuView, m: MemView, e: ISAErr) -> (CpuView, MemView, InstOut) {
    (c, m, Err(e))
}

/// Overflow-checked write of the integer result `v` to `d`: on overflow the
/// destination keeps its value and the overflow flag is set.
pub open spec fn checked(c: CpuView, d: UsizeReg, v: int) -> CpuView {
    if 0 <= v <= usize::MAX {
        c.with_u(d, v as usize)
    } else {
        c.with_overflow()
    }
}

pub open spec fn float_req(op: FloatOp, d: F64Reg, l: F64RegType, r: F64RegType) -> InstOut {
    Ok(Some(Pause::Float(FloatReq { op, dst: d, lhs: l, rhs: r })))
}

/// Register-to-register instructions: moves, integer and bit arithmetic, float requests.
pub open spec fn exec_alu(c: CpuView, inst: Inst) -> (CpuView, InstOut) {
    match inst {
        Inst::MU(r, v) => (c.with_u(r, v), Ok(None)),
        Inst::MD(r, v) => (c.with_f(r, v), Ok(None)),
        Inst::MovU(d, s) => (c.with_u(d, c.u(s)), Ok(None)),
        Inst::MovD(d, s) => (c.with_f(d, c.f(s)), Ok(None)),
        Inst::Mod(d, a, b) => if c.u(b) == 0 {
            (c, Err(ISAErr::DivByZero))
        } else {
            (c.with_u(d, (c.u(a) % c.u(b)) as usize), Ok(None))
        },
        Inst::DivU(d, a, b) => if c.u(b) == 0 {
            (c, Err(ISAErr::DivByZero))
        } else {
            (c.with_u(d, (c.u(a) / c.u(b)) as usize), Ok(None))
        },
        Inst::AddU(d, a, b) => (checked(c, d, c.u(a) + c.u(b)), Ok(None)),
        Inst::AddUI(r, v) => (checked(c, r, c.u(r) + v), Ok(None)),
        Inst::SubU(d, a, b) => (checked(c, d, c.u(a) - c.u(b)), Ok(None)),
        Inst::SubUI(r, v) => (checked(c, r, c.u(r) - v), Ok(None)),
        Inst::MulU(d, a, b) => (checked(c, d, c.u(a) * c.u(b)), Ok(None)),
        Inst::And(d, a, b) => (c.with_u(d, c.u(a) & c.u(b)), Ok(None)),
        Inst::Or(d, a, b) => (c.with_u(d, c.u(a) | c.u(b)), Ok(None)),
        Inst::Xor(d, a, b) => (c.with_u(d, c.u(a) ^ c.u(b)), Ok(None)),
        Inst::Not(d, s) => (c.with_u(d, !c.u(s)), Ok(None)),
        Inst::NegU(d, s) => (checked(c, d, -c.u(s)), Ok(None)),
        Inst::Shl(d, s) => (checked(c, d, c.u(s) * 2), Ok(None)),
        Inst::Shr(d, s) => if c.u(s) % 2 == 1 {
            (c.with_overflow(), Ok(None))
        } else {
            (c.with_u(d, (c.u(s) / 2) as usize), Ok(None))
        },
        Inst::NegD(d, s) => (c.with_f(d, c.f(s) ^ SIGN_BIT), Ok(None)),
        Inst::AddD(d, a, b) => (c, float_req(FloatOp::Add, d, c.f(a), c.f(b))),
        Inst::AddDI(r, v) => (c, float_req(FloatOp::Add, r, c.f(r), v)),
        Inst::SubD(d, a, b) => (c, float_req(FloatOp::Sub, d, c.f(a), c.f(b))),
        Inst::SubDI(r, v) => (c, float_req(FloatOp::Sub, r, c.f(r), v)),
        Inst::MulD(d, a, b) => (c, float_req(FloatOp::Mul, d, c.f(a), c.f(b))),
        Inst::DivD(d, a, b) => (c, float_req(FloatOp::Div, d, c.f(a), c.f(b))),
        _ => (c, Ok(None)),
    }
}

/// Heap and stack instructions.
pub open spec fn exec_mem(c: CpuView, m: MemView, inst: Inst) -> (CpuView, MemView, InstOut) {
    match inst {
        Inst::LoadUH(v, a) => {
            let m2 = m.with_heap(heap_grown(m.heap, c.u(a) as int));
            match heap_read_u(m.heap, c.u(a) as int) {
                Ok(x) => cont(c.with_u(v, x), m2),
                Err(e) => fault(c, m2, e),
            }
        },
        Inst::LoadDH(v, a) => {
            let m2 = m.with_heap(heap_grown(m.heap, c.u(a) as int));
            match heap_read_f(m.heap, c.u(a) as int) {
                Ok(x) => cont(c.with_f(v, x), m2),
                Err(e) => fault(c, m2, e),
            }
        },
        Inst::StoreUH(v, a) => cont(
            c,
            m.with_heap(heap_written(m.heap, c.u(a) as int, RegType::Usize(c.u(v)))),
        ),
        Inst::StoreDH(v, a) => cont(
            c,
            m.with_heap(heap_written(m.heap, c.u(a) as int, RegType::F64(c.f(v)))),
        ),
        Inst::LoadUS(v, a) => match stack_read(m.stack, c.bp() as int, c.u(a) as int) {
            Ok(RegType::Usize(x)) => cont(c.with_u(v, x), m),
            Ok(_) => fault(c, m, ISAErr::TypeMismatch),
            Err(e) => fault(c, m, e),
        },
        Inst::LoadDS(v, a) => match stack_read(m.stack, c.bp() as int, c.u(a) as int) {
            Ok(RegType::F64(x)) => cont(c.with_f(v, x), m),
            Ok(_) => fault(c, m, ISAErr::TypeMismatch),
            Err(e) => fault(c, m, e),
        },
        Inst::StoreUS(v, a) => if stack_in_bounds(m.stack, c.bp() as int, c.u(a) as int) {
            cont(c, m.with_stack(m.stack.update(c.bp() + c.u(a), RegType::Usize(c.u(v)))))
        } else {
            fault(c, m, ISAErr::InvalidStackAddr)
        },
        Inst::StoreDS(v, a) => if stack_in_bounds(m.stack, c.bp() as int, c.u(a) as int) {
            cont(c, m.with_stack(m.stack.update(c.bp() + c.u(a), RegType::F64(c.f(v)))))
        } else {
            fault(c, m, ISAErr::InvalidStackAddr)
        },
        Inst::PushU(r) => cont(c, m.with_stack(m.stack.push(RegType::Usize(c.u(r))))),
        Inst::PushD(r) => cont(c, m.with_stack(m.stack.push(RegType::F64(c.f(r))))),
        Inst::PopU(r) => {
            let m2 = m.with_stack(stack_popped(m.stack));
            match stack_pop_val(m.stack) {
                Ok(RegType::Usize(x)) => cont(c.with_u(r, x), m2),
                Ok(_) => fault(c, m2, ISAErr::TypeMismatch),
                Err(e) => fault(c, m2, e),
            }
        },
        Inst::PopD(r) => {
            let m2 = m.with_stack(stack_popped(m.stack));
            match stack_pop_val(m.stack) {
                Ok(RegType::F64(x)) => cont(c.with_f(r, x), m2),
                Ok(_) => fault(c, m2, ISAErr::TypeMismatch),
                Err(e) => fault(c, m2, e),
            }
        },
        _ => cont(c, m),
    }
}

/// The stack after a call from frame `bp` that returns to `ret`.
pub open spec fn call_stack(s: Seq<RegType>, bp: usize, ret: usize) -> Seq<RegType> {
    s.push(RegType::Usize(bp)).push(RegType::Usize(ret))
}

/// Return: cut the stack back to the frame header, then pop the saved pc and bp.
pub open spec fn exec_ret(c: CpuView, m: MemView) -> (CpuView, MemView, InstOut) {
    let s1 = stack_dropped(m.stack, c.bp() as int);
    let s2 = stack_popped(s1);
    let s3 = stack_popped(s2);
    match stack_pop_val(s1) {
        Err(e) => fault(c, m.with_stack(s2), e),
        Ok(pcv) => match stack_pop_val(s2) {
            Err(e) => fault(c, m.with_stack(s3), e),
            Ok(bpv) => match (pcv, bpv) {
                (RegType::Usize(p), RegType::Usize(b)) => cont(
                    c.with_pc(p).with_bp(b),
                    m.with_stack(s3),
                ),
                _ => fault(c, m.with_stack(s3), ISAErr::TypeMismatch),
            },
        },
    }
}

/// Jumps, call and return, halt, syscalls and the reserved opcodes.
pub open spec fn exec_ctrl(c: CpuView, m: MemView, inst: Inst) -> (CpuView, MemView, InstOut) {
    match inst {
        Inst::Jo(a) => cont(if c.overflow { c.with_pc(c.u(a)) } else { c }, m),
        Inst::Jno(a) => cont(if !c.overflow { c.with_pc(c.u(a)) } else { c }, m),
        Inst::Je(a, x, y) => cont(if c.u(x) == c.u(y) { c.with_pc(c.u(a)) } else { c }, m),
        Inst::Jne(a, x, y) => cont(if c.u(x) != c.u(y) { c.with_pc(c.u(a)) } else { c }, m),
        Inst::Jz(a, v) => cont(if c.u(v) == 0 { c.with_pc(c.u(a)) } else { c }, m),
        Inst::Jnz(a, v) => cont(if c.u(v) != 0 { c.with_pc(c.u(a)) } else { c }, m),
        Inst::Jmp(a) => cont(c.with_pc(c.u(a)), m),
        Inst::Call(r) => {
            let s = call_stack(m.stack, c.bp(), c.pc());
            cont(c.with_bp((s.len() - 1) as usize).with_pc(c.u(r)), m.with_stack(s))
        },
        Inst::Ret => exec_ret(c, m),
        Inst::Halt => fault(c, m, ISAErr::Halt),
        Inst::SysCall(r) => match sys_call_at(c.u(r) as int) {
            Some(sc) => (c, m, Ok(Some(Pause::SysCall(sc)))),
            None => fault(c, m, ISAErr::InvalidSysCall),
        },
        Inst::InU(_, _) | Inst::InD(_, _) | Inst::OutU(_, _) | Inst::OutD(_, _) => fault(
            c,
            m,
            ISAErr::NotImplemented,
        ),
        _ => cont(c, m),
    }
}

/// Instructions that touch only the register file.
pub open spec fn is_alu(inst: Inst) -> bool {
    is_arith(inst) || is_logic(inst) || is_float(inst)
}

/// Heap and stack instructions.
pub open spec fn is_mem(inst: Inst) -> bool {
    match inst {
        Inst::LoadUH(_, _) | Inst::LoadDH(_, _) | Inst::StoreUH(_, _) | Inst::StoreDH(_, _)
        | Inst::LoadUS(_, _) | Inst::LoadDS(_, _) | Inst::StoreUS(_, _) | Inst::StoreDS(_, _)
        | Inst::PushU(_) | Inst::PushD(_) | Inst::PopU(_) | Inst::PopD(_) => true,
        _ => false,
    }
}

/// The effect of executing `inst` on CPU `c` and memory `m`.
pub open spec fn exec_inst(c: CpuView, m: MemView, inst: Inst) -> (CpuView, MemView, InstOut) {
    if is_alu(inst) {
        let (c2, r) = exec_alu(c, inst);
        (c2, m, r)
    } else if is_mem(inst) {
        exec_mem(c, m, inst)
    } else {
        exec_ctrl(c, m, inst)
    }
}

fn write_checked(core: &mut CpuCore, d: UsizeReg, v: Option<usize>, Ghost(x): Ghost<int>)
    requires
        v == (if 0 <= x <= usize::MAX {
            Some(x as usize)
        } else {
            None::<usize>
        }),
    ensures
        final(core)@ == checked(old(core)@, d, x),
{
    match v {
        Some(i) => core.set_u_reg(d, i),
        None => core.set_overflow(),
    }
}

/// Integer arithmetic with overflow or division checks.
pub open spec fn is_arith(inst: Inst) -> bool {
    match inst {
        Inst::Mod(_, _, _)
        | Inst::DivU(_, _, _)
        | Inst::AddU(_, _, _)
        | Inst::AddUI(_, _)
        | Inst::SubU(_, _, _)
        | Inst::SubUI(_, _)
        | Inst::MulU(_, _, _)
        | Inst::NegU(_, _)
        | Inst::Shl(_, _)
        | Inst::Shr(_, _) => true,
        _ => false,
    }
}

/// Moves and bitwise operations, which cannot fail.
pub open spec fn is_logic(inst: Inst) -> bool {
    match inst {
        Inst::MU(_, _)
        | Inst::MD(_, _)
        | Inst::MovU(_, _)
        | Inst::MovD(_, _)
        | Inst::And(_, _, _)
        | Inst::Or(_, _, _)
        | Inst::Xor(_, _, _)
        | Inst::Not(_, _)
        | Inst::NegD(_, _) => true,
        _ => false,
    }
}

/// Float arithmetic, handed to the host.
pub open spec fn is_float(inst: Inst) -> bool {
    match inst {
        Inst::AddD(_, _, _)
        | Inst::AddDI(_, _)
        | Inst::SubD(_, _, _)
        | Inst::SubDI(_, _)
        | Inst::MulD(_, _, _)
        | Inst::DivD(_, _, _) => true,
        _ => false,
    }
}

fn run_arith(core: &mut CpuCore, inst: Inst) -> (r: InstOut)
    requires
        is_arith(inst),
    ensures
        (final(core)@, r) == exec_alu(old(core)@, inst),
{
    match inst {
        Inst::Mod(dur, sur1, sur2) => {
            let r1 = core.get_u_reg(sur1);
            let r2 = core.get_u_reg(sur2);
            if r2 == 0 {
                return Err(ISAErr::DivByZero);
            }
            core.set_u_reg(dur, r1 % r2);
        },
        Inst::DivU(dur, sur1, sur2) => {
            let r1 = core.get_u_reg(sur1);
            let r2 = core.get_u_reg(sur2);
            if r2 == 0 {
                return Err(ISAErr::DivByZero);
            }
            core.set_u_reg(dur, r1 / r2);
        },
        Inst::AddU(dur, sur1, sur2) => {
            let r1 = core.get_u_reg(sur1);
            let r2 = core.get_u_reg(sur2);
            write_checked(core, dur, r1.checked_add(r2), Ghost(r1 + r2));
        },
        Inst::AddUI(reg, val) => {
            let r = core.get_u_reg(reg);
            write_checked(core, reg, r.checked_add(val), Ghost(r + val));
        },
        Inst::SubU(dur, sur1, sur2) => {
            let r1 = core.get_u_reg(sur1);
            let r2 = core.get_u_reg(sur2);
            write_checked(core, dur, r1.checked_sub(r2), Ghost(r1 - r2));
        },
        Inst::SubUI(reg, val) => {
            let r = core.get_u_reg(reg);
            write_checked(core, reg, r.checked_sub(val), Ghost(r - val));
        },
        Inst::MulU(dur, sur1, sur2) => {
            let r1 = core.get_u_reg(sur1);
            let r2 = core.get_u_reg(sur2);
            write_checked(core, dur, r1.checked_mul(r2), Ghost(r1 * r2));
        },
        Inst::NegU(dur, sur) => {
            let r = core.get_u_reg(sur);
            let v = if r == 0 {
                Some(0)
            } else {
                None
            };
            write_checked(core, dur, v, Ghost(-r));
        },
        Inst::Shl(dur, sur) => {
            let r = core.get_u_reg(sur);
            write_checked(core, dur, r.checked_mul(2), Ghost(r * 2));
        },
        Inst::Shr(dur, sur) => {
            let r = core.get_u_reg(sur);
            if r % 2 == 1 {
                core.set_overflow();
            } else {
                core.set_u_reg(dur, r / 2);
            }
        },
        _ => {},
    }
    Ok(None)
}

fn run_logic(core: &mut CpuCore, inst: Inst) -> (r: InstOut)
    requires
        is_logic(inst),
    ensures
        (final(core)@, r) == exec_alu(old(core)@, inst),
{
    match inst {
        Inst::MU(reg, val) => core.set_u_reg(reg, val),
        Inst::MD(reg, val) => core.set_f_reg(reg, val),
        Inst::MovU(dr, sr) => {
            let val = core.get_u_reg(sr);
            core.set_u_reg(dr, val)
        },
        Inst::MovD(dr, sr) => {
            let v = core.get_f_reg(sr);
            core.set_f_reg(dr, v)
        },
        Inst::And(dur, sur1, sur2) => {
            let r1 = core.get_u_reg(sur1);
            let r2 = core.get_u_reg(sur2);
            core.set_u_reg(dur, r1 & r2);
        },
        Inst::Or(dur, sur1, sur2) => {
            let r1 = core.get_u_reg(sur1);
            let r2 = core.get_u_reg(sur2);
            core.set_u_reg(dur, r1 | r2);
        },
        Inst::Xor(dur, sur1, sur2) => {
            let r1 = core.get_u_reg(sur1);
            let r2 = core.get_u_reg(sur2);
            core.set_u_reg(dur, r1 ^ r2);
        },
        Inst::Not(dur, sur) => {
            let r = core.get_u_reg(sur);
            core.set_u_reg(dur, !r);
        },
        Inst::NegD(dfr, sfr) => {
            let r = core.get_f_reg(sfr);
            core.set_f_reg(dfr, r ^ SIGN_BIT);
        },
        _ => {},
    }
    Ok(None)
}

fn run_float(core: &mut CpuCore, inst: Inst) -> (r: InstOut)
    requires
        is_float(inst),
    ensures
        (final(core)@, r) == exec_alu(old(core)@, inst),
{
    match inst {
        Inst::AddD(dfr, sfr1, sfr2) => {
            let req = FloatReq {
                op: FloatOp::Add,
                dst: dfr,
                lhs: core.get_f_reg(sfr1),
                rhs: core.get_f_reg(sfr2),
            };
            return Ok(Some(Pause::Float(req)));
        },
        Inst::AddDI(reg, val) => {
            let req = FloatReq { op: FloatOp::Add, dst: reg, lhs: core.get_f_reg(reg), rhs: val };
            return Ok(Some(Pause::Float(req)));
        },
        Inst::SubD(dfr, sfr1, sfr2) => {
            let req = FloatReq {
                op: FloatOp::Sub,
                dst: dfr,
                lhs: core.get_f_reg(sfr1),
                rhs: core.get_f_reg(sfr2),
            };
            return Ok(Some(Pause::Float(req)));
        },
        Inst::SubDI(reg, val) => {
            let req = FloatReq { op: FloatOp::Sub, dst: reg, lhs: core.get_f_reg(reg), rhs: val };
            return Ok(Some(Pause::Float(req)));
        },
        Inst::MulD(dfr, sfr1, sfr2) => {
            let req = FloatReq {
                op: FloatOp::Mul,
                dst: dfr,
                lhs: core.get_f_reg(sfr1),
                rhs: core.get_f_reg(sfr2),
            };
            return Ok(Some(Pause::Float(req)));
        },
        Inst::DivD(dfr, sfr1, sfr2) => {
            let req = FloatReq {
                op: FloatOp::Div,
                dst: dfr,
                lhs: core.get_f_reg(sfr1),
                rhs: core.get_f_reg(sfr2),
            };
            return Ok(Some(Pause::Float(req)));
        },
        _ => {},
    }
    Ok(None)
}

fn is_alu_exec(inst: Inst) -> (r: bool)
    ensures
        r == is_alu(inst),
{
    match inst {
        Inst::MU(_, _)
        | Inst::MD(_, _)
        | Inst::MovU(_, _)
        | Inst::MovD(_, _)
        | Inst::Mod(_, _, _)
        | Inst::DivU(_, _, _)
        | Inst::AddU(_, _, _)
        | Inst::AddUI(_, _)
        | Inst::SubU(_, _, _)
        | Inst::SubUI(_, _)
        | Inst::MulU(_, _, _)
        | Inst::And(_, _, _)
        | Inst::Or(_, _, _)
        | Inst::Xor(_, _, _)
        | Inst::Not(_, _)
        | Inst::NegU(_, _)
        | Inst::Shl(_, _)
        | Inst::Shr(_, _)
        | Inst::NegD(_, _)
        | Inst::AddD(_, _, _)
        | Inst::AddDI(_, _)
        | Inst::SubD(_, _, _)
        | Inst::SubDI(_, _)
        | Inst::MulD(_, _, _)
        | Inst::DivD(_, _, _) => true,
        _ => false,
    }
}

fn run_alu(core: &mut CpuCore, inst: Inst) -> (r: InstOut)
    requires
        is_alu(inst),
    ensures
        (final(core)@, r) == exec_alu(old(core)@, inst),
{
    match inst {
        Inst::Mod(_, _, _)
        | Inst::DivU(_, _, _)
        | Inst::AddU(_, _, _)
        | Inst::AddUI(_, _)
        | Inst::SubU(_, _, _)
        | Inst::SubUI(_, _)
        | Inst::MulU(_, _, _)
        | Inst::NegU(_, _)
        | Inst::Shl(_, _)
        | Inst::Shr(_, _) => run_arith(core, inst),
        Inst::AddD(_, _, _)
        | Inst::AddDI(_, _)
        | Inst::SubD(_, _, _)
        | Inst::SubDI(_, _)
        | Inst::MulD(_, _, _)
        | Inst::DivD(_, _, _) => run_float(core, inst),
        _ => run_logic(core, inst),
    }
}

fn run_heap(core: &mut CpuCore, inst: Inst, memory: &mut Memory) -> (r: InstOut)
    requires
        is_mem(inst),
        inst is LoadUH || inst is LoadDH || inst is StoreUH || inst is StoreDH,
    ensures
        (final(core)@, final(memory)@, r) == exec_mem(old(core)@, old(memory)@, inst),
{
    match inst {
        Inst::LoadUH(reg_v, reg_a) => {
            match memory.get_heap_u_type(core.get_u_reg(reg_a)) {
                Ok(v) => core.set_u_reg(reg_v, v),
                Err(e) => return Err(e),
            }
        },
        Inst::LoadDH(reg_v, reg_a) => {
            match memory.get_heap_f_type(core.get_u_reg(reg_a)) {
                Ok(v) => core.set_f_reg(reg_v, v),
                Err(e) => return Err(e),
            }
        },
        Inst::StoreUH(reg_v, reg_a) => {
            memory.set_heap(core.get_u_reg(reg_a), &RegType::Usize(core.get_u_reg(reg_v)));
        },
        Inst::StoreDH(reg_v, reg_a) => {
            memory.set_heap(core.get_u_reg(reg_a), &RegType::F64(core.get_f_reg(reg_v)));
        },
        _ => {},
    }
    Ok(None)
}

fn run_stack(core: &mut CpuCore, inst: Inst, memory: &mut Memory) -> (r: InstOut)
    requires
        is_mem(inst),
        !(inst is LoadUH || inst is LoadDH || inst is StoreUH || inst is StoreDH),
    ensures
        (final(core)@, final(memory)@, r) == exec_mem(old(core)@, old(memory)@, inst),
{
    match inst {
        Inst::LoadUS(reg_v, reg_a) => {
            match memory.get_stack(core.get_bp(), core.get_u_reg(reg_a)) {
                Ok(RegType::Usize(u)) => core.set_u_reg(reg_v, u),
                Ok(_) => return Err(ISAErr::TypeMismatch),
                Err(e) => return Err(e),
            }
        },
        Inst::LoadDS(reg_v, reg_a) => {
            match memory.get_stack(core.get_bp(), core.get_u_reg(reg_a)) {
                Ok(RegType::F64(f)) => core.set_f_reg(reg_v, f),
                Ok(_) => return Err(ISAErr::TypeMismatch),
                Err(e) => return Err(e),
            }
        },
        Inst::StoreUS(reg_v, reg_a) => {
            let val = RegType::Usize(core.get_u_reg(reg_v));
            match memory.set_stack(core.get_bp(), core.get_u_reg(reg_a), val) {
                Ok(()) => {},
                Err(e) => return Err(e),
            }
        },
        Inst::StoreDS(reg_v, reg_a) => {
            let val = RegType::F64(core.get_f_reg(reg_v));
            match memory.set_stack(core.get_bp(), core.get_u_reg(reg_a), val) {
                Ok(()) => {},
                Err(e) => return Err(e),
            }
        },
        Inst::PushU(ureg) => {
            memory.push_stack(RegType::Usize(core.get_u_reg(ureg)));
        },
        Inst::PushD(freg) => {
            memory.push_stack(RegType::F64(core.get_f_reg(freg)));
        },
        Inst::PopU(ureg) => {
            match memory.pop_stack() {
                Ok(RegType::Usize(v)) => core.set_u_reg(ureg, v),
                Ok(_) => return Err(ISAErr::TypeMismatch),
                Err(e) => return Err(e),
            }
        },
        Inst::PopD(freg) => {
            match memory.pop_stack() {
                Ok(RegType::F64(v)) => core.set_f_reg(freg, v),
                Ok(_) => return Err(ISAErr::TypeMismatch),
                Err(e) => return Err(e),
            }
        },
        _ => {},
    }
    Ok(None)
}

fn run_ret(core: &mut CpuCore, memory: &mut Memory) -> (r: InstOut)
    ensures
        (final(core)@, final(memory)@, r) == exec_ret(old(core)@, old(memory)@),
{
    memory.drop_stack_bp(core.get_bp());
    let pc = match memory.pop_stack() {
        Ok(v) => v,
        Err(e) => return Err(e),
    };
    let bp = match memory.pop_stack() {
        Ok(v) => v,
        Err(e) => return Err(e),
    };
    match (pc, bp) {
        (RegType::Usize(pc), RegType::Usize(bp)) => {
            core.set_pc(pc);
            core.set_bp(bp);
        },
        _ => return Err(ISAErr::TypeMismatch),
    }
    Ok(None)
}

fn jump_if(core: &mut CpuCore, cond: bool, addr_reg: UsizeReg)
    ensures
        final(core)@ == if cond {
            old(core)@.with_pc(old(core)@.u(addr_reg))
        } else {
            old(core)@
        },
{
    if cond {
        let v = core.get_u_reg(addr_reg);
        core.set_pc(v);
    }
}

fn run_ctrl(core: &mut CpuCore, inst: Inst, memory: &mut Memory) -> (r: InstOut)
    requires
        !is_alu(inst),
        !is_mem(inst),
    ensures
        (final(core)@, final(memory)@, r) == exec_ctrl(old(core)@, old(memory)@, inst),
{
    match inst {
        Inst::Nop => {},
        Inst::Jo(addr_reg) => {
            let cond = core.has_flag(Flags::Overflow);
            jump_if(core, cond, addr_reg);
        },
        Inst::Jno(addr_reg) => {
            let cond = !core.has_flag(Flags::Overflow);
            jump_if(core, cond, addr_reg);
        },
        Inst::Je(addr_reg, vreg1, vreg2) => {
            let cond = core.get_u_reg(vreg1) == core.get_u_reg(vreg2);
            jump_if(core, cond, addr_reg);
        },
        Inst::Jne(addr_reg, vreg1, vreg2) => {
            let cond = core.get_u_reg(vreg1) != core.get_u_reg(vreg2);
            jump_if(core, cond, addr_reg);
        },
        Inst::Jz(addr_reg, vreg) => {
            let cond = core.get_u_reg(vreg) == 0;
            jump_if(core, cond, addr_reg);
        },
        Inst::Jnz(addr_reg, vreg) => {
            let cond = core.get_u_reg(vreg) != 0;
            jump_if(core, cond, addr_reg);
        },
        Inst::Jmp(reg) => {
            let v = core.get_u_reg(reg);
            core.set_pc(v);
        },
        Inst::Call(ureg) => {
            let addr = core.get_u_reg(ureg);
            memory.push_stack(RegType::Usize(core.get_bp()));
            memory.push_stack(RegType::Usize(core.get_pc()));
            core.set_bp(memory.get_stack_top_addr());
            core.set_pc(addr);
        },
        Inst::Ret => return run_ret(core, memory),
        Inst::Halt => return Err(ISAErr::Halt),
        Inst::SysCall(ureg) => {
            match sys_call_lookup(core.get_u_reg(ureg)) {
                Some(sc) => return Ok(Some(Pause::SysCall(sc))),
                None => return Err(ISAErr::InvalidSysCall),
            }
        },
        Inst::InU(_, _) | Inst::InD(_, _) | Inst::OutU(_, _) | Inst::OutD(_, _) => {
            return Err(ISAErr::NotImplemented);
        },
        _ => {},
    }
    Ok(None)
}

impl CpuCore {
    /// Executes one instruction against this CPU and `mem`.
    pub fn run_inst(&mut self, inst: &Inst, mem: &mut Memory) -> (r: InstOut)
        ensures
            (final(self)@, final(mem)@, r) == exec_inst(old(self)@, old(mem)@, *inst),
    {
        let inst = *inst;
        if is_alu_exec(inst) {
            run_alu(self, inst)
        } else {
            match inst {
                Inst::LoadUH(_, _)
                | Inst::LoadDH(_, _)
                | Inst::StoreUH(_, _)
                | Inst::StoreDH(_, _) => {
                    run_heap(self, inst, mem)
                },
                Inst::LoadUS(_, _) | Inst::LoadDS(_, _) | Inst::StoreUS(_, _) | Inst::StoreDS(_, _)
                | Inst::PushU(_) | Inst::PushD(_) | Inst::PopU(_) | Inst::PopD(_) => {
                    run_stack(self, inst, mem)
                },
                _ => run_ctrl(self, inst, mem),
            }
        }
    }
}

} // verus!
