//! The instruction set: register identifiers, tagged cell values,
//! instructions and the fault kinds an instruction can raise.
//!
//! Floating-point values are carried as their IEEE-754 bit patterns (`u64`);
//! the engine only moves them around, and hands arithmetic on them to the host.
use vstd::prelude::*;

verus! {

/// Machine word held by an integer register.
pub type UsizeRegType = usize;

/// Bit pattern of a double held by a float register.
pub type F64RegType = u64;

/// Identifiers of the eight integer registers.
#[derive(Clone, Copy, Debug, PartialEq, Eq, Structural)]
pub enum UsizeReg {
    U1,
    U2,
    U3,
    U4,
    U5,
    U6,
    U7,
    U8,
}

/// Identifiers of the eight float registers.
#[derive(Clone, Copy, Debug, PartialEq, Eq, Structural)]
pub enum F64Reg {
    F1,
    F2,
    F3,
    F4,
    F5,
    F6,
    F7,
    F8,
}

impl UsizeReg {
    /// Slot of the register in the integer bank.
    pub open spec fn index(self) -> int {
        match self {
            UsizeReg::U1 => 0,
            UsizeReg::U2 => 1,
            UsizeReg::U3 => 2,
            UsizeReg::U4 => 3,
            UsizeReg::U5 => 4,
            UsizeReg::U6 => 5,
            UsizeReg::U7 => 6,
            UsizeReg::U8 => 7,
        }
    }

    pub fn slot(self) -> (r: usize)
        ensures
            r as int == self.index(),
            r < 8,
    {
        match self {
            UsizeReg::U1 => 0,
            UsizeReg::U2 => 1,
            UsizeReg::U3 => 2,
            UsizeReg::U4 => 3,
            UsizeReg::U5 => 4,
            UsizeReg::U6 => 5,
            UsizeReg::U7 => 6,
            UsizeReg::U8 => 7,
        }
    }
}

impl F64Reg {
    /// Slot of the register in the float bank.
    pub open spec fn index(self) -> int {
        match self {
            F64Reg::F1 => 0,
            F64Reg::F2 => 1,
            F64Reg::F3 => 2,
            F64Reg::F4 => 3,
            F64Reg::F5 => 4,
            F64Reg::F6 => 5,
            F64Reg::F7 => 6,
            F64Reg::F8 => 7,
        }
    }

    pub fn slot(self) -> (r: usize)
        ensures
            r as int == self.index(),
            r < 8,
    {
        match self {
            F64Reg::F1 => 0,
            F64Reg::F2 => 1,
            F64Reg::F3 => 2,
            F64Reg::F4 => 3,
            F64Reg::F5 => 4,
            F64Reg::F6 => 5,
            F64Reg::F7 => 6,
            F64Reg::F8 => 7,
        }
    }
}

/// A tagged value, as stored in a stack slot or a scalar heap cell.
#[derive(Clone, Copy, Debug, PartialEq, Eq, Structural)]
pub enum RegType {
    Usize(UsizeRegType),
    /// A double, by its bit pattern.
    F64(F64RegType),
}

/// The condition bits of the CPU.
#[derive(Clone, Copy, Debug, PartialEq, Eq, Structural)]
pub enum Flags {
    Overflow,
}

/// Faults an instruction can raise; `Halt` is the successful end of a run.
#[derive(Clone, Copy, Debug, PartialEq, Eq, Structural)]
pub enum ISAErr {
    DivByZero,
    TypeMismatch,
    InvalidReg,
    InvalidHeapType,
    InvalidStackAddr,
    InvalidSysCall,
    InvalidSysCallArg,
    SysCallErr,
    NotImplemented,
    Halt,
}

/// Double-precision operations, computed by the host.
#[derive(Clone, Copy, Debug, PartialEq, Eq, Structural)]
pub enum FloatOp {
    Add,
    Sub,
    Mul,
    Div,
}

/// A float operation the engine waits on: `dst := lhs op rhs`.
#[derive(Clone, Copy, Debug, PartialEq, Eq, Structural)]
pub struct FloatReq {
    pub op: FloatOp,
    pub dst: F64Reg,
    pub lhs: F64RegType,
    pub rhs: F64RegType,
}

/// One instruction. Register operands name a bank slot; immediates are literal.
/// For the three-register arithmetic forms the first operand is the destination;
/// for loads and stores the second operand holds the address or stack offset;
/// for jumps the first operand holds the target.
#[derive(Clone, Copy, Debug, PartialEq, Eq, Structural)]
pub enum Inst {
    Nop,
    MU(UsizeReg, UsizeRegType),
    MD(F64Reg, F64RegType),
    MovU(UsizeReg, UsizeReg),
    MovD(F64Reg, F64Reg),
    Mod(UsizeReg, UsizeReg, UsizeReg),
    AddU(UsizeReg, UsizeReg, UsizeReg),
    AddUI(UsizeReg, UsizeRegType),
    AddD(F64Reg, F64Reg, F64Reg),
    AddDI(F64Reg, F64RegType),
    SubU(UsizeReg, UsizeReg, UsizeReg),
    SubUI(UsizeReg, UsizeRegType),
    SubD(F64Reg, F64Reg, F64Reg),
    SubDI(F64Reg, F64RegType),
    MulU(UsizeReg, UsizeReg, UsizeReg),
    MulD(F64Reg, F64Reg, F64Reg),
    DivU(UsizeReg, UsizeReg, UsizeReg),
    DivD(F64Reg, F64Reg, F64Reg),
    And(UsizeReg, UsizeReg, UsizeReg),
    Or(UsizeReg, UsizeReg, UsizeReg),
    Xor(UsizeReg, UsizeReg, UsizeReg),
    Not(UsizeReg, UsizeReg),
    NegU(UsizeReg, UsizeReg),
    NegD(F64Reg, F64Reg),
    Shl(UsizeReg, UsizeReg),
    Shr(UsizeReg, UsizeReg),
    LoadUH(UsizeReg, UsizeReg),
    LoadDH(F64Reg, UsizeReg),
    LoadUS(UsizeReg, UsizeReg),
    LoadDS(F64Reg, UsizeReg),
    StoreUH(UsizeReg, UsizeReg),
    StoreDH(F64Reg, UsizeReg),
    StoreUS(UsizeReg, UsizeReg),
    StoreDS(F64Reg, UsizeReg),
    Jo(UsizeReg),
    Jno(UsizeReg),
    Je(UsizeReg, UsizeReg, UsizeReg),
    Jne(UsizeReg, UsizeReg, UsizeReg),
    Jz(UsizeReg, UsizeReg),
    Jnz(UsizeReg, UsizeReg),
    Jmp(UsizeReg),
    PushU(UsizeReg),
    PushD(F64Reg),
    PopU(UsizeReg),
    PopD(F64Reg),
    Call(UsizeReg),
    SysCall(UsizeReg),
    InU(UsizeReg, UsizeReg),
    InD(F64Reg, UsizeReg),
    OutU(UsizeReg, UsizeReg),
    OutD(F64Reg, UsizeReg),
    Ret,
    Halt,
}

impl Inst {
    /// Instructions that may write the program counter.
    pub open spec fn is_control_flow(self) -> bool {
        match self {
            Inst::Jo(_) | Inst::Jno(_) | Inst::Je(_, _, _) | Inst::Jne(_, _, _) | Inst::Jz(_, _)
            | Inst::Jnz(_, _) | Inst::Jmp(_) | Inst::Call(_) | Inst::Ret => true,
            _ => false,
        }
    }
}

} // verus!
