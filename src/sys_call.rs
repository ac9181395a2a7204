//! The syscall table: host services invoked by index from the instruction stream.
use vstd::prelude::*;

use crate::isa::ISAErr;

pub mod write;

use self::write::WriteErr;

verus! {

/// Entries of the syscall table, in table order.
#[derive(Clone, Copy, Debug, PartialEq, Eq, Structural)]
pub enum SysCall {
    /// Writes a heap region to the host's standard output.
    WriteStd,
}

/// Number of entries in the syscall table.
pub const SYS_CALL_COUNT: usize = 1;

/// The table entry at `idx`, if there is one.
pub open spec fn sys_call_at(idx: int) -> Option<SysCall> {
    if idx == 0 {
        Some(SysCall::WriteStd)
    } else {
        None
    }
}

/// Looks up the syscall with index `idx`.
pub fn sys_call_lookup(idx: usize) -> (r: Option<SysCall>)
    ensures
        r == sys_call_at(idx as int),
        r is Some <==> idx < SYS_CALL_COUNT,
{
    if idx == 0 {
        Some(SysCall::WriteStd)
    } else {
        None
    }
}

/// Failures of a syscall.
#[derive(Clone, Copy, Debug, PartialEq, Eq, Structural)]
pub enum SysCallErr {
    InvalidSysCall,
    InvalidSysCallArg,
    WriteErr(WriteErr),
    ISAErr(ISAErr),
}

/// How a syscall failure ends the run.
pub open spec fn sys_call_fault(err: SysCallErr) -> ISAErr {
    match err {
        SysCallErr::InvalidSysCall => ISAErr::InvalidSysCall,
        SysCallErr::InvalidSysCallArg => ISAErr::InvalidSysCallArg,
        _ => ISAErr::SysCallErr,
    }
}

impl From<SysCallErr> for ISAErr {
    fn from(err: SysCallErr) -> (r: ISAErr)
        ensures
            r == sys_call_fault(err),
    {
        match err {
            SysCallErr::InvalidSysCall => ISAErr::InvalidSysCall,
            SysCallErr::InvalidSysCallArg => ISAErr::InvalidSysCallArg,
            _ => ISAErr::SysCallErr,
        }
    }
}

impl vstd::std_specs::convert::FromSpecImpl<SysCallErr> for ISAErr {
    open spec fn obeys_from_spec() -> bool {
        true
    }

    open spec fn from_spec(err: SysCallErr) -> ISAErr {
        sys_call_fault(err)
    }
}

impl From<ISAErr> for SysCallErr {
    fn from(err: ISAErr) -> (r: SysCallErr)
        ensures
            r == SysCallErr::ISAErr(err),
    {
        SysCallErr::ISAErr(err)
    }
}

impl vstd::std_specs::convert::FromSpecImpl<ISAErr> for SysCallErr {
    open spec fn obeys_from_spec() -> bool {
        true
    }

    open spec fn from_spec(err: ISAErr) -> SysCallErr {
        SysCallErr::ISAErr(err)
    }
}

} // verus!
