use demo_vm::cpu::{CpuErr, Pause};
use demo_vm::isa::{F64Reg, Flags, FloatOp, FloatReq, ISAErr, Inst, RegType, UsizeReg};
use demo_vm::memory::heap::HeapObj;
use demo_vm::memory::{Memory, MemoryErr};
use demo_vm::programs::{fib_program, fibonacci, vm_fibonacci};
use demo_vm::sys_call::SysCall;
use demo_vm::{VmErr, VmTmp};

fn isa(e: ISAErr) -> Result<Pause, VmErr> {
    Err(VmErr::CpuErr(CpuErr::ISAErr(e)))
}

fn vm_with(code: Vec<Inst>) -> VmTmp {
    let mut vm = VmTmp::new();
    vm.set_code(code);
    vm
}

#[test]
fn fibonacci_program_matches_reference() {
    let expected: [usize; 10] = [0, 1, 1, 2, 3, 5, 8, 13, 21, 34];
    for n in 0..10 {
        assert_eq!(vm_fibonacci(n), Some(expected[n]));
        assert_eq!(fibonacci(n), expected[n]);
    }
    assert_eq!(fibonacci(10), 55);
    assert_eq!(fib_program(3).len(), 24);
}

#[test]
fn divide_by_zero_faults_after_fetch_increment() {
    let mut vm = vm_with(vec![
        Inst::MU(UsizeReg::U1, 7),
        Inst::MU(UsizeReg::U2, 0),
        Inst::DivU(UsizeReg::U3, UsizeReg::U1, UsizeReg::U2),
        Inst::Halt,
    ]);
    assert_eq!(vm.start(100), isa(ISAErr::DivByZero));
    assert_eq!(vm.get_pc(), 3);
    assert_eq!(vm.get_u_reg(UsizeReg::U3), 0);
}

#[test]
fn modulo_by_zero_faults() {
    let mut vm = vm_with(vec![Inst::Mod(UsizeReg::U3, UsizeReg::U1, UsizeReg::U2)]);
    assert_eq!(vm.start(100), isa(ISAErr::DivByZero));
}

#[test]
fn nops_then_halt_take_n_plus_one_cycles() {
    for n in [0usize, 1, 5, 100] {
        let mut code = vec![Inst::Nop; n];
        code.push(Inst::Halt);
        let mut vm = vm_with(code.clone());
        assert_eq!(vm.start(n), Ok(Pause::StepLimit));
        assert_eq!(vm.get_pc(), n);
        let mut vm = vm_with(code);
        assert_eq!(vm.start(n + 1), isa(ISAErr::Halt));
        assert_eq!(vm.get_pc(), n + 1);
    }
}

#[test]
fn write_syscall_sends_heap_bytes() {
    let mut word = [0u8; 8];
    word[0] = b'h';
    word[1] = b'i';
    let mut vm = vm_with(vec![
        Inst::MU(UsizeReg::U2, 0),
        Inst::MU(UsizeReg::U3, 2),
        Inst::MU(UsizeReg::U1, 0),
        Inst::SysCall(UsizeReg::U1),
        Inst::Halt,
    ]);
    vm.mem_store(None, Some(vec![HeapObj::R(RegType::Usize(usize::from_le_bytes(word)))]), None);
    assert_eq!(vm.start(100), Ok(Pause::SysCall(SysCall::WriteStd)));
    let payload = vm.sys_write_payload();
    assert_eq!(payload, b"hi".to_vec());
    let mut host_out: Vec<u8> = Vec::new();
    host_out.extend_from_slice(&payload);
    assert_eq!(vm.sys_write_done(Some(host_out.len())), Ok(()));
    assert_eq!(host_out, b"hi".to_vec());
    assert_eq!(vm.get_u_reg(UsizeReg::U4), 0);
    assert_eq!(vm.get_u_reg(UsizeReg::U5), 2);
    assert_eq!(vm.start(100), isa(ISAErr::Halt));
}

#[test]
fn write_syscall_spans_cells_and_fails_on_host_error() {
    let mut vm = vm_with(vec![Inst::SysCall(UsizeReg::U1)]);
    vm.mem_store(
        None,
        Some(vec![HeapObj::R(RegType::Usize(0x4241)), HeapObj::UArray(vec![0x43])]),
        None,
    );
    vm.start(1).unwrap();
    let mut vm2 = vm_with(vec![
        Inst::MU(UsizeReg::U3, 9),
        Inst::MU(UsizeReg::U1, 0),
        Inst::SysCall(UsizeReg::U1),
    ]);
    vm2.mem_store(
        None,
        Some(vec![HeapObj::R(RegType::Usize(0x4241)), HeapObj::UArray(vec![0x43])]),
        None,
    );
    assert_eq!(vm2.start(10), Ok(Pause::SysCall(SysCall::WriteStd)));
    assert_eq!(vm2.sys_write_payload(), vec![0x41, 0x42, 0, 0, 0, 0, 0, 0, 0x43]);
    assert_eq!(vm2.sys_write_done(None), isa(ISAErr::SysCallErr).map(|_| ()));
    assert_eq!(vm2.get_u_reg(UsizeReg::U4), 1);
    assert_eq!(vm.get_u_reg(UsizeReg::U4), 0);
}

#[test]
fn invalid_syscall_index_faults() {
    let mut vm = vm_with(vec![Inst::MU(UsizeReg::U1, 5), Inst::SysCall(UsizeReg::U1)]);
    assert_eq!(vm.start(10), isa(ISAErr::InvalidSysCall));
}

#[test]
fn same_inputs_give_same_run() {
    let code = vec![
        Inst::MU(UsizeReg::U1, usize::MAX),
        Inst::AddUI(UsizeReg::U1, 1),
        Inst::PushU(UsizeReg::U1),
        Inst::StoreUH(UsizeReg::U1, UsizeReg::U2),
        Inst::Halt,
    ];
    let mut a = vm_with(code.clone());
    let mut b = vm_with(code);
    assert_eq!(a.start(50), b.start(50));
    assert_eq!(a.get_pc(), b.get_pc());
    assert_eq!(a.has_flag(Flags::Overflow), b.has_flag(Flags::Overflow));
    assert_eq!(a.get_u_reg(UsizeReg::U1), b.get_u_reg(UsizeReg::U1));
    assert_eq!(a.mem_load().2, b.mem_load().2);
}

#[test]
fn straight_line_instructions_advance_pc_by_one() {
    let code = vec![
        Inst::Nop,
        Inst::MU(UsizeReg::U1, 3),
        Inst::AddU(UsizeReg::U2, UsizeReg::U1, UsizeReg::U1),
        Inst::PushU(UsizeReg::U2),
        Inst::StoreUH(UsizeReg::U2, UsizeReg::U1),
        Inst::Halt,
    ];
    for steps in 0..5 {
        let mut vm = vm_with(code.clone());
        assert_eq!(vm.start(steps), Ok(Pause::StepLimit));
        assert_eq!(vm.get_pc(), steps);
    }
}

#[test]
fn call_and_ret_restore_frame() {
    let mut vm = vm_with(vec![
        Inst::PushU(UsizeReg::U1),
        Inst::MU(UsizeReg::U8, 5),
        Inst::Call(UsizeReg::U8),
        Inst::Halt,
        Inst::Nop,
        Inst::PushU(UsizeReg::U1),
        Inst::PushU(UsizeReg::U1),
        Inst::PopU(UsizeReg::U2),
        Inst::Ret,
    ]);
    assert_eq!(vm.start(2), Ok(Pause::StepLimit));
    let (bp, stack_len) = (vm.get_bp(), vm.mem_load().2.len());
    assert_eq!(vm.start(1), Ok(Pause::StepLimit));
    assert_eq!(vm.get_pc(), 5);
    assert_eq!(vm.get_bp(), 2);
    assert_eq!(vm.start(4), Ok(Pause::StepLimit));
    assert_eq!(vm.get_pc(), 3);
    assert_eq!(vm.get_bp(), bp);
    assert_eq!(vm.mem_load().2.len(), stack_len);
    assert_eq!(vm.start(1), isa(ISAErr::Halt));
}

#[test]
fn ret_on_empty_stack_faults() {
    let mut vm = vm_with(vec![Inst::Ret]);
    assert_eq!(vm.start(1), isa(ISAErr::InvalidStackAddr));
}

#[test]
fn unwritten_heap_reads_zero_twice() {
    let mut vm = vm_with(vec![
        Inst::MU(UsizeReg::U1, 10),
        Inst::MU(UsizeReg::U2, 99),
        Inst::MU(UsizeReg::U3, 99),
        Inst::LoadUH(UsizeReg::U2, UsizeReg::U1),
        Inst::LoadUH(UsizeReg::U3, UsizeReg::U1),
        Inst::Halt,
    ]);
    assert_eq!(vm.start(100), isa(ISAErr::Halt));
    assert_eq!(vm.get_u_reg(UsizeReg::U2), 0);
    assert_eq!(vm.get_u_reg(UsizeReg::U3), 0);
    assert_eq!(vm.mem_load().1.len(), 11);
}

#[test]
fn heap_store_grows_and_loads_back() {
    let mut vm = vm_with(vec![
        Inst::MU(UsizeReg::U1, 3),
        Inst::MU(UsizeReg::U2, 42),
        Inst::StoreUH(UsizeReg::U2, UsizeReg::U1),
        Inst::LoadUH(UsizeReg::U3, UsizeReg::U1),
        Inst::MD(F64Reg::F1, 2.5f64.to_bits()),
        Inst::MU(UsizeReg::U4, 1),
        Inst::StoreDH(F64Reg::F1, UsizeReg::U4),
        Inst::LoadDH(F64Reg::F2, UsizeReg::U4),
        Inst::Halt,
    ]);
    assert_eq!(vm.start(100), isa(ISAErr::Halt));
    assert_eq!(vm.get_u_reg(UsizeReg::U3), 42);
    assert_eq!(f64::from_bits(vm.get_f_reg(F64Reg::F2)), 2.5);
    assert_eq!(vm.mem_load().1.len(), 4);
}

#[test]
fn heap_type_mismatch_faults() {
    let mut vm = vm_with(vec![Inst::LoadDH(F64Reg::F1, UsizeReg::U1)]);
    vm.mem_store(None, Some(vec![HeapObj::R(RegType::Usize(1))]), None);
    assert_eq!(vm.start(10), isa(ISAErr::InvalidHeapType));
    let mut vm = vm_with(vec![Inst::LoadUH(UsizeReg::U2, UsizeReg::U1)]);
    vm.mem_store(None, Some(vec![HeapObj::UArray(Vec::new())]), None);
    assert_eq!(vm.start(10), isa(ISAErr::InvalidHeapType));
    let mut vm = vm_with(vec![Inst::LoadUH(UsizeReg::U2, UsizeReg::U1)]);
    vm.mem_store(None, Some(vec![HeapObj::UArray(vec![7, 8])]), None);
    assert_eq!(vm.start(1), Ok(Pause::StepLimit));
    assert_eq!(vm.get_u_reg(UsizeReg::U2), 7);
}

#[test]
fn stack_access_past_frame_faults_without_growing() {
    let mut vm = vm_with(vec![
        Inst::PushU(UsizeReg::U1),
        Inst::MU(UsizeReg::U2, 1),
        Inst::StoreUS(UsizeReg::U1, UsizeReg::U2),
    ]);
    assert_eq!(vm.start(10), isa(ISAErr::InvalidStackAddr));
    assert_eq!(vm.mem_load().2.len(), 1);
    let mut vm = vm_with(vec![Inst::MU(UsizeReg::U2, 0), Inst::LoadUS(UsizeReg::U1, UsizeReg::U2)]);
    assert_eq!(vm.start(10), isa(ISAErr::InvalidStackAddr));
    assert_eq!(vm.mem_load().2.len(), 0);
}

#[test]
fn stack_relative_load_and_store() {
    let mut vm = vm_with(vec![
        Inst::MU(UsizeReg::U1, 5),
        Inst::PushU(UsizeReg::U1),
        Inst::PushU(UsizeReg::U1),
        Inst::MU(UsizeReg::U2, 1),
        Inst::MU(UsizeReg::U3, 9),
        Inst::StoreUS(UsizeReg::U3, UsizeReg::U2),
        Inst::LoadUS(UsizeReg::U4, UsizeReg::U2),
        Inst::LoadDS(F64Reg::F1, UsizeReg::U2),
    ]);
    assert_eq!(vm.start(100), isa(ISAErr::TypeMismatch));
    assert_eq!(vm.get_u_reg(UsizeReg::U4), 9);
}

#[test]
fn pop_checks_tag() {
    let mut vm = vm_with(vec![Inst::PushD(F64Reg::F1), Inst::PopU(UsizeReg::U1)]);
    assert_eq!(vm.start(10), isa(ISAErr::TypeMismatch));
    assert_eq!(vm.mem_load().2.len(), 0);
    let mut vm = vm_with(vec![Inst::PopD(F64Reg::F1)]);
    assert_eq!(vm.start(10), isa(ISAErr::InvalidStackAddr));
}

#[test]
fn overflow_is_sticky_until_reset() {
    let mut vm = vm_with(vec![
        Inst::MU(UsizeReg::U1, usize::MAX),
        Inst::MU(UsizeReg::U2, 1),
        Inst::AddU(UsizeReg::U3, UsizeReg::U1, UsizeReg::U2),
        Inst::AddU(UsizeReg::U4, UsizeReg::U2, UsizeReg::U2),
        Inst::Halt,
    ]);
    assert_eq!(vm.start(100), isa(ISAErr::Halt));
    assert!(vm.has_flag(Flags::Overflow));
    assert_eq!(vm.get_u_reg(UsizeReg::U3), 0);
    assert_eq!(vm.get_u_reg(UsizeReg::U4), 2);
    vm.reset();
    assert!(!vm.has_flag(Flags::Overflow));
    assert_eq!(vm.get_pc(), 0);
    assert_eq!(vm.mem_load().0.len(), 0);
}

#[test]
fn overflow_cases_of_each_checked_operation() {
    let cases = vec![
        Inst::SubUI(UsizeReg::U2, 1),
        Inst::MulU(UsizeReg::U3, UsizeReg::U1, UsizeReg::U1),
        Inst::NegU(UsizeReg::U3, UsizeReg::U1),
        Inst::Shl(UsizeReg::U3, UsizeReg::U1),
        Inst::Shr(UsizeReg::U3, UsizeReg::U1),
    ];
    for inst in cases {
        let mut vm = vm_with(vec![Inst::MU(UsizeReg::U1, usize::MAX), inst]);
        assert_eq!(vm.start(2), Ok(Pause::StepLimit));
        assert!(vm.has_flag(Flags::Overflow), "{:?}", inst);
    }
}

#[test]
fn overflow_jumps() {
    let mut vm = vm_with(vec![
        Inst::MU(UsizeReg::U8, 4),
        Inst::Jo(UsizeReg::U8),
        Inst::Jno(UsizeReg::U8),
        Inst::Halt,
        Inst::MU(UsizeReg::U1, 1),
        Inst::Halt,
    ]);
    assert_eq!(vm.start(100), isa(ISAErr::Halt));
    assert_eq!(vm.get_u_reg(UsizeReg::U1), 1);
    assert_eq!(vm.get_pc(), 6);
}

#[test]
fn integer_arithmetic_results() {
    let mut vm = vm_with(vec![
        Inst::MU(UsizeReg::U1, 12),
        Inst::MU(UsizeReg::U2, 5),
        Inst::Mod(UsizeReg::U3, UsizeReg::U1, UsizeReg::U2),
        Inst::DivU(UsizeReg::U4, UsizeReg::U1, UsizeReg::U2),
        Inst::MulU(UsizeReg::U5, UsizeReg::U1, UsizeReg::U2),
        Inst::Xor(UsizeReg::U6, UsizeReg::U1, UsizeReg::U2),
        Inst::Shl(UsizeReg::U7, UsizeReg::U1),
        Inst::Shr(UsizeReg::U8, UsizeReg::U1),
        Inst::Halt,
    ]);
    assert_eq!(vm.start(100), isa(ISAErr::Halt));
    assert_eq!(vm.get_u_reg(UsizeReg::U3), 2);
    assert_eq!(vm.get_u_reg(UsizeReg::U4), 2);
    assert_eq!(vm.get_u_reg(UsizeReg::U5), 60);
    assert_eq!(vm.get_u_reg(UsizeReg::U6), 9);
    assert_eq!(vm.get_u_reg(UsizeReg::U7), 24);
    assert_eq!(vm.get_u_reg(UsizeReg::U8), 6);
    assert!(!vm.has_flag(Flags::Overflow));
}

#[test]
fn float_arithmetic_pauses_for_host() {
    let mut vm = vm_with(vec![
        Inst::MD(F64Reg::F1, 1.5f64.to_bits()),
        Inst::MD(F64Reg::F2, 0.0f64.to_bits()),
        Inst::DivD(F64Reg::F3, F64Reg::F1, F64Reg::F2),
        Inst::NegD(F64Reg::F4, F64Reg::F1),
        Inst::Halt,
    ]);
    let req = FloatReq {
        op: FloatOp::Div,
        dst: F64Reg::F3,
        lhs: 1.5f64.to_bits(),
        rhs: 0.0f64.to_bits(),
    };
    assert_eq!(vm.start(100), Ok(Pause::Float(req)));
    let result = f64::from_bits(req.lhs) / f64::from_bits(req.rhs);
    vm.set_f_reg(req.dst, result.to_bits());
    assert_eq!(vm.start(100), isa(ISAErr::Halt));
    assert!(f64::from_bits(vm.get_f_reg(F64Reg::F3)).is_infinite());
    assert_eq!(f64::from_bits(vm.get_f_reg(F64Reg::F4)), -1.5);
}

#[test]
fn reserved_opcodes_fault_not_implemented() {
    for inst in [
        Inst::InU(UsizeReg::U1, UsizeReg::U2),
        Inst::InD(F64Reg::F1, UsizeReg::U2),
        Inst::OutU(UsizeReg::U1, UsizeReg::U2),
        Inst::OutD(F64Reg::F1, UsizeReg::U2),
    ] {
        let mut vm = vm_with(vec![inst]);
        assert_eq!(vm.start(10), isa(ISAErr::NotImplemented));
    }
}

#[test]
fn running_off_the_code_faults() {
    let mut vm = VmTmp::new();
    assert_eq!(vm.start(10), Err(VmErr::CpuErr(CpuErr::MemoryErr(MemoryErr::InvalidCodeAddr))));
}

#[test]
fn memory_segments_store_and_reset() {
    let mut mem = Memory::new();
    mem.store(Some(vec![Inst::Nop]), None, Some(vec![RegType::Usize(1), RegType::Usize(2)]));
    assert_eq!(mem.get_stack_top_addr(), 1);
    assert_eq!(mem.get_stack(1, 0), Ok(RegType::Usize(2)));
    assert_eq!(mem.get_stack(1, 1), Err(ISAErr::InvalidStackAddr));
    assert_eq!(mem.get_stack(usize::MAX, 1), Err(ISAErr::InvalidStackAddr));
    mem.drop_stack_bp(0);
    assert_eq!(mem.load().2, vec![RegType::Usize(1)]);
    assert_eq!(mem.fetch_code(0), Ok(Inst::Nop));
    assert_eq!(mem.fetch_code(1), Err(MemoryErr::InvalidCodeAddr));
    assert_eq!(mem.get_heap_f_type(2), Ok(0));
    assert_eq!(mem.load().1.len(), 3);
    mem.reset();
    let (c, h, s) = mem.load();
    assert!(c.is_empty() && h.is_empty() && s.is_empty());
    assert_eq!(mem.get_stack_top_addr(), 0);
}

#[test]
fn single_steps_report_each_cycle() {
    let mut vm = vm_with(vec![Inst::Nop, Inst::MU(UsizeReg::U1, 9), Inst::Halt]);
    assert_eq!(vm.step(), None);
    assert_eq!(vm.step(), None);
    assert_eq!(vm.get_u_reg(UsizeReg::U1), 9);
    assert_eq!(vm.step(), Some(Err(CpuErr::ISAErr(ISAErr::Halt))));
    assert_eq!(vm.get_pc(), 3);
    assert_eq!(vm.step(), Some(Err(CpuErr::MemoryErr(MemoryErr::InvalidCodeAddr))));
    assert_eq!(vm.get_pc(), 3);
}

#[test]
fn unwritten_heap_reads_zero_twice_as_float() {
    let mut vm = vm_with(vec![
        Inst::MU(UsizeReg::U1, 4),
        Inst::MD(F64Reg::F1, 7.0f64.to_bits()),
        Inst::MD(F64Reg::F2, 7.0f64.to_bits()),
        Inst::LoadDH(F64Reg::F1, UsizeReg::U1),
        Inst::LoadDH(F64Reg::F2, UsizeReg::U1),
        Inst::MU(UsizeReg::U1, 2),
        Inst::LoadDH(F64Reg::F3, UsizeReg::U1),
        Inst::LoadUH(UsizeReg::U2, UsizeReg::U1),
        Inst::Halt,
    ]);
    assert_eq!(vm.start(100), isa(ISAErr::Halt));
    assert_eq!(f64::from_bits(vm.get_f_reg(F64Reg::F1)), 0.0);
    assert_eq!(f64::from_bits(vm.get_f_reg(F64Reg::F2)), 0.0);
    assert_eq!(f64::from_bits(vm.get_f_reg(F64Reg::F3)), 0.0);
    assert_eq!(vm.get_u_reg(UsizeReg::U2), 0);
    assert_eq!(vm.mem_load().1.len(), 5);
}

#[test]
fn memory_float_read_of_grown_cells() {
    let mut mem = Memory::new();
    assert_eq!(mem.get_heap_f_type(3), Ok(0));
    assert_eq!(mem.get_heap_f_type(3), Ok(0));
    assert_eq!(mem.get_heap_f_type(1), Ok(0));
    assert_eq!(mem.get_heap_u_type(3), Ok(0));
    assert_eq!(mem.load().1.len(), 4);
}
