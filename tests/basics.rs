use std::mem;

use demo_vm::cpu::CpuErr;
use demo_vm::isa::{ISAErr, Inst, RegType, UsizeRegType};
use demo_vm::memory::heap::HeapObj;
use demo_vm::memory::MemoryErr;
use demo_vm::programs::{fibonacci, vm_fibonacci};
use demo_vm::{VmErr, VmTmp};
use rand::random;

#[test]
fn test_vm() {
    let mut v = VmTmp::new();
    let start_code = vec![Inst::Nop; 1000];
    println!("{:?}", start_code);
    v.set_code(start_code);

    match v.start(100_000) {
        Ok(p) => panic!("unexpected pause {:?}", p),
        Err(e) => match e {
            VmErr::CpuErr(CpuErr::MemoryErr(MemoryErr::InvalidCodeAddr)) => {
                assert_eq!(v.mem_load().0.len(), 1000);
                assert_eq!(v.get_pc(), 1000);
            }
            VmErr::CpuErr(CpuErr::ISAErr(err)) => {
                panic!("ISAErr {:?}", err);
            }
            e => {
                panic!("Err {:?}", e);
            }
        },
    }
}

#[test]
fn test_get_u8_vec() {
    for _ in 0..100 {
        let rand_u: usize = random();
        let heap_obj = HeapObj::R(RegType::Usize(rand_u));
        let u8_vec = heap_obj.get_u8_vec();
        assert_eq!(u8_vec.len(), mem::size_of::<UsizeRegType>());
        assert_eq!(*u8_vec, rand_u.to_le_bytes());
    }
    for _ in 0..100 {
        let rand_f: f64 = random();
        let heap_obj = HeapObj::R(RegType::F64(rand_f.to_bits()));
        let u8_vec = heap_obj.get_u8_vec();
        assert_eq!(u8_vec.len(), mem::size_of::<f64>());
        assert_eq!(*u8_vec, rand_f.to_le_bytes());
    }
    for _ in 0..100 {
        let mut rand_len: usize = random();
        rand_len = rand_len % 1000;
        rand_len += 1;
        let mut u_array = Vec::with_capacity(rand_len);
        for _ in 0..rand_len {
            u_array.push(random());
        }
        let heap_obj = HeapObj::UArray(u_array.clone());
        let u8_vec = heap_obj.get_u8_vec();
        assert_eq!(u8_vec.len(), rand_len * mem::size_of::<UsizeRegType>());
        for i in 0..rand_len {
            assert_eq!(
                u8_vec[i * mem::size_of::<UsizeRegType>()..(i + 1) * mem::size_of::<UsizeRegType>()],
                u_array[i].to_le_bytes()
            );
        }
    }
    for _ in 0..100 {
        let mut rand_len: usize = random();
        rand_len = rand_len % 1000;
        rand_len += 1;
        let mut f_array: Vec<f64> = Vec::with_capacity(rand_len);
        for _ in 0..rand_len {
            f_array.push(random());
        }
        let heap_obj = HeapObj::FArray(f_array.iter().map(|f| f.to_bits()).collect());
        let u8_vec = heap_obj.get_u8_vec();
        assert_eq!(u8_vec.len(), rand_len * mem::size_of::<f64>());
        for i in 0..rand_len {
            assert_eq!(
                u8_vec[i * mem::size_of::<f64>()..(i + 1) * mem::size_of::<f64>()],
                f_array[i].to_le_bytes()
            );
        }
    }
}

#[test]
fn test_vm_fibonacci() {
    for i in 0..10 {
        assert_eq!(vm_fibonacci(i), Some(fibonacci(i)));
    }
}

#[test]
fn halt_is_reported_as_fault_variant() {
    let mut v = VmTmp::new();
    v.set_code(vec![Inst::Halt]);
    assert_eq!(v.start(10), Err(VmErr::CpuErr(CpuErr::ISAErr(ISAErr::Halt))));
}
