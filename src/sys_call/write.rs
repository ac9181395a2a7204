//! The write syscall: `U2` holds a heap address and `U3` a length in bytes.
//! The payload is that many bytes of the cells from the address on, each cell
//! encoded as its little-endian words. After the host has written it, `U4`
//! holds the status (0 for success) and `U5` the number of bytes written.
use vstd::prelude::*;

use super::SysCallErr;
use crate::cpu::CpuCore;
use crate::isa::{RegType, UsizeReg};
use crate::memory::heap::{
    lemma_f64s_bytes_len, lemma_le_bytes_len, lemma_usizes_bytes_len, word_bytes, HeapObj,
};
use crate::memory::{heap_cell, zero, Memory};

verus! {

/// Failures of the write syscall.
#[derive(Clone, Copy, Debug, PartialEq, Eq, Structural)]
pub enum WriteErr {
    UTF8Err,
    IOError,
}

impl From<WriteErr> for SysCallErr {
    fn from(err: WriteErr) -> (r: Self)
        ensures
            r == SysCallErr::WriteErr(err),
    {
        SysCallErr::WriteErr(err)
    }
}

impl vstd::std_specs::convert::FromSpecImpl<WriteErr> for SysCallErr {
    open spec fn obeys_from_spec() -> bool {
        true
    }

    open spec fn from_spec(err: WriteErr) -> SysCallErr {
        SysCallErr::WriteErr(err)
    }
}

/// The bytes of the `n` cells from `addr` on, one after the other.
pub open spec fn region_bytes(h: Seq<HeapObj>, addr: int, n: nat) -> Seq<u8>
    decreases n,
{
    if n == 0 {
        Seq::empty()
    } else {
        region_bytes(h, addr, (n - 1) as nat) + heap_cell(h, addr + n - 1).bytes()
    }
}

/// What the write syscall sends: the first `len` bytes of the region at `addr`.
pub open spec fn write_payload(h: Seq<HeapObj>, addr: int, len: nat) -> Seq<u8> {
    region_bytes(h, addr, len).take(len as int)
}

/// Every cell encodes to at least one word.
proof fn lemma_cell_bytes_len(o: HeapObj)
    ensures
        o.bytes().len() >= 8,
{
    lemma_le_bytes_len(0, 8);
    match o {
        HeapObj::R(v) => {
            lemma_le_bytes_len(
                match v {
                    RegType::Usize(u) => u as nat,
                    RegType::F64(f) => f as nat,
                },
                8,
            );
        },
        HeapObj::UArray(u) => lemma_usizes_bytes_len(u@),
        HeapObj::FArray(f) => lemma_f64s_bytes_len(f@),
    }
}

proof fn lemma_region_len(h: Seq<HeapObj>, addr: int, n: nat)
    ensures
        region_bytes(h, addr, n).len() >= n,
    decreases n,
{
    if n > 0 {
        lemma_region_len(h, addr, (n - 1) as nat);
        lemma_cell_bytes_len(heap_cell(h, addr + n - 1));
    }
}

/// A shorter region is a prefix of a longer one.
proof fn lemma_region_prefix(h: Seq<HeapObj>, addr: int, k: nat, n: nat)
    requires
        k <= n,
    ensures
        region_bytes(h, addr, k).len() <= region_bytes(h, addr, n).len(),
        region_bytes(h, addr, n).take(region_bytes(h, addr, k).len() as int) == region_bytes(
            h,
            addr,
            k,
        ),
    decreases n,
{
    if k < n {
        lemma_region_prefix(h, addr, k, (n - 1) as nat);
        let a = region_bytes(h, addr, (n - 1) as nat);
        let b = heap_cell(h, addr + n - 1).bytes();
        assert((a + b).take(region_bytes(h, addr, k).len() as int) =~= a.take(
            region_bytes(h, addr, k).len() as int,
        ));
    } else {
        assert(region_bytes(h, addr, n).take(region_bytes(h, addr, n).len() as int) =~= region_bytes(
            h,
            addr,
            n,
        ));
    }
}

/// A write of at most one word's length starting at a scalar integer cell
/// sends the low bytes of that word, least significant first.
pub proof fn lemma_write_word(h: Seq<HeapObj>, addr: int, w: usize, len: nat)
    requires
        0 <= addr < h.len(),
        h[addr] == HeapObj::R(RegType::Usize(w)),
        1 <= len <= 8,
    ensures
        write_payload(h, addr, len) == word_bytes(w as nat).take(len as int),
{
    lemma_le_bytes_len(w as nat, 8);
    lemma_region_prefix(h, addr, 1, len);
    reveal_with_fuel(region_bytes, 2);
    let r1 = region_bytes(h, addr, 1);
    assert(heap_cell(h, addr).bytes() == word_bytes(w as nat));
    assert(r1 =~= word_bytes(w as nat));
    let rn = region_bytes(h, addr, len);
    assert(rn.take(len as int) =~= r1.take(len as int));
}

/// The payload of the write syscall, from the address in `U2` and the length in `U3`.
pub fn write_std_payload(core: &CpuCore, mem: &Memory) -> (r: Vec<u8>)
    ensures
        r@ == write_payload(mem@.heap, core@.u(UsizeReg::U2) as int, core@.u(UsizeReg::U3) as nat),
{
    let addr = core.get_u_reg(UsizeReg::U2);
    let len = core.get_u_reg(UsizeReg::U3);
    let ghost h = mem@.heap;
    let mut out: Vec<u8> = Vec::new();
    let mut k: usize = 0;
    proof {
        lemma_region_len(h, addr as int, 0);
    }
    while out.len() < len
        invariant
            out@ == region_bytes(h, addr as int, k as nat),
            out@.len() >= k,
            k <= len,
            h == mem@.heap,
        decreases len - k,
    {
        let mut cell = match addr.checked_add(k) {
            Some(a) => mem.heap_obj_bytes(a),
            None => zero().get_u8_vec(),
        };
        proof {
            mem.lemma_bounds();
            lemma_cell_bytes_len(heap_cell(h, addr + k));
            assert(cell@ == heap_cell(h, addr + k).bytes());
        }
        out.append(&mut cell);
        k += 1;
        assert(out@ == region_bytes(h, addr as int, k as nat));
    }
    proof {
        lemma_region_prefix(h, addr as int, k as nat, len as nat);
        lemma_region_len(h, addr as int, len as nat);
        let rk = region_bytes(h, addr as int, k as nat);
        let rn = region_bytes(h, addr as int, len as nat);
        assert(rn.take(len as int) =~= rk.take(len as int));
    }
    out.truncate(len);
    out
}

/// Records the host's answer to the write syscall: `Some(n)` when `n` bytes were
/// written (status 0, count `n`), `None` when writing failed (status 1, and the
/// syscall fails).
pub fn write_std_done(core: &mut CpuCore, written: Option<usize>) -> (r: Result<(), SysCallErr>)
    ensures
        match written {
            Some(n) => r is Ok && final(core)@ == old(core)@.with_u(UsizeReg::U4, 0).with_u(
                UsizeReg::U5,
                n,
            ),
            None => r == Err::<(), SysCallErr>(SysCallErr::WriteErr(WriteErr::IOError))
                && final(core)@ == old(core)@.with_u(UsizeReg::U4, 1),
        },
        final(core)@.u(UsizeReg::U4) == (if written is Some {
            0usize
        } else {
            1usize
        }),
        written is Some ==> final(core)@.u(UsizeReg::U5) == written.unwrap(),
        forall|reg: UsizeReg|
            reg != UsizeReg::U4 && reg != UsizeReg::U5 ==> #[trigger] final(core)@.u(reg)
                == old(core)@.u(reg),
        final(core)@.regs.f == old(core)@.regs.f,
        final(core)@.regs.pc == old(core)@.regs.pc,
        final(core)@.regs.bp == old(core)@.regs.bp,
        final(core)@.overflow == old(core)@.overflow,
{
    proof {
        core.lemma_banks();
    }
    match written {
        Some(l) => {
            core.set_u_reg(UsizeReg::U4, 0);
            core.set_u_reg(UsizeReg::U5, l);
            Ok(())
        },
        None => {
            core.set_u_reg(UsizeReg::U4, 1);
            Err(SysCallErr::WriteErr(WriteErr::IOError))
        },
    }
}

} // verus!
