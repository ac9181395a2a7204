//! The three memory segments: code, heap and stack.
//!
//! The heap grows on demand and never faults; the stack is bounds-checked
//! and only addressed relative to a base pointer.
use vstd::prelude::*;

use crate::isa::{F64RegType, ISAErr, Inst, RegType, UsizeRegType};

pub mod heap;

use self::heap::HeapObj;

verus! {

pub type Heap = Vec<HeapObj>;

pub type Stack = Vec<RegType>;

/// Faults of the code segment.
#[derive(Clone, Copy, Debug, PartialEq, Eq, Structural)]
pub enum MemoryErr {
    InvalidCodeAddr,
}

/// The contents of the three segments.
pub struct MemView {
    pub code: Seq<Inst>,
    pub heap: Seq<HeapObj>,
    pub stack: Seq<RegType>,
}

impl MemView {
    pub open spec fn with_code(self, code: Seq<Inst>) -> MemView {
        MemView { code, ..self }
    }

    pub open spec fn with_heap(self, heap: Seq<HeapObj>) -> MemView {
        MemView { heap, ..self }
    }

    pub open spec fn with_stack(self, stack: Seq<RegType>) -> MemView {
        MemView { stack, ..self }
    }
}

#[derive(Debug)]
pub struct Memory {
    code_segment: Vec<Inst>,
    heap_segment: Heap,
    stack_segment: Stack,
}

impl View for Memory {
    type V = MemView;

    closed spec fn view(&self) -> MemView {
        MemView { code: self.code_segment@, heap: self.heap_segment@, stack: self.stack_segment@ }
    }
}

/// What an auto-grown heap cell holds.
pub open spec fn zero_cell() -> HeapObj {
    HeapObj::R(RegType::Usize(0))
}

/// The heap after touching address `a`: extended with zero cells up to `a`
/// when `a` lies past its end. An address that no length can cover
/// (`usize::MAX`) leaves the heap as it is.
pub open spec fn heap_grown(h: Seq<HeapObj>, a: int) -> Seq<HeapObj> {
    if a < h.len() || a >= usize::MAX {
        h
    } else {
        h + Seq::new((a + 1 - h.len()) as nat, |i: int| zero_cell())
    }
}

/// The cell at `a`; past the end, a zero cell.
pub open spec fn heap_cell(h: Seq<HeapObj>, a: int) -> HeapObj {
    if 0 <= a < h.len() {
        h[a]
    } else {
        zero_cell()
    }
}

/// Integer read of heap address `a`: zero past the end.
pub open spec fn heap_read_u(h: Seq<HeapObj>, a: int) -> Result<UsizeRegType, ISAErr> {
    if a < h.len() {
        h[a].as_u()
    } else {
        Ok(0)
    }
}

/// Float read of heap address `a`: the bit pattern of 0.0 past the end, and
/// also from a zero cell, which is what the heap grows with.
pub open spec fn heap_read_f(h: Seq<HeapObj>, a: int) -> Result<F64RegType, ISAErr> {
    if a < h.len() {
        if h[a] == zero_cell() {
            Ok(0)
        } else {
            h[a].as_f()
        }
    } else {
        Ok(0)
    }
}

/// The heap after storing the scalar `v` at `a`, grown first when `a` lies
/// past its end. A store at `usize::MAX`, which no heap length can cover,
/// leaves the heap as it is.
pub open spec fn heap_written(h: Seq<HeapObj>, a: int, v: RegType) -> Seq<HeapObj> {
    if a < h.len() || a < usize::MAX {
        heap_grown(h, a).update(a, HeapObj::R(v))
    } else {
        h
    }
}

/// Stack read at `bp + off`.
pub open spec fn stack_read(s: Seq<RegType>, bp: int, off: int) -> Result<RegType, ISAErr> {
    if bp + off < s.len() {
        Ok(s[bp + off])
    } else {
        Err(ISAErr::InvalidStackAddr)
    }
}

/// Whether `bp + off` addresses a slot of the stack.
pub open spec fn stack_in_bounds(s: Seq<RegType>, bp: int, off: int) -> bool {
    bp + off < s.len()
}

/// Index of the top slot; 0 for an empty stack.
pub open spec fn stack_top(s: Seq<RegType>) -> int {
    if s.len() == 0 {
        0
    } else {
        s.len() - 1
    }
}

/// The stack cut back to the slots up to and including `bp`.
pub open spec fn stack_dropped(s: Seq<RegType>, bp: int) -> Seq<RegType> {
    if bp + 1 <= s.len() {
        s.take(bp + 1)
    } else {
        s
    }
}

/// The stack after a pop.
pub open spec fn stack_popped(s: Seq<RegType>) -> Seq<RegType> {
    if s.len() == 0 {
        s
    } else {
        s.drop_last()
    }
}

/// What a pop returns.
pub open spec fn stack_pop_val(s: Seq<RegType>) -> Result<RegType, ISAErr> {
    if s.len() == 0 {
        Err(ISAErr::InvalidStackAddr)
    } else {
        Ok(s.last())
    }
}

/// Two cells with the same contents.
pub open spec fn same_cell(a: HeapObj, b: HeapObj) -> bool {
    match (a, b) {
        (HeapObj::R(x), HeapObj::R(y)) => x == y,
        (HeapObj::UArray(x), HeapObj::UArray(y)) => x@ == y@,
        (HeapObj::FArray(x), HeapObj::FArray(y)) => x@ == y@,
        _ => false,
    }
}

fn copy_vec<T: Copy>(v: &Vec<T>) -> (r: Vec<T>)
    ensures
        r@ == v@,
{
    let mut r: Vec<T> = Vec::new();
    let mut i: usize = 0;
    while i < v.len()
        invariant
            i <= v@.len(),
            r@ == v@.take(i as int),
        decreases v@.len() - i,
    {
        r.push(v[i]);
        i += 1;
        assert(r@ == v@.take(i as int));
    }
    assert(v@.take(v@.len() as int) == v@);
    r
}

fn copy_cell(c: &HeapObj) -> (r: HeapObj)
    ensures
        same_cell(r, *c),
{
    match c {
        HeapObj::R(v) => HeapObj::R(*v),
        HeapObj::UArray(u) => HeapObj::UArray(copy_vec(u)),
        HeapObj::FArray(f) => HeapObj::FArray(copy_vec(f)),
    }
}

pub(crate) fn zero() -> (r: HeapObj)
    ensures
        r == zero_cell(),
{
    HeapObj::R(RegType::Usize(0))
}

impl Default for Memory {
    fn default() -> (r: Self)
        ensures
            r@.code.len() == 0,
            r@.heap.len() == 0,
            r@.stack.len() == 0,
    {
        Self::new()
    }
}

impl Memory {
    /// Each segment's length fits in a `usize`.
    pub proof fn lemma_bounds(&self)
        ensures
            self@.code.len() <= usize::MAX,
            self@.heap.len() <= usize::MAX,
            self@.stack.len() <= usize::MAX,
    {
        assert(self.code_segment.len() == self.code_segment@.len());
        assert(self.heap_segment.len() == self.heap_segment@.len());
        assert(self.stack_segment.len() == self.stack_segment@.len());
    }

    pub fn new() -> (r: Memory)
        ensures
            r@.code.len() == 0,
            r@.heap.len() == 0,
            r@.stack.len() == 0,
    {
        Memory { code_segment: Vec::new(), heap_segment: Vec::new(), stack_segment: Vec::new() }
    }

    /// Replaces each segment that is given; the others stay.
    pub fn store(&mut self, code: Option<Vec<Inst>>, heap: Option<Heap>, stack: Option<Stack>)
        ensures
            final(self)@.code == (match code {
                Some(c) => c@,
                None => old(self)@.code,
            }),
            final(self)@.heap == (match heap {
                Some(h) => h@,
                None => old(self)@.heap,
            }),
            final(self)@.stack == (match stack {
                Some(s) => s@,
                None => old(self)@.stack,
            }),
    {
        if let Some(c) = code {
            self.code_segment = c;
        }
        if let Some(h) = heap {
            self.heap_segment = h;
        }
        if let Some(s) = stack {
            self.stack_segment = s;
        }
    }

    /// Appends `code` to the code segment.
    pub fn push_code_vec(&mut self, code: Vec<Inst>)
        ensures
            final(self)@ == old(self)@.with_code(old(self)@.code + code@),
    {
        let mut code = code;
        self.code_segment.append(&mut code);
    }

    /// Appends `stack` on top of the stack segment.
    pub fn push_stack_vec(&mut self, stack: Vec<RegType>)
        ensures
            final(self)@ == old(self)@.with_stack(old(self)@.stack + stack@),
    {
        let mut stack = stack;
        self.stack_segment.append(&mut stack);
    }

    /// A snapshot of the three segments.
    pub fn load(&self) -> (r: (Vec<Inst>, Heap, Stack))
        ensures
            r.0@ == self@.code,
            r.1@.len() == self@.heap.len(),
            forall|i: int| 0 <= i < r.1@.len() ==> same_cell(#[trigger] r.1@[i], self@.heap[i]),
            r.2@ == self@.stack,
    {
        let mut heap: Heap = Vec::new();
        let mut i: usize = 0;
        while i < self.heap_segment.len()
            invariant
                i <= self.heap_segment@.len(),
                heap@.len() == i,
                forall|j: int| 0 <= j < i ==> same_cell(#[trigger] heap@[j], self.heap_segment@[j]),
            decreases self.heap_segment@.len() - i,
        {
            heap.push(copy_cell(&self.heap_segment[i]));
            i += 1;
        }
        (copy_vec(&self.code_segment), heap, copy_vec(&self.stack_segment))
    }

    /// Clears all three segments.
    pub fn reset(&mut self)
        ensures
            final(self)@.code.len() == 0,
            final(self)@.heap.len() == 0,
            final(self)@.stack.len() == 0,
    {
        self.code_segment.clear();
        self.heap_segment.clear();
        self.stack_segment.clear();
    }

    pub fn get_stack(&self, bp: UsizeRegType, addr: UsizeRegType) -> (r: Result<RegType, ISAErr>)
        ensures
            r == stack_read(self@.stack, bp as int, addr as int),
    {
        proof {
            self.lemma_bounds();
        }
        match bp.checked_add(addr) {
            Some(i) => {
                if i < self.stack_segment.len() {
                    Ok(self.stack_segment[i])
                } else {
                    Err(ISAErr::InvalidStackAddr)
                }
            },
            None => Err(ISAErr::InvalidStackAddr),
        }
    }

    pub fn set_stack(&mut self, bp: UsizeRegType, addr: UsizeRegType, val: RegType) -> (r: Result<
        (),
        ISAErr,
    >)
        ensures
            stack_in_bounds(old(self)@.stack, bp as int, addr as int) ==> r is Ok
                && final(self)@ == old(self)@.with_stack(old(self)@.stack.update(bp + addr, val)),
            !stack_in_bounds(old(self)@.stack, bp as int, addr as int) ==> r == Err::<(), ISAErr>(
                ISAErr::InvalidStackAddr,
            ) && final(self)@ == old(self)@,
    {
        proof {
            self.lemma_bounds();
        }
        match bp.checked_add(addr) {
            Some(i) => {
                if i < self.stack_segment.len() {
                    self.stack_segment.set(i, val);
                    Ok(())
                } else {
                    Err(ISAErr::InvalidStackAddr)
                }
            },
            None => Err(ISAErr::InvalidStackAddr),
        }
    }

    pub fn push_stack(&mut self, val: RegType)
        ensures
            final(self)@ == old(self)@.with_stack(old(self)@.stack.push(val)),
    {
        self.stack_segment.push(val);
    }

    pub fn pop_stack(&mut self) -> (r: Result<RegType, ISAErr>)
        ensures
            r == stack_pop_val(old(self)@.stack),
            final(self)@ == old(self)@.with_stack(stack_popped(old(self)@.stack)),
    {
        match self.stack_segment.pop() {
            Some(val) => Ok(val),
            None => Err(ISAErr::InvalidStackAddr),
        }
    }

    pub fn get_stack_top_addr(&self) -> (r: UsizeRegType)
        ensures
            r as int == stack_top(self@.stack),
    {
        if self.stack_segment.len() == 0 {
            0
        } else {
            self.stack_segment.len() - 1
        }
    }

    /// Discards every slot above `bp`.
    pub fn drop_stack_bp(&mut self, bp: UsizeRegType)
        ensures
            final(self)@ == old(self)@.with_stack(stack_dropped(old(self)@.stack, bp as int)),
    {
        if bp < self.stack_segment.len() {
            self.stack_segment.truncate(bp + 1);
        }
    }

    pub fn fetch_code(&self, addr: UsizeRegType) -> (r: Result<Inst, MemoryErr>)
        ensures
            addr < self@.code.len() ==> r == Ok::<Inst, MemoryErr>(self@.code[addr as int]),
            addr >= self@.code.len() ==> r == Err::<Inst, MemoryErr>(MemoryErr::InvalidCodeAddr),
    {
        if addr < self.code_segment.len() {
            Ok(self.code_segment[addr])
        } else {
            Err(MemoryErr::InvalidCodeAddr)
        }
    }

    /// Extends the heap with zero cells so that it covers `addr`.
    fn grow_heap(&mut self, addr: UsizeRegType)
        ensures
            final(self)@ == old(self)@.with_heap(heap_grown(old(self)@.heap, addr as int)),
    {
        let ghost h0 = self.heap_segment@;
        if addr < usize::MAX {
            while self.heap_segment.len() <= addr
                invariant
                    addr < usize::MAX,
                    h0.len() <= self.heap_segment@.len(),
                    h0.len() <= addr ==> self.heap_segment@.len() <= addr + 1,
                    h0.len() > addr ==> self.heap_segment@.len() == h0.len(),
                    self.heap_segment@ == h0 + Seq::new(
                        (self.heap_segment@.len() - h0.len()) as nat,
                        |i: int| zero_cell(),
                    ),
                    self.code_segment@ == old(self).code_segment@,
                    self.stack_segment@ == old(self).stack_segment@,
                decreases addr + 1 - self.heap_segment@.len(),
            {
                self.heap_segment.push(zero());
                assert(self.heap_segment@ == h0 + Seq::new(
                    (self.heap_segment@.len() - h0.len()) as nat,
                    |i: int| zero_cell(),
                ));
            }
        }
        proof {
            if h0.len() <= addr && addr < usize::MAX {
                assert(self.heap_segment@ =~= heap_grown(h0, addr as int));
            } else {
                assert(self.heap_segment@ =~= h0);
            }
        }
    }

    pub fn get_heap_u_type(&mut self, addr: UsizeRegType) -> (r: Result<UsizeRegType, ISAErr>)
        ensures
            r == heap_read_u(old(self)@.heap, addr as int),
            final(self)@ == old(self)@.with_heap(heap_grown(old(self)@.heap, addr as int)),
    {
        if self.heap_segment.len() <= addr {
            self.grow_heap(addr);
            return Ok(0);
        }
        self.heap_segment[addr].get_reg_u_type()
    }

    pub fn get_heap_f_type(&mut self, addr: UsizeRegType) -> (r: Result<F64RegType, ISAErr>)
        ensures
            r == heap_read_f(old(self)@.heap, addr as int),
            final(self)@ == old(self)@.with_heap(heap_grown(old(self)@.heap, addr as int)),
    {
        if self.heap_segment.len() <= addr {
            self.grow_heap(addr);
            return Ok(0);
        }
        match &self.heap_segment[addr] {
            HeapObj::R(RegType::Usize(0)) => Ok(0),
            cell => cell.get_reg_f_type(),
        }
    }

    /// Stores the scalar `val` at `addr`, growing the heap when needed.
    pub fn set_heap(&mut self, addr: UsizeRegType, val: &RegType)
        ensures
            final(self)@ == old(self)@.with_heap(heap_written(old(self)@.heap, addr as int, *val)),
    {
        if addr < self.heap_segment.len() {
            self.heap_segment.set(addr, HeapObj::R(*val));
        } else if addr < usize::MAX {
            self.grow_heap(addr);
            self.heap_segment.set(addr, HeapObj::R(*val));
        }
    }

    /// The bytes of the cell at `addr`, without growing the heap.
    pub fn heap_obj_bytes(&self, addr: UsizeRegType) -> (r: Vec<u8>)
        ensures
            r@ == heap_cell(self@.heap, addr as int).bytes(),
    {
        if addr < self.heap_segment.len() {
            self.heap_segment[addr].get_u8_vec()
        } else {
            zero().get_u8_vec()
        }
    }

    /// The cell at `addr`, growing the heap when needed.
    pub fn get_heap_obj(&mut self, addr: UsizeRegType) -> (r: &HeapObj)
        requires
            addr < usize::MAX,
        ensures
            *r == heap_cell(old(self)@.heap, addr as int),
            final(self)@ == old(self)@.with_heap(heap_grown(old(self)@.heap, addr as int)),
    {
        if addr >= self.heap_segment.len() {
            self.grow_heap(addr);
        }
        &self.heap_segment[addr]
    }
}

} // verus!
