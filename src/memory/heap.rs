//! Heap cells and their byte encoding.
use vstd::prelude::*;

use crate::isa::{F64RegType, ISAErr, RegType, UsizeRegType};

verus! {

/// A heap cell: one tagged scalar, or a homogeneous array of words or doubles.
#[derive(Debug, Clone)]
pub enum HeapObj {
    R(RegType),
    UArray(Vec<UsizeRegType>),
    FArray(Vec<F64RegType>),
}

/// The `n` low bytes of `x`, least significant first.
pub open spec fn le_bytes(x: nat, n: nat) -> Seq<u8>
    decreases n,
{
    if n == 0 {
        Seq::empty()
    } else {
        seq![(x % 256) as u8] + le_bytes(x / 256, (n - 1) as nat)
    }
}

/// Eight little-endian bytes of a 64-bit word.
pub open spec fn word_bytes(x: nat) -> Seq<u8> {
    le_bytes(x, 8)
}

/// The encodings of a sequence of machine words, one after the other.
pub open spec fn usizes_bytes(s: Seq<usize>) -> Seq<u8>
    decreases s.len(),
{
    if s.len() == 0 {
        Seq::empty()
    } else {
        usizes_bytes(s.drop_last()) + word_bytes(s.last() as nat)
    }
}

/// The encodings of a sequence of double bit patterns, one after the other.
pub open spec fn f64s_bytes(s: Seq<u64>) -> Seq<u8>
    decreases s.len(),
{
    if s.len() == 0 {
        Seq::empty()
    } else {
        f64s_bytes(s.drop_last()) + word_bytes(s.last() as nat)
    }
}

impl HeapObj {
    /// The cell as bytes: each word or double as eight little-endian bytes;
    /// an empty array reads as one zero word.
    pub open spec fn bytes(&self) -> Seq<u8> {
        match self {
            HeapObj::R(RegType::Usize(u)) => word_bytes(*u as nat),
            HeapObj::R(RegType::F64(f)) => word_bytes(*f as nat),
            HeapObj::UArray(u) => if u@.len() == 0 {
                word_bytes(0)
            } else {
                usizes_bytes(u@)
            },
            HeapObj::FArray(f) => if f@.len() == 0 {
                word_bytes(0)
            } else {
                f64s_bytes(f@)
            },
        }
    }

    /// The cell read as an integer scalar: the sole value, or an array's first word.
    pub open spec fn as_u(&self) -> Result<UsizeRegType, ISAErr> {
        match self {
            HeapObj::R(RegType::Usize(u)) => Ok(*u),
            HeapObj::UArray(u) => if u@.len() == 0 {
                Err(ISAErr::InvalidHeapType)
            } else {
                Ok(u@[0])
            },
            _ => Err(ISAErr::InvalidHeapType),
        }
    }

    /// The cell read as a float scalar: the sole value, or an array's first double.
    pub open spec fn as_f(&self) -> Result<F64RegType, ISAErr> {
        match self {
            HeapObj::R(RegType::F64(f)) => Ok(*f),
            HeapObj::FArray(f) => if f@.len() == 0 {
                Err(ISAErr::InvalidHeapType)
            } else {
                Ok(f@[0])
            },
            _ => Err(ISAErr::InvalidHeapType),
        }
    }

    pub fn get_u8_vec(&self) -> (r: Vec<u8>)
        ensures
            r@ == self.bytes(),
    {
        let mut out: Vec<u8> = Vec::new();
        match self {
            HeapObj::R(RegType::Usize(u)) => push_word(&mut out, *u as u64),
            HeapObj::R(RegType::F64(f)) => push_word(&mut out, *f),
            HeapObj::UArray(u) => {
                if u.len() == 0 {
                    push_word(&mut out, 0);
                } else {
                    let mut i: usize = 0;
                    while i < u.len()
                        invariant
                            i <= u@.len(),
                            out@ == usizes_bytes(u@.take(i as int)),
                        decreases u@.len() - i,
                    {
                        assert(u@.take(i + 1).drop_last() == u@.take(i as int));
                        push_word(&mut out, u[i] as u64);
                        i += 1;
                    }
                    assert(u@.take(u@.len() as int) == u@);
                }
            },
            HeapObj::FArray(f) => {
                if f.len() == 0 {
                    push_word(&mut out, 0);
                } else {
                    let mut i: usize = 0;
                    while i < f.len()
                        invariant
                            i <= f@.len(),
                            out@ == f64s_bytes(f@.take(i as int)),
                        decreases f@.len() - i,
                    {
                        assert(f@.take(i + 1).drop_last() == f@.take(i as int));
                        push_word(&mut out, f[i]);
                        i += 1;
                    }
                    assert(f@.take(f@.len() as int) == f@);
                }
            },
        }
        out
    }

    pub fn get_reg_u_type(&self) -> (r: Result<UsizeRegType, ISAErr>)
        ensures
            r == self.as_u(),
    {
        match self {
            HeapObj::R(RegType::Usize(u)) => Ok(*u),
            HeapObj::UArray(u) => {
                if u.len() == 0 {
                    return Err(ISAErr::InvalidHeapType);
                }
                Ok(u[0])
            },
            _ => Err(ISAErr::InvalidHeapType),
        }
    }

    pub fn get_reg_f_type(&self) -> (r: Result<F64RegType, ISAErr>)
        ensures
            r == self.as_f(),
    {
        match self {
            HeapObj::R(RegType::F64(f)) => Ok(*f),
            HeapObj::FArray(f) => {
                if f.len() == 0 {
                    return Err(ISAErr::InvalidHeapType);
                }
                Ok(f[0])
            },
            _ => Err(ISAErr::InvalidHeapType),
        }
    }
}

pub proof fn lemma_le_bytes_len(x: nat, n: nat)
    ensures
        le_bytes(x, n).len() == n,
    decreases n,
{
    if n > 0 {
        lemma_le_bytes_len(x / 256, (n - 1) as nat);
    }
}

pub proof fn lemma_usizes_bytes_len(s: Seq<usize>)
    ensures
        usizes_bytes(s).len() == 8 * s.len(),
    decreases s.len(),
{
    if s.len() > 0 {
        lemma_usizes_bytes_len(s.drop_last());
        lemma_le_bytes_len(s.last() as nat, 8);
    }
}

pub proof fn lemma_f64s_bytes_len(s: Seq<u64>)
    ensures
        f64s_bytes(s).len() == 8 * s.len(),
    decreases s.len(),
{
    if s.len() > 0 {
        lemma_f64s_bytes_len(s.drop_last());
        lemma_le_bytes_len(s.last() as nat, 8);
    }
}

/// Bytes `8 * i` to `8 * i + 8` of a word array's encoding are word `i`'s.
pub proof fn lemma_usizes_bytes_chunk(s: Seq<usize>, i: int)
    requires
        0 <= i < s.len(),
    ensures
        usizes_bytes(s).len() == 8 * s.len(),
        usizes_bytes(s).subrange(8 * i, 8 * i + 8) == word_bytes(s[i] as nat),
    decreases s.len(),
{
    lemma_usizes_bytes_len(s);
    lemma_usizes_bytes_len(s.drop_last());
    lemma_le_bytes_len(s.last() as nat, 8);
    let a = usizes_bytes(s.drop_last());
    let b = word_bytes(s.last() as nat);
    if i < s.len() - 1 {
        lemma_usizes_bytes_chunk(s.drop_last(), i);
        assert((a + b).subrange(8 * i, 8 * i + 8) =~= a.subrange(8 * i, 8 * i + 8));
    } else {
        assert((a + b).subrange(8 * i, 8 * i + 8) =~= b);
    }
}

/// Bytes `8 * i` to `8 * i + 8` of a double array's encoding are double `i`'s.
pub proof fn lemma_f64s_bytes_chunk(s: Seq<u64>, i: int)
    requires
        0 <= i < s.len(),
    ensures
        f64s_bytes(s).len() == 8 * s.len(),
        f64s_bytes(s).subrange(8 * i, 8 * i + 8) == word_bytes(s[i] as nat),
    decreases s.len(),
{
    lemma_f64s_bytes_len(s);
    lemma_f64s_bytes_len(s.drop_last());
    lemma_le_bytes_len(s.last() as nat, 8);
    let a = f64s_bytes(s.drop_last());
    let b = word_bytes(s.last() as nat);
    if i < s.len() - 1 {
        lemma_f64s_bytes_chunk(s.drop_last(), i);
        assert((a + b).subrange(8 * i, 8 * i + 8) =~= a.subrange(8 * i, 8 * i + 8));
    } else {
        assert((a + b).subrange(8 * i, 8 * i + 8) =~= b);
    }
}

/// Appends the eight little-endian bytes of `x`.
fn push_word(out: &mut Vec<u8>, x: u64)
    ensures
        final(out)@ == old(out)@ + word_bytes(x as nat),
{
    let ghost start = out@;
    let mut cur: u64 = x;
    let mut i: usize = 0;
    while i < 8
        invariant
            i <= 8,
            out@ + le_bytes(cur as nat, (8 - i) as nat) == start + le_bytes(x as nat, 8),
        decreases 8 - i,
    {
        let ghost before = out@;
        assert(le_bytes(cur as nat, (8 - i) as nat) == seq![(cur % 256) as u8] + le_bytes(
            (cur / 256) as nat,
            (8 - i - 1) as nat,
        ));
        out.push((cur % 256) as u8);
        assert(out@ == before + seq![(cur % 256) as u8]);
        assert(out@ + le_bytes((cur / 256) as nat, (8 - i - 1) as nat) == before + (seq![
            (cur % 256) as u8,
        ] + le_bytes((cur / 256) as nat, (8 - i - 1) as nat)));
        cur = cur / 256;
        i += 1;
    }
    assert(le_bytes(cur as nat, 0) == Seq::<u8>::empty());
    assert(out@ + Seq::<u8>::empty() == out@);
}

} // verus!
