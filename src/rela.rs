//! ELF64 relocation entries with addend (`Elf64_Rela`).
use vstd::prelude::*;

use crate::memory::{le64, load_u64};

verus! {

/// Size in bytes of one `Elf64_Rela` entry.
pub const RELA_SIZE: u64 = 24;

/// One relocation entry: where to patch, what kind and symbol, and the addend.
#[derive(Clone, Copy, Debug, PartialEq, Eq, Structural)]
pub struct Rela {
    pub r_offset: u64,
    pub r_info: u64,
    pub r_addend: i64,
}

/// The relocation kind held in the low 32 bits of `r_info`.
pub open spec fn rela_type(r_info: u64) -> u32 {
    (r_info & 0xffff_ffff) as u32
}

/// The symbol index held in the high 32 bits of `r_info`.
pub open spec fn rela_sym(r_info: u64) -> u64 {
    r_info >> 32u64
}

/// Extracts the relocation type from the r_info field of an Elf64_Rela
pub fn get_rela_type(r_info: u64) -> (r: u32)
    ensures
        r == rela_type(r_info),
{
    (r_info & 0xffff_ffff) as u32
}

/// Extracts the symbol index from the r_info field of an Elf64_Rela
pub fn get_rela_sym_idx(r_info: u64) -> (r: usize)
    ensures
        r == rela_sym(r_info),
{
    let s = r_info >> 32u64;
    assert(s <= 0xffff_ffff) by (bit_vector)
        requires
            s == r_info >> 32u64,
    ;
    s as usize
}

/// The `k`-th entry of a table that starts at byte `start` of `data`.
pub open spec fn rela_at(data: Seq<u8>, start: int, k: int) -> Rela {
    let at = start + 24 * k;
    Rela { r_offset: le64(data, at), r_info: le64(data, at + 8), r_addend: le64(data, at + 16) as i64 }
}

/// The first `count` entries of a table that starts at byte `start` of `data`.
pub open spec fn rela_table(data: Seq<u8>, start: int, count: int) -> Seq<Rela> {
    Seq::new(count as nat, |k: int| rela_at(data, start, k))
}

/// Reads the entries of a relocation section of `size` bytes at byte `offset`
/// of `data`; a trailing part shorter than one entry is ignored. `None` where
/// the section does not lie inside `data`.
pub fn parse_relas(data: &[u8], offset: u64, size: u64) -> (r: Option<Vec<Rela>>)
    ensures
        r is Some <==> offset + size <= data@.len(),
        r matches Some(v) ==> v@ == rela_table(data@, offset as int, (size / RELA_SIZE) as int),
{
    let len = data.len() as u64;
    if offset > len || size > len - offset {
        return None;
    }
    let count = size / RELA_SIZE;
    let mut v: Vec<Rela> = Vec::new();
    let mut k: u64 = 0;
    while k < count
        invariant
            k <= count,
            count == size / 24,
            offset + size <= data@.len() <= usize::MAX,
            v@ =~= rela_table(data@, offset as int, k as int),
        decreases count - k,
    {
        assert(24 * k + 24 <= size) by (nonlinear_arith)
            requires
                k < count,
                count == size / 24,
        ;
        let at = (offset + 24 * k) as usize;
        let e = Rela {
            r_offset: load_u64(data, at),
            r_info: load_u64(data, at + 8),
            r_addend: load_u64(data, at + 16) as i64,
        };
        v.push(e);
        k = k + 1;
    }
    Some(v)
}

} // verus!
