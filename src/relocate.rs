//! Applying a whole RISC-V relocation section to module memory.
use vstd::prelude::*;

use crate::error::ModuleErr;
use crate::memory::ModuleMemory;
use crate::rela::{get_rela_sym_idx, get_rela_type, parse_relas, rela_sym, rela_table, rela_type, Rela, RELA_SIZE};
use crate::riscv64::{relocated, Riscv64RelocationType};

verus! {

/// The section header fields that relocation reads.
#[derive(Clone, Copy, Debug)]
pub struct SectionHeader {
    /// Run-time address of the section's copy in module memory.
    pub sh_addr: u64,
    /// Where the section's bytes lie in the object file.
    pub sh_offset: u64,
    pub sh_size: u64,
    /// Size of one table entry, for sections that hold a table.
    pub sh_entsize: u64,
    /// For a relocation section, the index of the section that it patches.
    pub sh_info: u32,
}

/// Entry `e` is a HI20 entry (PC-relative or GOT) that patches address `addr`,
/// where the patched section starts at `taddr`.
pub open spec fn is_hi20_at(e: Rela, taddr: u64, addr: u64) -> bool {
    &&& taddr.wrapping_add(e.r_offset) == addr
    &&& (Riscv64RelocationType::spec_from_code(rela_type(e.r_info)) == Some(
        Riscv64RelocationType::R_RISCV_PCREL_HI20,
    ) || Riscv64RelocationType::spec_from_code(rela_type(e.r_info)) == Some(
        Riscv64RelocationType::R_RISCV_GOT_HI20,
    ))
}

/// Index of the first HI20 entry at or after `j` that patches address `addr`.
pub open spec fn first_hi20(entries: Seq<Rela>, taddr: u64, addr: u64, j: int) -> Option<int>
    decreases entries.len() - j,
{
    if j < 0 || j >= entries.len() {
        None
    } else if is_hi20_at(entries[j], taddr, addr) {
        Some(j)
    } else {
        first_hi20(entries, taddr, addr, j + 1)
    }
}

/// The low part that pairs with `hi20` for a PC-relative offset `off`:
/// `off` minus its rounded upper part.
pub open spec fn lo12_residue(off: u64) -> u64 {
    off.wrapping_sub(off.wrapping_add(0x800) & 0xffff_f000)
}

/// Kind, location and value with which entry `k` is applied, or `None` where
/// the entry is refused: its kind is unknown, its symbol index is out of
/// bounds, or it is a PC-relative LO12 entry without a usable HI20 partner.
pub open spec fn entry_target(entries: Seq<Rela>, syms: Seq<u64>, taddr: u64, k: int) -> Option<
    (Riscv64RelocationType, u64, u64),
> {
    let e = entries[k];
    match Riscv64RelocationType::spec_from_code(rela_type(e.r_info)) {
        None => None,
        Some(kind) => if rela_sym(e.r_info) >= syms.len() {
            None
        } else {
            let sv = syms[rela_sym(e.r_info) as int];
            let loc = taddr.wrapping_add(e.r_offset);
            if kind == Riscv64RelocationType::R_RISCV_PCREL_LO12_I || kind
                == Riscv64RelocationType::R_RISCV_PCREL_LO12_S {
                match first_hi20(entries, taddr, sv, 0) {
                    None => None,
                    Some(j) => {
                        let h = entries[j];
                        if Riscv64RelocationType::spec_from_code(rela_type(h.r_info)) == Some(
                            Riscv64RelocationType::R_RISCV_GOT_HI20,
                        ) || rela_sym(h.r_info) >= syms.len() {
                            None
                        } else {
                            let hv = syms[rela_sym(h.r_info) as int].wrapping_add(h.r_addend as u64);
                            let off = hv.wrapping_sub(taddr.wrapping_add(h.r_offset));
                            Some((kind, loc, lo12_residue(off)))
                        }
                    },
                }
            } else {
                Some((kind, loc, sv.wrapping_add(e.r_addend as u64)))
            }
        },
    }
}

/// Memory after the first `n` entries are applied in order, or `None` where
/// one of them fails.
pub open spec fn relocated_prefix(
    entries: Seq<Rela>,
    syms: Seq<u64>,
    taddr: u64,
    base: u64,
    b: Seq<u8>,
    n: nat,
) -> Option<Seq<u8>>
    decreases n,
{
    if n == 0 {
        Some(b)
    } else {
        match relocated_prefix(entries, syms, taddr, base, b, (n - 1) as nat) {
            None => None,
            Some(pb) => match entry_target(entries, syms, taddr, n - 1) {
                None => None,
                Some(t) => relocated(t.0, pb, base, t.1, t.2),
            },
        }
    }
}

/// The entries of relocation section `relsec` and the run-time address of the
/// section that they patch, or `None` where the section is malformed: its
/// index is out of bounds, its entry size is not 24, its bytes lie outside the
/// object, or the index of the patched section is out of bounds.
pub open spec fn section_entries(elf: Seq<u8>, sechdrs: Seq<SectionHeader>, relsec: int) -> Option<
    (Seq<Rela>, u64),
> {
    if relsec < 0 || relsec >= sechdrs.len() {
        None
    } else {
        let rs = sechdrs[relsec];
        if rs.sh_entsize != RELA_SIZE || rs.sh_offset + rs.sh_size > elf.len() || rs.sh_info
            >= sechdrs.len() {
            None
        } else {
            Some(
                (
                    rela_table(elf, rs.sh_offset as int, (rs.sh_size / RELA_SIZE) as int),
                    sechdrs[rs.sh_info as int].sh_addr,
                ),
            )
        }
    }
}

/// Entry `k` is a PC-relative LO12 entry with a valid symbol, and no HI20
/// entry of the section patches the address that its symbol names.
pub open spec fn lo12_unpaired(entries: Seq<Rela>, syms: Seq<u64>, taddr: u64, k: int) -> bool {
    let e = entries[k];
    let kind = Riscv64RelocationType::spec_from_code(rela_type(e.r_info));
    &&& (kind == Some(Riscv64RelocationType::R_RISCV_PCREL_LO12_I) || kind == Some(
        Riscv64RelocationType::R_RISCV_PCREL_LO12_S,
    ))
    &&& rela_sym(e.r_info) < syms.len()
    &&& first_hi20(entries, taddr, syms[rela_sym(e.r_info) as int], 0) is None
}

/// Text of the error for a PC-relative LO12 entry without its HI20 entry.
pub open spec fn missing_hi20_text() -> Seq<char> {
    "Missing HI20 relocation for LO12"@
}

/// Once an entry has failed, every longer prefix fails too.
proof fn lemma_prefix_failure_stays(
    entries: Seq<Rela>,
    syms: Seq<u64>,
    taddr: u64,
    base: u64,
    b: Seq<u8>,
    i: nat,
    n: nat,
)
    requires
        i <= n,
        relocated_prefix(entries, syms, taddr, base, b, i) is None,
    ensures
        relocated_prefix(entries, syms, taddr, base, b, n) is None,
    decreases n - i,
{
    if i < n {
        lemma_prefix_failure_stays(entries, syms, taddr, base, b, i + 1, n);
    }
}

/// Relies on `format!`: a message that names an unknown relocation number.
#[verifier::external_body]
fn invalid_type_text(code: u32) -> String {
    format!("Invalid relocation type: {}", code)
}

/// Whether `e` is a HI20 entry that patches address `addr`.
fn is_hi20_entry(e: &Rela, taddr: u64, addr: u64) -> (r: bool)
    ensures
        r == is_hi20_at(*e, taddr, addr),
{
    if taddr.wrapping_add(e.r_offset) != addr {
        return false;
    }
    match Riscv64RelocationType::from_code(get_rela_type(e.r_info)) {
        Some(Riscv64RelocationType::R_RISCV_PCREL_HI20) => true,
        Some(Riscv64RelocationType::R_RISCV_GOT_HI20) => true,
        _ => false,
    }
}

/// Index of the first HI20 entry of the section that patches address `addr`.
fn find_hi20(entries: &Vec<Rela>, taddr: u64, addr: u64) -> (r: Option<usize>)
    ensures
        r matches Some(j) ==> j < entries@.len() && first_hi20(entries@, taddr, addr, 0) == Some(
            j as int,
        ),
        r is None ==> first_hi20(entries@, taddr, addr, 0) is None,
{
    let mut j: usize = 0;
    while j < entries.len()
        invariant
            j <= entries@.len(),
            first_hi20(entries@, taddr, addr, 0) == first_hi20(entries@, taddr, addr, j as int),
        decreases entries.len() - j,
    {
        if is_hi20_entry(&entries[j], taddr, addr) {
            return Some(j);
        }
        j = j + 1;
    }
    None
}

/// Kind, location and value with which entry `i` is applied.
fn entry_target_exec(entries: &Vec<Rela>, sym_values: &[u64], taddr: u64, i: usize) -> (r: Result<
    (Riscv64RelocationType, u64, u64),
    ModuleErr,
>)
    requires
        i < entries@.len(),
    ensures
        match entry_target(entries@, sym_values@, taddr, i as int) {
            Some(t) => r == Ok::<(Riscv64RelocationType, u64, u64), ModuleErr>(t),
            None => r is Err,
        },
        lo12_unpaired(entries@, sym_values@, taddr, i as int) ==> (r matches Err(e) && e.text()
            == missing_hi20_text()),
{
    let rela = entries[i];
    let rel_type = get_rela_type(rela.r_info);
    let sym_idx = get_rela_sym_idx(rela.r_info);
    let decoded = Riscv64RelocationType::from_code(rel_type);
    if decoded.is_none() {
        return Err(ModuleErr::RelocationFailed(invalid_type_text(rel_type)));
    }
    let reloc_type = decoded.unwrap();
    if sym_idx >= sym_values.len() {
        return Err(ModuleErr::failed("Symbol index out of range"));
    }
    // The address to patch.
    let location = taddr.wrapping_add(rela.r_offset);
    let sym_value = sym_values[sym_idx];
    if reloc_type == Riscv64RelocationType::R_RISCV_PCREL_LO12_I || reloc_type
        == Riscv64RelocationType::R_RISCV_PCREL_LO12_S {
        // The entry refers, through its symbol, to the auipc that it pairs with.
        match find_hi20(entries, taddr, sym_value) {
            None => Err(ModuleErr::failed("Missing HI20 relocation for LO12")),
            Some(j) => {
                let hi = entries[j];
                let hi_is_got = match Riscv64RelocationType::from_code(get_rela_type(hi.r_info)) {
                    Some(Riscv64RelocationType::R_RISCV_GOT_HI20) => true,
                    _ => false,
                };
                let hi_sym = get_rela_sym_idx(hi.r_info);
                if hi_is_got {
                    return Err(ModuleErr::failed("GOT entries are not supported"));
                }
                if hi_sym >= sym_values.len() {
                    return Err(ModuleErr::failed("Symbol index out of range"));
                }
                let hi_value = sym_values[hi_sym].wrapping_add(hi.r_addend as u64);
                let offset = hi_value.wrapping_sub(taddr.wrapping_add(hi.r_offset));
                let hi20 = offset.wrapping_add(0x800) & 0xffff_f000;
                Ok((reloc_type, location, offset.wrapping_sub(hi20)))
            },
        }
    } else {
        Ok((reloc_type, location, sym_value.wrapping_add(rela.r_addend as u64)))
    }
}

pub struct Riscv64ArchRelocate;

impl Riscv64ArchRelocate {
    /// Applies relocation section `relsec` of the object `elf_data` to module
    /// memory. `sechdrs` are the object's section headers, with `sh_addr` set
    /// to each section's run-time address; `sym_values` holds the run-time
    /// value of each symbol. A malformed section fails with memory untouched.
    /// Otherwise entries are applied in order; the first that fails ends the
    /// call, and the patches made by the entries before it stay in place.
    pub fn apply_relocate_add(
        elf_data: &[u8],
        sechdrs: &[SectionHeader],
        sym_values: &[u64],
        relsec: usize,
        mem: &mut ModuleMemory,
    ) -> (r: Result<(), ModuleErr>)
        ensures
            final(mem).base == old(mem).base,
            final(mem).bytes@.len() == old(mem).bytes@.len(),
            match section_entries(elf_data@, sechdrs@, relsec as int) {
                None => r is Err && final(mem).bytes@ == old(mem).bytes@,
                Some(s) => match relocated_prefix(
                    s.0,
                    sym_values@,
                    s.1,
                    old(mem).base,
                    old(mem).bytes@,
                    s.0.len(),
                ) {
                    Some(nb) => r is Ok && final(mem).bytes@ == nb,
                    None => r is Err && exists|k: int|
                        0 <= k < s.0.len() && #[trigger] relocated_prefix(
                            s.0,
                            sym_values@,
                            s.1,
                            old(mem).base,
                            old(mem).bytes@,
                            k as nat,
                        ) == Some(final(mem).bytes@) && relocated_prefix(
                            s.0,
                            sym_values@,
                            s.1,
                            old(mem).base,
                            old(mem).bytes@,
                            (k + 1) as nat,
                        ) is None && (lo12_unpaired(s.0, sym_values@, s.1, k) ==> (r matches Err(
                            e,
                        ) && e.text() == missing_hi20_text())),
                },
            },
    {
        if relsec >= sechdrs.len() {
            return Err(ModuleErr::failed("Relocation section index out of range"));
        }
        let rel_section = sechdrs[relsec];
        if rel_section.sh_entsize != RELA_SIZE {
            return Err(ModuleErr::failed("Relocation entry size is not 24 bytes"));
        }
        let rela_list = match parse_relas(elf_data, rel_section.sh_offset, rel_section.sh_size) {
            Some(v) => v,
            None => return Err(ModuleErr::failed("Relocation section lies outside the object")),
        };
        if rel_section.sh_info as usize >= sechdrs.len() {
            return Err(ModuleErr::failed("Patched section index out of range"));
        }
        let target_addr = sechdrs[rel_section.sh_info as usize].sh_addr;
        let ghost entries = rela_list@;
        let ghost base = mem.base;
        let ghost b0 = mem.bytes@;
        assert(section_entries(elf_data@, sechdrs@, relsec as int) == Some((entries, target_addr)));
        let mut i: usize = 0;
        while i < rela_list.len()
            invariant
                i <= entries.len(),
                entries == rela_list@,
                base == old(mem).base,
                b0 == old(mem).bytes@,
                section_entries(elf_data@, sechdrs@, relsec as int) == Some((entries, target_addr)),
                mem.base == base,
                mem.bytes@.len() == b0.len(),
                relocated_prefix(entries, sym_values@, target_addr, base, b0, i as nat) == Some(
                    mem.bytes@,
                ),
            decreases rela_list.len() - i,
        {
            let res = match entry_target_exec(&rela_list, sym_values, target_addr, i) {
                Ok(t) => t.0.apply_relocation(mem, t.1, t.2),
                Err(e) => Err(e),
            };
            if res.is_err() {
                proof {
                    lemma_prefix_failure_stays(entries, sym_values@, target_addr, base, b0, (i + 1) as nat, entries.len());
                    assert(relocated_prefix(entries, sym_values@, target_addr, base, b0, i as nat) == Some(mem.bytes@));
                }
                return res;
            }
            i = i + 1;
        }
        Ok(())
    }
}

} // verus!
