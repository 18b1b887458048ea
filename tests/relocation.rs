use kmod_loader::rela::{get_rela_sym_idx, get_rela_type, parse_relas, Rela};
use kmod_loader::{ModuleErr, ModuleMemory, Ptr, Riscv64ArchRelocate, Riscv64RelocationType, SectionHeader};

const R_RISCV_64: u64 = 2;
const R_RISCV_BRANCH: u64 = 16;
const R_RISCV_CALL: u64 = 18;
const R_RISCV_GOT_HI20: u64 = 20;
const R_RISCV_PCREL_HI20: u64 = 23;
const R_RISCV_PCREL_LO12_I: u64 = 24;
const R_RISCV_ALIGN: u64 = 43;

fn info(sym: u64, kind: u64) -> u64 {
    (sym << 32) | kind
}

fn rela_bytes(entries: &[(u64, u64, i64)]) -> Vec<u8> {
    let mut out = Vec::new();
    for &(off, info, addend) in entries {
        out.extend_from_slice(&off.to_le_bytes());
        out.extend_from_slice(&info.to_le_bytes());
        out.extend_from_slice(&addend.to_le_bytes());
    }
    out
}

/// Section 0 is the code at `addr`; section 1 holds the relocations, which
/// start at byte 0 of the object.
fn headers(addr: u64, rela_len: usize) -> Vec<SectionHeader> {
    vec![
        SectionHeader { sh_addr: addr, sh_offset: 0, sh_size: 0, sh_entsize: 0, sh_info: 0 },
        SectionHeader { sh_addr: 0, sh_offset: 0, sh_size: rela_len as u64, sh_entsize: 24, sh_info: 0 },
    ]
}

fn run(addr: u64, code: Vec<u8>, entries: &[(u64, u64, i64)], syms: &[u64]) -> (Result<(), ModuleErr>, ModuleMemory) {
    let elf = rela_bytes(entries);
    let sechdrs = headers(addr, elf.len());
    let mut mem = ModuleMemory::new(addr, code);
    let r = Riscv64ArchRelocate::apply_relocate_add(&elf, &sechdrs, syms, 1, &mut mem);
    (r, mem)
}

fn word(mem: &ModuleMemory, addr: u64) -> u32 {
    Ptr(addr).read_u32(mem)
}

fn code_with(words: &[u32], len: usize) -> Vec<u8> {
    let mut v = vec![0u8; len];
    for (k, w) in words.iter().enumerate() {
        v[4 * k..4 * k + 4].copy_from_slice(&w.to_le_bytes());
    }
    v
}

#[test]
fn riscv_64_writes_little_endian_doubleword() {
    let (r, mem) = run(0x10000, vec![0u8; 16], &[(0, info(1, R_RISCV_64), 0)], &[0, 0xDEADBEEFCAFEBABE]);
    assert!(r.is_ok());
    assert_eq!(&mem.bytes[0..8], &[0xBE, 0xBA, 0xFE, 0xCA, 0xEF, 0xBE, 0xAD, 0xDE]);
    assert_eq!(&mem.bytes[8..16], &[0u8; 8]);
}

#[test]
fn riscv_branch_splices_offset_16() {
    let (r, mem) = run(0x1000, code_with(&[0x00000063], 4), &[(0, info(1, R_RISCV_BRANCH), 0)], &[0, 0x1010]);
    assert!(r.is_ok());
    assert_eq!(word(&mem, 0x1000), 0x00000863);
}

#[test]
fn riscv_pcrel_hi20_lo12_pair() {
    // auipc a0, 0 at 0x2000; addi a0, a0, 0 at 0x2004.
    let code = code_with(&[0x00000517, 0x00050513], 8);
    let entries = [(0, info(1, R_RISCV_PCREL_HI20), 0), (4, info(2, R_RISCV_PCREL_LO12_I), 0)];
    let (r, mem) = run(0x2000, code, &entries, &[0, 0x5000, 0x2000]);
    assert!(r.is_ok());
    assert_eq!(word(&mem, 0x2000), 0x00003517);
    assert_eq!(word(&mem, 0x2004) >> 20, 0x000);
    assert_eq!(word(&mem, 0x2004), 0x00050513);
}

#[test]
fn riscv_pcrel_lo12_takes_residue_of_paired_hi20() {
    // Target 0x2000 + 0x1ffc: hi20 rounds up to 0x2000, residue is -4.
    let code = code_with(&[0x00000517, 0x00050513], 8);
    let entries = [(0, info(1, R_RISCV_PCREL_HI20), 0), (4, info(2, R_RISCV_PCREL_LO12_I), 0)];
    let (r, mem) = run(0x2000, code, &entries, &[0, 0x3ffc, 0x2000]);
    assert!(r.is_ok());
    assert_eq!(word(&mem, 0x2000), 0x00002517);
    assert_eq!(word(&mem, 0x2004) >> 20, 0xffc);
}

#[test]
fn riscv_pcrel_hi20_out_of_range_fails() {
    let (r, _) = run(0x1000, vec![0u8; 4], &[(0, info(1, R_RISCV_PCREL_HI20), 0)], &[0, 0x800000000]);
    assert!(matches!(r, Err(ModuleErr::RelocationFailed(_))));
}

#[test]
fn riscv_call_splits_into_auipc_and_jalr() {
    // auipc ra, 0; jalr ra, 0(ra)
    let code = code_with(&[0x00000097, 0x000080e7], 8);
    let (r, mem) = run(0x8000, code, &[(0, info(1, R_RISCV_CALL), 0)], &[0, 0x9234]);
    assert!(r.is_ok());
    let auipc = word(&mem, 0x8000);
    let jalr = word(&mem, 0x8004);
    assert_eq!(auipc >> 12, 1);
    assert_eq!(jalr >> 20, 0x234);
    assert_eq!(auipc, 0x00001097);
    assert_eq!(jalr, 0x234080e7);
}

#[test]
fn riscv_pcrel_lo12_without_hi20_fails() {
    let (r, _) = run(0x2000, vec![0u8; 8], &[(4, info(1, R_RISCV_PCREL_LO12_I), 0)], &[0, 0x2000]);
    match r {
        Err(ModuleErr::RelocationFailed(m)) => assert_eq!(m, "Missing HI20 relocation for LO12"),
        Ok(()) => panic!("expected an error"),
    }
}

#[test]
fn riscv_pcrel_lo12_paired_with_got_hi20_fails() {
    let entries = [(0, info(1, R_RISCV_GOT_HI20), 0), (4, info(2, R_RISCV_PCREL_LO12_I), 0)];
    let (r, _) = run(0x2000, vec![0u8; 8], &entries, &[0, 0x5000, 0x2000]);
    assert!(r.is_err());
}

#[test]
fn unknown_relocation_kind_fails_with_its_number() {
    let (r, _) = run(0x1000, vec![0u8; 8], &[(0, info(0, 60), 0)], &[0]);
    let e = r.unwrap_err();
    assert_eq!(e.message(), "Invalid relocation type: 60");
}

#[test]
fn entry_size_other_than_24_fails() {
    let elf = rela_bytes(&[(0, info(1, R_RISCV_64), 0)]);
    let mut sechdrs = headers(0x1000, elf.len());
    sechdrs[1].sh_entsize = 16;
    let mut mem = ModuleMemory::new(0x1000, vec![0u8; 8]);
    let r = Riscv64ArchRelocate::apply_relocate_add(&elf, &sechdrs, &[0, 5], 1, &mut mem);
    assert!(r.is_err());
    assert_eq!(mem.bytes, vec![0u8; 8]);
}

#[test]
fn symbol_index_out_of_bounds_fails() {
    let (r, _) = run(0x1000, vec![0u8; 8], &[(0, info(7, R_RISCV_64), 0)], &[0, 1]);
    assert!(r.is_err());
}

#[test]
fn relocation_section_outside_object_fails() {
    let elf = rela_bytes(&[(0, info(1, R_RISCV_64), 0)]);
    let mut sechdrs = headers(0x1000, elf.len());
    sechdrs[1].sh_size = 48;
    let mut mem = ModuleMemory::new(0x1000, vec![0u8; 8]);
    let r = Riscv64ArchRelocate::apply_relocate_add(&elf, &sechdrs, &[0, 5], 1, &mut mem);
    assert!(r.is_err());
}

#[test]
fn align_is_rejected() {
    let (r, _) = run(0x1000, vec![0u8; 8], &[(0, info(0, R_RISCV_ALIGN), 0)], &[0]);
    let e = r.unwrap_err();
    assert!(e.message().starts_with("R_RISCV_ALIGN"));
}

#[test]
fn entries_apply_in_order_and_addends_count() {
    let entries = [(0, info(1, R_RISCV_64), 8), (8, info(1, R_RISCV_64), -8)];
    let (r, mem) = run(0x4000, vec![0u8; 16], &entries, &[0, 0x100]);
    assert!(r.is_ok());
    assert_eq!(u64::from_le_bytes(mem.bytes[0..8].try_into().unwrap()), 0x108);
    assert_eq!(u64::from_le_bytes(mem.bytes[8..16].try_into().unwrap()), 0xf8);
}

#[test]
fn rela_info_fields_split() {
    assert_eq!(get_rela_type(0x0000_0005_0000_0017), 0x17);
    assert_eq!(get_rela_sym_idx(0x0000_0005_0000_0017), 5);
}

#[test]
fn parse_relas_reads_whole_entries_only() {
    let mut elf = vec![0xaau8; 4];
    elf.extend(rela_bytes(&[(0x10, 0x0000_0002_0000_0001, -4)]));
    elf.extend(vec![0u8; 10]);
    let v = parse_relas(&elf, 4, 34).unwrap();
    assert_eq!(v, vec![Rela { r_offset: 0x10, r_info: 0x0000_0002_0000_0001, r_addend: -4 }]);
    assert!(parse_relas(&elf, 4, 100).is_none());
}

#[test]
fn relocation_kind_numbers_follow_the_abi() {
    assert_eq!(Riscv64RelocationType::from_code(18), Some(Riscv64RelocationType::R_RISCV_CALL));
    assert_eq!(Riscv64RelocationType::from_code(56), Some(Riscv64RelocationType::R_RISCV_SET32));
    assert_eq!(Riscv64RelocationType::from_code(12), None);
    assert_eq!(Riscv64RelocationType::from_code(57), None);
    assert_eq!(Riscv64RelocationType::R_RISCV_RVC_JUMP.code(), 45);
    assert_eq!(Riscv64RelocationType::R_RISCV_PCREL_LO12_S.name(), "R_RISCV_PCREL_LO12_S");
}

#[test]
fn missing_hi20_leaves_memory_untouched() {
    let code = vec![0x13u8, 0x05, 0x05, 0x00, 0, 0, 0, 0];
    let (r, mem) = run(0x2000, code.clone(), &[(0, info(1, R_RISCV_PCREL_LO12_I), 0)], &[0, 0x3000]);
    assert_eq!(r.unwrap_err().message(), "Missing HI20 relocation for LO12");
    assert_eq!(mem.bytes, code);
}

#[test]
fn earlier_patches_stay_after_a_later_failure() {
    let entries = [(0, info(1, R_RISCV_64), 0), (8, info(1, R_RISCV_BRANCH), 0)];
    let (r, mem) = run(0x4000, vec![0u8; 16], &entries, &[0, 0x10_0000]);
    assert!(r.is_err());
    assert_eq!(u64::from_le_bytes(mem.bytes[0..8].try_into().unwrap()), 0x10_0000);
    assert_eq!(&mem.bytes[8..16], &[0u8; 8]);
}
