use kmod_loader::riscv_insn::{set_b_imm, set_cb_imm, set_cj_imm, set_i_imm, set_j_imm, set_s_imm, set_u_imm};
use kmod_loader::{ModuleMemory, Ptr, Riscv64RelocationType as K};

fn mem_with(base: u64, bytes: &[u8]) -> ModuleMemory {
    ModuleMemory::new(base, bytes.to_vec())
}

fn mem32(base: u64, w: u32) -> ModuleMemory {
    let mut b = w.to_le_bytes().to_vec();
    b.extend_from_slice(&[0x11, 0x22, 0x33, 0x44]);
    ModuleMemory::new(base, b)
}

#[test]
fn none_and_relax_leave_memory_untouched() {
    let bytes = [1u8, 2, 3, 4, 5, 6, 7, 8];
    for kind in [K::R_RISCV_NONE, K::R_RISCV_RELAX] {
        let mut m = mem_with(0x100, &bytes);
        assert!(kind.apply_relocation(&mut m, 0x100, 0xffff_ffff_ffff_ffff).is_ok());
        assert_eq!(m.bytes, bytes.to_vec());
        // No write happens, so even an address outside the region is accepted.
        assert!(kind.apply_relocation(&mut m, 0x9999, 0).is_ok());
        assert_eq!(m.bytes, bytes.to_vec());
    }
}

#[test]
fn branch_keeps_opcode_and_register_bits() {
    // bne a0, a1, 0 with every non-immediate bit as set by the encoding.
    let inst: u32 = 0x00b51063;
    let mut m = mem32(0x1000, inst);
    assert!(K::R_RISCV_BRANCH.apply_relocation(&mut m, 0x1000, 0x1000 - 0x800).is_ok());
    let w = Ptr(0x1000).read_u32(&m);
    assert_eq!(w & 0x01fff07f, inst & 0x01fff07f);
    assert_eq!(&m.bytes[4..8], &[0x11, 0x22, 0x33, 0x44]);
    // -0x800: imm[12] = 1, imm[11] = 1, imm[10:5] = 0, imm[4:1] = 0
    assert_eq!(w, 0x80b510e3);
}

#[test]
fn branch_range_limits() {
    let mut m = mem32(0x2000, 0x63);
    assert!(K::R_RISCV_BRANCH.apply_relocation(&mut m, 0x2000, 0x2000 + 4094).is_ok());
    assert!(K::R_RISCV_BRANCH.apply_relocation(&mut m, 0x2000, 0x2000 - 4096).is_ok());
    assert!(K::R_RISCV_BRANCH.apply_relocation(&mut m, 0x2000, 0x2000 + 4096).is_err());
    assert!(K::R_RISCV_BRANCH.apply_relocation(&mut m, 0x2000, 0x2000 - 4098).is_err());
}

#[test]
fn jal_encodes_offset_and_checks_range() {
    let mut m = mem32(0x10_0000, 0x000000ef); // jal ra, 0
    assert!(K::R_RISCV_JAL.apply_relocation(&mut m, 0x10_0000, 0x10_0000 + 0x800).is_ok());
    // imm[11] goes to bit 20.
    assert_eq!(Ptr(0x10_0000).read_u32(&m), 0x001000ef);
    assert!(K::R_RISCV_JAL.apply_relocation(&mut m, 0x10_0000, 0x20_0000).is_err());
    assert!(K::R_RISCV_JAL.apply_relocation(&mut m, 0x10_0000, 0x1f_fffe).is_ok());
}

#[test]
fn rvc_branch_and_jump() {
    let mut m = mem_with(0x2000, &[0x01, 0xc1, 0, 0]); // c.beqz a0, 0
    assert!(K::R_RISCV_RVC_BRANCH.apply_relocation(&mut m, 0x2000, 0x2000 + 8).is_ok());
    // offset bit 3 lands in halfword bit 10.
    assert_eq!(Ptr(0x2000).read_u16(&m), 0xc101 | 0x0400);
    assert!(K::R_RISCV_RVC_BRANCH.apply_relocation(&mut m, 0x2000, 0x2000 + 256).is_err());

    let mut j = mem_with(0x3000, &[0x01, 0xa0, 0, 0]); // c.j 0
    assert!(K::R_RISCV_RVC_JUMP.apply_relocation(&mut j, 0x3000, 0x3000 + 2).is_ok());
    // offset bit 1 lands in halfword bit 3.
    assert_eq!(Ptr(0x3000).read_u16(&j), 0xa001 | 0x0008);
    assert!(K::R_RISCV_RVC_JUMP.apply_relocation(&mut j, 0x3000, 0x3000 + 2048).is_err());
    assert!(K::R_RISCV_RVC_JUMP.apply_relocation(&mut j, 0x3000, 0x3000 - 2048).is_ok());
}

#[test]
fn riscv_32_requires_a_32_bit_value() {
    let mut m = mem_with(0x100, &[0u8; 4]);
    assert!(K::R_RISCV_32.apply_relocation(&mut m, 0x100, 0x1234_5678).is_ok());
    assert_eq!(m.bytes, vec![0x78, 0x56, 0x34, 0x12]);
    assert!(K::R_RISCV_32.apply_relocation(&mut m, 0x100, 0x1_0000_0000).is_err());
}

#[test]
fn absolute_hi20_lo12() {
    let mut m = mem_with(0x100, &0x000005b7u32.to_le_bytes()); // lui a1, 0
    assert!(K::R_RISCV_HI20.apply_relocation(&mut m, 0x100, 0x1234_5fff).is_ok());
    assert_eq!(Ptr(0x100).read_u32(&m), 0x123465b7);
    let mut i = mem_with(0x100, &0x00058593u32.to_le_bytes()); // addi a1, a1, 0
    assert!(K::R_RISCV_LO12_I.apply_relocation(&mut i, 0x100, 0x1234_5fff).is_ok());
    assert_eq!(Ptr(0x100).read_u32(&i) >> 20, 0xfff);
    let mut s = mem_with(0x100, &0x00b52023u32.to_le_bytes()); // sw a1, 0(a0)
    assert!(K::R_RISCV_LO12_S.apply_relocation(&mut s, 0x100, 0x1234_5abc).is_ok());
    let w = Ptr(0x100).read_u32(&s);
    assert_eq!(((w >> 20) & 0xfe0) | ((w >> 7) & 0x1f), 0xabc);
    assert_eq!(w & 0x01fff07f, 0x00b52023);
}

#[test]
fn pcrel_lo12_s_writes_store_immediate() {
    let mut s = mem_with(0x100, &0x00b52023u32.to_le_bytes());
    assert!(K::R_RISCV_PCREL_LO12_S.apply_relocation(&mut s, 0x100, 0x7ff).is_ok());
    assert_eq!(Ptr(0x100).read_u32(&s), 0x7eb52fa3);
}

#[test]
fn call_reaches_negative_offsets() {
    let mut m = mem_with(0x8000_0000, &[0x97, 0, 0, 0, 0xe7, 0x80, 0, 0]);
    // Offset -0x801: hi20 = -0x1000, lo12 = 0x7ff.
    assert!(K::R_RISCV_CALL_PLT.apply_relocation(&mut m, 0x8000_0000, 0x8000_0000 - 0x801).is_ok());
    let auipc = Ptr(0x8000_0000).read_u32(&m);
    let jalr = Ptr(0x8000_0004).read_u32(&m);
    assert_eq!(auipc, 0xfffff097);
    assert_eq!(jalr >> 20, 0x7ff);
    let hi = (auipc & 0xfffff000) as i32 as i64;
    let lo = ((jalr as i32) >> 20) as i64;
    assert_eq!(hi + lo, -0x801);
}

#[test]
fn hi20_lo12_round_trip_at_range_ends() {
    for off in [-(1i64 << 31) - (1 << 11), (1i64 << 31) - (1 << 11) - 1, 0x7ff, 0x800, -0x800, -1, 0] {
        let loc: u64 = 0x4000_0000_0000;
        let mut m = mem_with(loc, &[0x97, 0, 0, 0, 0xe7, 0x80, 0, 0]);
        let target = (loc as i64 + off) as u64;
        assert!(K::R_RISCV_CALL.apply_relocation(&mut m, loc, target).is_ok());
        let auipc = Ptr(loc).read_u32(&m);
        let jalr = Ptr(loc + 4).read_u32(&m);
        let hi = (auipc & 0xfffff000) as i32 as i64;
        let lo = ((jalr as i32) >> 20) as i64;
        assert_eq!(hi + lo, off);
    }
    let loc: u64 = 0x4000_0000_0000;
    let mut m = mem_with(loc, &[0u8; 8]);
    let past = (loc as i64 + (1i64 << 31) - (1 << 11)) as u64;
    assert!(K::R_RISCV_CALL.apply_relocation(&mut m, loc, past).is_err());
}

#[test]
fn add_then_sub_restores_each_width() {
    let bytes = [0xf0u8, 0xde, 0xbc, 0x9a, 0x78, 0x56, 0x34, 0x12];
    let pairs = [
        (K::R_RISCV_ADD8, K::R_RISCV_SUB8),
        (K::R_RISCV_ADD16, K::R_RISCV_SUB16),
        (K::R_RISCV_ADD32, K::R_RISCV_SUB32),
        (K::R_RISCV_ADD64, K::R_RISCV_SUB64),
    ];
    for (add, sub) in pairs {
        let mut m = mem_with(0x500, &bytes);
        assert!(add.apply_relocation(&mut m, 0x500, 0xffff_0000_ffff_0123).is_ok());
        assert_ne!(m.bytes, bytes.to_vec());
        assert!(sub.apply_relocation(&mut m, 0x500, 0xffff_0000_ffff_0123).is_ok());
        assert_eq!(m.bytes, bytes.to_vec());
    }
}

#[test]
fn add_and_sub_wrap() {
    let mut m = mem_with(0x500, &[0xff, 0xff, 0, 0]);
    assert!(K::R_RISCV_ADD16.apply_relocation(&mut m, 0x500, 2).is_ok());
    assert_eq!(m.bytes, vec![1, 0, 0, 0]);
    assert!(K::R_RISCV_SUB32.apply_relocation(&mut m, 0x500, 2).is_ok());
    assert_eq!(m.bytes, vec![0xff, 0xff, 0xff, 0xff]);
    assert!(K::R_RISCV_ADD8.apply_relocation(&mut m, 0x501, 3).is_ok());
    assert_eq!(m.bytes, vec![0xff, 2, 0xff, 0xff]);
}

#[test]
fn unsupported_kinds_fail() {
    for kind in [K::R_RISCV_GOT_HI20, K::R_RISCV_ALIGN, K::R_RISCV_COPY, K::R_RISCV_JUMP_SLOT, K::R_RISCV_TLS_DTPMOD64, K::R_RISCV_SET8] {
        let mut m = mem_with(0x100, &[0u8; 8]);
        let e = kind.apply_relocation(&mut m, 0x100, 0).unwrap_err();
        assert!(e.message().starts_with(kind.name()));
        assert_eq!(m.bytes, vec![0u8; 8]);
    }
}

#[test]
fn location_outside_memory_fails() {
    let mut m = mem_with(0x100, &[0u8; 8]);
    assert!(K::R_RISCV_64.apply_relocation(&mut m, 0x101, 0).is_err());
    assert!(K::R_RISCV_64.apply_relocation(&mut m, 0xff, 0).is_err());
    assert!(K::R_RISCV_32.apply_relocation(&mut m, 0x104, 0).is_ok());
    assert!(K::R_RISCV_CALL.apply_relocation(&mut m, 0x104, 0x104).is_err());
}

#[test]
fn instruction_field_splices() {
    assert_eq!(set_b_imm(0xffff_ffff, 0), 0x01fff07f);
    assert_eq!(set_b_imm(0, 0x1ffe), 0xfe000f80);
    assert_eq!(set_j_imm(0, 0x1ffffe), 0xfffff000);
    assert_eq!(set_u_imm(0x0000_0abc, 0x1234_5678), 0x1234_5abc);
    assert_eq!(set_i_imm(0, 0xfff), 0xfff0_0000);
    assert_eq!(set_s_imm(0, 0xfff), 0xfe00_0f80);
    assert_eq!(set_cb_imm(0, 0x1fe), 0x1c7c);
    assert_eq!(set_cj_imm(0, 0xffe), 0x1ffc);
}

#[test]
fn ptr_add_moves_cursor() {
    assert_eq!(Ptr(0x1000).add(4).0, 0x1004);
}

#[test]
fn failed_relocations_leave_memory_untouched() {
    let bytes = [0x63u8, 0, 0, 0, 0x97, 0, 0, 0];
    let cases = [
        (K::R_RISCV_BRANCH, 0x1000 + 4096),
        (K::R_RISCV_JAL, 0x1000 + 0x10_0000),
        (K::R_RISCV_RVC_BRANCH, 0x1000 + 256),
        (K::R_RISCV_RVC_JUMP, 0x1000 + 2048),
        (K::R_RISCV_PCREL_HI20, 0x8_0000_0000),
        (K::R_RISCV_CALL, 0x8_0000_0000),
        (K::R_RISCV_32, 0x1_0000_0000),
    ];
    for (kind, target) in cases {
        let mut m = mem_with(0x1000, &bytes);
        assert!(kind.apply_relocation(&mut m, 0x1000, target).is_err());
        assert_eq!(m.bytes, bytes.to_vec());
    }
}

#[test]
fn align_and_got_messages() {
    let mut m = mem_with(0x100, &[0u8; 8]);
    let e = K::R_RISCV_ALIGN.apply_relocation(&mut m, 0x100, 0).unwrap_err();
    assert_eq!(e.message(), "R_RISCV_ALIGN: alignment must be resolved by the linker");
    let e = K::R_RISCV_GOT_HI20.apply_relocation(&mut m, 0x100, 0).unwrap_err();
    assert_eq!(e.message(), "R_RISCV_GOT_HI20: GOT entries are not supported");
}

#[test]
fn call_plt_patches_like_call() {
    let code = [0x97u8, 0, 0, 0, 0xe7, 0x80, 0, 0];
    let mut a = mem_with(0x8000, &code);
    let mut b = mem_with(0x8000, &code);
    assert!(K::R_RISCV_CALL.apply_relocation(&mut a, 0x8000, 0x1234_5678).is_ok());
    assert!(K::R_RISCV_CALL_PLT.apply_relocation(&mut b, 0x8000, 0x1234_5678).is_ok());
    assert_eq!(a.bytes, b.bytes);
}
