//! Immediate fields of the RISC-V instruction formats that relocations patch.
//!
//! For each format, `*_type(w, imm)` is the word `w` with its immediate field
//! replaced by the matching bits of `imm`, `*_imm(w)` gathers the immediate
//! field of `w` back into its canonical bit positions, and `set_*_imm` computes
//! `*_type` at run time. Opcode and register bits are never touched.
use vstd::prelude::*;

verus! {

/// Bits of a B-type (conditional branch) word outside its immediate.
pub const B_KEEP: u32 = 0x01fff07f;

/// Bits of a J-type (`jal`) word outside its immediate.
pub const J_KEEP: u32 = 0x00000fff;

/// Bits of a U-type (`auipc`, `lui`) word outside its immediate.
pub const U_KEEP: u32 = 0x00000fff;

/// Bits of an I-type word outside its immediate.
pub const I_KEEP: u32 = 0x000fffff;

/// Bits of an S-type (store) word outside its immediate.
pub const S_KEEP: u32 = 0x01fff07f;

/// Bits of a CB-type (`c.beqz`, `c.bnez`) halfword outside its immediate.
pub const CB_KEEP: u16 = 0xe383;

/// Bits of a CJ-type (`c.j`, `c.jal`) halfword outside its immediate.
pub const CJ_KEEP: u16 = 0xe003;

/// B-type: offset bits 12, 11, 10:5 and 4:1 go to word bits 31, 7, 30:25 and 11:8.
pub open spec fn b_type(w: u32, imm: u32) -> u32 {
    (w & 0x01fff07f) | ((imm & 0x1000) << 19u32) | ((imm & 0x800) >> 4u32) | ((imm & 0x7e0)
        << 20u32) | ((imm & 0x1e) << 7u32)
}

pub open spec fn b_imm(w: u32) -> u32 {
    ((w >> 19u32) & 0x1000) | ((w << 4u32) & 0x800) | ((w >> 20u32) & 0x7e0) | ((w >> 7u32) & 0x1e)
}

/// J-type: offset bits 20, 19:12, 11 and 10:1 go to word bits 31, 19:12, 20 and 30:21.
pub open spec fn j_type(w: u32, imm: u32) -> u32 {
    (w & 0xfff) | ((imm & 0x100000) << 11u32) | (imm & 0xff000) | ((imm & 0x800) << 9u32) | ((imm
        & 0x7fe) << 20u32)
}

pub open spec fn j_imm(w: u32) -> u32 {
    ((w >> 11u32) & 0x100000) | (w & 0xff000) | ((w >> 9u32) & 0x800) | ((w >> 20u32) & 0x7fe)
}

/// U-type: value bits 31:12 go to word bits 31:12.
pub open spec fn u_type(w: u32, imm: u32) -> u32 {
    (w & 0xfff) | (imm & 0xfffff000)
}

pub open spec fn u_imm(w: u32) -> u32 {
    w & 0xfffff000
}

/// I-type: value bits 11:0 go to word bits 31:20.
pub open spec fn i_type(w: u32, imm: u32) -> u32 {
    (w & 0xfffff) | ((imm & 0xfff) << 20u32)
}

pub open spec fn i_imm(w: u32) -> u32 {
    w >> 20u32
}

/// S-type: value bits 11:5 and 4:0 go to word bits 31:25 and 11:7.
pub open spec fn s_type(w: u32, imm: u32) -> u32 {
    (w & 0x01fff07f) | ((imm & 0xfe0) << 20u32) | ((imm & 0x1f) << 7u32)
}

pub open spec fn s_imm(w: u32) -> u32 {
    ((w >> 20u32) & 0xfe0) | ((w >> 7u32) & 0x1f)
}

/// CB-type: offset bits 8, 7:6, 5, 4:3 and 2:1 go to halfword bits 12, 6:5, 2, 11:10 and 4:3.
pub open spec fn cb_type(h: u16, imm: u16) -> u16 {
    (h & 0xe383) | ((imm & 0x100) << 4u16) | ((imm & 0xc0) >> 1u16) | ((imm & 0x20) >> 3u16) | ((
    imm & 0x18) << 7u16) | ((imm & 0x6) << 2u16)
}

pub open spec fn cb_imm(h: u16) -> u16 {
    ((h >> 4u16) & 0x100) | ((h << 1u16) & 0xc0) | ((h << 3u16) & 0x20) | ((h >> 7u16) & 0x18) | ((
    h >> 2u16) & 0x6)
}

/// CJ-type: offset bits 11, 10, 9:8, 7, 6, 5, 4 and 3:1 go to halfword bits
/// 12, 8, 10:9, 6, 7, 2, 11 and 5:3.
pub open spec fn cj_type(h: u16, imm: u16) -> u16 {
    (h & 0xe003) | ((imm & 0x800) << 1u16) | ((imm & 0x400) >> 2u16) | ((imm & 0x300) << 1u16) | ((
    imm & 0x80) >> 1u16) | ((imm & 0x40) << 1u16) | ((imm & 0x20) >> 3u16) | ((imm & 0x10) << 7u16)
        | ((imm & 0xe) << 2u16)
}

pub open spec fn cj_imm(h: u16) -> u16 {
    ((h >> 1u16) & 0x800) | ((h << 2u16) & 0x400) | ((h >> 1u16) & 0x300) | ((h << 1u16) & 0x80) | ((
    h >> 1u16) & 0x40) | ((h << 3u16) & 0x20) | ((h >> 7u16) & 0x10) | ((h >> 2u16) & 0xe)
}

/// Upper part of a 32-bit PC-relative offset, rounded so that the lower part
/// is a signed 12-bit residue.
pub open spec fn hi20(off: u32) -> u32 {
    off.wrapping_add(0x800) & 0xfffff000
}

/// Lower 12 bits of an offset, as the I- or S-type immediate that pairs with `hi20`.
pub open spec fn lo12(off: u32) -> u32 {
    off & 0xfff
}

/// Value of a 12-bit immediate read as a signed number.
pub open spec fn sext12(imm: u32) -> int {
    if imm & 0x800 == 0 {
        (imm & 0xfff) as int
    } else {
        (imm & 0xfff) as int - 0x1000
    }
}

/// Value of a 32-bit word read as a signed number.
pub open spec fn sext32(v: u32) -> int {
    if v < 0x8000_0000 {
        v as int
    } else {
        v as int - 0x1_0000_0000
    }
}

pub fn set_b_imm(w: u32, imm: u32) -> (r: u32)
    ensures
        r == b_type(w, imm),
{
    (w & 0x01fff07f) | ((imm & 0x1000) << 19u32) | ((imm & 0x800) >> 4u32) | ((imm & 0x7e0)
        << 20u32) | ((imm & 0x1e) << 7u32)
}

pub fn set_j_imm(w: u32, imm: u32) -> (r: u32)
    ensures
        r == j_type(w, imm),
{
    (w & 0xfff) | ((imm & 0x100000) << 11u32) | (imm & 0xff000) | ((imm & 0x800) << 9u32) | ((imm
        & 0x7fe) << 20u32)
}

pub fn set_u_imm(w: u32, imm: u32) -> (r: u32)
    ensures
        r == u_type(w, imm),
{
    (w & 0xfff) | (imm & 0xfffff000)
}

pub fn set_i_imm(w: u32, imm: u32) -> (r: u32)
    ensures
        r == i_type(w, imm),
{
    (w & 0xfffff) | ((imm & 0xfff) << 20u32)
}

pub fn set_s_imm(w: u32, imm: u32) -> (r: u32)
    ensures
        r == s_type(w, imm),
{
    (w & 0x01fff07f) | ((imm & 0xfe0) << 20u32) | ((imm & 0x1f) << 7u32)
}

pub fn set_cb_imm(h: u16, imm: u16) -> (r: u16)
    ensures
        r == cb_type(h, imm),
{
    (h & 0xe383) | ((imm & 0x100) << 4u16) | ((imm & 0xc0) >> 1u16) | ((imm & 0x20) >> 3u16) | ((
    imm & 0x18) << 7u16) | ((imm & 0x6) << 2u16)
}

pub fn set_cj_imm(h: u16, imm: u16) -> (r: u16)
    ensures
        r == cj_type(h, imm),
{
    (h & 0xe003) | ((imm & 0x800) << 1u16) | ((imm & 0x400) >> 2u16) | ((imm & 0x300) << 1u16) | ((
    imm & 0x80) >> 1u16) | ((imm & 0x40) << 1u16) | ((imm & 0x20) >> 3u16) | ((imm & 0x10) << 7u16)
        | ((imm & 0xe) << 2u16)
}

/// The B-type splice keeps every bit outside the immediate and stores the
/// offset's bits 12:1.
pub proof fn lemma_b_type(w: u32, imm: u32)
    by (bit_vector)
    ensures
        b_type(w, imm) & B_KEEP == w & B_KEEP,
        b_imm(b_type(w, imm)) == imm & 0x1ffe,
{
}

/// The J-type splice keeps every bit outside the immediate and stores the
/// offset's bits 20:1.
pub proof fn lemma_j_type(w: u32, imm: u32)
    by (bit_vector)
    ensures
        j_type(w, imm) & J_KEEP == w & J_KEEP,
        j_imm(j_type(w, imm)) == imm & 0x1ffffe,
{
}

/// The U-type splice keeps every bit outside the immediate and stores bits 31:12.
pub proof fn lemma_u_type(w: u32, imm: u32)
    by (bit_vector)
    ensures
        u_type(w, imm) & U_KEEP == w & U_KEEP,
        u_imm(u_type(w, imm)) == imm & 0xfffff000,
{
}

/// The I-type splice keeps every bit outside the immediate and stores bits 11:0.
pub proof fn lemma_i_type(w: u32, imm: u32)
    by (bit_vector)
    ensures
        i_type(w, imm) & I_KEEP == w & I_KEEP,
        i_imm(i_type(w, imm)) == imm & 0xfff,
{
}

/// The S-type splice keeps every bit outside the immediate and stores bits 11:0.
pub proof fn lemma_s_type(w: u32, imm: u32)
    by (bit_vector)
    ensures
        s_type(w, imm) & S_KEEP == w & S_KEEP,
        s_imm(s_type(w, imm)) == imm & 0xfff,
{
}

/// The CB-type splice keeps every bit outside the immediate and stores the
/// offset's bits 8:1.
pub proof fn lemma_cb_type(h: u16, imm: u16)
    by (bit_vector)
    ensures
        cb_type(h, imm) & CB_KEEP == h & CB_KEEP,
        cb_imm(cb_type(h, imm)) == imm & 0x1fe,
{
}

/// The CJ-type splice keeps every bit outside the immediate and stores the
/// offset's bits 11:1.
pub proof fn lemma_cj_type(h: u16, imm: u16)
    by (bit_vector)
    ensures
        cj_type(h, imm) & CJ_KEEP == h & CJ_KEEP,
        cj_imm(cj_type(h, imm)) == imm & 0xffe,
{
}

/// Splitting a PC-relative offset in `[-2^31 - 2^11, 2^31 - 2^11)` into the
/// upper part written by `auipc` and the signed 12-bit residue written by the
/// paired instruction, then adding the two back as the processor does,
/// gives the offset again.
pub proof fn lemma_hi20_lo12_round_trip(off: i64)
    requires
        -0x8000_0800 <= off < 0x7fff_f800,
    ensures
        sext32(hi20(off as u32)) + sext12(lo12(off as u32)) == off,
{
    let o = off as u32;
    let h = hi20(o);
    let l = lo12(o);
    assert(h == o.wrapping_add(0x800) & 0xfffff000);
    assert(l == o & 0xfff);
    assert(((h as i32) as i64) + (((l << 20u32) as i32 >> 20u32) as i64) == off) by (bit_vector)
        requires
            -0x8000_0800 <= off < 0x7fff_f800,
            o == off as u32,
            h == (if o as u64 + 0x800 > 0xffff_ffff {
                (o as u64 + 0x800 - 0x1_0000_0000) as u32
            } else {
                (o + 0x800) as u32
            }) & 0xfffff000,
            l == o & 0xfff,
    ;
    assert(sext32(h) == (h as i32) as i64) by (bit_vector);
    assert(sext12(l) == (((l << 20u32) as i32 >> 20u32) as i64)) by (bit_vector)
        requires
            l == o & 0xfff,
    ;
}

} // verus!
