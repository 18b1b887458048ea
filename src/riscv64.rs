//! RISC-V relocation kinds and the patch that each one makes.
use vstd::prelude::*;

use crate::error::ModuleErr;
use crate::memory::{
    le16, le32, le64, le8, put16, put32, put64, put8, lemma_put16, lemma_put32, lemma_put64,
    lemma_put16_same, lemma_put32_same, lemma_put64_same, ModuleMemory, Ptr,
};
use crate::riscv_insn::{
    b_imm, cb_imm, cj_imm, i_imm, j_imm, s_imm, u_imm, lemma_b_type, lemma_cb_type, lemma_cj_type,
    lemma_i_type, lemma_j_type, lemma_s_type, lemma_u_type, B_KEEP, CB_KEEP, CJ_KEEP, I_KEEP,
    J_KEEP, S_KEEP, U_KEEP, b_type, cb_type, cj_type, hi20, i_type, j_type, lo12, s_type, set_b_imm, set_cb_imm,
    set_cj_imm, set_i_imm, set_j_imm, set_s_imm, set_u_imm, u_type,
};

verus! {

/// A RISC-V relocation kind, as numbered by the RISC-V ELF ABI.
#[allow(non_camel_case_types)]
#[derive(Debug, Clone, Copy, PartialEq, Eq, Structural)]
pub enum Riscv64RelocationType {
    /// None
    R_RISCV_NONE,
    /// Runtime relocation: word32 = S + A
    R_RISCV_32,
    /// Runtime relocation: word64 = S + A
    R_RISCV_64,
    /// Runtime relocation: word32,64 = B + A
    R_RISCV_RELATIVE,
    /// Runtime relocation: must be in executable, not allowed in shared library
    R_RISCV_COPY,
    /// Runtime relocation: word32,64 = S; handled by PLT unless LD_BIND_NOW
    R_RISCV_JUMP_SLOT,
    /// TLS relocation: word32 = S->TLSINDEX
    R_RISCV_TLS_DTPMOD32,
    /// TLS relocation: word64 = S->TLSINDEX
    R_RISCV_TLS_DTPMOD64,
    /// TLS relocation: word32 = TLS + S + A - TLS_TP_OFFSET
    R_RISCV_TLS_DTPREL32,
    /// TLS relocation: word64 = TLS + S + A - TLS_TP_OFFSET
    R_RISCV_TLS_DTPREL64,
    /// TLS relocation: word32 = TLS + S + A + S_TLS_OFFSET - TLS_DTV_OFFSET
    R_RISCV_TLS_TPREL32,
    /// TLS relocation: word64 = TLS + S + A + S_TLS_OFFSET - TLS_DTV_OFFSET
    R_RISCV_TLS_TPREL64,
    /// PC-relative branch (SB-Type)
    R_RISCV_BRANCH,
    /// PC-relative jump (UJ-Type)
    R_RISCV_JAL,
    /// PC-relative call: MACRO call,tail (auipc+jalr pair)
    R_RISCV_CALL,
    /// PC-relative call (PLT): MACRO call,tail (auipc+jalr pair) PIC
    R_RISCV_CALL_PLT,
    /// PC-relative GOT reference: MACRO la
    R_RISCV_GOT_HI20,
    /// PC-relative TLS IE GOT offset: MACRO la.tls.ie
    R_RISCV_TLS_GOT_HI20,
    /// PC-relative TLS GD reference: MACRO la.tls.gd
    R_RISCV_TLS_GD_HI20,
    /// PC-relative reference: %pcrel_hi(symbol) (U-Type)
    R_RISCV_PCREL_HI20,
    /// PC-relative reference: %pcrel_lo(symbol) (I-Type)
    R_RISCV_PCREL_LO12_I,
    /// PC-relative reference: %pcrel_lo(symbol) (S-Type)
    R_RISCV_PCREL_LO12_S,
    /// Absolute address: %hi(symbol) (U-Type)
    R_RISCV_HI20,
    /// Absolute address: %lo(symbol) (I-Type)
    R_RISCV_LO12_I,
    /// Absolute address: %lo(symbol) (S-Type)
    R_RISCV_LO12_S,
    /// TLS LE thread offset: %tprel_hi(symbol) (U-Type)
    R_RISCV_TPREL_HI20,
    /// TLS LE thread offset: %tprel_lo(symbol) (I-Type)
    R_RISCV_TPREL_LO12_I,
    /// TLS LE thread offset: %tprel_lo(symbol) (S-Type)
    R_RISCV_TPREL_LO12_S,
    /// TLS LE thread usage: %tprel_add(symbol)
    R_RISCV_TPREL_ADD,
    /// 8-bit label addition: word8 = S + A
    R_RISCV_ADD8,
    /// 16-bit label addition: word16 = S + A
    R_RISCV_ADD16,
    /// 32-bit label addition: word32 = S + A
    R_RISCV_ADD32,
    /// 64-bit label addition: word64 = S + A
    R_RISCV_ADD64,
    /// 8-bit label subtraction: word8 = S - A
    R_RISCV_SUB8,
    /// 16-bit label subtraction: word16 = S - A
    R_RISCV_SUB16,
    /// 32-bit label subtraction: word32 = S - A
    R_RISCV_SUB32,
    /// 64-bit label subtraction: word64 = S - A
    R_RISCV_SUB64,
    /// GNU C++ vtable hierarchy
    R_RISCV_GNU_VTINHERIT,
    /// GNU C++ vtable member usage
    R_RISCV_GNU_VTENTRY,
    /// Alignment statement
    R_RISCV_ALIGN,
    /// PC-relative branch offset (CB-Type)
    R_RISCV_RVC_BRANCH,
    /// PC-relative jump offset (CJ-Type)
    R_RISCV_RVC_JUMP,
    /// Absolute address (CI-Type)
    R_RISCV_RVC_LUI,
    /// GP-relative reference (I-Type)
    R_RISCV_GPREL_I,
    /// GP-relative reference (S-Type)
    R_RISCV_GPREL_S,
    /// TP-relative TLS LE load (I-Type)
    R_RISCV_TPREL_I,
    /// TP-relative TLS LE store (S-Type)
    R_RISCV_TPREL_S,
    /// Instruction pair can be relaxed
    R_RISCV_RELAX,
    /// Local label subtraction
    R_RISCV_SUB6,
    /// Local label subtraction
    R_RISCV_SET6,
    /// Local label subtraction
    R_RISCV_SET8,
    /// Local label subtraction
    R_RISCV_SET16,
    /// Local label subtraction
    R_RISCV_SET32,
}

impl Riscv64RelocationType {
    /// The number that the RISC-V ELF ABI gives to the kind.
    pub open spec fn spec_code(self) -> u32 {
        match self {
            Riscv64RelocationType::R_RISCV_NONE => 0,
            Riscv64RelocationType::R_RISCV_32 => 1,
            Riscv64RelocationType::R_RISCV_64 => 2,
            Riscv64RelocationType::R_RISCV_RELATIVE => 3,
            Riscv64RelocationType::R_RISCV_COPY => 4,
            Riscv64RelocationType::R_RISCV_JUMP_SLOT => 5,
            Riscv64RelocationType::R_RISCV_TLS_DTPMOD32 => 6,
            Riscv64RelocationType::R_RISCV_TLS_DTPMOD64 => 7,
            Riscv64RelocationType::R_RISCV_TLS_DTPREL32 => 8,
            Riscv64RelocationType::R_RISCV_TLS_DTPREL64 => 9,
            Riscv64RelocationType::R_RISCV_TLS_TPREL32 => 10,
            Riscv64RelocationType::R_RISCV_TLS_TPREL64 => 11,
            Riscv64RelocationType::R_RISCV_BRANCH => 16,
            Riscv64RelocationType::R_RISCV_JAL => 17,
            Riscv64RelocationType::R_RISCV_CALL => 18,
            Riscv64RelocationType::R_RISCV_CALL_PLT => 19,
            Riscv64RelocationType::R_RISCV_GOT_HI20 => 20,
            Riscv64RelocationType::R_RISCV_TLS_GOT_HI20 => 21,
            Riscv64RelocationType::R_RISCV_TLS_GD_HI20 => 22,
            Riscv64RelocationType::R_RISCV_PCREL_HI20 => 23,
            Riscv64RelocationType::R_RISCV_PCREL_LO12_I => 24,
            Riscv64RelocationType::R_RISCV_PCREL_LO12_S => 25,
            Riscv64RelocationType::R_RISCV_HI20 => 26,
            Riscv64RelocationType::R_RISCV_LO12_I => 27,
            Riscv64RelocationType::R_RISCV_LO12_S => 28,
            Riscv64RelocationType::R_RISCV_TPREL_HI20 => 29,
            Riscv64RelocationType::R_RISCV_TPREL_LO12_I => 30,
            Riscv64RelocationType::R_RISCV_TPREL_LO12_S => 31,
            Riscv64RelocationType::R_RISCV_TPREL_ADD => 32,
            Riscv64RelocationType::R_RISCV_ADD8 => 33,
            Riscv64RelocationType::R_RISCV_ADD16 => 34,
            Riscv64RelocationType::R_RISCV_ADD32 => 35,
            Riscv64RelocationType::R_RISCV_ADD64 => 36,
            Riscv64RelocationType::R_RISCV_SUB8 => 37,
            Riscv64RelocationType::R_RISCV_SUB16 => 38,
            Riscv64RelocationType::R_RISCV_SUB32 => 39,
            Riscv64RelocationType::R_RISCV_SUB64 => 40,
            Riscv64RelocationType::R_RISCV_GNU_VTINHERIT => 41,
            Riscv64RelocationType::R_RISCV_GNU_VTENTRY => 42,
            Riscv64RelocationType::R_RISCV_ALIGN => 43,
            Riscv64RelocationType::R_RISCV_RVC_BRANCH => 44,
            Riscv64RelocationType::R_RISCV_RVC_JUMP => 45,
            Riscv64RelocationType::R_RISCV_RVC_LUI => 46,
            Riscv64RelocationType::R_RISCV_GPREL_I => 47,
            Riscv64RelocationType::R_RISCV_GPREL_S => 48,
            Riscv64RelocationType::R_RISCV_TPREL_I => 49,
            Riscv64RelocationType::R_RISCV_TPREL_S => 50,
            Riscv64RelocationType::R_RISCV_RELAX => 51,
            Riscv64RelocationType::R_RISCV_SUB6 => 52,
            Riscv64RelocationType::R_RISCV_SET6 => 53,
            Riscv64RelocationType::R_RISCV_SET8 => 54,
            Riscv64RelocationType::R_RISCV_SET16 => 55,
            Riscv64RelocationType::R_RISCV_SET32 => 56,
        }
    }

    /// The kind that the RISC-V ELF ABI numbers `v`, if there is one.
    pub open spec fn spec_from_code(v: u32) -> Option<Riscv64RelocationType> {
        match v {
            0 => Some(Riscv64RelocationType::R_RISCV_NONE),
            1 => Some(Riscv64RelocationType::R_RISCV_32),
            2 => Some(Riscv64RelocationType::R_RISCV_64),
            3 => Some(Riscv64RelocationType::R_RISCV_RELATIVE),
            4 => Some(Riscv64RelocationType::R_RISCV_COPY),
            5 => Some(Riscv64RelocationType::R_RISCV_JUMP_SLOT),
            6 => Some(Riscv64RelocationType::R_RISCV_TLS_DTPMOD32),
            7 => Some(Riscv64RelocationType::R_RISCV_TLS_DTPMOD64),
            8 => Some(Riscv64RelocationType::R_RISCV_TLS_DTPREL32),
            9 => Some(Riscv64RelocationType::R_RISCV_TLS_DTPREL64),
            10 => Some(Riscv64RelocationType::R_RISCV_TLS_TPREL32),
            11 => Some(Riscv64RelocationType::R_RISCV_TLS_TPREL64),
            16 => Some(Riscv64RelocationType::R_RISCV_BRANCH),
            17 => Some(Riscv64RelocationType::R_RISCV_JAL),
            18 => Some(Riscv64RelocationType::R_RISCV_CALL),
            19 => Some(Riscv64RelocationType::R_RISCV_CALL_PLT),
            20 => Some(Riscv64RelocationType::R_RISCV_GOT_HI20),
            21 => Some(Riscv64RelocationType::R_RISCV_TLS_GOT_HI20),
            22 => Some(Riscv64RelocationType::R_RISCV_TLS_GD_HI20),
            23 => Some(Riscv64RelocationType::R_RISCV_PCREL_HI20),
            24 => Some(Riscv64RelocationType::R_RISCV_PCREL_LO12_I),
            25 => Some(Riscv64RelocationType::R_RISCV_PCREL_LO12_S),
            26 => Some(Riscv64RelocationType::R_RISCV_HI20),
            27 => Some(Riscv64RelocationType::R_RISCV_LO12_I),
            28 => Some(Riscv64RelocationType::R_RISCV_LO12_S),
            29 => Some(Riscv64RelocationType::R_RISCV_TPREL_HI20),
            30 => Some(Riscv64RelocationType::R_RISCV_TPREL_LO12_I),
            31 => Some(Riscv64RelocationType::R_RISCV_TPREL_LO12_S),
            32 => Some(Riscv64RelocationType::R_RISCV_TPREL_ADD),
            33 => Some(Riscv64RelocationType::R_RISCV_ADD8),
            34 => Some(Riscv64RelocationType::R_RISCV_ADD16),
            35 => Some(Riscv64RelocationType::R_RISCV_ADD32),
            36 => Some(Riscv64RelocationType::R_RISCV_ADD64),
            37 => Some(Riscv64RelocationType::R_RISCV_SUB8),
            38 => Some(Riscv64RelocationType::R_RISCV_SUB16),
            39 => Some(Riscv64RelocationType::R_RISCV_SUB32),
            40 => Some(Riscv64RelocationType::R_RISCV_SUB64),
            41 => Some(Riscv64RelocationType::R_RISCV_GNU_VTINHERIT),
            42 => Some(Riscv64RelocationType::R_RISCV_GNU_VTENTRY),
            43 => Some(Riscv64RelocationType::R_RISCV_ALIGN),
            44 => Some(Riscv64RelocationType::R_RISCV_RVC_BRANCH),
            45 => Some(Riscv64RelocationType::R_RISCV_RVC_JUMP),
            46 => Some(Riscv64RelocationType::R_RISCV_RVC_LUI),
            47 => Some(Riscv64RelocationType::R_RISCV_GPREL_I),
            48 => Some(Riscv64RelocationType::R_RISCV_GPREL_S),
            49 => Some(Riscv64RelocationType::R_RISCV_TPREL_I),
            50 => Some(Riscv64RelocationType::R_RISCV_TPREL_S),
            51 => Some(Riscv64RelocationType::R_RISCV_RELAX),
            52 => Some(Riscv64RelocationType::R_RISCV_SUB6),
            53 => Some(Riscv64RelocationType::R_RISCV_SET6),
            54 => Some(Riscv64RelocationType::R_RISCV_SET8),
            55 => Some(Riscv64RelocationType::R_RISCV_SET16),
            56 => Some(Riscv64RelocationType::R_RISCV_SET32),
            _ => None,
        }
    }

    /// The number that the RISC-V ELF ABI gives to the kind.
    pub fn code(&self) -> (r: u32)
        ensures
            r == self.spec_code(),
    {
        match self {
            Riscv64RelocationType::R_RISCV_NONE => 0,
            Riscv64RelocationType::R_RISCV_32 => 1,
            Riscv64RelocationType::R_RISCV_64 => 2,
            Riscv64RelocationType::R_RISCV_RELATIVE => 3,
            Riscv64RelocationType::R_RISCV_COPY => 4,
            Riscv64RelocationType::R_RISCV_JUMP_SLOT => 5,
            Riscv64RelocationType::R_RISCV_TLS_DTPMOD32 => 6,
            Riscv64RelocationType::R_RISCV_TLS_DTPMOD64 => 7,
            Riscv64RelocationType::R_RISCV_TLS_DTPREL32 => 8,
            Riscv64RelocationType::R_RISCV_TLS_DTPREL64 => 9,
            Riscv64RelocationType::R_RISCV_TLS_TPREL32 => 10,
            Riscv64RelocationType::R_RISCV_TLS_TPREL64 => 11,
            Riscv64RelocationType::R_RISCV_BRANCH => 16,
            Riscv64RelocationType::R_RISCV_JAL => 17,
            Riscv64RelocationType::R_RISCV_CALL => 18,
            Riscv64RelocationType::R_RISCV_CALL_PLT => 19,
            Riscv64RelocationType::R_RISCV_GOT_HI20 => 20,
            Riscv64RelocationType::R_RISCV_TLS_GOT_HI20 => 21,
            Riscv64RelocationType::R_RISCV_TLS_GD_HI20 => 22,
            Riscv64RelocationType::R_RISCV_PCREL_HI20 => 23,
            Riscv64RelocationType::R_RISCV_PCREL_LO12_I => 24,
            Riscv64RelocationType::R_RISCV_PCREL_LO12_S => 25,
            Riscv64RelocationType::R_RISCV_HI20 => 26,
            Riscv64RelocationType::R_RISCV_LO12_I => 27,
            Riscv64RelocationType::R_RISCV_LO12_S => 28,
            Riscv64RelocationType::R_RISCV_TPREL_HI20 => 29,
            Riscv64RelocationType::R_RISCV_TPREL_LO12_I => 30,
            Riscv64RelocationType::R_RISCV_TPREL_LO12_S => 31,
            Riscv64RelocationType::R_RISCV_TPREL_ADD => 32,
            Riscv64RelocationType::R_RISCV_ADD8 => 33,
            Riscv64RelocationType::R_RISCV_ADD16 => 34,
            Riscv64RelocationType::R_RISCV_ADD32 => 35,
            Riscv64RelocationType::R_RISCV_ADD64 => 36,
            Riscv64RelocationType::R_RISCV_SUB8 => 37,
            Riscv64RelocationType::R_RISCV_SUB16 => 38,
            Riscv64RelocationType::R_RISCV_SUB32 => 39,
            Riscv64RelocationType::R_RISCV_SUB64 => 40,
            Riscv64RelocationType::R_RISCV_GNU_VTINHERIT => 41,
            Riscv64RelocationType::R_RISCV_GNU_VTENTRY => 42,
            Riscv64RelocationType::R_RISCV_ALIGN => 43,
            Riscv64RelocationType::R_RISCV_RVC_BRANCH => 44,
            Riscv64RelocationType::R_RISCV_RVC_JUMP => 45,
            Riscv64RelocationType::R_RISCV_RVC_LUI => 46,
            Riscv64RelocationType::R_RISCV_GPREL_I => 47,
            Riscv64RelocationType::R_RISCV_GPREL_S => 48,
            Riscv64RelocationType::R_RISCV_TPREL_I => 49,
            Riscv64RelocationType::R_RISCV_TPREL_S => 50,
            Riscv64RelocationType::R_RISCV_RELAX => 51,
            Riscv64RelocationType::R_RISCV_SUB6 => 52,
            Riscv64RelocationType::R_RISCV_SET6 => 53,
            Riscv64RelocationType::R_RISCV_SET8 => 54,
            Riscv64RelocationType::R_RISCV_SET16 => 55,
            Riscv64RelocationType::R_RISCV_SET32 => 56,
        }
    }

    /// The kind numbered `v`; an unknown number gives `None`.
    pub fn from_code(v: u32) -> (r: Option<Riscv64RelocationType>)
        ensures
            r == Self::spec_from_code(v),
    {
        match v {
            0 => Some(Riscv64RelocationType::R_RISCV_NONE),
            1 => Some(Riscv64RelocationType::R_RISCV_32),
            2 => Some(Riscv64RelocationType::R_RISCV_64),
            3 => Some(Riscv64RelocationType::R_RISCV_RELATIVE),
            4 => Some(Riscv64RelocationType::R_RISCV_COPY),
            5 => Some(Riscv64RelocationType::R_RISCV_JUMP_SLOT),
            6 => Some(Riscv64RelocationType::R_RISCV_TLS_DTPMOD32),
            7 => Some(Riscv64RelocationType::R_RISCV_TLS_DTPMOD64),
            8 => Some(Riscv64RelocationType::R_RISCV_TLS_DTPREL32),
            9 => Some(Riscv64RelocationType::R_RISCV_TLS_DTPREL64),
            10 => Some(Riscv64RelocationType::R_RISCV_TLS_TPREL32),
            11 => Some(Riscv64RelocationType::R_RISCV_TLS_TPREL64),
            16 => Some(Riscv64RelocationType::R_RISCV_BRANCH),
            17 => Some(Riscv64RelocationType::R_RISCV_JAL),
            18 => Some(Riscv64RelocationType::R_RISCV_CALL),
            19 => Some(Riscv64RelocationType::R_RISCV_CALL_PLT),
            20 => Some(Riscv64RelocationType::R_RISCV_GOT_HI20),
            21 => Some(Riscv64RelocationType::R_RISCV_TLS_GOT_HI20),
            22 => Some(Riscv64RelocationType::R_RISCV_TLS_GD_HI20),
            23 => Some(Riscv64RelocationType::R_RISCV_PCREL_HI20),
            24 => Some(Riscv64RelocationType::R_RISCV_PCREL_LO12_I),
            25 => Some(Riscv64RelocationType::R_RISCV_PCREL_LO12_S),
            26 => Some(Riscv64RelocationType::R_RISCV_HI20),
            27 => Some(Riscv64RelocationType::R_RISCV_LO12_I),
            28 => Some(Riscv64RelocationType::R_RISCV_LO12_S),
            29 => Some(Riscv64RelocationType::R_RISCV_TPREL_HI20),
            30 => Some(Riscv64RelocationType::R_RISCV_TPREL_LO12_I),
            31 => Some(Riscv64RelocationType::R_RISCV_TPREL_LO12_S),
            32 => Some(Riscv64RelocationType::R_RISCV_TPREL_ADD),
            33 => Some(Riscv64RelocationType::R_RISCV_ADD8),
            34 => Some(Riscv64RelocationType::R_RISCV_ADD16),
            35 => Some(Riscv64RelocationType::R_RISCV_ADD32),
            36 => Some(Riscv64RelocationType::R_RISCV_ADD64),
            37 => Some(Riscv64RelocationType::R_RISCV_SUB8),
            38 => Some(Riscv64RelocationType::R_RISCV_SUB16),
            39 => Some(Riscv64RelocationType::R_RISCV_SUB32),
            40 => Some(Riscv64RelocationType::R_RISCV_SUB64),
            41 => Some(Riscv64RelocationType::R_RISCV_GNU_VTINHERIT),
            42 => Some(Riscv64RelocationType::R_RISCV_GNU_VTENTRY),
            43 => Some(Riscv64RelocationType::R_RISCV_ALIGN),
            44 => Some(Riscv64RelocationType::R_RISCV_RVC_BRANCH),
            45 => Some(Riscv64RelocationType::R_RISCV_RVC_JUMP),
            46 => Some(Riscv64RelocationType::R_RISCV_RVC_LUI),
            47 => Some(Riscv64RelocationType::R_RISCV_GPREL_I),
            48 => Some(Riscv64RelocationType::R_RISCV_GPREL_S),
            49 => Some(Riscv64RelocationType::R_RISCV_TPREL_I),
            50 => Some(Riscv64RelocationType::R_RISCV_TPREL_S),
            51 => Some(Riscv64RelocationType::R_RISCV_RELAX),
            52 => Some(Riscv64RelocationType::R_RISCV_SUB6),
            53 => Some(Riscv64RelocationType::R_RISCV_SET6),
            54 => Some(Riscv64RelocationType::R_RISCV_SET8),
            55 => Some(Riscv64RelocationType::R_RISCV_SET16),
            56 => Some(Riscv64RelocationType::R_RISCV_SET32),
            _ => None,
        }
    }

    /// The kind's name in the ABI.
    pub open spec fn spec_name(self) -> Seq<char> {
        match self {
            Riscv64RelocationType::R_RISCV_NONE => "R_RISCV_NONE"@,
            Riscv64RelocationType::R_RISCV_32 => "R_RISCV_32"@,
            Riscv64RelocationType::R_RISCV_64 => "R_RISCV_64"@,
            Riscv64RelocationType::R_RISCV_RELATIVE => "R_RISCV_RELATIVE"@,
            Riscv64RelocationType::R_RISCV_COPY => "R_RISCV_COPY"@,
            Riscv64RelocationType::R_RISCV_JUMP_SLOT => "R_RISCV_JUMP_SLOT"@,
            Riscv64RelocationType::R_RISCV_TLS_DTPMOD32 => "R_RISCV_TLS_DTPMOD32"@,
            Riscv64RelocationType::R_RISCV_TLS_DTPMOD64 => "R_RISCV_TLS_DTPMOD64"@,
            Riscv64RelocationType::R_RISCV_TLS_DTPREL32 => "R_RISCV_TLS_DTPREL32"@,
            Riscv64RelocationType::R_RISCV_TLS_DTPREL64 => "R_RISCV_TLS_DTPREL64"@,
            Riscv64RelocationType::R_RISCV_TLS_TPREL32 => "R_RISCV_TLS_TPREL32"@,
            Riscv64RelocationType::R_RISCV_TLS_TPREL64 => "R_RISCV_TLS_TPREL64"@,
            Riscv64RelocationType::R_RISCV_BRANCH => "R_RISCV_BRANCH"@,
            Riscv64RelocationType::R_RISCV_JAL => "R_RISCV_JAL"@,
            Riscv64RelocationType::R_RISCV_CALL => "R_RISCV_CALL"@,
            Riscv64RelocationType::R_RISCV_CALL_PLT => "R_RISCV_CALL_PLT"@,
            Riscv64RelocationType::R_RISCV_GOT_HI20 => "R_RISCV_GOT_HI20"@,
            Riscv64RelocationType::R_RISCV_TLS_GOT_HI20 => "R_RISCV_TLS_GOT_HI20"@,
            Riscv64RelocationType::R_RISCV_TLS_GD_HI20 => "R_RISCV_TLS_GD_HI20"@,
            Riscv64RelocationType::R_RISCV_PCREL_HI20 => "R_RISCV_PCREL_HI20"@,
            Riscv64RelocationType::R_RISCV_PCREL_LO12_I => "R_RISCV_PCREL_LO12_I"@,
            Riscv64RelocationType::R_RISCV_PCREL_LO12_S => "R_RISCV_PCREL_LO12_S"@,
            Riscv64RelocationType::R_RISCV_HI20 => "R_RISCV_HI20"@,
            Riscv64RelocationType::R_RISCV_LO12_I => "R_RISCV_LO12_I"@,
            Riscv64RelocationType::R_RISCV_LO12_S => "R_RISCV_LO12_S"@,
            Riscv64RelocationType::R_RISCV_TPREL_HI20 => "R_RISCV_TPREL_HI20"@,
            Riscv64RelocationType::R_RISCV_TPREL_LO12_I => "R_RISCV_TPREL_LO12_I"@,
            Riscv64RelocationType::R_RISCV_TPREL_LO12_S => "R_RISCV_TPREL_LO12_S"@,
            Riscv64RelocationType::R_RISCV_TPREL_ADD => "R_RISCV_TPREL_ADD"@,
            Riscv64RelocationType::R_RISCV_ADD8 => "R_RISCV_ADD8"@,
            Riscv64RelocationType::R_RISCV_ADD16 => "R_RISCV_ADD16"@,
            Riscv64RelocationType::R_RISCV_ADD32 => "R_RISCV_ADD32"@,
            Riscv64RelocationType::R_RISCV_ADD64 => "R_RISCV_ADD64"@,
            Riscv64RelocationType::R_RISCV_SUB8 => "R_RISCV_SUB8"@,
            Riscv64RelocationType::R_RISCV_SUB16 => "R_RISCV_SUB16"@,
            Riscv64RelocationType::R_RISCV_SUB32 => "R_RISCV_SUB32"@,
            Riscv64RelocationType::R_RISCV_SUB64 => "R_RISCV_SUB64"@,
            Riscv64RelocationType::R_RISCV_GNU_VTINHERIT => "R_RISCV_GNU_VTINHERIT"@,
            Riscv64RelocationType::R_RISCV_GNU_VTENTRY => "R_RISCV_GNU_VTENTRY"@,
            Riscv64RelocationType::R_RISCV_ALIGN => "R_RISCV_ALIGN"@,
            Riscv64RelocationType::R_RISCV_RVC_BRANCH => "R_RISCV_RVC_BRANCH"@,
            Riscv64RelocationType::R_RISCV_RVC_JUMP => "R_RISCV_RVC_JUMP"@,
            Riscv64RelocationType::R_RISCV_RVC_LUI => "R_RISCV_RVC_LUI"@,
            Riscv64RelocationType::R_RISCV_GPREL_I => "R_RISCV_GPREL_I"@,
            Riscv64RelocationType::R_RISCV_GPREL_S => "R_RISCV_GPREL_S"@,
            Riscv64RelocationType::R_RISCV_TPREL_I => "R_RISCV_TPREL_I"@,
            Riscv64RelocationType::R_RISCV_TPREL_S => "R_RISCV_TPREL_S"@,
            Riscv64RelocationType::R_RISCV_RELAX => "R_RISCV_RELAX"@,
            Riscv64RelocationType::R_RISCV_SUB6 => "R_RISCV_SUB6"@,
            Riscv64RelocationType::R_RISCV_SET6 => "R_RISCV_SET6"@,
            Riscv64RelocationType::R_RISCV_SET8 => "R_RISCV_SET8"@,
            Riscv64RelocationType::R_RISCV_SET16 => "R_RISCV_SET16"@,
            Riscv64RelocationType::R_RISCV_SET32 => "R_RISCV_SET32"@,
        }
    }

    /// The kind's name in the ABI.
    pub fn name(&self) -> (r: &'static str)
        ensures
            r@ == self.spec_name(),
    {
        match self {
            Riscv64RelocationType::R_RISCV_NONE => "R_RISCV_NONE",
            Riscv64RelocationType::R_RISCV_32 => "R_RISCV_32",
            Riscv64RelocationType::R_RISCV_64 => "R_RISCV_64",
            Riscv64RelocationType::R_RISCV_RELATIVE => "R_RISCV_RELATIVE",
            Riscv64RelocationType::R_RISCV_COPY => "R_RISCV_COPY",
            Riscv64RelocationType::R_RISCV_JUMP_SLOT => "R_RISCV_JUMP_SLOT",
            Riscv64RelocationType::R_RISCV_TLS_DTPMOD32 => "R_RISCV_TLS_DTPMOD32",
            Riscv64RelocationType::R_RISCV_TLS_DTPMOD64 => "R_RISCV_TLS_DTPMOD64",
            Riscv64RelocationType::R_RISCV_TLS_DTPREL32 => "R_RISCV_TLS_DTPREL32",
            Riscv64RelocationType::R_RISCV_TLS_DTPREL64 => "R_RISCV_TLS_DTPREL64",
            Riscv64RelocationType::R_RISCV_TLS_TPREL32 => "R_RISCV_TLS_TPREL32",
            Riscv64RelocationType::R_RISCV_TLS_TPREL64 => "R_RISCV_TLS_TPREL64",
            Riscv64RelocationType::R_RISCV_BRANCH => "R_RISCV_BRANCH",
            Riscv64RelocationType::R_RISCV_JAL => "R_RISCV_JAL",
            Riscv64RelocationType::R_RISCV_CALL => "R_RISCV_CALL",
            Riscv64RelocationType::R_RISCV_CALL_PLT => "R_RISCV_CALL_PLT",
            Riscv64RelocationType::R_RISCV_GOT_HI20 => "R_RISCV_GOT_HI20",
            Riscv64RelocationType::R_RISCV_TLS_GOT_HI20 => "R_RISCV_TLS_GOT_HI20",
            Riscv64RelocationType::R_RISCV_TLS_GD_HI20 => "R_RISCV_TLS_GD_HI20",
            Riscv64RelocationType::R_RISCV_PCREL_HI20 => "R_RISCV_PCREL_HI20",
            Riscv64RelocationType::R_RISCV_PCREL_LO12_I => "R_RISCV_PCREL_LO12_I",
            Riscv64RelocationType::R_RISCV_PCREL_LO12_S => "R_RISCV_PCREL_LO12_S",
            Riscv64RelocationType::R_RISCV_HI20 => "R_RISCV_HI20",
            Riscv64RelocationType::R_RISCV_LO12_I => "R_RISCV_LO12_I",
            Riscv64RelocationType::R_RISCV_LO12_S => "R_RISCV_LO12_S",
            Riscv64RelocationType::R_RISCV_TPREL_HI20 => "R_RISCV_TPREL_HI20",
            Riscv64RelocationType::R_RISCV_TPREL_LO12_I => "R_RISCV_TPREL_LO12_I",
            Riscv64RelocationType::R_RISCV_TPREL_LO12_S => "R_RISCV_TPREL_LO12_S",
            Riscv64RelocationType::R_RISCV_TPREL_ADD => "R_RISCV_TPREL_ADD",
            Riscv64RelocationType::R_RISCV_ADD8 => "R_RISCV_ADD8",
            Riscv64RelocationType::R_RISCV_ADD16 => "R_RISCV_ADD16",
            Riscv64RelocationType::R_RISCV_ADD32 => "R_RISCV_ADD32",
            Riscv64RelocationType::R_RISCV_ADD64 => "R_RISCV_ADD64",
            Riscv64RelocationType::R_RISCV_SUB8 => "R_RISCV_SUB8",
            Riscv64RelocationType::R_RISCV_SUB16 => "R_RISCV_SUB16",
            Riscv64RelocationType::R_RISCV_SUB32 => "R_RISCV_SUB32",
            Riscv64RelocationType::R_RISCV_SUB64 => "R_RISCV_SUB64",
            Riscv64RelocationType::R_RISCV_GNU_VTINHERIT => "R_RISCV_GNU_VTINHERIT",
            Riscv64RelocationType::R_RISCV_GNU_VTENTRY => "R_RISCV_GNU_VTENTRY",
            Riscv64RelocationType::R_RISCV_ALIGN => "R_RISCV_ALIGN",
            Riscv64RelocationType::R_RISCV_RVC_BRANCH => "R_RISCV_RVC_BRANCH",
            Riscv64RelocationType::R_RISCV_RVC_JUMP => "R_RISCV_RVC_JUMP",
            Riscv64RelocationType::R_RISCV_RVC_LUI => "R_RISCV_RVC_LUI",
            Riscv64RelocationType::R_RISCV_GPREL_I => "R_RISCV_GPREL_I",
            Riscv64RelocationType::R_RISCV_GPREL_S => "R_RISCV_GPREL_S",
            Riscv64RelocationType::R_RISCV_TPREL_I => "R_RISCV_TPREL_I",
            Riscv64RelocationType::R_RISCV_TPREL_S => "R_RISCV_TPREL_S",
            Riscv64RelocationType::R_RISCV_RELAX => "R_RISCV_RELAX",
            Riscv64RelocationType::R_RISCV_SUB6 => "R_RISCV_SUB6",
            Riscv64RelocationType::R_RISCV_SET6 => "R_RISCV_SET6",
            Riscv64RelocationType::R_RISCV_SET8 => "R_RISCV_SET8",
            Riscv64RelocationType::R_RISCV_SET16 => "R_RISCV_SET16",
            Riscv64RelocationType::R_RISCV_SET32 => "R_RISCV_SET32",
        }
    }
}

/// Offset from `location` to `address`, read as a signed 64-bit number.
pub open spec fn pc_offset(address: u64, location: u64) -> i64 {
    address.wrapping_sub(location) as i64
}

/// The offset lies in `[-bound, bound)`.
pub open spec fn in_range(off: i64, bound: i64) -> bool {
    -bound <= off && off < bound
}

/// The `auipc`-based pairs reach offsets in `[-2^31 - 2^11, 2^31 - 2^11)`.
pub open spec fn valid_32bit_offset(off: i64) -> bool {
    -0x8000_0800 <= off && off < 0x7fff_f800
}

/// The `width` bytes at `loc` lie in a region of `b.len()` bytes starting at
/// `base`, below the top of the address space.
pub open spec fn fits(b: Seq<u8>, base: u64, loc: u64, width: int) -> bool {
    base <= loc && loc - base + width <= b.len() && loc + width <= u64::MAX + 1
}

/// The bytes of a region starting at `base` after a relocation of `kind` with
/// resolved value `v` is applied at address `loc`, or `None` where it fails.
/// For the PC-relative LO12 kinds `v` is the residue computed from the paired
/// HI20 entry; for the absolute LO12 kinds only its low 12 bits count.
pub open spec fn relocated(kind: Riscv64RelocationType, b: Seq<u8>, base: u64, loc: u64, v: u64) -> Option<Seq<u8>> {
    let i = loc - base;
    let off = pc_offset(v, loc);
    match kind {
        Riscv64RelocationType::R_RISCV_NONE | Riscv64RelocationType::R_RISCV_RELAX => Some(b),
        Riscv64RelocationType::R_RISCV_32 => if fits(b, base, loc, 4) && v <= u32::MAX {
            Some(put32(b, i, v as u32))
        } else {
            None
        },
        Riscv64RelocationType::R_RISCV_64 => if fits(b, base, loc, 8) {
            Some(put64(b, i, v))
        } else {
            None
        },
        Riscv64RelocationType::R_RISCV_BRANCH => if fits(b, base, loc, 4) && in_range(off, 0x1000) {
            Some(put32(b, i, b_type(le32(b, i), off as u32)))
        } else {
            None
        },
        Riscv64RelocationType::R_RISCV_JAL => if fits(b, base, loc, 4) && in_range(off, 0x10_0000) {
            Some(put32(b, i, j_type(le32(b, i), off as u32)))
        } else {
            None
        },
        Riscv64RelocationType::R_RISCV_RVC_BRANCH => if fits(b, base, loc, 2) && in_range(off, 0x100) {
            Some(put16(b, i, cb_type(le16(b, i), off as u16)))
        } else {
            None
        },
        Riscv64RelocationType::R_RISCV_RVC_JUMP => if fits(b, base, loc, 2) && in_range(off, 0x800) {
            Some(put16(b, i, cj_type(le16(b, i), off as u16)))
        } else {
            None
        },
        Riscv64RelocationType::R_RISCV_PCREL_HI20 => if fits(b, base, loc, 4) && valid_32bit_offset(off) {
            Some(put32(b, i, u_type(le32(b, i), hi20(off as u32))))
        } else {
            None
        },
        Riscv64RelocationType::R_RISCV_HI20 => if fits(b, base, loc, 4) {
            Some(put32(b, i, u_type(le32(b, i), hi20(v as u32))))
        } else {
            None
        },
        Riscv64RelocationType::R_RISCV_PCREL_LO12_I | Riscv64RelocationType::R_RISCV_LO12_I => if fits(b, base, loc, 4) {
            Some(put32(b, i, i_type(le32(b, i), v as u32)))
        } else {
            None
        },
        Riscv64RelocationType::R_RISCV_PCREL_LO12_S | Riscv64RelocationType::R_RISCV_LO12_S => if fits(b, base, loc, 4) {
            Some(put32(b, i, s_type(le32(b, i), v as u32)))
        } else {
            None
        },
        Riscv64RelocationType::R_RISCV_CALL | Riscv64RelocationType::R_RISCV_CALL_PLT => if fits(b, base, loc, 8) && valid_32bit_offset(off) {
            Some(put32(put32(b, i, u_type(le32(b, i), hi20(off as u32))), i + 4, i_type(le32(b, i + 4), lo12(off as u32))))
        } else {
            None
        },
        Riscv64RelocationType::R_RISCV_ADD8 => if fits(b, base, loc, 1) {
            Some(put8(b, i, le8(b, i).wrapping_add(v as u8)))
        } else {
            None
        },
        Riscv64RelocationType::R_RISCV_ADD16 => if fits(b, base, loc, 2) {
            Some(put16(b, i, le16(b, i).wrapping_add(v as u16)))
        } else {
            None
        },
        Riscv64RelocationType::R_RISCV_ADD32 => if fits(b, base, loc, 4) {
            Some(put32(b, i, le32(b, i).wrapping_add(v as u32)))
        } else {
            None
        },
        Riscv64RelocationType::R_RISCV_ADD64 => if fits(b, base, loc, 8) {
            Some(put64(b, i, le64(b, i).wrapping_add(v)))
        } else {
            None
        },
        Riscv64RelocationType::R_RISCV_SUB8 => if fits(b, base, loc, 1) {
            Some(put8(b, i, le8(b, i).wrapping_sub(v as u8)))
        } else {
            None
        },
        Riscv64RelocationType::R_RISCV_SUB16 => if fits(b, base, loc, 2) {
            Some(put16(b, i, le16(b, i).wrapping_sub(v as u16)))
        } else {
            None
        },
        Riscv64RelocationType::R_RISCV_SUB32 => if fits(b, base, loc, 4) {
            Some(put32(b, i, le32(b, i).wrapping_sub(v as u32)))
        } else {
            None
        },
        Riscv64RelocationType::R_RISCV_SUB64 => if fits(b, base, loc, 8) {
            Some(put64(b, i, le64(b, i).wrapping_sub(v)))
        } else {
            None
        },
        _ => None,
    }
}

/// `r` and the memory after the call are what `relocated` gives for the
/// memory before it: `Ok` with the patched bytes, or `Err` with memory
/// untouched where it fails.
pub open spec fn applied(
    kind: Riscv64RelocationType,
    before: &ModuleMemory,
    after: &ModuleMemory,
    loc: u64,
    v: u64,
    r: Result<(), ModuleErr>,
) -> bool {
    &&& after.base == before.base
    &&& after.bytes@.len() == before.bytes@.len()
    &&& match relocated(kind, before.bytes@, before.base, loc, v) {
        Some(nb) => r is Ok && after.bytes@ == nb,
        None => r is Err && after.bytes@ == before.bytes@,
    }
}

/// The auipc+jalr instruction pair can reach any PC-relative offset
/// in the range [-2^31 - 2^11, 2^31 - 2^11).
fn riscv_insn_valid_32bit_offset(offset: i64) -> (r: bool)
    ensures
        r == valid_32bit_offset(offset),
{
    // -(2^31) - 2^11 and 2^31 - 2^11
    let low: i64 = -0x8000_0800;
    let high: i64 = 0x7fff_f800;
    low <= offset && offset < high
}

/// Relies on `format!`: a message naming the relocation kind, the problem and the address.
#[verifier::external_body]
fn failure_text(kind: &str, what: &str, location: u64) -> String {
    format!("{}: {} at PC = {:#x}", kind, what, location)
}

fn failure(kind: Riscv64RelocationType, what: &str, location: u64) -> ModuleErr {
    ModuleErr::RelocationFailed(failure_text(kind.name(), what, location))
}

impl Riscv64RelocationType {

    fn apply_r_riscv_32_rela(mem: &mut ModuleMemory, location: Ptr, address: u64) -> (r: Result<(), ModuleErr>)
        ensures
            applied(Riscv64RelocationType::R_RISCV_32, old(mem), final(mem), location.0, address, r),
    {
        if !mem.contains(location.0, 4) {
            return Err(failure(Riscv64RelocationType::R_RISCV_32, "location outside module memory", location.0));
        }
        if address > 0xffff_ffff {
            return Err(failure(Riscv64RelocationType::R_RISCV_32, "target does not fit in 32 bits", location.0));
        }
        location.write_u32(mem, address as u32);
        Ok(())
    }

    fn apply_r_riscv_64_rela(mem: &mut ModuleMemory, location: Ptr, address: u64) -> (r: Result<(), ModuleErr>)
        ensures
            applied(Riscv64RelocationType::R_RISCV_64, old(mem), final(mem), location.0, address, r),
    {
        if !mem.contains(location.0, 8) {
            return Err(failure(Riscv64RelocationType::R_RISCV_64, "location outside module memory", location.0));
        }
        location.write_u64(mem, address);
        Ok(())
    }

    fn apply_r_riscv_branch_rela(mem: &mut ModuleMemory, location: Ptr, address: u64) -> (r: Result<(), ModuleErr>)
        ensures
            applied(Riscv64RelocationType::R_RISCV_BRANCH, old(mem), final(mem), location.0, address, r),
    {
        let offset = address.wrapping_sub(location.0) as i64;
        if !(-0x1000 <= offset && offset < 0x1000) {
            return Err(failure(Riscv64RelocationType::R_RISCV_BRANCH, "offset does not fit the immediate", location.0));
        }
        if !mem.contains(location.0, 4) {
            return Err(failure(Riscv64RelocationType::R_RISCV_BRANCH, "location outside module memory", location.0));
        }
        let inst = location.read_u32(mem);
        location.write_u32(mem, set_b_imm(inst, offset as u32));
        Ok(())
    }

    fn apply_r_riscv_jal_rela(mem: &mut ModuleMemory, location: Ptr, address: u64) -> (r: Result<(), ModuleErr>)
        ensures
            applied(Riscv64RelocationType::R_RISCV_JAL, old(mem), final(mem), location.0, address, r),
    {
        let offset = address.wrapping_sub(location.0) as i64;
        if !(-0x10_0000 <= offset && offset < 0x10_0000) {
            return Err(failure(Riscv64RelocationType::R_RISCV_JAL, "offset does not fit the immediate", location.0));
        }
        if !mem.contains(location.0, 4) {
            return Err(failure(Riscv64RelocationType::R_RISCV_JAL, "location outside module memory", location.0));
        }
        let inst = location.read_u32(mem);
        location.write_u32(mem, set_j_imm(inst, offset as u32));
        Ok(())
    }

    fn apply_r_riscv_rvc_branch_rela(mem: &mut ModuleMemory, location: Ptr, address: u64) -> (r: Result<(), ModuleErr>)
        ensures
            applied(Riscv64RelocationType::R_RISCV_RVC_BRANCH, old(mem), final(mem), location.0, address, r),
    {
        let offset = address.wrapping_sub(location.0) as i64;
        if !(-0x100 <= offset && offset < 0x100) {
            return Err(failure(Riscv64RelocationType::R_RISCV_RVC_BRANCH, "offset does not fit the immediate", location.0));
        }
        if !mem.contains(location.0, 2) {
            return Err(failure(Riscv64RelocationType::R_RISCV_RVC_BRANCH, "location outside module memory", location.0));
        }
        let inst = location.read_u16(mem);
        location.write_u16(mem, set_cb_imm(inst, offset as u16));
        Ok(())
    }

    fn apply_r_riscv_rvc_jump_rela(mem: &mut ModuleMemory, location: Ptr, address: u64) -> (r: Result<(), ModuleErr>)
        ensures
            applied(Riscv64RelocationType::R_RISCV_RVC_JUMP, old(mem), final(mem), location.0, address, r),
    {
        let offset = address.wrapping_sub(location.0) as i64;
        if !(-0x800 <= offset && offset < 0x800) {
            return Err(failure(Riscv64RelocationType::R_RISCV_RVC_JUMP, "offset does not fit the immediate", location.0));
        }
        if !mem.contains(location.0, 2) {
            return Err(failure(Riscv64RelocationType::R_RISCV_RVC_JUMP, "location outside module memory", location.0));
        }
        let inst = location.read_u16(mem);
        location.write_u16(mem, set_cj_imm(inst, offset as u16));
        Ok(())
    }

    fn apply_r_riscv_pcrel_hi20_rela(mem: &mut ModuleMemory, location: Ptr, address: u64) -> (r: Result<(), ModuleErr>)
        ensures
            applied(Riscv64RelocationType::R_RISCV_PCREL_HI20, old(mem), final(mem), location.0, address, r),
    {
        let offset = address.wrapping_sub(location.0) as i64;
        if !riscv_insn_valid_32bit_offset(offset) {
            return Err(failure(Riscv64RelocationType::R_RISCV_PCREL_HI20, "target can not be addressed by a 32-bit offset", location.0));
        }
        if !mem.contains(location.0, 4) {
            return Err(failure(Riscv64RelocationType::R_RISCV_PCREL_HI20, "location outside module memory", location.0));
        }
        let hi = (offset as u32).wrapping_add(0x800) & 0xfffff000;
        let inst = location.read_u32(mem);
        location.write_u32(mem, set_u_imm(inst, hi));
        Ok(())
    }

    fn apply_r_riscv_hi20_rela(mem: &mut ModuleMemory, location: Ptr, address: u64) -> (r: Result<(), ModuleErr>)
        ensures
            applied(Riscv64RelocationType::R_RISCV_HI20, old(mem), final(mem), location.0, address, r),
    {
        if !mem.contains(location.0, 4) {
            return Err(failure(Riscv64RelocationType::R_RISCV_HI20, "location outside module memory", location.0));
        }
        let hi = (address as u32).wrapping_add(0x800) & 0xfffff000;
        let inst = location.read_u32(mem);
        location.write_u32(mem, set_u_imm(inst, hi));
        Ok(())
    }

    /// `address` is the lo12 residue, computed from the paired HI20 entry.
    fn apply_r_riscv_pcrel_lo12_i_rela(mem: &mut ModuleMemory, location: Ptr, address: u64) -> (r: Result<(), ModuleErr>)
        ensures
            applied(Riscv64RelocationType::R_RISCV_PCREL_LO12_I, old(mem), final(mem), location.0, address, r),
    {
        if !mem.contains(location.0, 4) {
            return Err(failure(Riscv64RelocationType::R_RISCV_PCREL_LO12_I, "location outside module memory", location.0));
        }
        let inst = location.read_u32(mem);
        location.write_u32(mem, set_i_imm(inst, address as u32));
        Ok(())
    }

    /// `address` is the lo12 residue, computed from the paired HI20 entry.
    fn apply_r_riscv_pcrel_lo12_s_rela(mem: &mut ModuleMemory, location: Ptr, address: u64) -> (r: Result<(), ModuleErr>)
        ensures
            applied(Riscv64RelocationType::R_RISCV_PCREL_LO12_S, old(mem), final(mem), location.0, address, r),
    {
        if !mem.contains(location.0, 4) {
            return Err(failure(Riscv64RelocationType::R_RISCV_PCREL_LO12_S, "location outside module memory", location.0));
        }
        let inst = location.read_u32(mem);
        location.write_u32(mem, set_s_imm(inst, address as u32));
        Ok(())
    }

    /// The residue of `address` below its rounded upper part has the same low 12 bits as `address`.
    fn apply_r_riscv_lo12_i_rela(mem: &mut ModuleMemory, location: Ptr, address: u64) -> (r: Result<(), ModuleErr>)
        ensures
            applied(Riscv64RelocationType::R_RISCV_LO12_I, old(mem), final(mem), location.0, address, r),
    {
        if !mem.contains(location.0, 4) {
            return Err(failure(Riscv64RelocationType::R_RISCV_LO12_I, "location outside module memory", location.0));
        }
        let inst = location.read_u32(mem);
        location.write_u32(mem, set_i_imm(inst, address as u32));
        Ok(())
    }

    /// The residue of `address` below its rounded upper part has the same low 12 bits as `address`.
    fn apply_r_riscv_lo12_s_rela(mem: &mut ModuleMemory, location: Ptr, address: u64) -> (r: Result<(), ModuleErr>)
        ensures
            applied(Riscv64RelocationType::R_RISCV_LO12_S, old(mem), final(mem), location.0, address, r),
    {
        if !mem.contains(location.0, 4) {
            return Err(failure(Riscv64RelocationType::R_RISCV_LO12_S, "location outside module memory", location.0));
        }
        let inst = location.read_u32(mem);
        location.write_u32(mem, set_s_imm(inst, address as u32));
        Ok(())
    }

    /// CALL and CALL_PLT: an `auipc` at `location` and the `jalr` after it.
    /// The loader makes no PLT entries, so both kinds patch the pair directly.
    fn apply_r_riscv_call_rela(
        kind: Riscv64RelocationType,
        mem: &mut ModuleMemory,
        location: Ptr,
        address: u64,
    ) -> (r: Result<(), ModuleErr>)
        requires
            kind == Riscv64RelocationType::R_RISCV_CALL || kind
                == Riscv64RelocationType::R_RISCV_CALL_PLT,
        ensures
            applied(kind, old(mem), final(mem), location.0, address, r),
    {
        let offset = address.wrapping_sub(location.0) as i64;
        if !riscv_insn_valid_32bit_offset(offset) {
            return Err(failure(kind, "target can not be addressed by a 32-bit offset", location.0));
        }
        if !mem.contains(location.0, 8) {
            return Err(failure(kind, "location outside module memory", location.0));
        }
        let hi = (offset as u32).wrapping_add(0x800) & 0xfffff000;
        let lo = (offset as u32) & 0xfff;
        let ghost b0 = mem.bytes@;
        let ghost i = mem.index_of(location.0);
        let auipc = location.read_u32(mem);
        location.write_u32(mem, set_u_imm(auipc, hi));
        let jalr = location.add(4);
        proof {
            lemma_put32(b0, i, u_type(auipc, hi));
            assert(le32(mem.bytes@, i + 4) == le32(b0, i + 4));
        }
        let jalr_inst = jalr.read_u32(mem);
        jalr.write_u32(mem, set_i_imm(jalr_inst, lo));
        Ok(())
    }

    fn apply_r_riscv_add8_rela(mem: &mut ModuleMemory, location: Ptr, address: u64) -> (r: Result<(), ModuleErr>)
        ensures
            applied(Riscv64RelocationType::R_RISCV_ADD8, old(mem), final(mem), location.0, address, r),
    {
        if !mem.contains(location.0, 1) {
            return Err(failure(Riscv64RelocationType::R_RISCV_ADD8, "location outside module memory", location.0));
        }
        let value = location.read_u8(mem);
        location.write_u8(mem, value.wrapping_add(address as u8));
        Ok(())
    }

    fn apply_r_riscv_sub8_rela(mem: &mut ModuleMemory, location: Ptr, address: u64) -> (r: Result<(), ModuleErr>)
        ensures
            applied(Riscv64RelocationType::R_RISCV_SUB8, old(mem), final(mem), location.0, address, r),
    {
        if !mem.contains(location.0, 1) {
            return Err(failure(Riscv64RelocationType::R_RISCV_SUB8, "location outside module memory", location.0));
        }
        let value = location.read_u8(mem);
        location.write_u8(mem, value.wrapping_sub(address as u8));
        Ok(())
    }

    fn apply_r_riscv_add16_rela(mem: &mut ModuleMemory, location: Ptr, address: u64) -> (r: Result<(), ModuleErr>)
        ensures
            applied(Riscv64RelocationType::R_RISCV_ADD16, old(mem), final(mem), location.0, address, r),
    {
        if !mem.contains(location.0, 2) {
            return Err(failure(Riscv64RelocationType::R_RISCV_ADD16, "location outside module memory", location.0));
        }
        let value = location.read_u16(mem);
        location.write_u16(mem, value.wrapping_add(address as u16));
        Ok(())
    }

    fn apply_r_riscv_sub16_rela(mem: &mut ModuleMemory, location: Ptr, address: u64) -> (r: Result<(), ModuleErr>)
        ensures
            applied(Riscv64RelocationType::R_RISCV_SUB16, old(mem), final(mem), location.0, address, r),
    {
        if !mem.contains(location.0, 2) {
            return Err(failure(Riscv64RelocationType::R_RISCV_SUB16, "location outside module memory", location.0));
        }
        let value = location.read_u16(mem);
        location.write_u16(mem, value.wrapping_sub(address as u16));
        Ok(())
    }

    fn apply_r_riscv_add32_rela(mem: &mut ModuleMemory, location: Ptr, address: u64) -> (r: Result<(), ModuleErr>)
        ensures
            applied(Riscv64RelocationType::R_RISCV_ADD32, old(mem), final(mem), location.0, address, r),
    {
        if !mem.contains(location.0, 4) {
            return Err(failure(Riscv64RelocationType::R_RISCV_ADD32, "location outside module memory", location.0));
        }
        let value = location.read_u32(mem);
        location.write_u32(mem, value.wrapping_add(address as u32));
        Ok(())
    }

    fn apply_r_riscv_sub32_rela(mem: &mut ModuleMemory, location: Ptr, address: u64) -> (r: Result<(), ModuleErr>)
        ensures
            applied(Riscv64RelocationType::R_RISCV_SUB32, old(mem), final(mem), location.0, address, r),
    {
        if !mem.contains(location.0, 4) {
            return Err(failure(Riscv64RelocationType::R_RISCV_SUB32, "location outside module memory", location.0));
        }
        let value = location.read_u32(mem);
        location.write_u32(mem, value.wrapping_sub(address as u32));
        Ok(())
    }

    fn apply_r_riscv_add64_rela(mem: &mut ModuleMemory, location: Ptr, address: u64) -> (r: Result<(), ModuleErr>)
        ensures
            applied(Riscv64RelocationType::R_RISCV_ADD64, old(mem), final(mem), location.0, address, r),
    {
        if !mem.contains(location.0, 8) {
            return Err(failure(Riscv64RelocationType::R_RISCV_ADD64, "location outside module memory", location.0));
        }
        let value = location.read_u64(mem);
        location.write_u64(mem, value.wrapping_add(address));
        Ok(())
    }

    fn apply_r_riscv_sub64_rela(mem: &mut ModuleMemory, location: Ptr, address: u64) -> (r: Result<(), ModuleErr>)
        ensures
            applied(Riscv64RelocationType::R_RISCV_SUB64, old(mem), final(mem), location.0, address, r),
    {
        if !mem.contains(location.0, 8) {
            return Err(failure(Riscv64RelocationType::R_RISCV_SUB64, "location outside module memory", location.0));
        }
        let value = location.read_u64(mem);
        location.write_u64(mem, value.wrapping_sub(address));
        Ok(())
    }

    /// Applies a relocation of this kind at address `location`, with
    /// resolved value `address`, to module memory.
    pub fn apply_relocation(&self, mem: &mut ModuleMemory, location: u64, address: u64) -> (r: Result<(), ModuleErr>)
        ensures
            applied(*self, old(mem), final(mem), location, address, r),
            *self == Riscv64RelocationType::R_RISCV_ALIGN ==> (r matches Err(e) && e.text()
                == "R_RISCV_ALIGN: alignment must be resolved by the linker"@),
            *self == Riscv64RelocationType::R_RISCV_GOT_HI20 ==> (r matches Err(e) && e.text()
                == "R_RISCV_GOT_HI20: GOT entries are not supported"@),
    {
        let location = Ptr(location);
        match self {
            Riscv64RelocationType::R_RISCV_NONE => Ok(()),
            Riscv64RelocationType::R_RISCV_RELAX => Ok(()),
            Riscv64RelocationType::R_RISCV_32 => Self::apply_r_riscv_32_rela(mem, location, address),
            Riscv64RelocationType::R_RISCV_64 => Self::apply_r_riscv_64_rela(mem, location, address),
            Riscv64RelocationType::R_RISCV_BRANCH => Self::apply_r_riscv_branch_rela(mem, location, address),
            Riscv64RelocationType::R_RISCV_JAL => Self::apply_r_riscv_jal_rela(mem, location, address),
            Riscv64RelocationType::R_RISCV_RVC_BRANCH => Self::apply_r_riscv_rvc_branch_rela(mem, location, address),
            Riscv64RelocationType::R_RISCV_RVC_JUMP => Self::apply_r_riscv_rvc_jump_rela(mem, location, address),
            Riscv64RelocationType::R_RISCV_PCREL_HI20 => Self::apply_r_riscv_pcrel_hi20_rela(mem, location, address),
            Riscv64RelocationType::R_RISCV_PCREL_LO12_I => Self::apply_r_riscv_pcrel_lo12_i_rela(mem, location, address),
            Riscv64RelocationType::R_RISCV_PCREL_LO12_S => Self::apply_r_riscv_pcrel_lo12_s_rela(mem, location, address),
            Riscv64RelocationType::R_RISCV_HI20 => Self::apply_r_riscv_hi20_rela(mem, location, address),
            Riscv64RelocationType::R_RISCV_LO12_I => Self::apply_r_riscv_lo12_i_rela(mem, location, address),
            Riscv64RelocationType::R_RISCV_LO12_S => Self::apply_r_riscv_lo12_s_rela(mem, location, address),
            Riscv64RelocationType::R_RISCV_CALL | Riscv64RelocationType::R_RISCV_CALL_PLT => {
                Self::apply_r_riscv_call_rela(*self, mem, location, address)
            },
            Riscv64RelocationType::R_RISCV_ADD8 => Self::apply_r_riscv_add8_rela(mem, location, address),
            Riscv64RelocationType::R_RISCV_ADD16 => Self::apply_r_riscv_add16_rela(mem, location, address),
            Riscv64RelocationType::R_RISCV_ADD32 => Self::apply_r_riscv_add32_rela(mem, location, address),
            Riscv64RelocationType::R_RISCV_ADD64 => Self::apply_r_riscv_add64_rela(mem, location, address),
            Riscv64RelocationType::R_RISCV_SUB8 => Self::apply_r_riscv_sub8_rela(mem, location, address),
            Riscv64RelocationType::R_RISCV_SUB16 => Self::apply_r_riscv_sub16_rela(mem, location, address),
            Riscv64RelocationType::R_RISCV_SUB32 => Self::apply_r_riscv_sub32_rela(mem, location, address),
            Riscv64RelocationType::R_RISCV_SUB64 => Self::apply_r_riscv_sub64_rela(mem, location, address),
            Riscv64RelocationType::R_RISCV_ALIGN => Err(
                ModuleErr::failed("R_RISCV_ALIGN: alignment must be resolved by the linker"),
            ),
            Riscv64RelocationType::R_RISCV_GOT_HI20 => Err(
                ModuleErr::failed("R_RISCV_GOT_HI20: GOT entries are not supported"),
            ),
            _ => Err(failure(*self, "relocation kind not supported", location.0)),
        }
    }
}

/// `nb` differs from `b` at most in the four bytes at `i`, and the 32-bit word
/// there agrees with the old one on the bits of `keep`.
pub open spec fn kept32(b: Seq<u8>, nb: Seq<u8>, i: int, keep: u32) -> bool {
    &&& nb.len() == b.len()
    &&& le32(nb, i) & keep == le32(b, i) & keep
    &&& forall|k: int| 0 <= k < b.len() && !(i <= k < i + 4) ==> nb[k] == b[k]
}

/// `nb` differs from `b` at most in the two bytes at `i`, and the 16-bit word
/// there agrees with the old one on the bits of `keep`.
pub open spec fn kept16(b: Seq<u8>, nb: Seq<u8>, i: int, keep: u16) -> bool {
    &&& nb.len() == b.len()
    &&& le16(nb, i) & keep == le16(b, i) & keep
    &&& forall|k: int| 0 <= k < b.len() && !(i <= k < i + 2) ==> nb[k] == b[k]
}

/// Number of bytes that a relocation of `kind` patches.
pub open spec fn patch_width(kind: Riscv64RelocationType) -> int {
    match kind {
        Riscv64RelocationType::R_RISCV_ADD8 | Riscv64RelocationType::R_RISCV_SUB8 => 1,
        Riscv64RelocationType::R_RISCV_RVC_BRANCH | Riscv64RelocationType::R_RISCV_RVC_JUMP
        | Riscv64RelocationType::R_RISCV_ADD16 | Riscv64RelocationType::R_RISCV_SUB16 => 2,
        Riscv64RelocationType::R_RISCV_64 | Riscv64RelocationType::R_RISCV_CALL
        | Riscv64RelocationType::R_RISCV_CALL_PLT | Riscv64RelocationType::R_RISCV_ADD64
        | Riscv64RelocationType::R_RISCV_SUB64 => 8,
        _ => 4,
    }
}

/// A relocation of kind NONE or RELAX leaves memory byte for byte as it was.
pub proof fn lemma_hint_kinds_change_nothing(kind: Riscv64RelocationType, b: Seq<u8>, base: u64, loc: u64, v: u64)
    requires
        kind == Riscv64RelocationType::R_RISCV_NONE || kind == Riscv64RelocationType::R_RISCV_RELAX,
    ensures
        relocated(kind, b, base, loc, v) == Some(b),
{
}

/// An instruction relocation that succeeds changes nothing but the immediate
/// field(s) of the instruction word(s) it patches: every other bit of those
/// words, and every other byte of memory, stays as it was.
pub proof fn lemma_only_immediates_change(kind: Riscv64RelocationType, b: Seq<u8>, base: u64, loc: u64, v: u64)
    requires
        relocated(kind, b, base, loc, v) is Some,
    ensures
        ({
            let nb = relocated(kind, b, base, loc, v).unwrap();
            let i = loc - base;
            match kind {
                Riscv64RelocationType::R_RISCV_BRANCH => kept32(b, nb, i, B_KEEP),
                Riscv64RelocationType::R_RISCV_JAL => kept32(b, nb, i, J_KEEP),
                Riscv64RelocationType::R_RISCV_PCREL_HI20 | Riscv64RelocationType::R_RISCV_HI20 => kept32(b, nb, i, U_KEEP),
                Riscv64RelocationType::R_RISCV_PCREL_LO12_I | Riscv64RelocationType::R_RISCV_LO12_I => kept32(b, nb, i, I_KEEP),
                Riscv64RelocationType::R_RISCV_PCREL_LO12_S | Riscv64RelocationType::R_RISCV_LO12_S => kept32(b, nb, i, S_KEEP),
                Riscv64RelocationType::R_RISCV_RVC_BRANCH => kept16(b, nb, i, CB_KEEP),
                Riscv64RelocationType::R_RISCV_RVC_JUMP => kept16(b, nb, i, CJ_KEEP),
                Riscv64RelocationType::R_RISCV_CALL | Riscv64RelocationType::R_RISCV_CALL_PLT => {
                    &&& nb.len() == b.len()
                    &&& le32(nb, i) & U_KEEP == le32(b, i) & U_KEEP
                    &&& le32(nb, i + 4) & I_KEEP == le32(b, i + 4) & I_KEEP
                    &&& forall|k: int| 0 <= k < b.len() && !(i <= k < i + 8) ==> nb[k] == b[k]
                },
                _ => true,
            }
        }),
{
    let i = loc - base;
    let off = pc_offset(v, loc);
    match kind {
        Riscv64RelocationType::R_RISCV_BRANCH => {
            lemma_put32(b, i, b_type(le32(b, i), off as u32));
            lemma_b_type(le32(b, i), off as u32);
        },
        Riscv64RelocationType::R_RISCV_JAL => {
            lemma_put32(b, i, j_type(le32(b, i), off as u32));
            lemma_j_type(le32(b, i), off as u32);
        },
        Riscv64RelocationType::R_RISCV_PCREL_HI20 => {
            lemma_put32(b, i, u_type(le32(b, i), hi20(off as u32)));
            lemma_u_type(le32(b, i), hi20(off as u32));
        },
        Riscv64RelocationType::R_RISCV_HI20 => {
            lemma_put32(b, i, u_type(le32(b, i), hi20(v as u32)));
            lemma_u_type(le32(b, i), hi20(v as u32));
        },
        Riscv64RelocationType::R_RISCV_PCREL_LO12_I | Riscv64RelocationType::R_RISCV_LO12_I => {
            lemma_put32(b, i, i_type(le32(b, i), v as u32));
            lemma_i_type(le32(b, i), v as u32);
        },
        Riscv64RelocationType::R_RISCV_PCREL_LO12_S | Riscv64RelocationType::R_RISCV_LO12_S => {
            lemma_put32(b, i, s_type(le32(b, i), v as u32));
            lemma_s_type(le32(b, i), v as u32);
        },
        Riscv64RelocationType::R_RISCV_RVC_BRANCH => {
            lemma_put16(b, i, cb_type(le16(b, i), off as u16));
            lemma_cb_type(le16(b, i), off as u16);
        },
        Riscv64RelocationType::R_RISCV_RVC_JUMP => {
            lemma_put16(b, i, cj_type(le16(b, i), off as u16));
            lemma_cj_type(le16(b, i), off as u16);
        },
        Riscv64RelocationType::R_RISCV_CALL | Riscv64RelocationType::R_RISCV_CALL_PLT => {
            let w0 = u_type(le32(b, i), hi20(off as u32));
            let b1 = put32(b, i, w0);
            let w1 = i_type(le32(b, i + 4), lo12(off as u32));
            lemma_put32(b, i, w0);
            lemma_put32(b1, i + 4, w1);
            lemma_u_type(le32(b, i), hi20(off as u32));
            lemma_i_type(le32(b, i + 4), lo12(off as u32));
            assert(le32(b1, i + 4) == le32(b, i + 4));
            assert(le32(put32(b1, i + 4, w1), i) == le32(b1, i));
        },
        _ => {},
    }
}

/// Where the patched bytes lie in memory, a relocation succeeds exactly when
/// its value is in the kind's range, and the immediate read back from the
/// patched instruction (or the word, for data kinds) is the value truncated
/// to the bits that the field holds.
pub proof fn lemma_immediate_written(kind: Riscv64RelocationType, b: Seq<u8>, base: u64, loc: u64, v: u64)
    requires
        fits(b, base, loc, patch_width(kind)),
    ensures
        ({
            let r = relocated(kind, b, base, loc, v);
            let nb = r.unwrap();
            let i = loc - base;
            let off = pc_offset(v, loc);
            match kind {
                Riscv64RelocationType::R_RISCV_32 => (r is Some <==> v <= u32::MAX) && (r is Some ==> le32(nb, i) == v),
                Riscv64RelocationType::R_RISCV_64 => r is Some && le64(nb, i) == v,
                Riscv64RelocationType::R_RISCV_BRANCH => (r is Some <==> in_range(off, 0x1000)) && (r is Some ==> b_imm(le32(nb, i)) == (off as u32) & 0x1ffe),
                Riscv64RelocationType::R_RISCV_JAL => (r is Some <==> in_range(off, 0x10_0000)) && (r is Some ==> j_imm(le32(nb, i)) == (off as u32) & 0x1ffffe),
                Riscv64RelocationType::R_RISCV_RVC_BRANCH => (r is Some <==> in_range(off, 0x100)) && (r is Some ==> cb_imm(le16(nb, i)) == (off as u16) & 0x1fe),
                Riscv64RelocationType::R_RISCV_RVC_JUMP => (r is Some <==> in_range(off, 0x800)) && (r is Some ==> cj_imm(le16(nb, i)) == (off as u16) & 0xffe),
                Riscv64RelocationType::R_RISCV_PCREL_HI20 => (r is Some <==> valid_32bit_offset(off)) && (r is Some ==> u_imm(le32(nb, i)) == hi20(off as u32)),
                Riscv64RelocationType::R_RISCV_HI20 => r is Some && u_imm(le32(nb, i)) == hi20(v as u32),
                Riscv64RelocationType::R_RISCV_PCREL_LO12_I | Riscv64RelocationType::R_RISCV_LO12_I => r is Some && i_imm(le32(nb, i)) == (v as u32) & 0xfff,
                Riscv64RelocationType::R_RISCV_PCREL_LO12_S | Riscv64RelocationType::R_RISCV_LO12_S => r is Some && s_imm(le32(nb, i)) == (v as u32) & 0xfff,
                Riscv64RelocationType::R_RISCV_CALL | Riscv64RelocationType::R_RISCV_CALL_PLT => (r is Some <==> valid_32bit_offset(off)) && (r is Some ==> u_imm(le32(nb, i)) == hi20(off as u32) && i_imm(le32(nb, i + 4)) == lo12(off as u32)),
                _ => true,
            }
        }),
{
    let i = loc - base;
    let off = pc_offset(v, loc);
    let o = off as u32;
    assert(hi20(o) & 0xfffff000 == hi20(o)) by (bit_vector);
    assert(lo12(o) & 0xfff == lo12(o)) by (bit_vector);
    match kind {
        Riscv64RelocationType::R_RISCV_32 => {
            lemma_put32(b, i, v as u32);
        },
        Riscv64RelocationType::R_RISCV_64 => {
            lemma_put64(b, i, v);
        },
        Riscv64RelocationType::R_RISCV_BRANCH => {
            lemma_put32(b, i, b_type(le32(b, i), o));
            lemma_b_type(le32(b, i), o);
        },
        Riscv64RelocationType::R_RISCV_JAL => {
            lemma_put32(b, i, j_type(le32(b, i), o));
            lemma_j_type(le32(b, i), o);
        },
        Riscv64RelocationType::R_RISCV_RVC_BRANCH => {
            lemma_put16(b, i, cb_type(le16(b, i), off as u16));
            lemma_cb_type(le16(b, i), off as u16);
        },
        Riscv64RelocationType::R_RISCV_RVC_JUMP => {
            lemma_put16(b, i, cj_type(le16(b, i), off as u16));
            lemma_cj_type(le16(b, i), off as u16);
        },
        Riscv64RelocationType::R_RISCV_PCREL_HI20 => {
            lemma_put32(b, i, u_type(le32(b, i), hi20(o)));
            lemma_u_type(le32(b, i), hi20(o));
        },
        Riscv64RelocationType::R_RISCV_HI20 => {
            let h = hi20(v as u32);
            assert(hi20(v as u32) & 0xfffff000 == hi20(v as u32)) by (bit_vector);
            lemma_put32(b, i, u_type(le32(b, i), h));
            lemma_u_type(le32(b, i), h);
        },
        Riscv64RelocationType::R_RISCV_PCREL_LO12_I | Riscv64RelocationType::R_RISCV_LO12_I => {
            lemma_put32(b, i, i_type(le32(b, i), v as u32));
            lemma_i_type(le32(b, i), v as u32);
        },
        Riscv64RelocationType::R_RISCV_PCREL_LO12_S | Riscv64RelocationType::R_RISCV_LO12_S => {
            lemma_put32(b, i, s_type(le32(b, i), v as u32));
            lemma_s_type(le32(b, i), v as u32);
        },
        Riscv64RelocationType::R_RISCV_CALL | Riscv64RelocationType::R_RISCV_CALL_PLT => {
            let w0 = u_type(le32(b, i), hi20(o));
            let b1 = put32(b, i, w0);
            let w1 = i_type(le32(b, i + 4), lo12(o));
            lemma_put32(b, i, w0);
            lemma_put32(b1, i + 4, w1);
            lemma_u_type(le32(b, i), hi20(o));
            lemma_i_type(le32(b, i + 4), lo12(o));
            assert(le32(b1, i + 4) == le32(b, i + 4));
            assert(le32(put32(b1, i + 4, w1), i) == le32(b1, i));
        },
        _ => {},
    }
}

/// An ADD of `v` followed by a SUB of `v` of the same width, at the same
/// place, gives back the memory as it was (both wrap around).
pub proof fn lemma_add_then_sub_restores(b: Seq<u8>, base: u64, loc: u64, v: u64)
    ensures
        fits(b, base, loc, 1) ==> relocated(Riscv64RelocationType::R_RISCV_SUB8, relocated(Riscv64RelocationType::R_RISCV_ADD8, b, base, loc, v).unwrap(), base, loc, v) == Some(b),
        fits(b, base, loc, 2) ==> relocated(Riscv64RelocationType::R_RISCV_SUB16, relocated(Riscv64RelocationType::R_RISCV_ADD16, b, base, loc, v).unwrap(), base, loc, v) == Some(b),
        fits(b, base, loc, 4) ==> relocated(Riscv64RelocationType::R_RISCV_SUB32, relocated(Riscv64RelocationType::R_RISCV_ADD32, b, base, loc, v).unwrap(), base, loc, v) == Some(b),
        fits(b, base, loc, 8) ==> relocated(Riscv64RelocationType::R_RISCV_SUB64, relocated(Riscv64RelocationType::R_RISCV_ADD64, b, base, loc, v).unwrap(), base, loc, v) == Some(b),
{
    let i = loc - base;
    if fits(b, base, loc, 1) {
        let nb = put8(b, i, le8(b, i).wrapping_add(v as u8));
        assert(put8(nb, i, le8(nb, i).wrapping_sub(v as u8)) =~= b);
    }
    if fits(b, base, loc, 2) {
        let w = le16(b, i).wrapping_add(v as u16);
        lemma_put16(b, i, w);
        let nb = put16(b, i, w);
        assert(le16(nb, i).wrapping_sub(v as u16) == le16(b, i));
        lemma_put16(nb, i, le16(b, i));
        assert(put16(nb, i, le16(b, i)) =~= put16(b, i, le16(b, i)));
        lemma_put16_same(b, i);
    }
    if fits(b, base, loc, 4) {
        let w = le32(b, i).wrapping_add(v as u32);
        lemma_put32(b, i, w);
        let nb = put32(b, i, w);
        assert(le32(nb, i).wrapping_sub(v as u32) == le32(b, i));
        assert(put32(nb, i, le32(b, i)) =~= put32(b, i, le32(b, i)));
        lemma_put32_same(b, i);
    }
    if fits(b, base, loc, 8) {
        let w = le64(b, i).wrapping_add(v);
        lemma_put64(b, i, w);
        let nb = put64(b, i, w);
        assert(le64(nb, i).wrapping_sub(v) == le64(b, i));
        assert(put64(nb, i, le64(b, i)) =~= put64(b, i, le64(b, i)));
        lemma_put64_same(b, i);
    }
}

} // verus!
