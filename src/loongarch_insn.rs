//! Bit layouts of the LoongArch instruction formats, each a 32-bit word
//! whose fields are packed from the least significant bit up.
use vstd::prelude::*;

verus! {

/// The `len` lowest bits set.
pub open spec fn low_mask(len: u32) -> u32 {
    ((1u32 << len) - 1) as u32
}

/// The `len`-bit field of `w` that starts at bit `lo`.
pub open spec fn field(w: u32, lo: u32, len: u32) -> u32 {
    (w >> lo) & low_mask(len)
}

/// `w` with its `len`-bit field at bit `lo` replaced by the low bits of `v`.
pub open spec fn with_field(w: u32, lo: u32, len: u32, v: u32) -> u32 {
    (w & !(low_mask(len) << lo)) | ((v & low_mask(len)) << lo)
}

/// Writing a field stores the value's low bits there and leaves every field
/// that does not overlap it unchanged.
pub proof fn lemma_with_field(w: u32, lo: u32, len: u32, v: u32, lo2: u32, len2: u32)
    requires
        1 <= len,
        lo + len <= 32,
        1 <= len2,
        lo2 + len2 <= 32,
        lo2 + len2 <= lo || lo + len <= lo2,
    ensures
        field(with_field(w, lo, len, v), lo, len) == v & low_mask(len),
        field(with_field(w, lo, len, v), lo2, len2) == field(w, lo2, len2),
{
    assert(field(with_field(w, lo, len, v), lo, len) == v & low_mask(len)) by (bit_vector)
        requires
            1 <= len,
            lo + len <= 32,
    ;
    assert(field(with_field(w, lo, len, v), lo2, len2) == field(w, lo2, len2)) by (bit_vector)
        requires
            1 <= len,
            lo + len <= 32,
            1 <= len2,
            lo2 + len2 <= 32,
            lo2 + len2 <= lo || lo + len <= lo2,
    ;
}

fn get_field(w: u32, lo: u32, len: u32) -> (r: u32)
    requires
        1 <= len,
        lo + len <= 32,
    ensures
        r == field(w, lo, len),
{
    if len == 32 {
        assert(field(w, lo, len) == w) by (bit_vector)
            requires
                len == 32,
                lo + len <= 32,
        ;
        return w;
    }
    assert(1u32 << len >= 1) by (bit_vector)
        requires
            len < 32,
    ;
    (w >> lo) & ((1u32 << len) - 1)
}

fn set_field(w: u32, lo: u32, len: u32, v: u32) -> (r: u32)
    requires
        1 <= len < 32,
        lo + len <= 32,
    ensures
        r == with_field(w, lo, len, v),
{
    assert(1u32 << len >= 1) by (bit_vector)
        requires
            len < 32,
    ;
    let m = (1u32 << len) - 1;
    (w & !(m << lo)) | ((v & m) << lo)
}

/// LoongArch instruction format: immediate [14:0], opcode [31:15].
#[allow(non_camel_case_types)]
#[derive(Clone, Copy, Debug, PartialEq, Eq, Structural)]
pub struct reg0i15_format(pub u32);

impl reg0i15_format {
    /// The word with every field zero.
    pub fn new() -> (r: Self)
        ensures
            r.0 == 0,
    {
        reg0i15_format(0)
    }

    pub fn from_bits(bits: u32) -> (r: Self)
        ensures
            r.0 == bits,
    {
        reg0i15_format(bits)
    }

    pub fn into_bits(self) -> (r: u32)
        ensures
            r == self.0,
    {
        self.0
    }


    /// The `immediate` field, bits 14:0.
    pub fn immediate(&self) -> (r: u32)
        ensures
            r == field(self.0, 0, 15),
    {
        get_field(self.0, 0, 15)
    }

    /// This word with the `immediate` field set to `v`, which must fit in 15 bits.
    pub fn with_immediate(self, v: u32) -> (r: Self)
        requires
            v < (1u32 << 15u32),
        ensures
            r.0 == with_field(self.0, 0, 15, v),
    {
        reg0i15_format(set_field(self.0, 0, 15, v))
    }


    /// The `opcode` field, bits 31:15.
    pub fn opcode(&self) -> (r: u32)
        ensures
            r == field(self.0, 15, 17),
    {
        get_field(self.0, 15, 17)
    }

    /// This word with the `opcode` field set to `v`, which must fit in 17 bits.
    pub fn with_opcode(self, v: u32) -> (r: Self)
        requires
            v < (1u32 << 17u32),
        ensures
            r.0 == with_field(self.0, 15, 17, v),
    {
        reg0i15_format(set_field(self.0, 15, 17, v))
    }

}

/// LoongArch instruction format: immediate_h [9:0], immediate_l [25:10], opcode [31:26].
#[allow(non_camel_case_types)]
#[derive(Clone, Copy, Debug, PartialEq, Eq, Structural)]
pub struct reg0i26_format(pub u32);

impl reg0i26_format {
    /// The word with every field zero.
    pub fn new() -> (r: Self)
        ensures
            r.0 == 0,
    {
        reg0i26_format(0)
    }

    pub fn from_bits(bits: u32) -> (r: Self)
        ensures
            r.0 == bits,
    {
        reg0i26_format(bits)
    }

    pub fn into_bits(self) -> (r: u32)
        ensures
            r == self.0,
    {
        self.0
    }


    /// The `immediate_h` field, bits 9:0.
    pub fn immediate_h(&self) -> (r: u32)
        ensures
            r == field(self.0, 0, 10),
    {
        get_field(self.0, 0, 10)
    }

    /// This word with the `immediate_h` field set to `v`, which must fit in 10 bits.
    pub fn with_immediate_h(self, v: u32) -> (r: Self)
        requires
            v < (1u32 << 10u32),
        ensures
            r.0 == with_field(self.0, 0, 10, v),
    {
        reg0i26_format(set_field(self.0, 0, 10, v))
    }


    /// The `immediate_l` field, bits 25:10.
    pub fn immediate_l(&self) -> (r: u32)
        ensures
            r == field(self.0, 10, 16),
    {
        get_field(self.0, 10, 16)
    }

    /// This word with the `immediate_l` field set to `v`, which must fit in 16 bits.
    pub fn with_immediate_l(self, v: u32) -> (r: Self)
        requires
            v < (1u32 << 16u32),
        ensures
            r.0 == with_field(self.0, 10, 16, v),
    {
        reg0i26_format(set_field(self.0, 10, 16, v))
    }


    /// The `opcode` field, bits 31:26.
    pub fn opcode(&self) -> (r: u32)
        ensures
            r == field(self.0, 26, 6),
    {
        get_field(self.0, 26, 6)
    }

    /// This word with the `opcode` field set to `v`, which must fit in 6 bits.
    pub fn with_opcode(self, v: u32) -> (r: Self)
        requires
            v < (1u32 << 6u32),
        ensures
            r.0 == with_field(self.0, 26, 6, v),
    {
        reg0i26_format(set_field(self.0, 26, 6, v))
    }

}

/// LoongArch instruction format: rd [4:0], immediate [24:5], opcode [31:25].
#[allow(non_camel_case_types)]
#[derive(Clone, Copy, Debug, PartialEq, Eq, Structural)]
pub struct reg1i20_format(pub u32);

impl reg1i20_format {
    /// The word with every field zero.
    pub fn new() -> (r: Self)
        ensures
            r.0 == 0,
    {
        reg1i20_format(0)
    }

    pub fn from_bits(bits: u32) -> (r: Self)
        ensures
            r.0 == bits,
    {
        reg1i20_format(bits)
    }

    pub fn into_bits(self) -> (r: u32)
        ensures
            r == self.0,
    {
        self.0
    }


    /// The `rd` field, bits 4:0.
    pub fn rd(&self) -> (r: u32)
        ensures
            r == field(self.0, 0, 5),
    {
        get_field(self.0, 0, 5)
    }

    /// This word with the `rd` field set to `v`, which must fit in 5 bits.
    pub fn with_rd(self, v: u32) -> (r: Self)
        requires
            v < (1u32 << 5u32),
        ensures
            r.0 == with_field(self.0, 0, 5, v),
    {
        reg1i20_format(set_field(self.0, 0, 5, v))
    }


    /// The `immediate` field, bits 24:5.
    pub fn immediate(&self) -> (r: u32)
        ensures
            r == field(self.0, 5, 20),
    {
        get_field(self.0, 5, 20)
    }

    /// This word with the `immediate` field set to `v`, which must fit in 20 bits.
    pub fn with_immediate(self, v: u32) -> (r: Self)
        requires
            v < (1u32 << 20u32),
        ensures
            r.0 == with_field(self.0, 5, 20, v),
    {
        reg1i20_format(set_field(self.0, 5, 20, v))
    }


    /// The `opcode` field, bits 31:25.
    pub fn opcode(&self) -> (r: u32)
        ensures
            r == field(self.0, 25, 7),
    {
        get_field(self.0, 25, 7)
    }

    /// This word with the `opcode` field set to `v`, which must fit in 7 bits.
    pub fn with_opcode(self, v: u32) -> (r: Self)
        requires
            v < (1u32 << 7u32),
        ensures
            r.0 == with_field(self.0, 25, 7, v),
    {
        reg1i20_format(set_field(self.0, 25, 7, v))
    }

}

/// LoongArch instruction format: immediate_h [4:0], rj [9:5], immediate_l [25:10], opcode [31:26].
#[allow(non_camel_case_types)]
#[derive(Clone, Copy, Debug, PartialEq, Eq, Structural)]
pub struct reg1i21_format(pub u32);

impl reg1i21_format {
    /// The word with every field zero.
    pub fn new() -> (r: Self)
        ensures
            r.0 == 0,
    {
        reg1i21_format(0)
    }

    pub fn from_bits(bits: u32) -> (r: Self)
        ensures
            r.0 == bits,
    {
        reg1i21_format(bits)
    }

    pub fn into_bits(self) -> (r: u32)
        ensures
            r == self.0,
    {
        self.0
    }


    /// The `immediate_h` field, bits 4:0.
    pub fn immediate_h(&self) -> (r: u32)
        ensures
            r == field(self.0, 0, 5),
    {
        get_field(self.0, 0, 5)
    }

    /// This word with the `immediate_h` field set to `v`, which must fit in 5 bits.
    pub fn with_immediate_h(self, v: u32) -> (r: Self)
        requires
            v < (1u32 << 5u32),
        ensures
            r.0 == with_field(self.0, 0, 5, v),
    {
        reg1i21_format(set_field(self.0, 0, 5, v))
    }


    /// The `rj` field, bits 9:5.
    pub fn rj(&self) -> (r: u32)
        ensures
            r == field(self.0, 5, 5),
    {
        get_field(self.0, 5, 5)
    }

    /// This word with the `rj` field set to `v`, which must fit in 5 bits.
    pub fn with_rj(self, v: u32) -> (r: Self)
        requires
            v < (1u32 << 5u32),
        ensures
            r.0 == with_field(self.0, 5, 5, v),
    {
        reg1i21_format(set_field(self.0, 5, 5, v))
    }


    /// The `immediate_l` field, bits 25:10.
    pub fn immediate_l(&self) -> (r: u32)
        ensures
            r == field(self.0, 10, 16),
    {
        get_field(self.0, 10, 16)
    }

    /// This word with the `immediate_l` field set to `v`, which must fit in 16 bits.
    pub fn with_immediate_l(self, v: u32) -> (r: Self)
        requires
            v < (1u32 << 16u32),
        ensures
            r.0 == with_field(self.0, 10, 16, v),
    {
        reg1i21_format(set_field(self.0, 10, 16, v))
    }


    /// The `opcode` field, bits 31:26.
    pub fn opcode(&self) -> (r: u32)
        ensures
            r == field(self.0, 26, 6),
    {
        get_field(self.0, 26, 6)
    }

    /// This word with the `opcode` field set to `v`, which must fit in 6 bits.
    pub fn with_opcode(self, v: u32) -> (r: Self)
        requires
            v < (1u32 << 6u32),
        ensures
            r.0 == with_field(self.0, 26, 6, v),
    {
        reg1i21_format(set_field(self.0, 26, 6, v))
    }

}

/// LoongArch instruction format: rd [4:0], rj [9:5], opcode [31:10].
#[allow(non_camel_case_types)]
#[derive(Clone, Copy, Debug, PartialEq, Eq, Structural)]
pub struct reg2_format(pub u32);

impl reg2_format {
    /// The word with every field zero.
    pub fn new() -> (r: Self)
        ensures
            r.0 == 0,
    {
        reg2_format(0)
    }

    pub fn from_bits(bits: u32) -> (r: Self)
        ensures
            r.0 == bits,
    {
        reg2_format(bits)
    }

    pub fn into_bits(self) -> (r: u32)
        ensures
            r == self.0,
    {
        self.0
    }


    /// The `rd` field, bits 4:0.
    pub fn rd(&self) -> (r: u32)
        ensures
            r == field(self.0, 0, 5),
    {
        get_field(self.0, 0, 5)
    }

    /// This word with the `rd` field set to `v`, which must fit in 5 bits.
    pub fn with_rd(self, v: u32) -> (r: Self)
        requires
            v < (1u32 << 5u32),
        ensures
            r.0 == with_field(self.0, 0, 5, v),
    {
        reg2_format(set_field(self.0, 0, 5, v))
    }


    /// The `rj` field, bits 9:5.
    pub fn rj(&self) -> (r: u32)
        ensures
            r == field(self.0, 5, 5),
    {
        get_field(self.0, 5, 5)
    }

    /// This word with the `rj` field set to `v`, which must fit in 5 bits.
    pub fn with_rj(self, v: u32) -> (r: Self)
        requires
            v < (1u32 << 5u32),
        ensures
            r.0 == with_field(self.0, 5, 5, v),
    {
        reg2_format(set_field(self.0, 5, 5, v))
    }


    /// The `opcode` field, bits 31:10.
    pub fn opcode(&self) -> (r: u32)
        ensures
            r == field(self.0, 10, 22),
    {
        get_field(self.0, 10, 22)
    }

    /// This word with the `opcode` field set to `v`, which must fit in 22 bits.
    pub fn with_opcode(self, v: u32) -> (r: Self)
        requires
            v < (1u32 << 22u32),
        ensures
            r.0 == with_field(self.0, 10, 22, v),
    {
        reg2_format(set_field(self.0, 10, 22, v))
    }

}

/// LoongArch instruction format: rd [4:0], rj [9:5], immediate [14:10], opcode [31:15].
#[allow(non_camel_case_types)]
#[derive(Clone, Copy, Debug, PartialEq, Eq, Structural)]
pub struct reg2i5_format(pub u32);

impl reg2i5_format {
    /// The word with every field zero.
    pub fn new() -> (r: Self)
        ensures
            r.0 == 0,
    {
        reg2i5_format(0)
    }

    pub fn from_bits(bits: u32) -> (r: Self)
        ensures
            r.0 == bits,
    {
        reg2i5_format(bits)
    }

    pub fn into_bits(self) -> (r: u32)
        ensures
            r == self.0,
    {
        self.0
    }


    /// The `rd` field, bits 4:0.
    pub fn rd(&self) -> (r: u32)
        ensures
            r == field(self.0, 0, 5),
    {
        get_field(self.0, 0, 5)
    }

    /// This word with the `rd` field set to `v`, which must fit in 5 bits.
    pub fn with_rd(self, v: u32) -> (r: Self)
        requires
            v < (1u32 << 5u32),
        ensures
            r.0 == with_field(self.0, 0, 5, v),
    {
        reg2i5_format(set_field(self.0, 0, 5, v))
    }


    /// The `rj` field, bits 9:5.
    pub fn rj(&self) -> (r: u32)
        ensures
            r == field(self.0, 5, 5),
    {
        get_field(self.0, 5, 5)
    }

    /// This word with the `rj` field set to `v`, which must fit in 5 bits.
    pub fn with_rj(self, v: u32) -> (r: Self)
        requires
            v < (1u32 << 5u32),
        ensures
            r.0 == with_field(self.0, 5, 5, v),
    {
        reg2i5_format(set_field(self.0, 5, 5, v))
    }


    /// The `immediate` field, bits 14:10.
    pub fn immediate(&self) -> (r: u32)
        ensures
            r == field(self.0, 10, 5),
    {
        get_field(self.0, 10, 5)
    }

    /// This word with the `immediate` field set to `v`, which must fit in 5 bits.
    pub fn with_immediate(self, v: u32) -> (r: Self)
        requires
            v < (1u32 << 5u32),
        ensures
            r.0 == with_field(self.0, 10, 5, v),
    {
        reg2i5_format(set_field(self.0, 10, 5, v))
    }


    /// The `opcode` field, bits 31:15.
    pub fn opcode(&self) -> (r: u32)
        ensures
            r == field(self.0, 15, 17),
    {
        get_field(self.0, 15, 17)
    }

    /// This word with the `opcode` field set to `v`, which must fit in 17 bits.
    pub fn with_opcode(self, v: u32) -> (r: Self)
        requires
            v < (1u32 << 17u32),
        ensures
            r.0 == with_field(self.0, 15, 17, v),
    {
        reg2i5_format(set_field(self.0, 15, 17, v))
    }

}

/// LoongArch instruction format: rd [4:0], rj [9:5], immediate [15:10], opcode [31:16].
#[allow(non_camel_case_types)]
#[derive(Clone, Copy, Debug, PartialEq, Eq, Structural)]
pub struct reg2i6_format(pub u32);

impl reg2i6_format {
    /// The word with every field zero.
    pub fn new() -> (r: Self)
        ensures
            r.0 == 0,
    {
        reg2i6_format(0)
    }

    pub fn from_bits(bits: u32) -> (r: Self)
        ensures
            r.0 == bits,
    {
        reg2i6_format(bits)
    }

    pub fn into_bits(self) -> (r: u32)
        ensures
            r == self.0,
    {
        self.0
    }


    /// The `rd` field, bits 4:0.
    pub fn rd(&self) -> (r: u32)
        ensures
            r == field(self.0, 0, 5),
    {
        get_field(self.0, 0, 5)
    }

    /// This word with the `rd` field set to `v`, which must fit in 5 bits.
    pub fn with_rd(self, v: u32) -> (r: Self)
        requires
            v < (1u32 << 5u32),
        ensures
            r.0 == with_field(self.0, 0, 5, v),
    {
        reg2i6_format(set_field(self.0, 0, 5, v))
    }


    /// The `rj` field, bits 9:5.
    pub fn rj(&self) -> (r: u32)
        ensures
            r == field(self.0, 5, 5),
    {
        get_field(self.0, 5, 5)
    }

    /// This word with the `rj` field set to `v`, which must fit in 5 bits.
    pub fn with_rj(self, v: u32) -> (r: Self)
        requires
            v < (1u32 << 5u32),
        ensures
            r.0 == with_field(self.0, 5, 5, v),
    {
        reg2i6_format(set_field(self.0, 5, 5, v))
    }


    /// The `immediate` field, bits 15:10.
    pub fn immediate(&self) -> (r: u32)
        ensures
            r == field(self.0, 10, 6),
    {
        get_field(self.0, 10, 6)
    }

    /// This word with the `immediate` field set to `v`, which must fit in 6 bits.
    pub fn with_immediate(self, v: u32) -> (r: Self)
        requires
            v < (1u32 << 6u32),
        ensures
            r.0 == with_field(self.0, 10, 6, v),
    {
        reg2i6_format(set_field(self.0, 10, 6, v))
    }


    /// The `opcode` field, bits 31:16.
    pub fn opcode(&self) -> (r: u32)
        ensures
            r == field(self.0, 16, 16),
    {
        get_field(self.0, 16, 16)
    }

    /// This word with the `opcode` field set to `v`, which must fit in 16 bits.
    pub fn with_opcode(self, v: u32) -> (r: Self)
        requires
            v < (1u32 << 16u32),
        ensures
            r.0 == with_field(self.0, 16, 16, v),
    {
        reg2i6_format(set_field(self.0, 16, 16, v))
    }

}

/// LoongArch instruction format: rd [4:0], rj [9:5], immediate [21:10], opcode [31:22].
#[allow(non_camel_case_types)]
#[derive(Clone, Copy, Debug, PartialEq, Eq, Structural)]
pub struct reg2i12_format(pub u32);

impl reg2i12_format {
    /// The word with every field zero.
    pub fn new() -> (r: Self)
        ensures
            r.0 == 0,
    {
        reg2i12_format(0)
    }

    pub fn from_bits(bits: u32) -> (r: Self)
        ensures
            r.0 == bits,
    {
        reg2i12_format(bits)
    }

    pub fn into_bits(self) -> (r: u32)
        ensures
            r == self.0,
    {
        self.0
    }


    /// The `rd` field, bits 4:0.
    pub fn rd(&self) -> (r: u32)
        ensures
            r == field(self.0, 0, 5),
    {
        get_field(self.0, 0, 5)
    }

    /// This word with the `rd` field set to `v`, which must fit in 5 bits.
    pub fn with_rd(self, v: u32) -> (r: Self)
        requires
            v < (1u32 << 5u32),
        ensures
            r.0 == with_field(self.0, 0, 5, v),
    {
        reg2i12_format(set_field(self.0, 0, 5, v))
    }


    /// The `rj` field, bits 9:5.
    pub fn rj(&self) -> (r: u32)
        ensures
            r == field(self.0, 5, 5),
    {
        get_field(self.0, 5, 5)
    }

    /// This word with the `rj` field set to `v`, which must fit in 5 bits.
    pub fn with_rj(self, v: u32) -> (r: Self)
        requires
            v < (1u32 << 5u32),
        ensures
            r.0 == with_field(self.0, 5, 5, v),
    {
        reg2i12_format(set_field(self.0, 5, 5, v))
    }


    /// The `immediate` field, bits 21:10.
    pub fn immediate(&self) -> (r: u32)
        ensures
            r == field(self.0, 10, 12),
    {
        get_field(self.0, 10, 12)
    }

    /// This word with the `immediate` field set to `v`, which must fit in 12 bits.
    pub fn with_immediate(self, v: u32) -> (r: Self)
        requires
            v < (1u32 << 12u32),
        ensures
            r.0 == with_field(self.0, 10, 12, v),
    {
        reg2i12_format(set_field(self.0, 10, 12, v))
    }


    /// The `opcode` field, bits 31:22.
    pub fn opcode(&self) -> (r: u32)
        ensures
            r == field(self.0, 22, 10),
    {
        get_field(self.0, 22, 10)
    }

    /// This word with the `opcode` field set to `v`, which must fit in 10 bits.
    pub fn with_opcode(self, v: u32) -> (r: Self)
        requires
            v < (1u32 << 10u32),
        ensures
            r.0 == with_field(self.0, 22, 10, v),
    {
        reg2i12_format(set_field(self.0, 22, 10, v))
    }

}

/// LoongArch instruction format: rd [4:0], rj [9:5], immediate [23:10], opcode [31:24].
#[allow(non_camel_case_types)]
#[derive(Clone, Copy, Debug, PartialEq, Eq, Structural)]
pub struct reg2i14_format(pub u32);

impl reg2i14_format {
    /// The word with every field zero.
    pub fn new() -> (r: Self)
        ensures
            r.0 == 0,
    {
        reg2i14_format(0)
    }

    pub fn from_bits(bits: u32) -> (r: Self)
        ensures
            r.0 == bits,
    {
        reg2i14_format(bits)
    }

    pub fn into_bits(self) -> (r: u32)
        ensures
            r == self.0,
    {
        self.0
    }


    /// The `rd` field, bits 4:0.
    pub fn rd(&self) -> (r: u32)
        ensures
            r == field(self.0, 0, 5),
    {
        get_field(self.0, 0, 5)
    }

    /// This word with the `rd` field set to `v`, which must fit in 5 bits.
    pub fn with_rd(self, v: u32) -> (r: Self)
        requires
            v < (1u32 << 5u32),
        ensures
            r.0 == with_field(self.0, 0, 5, v),
    {
        reg2i14_format(set_field(self.0, 0, 5, v))
    }


    /// The `rj` field, bits 9:5.
    pub fn rj(&self) -> (r: u32)
        ensures
            r == field(self.0, 5, 5),
    {
        get_field(self.0, 5, 5)
    }

    /// This word with the `rj` field set to `v`, which must fit in 5 bits.
    pub fn with_rj(self, v: u32) -> (r: Self)
        requires
            v < (1u32 << 5u32),
        ensures
            r.0 == with_field(self.0, 5, 5, v),
    {
        reg2i14_format(set_field(self.0, 5, 5, v))
    }


    /// The `immediate` field, bits 23:10.
    pub fn immediate(&self) -> (r: u32)
        ensures
            r == field(self.0, 10, 14),
    {
        get_field(self.0, 10, 14)
    }

    /// This word with the `immediate` field set to `v`, which must fit in 14 bits.
    pub fn with_immediate(self, v: u32) -> (r: Self)
        requires
            v < (1u32 << 14u32),
        ensures
            r.0 == with_field(self.0, 10, 14, v),
    {
        reg2i14_format(set_field(self.0, 10, 14, v))
    }


    /// The `opcode` field, bits 31:24.
    pub fn opcode(&self) -> (r: u32)
        ensures
            r == field(self.0, 24, 8),
    {
        get_field(self.0, 24, 8)
    }

    /// This word with the `opcode` field set to `v`, which must fit in 8 bits.
    pub fn with_opcode(self, v: u32) -> (r: Self)
        requires
            v < (1u32 << 8u32),
        ensures
            r.0 == with_field(self.0, 24, 8, v),
    {
        reg2i14_format(set_field(self.0, 24, 8, v))
    }

}

/// LoongArch instruction format: rd [4:0], rj [9:5], immediate [25:10], opcode [31:26].
#[allow(non_camel_case_types)]
#[derive(Clone, Copy, Debug, PartialEq, Eq, Structural)]
pub struct reg2i16_format(pub u32);

impl reg2i16_format {
    /// The word with every field zero.
    pub fn new() -> (r: Self)
        ensures
            r.0 == 0,
    {
        reg2i16_format(0)
    }

    pub fn from_bits(bits: u32) -> (r: Self)
        ensures
            r.0 == bits,
    {
        reg2i16_format(bits)
    }

    pub fn into_bits(self) -> (r: u32)
        ensures
            r == self.0,
    {
        self.0
    }


    /// The `rd` field, bits 4:0.
    pub fn rd(&self) -> (r: u32)
        ensures
            r == field(self.0, 0, 5),
    {
        get_field(self.0, 0, 5)
    }

    /// This word with the `rd` field set to `v`, which must fit in 5 bits.
    pub fn with_rd(self, v: u32) -> (r: Self)
        requires
            v < (1u32 << 5u32),
        ensures
            r.0 == with_field(self.0, 0, 5, v),
    {
        reg2i16_format(set_field(self.0, 0, 5, v))
    }


    /// The `rj` field, bits 9:5.
    pub fn rj(&self) -> (r: u32)
        ensures
            r == field(self.0, 5, 5),
    {
        get_field(self.0, 5, 5)
    }

    /// This word with the `rj` field set to `v`, which must fit in 5 bits.
    pub fn with_rj(self, v: u32) -> (r: Self)
        requires
            v < (1u32 << 5u32),
        ensures
            r.0 == with_field(self.0, 5, 5, v),
    {
        reg2i16_format(set_field(self.0, 5, 5, v))
    }


    /// The `immediate` field, bits 25:10.
    pub fn immediate(&self) -> (r: u32)
        ensures
            r == field(self.0, 10, 16),
    {
        get_field(self.0, 10, 16)
    }

    /// This word with the `immediate` field set to `v`, which must fit in 16 bits.
    pub fn with_immediate(self, v: u32) -> (r: Self)
        requires
            v < (1u32 << 16u32),
        ensures
            r.0 == with_field(self.0, 10, 16, v),
    {
        reg2i16_format(set_field(self.0, 10, 16, v))
    }


    /// The `opcode` field, bits 31:26.
    pub fn opcode(&self) -> (r: u32)
        ensures
            r == field(self.0, 26, 6),
    {
        get_field(self.0, 26, 6)
    }

    /// This word with the `opcode` field set to `v`, which must fit in 6 bits.
    pub fn with_opcode(self, v: u32) -> (r: Self)
        requires
            v < (1u32 << 6u32),
        ensures
            r.0 == with_field(self.0, 26, 6, v),
    {
        reg2i16_format(set_field(self.0, 26, 6, v))
    }

}

/// LoongArch instruction format: rd [4:0], rj [9:5], lsbd [15:10], msbd [21:16], opcode [31:22].
#[allow(non_camel_case_types)]
#[derive(Clone, Copy, Debug, PartialEq, Eq, Structural)]
pub struct reg2bstrd_format(pub u32);

impl reg2bstrd_format {
    /// The word with every field zero.
    pub fn new() -> (r: Self)
        ensures
            r.0 == 0,
    {
        reg2bstrd_format(0)
    }

    pub fn from_bits(bits: u32) -> (r: Self)
        ensures
            r.0 == bits,
    {
        reg2bstrd_format(bits)
    }

    pub fn into_bits(self) -> (r: u32)
        ensures
            r == self.0,
    {
        self.0
    }


    /// The `rd` field, bits 4:0.
    pub fn rd(&self) -> (r: u32)
        ensures
            r == field(self.0, 0, 5),
    {
        get_field(self.0, 0, 5)
    }

    /// This word with the `rd` field set to `v`, which must fit in 5 bits.
    pub fn with_rd(self, v: u32) -> (r: Self)
        requires
            v < (1u32 << 5u32),
        ensures
            r.0 == with_field(self.0, 0, 5, v),
    {
        reg2bstrd_format(set_field(self.0, 0, 5, v))
    }


    /// The `rj` field, bits 9:5.
    pub fn rj(&self) -> (r: u32)
        ensures
            r == field(self.0, 5, 5),
    {
        get_field(self.0, 5, 5)
    }

    /// This word with the `rj` field set to `v`, which must fit in 5 bits.
    pub fn with_rj(self, v: u32) -> (r: Self)
        requires
            v < (1u32 << 5u32),
        ensures
            r.0 == with_field(self.0, 5, 5, v),
    {
        reg2bstrd_format(set_field(self.0, 5, 5, v))
    }


    /// The `opcode` field, bits 31:22.
    pub fn opcode(&self) -> (r: u32)
        ensures
            r == field(self.0, 22, 10),
    {
        get_field(self.0, 22, 10)
    }

    /// This word with the `opcode` field set to `v`, which must fit in 10 bits.
    pub fn with_opcode(self, v: u32) -> (r: Self)
        requires
            v < (1u32 << 10u32),
        ensures
            r.0 == with_field(self.0, 22, 10, v),
    {
        reg2bstrd_format(set_field(self.0, 22, 10, v))
    }

}

/// LoongArch instruction format: rd [4:0], rj [9:5], rk [14:10], opcode [31:15].
#[allow(non_camel_case_types)]
#[derive(Clone, Copy, Debug, PartialEq, Eq, Structural)]
pub struct reg3_format(pub u32);

impl reg3_format {
    /// The word with every field zero.
    pub fn new() -> (r: Self)
        ensures
            r.0 == 0,
    {
        reg3_format(0)
    }

    pub fn from_bits(bits: u32) -> (r: Self)
        ensures
            r.0 == bits,
    {
        reg3_format(bits)
    }

    pub fn into_bits(self) -> (r: u32)
        ensures
            r == self.0,
    {
        self.0
    }


    /// The `rd` field, bits 4:0.
    pub fn rd(&self) -> (r: u32)
        ensures
            r == field(self.0, 0, 5),
    {
        get_field(self.0, 0, 5)
    }

    /// This word with the `rd` field set to `v`, which must fit in 5 bits.
    pub fn with_rd(self, v: u32) -> (r: Self)
        requires
            v < (1u32 << 5u32),
        ensures
            r.0 == with_field(self.0, 0, 5, v),
    {
        reg3_format(set_field(self.0, 0, 5, v))
    }


    /// The `rj` field, bits 9:5.
    pub fn rj(&self) -> (r: u32)
        ensures
            r == field(self.0, 5, 5),
    {
        get_field(self.0, 5, 5)
    }

    /// This word with the `rj` field set to `v`, which must fit in 5 bits.
    pub fn with_rj(self, v: u32) -> (r: Self)
        requires
            v < (1u32 << 5u32),
        ensures
            r.0 == with_field(self.0, 5, 5, v),
    {
        reg3_format(set_field(self.0, 5, 5, v))
    }


    /// The `opcode` field, bits 31:15.
    pub fn opcode(&self) -> (r: u32)
        ensures
            r == field(self.0, 15, 17),
    {
        get_field(self.0, 15, 17)
    }

    /// This word with the `opcode` field set to `v`, which must fit in 17 bits.
    pub fn with_opcode(self, v: u32) -> (r: Self)
        requires
            v < (1u32 << 17u32),
        ensures
            r.0 == with_field(self.0, 15, 17, v),
    {
        reg3_format(set_field(self.0, 15, 17, v))
    }

}

/// LoongArch instruction format: rd [4:0], rj [9:5], rk [14:10], immediate [16:15], opcode [31:17].
#[allow(non_camel_case_types)]
#[derive(Clone, Copy, Debug, PartialEq, Eq, Structural)]
pub struct reg3sa2_format(pub u32);

impl reg3sa2_format {
    /// The word with every field zero.
    pub fn new() -> (r: Self)
        ensures
            r.0 == 0,
    {
        reg3sa2_format(0)
    }

    pub fn from_bits(bits: u32) -> (r: Self)
        ensures
            r.0 == bits,
    {
        reg3sa2_format(bits)
    }

    pub fn into_bits(self) -> (r: u32)
        ensures
            r == self.0,
    {
        self.0
    }


    /// The `rd` field, bits 4:0.
    pub fn rd(&self) -> (r: u32)
        ensures
            r == field(self.0, 0, 5),
    {
        get_field(self.0, 0, 5)
    }

    /// This word with the `rd` field set to `v`, which must fit in 5 bits.
    pub fn with_rd(self, v: u32) -> (r: Self)
        requires
            v < (1u32 << 5u32),
        ensures
            r.0 == with_field(self.0, 0, 5, v),
    {
        reg3sa2_format(set_field(self.0, 0, 5, v))
    }


    /// The `rj` field, bits 9:5.
    pub fn rj(&self) -> (r: u32)
        ensures
            r == field(self.0, 5, 5),
    {
        get_field(self.0, 5, 5)
    }

    /// This word with the `rj` field set to `v`, which must fit in 5 bits.
    pub fn with_rj(self, v: u32) -> (r: Self)
        requires
            v < (1u32 << 5u32),
        ensures
            r.0 == with_field(self.0, 5, 5, v),
    {
        reg3sa2_format(set_field(self.0, 5, 5, v))
    }


    /// The `immediate` field, bits 16:15.
    pub fn immediate(&self) -> (r: u32)
        ensures
            r == field(self.0, 15, 2),
    {
        get_field(self.0, 15, 2)
    }

    /// This word with the `immediate` field set to `v`, which must fit in 2 bits.
    pub fn with_immediate(self, v: u32) -> (r: Self)
        requires
            v < (1u32 << 2u32),
        ensures
            r.0 == with_field(self.0, 15, 2, v),
    {
        reg3sa2_format(set_field(self.0, 15, 2, v))
    }


    /// The `opcode` field, bits 31:17.
    pub fn opcode(&self) -> (r: u32)
        ensures
            r == field(self.0, 17, 15),
    {
        get_field(self.0, 17, 15)
    }

    /// This word with the `opcode` field set to `v`, which must fit in 15 bits.
    pub fn with_opcode(self, v: u32) -> (r: Self)
        requires
            v < (1u32 << 15u32),
        ensures
            r.0 == with_field(self.0, 17, 15, v),
    {
        reg3sa2_format(set_field(self.0, 17, 15, v))
    }

}

} // verus!
