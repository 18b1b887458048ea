use vstd::prelude::*;

verus! {

/// Little-endian value of the byte at `i`.
pub open spec fn le8(b: Seq<u8>, i: int) -> u8 {
    b[i]
}

/// Little-endian value of the two bytes starting at `i`.
pub open spec fn le16(b: Seq<u8>, i: int) -> u16 {
    (b[i] as u16) | ((b[i + 1] as u16) << 8u16)
}

/// Little-endian value of the four bytes starting at `i`.
pub open spec fn le32(b: Seq<u8>, i: int) -> u32 {
    (b[i] as u32) | ((b[i + 1] as u32) << 8u32) | ((b[i + 2] as u32) << 16u32) | ((b[i + 3] as u32)
        << 24u32)
}

/// Little-endian value of the eight bytes starting at `i`.
pub open spec fn le64(b: Seq<u8>, i: int) -> u64 {
    (le32(b, i) as u64) | ((le32(b, i + 4) as u64) << 32u64)
}

/// `b` with the byte at `i` replaced by `v`.
pub open spec fn put8(b: Seq<u8>, i: int, v: u8) -> Seq<u8> {
    b.update(i, v)
}

/// `b` with the two bytes at `i` replaced by the little-endian encoding of `v`.
pub open spec fn put16(b: Seq<u8>, i: int, v: u16) -> Seq<u8> {
    b.update(i, v as u8).update(i + 1, (v >> 8u16) as u8)
}

/// `b` with the four bytes at `i` replaced by the little-endian encoding of `v`.
pub open spec fn put32(b: Seq<u8>, i: int, v: u32) -> Seq<u8> {
    b.update(i, v as u8).update(i + 1, (v >> 8u32) as u8).update(i + 2, (v >> 16u32) as u8).update(
        i + 3,
        (v >> 24u32) as u8,
    )
}

/// `b` with the eight bytes at `i` replaced by the little-endian encoding of `v`.
pub open spec fn put64(b: Seq<u8>, i: int, v: u64) -> Seq<u8> {
    put32(put32(b, i, v as u32), i + 4, (v >> 32u64) as u32)
}

/// Reading back a 16-bit word yields what was written, and no other byte changes.
pub proof fn lemma_put16(b: Seq<u8>, i: int, v: u16)
    requires
        0 <= i && i + 2 <= b.len(),
    ensures
        put16(b, i, v).len() == b.len(),
        le16(put16(b, i, v), i) == v,
        forall|k: int| 0 <= k < b.len() && !(i <= k < i + 2) ==> put16(b, i, v)[k] == b[k],
{
    let b0 = v as u8;
    let b1 = (v >> 8u16) as u8;
    assert((b0 as u16) | ((b1 as u16) << 8u16) == v) by (bit_vector)
        requires
            b0 == v as u8,
            b1 == (v >> 8u16) as u8,
    ;
}

/// Reading back a 32-bit word yields what was written, and no other byte changes.
pub proof fn lemma_put32(b: Seq<u8>, i: int, v: u32)
    requires
        0 <= i && i + 4 <= b.len(),
    ensures
        put32(b, i, v).len() == b.len(),
        le32(put32(b, i, v), i) == v,
        forall|k: int| 0 <= k < b.len() && !(i <= k < i + 4) ==> put32(b, i, v)[k] == b[k],
{
    let b0 = v as u8;
    let b1 = (v >> 8u32) as u8;
    let b2 = (v >> 16u32) as u8;
    let b3 = (v >> 24u32) as u8;
    assert((b0 as u32) | ((b1 as u32) << 8u32) | ((b2 as u32) << 16u32) | ((b3 as u32) << 24u32)
        == v) by (bit_vector)
        requires
            b0 == v as u8,
            b1 == (v >> 8u32) as u8,
            b2 == (v >> 16u32) as u8,
            b3 == (v >> 24u32) as u8,
    ;
}

/// Reading back a 64-bit word yields what was written, and no other byte changes.
pub proof fn lemma_put64(b: Seq<u8>, i: int, v: u64)
    requires
        0 <= i && i + 8 <= b.len(),
    ensures
        put64(b, i, v).len() == b.len(),
        le64(put64(b, i, v), i) == v,
        forall|k: int| 0 <= k < b.len() && !(i <= k < i + 8) ==> put64(b, i, v)[k] == b[k],
{
    let lo = v as u32;
    let hi = (v >> 32u64) as u32;
    lemma_put32(b, i, lo);
    let b1 = put32(b, i, lo);
    lemma_put32(b1, i + 4, hi);
    let b2 = put32(b1, i + 4, hi);
    assert(le32(b2, i) == le32(b1, i));
    assert((lo as u64) | ((hi as u64) << 32u64) == v) by (bit_vector)
        requires
            lo == v as u32,
            hi == (v >> 32u64) as u32,
    ;
}

/// Writing back the 16-bit word just read leaves the bytes as they were.
pub proof fn lemma_put16_same(b: Seq<u8>, i: int)
    requires
        0 <= i && i + 2 <= b.len(),
    ensures
        put16(b, i, le16(b, i)) == b,
{
    let b0 = b[i];
    let b1 = b[i + 1];
    let w = le16(b, i);
    assert(w as u8 == b0 && (w >> 8u16) as u8 == b1) by (bit_vector)
        requires
            w == (b0 as u16) | ((b1 as u16) << 8u16),
    ;
    assert(put16(b, i, w) =~= b);
}

/// Writing back the 32-bit word just read leaves the bytes as they were.
pub proof fn lemma_put32_same(b: Seq<u8>, i: int)
    requires
        0 <= i && i + 4 <= b.len(),
    ensures
        put32(b, i, le32(b, i)) == b,
{
    let b0 = b[i];
    let b1 = b[i + 1];
    let b2 = b[i + 2];
    let b3 = b[i + 3];
    let w = le32(b, i);
    assert(w as u8 == b0 && (w >> 8u32) as u8 == b1 && (w >> 16u32) as u8 == b2 && (w >> 24u32)
        as u8 == b3) by (bit_vector)
        requires
            w == (b0 as u32) | ((b1 as u32) << 8u32) | ((b2 as u32) << 16u32) | ((b3 as u32)
                << 24u32),
    ;
    assert(put32(b, i, w) =~= b);
}

/// Writing back the 64-bit word just read leaves the bytes as they were.
pub proof fn lemma_put64_same(b: Seq<u8>, i: int)
    requires
        0 <= i && i + 8 <= b.len(),
    ensures
        put64(b, i, le64(b, i)) == b,
{
    let lo = le32(b, i);
    let hi = le32(b, i + 4);
    let w = le64(b, i);
    assert(w as u32 == lo && (w >> 32u64) as u32 == hi) by (bit_vector)
        requires
            w == (lo as u64) | ((hi as u64) << 32u64),
    ;
    lemma_put32_same(b, i);
    lemma_put32_same(b, i + 4);
}

/// The little-endian 64-bit value stored at `b[i..i + 8]`.
pub fn load_u64(b: &[u8], i: usize) -> (r: u64)
    requires
        i + 8 <= b@.len(),
    ensures
        r == le64(b@, i as int),
{
    let lo = (b[i] as u32) | ((b[i + 1] as u32) << 8u32) | ((b[i + 2] as u32) << 16u32) | ((b[i
        + 3] as u32) << 24u32);
    let hi = (b[i + 4] as u32) | ((b[i + 5] as u32) << 8u32) | ((b[i + 6] as u32) << 16u32) | ((b[i
        + 7] as u32) << 24u32);
    (lo as u64) | ((hi as u64) << 32u64)
}

/// A region of module memory, starting at virtual address `base`, into which
/// the sections of a module have been copied and which may be patched.
pub struct ModuleMemory {
    pub base: u64,
    pub bytes: Vec<u8>,
}

impl ModuleMemory {
    /// The `width` bytes at address `addr` lie inside the region, below the
    /// top of the address space.
    pub open spec fn holds(&self, addr: u64, width: int) -> bool {
        self.base <= addr && addr - self.base + width <= self.bytes@.len() && addr + width
            <= u64::MAX + 1
    }

    /// Index of address `addr` in the region's bytes.
    pub open spec fn index_of(&self, addr: u64) -> int {
        addr - self.base
    }

    pub fn new(base: u64, bytes: Vec<u8>) -> (r: ModuleMemory)
        ensures
            r.base == base,
            r.bytes@ == bytes@,
    {
        ModuleMemory { base, bytes }
    }

    /// Whether the `width` bytes at `addr` lie inside the region.
    pub fn contains(&self, addr: u64, width: u64) -> (r: bool)
        ensures
            r == self.holds(addr, width as int),
    {
        if addr < self.base {
            return false;
        }
        let idx = addr - self.base;
        let len = self.bytes.len() as u64;
        idx <= len && width <= len - idx && (width == 0 || addr <= u64::MAX - (width - 1))
    }
}

/// A cursor on one address of module memory.
#[derive(Clone, Copy)]
pub struct Ptr(pub u64);

impl Ptr {
    /// Position of the cursor in the region's bytes.
    fn index(&self, mem: &ModuleMemory, width: Ghost<int>) -> (r: usize)
        requires
            mem.holds(self.0, width@),
            width@ >= 1,
        ensures
            r == mem.index_of(self.0),
            r + width@ <= mem.bytes@.len() <= usize::MAX,
    {
        let idx = self.0 - mem.base;
        let len = mem.bytes.len() as u64;
        assert(idx < len);
        idx as usize
    }

    /// The cursor `offset` bytes further on.
    pub fn add(&self, offset: usize) -> (r: Ptr)
        requires
            self.0 + offset <= u64::MAX,
        ensures
            r.0 == self.0 + offset,
    {
        Ptr(self.0 + offset as u64)
    }

    pub fn read_u8(&self, mem: &ModuleMemory) -> (r: u8)
        requires
            mem.holds(self.0, 1),
        ensures
            r == le8(mem.bytes@, mem.index_of(self.0)),
    {
        let i = self.index(mem, Ghost(1));
        mem.bytes[i]
    }

    pub fn read_u16(&self, mem: &ModuleMemory) -> (r: u16)
        requires
            mem.holds(self.0, 2),
        ensures
            r == le16(mem.bytes@, mem.index_of(self.0)),
    {
        let i = self.index(mem, Ghost(2));
        (mem.bytes[i] as u16) | ((mem.bytes[i + 1] as u16) << 8u16)
    }

    pub fn read_u32(&self, mem: &ModuleMemory) -> (r: u32)
        requires
            mem.holds(self.0, 4),
        ensures
            r == le32(mem.bytes@, mem.index_of(self.0)),
    {
        let i = self.index(mem, Ghost(4));
        (mem.bytes[i] as u32) | ((mem.bytes[i + 1] as u32) << 8u32) | ((mem.bytes[i + 2] as u32)
            << 16u32) | ((mem.bytes[i + 3] as u32) << 24u32)
    }

    pub fn read_u64(&self, mem: &ModuleMemory) -> (r: u64)
        requires
            mem.holds(self.0, 8),
        ensures
            r == le64(mem.bytes@, mem.index_of(self.0)),
    {
        let i = self.index(mem, Ghost(8));
        let lo = (mem.bytes[i] as u32) | ((mem.bytes[i + 1] as u32) << 8u32) | ((mem.bytes[i + 2] as u32)
            << 16u32) | ((mem.bytes[i + 3] as u32) << 24u32);
        let hi = (mem.bytes[i + 4] as u32) | ((mem.bytes[i + 5] as u32) << 8u32) | ((mem.bytes[i + 6] as u32)
            << 16u32) | ((mem.bytes[i + 7] as u32) << 24u32);
        (lo as u64) | ((hi as u64) << 32u64)
    }

    pub fn write_u8(&self, mem: &mut ModuleMemory, v: u8)
        requires
            old(mem).holds(self.0, 1),
        ensures
            final(mem).base == old(mem).base,
            final(mem).bytes@ == put8(old(mem).bytes@, old(mem).index_of(self.0), v),
    {
        let i = self.index(mem, Ghost(1));
        mem.bytes.set(i, v);
    }

    pub fn write_u16(&self, mem: &mut ModuleMemory, v: u16)
        requires
            old(mem).holds(self.0, 2),
        ensures
            final(mem).base == old(mem).base,
            final(mem).bytes@ == put16(old(mem).bytes@, old(mem).index_of(self.0), v),
    {
        let i = self.index(mem, Ghost(2));
        mem.bytes.set(i, v as u8);
        mem.bytes.set(i + 1, (v >> 8u16) as u8);
    }

    pub fn write_u32(&self, mem: &mut ModuleMemory, v: u32)
        requires
            old(mem).holds(self.0, 4),
        ensures
            final(mem).base == old(mem).base,
            final(mem).bytes@ == put32(old(mem).bytes@, old(mem).index_of(self.0), v),
    {
        let i = self.index(mem, Ghost(4));
        mem.bytes.set(i, v as u8);
        mem.bytes.set(i + 1, (v >> 8u32) as u8);
        mem.bytes.set(i + 2, (v >> 16u32) as u8);
        mem.bytes.set(i + 3, (v >> 24u32) as u8);
    }

    pub fn write_u64(&self, mem: &mut ModuleMemory, v: u64)
        requires
            old(mem).holds(self.0, 8),
        ensures
            final(mem).base == old(mem).base,
            final(mem).bytes@ == put64(old(mem).bytes@, old(mem).index_of(self.0), v),
    {
        let i = self.index(mem, Ghost(8));
        let lo = v as u32;
        let hi = (v >> 32u64) as u32;
        mem.bytes.set(i, lo as u8);
        mem.bytes.set(i + 1, (lo >> 8u32) as u8);
        mem.bytes.set(i + 2, (lo >> 16u32) as u8);
        mem.bytes.set(i + 3, (lo >> 24u32) as u8);
        mem.bytes.set(i + 4, hi as u8);
        mem.bytes.set(i + 5, (hi >> 8u32) as u8);
        mem.bytes.set(i + 6, (hi >> 16u32) as u8);
        mem.bytes.set(i + 7, (hi >> 24u32) as u8);
    }
}

} // verus!
