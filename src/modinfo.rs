//! The metadata record that a module places in its `.modinfo` section.
use vstd::prelude::*;
use vstd::string::StringSliceAdditionalSpecFns;
use vstd::utf8::{decode_utf8, valid_utf8};

verus! {

/// "MODU"
pub const MODULE_MAGIC: u32 = 0x4D4F4455;

/// Metadata a module exports to its host: a magic number, its name and
/// version as NUL-padded UTF-8, and its init and exit entry points. A module
/// fills `I` with `fn() -> i32` and `E` with `fn()`; an init function that
/// returns non-zero reports a failed load.
#[derive(Clone, Copy)]
pub struct ModuleInfo<I, E> {
    pub magic: u32,
    pub name: [u8; 64],
    pub version: [u8; 32],
    pub init_fn: Option<I>,
    pub exit_fn: Option<E>,
}

impl<I, E> Default for ModuleInfo<I, E> {
    /// An empty record: no magic, empty name and version, no entry points.
    fn default() -> (r: Self)
        ensures
            r.magic == 0,
            r.name@ == Seq::new(64, |i: int| 0u8),
            r.version@ == Seq::new(32, |i: int| 0u8),
            r.init_fn is None,
            r.exit_fn is None,
    {
        let r = ModuleInfo { magic: 0, name: [0u8; 64], version: [0u8; 32], init_fn: None, exit_fn: None };
        assert(r.name@ =~= Seq::new(64, |i: int| 0u8));
        assert(r.version@ =~= Seq::new(32, |i: int| 0u8));
        r
    }
}

/// Index of the first NUL byte of `b` at or after `i`, or `b.len()` if there is none.
pub open spec fn nul_at_or_after(b: Seq<u8>, i: int) -> int
    decreases b.len() - i,
{
    if i < 0 || i >= b.len() {
        b.len() as int
    } else if b[i] == 0 {
        i
    } else {
        nul_at_or_after(b, i + 1)
    }
}

/// The text of a NUL-padded field: the bytes before the first NUL, decoded as
/// UTF-8, or the words "Invalid UTF-8" where they are not valid UTF-8.
pub open spec fn field_text(b: Seq<u8>) -> Seq<char> {
    let n = nul_at_or_after(b, 0);
    if valid_utf8(b.subrange(0, n)) {
        decode_utf8(b.subrange(0, n))
    } else {
        "Invalid UTF-8"@
    }
}

proof fn lemma_nul_in_bounds(b: Seq<u8>, i: int)
    requires
        0 <= i <= b.len(),
    ensures
        i <= nul_at_or_after(b, i) <= b.len(),
    decreases b.len() - i,
{
    if i < b.len() && b[i] != 0 {
        lemma_nul_in_bounds(b, i + 1);
    }
}

/// Relies on `core::str::from_utf8`: it succeeds exactly on valid UTF-8 and
/// then holds the decoded characters.
#[verifier::external_body]
fn utf8_text(b: &[u8]) -> (r: Option<&str>)
    ensures
        r is Some <==> valid_utf8(b@),
        r matches Some(s) ==> s@ == decode_utf8(b@),
{
    core::str::from_utf8(b).ok()
}

/// Length of the text before the first NUL byte of `b`.
fn text_len(b: &[u8]) -> (r: usize)
    ensures
        r == nul_at_or_after(b@, 0),
{
    let mut i: usize = 0;
    while i < b.len()
        invariant
            i <= b@.len(),
            nul_at_or_after(b@, 0) == nul_at_or_after(b@, i as int),
        decreases b.len() - i,
    {
        if b[i] == 0 {
            return i;
        }
        i = i + 1;
    }
    i
}

/// The text of a NUL-padded field.
fn padded_text(b: &[u8]) -> (r: &str)
    ensures
        r@ == field_text(b@),
{
    let len = text_len(b);
    proof {
        lemma_nul_in_bounds(b@, 0);
    }
    match utf8_text(&b[0..len]) {
        Some(s) => s,
        None => "Invalid UTF-8",
    }
}

impl<I, E> ModuleInfo<I, E> {
    /// The module's name.
    pub fn name(&self) -> (r: &str)
        ensures
            r@ == field_text(self.name@),
    {
        padded_text(self.name.as_slice())
    }

    /// The module's version.
    pub fn version(&self) -> (r: &str)
        ensures
            r@ == field_text(self.version@),
    {
        padded_text(self.version.as_slice())
    }
}

/// A `N`-byte array holding the UTF-8 bytes of a string, cut to `N - 1`
/// bytes, followed by NUL padding.
pub open spec fn padded(s: Seq<u8>, n: int) -> Seq<u8> {
    Seq::new(n as nat, |i: int| if i < s.len() && i < n - 1 { s[i] } else { 0u8 })
}

pub fn str_to_array64(s: &str) -> (r: [u8; 64])
    ensures
        r@ == padded(s.spec_bytes(), 64),
{
    let mut array = [0u8; 64];
    let bytes = s.as_bytes();
    let mut i: usize = 0;
    while i < bytes.len() && i < 63
        invariant
            i <= 63,
            i <= bytes@.len(),
            bytes@ == s.spec_bytes(),
            array@.len() == 64,
            forall|k: int| 0 <= k < i ==> array@[k] == bytes@[k],
            forall|k: int| i <= k < 64 ==> array@[k] == 0u8,
        decreases 63 - i,
    {
        array[i] = bytes[i];
        i = i + 1;
    }
    assert(i == bytes@.len() || i == 63);
    assert forall|k: int| 0 <= k < 64 implies array@[k] == padded(s.spec_bytes(), 64)[k] by {
        if k < i {
            assert(array@[k] == bytes@[k]);
        } else {
            assert(array@[k] == 0u8);
        }
    }
    assert(array@ =~= padded(s.spec_bytes(), 64));
    array
}

pub fn str_to_array32(s: &str) -> (r: [u8; 32])
    ensures
        r@ == padded(s.spec_bytes(), 32),
{
    let mut array = [0u8; 32];
    let bytes = s.as_bytes();
    let mut i: usize = 0;
    while i < bytes.len() && i < 31
        invariant
            i <= 31,
            i <= bytes@.len(),
            bytes@ == s.spec_bytes(),
            array@.len() == 32,
            forall|k: int| 0 <= k < i ==> array@[k] == bytes@[k],
            forall|k: int| i <= k < 32 ==> array@[k] == 0u8,
        decreases 31 - i,
    {
        array[i] = bytes[i];
        i = i + 1;
    }
    assert(i == bytes@.len() || i == 31);
    assert forall|k: int| 0 <= k < 32 implies array@[k] == padded(s.spec_bytes(), 32)[k] by {
        if k < i {
            assert(array@[k] == bytes@[k]);
        } else {
            assert(array@[k] == 0u8);
        }
    }
    assert(array@ =~= padded(s.spec_bytes(), 32));
    array
}

} // verus!
