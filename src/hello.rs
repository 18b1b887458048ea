//! A sample module: it greets on load and says goodbye on unload. The text
//! goes to a console buffer that the host drains character by character.
use vstd::prelude::*;
use vstd::string::StringSliceAdditionalSpecFns;

verus! {

/// Appends the UTF-8 bytes of `s` to the console buffer.
fn write_str(console: &mut Vec<u8>, s: &str)
    ensures
        final(console)@ == old(console)@ + s.spec_bytes(),
{
    let bytes = s.as_bytes();
    let mut i: usize = 0;
    while i < bytes.len()
        invariant
            i <= bytes@.len(),
            bytes@ == s.spec_bytes(),
            console@ == old(console)@ + bytes@.subrange(0, i as int),
        decreases bytes.len() - i,
    {
        console.push(bytes[i]);
        i = i + 1;
        assert(bytes@.subrange(0, i as int) =~= bytes@.subrange(0, i - 1) + seq![bytes@[i - 1]]);
    }
    assert(bytes@.subrange(0, i as int) =~= bytes@);
}

/// Init entry point: greets and reports success.
pub fn hello_init(console: &mut Vec<u8>) -> (r: i32)
    ensures
        r == 0,
        final(console)@ == old(console)@ + "Hello, Kernel Module!\n".spec_bytes(),
{
    write_str(console, "Hello, Kernel Module!\n");
    0
}

/// Exit entry point: says goodbye.
pub fn hello_exit(console: &mut Vec<u8>)
    ensures
        final(console)@ == old(console)@ + "Goodbye, Kernel Module!\n".spec_bytes(),
{
    write_str(console, "Goodbye, Kernel Module!\n");
}

} // verus!
