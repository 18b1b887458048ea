use kmod_loader::hello::{hello_exit, hello_init};
use kmod_loader::loongarch_insn::{reg0i26_format, reg1i20_format, reg2i12_format, reg2i16_format};
use kmod_loader::modinfo::{str_to_array32, str_to_array64, ModuleInfo, MODULE_MAGIC};

fn init() -> i32 {
    0
}

fn exit() {}

fn info(name: &str, version: &str) -> ModuleInfo<fn() -> i32, fn()> {
    ModuleInfo {
        magic: MODULE_MAGIC,
        name: str_to_array64(name),
        version: str_to_array32(version),
        init_fn: Some(init as fn() -> i32),
        exit_fn: Some(exit as fn()),
    }
}

#[test]
fn name_and_version_read_back() {
    let m = info("hello", "1.0.0");
    assert_eq!(m.name(), "hello");
    assert_eq!(m.version(), "1.0.0");
    assert_eq!(m.magic.to_le_bytes(), *b"UDOM");
    assert_eq!((m.init_fn.unwrap())(), 0);
}

#[test]
fn long_names_are_cut_and_nul_terminated() {
    let long = "x".repeat(100);
    let a = str_to_array64(&long);
    assert_eq!(&a[..63], "x".repeat(63).as_bytes());
    assert_eq!(a[63], 0);
    let b = str_to_array32(&long);
    assert_eq!(b[31], 0);
    assert_eq!(info(&long, &long).name().len(), 63);
    assert_eq!(info(&long, &long).version().len(), 31);
}

#[test]
fn empty_and_invalid_text() {
    let mut m = info("", "");
    assert_eq!(m.name(), "");
    m.name[0] = 0xff;
    m.name[1] = b'a';
    assert_eq!(m.name(), "Invalid UTF-8");
    m.version[0] = 0xc3;
    m.version[1] = 0xa9;
    assert_eq!(m.version(), "\u{e9}");
}

#[test]
fn hello_greets_and_says_goodbye() {
    let mut console = Vec::new();
    assert_eq!(hello_init(&mut console), 0);
    assert_eq!(console, b"Hello, Kernel Module!\n".to_vec());
    hello_exit(&mut console);
    assert_eq!(console, b"Hello, Kernel Module!\nGoodbye, Kernel Module!\n".to_vec());
}

#[test]
fn loongarch_fields() {
    // pcaddu12i $t0, 0
    let w = reg1i20_format::from_bits(0x1c00000c);
    assert_eq!(w.rd(), 12);
    assert_eq!(w.opcode(), 0x0e);
    let w2 = w.with_immediate(0xfffff);
    assert_eq!(w2.into_bits(), 0x1dffffec);
    assert_eq!(w2.rd(), 12);

    let b = reg0i26_format::new().with_immediate_l(0xffff).with_immediate_h(0x3ff).with_opcode(0x14);
    assert_eq!(b.into_bits(), 0x53ff_ffff);
    assert_eq!(b.immediate_l(), 0xffff);

    let l = reg2i12_format::from_bits(0x28c0_0084).with_immediate(0x800);
    assert_eq!(l.immediate(), 0x800);
    assert_eq!(l.rj(), 4);
    assert_eq!(l.rd(), 4);

    let j = reg2i16_format::from_bits(0x4c00_0020);
    assert_eq!(j.immediate(), 0);
    assert_eq!(j.rj(), 1);
}

#[test]
fn default_record_is_empty() {
    let m: ModuleInfo<fn() -> i32, fn()> = ModuleInfo::default();
    assert_eq!(m.magic, 0);
    assert_eq!(m.name, [0u8; 64]);
    assert_eq!(m.version, [0u8; 32]);
    assert!(m.init_fn.is_none() && m.exit_fn.is_none());
    assert_eq!(m.name(), "");
}
