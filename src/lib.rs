//! Relocation processing for dynamically loaded kernel modules.
//!
//! The library patches the code and data of a relocatable ELF64 object that
//! has been copied into module memory, following the RISC-V relocation
//! conventions, and describes the module metadata record that a module
//! exports to its host.

pub mod error;
pub mod memory;
pub mod riscv_insn;
pub mod riscv64;
pub mod rela;
pub mod relocate;
pub mod loongarch_insn;
pub mod modinfo;
pub mod hello;

pub use error::ModuleErr;
pub use memory::{ModuleMemory, Ptr};
pub use relocate::{Riscv64ArchRelocate, SectionHeader};
pub use riscv64::Riscv64RelocationType;
