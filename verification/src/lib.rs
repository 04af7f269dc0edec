//! Verified core of a two-stage boot path: a firmware-side loader that prepares
//! the machine for a kernel, and the kernel-side bootstrap that validates what
//! it was handed and installs its trap table.
//!
//! Everything here works on plain values. Firmware calls, raw memory and
//! privileged instructions stay with the caller, which hands in what the
//! firmware returned and carries out what these functions decide.

pub mod wire;
pub mod memory;
pub mod elf;
pub mod paging;
pub mod traps;
pub mod boot_info;
pub mod acpi;
pub mod graphics;
pub mod syscall;
pub mod diagnostics;
pub mod loader;
pub mod kernel;
