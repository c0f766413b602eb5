//! An emulated call bridge into a foreign game binary.
//!
//! The crate models just enough of the target process to drive its
//! internal logic: a flat byte-addressable [`arena::Arena`] standing in
//! for the process's memory, a minimal [`cpu::VirtualCpu`] that can
//! execute a small subset of the target's machine code, typed record
//! layouts mirroring the foreign structs, per-revision function-offset
//! dispatch, and a library of typed, fallible game operations built on
//! top of those pieces.

pub mod actor;
pub mod arena;
pub mod category;
pub mod cpu;
pub mod env;
pub mod error;
pub mod gdt;
pub mod ops;
pub mod records;
pub mod singleton;
