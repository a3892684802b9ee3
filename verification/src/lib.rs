//! Bootstrap logic for a multi-core ARMv8 board: translation tables and the
//! register programme that turns the MMU on, the classification of trapped
//! exceptions, and the order in which cores are started.
//!
//! Nothing in here touches hardware. Every function computes what has to be
//! done, as plain values, and leaves doing it to the caller.

pub mod boot;
pub mod debug;
pub mod exception;
pub mod exceptionlevel;
pub mod field;
pub mod mmu;
pub mod mmu32;
pub mod mmu64;
pub mod register;
mod system;
