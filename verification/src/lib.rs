//! Instruction-level model of a classic 8-bit arcade machine: a
//! general-purpose processor, a vector-display coprocessor, the shared
//! memory/IO bus they communicate through, and the cycle-driven scheduler
//! that interleaves them.

pub mod cpu;
pub mod dvg;
pub mod fault;
pub mod memory;
pub mod nums;
pub mod sched;
pub mod sound;
