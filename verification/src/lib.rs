//! A user- and privileged-mode RV32IMA_Zicsr_Zifencei instruction-set
//! simulator: one hart with M/S/U privilege, Sv32 paging, trap delivery with
//! delegation, machine and supervisor CSRs, LR/SC and AMO atomics, and a small
//! memory-mapped bus (RAM, device-tree ROM, timer, UART).
pub mod arith;
pub mod decode;
pub mod exec;
pub mod instr;
pub mod proc;
pub mod run;
pub mod sys;
pub mod translate;
pub mod trap;

pub use decode::decode;
pub use instr::{reg::Reg, Instr};
pub use run::{run_for, run_for_or_until_ecall};
pub use sys::System;
pub use trap::{Exception, Interrupt, Trap};
