use vstd::prelude::*;

verus! {

/// Number of machine words in a saved register context.
pub const CONTEXT_WORDS: usize = 33;

/// Bytes in one machine word.
pub const WORD_BYTES: usize = 8;

/// Bytes the entry trampoline reserves on the kernel stack for one context.
pub const FRAME_BYTES: usize = CONTEXT_WORDS * WORD_BYTES;

/// Number of general-purpose registers, `x0` included.
pub const GPR_COUNT: usize = 32;

/// Slot of the link register `ra` (`x1`).
pub const SLOT_RA: usize = 0;

/// Slot that receives the user stack pointer (`x2`).
pub const SLOT_SP: usize = 1;

/// Slot of the thread pointer `tp` (`x4`), which carries the application id.
pub const SLOT_TP: usize = 3;

/// Slot of the first argument register `a0` (`x10`).
pub const SLOT_A0: usize = 9;

/// Slot of the second argument register `a1` (`x11`).
pub const SLOT_A1: usize = 10;

/// Slot of `a6` (`x16`), the secondary system-call code.
pub const SLOT_A6: usize = 15;

/// Slot of `a7` (`x17`), the system-call operation code.
pub const SLOT_A7: usize = 16;

/// Slot of the saved status CSR.
pub const SLOT_SSTATUS: usize = 31;

/// Slot of the saved program counter.
pub const SLOT_SEPC: usize = 32;

/// Index of the stack-pointer register `x2`.
pub const REG_SP: usize = 2;

} // verus!
