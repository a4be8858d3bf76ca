//! Trap-handling core of a single-hart RISC-V supervisor kernel.
//!
//! `layout` fixes the register-context block shared by the trampolines and
//! the dispatcher, `status` reads and sets the status word's
//! previous-privilege field, `context` holds the block, `hart` models the
//! entry and return trampolines over the hart's registers and CSRs, `cause`
//! decodes `scause`, and `dispatch` classifies a trap and decides how the
//! saved context changes and where control goes.

pub mod layout;
pub mod status;
pub mod context;
pub mod hart;
pub mod cause;
pub mod dispatch;

pub use context::TrapContext;
pub use hart::{restore_trap, trap_entry};
