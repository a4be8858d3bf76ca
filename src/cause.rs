use vstd::prelude::*;
use riscv::register::scause::Exception as RvException;
use riscv::register::scause::Interrupt as RvInterrupt;

verus! {

/// An interrupt, by its cause code.
#[derive(Clone, Copy, Debug, PartialEq, Eq, Structural)]
pub enum Interrupt {
    UserSoft,
    SupervisorSoft,
    UserTimer,
    SupervisorTimer,
    UserExternal,
    SupervisorExternal,
    Unknown,
}

/// A synchronous exception, by its cause code.
#[derive(Clone, Copy, Debug, PartialEq, Eq, Structural)]
pub enum Exception {
    InstructionMisaligned,
    InstructionFault,
    IllegalInstruction,
    Breakpoint,
    LoadFault,
    StoreMisaligned,
    StoreFault,
    UserEnvCall,
    InstructionPageFault,
    LoadPageFault,
    StorePageFault,
    Unknown,
}

/// The reason for a trap, as the `scause` CSR reports it.
#[derive(Clone, Copy, Debug, PartialEq, Eq, Structural)]
pub enum Trap {
    Interrupt(Interrupt),
    Exception(Exception),
}

/// The interrupt that cause code `code` names.
pub open spec fn interrupt_of(code: usize) -> Interrupt {
    if code == 0 {
        Interrupt::UserSoft
    } else if code == 1 {
        Interrupt::SupervisorSoft
    } else if code == 4 {
        Interrupt::UserTimer
    } else if code == 5 {
        Interrupt::SupervisorTimer
    } else if code == 8 {
        Interrupt::UserExternal
    } else if code == 9 {
        Interrupt::SupervisorExternal
    } else {
        Interrupt::Unknown
    }
}

/// The exception that cause code `code` names.
pub open spec fn exception_of(code: usize) -> Exception {
    if code == 0 {
        Exception::InstructionMisaligned
    } else if code == 1 {
        Exception::InstructionFault
    } else if code == 2 {
        Exception::IllegalInstruction
    } else if code == 3 {
        Exception::Breakpoint
    } else if code == 5 {
        Exception::LoadFault
    } else if code == 6 {
        Exception::StoreMisaligned
    } else if code == 7 {
        Exception::StoreFault
    } else if code == 8 {
        Exception::UserEnvCall
    } else if code == 12 {
        Exception::InstructionPageFault
    } else if code == 13 {
        Exception::LoadPageFault
    } else if code == 15 {
        Exception::StorePageFault
    } else {
        Exception::Unknown
    }
}

/// Whether `scause` value `bits` reports an interrupt: its top bit is set.
pub open spec fn is_interrupt(bits: usize) -> bool {
    bits > usize::MAX / 2
}

/// The cause code of `scause` value `bits`: every bit but the top one.
pub open spec fn cause_code(bits: usize) -> usize {
    if is_interrupt(bits) {
        (bits - usize::MAX / 2 - 1) as usize
    } else {
        bits
    }
}

/// The trap that `scause` value `bits` reports.
pub open spec fn trap_of(bits: usize) -> Trap {
    if is_interrupt(bits) {
        Trap::Interrupt(interrupt_of(cause_code(bits)))
    } else {
        Trap::Exception(exception_of(cause_code(bits)))
    }
}

/// Relies on riscv's `scause::Interrupt::from`: the interrupt that a cause
/// code names, by the table in its source.
#[verifier::external_body]
fn interrupt_from(code: usize) -> (i: Interrupt)
    ensures
        i == interrupt_of(code),
{
    match RvInterrupt::from(code) {
        RvInterrupt::UserSoft => Interrupt::UserSoft,
        RvInterrupt::SupervisorSoft => Interrupt::SupervisorSoft,
        RvInterrupt::UserTimer => Interrupt::UserTimer,
        RvInterrupt::SupervisorTimer => Interrupt::SupervisorTimer,
        RvInterrupt::UserExternal => Interrupt::UserExternal,
        RvInterrupt::SupervisorExternal => Interrupt::SupervisorExternal,
        RvInterrupt::Unknown => Interrupt::Unknown,
    }
}

/// Relies on riscv's `scause::Exception::from`: the exception that a cause
/// code names, by the table in its source.
#[verifier::external_body]
fn exception_from(code: usize) -> (e: Exception)
    ensures
        e == exception_of(code),
{
    match RvException::from(code) {
        RvException::InstructionMisaligned => Exception::InstructionMisaligned,
        RvException::InstructionFault => Exception::InstructionFault,
        RvException::IllegalInstruction => Exception::IllegalInstruction,
        RvException::Breakpoint => Exception::Breakpoint,
        RvException::LoadFault => Exception::LoadFault,
        RvException::StoreMisaligned => Exception::StoreMisaligned,
        RvException::StoreFault => Exception::StoreFault,
        RvException::UserEnvCall => Exception::UserEnvCall,
        RvException::InstructionPageFault => Exception::InstructionPageFault,
        RvException::LoadPageFault => Exception::LoadPageFault,
        RvException::StorePageFault => Exception::StorePageFault,
        RvException::Unknown => Exception::Unknown,
    }
}

/// Decodes an `scause` value: the top bit tells an interrupt from an
/// exception, the remaining bits give the cause code.
pub fn decode_cause(bits: usize) -> (t: Trap)
    ensures
        t == trap_of(bits),
{
    let half: usize = usize::MAX / 2;
    if bits > half {
        Trap::Interrupt(interrupt_from(bits - half - 1))
    } else {
        Trap::Exception(exception_from(bits))
    }
}

} // verus!
