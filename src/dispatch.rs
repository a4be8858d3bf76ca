use vstd::prelude::*;
use vstd::wrapping::usize_specs::wrapping_add;
use crate::cause::{Exception, Trap, decode_cause, trap_of};
use crate::context::TrapContext;
use crate::layout::{SLOT_A0, SLOT_A1, SLOT_SEPC};

verus! {

/// Width in bytes of the `ecall` instruction; a finished system call resumes
/// this far past it.
pub const ECALL_WIDTH: usize = 4;

/// What a system call hands back to the application.
#[derive(Clone, Copy, Debug, PartialEq, Eq, Structural)]
pub struct SyscallResult {
    pub code: usize,
    pub extra: usize,
}

/// How the system-call layer disposed of a call.
#[derive(Clone, Copy, Debug, PartialEq, Eq)]
pub enum SyscallOperation {
    /// The call finished with a result for the application.
    Return(SyscallResult),
    /// The application exited with this code.
    Terminate(i32),
    /// The application panicked: file, line, column and message.
    UserPanic(Option<&'static str>, u32, u32, Option<&'static str>),
    /// The application gave up the hart.
    Yield,
}

/// The system call that a trapped application asked for.
#[derive(Clone, Copy, Debug, PartialEq, Eq)]
pub struct SyscallRequest {
    /// Operation code, from `a7`.
    pub id: usize,
    /// Secondary code, from `a6`.
    pub sub_id: usize,
    /// Arguments, from `a0` to `a5`.
    pub args: [usize; 6],
    /// The application, from the thread pointer.
    pub app_id: usize,
}

/// A trap that halts the kernel.
#[derive(Clone, Copy, Debug, PartialEq, Eq, Structural)]
pub enum FatalTrap {
    /// A store fault or a store page fault.
    PageFault,
    IllegalInstruction,
    /// Any other trap, with the value of `stval`.
    Unsupported(Trap, usize),
}

/// What to do about a trap.
#[derive(Clone, Copy, Debug, PartialEq, Eq)]
pub enum TrapAction {
    /// Hand the request to the system-call layer.
    Syscall(SyscallRequest),
    /// Report and halt the kernel.
    Fatal(FatalTrap),
}

/// Why an application is retired.
#[derive(Clone, Copy, Debug, PartialEq, Eq)]
pub enum ExitReport {
    /// It exited with this code.
    Returned(i32),
    /// It panicked; a missing file or message reads as a placeholder.
    Panicked { file: &'static str, line: u32, col: u32, message: &'static str },
}

/// Where control goes once a system call has been disposed of.
#[derive(Clone, Copy, Debug, PartialEq, Eq)]
pub enum Continuation {
    /// Return to the application through its (changed) saved context.
    Resume,
    /// Report, retire the current application and run the next one.
    ExitAndRunNext(ExitReport),
    /// Suspend the current application and run the next one.
    SuspendAndRunNext,
}

/// Whether `req` is the system call that the application saved in `ctx`
/// asks for.
pub open spec fn requested_by(req: SyscallRequest, ctx: TrapContext) -> bool {
    &&& req.id == ctx.a7
    &&& req.sub_id == ctx.a6
    &&& req.args@ == seq![ctx.a0, ctx.a1, ctx.a2, ctx.a3, ctx.a4, ctx.a5]
    &&& req.app_id == ctx.tp
}

/// Whether `a` is the right response to trap `trap` with `stval` value
/// `stval`, taken by the application saved in `ctx`.
pub open spec fn responds_to(a: TrapAction, ctx: TrapContext, trap: Trap, stval: usize) -> bool {
    match trap {
        Trap::Exception(Exception::UserEnvCall) => a is Syscall && requested_by(a->Syscall_0, ctx),
        Trap::Exception(Exception::StoreFault) | Trap::Exception(Exception::StorePageFault) =>
            a == TrapAction::Fatal(FatalTrap::PageFault),
        Trap::Exception(Exception::IllegalInstruction) =>
            a == TrapAction::Fatal(FatalTrap::IllegalInstruction),
        _ => a == TrapAction::Fatal(FatalTrap::Unsupported(trap, stval)),
    }
}

/// The request that the application saved in `ctx` makes.
pub fn syscall_request(ctx: &TrapContext) -> (req: SyscallRequest)
    ensures
        requested_by(req, *ctx),
{
    let req = SyscallRequest {
        id: ctx.a7,
        sub_id: ctx.a6,
        args: [ctx.a0, ctx.a1, ctx.a2, ctx.a3, ctx.a4, ctx.a5],
        app_id: ctx.tp,
    };
    assert(req.args@ =~= seq![ctx.a0, ctx.a1, ctx.a2, ctx.a3, ctx.a4, ctx.a5]);
    req
}

/// Classifies a trap taken by the application saved in `ctx`, from the
/// values of `scause` and `stval`: a system call from user mode becomes a
/// request for the system-call layer; a store fault, a store page fault, an
/// illegal instruction and any other trap halt the kernel.
pub fn classify_trap(ctx: &TrapContext, scause: usize, stval: usize) -> (a: TrapAction)
    ensures
        responds_to(a, *ctx, trap_of(scause), stval),
{
    let trap = decode_cause(scause);
    match trap {
        Trap::Exception(Exception::UserEnvCall) => TrapAction::Syscall(syscall_request(ctx)),
        Trap::Exception(Exception::StoreFault) | Trap::Exception(Exception::StorePageFault) =>
            TrapAction::Fatal(FatalTrap::PageFault),
        Trap::Exception(Exception::IllegalInstruction) =>
            TrapAction::Fatal(FatalTrap::IllegalInstruction),
        _ => TrapAction::Fatal(FatalTrap::Unsupported(trap, stval)),
    }
}

/// The saved context after outcome `outcome`: a `Return` puts its two values
/// in `a0` and `a1` and moves the program counter past the `ecall`; every
/// other outcome leaves the context alone.
pub open spec fn after_outcome(ctx: TrapContext, outcome: SyscallOperation) -> TrapContext {
    match outcome {
        SyscallOperation::Return(res) => TrapContext {
            a0: res.code,
            a1: res.extra,
            sepc: wrapping_add(ctx.sepc, ECALL_WIDTH),
            ..ctx
        },
        _ => ctx,
    }
}

/// Where control goes after outcome `outcome`.
pub open spec fn continuation_of(outcome: SyscallOperation) -> Continuation {
    match outcome {
        SyscallOperation::Return(_) => Continuation::Resume,
        SyscallOperation::Terminate(code) => Continuation::ExitAndRunNext(ExitReport::Returned(code)),
        SyscallOperation::UserPanic(file, line, col, message) => Continuation::ExitAndRunNext(
            ExitReport::Panicked {
                file: match file { Some(f) => f, None => "<no file>" },
                line,
                col,
                message: match message { Some(m) => m, None => "<no message>" },
            },
        ),
        SyscallOperation::Yield => Continuation::SuspendAndRunNext,
    }
}

/// Applies what the system-call layer decided to the saved context `ctx`
/// and says where control goes next.
pub fn complete_syscall(ctx: &mut TrapContext, outcome: SyscallOperation) -> (c: Continuation)
    ensures
        *final(ctx) == after_outcome(*old(ctx), outcome),
        c == continuation_of(outcome),
{
    match outcome {
        SyscallOperation::Return(res) => {
            ctx.a0 = res.code;
            ctx.a1 = res.extra;
            ctx.sepc = ctx.sepc.wrapping_add(ECALL_WIDTH);
            Continuation::Resume
        },
        SyscallOperation::Terminate(code) => Continuation::ExitAndRunNext(ExitReport::Returned(code)),
        SyscallOperation::UserPanic(file, line, col, message) => {
            let file = match file {
                Some(f) => f,
                None => "<no file>",
            };
            let message = match message {
                Some(m) => m,
                None => "<no message>",
            };
            Continuation::ExitAndRunNext(ExitReport::Panicked { file, line, col, message })
        },
        SyscallOperation::Yield => Continuation::SuspendAndRunNext,
    }
}

/// After a `Return(code, extra)` outcome the first two argument-register
/// slots of the saved context hold `code` and `extra`, the saved program
/// counter has moved one `ecall` width past its value at the trap, and
/// every other word of the block is as it was.
pub proof fn lemma_result_injection(ctx: TrapContext, code: usize, extra: usize)
    ensures
        ({
            let after = after_outcome(ctx, SyscallOperation::Return(SyscallResult { code, extra }));
            &&& after@[SLOT_A0 as int] == code
            &&& after@[SLOT_A1 as int] == extra
            &&& after@[SLOT_SEPC as int] == wrapping_add(ctx.sepc, ECALL_WIDTH)
            &&& after@ == ctx@.update(SLOT_A0 as int, code).update(SLOT_A1 as int, extra).update(
                SLOT_SEPC as int,
                wrapping_add(ctx.sepc, ECALL_WIDTH),
            )
        }),
{
    let after = after_outcome(ctx, SyscallOperation::Return(SyscallResult { code, extra }));
    assert(after@ =~= ctx@.update(SLOT_A0 as int, code).update(SLOT_A1 as int, extra).update(
        SLOT_SEPC as int,
        wrapping_add(ctx.sepc, ECALL_WIDTH),
    ));
}

/// Each system-call outcome takes exactly one path, and none falls through:
/// a `Return` resumes the application with its saved context changed (its
/// program counter at least moves); `Terminate` and `UserPanic` retire it
/// and `Yield` suspends it, both handing the hart to the scheduler with the
/// context left as it was.
pub proof fn lemma_outcome_paths(ctx: TrapContext, outcome: SyscallOperation)
    ensures
        continuation_of(outcome) is Resume <==> outcome is Return,
        continuation_of(outcome) is ExitAndRunNext <==> (outcome is Terminate || outcome is UserPanic),
        continuation_of(outcome) is SuspendAndRunNext <==> outcome is Yield,
        continuation_of(outcome) is Resume ==> after_outcome(ctx, outcome).sepc != ctx.sepc,
        !(continuation_of(outcome) is Resume) ==> after_outcome(ctx, outcome) == ctx,
{
}

/// A store fault, a store page fault and an illegal instruction each halt
/// the kernel: no request goes to the system-call layer, and the scheduler
/// is not asked to run anything.
pub proof fn lemma_fatal_paths(ctx: TrapContext, stval: usize, a: TrapAction, trap: Trap)
    requires
        trap == Trap::Exception(Exception::StoreFault) || trap == Trap::Exception(Exception::StorePageFault)
            || trap == Trap::Exception(Exception::IllegalInstruction),
        responds_to(a, ctx, trap, stval),
    ensures
        a is Fatal,
        trap == Trap::Exception(Exception::IllegalInstruction) ==> a == TrapAction::Fatal(FatalTrap::IllegalInstruction),
        trap != Trap::Exception(Exception::IllegalInstruction) ==> a == TrapAction::Fatal(FatalTrap::PageFault),
{
}

} // verus!
