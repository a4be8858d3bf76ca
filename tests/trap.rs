use app_trap::cause::{decode_cause, Exception, Interrupt, Trap};
use app_trap::dispatch::{
    classify_trap, complete_syscall, syscall_request, Continuation, ExitReport, FatalTrap,
    SyscallOperation, SyscallResult, TrapAction,
};
use app_trap::hart::{restore_trap, trap_entry, Hart, ResumePoint, TrapVector};
use app_trap::layout::{CONTEXT_WORDS, FRAME_BYTES, SLOT_A0, SLOT_A1, SLOT_SEPC, SLOT_SP, SLOT_SSTATUS};
use app_trap::status::{previous_privilege_of, with_user_spp, Privilege, SSTATUS_SPP};
use app_trap::TrapContext;

const SCAUSE_INTERRUPT: usize = 1usize << (usize::BITS - 1);

fn numbered_context() -> TrapContext {
    let mut ctx = TrapContext::zeroed();
    for i in 0..CONTEXT_WORDS {
        ctx.set_slot(i, 100 + i);
    }
    ctx
}

fn trapped_hart() -> Hart {
    let mut x = vec![0usize; 32];
    for r in 1..32 {
        x[r] = 0x1000 * r + 7;
    }
    Hart {
        x,
        sstatus: 0x8000_0000_0000_6022,
        sepc: 0x8040_1234,
        sscratch: 0x8020_0000,
        stvec: TrapVector::TrapEntry,
    }
}

#[test]
fn example_write_syscall_resumes_past_ecall() {
    let mut ctx = TrapContext::app_init_context(0x1000, 3, 0x9000_0000, 0);
    ctx.a7 = 64;
    let action = classify_trap(&ctx, 8, 0);
    match action {
        TrapAction::Syscall(req) => {
            assert_eq!(req.id, 64);
            assert_eq!(req.app_id, 3);
        }
        other => panic!("expected a system call, got {:?}", other),
    }
    let c = complete_syscall(&mut ctx, SyscallOperation::Return(SyscallResult { code: 3, extra: 0 }));
    assert_eq!(c, Continuation::Resume);
    assert_eq!(ctx.sepc, 0x1004);
    assert_eq!(ctx.a0, 3);
    assert_eq!(ctx.a1, 0);
}

#[test]
fn init_context_fields() {
    let ctx = TrapContext::app_init_context(0x8040_0000, 5, 0x8021_0000, 0x122);
    assert_eq!(ctx.sepc, 0x8040_0000);
    assert_eq!(ctx.tp, 5);
    assert_eq!(ctx.sp, 0x8021_0000);
    assert_eq!(ctx.sstatus, 0x022);
    assert_eq!(previous_privilege_of(ctx.sstatus), Privilege::User);
    for i in 0..CONTEXT_WORDS {
        if i != SLOT_SP && i != 3 && i != SLOT_SSTATUS && i != SLOT_SEPC {
            assert_eq!(ctx.slot(i), 0, "slot {}", i);
        }
    }
}

#[test]
fn init_context_is_deterministic() {
    let a = TrapContext::app_init_context(0x1000, 3, 0x9000_0000, 0x1ff);
    let b = TrapContext::app_init_context(0x1000, 3, 0x9000_0000, 0x1ff);
    assert_eq!(a, b);
}

#[test]
fn user_spp_clears_only_bit_eight() {
    assert_eq!(with_user_spp(usize::MAX), usize::MAX & !SSTATUS_SPP);
    assert_eq!(with_user_spp(0x100), 0);
    assert_eq!(with_user_spp(0x22), 0x22);
    assert_eq!(previous_privilege_of(0x100), Privilege::Supervisor);
    assert_eq!(previous_privilege_of(0x0ff), Privilege::User);
}

#[test]
fn layout_offsets() {
    let ctx = numbered_context();
    assert_eq!(ctx.ra, 100);
    assert_eq!(ctx.sp, 101);
    assert_eq!(ctx.a0, 100 + SLOT_A0);
    assert_eq!(ctx.a1, 100 + SLOT_A1);
    assert_eq!(ctx.a7, 116);
    assert_eq!(ctx.t6, 130);
    assert_eq!(ctx.sstatus, 131);
    assert_eq!(ctx.sepc, 132);
    assert_eq!(FRAME_BYTES, 264);
}

#[test]
fn set_slot_changes_one_word() {
    let mut ctx = numbered_context();
    ctx.set_slot(SLOT_A0, 7);
    for i in 0..CONTEXT_WORDS {
        let want = if i == SLOT_A0 { 7 } else { 100 + i };
        assert_eq!(ctx.slot(i), want);
    }
}

#[test]
fn decode_exceptions() {
    assert_eq!(decode_cause(8), Trap::Exception(Exception::UserEnvCall));
    assert_eq!(decode_cause(7), Trap::Exception(Exception::StoreFault));
    assert_eq!(decode_cause(15), Trap::Exception(Exception::StorePageFault));
    assert_eq!(decode_cause(2), Trap::Exception(Exception::IllegalInstruction));
    assert_eq!(decode_cause(13), Trap::Exception(Exception::LoadPageFault));
    assert_eq!(decode_cause(11), Trap::Exception(Exception::Unknown));
}

#[test]
fn decode_interrupts() {
    assert_eq!(decode_cause(SCAUSE_INTERRUPT | 5), Trap::Interrupt(Interrupt::SupervisorTimer));
    assert_eq!(decode_cause(SCAUSE_INTERRUPT | 1), Trap::Interrupt(Interrupt::SupervisorSoft));
    assert_eq!(decode_cause(SCAUSE_INTERRUPT | 9), Trap::Interrupt(Interrupt::SupervisorExternal));
    assert_eq!(decode_cause(SCAUSE_INTERRUPT | 3), Trap::Interrupt(Interrupt::Unknown));
}

#[test]
fn syscall_request_reads_registers() {
    let ctx = numbered_context();
    let req = syscall_request(&ctx);
    assert_eq!(req.id, 116);
    assert_eq!(req.sub_id, 115);
    assert_eq!(req.args, [109, 110, 111, 112, 113, 114]);
    assert_eq!(req.app_id, 103);
}

#[test]
fn store_faults_and_illegal_instructions_halt() {
    let ctx = numbered_context();
    assert_eq!(classify_trap(&ctx, 7, 0x10), TrapAction::Fatal(FatalTrap::PageFault));
    assert_eq!(classify_trap(&ctx, 15, 0x10), TrapAction::Fatal(FatalTrap::PageFault));
    assert_eq!(classify_trap(&ctx, 2, 0x10), TrapAction::Fatal(FatalTrap::IllegalInstruction));
}

#[test]
fn other_traps_are_unsupported() {
    let ctx = numbered_context();
    assert_eq!(
        classify_trap(&ctx, 13, 0xdead),
        TrapAction::Fatal(FatalTrap::Unsupported(Trap::Exception(Exception::LoadPageFault), 0xdead))
    );
    assert_eq!(
        classify_trap(&ctx, SCAUSE_INTERRUPT | 5, 0),
        TrapAction::Fatal(FatalTrap::Unsupported(Trap::Interrupt(Interrupt::SupervisorTimer), 0))
    );
}

#[test]
fn return_wraps_program_counter() {
    let mut ctx = numbered_context();
    ctx.sepc = usize::MAX - 1;
    let c = complete_syscall(&mut ctx, SyscallOperation::Return(SyscallResult { code: 9, extra: 8 }));
    assert_eq!(c, Continuation::Resume);
    assert_eq!(ctx.sepc, 2);
    assert_eq!(ctx.a0, 9);
    assert_eq!(ctx.a1, 8);
    assert_eq!(ctx.a2, 111);
}

#[test]
fn terminate_retires_without_touching_context() {
    let mut ctx = numbered_context();
    let c = complete_syscall(&mut ctx, SyscallOperation::Terminate(-2));
    assert_eq!(c, Continuation::ExitAndRunNext(ExitReport::Returned(-2)));
    assert_eq!(ctx, numbered_context());
}

#[test]
fn user_panic_fills_placeholders() {
    let mut ctx = numbered_context();
    let c = complete_syscall(&mut ctx, SyscallOperation::UserPanic(None, 12, 5, None));
    assert_eq!(
        c,
        Continuation::ExitAndRunNext(ExitReport::Panicked {
            file: "<no file>",
            line: 12,
            col: 5,
            message: "<no message>",
        })
    );
    let c = complete_syscall(&mut ctx, SyscallOperation::UserPanic(Some("src/main.rs"), 3, 9, Some("boom")));
    assert_eq!(
        c,
        Continuation::ExitAndRunNext(ExitReport::Panicked { file: "src/main.rs", line: 3, col: 9, message: "boom" })
    );
    assert_eq!(ctx, numbered_context());
}

#[test]
fn yield_suspends_without_touching_context() {
    let mut ctx = numbered_context();
    let c = complete_syscall(&mut ctx, SyscallOperation::Yield);
    assert_eq!(c, Continuation::SuspendAndRunNext);
    assert_eq!(ctx, numbered_context());
}

#[test]
fn entry_saves_every_register() {
    let mut hart = trapped_hart();
    let ctx = trap_entry(&mut hart);
    for r in 1..32 {
        assert_eq!(ctx.slot(r - 1), 0x1000 * r + 7);
    }
    assert_eq!(ctx.sstatus, 0x8000_0000_0000_6022);
    assert_eq!(ctx.sepc, 0x8040_1234);
    assert_eq!(hart.x[2], 0x8020_0000 - 264);
    assert_eq!(hart.sscratch, 0x2007);
    assert_eq!(hart.stvec, TrapVector::KernelTrap);
}

#[test]
fn entry_then_restore_is_identity() {
    let original = trapped_hart();
    let mut hart = trapped_hart();
    let ctx = trap_entry(&mut hart);
    for r in 1..32 {
        if r != 2 {
            hart.x[r] = 0xbad;
        }
    }
    hart.sscratch = 0xbad;
    restore_trap(&mut hart, &ctx);
    assert_eq!(hart.x, original.x);
    assert_eq!(hart.sstatus, original.sstatus);
    assert_eq!(hart.sepc, original.sepc);
    assert_eq!(hart.sscratch, original.sscratch);
    assert_eq!(hart.stvec, TrapVector::TrapEntry);
}

#[test]
fn syscall_round_trip_resumes_after_ecall() {
    let mut hart = trapped_hart();
    let mut ctx = trap_entry(&mut hart);
    complete_syscall(&mut ctx, SyscallOperation::Return(SyscallResult { code: 42, extra: 1 }));
    restore_trap(&mut hart, &ctx);
    assert_eq!(hart.x[10], 42);
    assert_eq!(hart.x[11], 1);
    assert_eq!(hart.x[12], 0xc007);
    assert_eq!(hart.sepc, 0x8040_1238);
    assert_eq!(hart.privileged_return(), ResumePoint { privilege: Privilege::User, pc: 0x8040_1238 });
}

#[test]
fn fresh_context_resumes_in_user_mode() {
    let mut hart = Hart { x: vec![0usize; 32], sstatus: 0x100, sepc: 0, sscratch: 0, stvec: TrapVector::KernelTrap };
    hart.x[2] = 0x8030_0000 - 264;
    let ctx = TrapContext::app_init_context(0x8040_0000, 1, 0x8100_0000, 0x122);
    restore_trap(&mut hart, &ctx);
    assert_eq!(hart.x[2], 0x8100_0000);
    assert_eq!(hart.x[4], 1);
    assert_eq!(hart.sscratch, 0x8030_0000);
    assert_eq!(hart.stvec, TrapVector::TrapEntry);
    assert_eq!(hart.privileged_return(), ResumePoint { privilege: Privilege::User, pc: 0x8040_0000 });
}
