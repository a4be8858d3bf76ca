use vstd::prelude::*;
use vstd::wrapping::usize_specs::{wrapping_add, wrapping_sub};
use crate::context::{TrapContext, initial_context};
use crate::layout::{CONTEXT_WORDS, FRAME_BYTES, GPR_COUNT, REG_SP, SLOT_SP, SLOT_SSTATUS, SLOT_SEPC};
use crate::status::{Privilege, previous_privilege, previous_privilege_of};

verus! {

/// Where the hart delivers its next trap.
#[derive(Clone, Copy, Debug, PartialEq, Eq, Structural)]
pub enum TrapVector {
    /// The kernel's own trap handler, in force while a trap is dispatched.
    KernelTrap,
    /// The entry trampoline, in force at all other times.
    TrapEntry,
}

/// The part of a hart that a privilege crossing reads and writes: the
/// general-purpose registers `x0` to `x31`, the status CSR, the saved
/// program counter, the scratch CSR that parks the other stack pointer, and
/// the trap-delivery target.
#[derive(Debug)]
pub struct Hart {
    pub x: Vec<usize>,
    pub sstatus: usize,
    pub sepc: usize,
    pub sscratch: usize,
    pub stvec: TrapVector,
}

/// The abstract state of a [`Hart`].
pub ghost struct HartView {
    pub x: Seq<usize>,
    pub sstatus: usize,
    pub sepc: usize,
    pub sscratch: usize,
    pub stvec: TrapVector,
}

/// Where `sret` resumes execution.
#[derive(Clone, Copy, Debug, PartialEq, Eq, Structural)]
pub struct ResumePoint {
    pub privilege: Privilege,
    pub pc: usize,
}

impl View for Hart {
    type V = HartView;

    open spec fn view(&self) -> HartView {
        HartView {
            x: self.x@,
            sstatus: self.sstatus,
            sepc: self.sepc,
            sscratch: self.sscratch,
            stvec: self.stvec,
        }
    }
}

impl HartView {
    /// Thirty-two registers, of which `x0` reads zero.
    pub open spec fn wf(self) -> bool {
        self.x.len() == GPR_COUNT && self.x[0] == 0
    }
}

impl Hart {
    pub open spec fn wf(&self) -> bool {
        self@.wf()
    }
}

/// The context block that the entry trampoline stores for hart state `h`:
/// `x1` to `x31` in order (the user stack pointer `x2` in its slot), then
/// the status CSR and the saved program counter.
pub open spec fn saved_frame(h: HartView) -> Seq<usize> {
    Seq::new(CONTEXT_WORDS as nat, |i: int|
        if i < SLOT_SSTATUS { h.x[i + 1] } else if i == SLOT_SSTATUS { h.sstatus } else { h.sepc })
}

/// Hart state `h` after the entry trampoline: the stack pointer is the
/// kernel stack pointer that was parked in the scratch CSR, lowered by one
/// context block; the scratch CSR holds the user stack pointer; traps go to
/// the kernel handler.
pub open spec fn entered(h: HartView) -> HartView {
    HartView {
        x: h.x.update(REG_SP as int, wrapping_sub(h.sscratch, FRAME_BYTES)),
        sscratch: h.x[REG_SP as int],
        stvec: TrapVector::KernelTrap,
        ..h
    }
}

/// Hart state `h` after the return trampoline has reloaded context block
/// `frame`, just before `sret`: the registers and both CSRs come from the
/// block, the stack pointer is the saved user stack pointer, the scratch
/// CSR holds the kernel stack pointer raised past the block, and traps go
/// to the entry trampoline.
pub open spec fn restored(h: HartView, frame: Seq<usize>) -> HartView {
    HartView {
        x: Seq::new(GPR_COUNT as nat, |r: int| if r == 0 { 0usize } else { frame[r - 1] }),
        sstatus: frame[SLOT_SSTATUS as int],
        sepc: frame[SLOT_SEPC as int],
        sscratch: wrapping_add(h.x[REG_SP as int], FRAME_BYTES),
        stvec: TrapVector::TrapEntry,
    }
}

/// Saves the interrupted state of `hart` and switches it to the kernel: the
/// stack pointer and the scratch CSR are exchanged, one context block is
/// reserved below the kernel stack pointer, every register but `x0` and
/// both CSRs are stored into it, and the trap-delivery target becomes the
/// kernel handler. Returns the stored block, which the dispatcher receives.
/// On the hart the sequence then uses `t0` to `t3` as temporaries; they are
/// saved by then and the return path reloads them from the block, so the
/// model leaves them as they were.
pub fn trap_entry(hart: &mut Hart) -> (ctx: TrapContext)
    requires
        old(hart).wf(),
    ensures
        final(hart)@ == entered(old(hart)@),
        final(hart).wf(),
        ctx@ == saved_frame(old(hart)@),
{
    let user_sp = hart.x[REG_SP];
    let kernel_sp = hart.sscratch;
    hart.x[REG_SP] = kernel_sp;
    hart.sscratch = user_sp;
    hart.x[REG_SP] = kernel_sp.wrapping_sub(FRAME_BYTES);
    assert(hart@.x =~= entered(old(hart)@).x);
    let mut ctx = TrapContext::zeroed();
    let mut r: usize = 1;
    while r < GPR_COUNT
        invariant
            1 <= r <= GPR_COUNT,
            old(hart)@.wf(),
            hart@ == (HartView { stvec: old(hart).stvec, ..entered(old(hart)@) }),
            ctx@.len() == CONTEXT_WORDS,
            forall|i: int| 0 <= i < r - 1 && i != SLOT_SP ==> ctx@[i] == old(hart)@.x[i + 1],
        decreases GPR_COUNT - r,
    {
        if r != REG_SP {
            ctx.set_slot(r - 1, hart.x[r]);
        }
        r += 1;
    }
    ctx.set_slot(SLOT_SP, hart.sscratch);
    ctx.set_slot(SLOT_SSTATUS, hart.sstatus);
    ctx.set_slot(SLOT_SEPC, hart.sepc);
    hart.stvec = TrapVector::KernelTrap;
    assert(ctx@ =~= saved_frame(old(hart)@));
    assert(hart@ == entered(old(hart)@));
    ctx
}

/// Reloads `hart` from context block `ctx` and prepares the return to the
/// interrupted program: the status CSR, the saved program counter and the
/// scratch CSR are loaded from the block, the trap-delivery target becomes
/// the entry trampoline, every register but `x0` and `x2` is loaded, the
/// block is released, and the stack pointer and the scratch CSR are
/// exchanged. What remains is `sret`, see [`Hart::privileged_return`].
pub fn restore_trap(hart: &mut Hart, ctx: &TrapContext)
    requires
        old(hart).wf(),
    ensures
        final(hart)@ == restored(old(hart)@, ctx@),
        final(hart).wf(),
{
    hart.sstatus = ctx.slot(SLOT_SSTATUS);
    hart.sepc = ctx.slot(SLOT_SEPC);
    hart.sscratch = ctx.slot(SLOT_SP);
    hart.stvec = TrapVector::TrapEntry;
    let frame_sp = hart.x[REG_SP];
    let mut r: usize = 1;
    while r < GPR_COUNT
        invariant
            1 <= r <= GPR_COUNT,
            old(hart)@.wf(),
            hart@.x.len() == GPR_COUNT,
            hart@.x[0] == 0,
            hart@.x[REG_SP as int] == frame_sp,
            frame_sp == old(hart)@.x[REG_SP as int],
            hart.sstatus == ctx@[SLOT_SSTATUS as int],
            hart.sepc == ctx@[SLOT_SEPC as int],
            hart.sscratch == ctx@[SLOT_SP as int],
            hart.stvec == TrapVector::TrapEntry,
            forall|j: int| 1 <= j < r && j != REG_SP ==> hart@.x[j] == ctx@[j - 1],
        decreases GPR_COUNT - r,
    {
        if r != REG_SP {
            hart.x[r] = ctx.slot(r - 1);
        }
        r += 1;
    }
    hart.x[REG_SP] = frame_sp.wrapping_add(FRAME_BYTES);
    let parked = hart.sscratch;
    hart.sscratch = hart.x[REG_SP];
    hart.x[REG_SP] = parked;
    assert(hart@.x =~= restored(old(hart)@, ctx@).x);
}

impl Hart {
    /// Where `sret` resumes: at the saved program counter, in the privilege
    /// level named by the status CSR's previous-privilege field.
    pub fn privileged_return(&self) -> (p: ResumePoint)
        ensures
            p == (ResumePoint { privilege: previous_privilege(self.sstatus), pc: self.sepc }),
    {
        ResumePoint { privilege: previous_privilege_of(self.sstatus), pc: self.sepc }
    }
}

/// Saving a trapped hart with [`trap_entry`] and reloading it with
/// [`restore_trap`] from the saved block, with no change to the block in
/// between, gives back every general-purpose register, the status CSR, the
/// saved program counter and the scratch CSR bit for bit. Whatever the
/// dispatcher did to the hart meanwhile does not matter, as long as it
/// handed back the stack pointer that points at the block. Traps then go to
/// the entry trampoline.
pub proof fn lemma_round_trip(h: HartView, mid: HartView)
    requires
        h.wf(),
        mid.wf(),
        mid.x[REG_SP as int] == entered(h).x[REG_SP as int],
    ensures
        restored(mid, saved_frame(h)) == (HartView { stvec: TrapVector::TrapEntry, ..h }),
{
    let back = restored(mid, saved_frame(h));
    assert(back.x =~= h.x);
}

/// While a trap is dispatched, that is from the end of [`trap_entry`] on,
/// traps go to the kernel handler; once [`restore_trap`] has run, just
/// before `sret`, they go to the entry trampoline.
pub proof fn lemma_trap_vector(h: HartView, mid: HartView, frame: Seq<usize>)
    ensures
        entered(h).stvec == TrapVector::KernelTrap,
        restored(mid, frame).stvec == TrapVector::TrapEntry,
{
}

/// Resuming a freshly built context enters user mode at the application's
/// entry point, with its stack pointer and its id in the thread pointer.
pub proof fn lemma_fresh_context_resumes_in_user_mode(
    h: HartView,
    entry: usize,
    app_id: usize,
    sp: usize,
    status: usize,
)
    requires
        h.wf(),
    ensures
        ({
            let resumed = restored(h, initial_context(entry, app_id, sp, status)@);
            &&& previous_privilege(resumed.sstatus) == Privilege::User
            &&& resumed.sepc == entry
            &&& resumed.x[REG_SP as int] == sp
            &&& resumed.x[4] == app_id
        }),
{
    let s = status;
    assert((s & !0x100usize) & 0x100 == 0) by (bit_vector);
}

} // verus!
