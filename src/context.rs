use vstd::prelude::*;
use crate::layout::CONTEXT_WORDS;
use crate::status::{user_return_status, with_user_spp};

verus! {

/// One hart's state at a privilege crossing, in the fixed order in which the
/// trampolines save it: `x1`, the user stack pointer, `x3` to `x31`, then the
/// status CSR and the saved program counter.
#[derive(Clone, Copy, Debug, PartialEq, Eq, Structural)]
pub struct TrapContext {
    pub ra: usize,
    pub sp: usize,
    pub gp: usize,
    pub tp: usize,
    pub t0: usize,
    pub t1: usize,
    pub t2: usize,
    pub s0: usize,
    pub s1: usize,
    pub a0: usize,
    pub a1: usize,
    pub a2: usize,
    pub a3: usize,
    pub a4: usize,
    pub a5: usize,
    pub a6: usize,
    pub a7: usize,
    pub s2: usize,
    pub s3: usize,
    pub s4: usize,
    pub s5: usize,
    pub s6: usize,
    pub s7: usize,
    pub s8: usize,
    pub s9: usize,
    pub s10: usize,
    pub s11: usize,
    pub t3: usize,
    pub t4: usize,
    pub t5: usize,
    pub t6: usize,
    pub sstatus: usize,
    pub sepc: usize,
}

impl View for TrapContext {
    type V = Seq<usize>;

    /// The context as the block of words that the trampolines address by offset.
    open spec fn view(&self) -> Seq<usize> {
        seq![
            self.ra, self.sp, self.gp, self.tp, self.t0, self.t1, self.t2, self.s0,
            self.s1, self.a0, self.a1, self.a2, self.a3, self.a4, self.a5, self.a6,
            self.a7, self.s2, self.s3, self.s4, self.s5, self.s6, self.s7, self.s8,
            self.s9, self.s10, self.s11, self.t3, self.t4, self.t5, self.t6,
            self.sstatus, self.sepc,
        ]
    }
}

/// The context a fresh application starts from: every register slot zero but
/// the stack pointer and the thread pointer, which carries the application
/// id; the program counter at `entry`; and the status word `status` with its
/// previous-privilege field set to user mode.
pub open spec fn initial_context(entry: usize, app_id: usize, sp: usize, status: usize) -> TrapContext {
    TrapContext {
        ra: 0, sp: sp, gp: 0, tp: app_id, t0: 0, t1: 0, t2: 0, s0: 0, s1: 0,
        a0: 0, a1: 0, a2: 0, a3: 0, a4: 0, a5: 0, a6: 0, a7: 0,
        s2: 0, s3: 0, s4: 0, s5: 0, s6: 0, s7: 0, s8: 0, s9: 0, s10: 0, s11: 0,
        t3: 0, t4: 0, t5: 0, t6: 0,
        sstatus: user_return_status(status),
        sepc: entry,
    }
}

impl TrapContext {
    /// A context with every word zero.
    pub fn zeroed() -> (r: Self)
        ensures
            r@ == Seq::new(CONTEXT_WORDS as nat, |i: int| 0usize),
    {
        let r = TrapContext {
            ra: 0, sp: 0, gp: 0, tp: 0, t0: 0, t1: 0, t2: 0, s0: 0, s1: 0,
            a0: 0, a1: 0, a2: 0, a3: 0, a4: 0, a5: 0, a6: 0, a7: 0,
            s2: 0, s3: 0, s4: 0, s5: 0, s6: 0, s7: 0, s8: 0, s9: 0, s10: 0, s11: 0,
            t3: 0, t4: 0, t5: 0, t6: 0, sstatus: 0, sepc: 0,
        };
        assert(r@ =~= Seq::new(CONTEXT_WORDS as nat, |i: int| 0usize));
        r
    }

    /// Builds the context that application `app_id` starts from: entry point
    /// `entry`, initial stack pointer `sp`, and the current status word
    /// `status`, whose previous-privilege field is set to user mode so that
    /// the first `sret` drops to user mode.
    pub fn app_init_context(entry: usize, app_id: usize, sp: usize, status: usize) -> (r: Self)
        ensures
            r == initial_context(entry, app_id, sp, status),
    {
        let mut ctx = TrapContext::zeroed();
        ctx.sstatus = with_user_spp(status);
        ctx.sepc = entry;
        ctx.sp = sp;
        ctx.tp = app_id;
        ctx
    }

    /// The word at offset `i` of the context block.
    pub fn slot(&self, i: usize) -> (w: usize)
        requires
            i < CONTEXT_WORDS,
        ensures
            w == self@[i as int],
    {
        match i {
            0 => self.ra, 1 => self.sp, 2 => self.gp, 3 => self.tp,
            4 => self.t0, 5 => self.t1, 6 => self.t2, 7 => self.s0,
            8 => self.s1, 9 => self.a0, 10 => self.a1, 11 => self.a2,
            12 => self.a3, 13 => self.a4, 14 => self.a5, 15 => self.a6,
            16 => self.a7, 17 => self.s2, 18 => self.s3, 19 => self.s4,
            20 => self.s5, 21 => self.s6, 22 => self.s7, 23 => self.s8,
            24 => self.s9, 25 => self.s10, 26 => self.s11, 27 => self.t3,
            28 => self.t4, 29 => self.t5, 30 => self.t6, 31 => self.sstatus,
            _ => self.sepc,
        }
    }

    /// Stores `w` at offset `i` of the context block, leaving every other
    /// word as it was.
    pub fn set_slot(&mut self, i: usize, w: usize)
        requires
            i < CONTEXT_WORDS,
        ensures
            final(self)@ == old(self)@.update(i as int, w),
    {
        match i {
            0 => self.ra = w, 1 => self.sp = w, 2 => self.gp = w, 3 => self.tp = w,
            4 => self.t0 = w, 5 => self.t1 = w, 6 => self.t2 = w, 7 => self.s0 = w,
            8 => self.s1 = w, 9 => self.a0 = w, 10 => self.a1 = w, 11 => self.a2 = w,
            12 => self.a3 = w, 13 => self.a4 = w, 14 => self.a5 = w, 15 => self.a6 = w,
            16 => self.a7 = w, 17 => self.s2 = w, 18 => self.s3 = w, 19 => self.s4 = w,
            20 => self.s5 = w, 21 => self.s6 = w, 22 => self.s7 = w, 23 => self.s8 = w,
            24 => self.s9 = w, 25 => self.s10 = w, 26 => self.s11 = w, 27 => self.t3 = w,
            28 => self.t4 = w, 29 => self.t5 = w, 30 => self.t6 = w, 31 => self.sstatus = w,
            _ => self.sepc = w,
        }
        assert(self@ =~= old(self)@.update(i as int, w));
    }
}

/// Two contexts built from the same entry point, application id, stack
/// pointer and status word are the same, field for field.
pub proof fn lemma_init_deterministic(
    c1: TrapContext,
    c2: TrapContext,
    entry: usize,
    app_id: usize,
    sp: usize,
    status: usize,
)
    requires
        c1 == initial_context(entry, app_id, sp, status),
        c2 == initial_context(entry, app_id, sp, status),
    ensures
        c1 == c2,
        c1@ == c2@,
{
}

} // verus!
