use vstd::prelude::*;

verus! {

/// The `SPP` bit of `sstatus`: the privilege level that was active before
/// the most recent trap, and that `sret` returns to.
pub const SSTATUS_SPP: usize = 0x100;

/// A privilege level of the hart.
#[derive(Clone, Copy, Debug, PartialEq, Eq, Structural)]
pub enum Privilege {
    User,
    Supervisor,
}

/// The privilege level that `sret` returns to for status word `s`.
pub open spec fn previous_privilege(s: usize) -> Privilege {
    if s & SSTATUS_SPP == 0 {
        Privilege::User
    } else {
        Privilege::Supervisor
    }
}

/// Status word `s` with its previous-privilege field set to user mode and
/// every other bit kept.
pub open spec fn user_return_status(s: usize) -> usize {
    s & !SSTATUS_SPP
}

/// Sets the previous-privilege field of a status word to user mode.
pub fn with_user_spp(s: usize) -> (r: usize)
    ensures
        r == user_return_status(s),
        previous_privilege(r) == Privilege::User,
{
    let r = s & !SSTATUS_SPP;
    assert(r & 0x100 == 0) by (bit_vector)
        requires r == s & !0x100usize;
    r
}

/// Reads the previous-privilege field of a status word.
pub fn previous_privilege_of(s: usize) -> (p: Privilege)
    ensures
        p == previous_privilege(s),
{
    if s & SSTATUS_SPP == 0 {
        Privilege::User
    } else {
        Privilege::Supervisor
    }
}

} // verus!
