//! The first layout of the HP/ULP lock, where the turn is a single
//! `is_ulp_turn` bit. It runs the same protocol as [`crate::locks::UlpLock`]:
//! its view is that lock, with `is_ulp_turn` standing for the ULP core's turn.

use vstd::prelude::*;
use crate::locks::{self, Core, LockAccess, LockAcquire, LockTurn, LockValue};

verus! {

/// The lock in shared memory: one flag per core and the turn bit.
#[derive(Clone, Copy, Debug)]
pub struct UlpLock {
    pub flag_ulp: bool,
    pub flag_hp: bool,
    pub is_ulp_turn: bool,
}

impl View for UlpLock {
    type V = locks::UlpLock;

    open spec fn view(&self) -> locks::UlpLock {
        locks::UlpLock {
            flag_ulp: self.flag_ulp,
            flag_hp: self.flag_hp,
            turn: if self.is_ulp_turn { LockTurn::Ulp } else { LockTurn::Hp },
        }
    }
}

impl UlpLock {
    /// The lock at start-up: all bits clear.
    pub fn new() -> (r: Self)
        ensures
            !r.flag_ulp && !r.flag_hp && !r.is_ulp_turn,
            r@ == locks::UlpLock::initial(),
    {
        UlpLock { flag_ulp: false, flag_hp: false, is_ulp_turn: false }
    }

    /// Starts acquiring the lock for `side`; the returned machine names each
    /// access in turn and blocks (backs off) until the lock is free.
    pub fn acquire(side: Core) -> (r: LockAcquire)
        ensures
            r.side == side,
            r.phase == locks::AcquirePhase::RaiseFlag,
    {
        LockAcquire::new(side)
    }

    /// Releases the lock on behalf of `side`: lowers its flag, and nothing else.
    pub fn release(&mut self, side: Core)
        ensures
            final(self)@ == old(self)@.with_flag(side, false),
            final(self).is_ulp_turn == old(self).is_ulp_turn,
    {
        ulp_riscv_lock_release(self, side);
    }

    /// Clears both flags and the turn bit.
    pub fn reset(&mut self)
        ensures
            !final(self).flag_ulp && !final(self).flag_hp && !final(self).is_ulp_turn,
    {
        self.flag_hp = false;
        self.flag_ulp = false;
        self.is_ulp_turn = false;
    }

    /// The lock after `side` performed `access`: a flag write sets the own
    /// flag, a turn write sets the bit for the ULP core's turn, reads change
    /// nothing.
    pub open spec fn after_access(self, side: Core, access: LockAccess) -> UlpLock {
        match access {
            LockAccess::WriteFlag(b) => match side {
                Core::Hp => UlpLock { flag_hp: b, ..self },
                Core::Ulp => UlpLock { flag_ulp: b, ..self },
            },
            LockAccess::WriteTurn(t) => UlpLock { is_ulp_turn: t == LockTurn::Ulp, ..self },
            _ => self,
        }
    }

    /// Performs one access of `side` on the lock.
    pub fn perform(&mut self, side: Core, access: LockAccess) -> (v: LockValue)
        ensures
            *final(self) == old(self).after_access(side, access),
            final(self)@ == old(self)@.after_access(side, access),
            v == old(self)@.access_value(side, access),
    {
        match access {
            LockAccess::WriteFlag(b) => {
                match side {
                    Core::Hp => { self.flag_hp = b; },
                    Core::Ulp => { self.flag_ulp = b; },
                }
                LockValue::Written
            },
            LockAccess::WriteTurn(t) => {
                self.is_ulp_turn = t == LockTurn::Ulp;
                LockValue::Written
            },
            LockAccess::ReadOtherFlag => {
                match side {
                    Core::Hp => LockValue::Flag(self.flag_ulp),
                    Core::Ulp => LockValue::Flag(self.flag_hp),
                }
            },
            LockAccess::ReadTurn => {
                if self.is_ulp_turn {
                    LockValue::Turn(LockTurn::Ulp)
                } else {
                    LockValue::Turn(LockTurn::Hp)
                }
            },
        }
    }
}

/// This layout runs the same protocol as the turn-typed lock: every access
/// moves the view exactly as it moves the turn-typed lock, and reads the same
/// values. So what is proved of the protocol on that lock (mutual exclusion)
/// holds of this one.
pub proof fn lemma_layout_simulates(lock: UlpLock, side: Core, access: LockAccess)
    ensures
        lock.after_access(side, access)@ == lock@.after_access(side, access),
{
}

/// Lowers the flag of `side`.
pub fn ulp_riscv_lock_release(lock: &mut UlpLock, side: Core)
    ensures
        final(lock)@ == old(lock)@.with_flag(side, false),
        final(lock).is_ulp_turn == old(lock).is_ulp_turn,
{
    match side {
        Core::Hp => { lock.flag_hp = false; },
        Core::Ulp => { lock.flag_ulp = false; },
    }
}

} // verus!
