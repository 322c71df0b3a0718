//! Peterson's two-party lock shared between the HP core and the ULP core.
//!
//! The lock lives in memory that both cores read and write. Acquiring it is a
//! sequence of single-field memory accesses interleaved with the other core's
//! accesses, so the acquisition is modelled as a state machine
//! ([`LockAcquire`]): it names the next access to perform ([`LockAccess`]) and
//! is advanced with the value that the access produced ([`LockValue`]).

use vstd::prelude::*;

verus! {

/// Which of the two processors runs a piece of code.
#[derive(Clone, Copy, Debug, PartialEq, Eq, Structural)]
pub enum Core {
    Hp,
    Ulp,
}

/// Whose turn it is to enter the critical section when both want it.
#[derive(Clone, Copy, Debug, PartialEq, Eq, Structural)]
pub enum LockTurn {
    Hp,
    Ulp,
}

impl Core {
    pub open spec fn spec_other(self) -> Core {
        match self {
            Core::Hp => Core::Ulp,
            Core::Ulp => Core::Hp,
        }
    }

    /// The turn value that lets this core through when both flags are raised.
    pub open spec fn spec_turn(self) -> LockTurn {
        match self {
            Core::Hp => LockTurn::Hp,
            Core::Ulp => LockTurn::Ulp,
        }
    }

    /// The other processor.
    pub fn other(&self) -> (r: Core)
        ensures
            r == self.spec_other(),
    {
        match self {
            Core::Hp => Core::Ulp,
            Core::Ulp => Core::Hp,
        }
    }

    /// The turn value that favours this processor.
    pub fn turn(&self) -> (r: LockTurn)
        ensures
            r == self.spec_turn(),
    {
        match self {
            Core::Hp => LockTurn::Hp,
            Core::Ulp => LockTurn::Ulp,
        }
    }
}

/// The lock as it is laid out in shared memory: one "wants to enter" flag per
/// core and the turn.
#[derive(Clone, Copy, Debug)]
pub struct UlpLock {
    pub flag_ulp: bool,
    pub flag_hp: bool,
    pub turn: LockTurn,
}

/// One atomic access of a core to the lock: write its own flag, write the
/// turn, read the other core's flag, or read the turn.
#[derive(Clone, Copy, Debug, PartialEq, Eq, Structural)]
pub enum LockAccess {
    WriteFlag(bool),
    WriteTurn(LockTurn),
    ReadOtherFlag,
    ReadTurn,
}

/// What an access produced: nothing for a write, the value read for a read.
#[derive(Clone, Copy, Debug, PartialEq, Eq, Structural)]
pub enum LockValue {
    Written,
    Flag(bool),
    Turn(LockTurn),
}

impl UlpLock {
    /// The lock at start-up: no core wants it and the turn is the HP core's.
    pub open spec fn initial() -> UlpLock {
        UlpLock { flag_ulp: false, flag_hp: false, turn: LockTurn::Hp }
    }

    /// The lock at start-up: no core wants it and the turn is the HP core's.
    pub fn new() -> (r: Self)
        ensures
            r == UlpLock::initial(),
    {
        UlpLock { flag_ulp: false, flag_hp: false, turn: LockTurn::Hp }
    }

    /// The flag that `c` raises when it wants the lock.
    pub open spec fn flag_of(self, c: Core) -> bool {
        match c {
            Core::Hp => self.flag_hp,
            Core::Ulp => self.flag_ulp,
        }
    }

    /// The lock after `c` has written `v` into its own flag.
    pub open spec fn with_flag(self, c: Core, v: bool) -> UlpLock {
        match c {
            Core::Hp => UlpLock { flag_hp: v, ..self },
            Core::Ulp => UlpLock { flag_ulp: v, ..self },
        }
    }

    /// The lock after `side` performed `access`.
    pub open spec fn after_access(self, side: Core, access: LockAccess) -> UlpLock {
        match access {
            LockAccess::WriteFlag(v) => self.with_flag(side, v),
            LockAccess::WriteTurn(t) => UlpLock { turn: t, ..self },
            _ => self,
        }
    }

    /// What `access` by `side` yields on this lock.
    pub open spec fn access_value(self, side: Core, access: LockAccess) -> LockValue {
        match access {
            LockAccess::ReadOtherFlag => LockValue::Flag(self.flag_of(side.spec_other())),
            LockAccess::ReadTurn => LockValue::Turn(self.turn),
            _ => LockValue::Written,
        }
    }

    /// Performs one access of `side` on the lock.
    pub fn perform(&mut self, side: Core, access: LockAccess) -> (v: LockValue)
        ensures
            *final(self) == old(self).after_access(side, access),
            v == old(self).access_value(side, access),
    {
        match access {
            LockAccess::WriteFlag(b) => {
                match side {
                    Core::Hp => { self.flag_hp = b; },
                    Core::Ulp => { self.flag_ulp = b; },
                }
                LockValue::Written
            },
            LockAccess::WriteTurn(t) => {
                self.turn = t;
                LockValue::Written
            },
            LockAccess::ReadOtherFlag => {
                match side {
                    Core::Hp => LockValue::Flag(self.flag_ulp),
                    Core::Ulp => LockValue::Flag(self.flag_hp),
                }
            },
            LockAccess::ReadTurn => LockValue::Turn(self.turn),
        }
    }
}

/// Releases the lock on behalf of `side`: lowers its flag, and nothing else.
pub fn ulp_riscv_lock_release(lock: &mut UlpLock, side: Core)
    ensures
        *final(lock) == old(lock).with_flag(side, false),
{
    match side {
        Core::Hp => { lock.flag_hp = false; },
        Core::Ulp => { lock.flag_ulp = false; },
    }
}

/// Where an acquisition stands.
#[derive(Clone, Copy, Debug, PartialEq, Eq, Structural)]
pub enum AcquirePhase {
    /// About to raise the own flag.
    RaiseFlag,
    /// About to give the turn to the other core.
    GiveTurn,
    /// About to read the other core's flag.
    CheckFlag,
    /// The other flag was raised; about to read the turn.
    CheckTurn,
    /// Both checks said "wait": one round of busy waiting is due before the
    /// next check, or the caller gives up.
    Backoff,
    /// The lock is held.
    Acquired,
    /// The caller gave up waiting; the own flag stays raised.
    Aborted,
}

/// One core's acquisition of the lock, one memory access at a time:
/// raise the own flag, give the turn away, then wait while the other core's
/// flag is raised and the turn is the other core's.
#[derive(Clone, Copy, Debug)]
pub struct LockAcquire {
    pub side: Core,
    pub phase: AcquirePhase,
}

/// The access that `side` performs next in `phase`, if any.
pub open spec fn phase_access(side: Core, phase: AcquirePhase) -> Option<LockAccess> {
    match phase {
        AcquirePhase::RaiseFlag => Some(LockAccess::WriteFlag(true)),
        AcquirePhase::GiveTurn => Some(LockAccess::WriteTurn(side.spec_other().spec_turn())),
        AcquirePhase::CheckFlag => Some(LockAccess::ReadOtherFlag),
        AcquirePhase::CheckTurn => Some(LockAccess::ReadTurn),
        _ => None,
    }
}

/// The phase that follows `phase` once its access produced `v`.
pub open spec fn phase_after(side: Core, phase: AcquirePhase, v: LockValue) -> AcquirePhase {
    match phase {
        AcquirePhase::RaiseFlag => AcquirePhase::GiveTurn,
        AcquirePhase::GiveTurn => AcquirePhase::CheckFlag,
        AcquirePhase::CheckFlag => match v {
            LockValue::Flag(true) => AcquirePhase::CheckTurn,
            LockValue::Flag(false) => AcquirePhase::Acquired,
            _ => AcquirePhase::CheckFlag,
        },
        AcquirePhase::CheckTurn => match v {
            LockValue::Turn(t) => if t == side.spec_other().spec_turn() {
                AcquirePhase::Backoff
            } else {
                AcquirePhase::Acquired
            },
            _ => AcquirePhase::CheckTurn,
        },
        _ => phase,
    }
}

/// The phase and the lock after `side`, in `phase`, performs the access the
/// phase names (both unchanged when it names none).
pub open spec fn acquire_step(side: Core, phase: AcquirePhase, lock: UlpLock) -> (AcquirePhase, UlpLock) {
    match phase_access(side, phase) {
        Some(a) => (phase_after(side, phase, lock.access_value(side, a)), lock.after_access(side, a)),
        None => (phase, lock),
    }
}

/// Without contention the lock is taken at once: when the other core's flag
/// stays down, a fresh acquisition holds the lock after its three accesses
/// (raise the own flag, give the turn away, see the other flag down), with the
/// own flag raised and the turn given to the other core.
pub proof fn lemma_acquire_uncontended(lock: UlpLock, side: Core)
    requires
        !lock.flag_of(side.spec_other()),
    ensures
        ({
            let (p1, l1) = acquire_step(side, AcquirePhase::RaiseFlag, lock);
            let (p2, l2) = acquire_step(side, p1, l1);
            let (p3, l3) = acquire_step(side, p2, l2);
            &&& p3 == AcquirePhase::Acquired
            &&& l3.flag_of(side)
            &&& !l3.flag_of(side.spec_other())
            &&& l3.turn == side.spec_other().spec_turn()
        }),
{
}

impl LockAcquire {
    /// Starts an acquisition by `side`.
    pub fn new(side: Core) -> (r: Self)
        ensures
            r.side == side,
            r.phase == AcquirePhase::RaiseFlag,
    {
        LockAcquire { side, phase: AcquirePhase::RaiseFlag }
    }

    /// The access to perform next; `None` when the acquisition waits for the
    /// caller (backoff) or is over.
    pub fn pending_access(&self) -> (r: Option<LockAccess>)
        ensures
            r == phase_access(self.side, self.phase),
    {
        match self.phase {
            AcquirePhase::RaiseFlag => Some(LockAccess::WriteFlag(true)),
            AcquirePhase::GiveTurn => Some(LockAccess::WriteTurn(self.side.other().turn())),
            AcquirePhase::CheckFlag => Some(LockAccess::ReadOtherFlag),
            AcquirePhase::CheckTurn => Some(LockAccess::ReadTurn),
            _ => None,
        }
    }

    /// Takes in what the pending access produced.
    pub fn advance(&mut self, v: LockValue)
        ensures
            final(self).side == old(self).side,
            final(self).phase == phase_after(old(self).side, old(self).phase, v),
    {
        let other_turn = self.side.other().turn();
        match self.phase {
            AcquirePhase::RaiseFlag => { self.phase = AcquirePhase::GiveTurn; },
            AcquirePhase::GiveTurn => { self.phase = AcquirePhase::CheckFlag; },
            AcquirePhase::CheckFlag => {
                match v {
                    LockValue::Flag(true) => { self.phase = AcquirePhase::CheckTurn; },
                    LockValue::Flag(false) => { self.phase = AcquirePhase::Acquired; },
                    _ => {},
                }
            },
            AcquirePhase::CheckTurn => {
                match v {
                    LockValue::Turn(t) => {
                        if t == other_turn {
                            self.phase = AcquirePhase::Backoff;
                        } else {
                            self.phase = AcquirePhase::Acquired;
                        }
                    },
                    _ => {},
                }
            },
            _ => {},
        }
    }

    /// Performs the pending access, if any, on `lock` and advances.
    pub fn step(&mut self, lock: &mut UlpLock)
        ensures
            final(self).side == old(self).side,
            match phase_access(old(self).side, old(self).phase) {
                Some(a) => {
                    &&& *final(lock) == old(lock).after_access(old(self).side, a)
                    &&& final(self).phase == phase_after(
                        old(self).side,
                        old(self).phase,
                        old(lock).access_value(old(self).side, a),
                    )
                },
                None => *final(lock) == *old(lock) && *final(self) == *old(self),
            },
    {
        match self.pending_access() {
            Some(a) => {
                let v = lock.perform(self.side, a);
                self.advance(v);
            },
            None => {},
        }
    }

    /// After a round of busy waiting, checks again.
    pub fn retry(&mut self)
        ensures
            final(self).side == old(self).side,
            final(self).phase == if old(self).phase == AcquirePhase::Backoff {
                AcquirePhase::CheckFlag
            } else {
                old(self).phase
            },
    {
        if self.phase == AcquirePhase::Backoff {
            self.phase = AcquirePhase::CheckFlag;
        }
    }

    /// Stops waiting: the acquisition ends without the lock.
    pub fn give_up(&mut self)
        ensures
            final(self).side == old(self).side,
            final(self).phase == if old(self).phase == AcquirePhase::Backoff {
                AcquirePhase::Aborted
            } else {
                old(self).phase
            },
    {
        if self.phase == AcquirePhase::Backoff {
            self.phase = AcquirePhase::Aborted;
        }
    }

    /// Whether the lock is held.
    pub fn is_acquired(&self) -> (r: bool)
        ensures
            r == (self.phase == AcquirePhase::Acquired),
    {
        self.phase == AcquirePhase::Acquired
    }

    /// Whether the acquisition waits for the caller to retry or give up.
    pub fn is_backing_off(&self) -> (r: bool)
        ensures
            r == (self.phase == AcquirePhase::Backoff),
    {
        self.phase == AcquirePhase::Backoff
    }
}

/// An acquisition that counts its busy-wait rounds and lets the caller give
/// up after any round: `Ok(rounds)` once the lock is held, `Err(rounds)` when
/// the caller gave up.
#[derive(Clone, Copy, Debug)]
pub struct LockAttempt {
    pub acquire: LockAcquire,
    pub tries: usize,
}

/// Starts acquiring the lock for `side`, counting busy-wait rounds.
pub fn ulp_riscv_lock_acquire(side: Core) -> (r: LockAttempt)
    ensures
        r.acquire.side == side,
        r.acquire.phase == AcquirePhase::RaiseFlag,
        r.tries == 0,
{
    LockAttempt { acquire: LockAcquire::new(side), tries: 0 }
}

impl LockAttempt {
    /// The access to perform next, if any.
    pub fn pending_access(&self) -> (r: Option<LockAccess>)
        ensures
            r == phase_access(self.acquire.side, self.acquire.phase),
    {
        self.acquire.pending_access()
    }

    /// Takes in what the pending access produced.
    pub fn advance(&mut self, v: LockValue)
        ensures
            final(self).acquire.side == old(self).acquire.side,
            final(self).acquire.phase == phase_after(old(self).acquire.side, old(self).acquire.phase, v),
            final(self).tries == old(self).tries,
    {
        self.acquire.advance(v);
    }

    /// A busy-wait round is due: counts it and returns the new count, which
    /// the caller hands to its callback.
    pub fn begin_wait_round(&mut self) -> (n: usize)
        requires
            old(self).acquire.phase == AcquirePhase::Backoff,
            old(self).tries < usize::MAX,
        ensures
            n == old(self).tries + 1,
            final(self).tries == n,
            final(self).acquire == old(self).acquire,
    {
        self.tries = self.tries + 1;
        self.tries
    }

    /// Ends a busy-wait round: gives up when `abort`, else checks again.
    pub fn end_wait_round(&mut self, abort: bool)
        requires
            old(self).acquire.phase == AcquirePhase::Backoff,
        ensures
            final(self).tries == old(self).tries,
            final(self).acquire.side == old(self).acquire.side,
            final(self).acquire.phase == if abort { AcquirePhase::Aborted } else { AcquirePhase::CheckFlag },
    {
        if abort {
            self.acquire.give_up();
        } else {
            self.acquire.retry();
        }
    }

    /// `Ok(rounds)` once the lock is held, `Err(rounds)` once given up,
    /// `None` while the acquisition goes on.
    pub fn outcome(&self) -> (r: Option<Result<usize, usize>>)
        ensures
            r == if self.acquire.phase == AcquirePhase::Acquired {
                Some(Ok::<usize, usize>(self.tries))
            } else if self.acquire.phase == AcquirePhase::Aborted {
                Some(Err::<usize, usize>(self.tries))
            } else {
                None::<Result<usize, usize>>
            },
    {
        match self.acquire.phase {
            AcquirePhase::Acquired => Some(Ok(self.tries)),
            AcquirePhase::Aborted => Some(Err(self.tries)),
            _ => None,
        }
    }
}

/// The lock as `side` finds it after the other core has written what it may
/// write, its own flag and the turn, to the values in `seen`.
pub open spec fn interleave(lock: UlpLock, side: Core, seen: UlpLock) -> UlpLock {
    match side {
        Core::Hp => UlpLock { flag_ulp: seen.flag_ulp, turn: seen.turn, ..lock },
        Core::Ulp => UlpLock { flag_hp: seen.flag_hp, turn: seen.turn, ..lock },
    }
}

/// The attempt `a` after it enters `phase`, with `tries` rounds counted.
pub open spec fn attempt_at(a: LockAttempt, phase: AcquirePhase, tries: usize) -> LockAttempt {
    LockAttempt { acquire: LockAcquire { side: a.acquire.side, phase }, tries }
}

/// One step of a call of `ulp_riscv_lock_acquire` whose busy-loop callback
/// answers `stop`: the pending access is performed on `lock`, or, when a
/// busy-wait round is due, the round is counted, the callback is called with
/// the new count (the third component lists that call), and the attempt gives
/// up if it answers `true` and checks again otherwise.
pub open spec fn call_step(a: LockAttempt, lock: UlpLock, stop: spec_fn(nat) -> bool) -> (
    LockAttempt,
    UlpLock,
    Seq<nat>,
) {
    let side = a.acquire.side;
    let phase = a.acquire.phase;
    match phase_access(side, phase) {
        Some(acc) => (
            attempt_at(a, phase_after(side, phase, lock.access_value(side, acc)), a.tries),
            lock.after_access(side, acc),
            Seq::empty(),
        ),
        None => if phase == AcquirePhase::Backoff {
            let n = (a.tries + 1) as usize;
            (
                attempt_at(
                    a,
                    if stop(n as nat) {
                        AcquirePhase::Aborted
                    } else {
                        AcquirePhase::CheckFlag
                    },
                    n,
                ),
                lock,
                seq![n as nat],
            )
        } else {
            (a, lock, Seq::empty())
        },
    }
}

/// A call of `ulp_riscv_lock_acquire` from attempt `a` on `lock`, one step per
/// entry of `others`: before each step the other core has written its flag and
/// the turn as that entry holds them. Gives the attempt, the lock, and the
/// arguments of the callback calls in the order they were made.
pub open spec fn call_run(a: LockAttempt, lock: UlpLock, stop: spec_fn(nat) -> bool, others: Seq<UlpLock>) -> (
    LockAttempt,
    UlpLock,
    Seq<nat>,
)
    decreases others.len(),
{
    if others.len() == 0 {
        (a, lock, Seq::empty())
    } else {
        let (a1, l1, c1) = call_run(a, lock, stop, others.drop_last());
        let (a2, l2, c2) = call_step(a1, interleave(l1, a1.acquire.side, others.last()), stop);
        (a2, l2, c1 + c2)
    }
}

/// A fresh acquisition by `side`.
pub open spec fn fresh_attempt(side: Core) -> LockAttempt {
    LockAttempt { acquire: LockAcquire { side, phase: AcquirePhase::RaiseFlag }, tries: 0 }
}

/// A whole call of `ulp_riscv_lock_acquire`, whatever the other core writes
/// meanwhile: the callback is called with 1, 2, ..., k in that order, k being
/// the rounds counted; every call but the last answered `false`; the call gives
/// up (`Err(k)`) exactly when k is at least one and the k-th call answered
/// `true`; it holds the lock (`Ok(k)`) only when every call answered `false`;
/// and from its first access on, the caller's own flag stays raised, also when
/// it gives up.
pub proof fn lemma_acquire_call(side: Core, lock: UlpLock, stop: spec_fn(nat) -> bool, others: Seq<UlpLock>)
    requires
        others.len() < usize::MAX,
    ensures
        ({
            let (a, l, calls) = call_run(fresh_attempt(side), lock, stop, others);
            &&& a.acquire.side == side
            &&& a.tries <= others.len()
            &&& calls == Seq::new(a.tries as nat, |i: int| (i + 1) as nat)
            &&& forall|n: nat| 1 <= n < a.tries ==> !#[trigger] stop(n)
            &&& (a.acquire.phase == AcquirePhase::Aborted <==> (a.tries >= 1 && stop(a.tries as nat)))
            &&& (a.acquire.phase == AcquirePhase::Acquired ==> forall|n: nat|
                1 <= n <= a.tries ==> !#[trigger] stop(n))
            &&& (a.acquire.phase == AcquirePhase::RaiseFlag || a.acquire.phase
                == AcquirePhase::GiveTurn ==> a.tries == 0)
            &&& (a.acquire.phase != AcquirePhase::RaiseFlag ==> l.flag_of(side))
        }),
    decreases others.len(),
{
    if others.len() > 0 {
        let pre = others.drop_last();
        lemma_acquire_call(side, lock, stop, pre);
        let (a1, l1, c1) = call_run(fresh_attempt(side), lock, stop, pre);
        let l = interleave(l1, side, others.last());
        let (a2, l2, c2) = call_step(a1, l, stop);
        if a1.acquire.phase == AcquirePhase::Backoff {
            assert(c1 + c2 =~= Seq::new(a2.tries as nat, |i: int| (i + 1) as nat));
        } else {
            assert(c1 + c2 =~= c1);
        }
    }
}

/// The values that the reads of a call (of the other core's flag or of the
/// turn) gave, in the order they were made.
pub open spec fn call_reads(a: LockAttempt, lock: UlpLock, stop: spec_fn(nat) -> bool, others: Seq<UlpLock>) -> Seq<LockValue>
    decreases others.len(),
{
    if others.len() == 0 {
        Seq::empty()
    } else {
        let pre = call_reads(a, lock, stop, others.drop_last());
        let (a1, l1, c1) = call_run(a, lock, stop, others.drop_last());
        let side = a1.acquire.side;
        let l = interleave(l1, side, others.last());
        match phase_access(side, a1.acquire.phase) {
            Some(LockAccess::ReadOtherFlag) => pre.push(l.access_value(side, LockAccess::ReadOtherFlag)),
            Some(LockAccess::ReadTurn) => pre.push(l.access_value(side, LockAccess::ReadTurn)),
            _ => pre,
        }
    }
}

/// For each callback call of a call, in order, the two checks just before it:
/// the read of the other core's flag and the read of the turn.
pub open spec fn call_checks(a: LockAttempt, lock: UlpLock, stop: spec_fn(nat) -> bool, others: Seq<UlpLock>) -> Seq<(LockValue, LockValue)>
    decreases others.len(),
{
    if others.len() == 0 {
        Seq::empty()
    } else {
        let pre = call_checks(a, lock, stop, others.drop_last());
        let (a1, l1, c1) = call_run(a, lock, stop, others.drop_last());
        let reads = call_reads(a, lock, stop, others.drop_last());
        if a1.acquire.phase == AcquirePhase::Backoff {
            pre.push((reads[reads.len() - 2], reads.last()))
        } else {
            pre
        }
    }
}

/// What the checks of a call saw: every callback call (one per round) comes
/// right after a check that saw the other core's flag raised and then the
/// turn the other core's, and so does giving up; and the call holds the lock
/// only right after seeing the other core's flag down or the turn its own.
pub proof fn lemma_acquire_call_reads(side: Core, lock: UlpLock, stop: spec_fn(nat) -> bool, others: Seq<UlpLock>)
    requires
        others.len() < usize::MAX,
    ensures
        ({
            let (a, l, calls) = call_run(fresh_attempt(side), lock, stop, others);
            let reads = call_reads(fresh_attempt(side), lock, stop, others);
            let checks = call_checks(fresh_attempt(side), lock, stop, others);
            let waited = (LockValue::Flag(true), LockValue::Turn(side.spec_other().spec_turn()));
            &&& checks.len() == calls.len()
            &&& forall|i: int| 0 <= i < checks.len() ==> #[trigger] checks[i] == waited
            &&& a.acquire.phase == AcquirePhase::CheckTurn ==> reads.len() >= 1 && reads.last()
                == LockValue::Flag(true)
            &&& (a.acquire.phase == AcquirePhase::Backoff || a.acquire.phase == AcquirePhase::Aborted)
                ==> reads.len() >= 2 && (reads[reads.len() - 2], reads.last()) == waited
            &&& a.acquire.phase == AcquirePhase::Acquired ==> reads.len() >= 1 && (reads.last()
                == LockValue::Flag(false) || reads.last() == LockValue::Turn(side.spec_turn()))
        }),
    decreases others.len(),
{
    lemma_acquire_call(side, lock, stop, others);
    if others.len() > 0 {
        let pre = others.drop_last();
        lemma_acquire_call(side, lock, stop, pre);
        lemma_acquire_call_reads(side, lock, stop, pre);
        let (a1, l1, c1) = call_run(fresh_attempt(side), lock, stop, pre);
        let reads1 = call_reads(fresh_attempt(side), lock, stop, pre);
        let reads = call_reads(fresh_attempt(side), lock, stop, others);
        if reads.len() > reads1.len() {
            assert(reads.drop_last() =~= reads1);
        } else {
            assert(reads =~= reads1);
        }
    }
}

/// The rounds still open to an attempt whose callback stops every count from
/// `limit` on, counted in steps: three per round, two more before the first.
pub open spec fn steps_left(a: LockAttempt, limit: nat) -> int {
    let r = limit - a.tries;
    match a.acquire.phase {
        AcquirePhase::RaiseFlag => 3 * r + 2,
        AcquirePhase::GiveTurn => 3 * r + 1,
        AcquirePhase::CheckFlag => 3 * r,
        AcquirePhase::CheckTurn => 3 * r - 1,
        AcquirePhase::Backoff => 3 * r - 2,
        _ => 0,
    }
}

/// An attempt that is over: it holds the lock or gave up.
pub open spec fn call_over(a: LockAttempt) -> bool {
    a.acquire.phase == AcquirePhase::Acquired || a.acquire.phase == AcquirePhase::Aborted
}

/// The count that the steps of a call have not yet used up.
proof fn lemma_call_progress(side: Core, lock: UlpLock, stop: spec_fn(nat) -> bool, others: Seq<UlpLock>, limit: nat)
    requires
        limit >= 1,
        forall|n: nat| n >= limit ==> #[trigger] stop(n),
        others.len() < usize::MAX,
    ensures
        ({
            let (a, l, calls) = call_run(fresh_attempt(side), lock, stop, others);
            &&& a.tries <= limit
            &&& (a.acquire.phase == AcquirePhase::Acquired ==> a.tries < limit)
            &&& (!call_over(a) ==> a.tries < limit && steps_left(a, limit) <= 3 * limit + 2
                - others.len())
        }),
    decreases others.len(),
{
    lemma_acquire_call(side, lock, stop, others);
    if others.len() > 0 {
        let pre = others.drop_last();
        lemma_call_progress(side, lock, stop, pre, limit);
        lemma_acquire_call(side, lock, stop, pre);
        let (a1, l1, c1) = call_run(fresh_attempt(side), lock, stop, pre);
        if a1.acquire.phase == AcquirePhase::Backoff {
            let n = (a1.tries + 1) as nat;
            if !stop(n) {
                assert(n < limit);
            }
        }
    }
}

/// A call ends once its callback stops: when the callback answers `true` to
/// every count from `limit` on, the call is over within `3 * limit + 2` steps,
/// whatever the other core does; it has then called the callback at most
/// `limit` times, and if it holds the lock, fewer than `limit` times. When
/// `limit` is the first count the callback answers `true` to, a call that gave
/// up did so at exactly that count.
pub proof fn lemma_acquire_call_ends(side: Core, lock: UlpLock, stop: spec_fn(nat) -> bool, others: Seq<UlpLock>, limit: nat)
    requires
        limit >= 1,
        forall|n: nat| n >= limit ==> #[trigger] stop(n),
        others.len() >= 3 * limit + 2,
        others.len() < usize::MAX,
    ensures
        ({
            let (a, l, calls) = call_run(fresh_attempt(side), lock, stop, others);
            &&& call_over(a)
            &&& a.tries <= limit
            &&& (a.acquire.phase == AcquirePhase::Acquired ==> a.tries < limit)
            &&& ((forall|n: nat| 1 <= n < limit ==> !#[trigger] stop(n)) && a.acquire.phase
                == AcquirePhase::Aborted ==> a.tries == limit)
        }),
{
    lemma_call_progress(side, lock, stop, others, limit);
    lemma_acquire_call(side, lock, stop, others);
}

} // verus!
