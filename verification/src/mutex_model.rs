//! The HP/ULP mutex exercise as a two-core interleaving over the shared
//! variables: each core, for a given number of rounds, acquires the shared
//! lock, increments the shared loop counter with a plain load followed by a
//! store, and releases the lock. Every call of [`MutexTest::step`] performs one
//! memory access of one core, so any interleaving of the two cores is a
//! sequence of such calls. A core whose acquisition finds the lock taken may
//! give up waiting (its own flag stays raised, as the lock leaves it) and then
//! start a new acquisition, as a caller of the lock may do after an `Err`.
//!
//! The proofs below show that the lock keeps the two cores out of the critical
//! section at the same time, and that no increment is lost: once both cores
//! are done, the loop counter has gone up by twice the number of rounds.

use vstd::prelude::*;
use crate::locks::{phase_access, phase_after, AcquirePhase, Core, LockAccess, LockAcquire, LockTurn};
use crate::shared::{SharedMemory, SharedType, UlpLoopCounter};

verus! {

/// Where a core stands in one round of the exercise.
#[derive(Clone, Copy, Debug, PartialEq, Eq, Structural)]
pub enum Stage {
    /// Acquiring the lock.
    Acquiring,
    /// Holding the lock, about to load the counter.
    Load,
    /// Holding the lock, about to store the loaded value plus one.
    Store,
    /// Holding the lock, about to release it.
    Release,
    /// All rounds are done.
    Finished,
}

/// One core's progress through the exercise.
#[derive(Clone, Copy, Debug)]
pub struct Worker {
    pub acquire: LockAcquire,
    pub stage: Stage,
    /// The counter value loaded in this round.
    pub loaded: u32,
    /// Rounds completed.
    pub done: u32,
}

/// Both cores and the shared variables.
#[derive(Clone, Copy, Debug)]
pub struct MutexTest {
    pub mem: SharedMemory,
    /// The loop counter before the first round.
    pub start: u32,
    pub hp: Worker,
    pub ulp: Worker,
    pub iterations: u32,
}

impl Worker {
    /// A worker of `side` that has `rounds` rounds ahead of it.
    pub open spec fn fresh(side: Core, rounds: u32) -> Worker {
        Worker {
            acquire: LockAcquire { side, phase: AcquirePhase::RaiseFlag },
            stage: if rounds > 0 { Stage::Acquiring } else { Stage::Finished },
            loaded: 0,
            done: 0,
        }
    }
}

impl MutexTest {
    pub open spec fn worker(self, c: Core) -> Worker {
        match c {
            Core::Hp => self.hp,
            Core::Ulp => self.ulp,
        }
    }

    pub open spec fn with_worker(self, c: Core, w: Worker) -> MutexTest {
        match c {
            Core::Hp => MutexTest { hp: w, ..self },
            Core::Ulp => MutexTest { ulp: w, ..self },
        }
    }

    /// `c` holds the lock.
    pub open spec fn in_critical(self, c: Core) -> bool {
        let s = self.worker(c).stage;
        s == Stage::Load || s == Stage::Store || s == Stage::Release
    }

    /// `c` has given the turn away in its current acquisition (or holds the lock).
    pub open spec fn past_turn(self, c: Core) -> bool {
        let w = self.worker(c);
        ||| self.in_critical(c)
        ||| (w.stage == Stage::Acquiring && (w.acquire.phase == AcquirePhase::CheckFlag
            || w.acquire.phase == AcquirePhase::CheckTurn))
    }

    pub open spec fn worker_ok(self, c: Core) -> bool {
        let w = self.worker(c);
        &&& w.acquire.side == c
        &&& w.done <= self.iterations
        &&& (w.stage == Stage::Finished <==> w.done == self.iterations)
        &&& (w.stage == Stage::Acquiring ==> (w.acquire.phase == AcquirePhase::RaiseFlag
            || w.acquire.phase == AcquirePhase::GiveTurn || w.acquire.phase
            == AcquirePhase::CheckFlag || w.acquire.phase == AcquirePhase::CheckTurn
            || w.acquire.phase == AcquirePhase::Aborted))
        &&& (w.stage == Stage::Finished ==> !self.mem.lock@.flag_of(c))
        &&& (w.stage != Stage::Finished && !(w.stage == Stage::Acquiring && w.acquire.phase
            == AcquirePhase::RaiseFlag) ==> self.mem.lock@.flag_of(c))
        &&& (w.stage == Stage::Store ==> w.loaded == self.mem.loop_counter)
    }

    /// 1 while `c` is between its store and its release, else 0.
    pub open spec fn pending_release(self, c: Core) -> nat {
        if self.worker(c).stage == Stage::Release {
            1
        } else {
            0
        }
    }

    /// The invariant kept by every step of either core.
    pub open spec fn inv(self) -> bool {
        &&& self.start + 2 * self.iterations <= u32::MAX
        &&& self.worker_ok(Core::Hp)
        &&& self.worker_ok(Core::Ulp)
        &&& (self.in_critical(Core::Hp) && self.past_turn(Core::Ulp) ==> self.mem.lock@.turn
            == LockTurn::Hp)
        &&& (self.in_critical(Core::Ulp) && self.past_turn(Core::Hp) ==> self.mem.lock@.turn
            == LockTurn::Ulp)
        &&& self.mem.loop_counter == self.start + self.hp.done + self.ulp.done
            + self.pending_release(Core::Hp) + self.pending_release(Core::Ulp)
    }

    /// Both cores have done all their rounds.
    pub open spec fn finished(self) -> bool {
        self.hp.stage == Stage::Finished && self.ulp.stage == Stage::Finished
    }

    /// The state after `c` performs its next access; when that access shows
    /// that `c` has to wait, `c` gives up this acquisition if `give_up`.
    pub open spec fn spec_step(self, c: Core, give_up: bool) -> MutexTest {
        let w = self.worker(c);
        match w.stage {
            Stage::Acquiring => match phase_access(c, w.acquire.phase) {
                Some(a) => {
                    let ph = phase_after(c, w.acquire.phase, self.mem.lock@.access_value(c, a));
                    let next = if ph == AcquirePhase::Backoff {
                        Worker {
                            acquire: LockAcquire {
                                side: w.acquire.side,
                                phase: if give_up {
                                    AcquirePhase::Aborted
                                } else {
                                    AcquirePhase::CheckFlag
                                },
                            },
                            ..w
                        }
                    } else if ph == AcquirePhase::Acquired {
                        Worker {
                            acquire: LockAcquire { side: w.acquire.side, phase: ph },
                            stage: Stage::Load,
                            ..w
                        }
                    } else {
                        Worker { acquire: LockAcquire { side: w.acquire.side, phase: ph }, ..w }
                    };
                    MutexTest {
                        mem: SharedMemory { lock: self.mem.lock.after_access(c, a), ..self.mem },
                        ..self
                    }.with_worker(c, next)
                },
                None => if w.acquire.phase == AcquirePhase::Aborted {
                    self.with_worker(
                        c,
                        Worker { acquire: LockAcquire { side: c, phase: AcquirePhase::RaiseFlag }, ..w },
                    )
                } else {
                    self
                },
            },
            Stage::Load => self.with_worker(
                c,
                Worker { loaded: self.mem.loop_counter, stage: Stage::Store, ..w },
            ),
            Stage::Store => MutexTest {
                mem: SharedMemory { loop_counter: (w.loaded + 1) as u32, ..self.mem },
                ..self
            }.with_worker(
                c,
                Worker { stage: Stage::Release, ..w },
            ),
            Stage::Release => {
                let d = (w.done + 1) as u32;
                MutexTest {
                    mem: SharedMemory {
                        lock: self.mem.lock.after_access(c, LockAccess::WriteFlag(false)),
                        ..self.mem
                    },
                    ..self
                }.with_worker(
                    c,
                    Worker {
                        acquire: LockAcquire { side: c, phase: AcquirePhase::RaiseFlag },
                        stage: if d < self.iterations { Stage::Acquiring } else { Stage::Finished },
                        done: d,
                        ..w
                    },
                )
            },
            Stage::Finished => self,
        }
    }

    /// Both cores at the start of `iterations` rounds each over `mem`, whose
    /// lock must be free and whose loop counter must have room for all rounds.
    pub fn new(mem: SharedMemory, iterations: u32) -> (r: MutexTest)
        requires
            !mem.lock.flag_hp && !mem.lock.flag_ulp,
            mem.loop_counter + 2 * iterations <= u32::MAX,
        ensures
            r.inv(),
            r.mem == mem,
            r.start == mem.loop_counter,
            r.iterations == iterations,
            r.hp == Worker::fresh(Core::Hp, iterations),
            r.ulp == Worker::fresh(Core::Ulp, iterations),
    {
        let stage = if iterations > 0 { Stage::Acquiring } else { Stage::Finished };
        MutexTest {
            mem,
            start: mem.loop_counter,
            hp: Worker { acquire: LockAcquire::new(Core::Hp), stage, loaded: 0, done: 0 },
            ulp: Worker { acquire: LockAcquire::new(Core::Ulp), stage, loaded: 0, done: 0 },
            iterations,
        }
    }

    /// Core `c` performs its next memory access; if that access shows that
    /// `c` has to wait, `c` gives up this acquisition when `give_up`, and
    /// starts a new one at its next step.
    pub fn step(&mut self, c: Core, give_up: bool)
        requires
            old(self).inv(),
        ensures
            *final(self) == old(self).spec_step(c, give_up),
            final(self).inv(),
    {
        proof {
            lemma_step_preserves_invariant(*self, c, give_up);
        }
        let mut w = match c {
            Core::Hp => self.hp,
            Core::Ulp => self.ulp,
        };
        match w.stage {
            Stage::Acquiring => {
                match w.acquire.pending_access() {
                    Some(a) => {
                        let v = self.mem.lock.perform(c, a);
                        w.acquire.advance(v);
                    },
                    None => {
                        if w.acquire.phase == AcquirePhase::Aborted {
                            w.acquire = LockAcquire::new(c);
                        }
                    },
                }
                if w.acquire.is_backing_off() {
                    if give_up {
                        w.acquire.give_up();
                    } else {
                        w.acquire.retry();
                    }
                } else if w.acquire.is_acquired() {
                    w.stage = Stage::Load;
                }
            },
            Stage::Load => {
                w.loaded = UlpLoopCounter::load(&self.mem);
                w.stage = Stage::Store;
            },
            Stage::Store => {
                UlpLoopCounter(w.loaded + 1).store(&mut self.mem);
                w.stage = Stage::Release;
            },
            Stage::Release => {
                let _ = self.mem.lock.perform(c, LockAccess::WriteFlag(false));
                w.done = w.done + 1;
                w.acquire = LockAcquire::new(c);
                w.stage = if w.done < self.iterations { Stage::Acquiring } else { Stage::Finished };
            },
            Stage::Finished => {},
        }
        match c {
            Core::Hp => { self.hp = w; },
            Core::Ulp => { self.ulp = w; },
        }
    }

    /// Whether both cores have done all their rounds.
    pub fn is_finished(&self) -> (r: bool)
        ensures
            r == self.finished(),
    {
        self.hp.stage == Stage::Finished && self.ulp.stage == Stage::Finished
    }
}

/// Every step of either core, giving up or not, keeps the invariant.
pub proof fn lemma_step_preserves_invariant(s: MutexTest, c: Core, give_up: bool)
    requires
        s.inv(),
    ensures
        s.spec_step(c, give_up).inv(),
{
    lemma_mutual_exclusion(s);
}

/// The lock keeps the two cores out of the critical section at the same time,
/// in every state that any interleaving reaches, acquisitions given up
/// included: a core that gave up holds nothing.
pub proof fn lemma_mutual_exclusion(s: MutexTest)
    requires
        s.inv(),
    ensures
        !(s.in_critical(Core::Hp) && s.in_critical(Core::Ulp)),
{
}

/// No increment is lost: when both cores are done, the loop counter has gone
/// up by the number of rounds of both cores together.
pub proof fn lemma_finished_counter(s: MutexTest)
    requires
        s.inv(),
        s.finished(),
    ensures
        s.mem.loop_counter == s.start + 2 * s.iterations,
        !s.mem.lock.flag_hp && !s.mem.lock.flag_ulp,
{
}

/// `c` has given the turn away and waits for the lock.
pub open spec fn waiting(s: MutexTest, c: Core) -> bool {
    s.past_turn(c) && !s.in_critical(c)
}

/// A sequence of steps: which core moves, and whether it gives up if that
/// step shows that it has to wait.
pub open spec fn run(s: MutexTest, sched: Seq<(Core, bool)>) -> MutexTest
    decreases sched.len(),
{
    if sched.len() == 0 {
        s
    } else {
        run(s.spec_step(sched[0].0, sched[0].1), sched.drop_first())
    }
}

/// `c` never gives up in `sched`.
pub open spec fn keeps_waiting(sched: Seq<(Core, bool)>, c: Core) -> bool {
    forall|i: int| 0 <= i < sched.len() && (#[trigger] sched[i]).0 == c ==> !sched[i].1
}

/// The steps of `c` in `sched`.
pub open spec fn own_steps(sched: Seq<(Core, bool)>, c: Core) -> nat
    decreases sched.len(),
{
    if sched.len() == 0 {
        0
    } else {
        own_steps(sched.drop_first(), c) + if sched[0].0 == c {
            1nat
        } else {
            0nat
        }
    }
}

/// `c` is in the critical section at some point of `sched` from `s` on.
pub open spec fn enters(s: MutexTest, c: Core, sched: Seq<(Core, bool)>) -> bool
    decreases sched.len(),
{
    ||| s.in_critical(c)
    ||| (sched.len() > 0 && enters(s.spec_step(sched[0].0, sched[0].1), c, sched.drop_first()))
}

/// How many times the other core enters the critical section during `sched`
/// from `s` on while `c` waits.
pub open spec fn bypasses(s: MutexTest, c: Core, sched: Seq<(Core, bool)>) -> nat
    decreases sched.len(),
{
    if sched.len() == 0 || !waiting(s, c) {
        0
    } else {
        let t = s.spec_step(sched[0].0, sched[0].1);
        let o = c.spec_other();
        bypasses(t, c, sched.drop_first()) + if !s.in_critical(o) && t.in_critical(o) {
            1nat
        } else {
            0nat
        }
    }
}

/// The entries into the critical section still open to the other core while
/// `c` waits: one if it has given the turn away and the turn is its own, none
/// otherwise.
pub open spec fn bypass_budget(s: MutexTest, c: Core) -> nat {
    let o = c.spec_other();
    if waiting(s, o) && s.mem.lock@.turn == o.spec_turn() {
        1
    } else {
        0
    }
}

/// Both parts of a schedule in which `c` never gives up are such schedules.
proof fn lemma_keeps_waiting_parts(p: Seq<(Core, bool)>, q: Seq<(Core, bool)>, c: Core)
    requires
        keeps_waiting(p + q, c),
    ensures
        keeps_waiting(p, c),
        keeps_waiting(q, c),
{
    assert forall|i: int| 0 <= i < p.len() && (#[trigger] p[i]).0 == c implies !p[i].1 by {
        assert(p[i] == (p + q)[i]);
    }
    assert forall|i: int| 0 <= i < q.len() && (#[trigger] q[i]).0 == c implies !q[i].1 by {
        assert(q[i] == (p + q)[p.len() + i]);
    }
}

/// One step keeps the budget from growing, and an entry of the other core
/// uses it up.
proof fn lemma_budget_step(s: MutexTest, c: Core, m: Core, give_up: bool)
    requires
        s.inv(),
        waiting(s, c),
        m == c ==> !give_up,
    ensures
        ({
            let t = s.spec_step(m, give_up);
            let o = c.spec_other();
            &&& waiting(t, c) ==> bypass_budget(t, c) + (if !s.in_critical(o) && t.in_critical(o) {
                1int
            } else {
                0int
            }) <= bypass_budget(s, c)
            &&& !waiting(t, c) ==> (if !s.in_critical(o) && t.in_critical(o) {
                1int
            } else {
                0int
            }) <= bypass_budget(s, c)
        }),
{
    lemma_step_preserves_invariant(s, m, give_up);
}

/// Bounded bypass: while a core waits for the lock, and does not give up,
/// the other core enters the critical section at most once, whatever the
/// interleaving; and not at all once it has left it or gave the turn away
/// after the waiting core did.
pub proof fn lemma_bounded_bypass(s: MutexTest, c: Core, sched: Seq<(Core, bool)>)
    requires
        s.inv(),
        waiting(s, c),
        keeps_waiting(sched, c),
    ensures
        bypasses(s, c, sched) <= bypass_budget(s, c),
        bypass_budget(s, c) <= 1,
    decreases sched.len(),
{
    if sched.len() > 0 {
        let (m, g) = sched[0];
        let t = s.spec_step(m, g);
        lemma_budget_step(s, c, m, g);
        lemma_step_preserves_invariant(s, m, g);
        let rest = sched.drop_first();
        assert(sched =~= seq![sched[0]] + rest);
        lemma_keeps_waiting_parts(seq![sched[0]], rest, c);
        if waiting(t, c) {
            lemma_bounded_bypass(t, c, rest);
        }
        assert(bypasses(s, c, sched) == bypasses(t, c, rest) + if !s.in_critical(c.spec_other())
            && t.in_critical(c.spec_other()) {
            1nat
        } else {
            0nat
        });
    }
}

/// After the lock holder releases it, it cannot get the lock again before a
/// core that waits for it (and does not give up), whatever the interleaving;
/// and two more steps of it (raising its flag again and giving the turn away)
/// are all that the waiting core may still need from it.
pub proof fn lemma_release_lets_waiter_first(s: MutexTest, c: Core, sched: Seq<(Core, bool)>)
    requires
        s.inv(),
        waiting(s, c),
        s.worker(c.spec_other()).stage == Stage::Release,
        keeps_waiting(sched, c),
    ensures
        waiting(s.spec_step(c.spec_other(), false), c),
        bypasses(s.spec_step(c.spec_other(), false), c, sched) == 0,
        steps_to_yield(s.spec_step(c.spec_other(), false), c) <= 2,
{
    let t = s.spec_step(c.spec_other(), false);
    lemma_step_preserves_invariant(s, c.spec_other(), false);
    lemma_bounded_bypass(t, c, sched);
}

/// No deadlock: a waiting core that the turn names gets into the critical
/// section within two of its own steps (one if it is about to read the turn),
/// whatever the other core does in between, as long as it does not give up;
/// so does a waiting core whose peer has done all its rounds (within one if it
/// is about to read the other flag).
pub proof fn lemma_turn_holder_enters(s: MutexTest, c: Core, sched: Seq<(Core, bool)>)
    requires
        s.inv(),
        waiting(s, c),
        s.mem.lock@.turn == c.spec_turn() || s.worker(c.spec_other()).stage == Stage::Finished,
        keeps_waiting(sched, c),
        own_steps(sched, c) >= if (s.worker(c).acquire.phase == AcquirePhase::CheckTurn
            && s.mem.lock@.turn == c.spec_turn()) || (s.worker(c).acquire.phase
            == AcquirePhase::CheckFlag && s.worker(c.spec_other()).stage == Stage::Finished) {
            1nat
        } else {
            2nat
        },
    ensures
        enters(s, c, sched),
    decreases sched.len(),
{
    if sched.len() == 0 {
        assert(own_steps(sched, c) == 0);
    }
    let (m, g) = sched[0];
    let t = s.spec_step(m, g);
    assert(own_steps(sched, c) == own_steps(sched.drop_first(), c) + if m == c {
        1nat
    } else {
        0nat
    });
    lemma_step_preserves_invariant(s, m, g);
    let rest = sched.drop_first();
    assert(sched =~= seq![sched[0]] + rest);
    lemma_keeps_waiting_parts(seq![sched[0]], rest, c);
    if !t.in_critical(c) {
        assert(waiting(t, c));
        lemma_turn_holder_enters(t, c, rest);
    }
    assert(enters(s, c, sched) == (s.in_critical(c) || enters(t, c, rest)));
}

/// The steps the other core may still take, while `c` waits, before the turn
/// is `c`'s for good or the other core has done all its rounds: it may first
/// have to get through the critical section itself, then raise its flag and
/// give the turn away.
pub open spec fn steps_to_yield(s: MutexTest, c: Core) -> nat {
    let o = c.spec_other();
    let w = s.worker(o);
    if s.mem.lock@.turn == c.spec_turn() || w.stage == Stage::Finished {
        0
    } else {
        match w.stage {
            Stage::Load => 5,
            Stage::Store => 4,
            Stage::Release => 3,
            _ => match w.acquire.phase {
                AcquirePhase::CheckFlag => 7,
                AcquirePhase::CheckTurn => 6,
                AcquirePhase::RaiseFlag => 2,
                AcquirePhase::GiveTurn => 1,
                _ => 3,
            },
        }
    }
}

/// While `c` waits, each step of the other core brings the yield one step
/// nearer, and no step puts it further away.
proof fn lemma_yield_step(s: MutexTest, c: Core, m: Core, give_up: bool)
    requires
        s.inv(),
        waiting(s, c),
        m == c ==> !give_up,
    ensures
        ({
            let t = s.spec_step(m, give_up);
            waiting(t, c) ==> steps_to_yield(t, c) + (if m != c && steps_to_yield(s, c) > 0 {
                1int
            } else {
                0int
            }) <= steps_to_yield(s, c)
        }),
{
    lemma_step_preserves_invariant(s, m, give_up);
}

/// Along a schedule in which `c` waits without giving up, either `c` gets
/// in, or the other core's steps have brought the yield as much nearer.
proof fn lemma_yield_run(s: MutexTest, c: Core, p: Seq<(Core, bool)>)
    requires
        s.inv(),
        waiting(s, c),
        keeps_waiting(p, c),
    ensures
        !enters(s, c, p) ==> {
            let r = run(s, p);
            &&& r.inv()
            &&& waiting(r, c)
            &&& (steps_to_yield(r, c) == 0 || steps_to_yield(r, c) + own_steps(p, c.spec_other())
                <= steps_to_yield(s, c))
        },
    decreases p.len(),
{
    if p.len() > 0 {
        let (m, g) = p[0];
        let t = s.spec_step(m, g);
        lemma_step_preserves_invariant(s, m, g);
        lemma_yield_step(s, c, m, g);
        let rest = p.drop_first();
        assert(p =~= seq![p[0]] + rest);
        lemma_keeps_waiting_parts(seq![p[0]], rest, c);
        assert(own_steps(p, c.spec_other()) == own_steps(rest, c.spec_other()) + if m
            == c.spec_other() {
            1nat
        } else {
            0nat
        });
        assert(enters(s, c, p) == (s.in_critical(c) || enters(t, c, rest)));
        assert(run(s, p) == run(t, rest));
        if waiting(t, c) {
            lemma_yield_run(t, c, rest);
        } else {
            assert(t.in_critical(c));
        }
    }
}

/// Entering during the first part of a schedule, or during the second part
/// after the first, is entering during the whole.
proof fn lemma_enters_append(s: MutexTest, c: Core, p: Seq<(Core, bool)>, q: Seq<(Core, bool)>)
    ensures
        enters(s, c, p) || enters(run(s, p), c, q) ==> enters(s, c, p + q),
    decreases p.len(),
{
    if p.len() > 0 {
        let t = s.spec_step(p[0].0, p[0].1);
        assert((p + q)[0] == p[0]);
        assert((p + q).drop_first() =~= p.drop_first() + q);
        lemma_enters_append(t, c, p.drop_first(), q);
    } else {
        assert(p + q =~= q);
    }
}

/// Every acquisition that does not give up ends: while `c` waits, once the
/// other core has taken `steps_to_yield` steps (at most seven: enough to get
/// through the critical section, raise its flag again and give the turn away)
/// and then `c` has taken two, `c` is in the critical section, whatever the
/// interleaving.
pub proof fn lemma_waiter_enters(s: MutexTest, c: Core, p: Seq<(Core, bool)>, q: Seq<(Core, bool)>)
    requires
        s.inv(),
        waiting(s, c),
        keeps_waiting(p + q, c),
        own_steps(p, c.spec_other()) >= steps_to_yield(s, c),
        own_steps(q, c) >= 2,
    ensures
        enters(s, c, p + q),
        steps_to_yield(s, c) <= 7,
{
    lemma_keeps_waiting_parts(p, q, c);
    lemma_yield_run(s, c, p);
    if !enters(s, c, p) {
        let r = run(s, p);
        lemma_turn_holder_enters(r, c, q);
    }
    lemma_enters_append(s, c, p, q);
}

/// A waiting core gets in within two of its own steps while the other core's
/// flag is down.
pub proof fn lemma_waiter_enters_flag_down(s: MutexTest, c: Core)
    requires
        s.inv(),
        waiting(s, c),
        !s.mem.lock@.flag_of(c.spec_other()),
    ensures
        s.spec_step(c, false).in_critical(c) || s.spec_step(c, false).spec_step(c, false).in_critical(c),
{
    lemma_step_preserves_invariant(s, c, false);
}

/// The exercise touches only the lock and the loop counter.
pub proof fn lemma_step_frame(s: MutexTest, c: Core, give_up: bool)
    ensures
        ({
            let t = s.spec_step(c, give_up).mem;
            t == (SharedMemory { lock: t.lock, loop_counter: t.loop_counter, ..s.mem })
        }),
{
}

} // verus!
