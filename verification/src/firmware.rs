//! The ULP test firmware: what it does with each command of the HP core, and
//! what its trap and interrupt handlers leave in shared memory.
//!
//! The firmware's main loop reads the command, updates shared variables,
//! sometimes drives hardware (the ULP timer, interrupts, waking the HP core),
//! and either reads the command again or leaves the loop. Each pass is split
//! at its hardware operation: [`ulp_command_begin`] performs the memory
//! updates that come before it and names it ([`CommandPlan`]); once the
//! operation is done, [`ulp_command_finish`] performs the updates that come
//! after it and says how the loop goes on ([`LoopControl`]).

use vstd::prelude::*;
use crate::shared::{SharedMemory, SharedType, UlpCommand, UlpReply, TEST_XOR_MASK};

verus! {

/// The hardware operation of one pass of the main loop.
#[derive(Clone, Copy, Debug, PartialEq, Eq, Structural)]
pub enum UlpHardwareOp {
    /// Nothing.
    Nothing,
    /// Stop the ULP wake-up timer.
    StopTimer,
    /// Reprogram the ULP wake-up timer period with this many slow-clock cycles.
    SetTimerPeriod(u32),
    /// Run the mutex rounds against the HP core: `TEST_MUTEX_ITERATIONS` times
    /// acquire the lock, increment the loop counter, release the lock.
    MutexRounds,
    /// Wait a tenth of a second, acquire the lock (blocking until the HP core
    /// has released it), wake the HP core, stop the ULP timer.
    WakeHpWhenUnlocked,
    /// Execute an illegal instruction (the trap handler then takes over).
    IllegalInstruction,
    /// Enable the co-processor start interrupt.
    EnableStartInterrupt,
}

/// How the main loop goes on after a pass.
#[derive(Clone, Copy, Debug, PartialEq, Eq, Structural)]
pub enum LoopControl {
    /// Read the command again.
    Continue,
    /// Wait a tenth of a second, then read the command again.
    DelayThenContinue,
    /// Leave the main loop (the program ends; the ULP timer may restart it).
    Exit,
}

/// The first half of a pass: the command read and the hardware operation due.
#[derive(Clone, Copy, Debug, PartialEq, Eq, Structural)]
pub struct CommandPlan {
    pub command: UlpCommand,
    /// The loop counter was zero when the command was read.
    pub first_pass: bool,
    pub hardware: UlpHardwareOp,
}

/// Whether serving `cmd` adds one to the loop counter.
pub open spec fn counts_loop(cmd: UlpCommand) -> bool {
    cmd != UlpCommand::NOOP && cmd != UlpCommand::MUTEX_TEST
}

/// `mem` with the loop counter one higher.
pub open spec fn bump_loop(mem: SharedMemory) -> SharedMemory {
    SharedMemory { loop_counter: (mem.loop_counter + 1) as u32, ..mem }
}

/// Memory after the first half of a pass.
pub open spec fn begin_memory(mem: SharedMemory) -> SharedMemory {
    match mem.command {
        UlpCommand::NOOP => SharedMemory { reply: UlpReply::OK, ..mem },
        UlpCommand::COUNTER_ONESHOT => SharedMemory {
            command: UlpCommand::NOOP,
            reply: UlpReply::OK,
            ..bump_loop(mem)
        },
        UlpCommand::COUNTER_LOOP => SharedMemory { reply: UlpReply::OK, ..bump_loop(mem) },
        UlpCommand::COUNTER_ULP_TIMER => SharedMemory { reply: UlpReply::OK, ..bump_loop(mem) },
        UlpCommand::XOR_TEST => SharedMemory {
            test_data_out: mem.test_data_in ^ TEST_XOR_MASK,
            command: UlpCommand::NOOP,
            reply: UlpReply::OK,
            ..bump_loop(mem)
        },
        UlpCommand::STOP_TEST => SharedMemory { reply: UlpReply::OK, ..bump_loop(mem) },
        UlpCommand::MUTEX_TEST => mem,
        UlpCommand::TIMER_PERIOD_TEST => bump_loop(mem),
        UlpCommand::LIGHT_SLEEP_TEST => SharedMemory { reply: UlpReply::OK, ..bump_loop(mem) },
        UlpCommand::EXCEPTION_TEST => SharedMemory { reply: UlpReply::OK, ..bump_loop(mem) },
        UlpCommand::START_INT_TEST => if mem.loop_counter == 0 {
            SharedMemory { reply: UlpReply::OK, ..mem }
        } else {
            mem
        },
        UlpCommand::GPIO_INT_TEST => if mem.loop_counter == 0 {
            SharedMemory { reply: UlpReply::OK, ..mem }
        } else {
            mem
        },
    }
}

/// The plan of the first half of a pass.
pub open spec fn begin_plan(mem: SharedMemory) -> CommandPlan {
    let hw = match mem.command {
        UlpCommand::STOP_TEST => UlpHardwareOp::StopTimer,
        UlpCommand::MUTEX_TEST => UlpHardwareOp::MutexRounds,
        UlpCommand::TIMER_PERIOD_TEST => UlpHardwareOp::SetTimerPeriod(mem.test_data_in),
        UlpCommand::LIGHT_SLEEP_TEST => UlpHardwareOp::WakeHpWhenUnlocked,
        UlpCommand::EXCEPTION_TEST => UlpHardwareOp::IllegalInstruction,
        UlpCommand::START_INT_TEST => if mem.loop_counter == 0 {
            UlpHardwareOp::EnableStartInterrupt
        } else {
            UlpHardwareOp::Nothing
        },
        _ => UlpHardwareOp::Nothing,
    };
    CommandPlan { command: mem.command, first_pass: mem.loop_counter == 0, hardware: hw }
}

/// Memory after the second half of a pass.
pub open spec fn finish_memory(mem: SharedMemory, plan: CommandPlan) -> SharedMemory {
    match plan.command {
        UlpCommand::MUTEX_TEST => SharedMemory {
            command: UlpCommand::NOOP,
            reply: UlpReply::OK,
            ..mem
        },
        UlpCommand::TIMER_PERIOD_TEST => SharedMemory { reply: UlpReply::OK, ..mem },
        UlpCommand::START_INT_TEST => bump_loop(mem),
        UlpCommand::GPIO_INT_TEST => bump_loop(mem),
        _ => mem,
    }
}

/// How the loop goes on after serving `cmd`.
pub open spec fn loop_control(cmd: UlpCommand) -> LoopControl {
    match cmd {
        UlpCommand::COUNTER_ULP_TIMER => LoopControl::Exit,
        UlpCommand::STOP_TEST => LoopControl::Exit,
        UlpCommand::TIMER_PERIOD_TEST => LoopControl::Exit,
        UlpCommand::LIGHT_SLEEP_TEST => LoopControl::Exit,
        UlpCommand::START_INT_TEST => LoopControl::DelayThenContinue,
        UlpCommand::GPIO_INT_TEST => LoopControl::DelayThenContinue,
        _ => LoopControl::Continue,
    }
}

/// Shared memory after a whole pass of the main loop, for commands whose
/// hardware operation does not touch shared memory.
pub open spec fn pass_memory(mem: SharedMemory) -> SharedMemory {
    finish_memory(begin_memory(mem), begin_plan(mem))
}

/// Shared memory after `n` such passes.
pub open spec fn passes(mem: SharedMemory, n: nat) -> SharedMemory
    decreases n,
{
    if n == 0 {
        mem
    } else {
        passes(pass_memory(mem), (n - 1) as nat)
    }
}

/// With no command pending, every pass only answers OK.
pub proof fn lemma_noop_passes(mem: SharedMemory, n: nat)
    requires
        mem.command == UlpCommand::NOOP,
    ensures
        passes(mem, n + 1) == (SharedMemory { reply: UlpReply::OK, ..mem }),
    decreases n,
{
    let m1 = SharedMemory { reply: UlpReply::OK, ..mem };
    assert(pass_memory(mem) == m1);
    assert(passes(mem, n + 1) == passes(m1, n));
    if n == 0 {
        assert(passes(m1, 0) == m1);
    } else {
        lemma_noop_passes(m1, (n - 1) as nat);
        assert(((n - 1) as nat) + 1 == n);
        assert(SharedMemory { reply: UlpReply::OK, ..m1 } == m1);
    }
}

/// The one-shot counter command counts once, however many passes follow:
/// it hands the firmware back to NOOP.
pub proof fn lemma_oneshot_counts_once(mem: SharedMemory, n: nat)
    requires
        mem.command == UlpCommand::COUNTER_ONESHOT,
        mem.loop_counter < u32::MAX,
    ensures
        passes(mem, n + 1) == (SharedMemory {
            command: UlpCommand::NOOP,
            reply: UlpReply::OK,
            loop_counter: (mem.loop_counter + 1) as u32,
            ..mem
        }),
{
    let first = pass_memory(mem);
    assert(passes(mem, n + 1) == passes(first, n));
    if n > 0 {
        lemma_noop_passes(first, (n - 1) as nat);
        assert(SharedMemory { reply: UlpReply::OK, ..first } == first);
    }
}

/// The XOR test runs once: the output word is the input XOR the mask, and the
/// result stays put over the passes that follow.
pub proof fn lemma_xor_runs_once(mem: SharedMemory, n: nat)
    requires
        mem.command == UlpCommand::XOR_TEST,
        mem.loop_counter < u32::MAX,
    ensures
        passes(mem, n + 1) == (SharedMemory {
            test_data_out: mem.test_data_in ^ TEST_XOR_MASK,
            command: UlpCommand::NOOP,
            reply: UlpReply::OK,
            loop_counter: (mem.loop_counter + 1) as u32,
            ..mem
        }),
{
    let first = pass_memory(mem);
    assert(passes(mem, n + 1) == passes(first, n));
    if n > 0 {
        lemma_noop_passes(first, (n - 1) as nat);
        assert(SharedMemory { reply: UlpReply::OK, ..first } == first);
    }
}

/// Under the looping counter command, every pass counts one.
pub proof fn lemma_counter_loop_counts_passes(mem: SharedMemory, n: nat)
    requires
        mem.command == UlpCommand::COUNTER_LOOP,
        mem.loop_counter + n <= u32::MAX,
    ensures
        passes(mem, n).loop_counter == mem.loop_counter + n,
        passes(mem, n).command == UlpCommand::COUNTER_LOOP,
        n > 0 ==> passes(mem, n).reply == UlpReply::OK,
    decreases n,
{
    if n > 0 {
        lemma_counter_loop_counts_passes(pass_memory(mem), (n - 1) as nat);
    }
}

/// Every command but NOOP and the mutex test counts one pass of the main loop:
/// in the first half of the pass, or (for the start- and GPIO-interrupt tests)
/// in the second; NOOP counts nothing, and the mutex test counts only in its
/// hardware rounds. No command counts more than once per pass.
pub proof fn lemma_pass_counts_once(mem: SharedMemory)
    requires
        mem.loop_counter < u32::MAX,
    ensures
        ({
            let c = mem.command;
            let in_first_half = c != UlpCommand::NOOP && c != UlpCommand::MUTEX_TEST && c
                != UlpCommand::START_INT_TEST && c != UlpCommand::GPIO_INT_TEST;
            &&& begin_memory(mem).loop_counter == mem.loop_counter + if in_first_half {
                1int
            } else {
                0int
            }
            &&& pass_memory(mem).loop_counter == mem.loop_counter + if c == UlpCommand::NOOP || c
                == UlpCommand::MUTEX_TEST {
                0int
            } else {
                1int
            }
        }),
{
}

/// How the loop goes on: it leaves after the commands that end the program
/// (timer-driven counting, the stop test, the timer-period test and the
/// light-sleep test); it waits a tenth of a second exactly after the
/// interrupt tests, which are also exactly the commands that count in the
/// second half of a pass; after every other command it reads the command
/// again at once.
pub proof fn lemma_loop_control(mem: SharedMemory, plan: CommandPlan)
    requires
        mem.loop_counter < u32::MAX,
    ensures
        ({
            let c = plan.command;
            &&& (loop_control(c) == LoopControl::Exit <==> (c == UlpCommand::COUNTER_ULP_TIMER || c
                == UlpCommand::STOP_TEST || c == UlpCommand::TIMER_PERIOD_TEST || c
                == UlpCommand::LIGHT_SLEEP_TEST))
            &&& (loop_control(c) == LoopControl::DelayThenContinue <==> (c
                == UlpCommand::START_INT_TEST || c == UlpCommand::GPIO_INT_TEST))
            &&& (loop_control(c) == LoopControl::DelayThenContinue <==> finish_memory(
                mem,
                plan,
            ).loop_counter == mem.loop_counter + 1)
        }),
{
}

/// What a pass does to the rest of shared memory, for every command: it
/// answers OK (the interrupt tests only on their first pass); the one-shot
/// counter, the XOR test and the mutex test hand the firmware back to NOOP;
/// only the XOR test writes the output word, as the input XOR 0xcafe; the
/// boot and halt counters, the input word, the debug words and the lock are
/// left alone. The first half names the hardware operation: the timer is
/// stopped by the stop test only, reprogrammed (with the input word) by the
/// timer-period test only, and the start interrupt is enabled by the first
/// pass of the start-interrupt test only.
pub proof fn lemma_pass_effects(mem: SharedMemory)
    requires
        mem.loop_counter < u32::MAX,
    ensures
        ({
            let c = mem.command;
            let after = pass_memory(mem);
            let hw = begin_plan(mem).hardware;
            &&& after.reply == if (c == UlpCommand::START_INT_TEST || c == UlpCommand::GPIO_INT_TEST)
                && mem.loop_counter != 0 {
                mem.reply
            } else {
                UlpReply::OK
            }
            &&& after.command == if c == UlpCommand::COUNTER_ONESHOT || c == UlpCommand::XOR_TEST || c
                == UlpCommand::MUTEX_TEST {
                UlpCommand::NOOP
            } else {
                c
            }
            &&& after.test_data_out == if c == UlpCommand::XOR_TEST {
                mem.test_data_in ^ 0xcafe
            } else {
                mem.test_data_out
            }
            &&& after.boot_counter == mem.boot_counter
            &&& after.halt_counter == mem.halt_counter
            &&& after.test_data_in == mem.test_data_in
            &&& after.debug_isr_data == mem.debug_isr_data
            &&& after.debug_trap_data == mem.debug_trap_data
            &&& after.lock == mem.lock
            &&& begin_plan(mem).command == c
            &&& begin_plan(mem).first_pass == (mem.loop_counter == 0)
            &&& (hw == UlpHardwareOp::StopTimer <==> c == UlpCommand::STOP_TEST)
            &&& ((hw is SetTimerPeriod) <==> c == UlpCommand::TIMER_PERIOD_TEST)
            &&& (hw is SetTimerPeriod ==> hw == UlpHardwareOp::SetTimerPeriod(mem.test_data_in))
            &&& (hw == UlpHardwareOp::MutexRounds <==> c == UlpCommand::MUTEX_TEST)
            &&& (hw == UlpHardwareOp::WakeHpWhenUnlocked <==> c == UlpCommand::LIGHT_SLEEP_TEST)
            &&& (hw == UlpHardwareOp::IllegalInstruction <==> c == UlpCommand::EXCEPTION_TEST)
            &&& (hw == UlpHardwareOp::EnableStartInterrupt <==> (c == UlpCommand::START_INT_TEST
                && mem.loop_counter == 0))
        }),
{
}

/// Program start: counts the boot.
pub fn ulp_boot(mem: &mut SharedMemory)
    requires
        old(mem).boot_counter < u32::MAX,
    ensures
        *final(mem) == (SharedMemory { boot_counter: (old(mem).boot_counter + 1) as u32, ..*old(mem) }),
{
    crate::shared::UlpBootCounter::increment(mem);
}

/// Program end, after the main loop was left: counts the halt.
pub fn ulp_exit(mem: &mut SharedMemory)
    requires
        old(mem).halt_counter < u32::MAX,
    ensures
        *final(mem) == (SharedMemory { halt_counter: (old(mem).halt_counter + 1) as u32, ..*old(mem) }),
{
    crate::shared::UlpHaltCounter::increment(mem);
}

/// First half of a pass of the main loop: reads the command, performs the
/// memory updates that come before its hardware operation, and names that
/// operation.
pub fn ulp_command_begin(mem: &mut SharedMemory) -> (plan: CommandPlan)
    requires
        counts_loop(old(mem).command) && old(mem).command != UlpCommand::START_INT_TEST
            && old(mem).command != UlpCommand::GPIO_INT_TEST ==> old(mem).loop_counter < u32::MAX,
    ensures
        *final(mem) == begin_memory(*old(mem)),
        plan == begin_plan(*old(mem)),
{
    let cmd = UlpCommand::load(mem);
    let first_pass = mem.loop_counter == 0;
    let mut hardware = UlpHardwareOp::Nothing;
    match cmd {
        UlpCommand::NOOP => {
            UlpReply::OK.store(mem);
        },
        UlpCommand::COUNTER_ONESHOT => {
            crate::shared::UlpLoopCounter::increment(mem);
            UlpCommand::NOOP.store(mem);
            UlpReply::OK.store(mem);
        },
        UlpCommand::COUNTER_LOOP => {
            crate::shared::UlpLoopCounter::increment(mem);
            UlpReply::OK.store(mem);
        },
        UlpCommand::COUNTER_ULP_TIMER => {
            crate::shared::UlpLoopCounter::increment(mem);
            UlpReply::OK.store(mem);
        },
        UlpCommand::XOR_TEST => {
            crate::shared::UlpLoopCounter::increment(mem);
            let data_in = mem.test_data_in;
            mem.test_data_out = data_in ^ TEST_XOR_MASK;
            UlpCommand::NOOP.store(mem);
            UlpReply::OK.store(mem);
        },
        UlpCommand::STOP_TEST => {
            crate::shared::UlpLoopCounter::increment(mem);
            UlpReply::OK.store(mem);
            hardware = UlpHardwareOp::StopTimer;
        },
        UlpCommand::MUTEX_TEST => {
            hardware = UlpHardwareOp::MutexRounds;
        },
        UlpCommand::TIMER_PERIOD_TEST => {
            crate::shared::UlpLoopCounter::increment(mem);
            hardware = UlpHardwareOp::SetTimerPeriod(mem.test_data_in);
        },
        UlpCommand::LIGHT_SLEEP_TEST => {
            crate::shared::UlpLoopCounter::increment(mem);
            UlpReply::OK.store(mem);
            hardware = UlpHardwareOp::WakeHpWhenUnlocked;
        },
        UlpCommand::EXCEPTION_TEST => {
            crate::shared::UlpLoopCounter::increment(mem);
            UlpReply::OK.store(mem);
            hardware = UlpHardwareOp::IllegalInstruction;
        },
        UlpCommand::START_INT_TEST => {
            if first_pass {
                UlpReply::OK.store(mem);
                hardware = UlpHardwareOp::EnableStartInterrupt;
            }
        },
        UlpCommand::GPIO_INT_TEST => {
            if first_pass {
                UlpReply::OK.store(mem);
            }
        },
    }
    CommandPlan { command: cmd, first_pass, hardware }
}

/// Second half of a pass, once the plan's hardware operation is done: the
/// memory updates that come after it, and how the loop goes on.
pub fn ulp_command_finish(mem: &mut SharedMemory, plan: CommandPlan) -> (c: LoopControl)
    requires
        plan.command == UlpCommand::START_INT_TEST || plan.command == UlpCommand::GPIO_INT_TEST
            ==> old(mem).loop_counter < u32::MAX,
    ensures
        *final(mem) == finish_memory(*old(mem), plan),
        c == loop_control(plan.command),
{
    match plan.command {
        UlpCommand::MUTEX_TEST => {
            UlpCommand::NOOP.store(mem);
            UlpReply::OK.store(mem);
            LoopControl::Continue
        },
        UlpCommand::TIMER_PERIOD_TEST => {
            UlpReply::OK.store(mem);
            LoopControl::Exit
        },
        UlpCommand::START_INT_TEST => {
            crate::shared::UlpLoopCounter::increment(mem);
            LoopControl::DelayThenContinue
        },
        UlpCommand::GPIO_INT_TEST => {
            crate::shared::UlpLoopCounter::increment(mem);
            LoopControl::DelayThenContinue
        },
        UlpCommand::COUNTER_ULP_TIMER => LoopControl::Exit,
        UlpCommand::STOP_TEST => LoopControl::Exit,
        UlpCommand::LIGHT_SLEEP_TEST => LoopControl::Exit,
        _ => LoopControl::Continue,
    }
}

/// The value the illegal-instruction trap handler leaves in `debug_isr_data`.
pub const ILLEGAL_INSTRUCTION_MARK: u32 = 0xdeadbeef;

/// The value the misaligned-load trap handler leaves in `debug_isr_data`.
pub const MISALIGNED_LOAD_MARK: u32 = 0x0000beef;

/// The value the start-interrupt handler leaves in `debug_isr_data`.
pub const START_INTERRUPT_MARK: u32 = 0xcafebabe;

/// Illegal-instruction trap handler: marks the trap (the core then spins).
pub fn illegal_instruction(mem: &mut SharedMemory)
    ensures
        *final(mem) == (SharedMemory { debug_isr_data: ILLEGAL_INSTRUCTION_MARK, ..*old(mem) }),
{
    mem.debug_isr_data = ILLEGAL_INSTRUCTION_MARK;
}

/// Misaligned-load trap handler: marks the trap (the core then spins).
pub fn misaligned_load(mem: &mut SharedMemory)
    ensures
        *final(mem) == (SharedMemory { debug_isr_data: MISALIGNED_LOAD_MARK, ..*old(mem) }),
{
    mem.debug_isr_data = MISALIGNED_LOAD_MARK;
}

/// The bit of the SENS co-processor interrupt status word that is set when
/// the start interrupt is pending.
pub const SAR_COCPU_START_INT_BIT: u32 = 6;

/// The start interrupt is pending in the SENS co-processor interrupt status
/// word `st`.
pub open spec fn start_int_pending(st: u32) -> bool {
    (st >> SAR_COCPU_START_INT_BIT) & 1 != 0
}

/// Whether the start-interrupt bit is set in the SENS co-processor interrupt
/// status word `st`.
pub fn start_int_set(st: u32) -> (r: bool)
    ensures
        r == start_int_pending(st),
{
    (st >> SAR_COCPU_START_INT_BIT) & 1 != 0
}

/// SENS peripheral interrupt handler. Given the SENS co-processor interrupt
/// status word, marks a pending start interrupt and returns whether the start
/// interrupt must now be disabled (so that it does not fire again).
pub fn sens_interrupt(mem: &mut SharedMemory, cocpu_int_st: u32) -> (disable_start: bool)
    ensures
        disable_start == start_int_pending(cocpu_int_st),
        *final(mem) == if start_int_pending(cocpu_int_st) {
            SharedMemory { debug_isr_data: START_INTERRUPT_MARK, ..*old(mem) }
        } else {
            *old(mem)
        },
{
    let pending = start_int_set(cocpu_int_st);
    if pending {
        mem.debug_isr_data = START_INTERRUPT_MARK;
    }
    pending
}

/// RTC GPIO interrupt handler: records the interrupt status bits in
/// `debug_trap_data` and the pin level bits in `debug_isr_data`.
pub fn gpio_interrupt(mem: &mut SharedMemory, level_bits: u32, status_bits: u32)
    ensures
        *final(mem) == (SharedMemory {
            debug_trap_data: status_bits,
            debug_isr_data: level_bits,
            ..*old(mem)
        }),
{
    mem.debug_trap_data = status_bits;
    mem.debug_isr_data = level_bits;
}

/// What the machine-external interrupt handler clears: the SENS interrupt
/// bits and the RTC IO status bits, each when some were pending.
#[derive(Clone, Copy, Debug, PartialEq, Eq, Structural)]
pub struct InterruptClears {
    pub sens_bits: Option<u32>,
    pub rtcio_bits: Option<u32>,
}

/// Machine-external interrupt handler. Given the SENS co-processor interrupt
/// status word and the RTC IO interrupt status word, records the cause in
/// `debug_isr_data` (the start-interrupt mark, or the status word) and
/// returns which status bits to clear.
pub fn external_interrupt(mem: &mut SharedMemory, cocpu_int_st: u32, rtcio_int_st: u32) -> (clears: InterruptClears)
    ensures
        *final(mem) == if cocpu_int_st > 0 {
            SharedMemory {
                debug_isr_data: if start_int_pending(cocpu_int_st) {
                    START_INTERRUPT_MARK
                } else {
                    cocpu_int_st
                },
                ..*old(mem)
            }
        } else {
            *old(mem)
        },
        clears.sens_bits == if cocpu_int_st > 0 { Some(cocpu_int_st) } else { None::<u32> },
        clears.rtcio_bits == if rtcio_int_st > 0 { Some(rtcio_int_st) } else { None::<u32> },
{
    let mut sens_bits = None;
    if cocpu_int_st > 0 {
        if start_int_set(cocpu_int_st) {
            mem.debug_isr_data = START_INTERRUPT_MARK;
        } else {
            mem.debug_isr_data = cocpu_int_st;
        }
        sens_bits = Some(cocpu_int_st);
    }
    let rtcio_bits = if rtcio_int_st > 0 { Some(rtcio_int_st) } else { None };
    InterruptClears { sens_bits, rtcio_bits }
}

/// Debug start trap hook: records the pending interrupt bits.
pub fn my_debug_start_trap(mem: &mut SharedMemory, irqs: u32)
    ensures
        *final(mem) == (SharedMemory { debug_trap_data: irqs, ..*old(mem) }),
{
    mem.debug_trap_data = irqs;
}

/// Cycle-counter ticks in a hundred microseconds.
pub const HUNDRED_MICROS_CYCLES: u64 = 1750;

/// Cycle-counter ticks in a tenth of a second.
pub const TENTH_SECOND_CYCLES: u64 = 1_750_000;

/// Cycle-counter ticks in a second.
pub const SECOND_CYCLES: u64 = 17_500_000;

/// The cycles from `t0` to `now`, counted modulo 2^64.
pub open spec fn cycles_since(t0: u64, now: u64) -> int {
    if now >= t0 {
        now - t0
    } else {
        now - t0 + 0x1_0000_0000_0000_0000
    }
}

/// Whether a busy wait that started at cycle count `t0` must go on at cycle
/// count `now`: the wrapping distance from `t0` to `now` is at most `delay`.
pub fn delay_pending(t0: u64, now: u64, delay: u64) -> (r: bool)
    ensures
        r == (cycles_since(t0, now) <= delay),
{
    now.wrapping_sub(t0) <= delay
}

} // verus!
