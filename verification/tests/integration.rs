// HP/ULP scenarios run against the firmware model: the HP side prepares the
// shared variables, the ULP program runs (boot, passes of its main loop,
// halt), and the HP side checks what the ULP program left behind.

use ulp_shared::firmware::{
    external_interrupt, gpio_interrupt, illegal_instruction, sens_interrupt, ulp_boot,
    ulp_command_begin, ulp_command_finish, ulp_exit, LoopControl, UlpHardwareOp,
    ILLEGAL_INSTRUCTION_MARK, START_INTERRUPT_MARK,
};
use ulp_shared::locks::{AcquirePhase, Core};
use ulp_shared::mutex_model::{MutexTest, Stage};
use ulp_shared::ulp_utils::{LoopingProbe, ProbePoll};
use ulp_shared::shared::{
    reset_ulp_shared_variables, ulp_has_booted, SharedMemory, SharedType, UlpBootCounter,
    UlpCommand, UlpHaltCounter, UlpLoopCounter, UlpReply, TEST_MUTEX_ITERATIONS, TEST_XOR_MASK,
};

// What stopped a simulated run of the ULP program.
#[derive(Debug, PartialEq)]
enum RunEnd {
    // The main loop was left and the halt counted.
    Halted,
    // The pass budget ran out while the loop went on.
    StillLooping,
    // The core trapped on an illegal instruction and spins in the handler.
    Trapped,
}

// Runs the ULP program once: boot, at most `max_passes` passes, halt.
// Hardware operations that only touch hardware are recorded in `hw`; an
// enabled start interrupt fires right away.
fn run_ulp(mem: &mut SharedMemory, max_passes: usize, hw: &mut Vec<UlpHardwareOp>) -> RunEnd {
    ulp_boot(mem);
    for _ in 0..max_passes {
        let plan = ulp_command_begin(mem);
        match plan.hardware {
            UlpHardwareOp::Nothing => {}
            UlpHardwareOp::IllegalInstruction => {
                hw.push(plan.hardware);
                illegal_instruction(mem);
                return RunEnd::Trapped;
            }
            UlpHardwareOp::EnableStartInterrupt => {
                hw.push(plan.hardware);
                // The start interrupt fires: bit 6 of the SENS status word.
                let disable = sens_interrupt(mem, 1 << 6);
                assert!(disable);
            }
            other => hw.push(other),
        }
        match ulp_command_finish(mem, plan) {
            LoopControl::Exit => {
                ulp_exit(mem);
                return RunEnd::Halted;
            }
            LoopControl::Continue | LoopControl::DelayThenContinue => {}
        }
    }
    RunEnd::StillLooping
}

// The HP side: reset the shared variables, then let the run hook set them up.
fn reprogram_with_run_hook<F: FnOnce(&mut SharedMemory)>(mem: &mut SharedMemory, hook: F) {
    reset_ulp_shared_variables(mem);
    hook(mem);
}

// Whether the loop counter moves: the probe watches it while the ULP core
// runs one pass every ten microseconds, for a second at most.
fn ulp_is_looping(mem: &mut SharedMemory) -> bool {
    let probe = LoopingProbe::new(0, UlpLoopCounter::load(mem));
    let mut hw = Vec::new();
    let mut copy = *mem;
    UlpBootCounter::reset(&mut copy);
    let mut now_us: u64 = 0;
    loop {
        let _ = run_ulp(&mut copy, 1, &mut hw);
        now_us += 10;
        if let ProbePoll::Done(report) = probe.poll(now_us, UlpLoopCounter::load(&copy)) {
            return report.looping;
        }
    }
}

#[test]
fn integration_ulp_can_boot() {
    let mut mem = SharedMemory::new();
    reprogram_with_run_hook(&mut mem, |m| UlpCommand::NOOP.store(m));
    let mut hw = Vec::new();
    assert_eq!(run_ulp(&mut mem, 10, &mut hw), RunEnd::StillLooping);
    assert_eq!(ulp_has_booted(&mem), true);
    assert_eq!(UlpReply::OK, UlpReply::load(&mem));
    // Booted once
    let a = UlpBootCounter::load(&mem);
    assert_eq!(1, a);
    // Did not loop
    let b = UlpLoopCounter::load(&mem);
    assert_eq!(0, b);
}

#[test]
fn integration_ulp_loop_oneshot() {
    let mut mem = SharedMemory::new();
    reprogram_with_run_hook(&mut mem, |m| UlpCommand::COUNTER_ONESHOT.store(m));
    let mut hw = Vec::new();
    run_ulp(&mut mem, 10, &mut hw);
    assert_eq!(ulp_has_booted(&mem), true);
    assert_eq!(UlpReply::OK, UlpReply::load(&mem));
    // Booted once
    let a = UlpBootCounter::load(&mem);
    assert_eq!(1, a);
    // Looped once
    let b = UlpLoopCounter::load(&mem);
    assert_eq!(1, b);
}

#[test]
fn integration_ulp_loop_counter() {
    let mut mem = SharedMemory::new();
    reprogram_with_run_hook(&mut mem, |m| UlpCommand::COUNTER_LOOP.store(m));
    let mut hw = Vec::new();
    run_ulp(&mut mem, 10, &mut hw);
    assert_eq!(ulp_has_booted(&mem), true);
    assert_eq!(UlpReply::OK, UlpReply::load(&mem));
    assert_eq!(true, ulp_is_looping(&mut mem));
}

#[test]
fn integration_ulp_timer_counter() {
    let mut mem = SharedMemory::new();
    reprogram_with_run_hook(&mut mem, |m| UlpCommand::COUNTER_ULP_TIMER.store(m));
    let mut hw = Vec::new();
    assert_eq!(run_ulp(&mut mem, 10, &mut hw), RunEnd::Halted);
    assert_eq!(ulp_has_booted(&mem), true);
    assert_eq!(UlpReply::OK, UlpReply::load(&mem));
    // The ULP timer restarts the program; each run counts once.
    for _ in 0..20 {
        assert_eq!(run_ulp(&mut mem, 10, &mut hw), RunEnd::Halted);
    }
    let count = UlpLoopCounter::load(&mem);
    assert!(count >= 10);
}

#[test]
fn ipc_xor_test() {
    let mut mem = SharedMemory::new();
    let test_value = 0xff;
    reprogram_with_run_hook(&mut mem, |m| {
        UlpCommand::XOR_TEST.store(m);
        // The value for the LP core to XOR
        m.test_data_in = test_value;
    });
    let mut hw = Vec::new();
    run_ulp(&mut mem, 10, &mut hw);
    assert!(ulp_has_booted(&mem));
    assert_eq!(UlpReply::OK, UlpReply::load(&mem));
    // Check the data
    let result = mem.test_data_out;
    assert_eq!(test_value ^ TEST_XOR_MASK, result);
}

#[test]
fn ulp_xor_test() {
    let mut mem = SharedMemory::new();
    let test_value = 0xff;
    reprogram_with_run_hook(&mut mem, |m| {
        UlpCommand::XOR_TEST.store(m);
        m.test_data_in = test_value;
    });
    let mut hw = Vec::new();
    run_ulp(&mut mem, 3, &mut hw);
    assert!(ulp_has_booted(&mem));
    assert_eq!(UlpReply::OK, UlpReply::load(&mem));
    assert_eq!(test_value ^ TEST_XOR_MASK, mem.test_data_out);
    assert_eq!(test_value ^ TEST_XOR_MASK, 0xca01);
}

#[test]
fn ulp_exception_test() {
    let mut mem = SharedMemory::new();
    reprogram_with_run_hook(&mut mem, |m| {
        UlpCommand::EXCEPTION_TEST.store(m);
        m.test_data_out = 0;
        m.debug_trap_data = 0;
        m.debug_isr_data = 0;
    });
    let mut hw = Vec::new();
    assert_eq!(run_ulp(&mut mem, 10, &mut hw), RunEnd::Trapped);
    assert!(ulp_has_booted(&mem));
    assert_eq!(UlpReply::OK, UlpReply::load(&mem));
    let result = mem.debug_isr_data;
    assert_eq!(0xdeadbeef, result);
    assert_eq!(ILLEGAL_INSTRUCTION_MARK, result);
    // The trapped core counts no more.
    assert_eq!(hw, vec![UlpHardwareOp::IllegalInstruction]);
    assert_eq!(0, UlpHaltCounter::load(&mem));
}

#[test]
fn ulp_interrupt_test() {
    let mut mem = SharedMemory::new();
    reprogram_with_run_hook(&mut mem, |m| {
        UlpCommand::START_INT_TEST.store(m);
        m.test_data_out = 0;
        m.debug_trap_data = 0;
        m.debug_isr_data = 0;
    });
    let mut hw = Vec::new();
    assert_eq!(run_ulp(&mut mem, 5, &mut hw), RunEnd::StillLooping);
    assert!(ulp_has_booted(&mem));
    assert_eq!(UlpReply::OK, UlpReply::load(&mem));
    assert_eq!(5, UlpLoopCounter::load(&mem));
    // Only the first pass enables the interrupt.
    assert_eq!(hw, vec![UlpHardwareOp::EnableStartInterrupt]);
    let result = mem.debug_isr_data;
    assert_eq!(0xcafebabe, result);
    assert_eq!(START_INTERRUPT_MARK, result);
}

#[test]
fn ulp_gpio_interrupt_test() {
    const TOGGLECOUNT: usize = 16;
    const RTCPIN: usize = 8;
    let mut mem = SharedMemory::new();
    reprogram_with_run_hook(&mut mem, |m| {
        UlpCommand::GPIO_INT_TEST.store(m);
        m.test_data_out = 0;
        m.debug_trap_data = 0;
        m.debug_isr_data = 0;
    });
    let mut hw = Vec::new();
    run_ulp(&mut mem, 3, &mut hw);
    assert!(ulp_has_booted(&mem));
    assert_eq!(UlpReply::OK, UlpReply::load(&mem));
    for i in 0..TOGGLECOUNT {
        let hp_output_lvl = i % 2 == 0;
        // The pin toggles (any edge interrupts): the handler sees the
        // status bit and the new level, RTC bits starting at bit 10.
        let level_bits = if hp_output_lvl { 1u32 << (10 + RTCPIN) } else { 0 };
        let status_bits = 1u32 << (10 + RTCPIN);
        gpio_interrupt(&mut mem, level_bits, status_bits);
        let lp_trap_data = mem.debug_trap_data;
        let lp_isr_data = mem.debug_isr_data;
        mem.debug_trap_data = 0;
        mem.debug_isr_data = 0;
        let lp_did_interrupt = ((lp_trap_data >> 10) & (1 << RTCPIN)) != 0;
        let lp_input_lvl = ((lp_isr_data >> 10) & (1 << RTCPIN)) != 0;
        assert_eq!(true, lp_did_interrupt);
        assert_eq!(hp_output_lvl, lp_input_lvl);
    }
}

#[test]
fn integration_ulp_can_stop_itself_then_resumed_by_hp() {
    let mut mem = SharedMemory::new();
    reprogram_with_run_hook(&mut mem, |m| {
        UlpCommand::STOP_TEST.store(m);
        UlpHaltCounter::reset(m);
    });
    let mut hw = Vec::new();
    assert_eq!(run_ulp(&mut mem, 10, &mut hw), RunEnd::Halted);
    assert!(ulp_has_booted(&mem));
    assert_eq!(UlpReply::OK, UlpReply::load(&mem));
    // It stopped its own timer.
    assert_eq!(hw, vec![UlpHardwareOp::StopTimer]);
    assert_eq!(1, UlpBootCounter::load(&mem));
    assert_eq!(1, UlpHaltCounter::load(&mem));
    // Resumed by the HP core: the same command runs again.
    assert_eq!(run_ulp(&mut mem, 10, &mut hw), RunEnd::Halted);
    assert!(ulp_has_booted(&mem));
    assert_eq!(2, UlpBootCounter::load(&mem));
    assert_eq!(2, UlpHaltCounter::load(&mem));
}

// A small deterministic pseudo-random schedule of the two cores.
fn schedule(seed: &mut u64) -> Core {
    *seed = seed.wrapping_mul(6364136223846793005).wrapping_add(1442695040888963407);
    if (*seed >> 33) % 2 == 0 {
        Core::Hp
    } else {
        Core::Ulp
    }
}

fn run_mutex_test(seed: u64) -> MutexTest {
    // The run hook resets the shared variables, then sets the command.
    let mut mem = SharedMemory::new();
    reprogram_with_run_hook(&mut mem, |m| UlpCommand::MUTEX_TEST.store(m));
    let mut t = MutexTest::new(mem, TEST_MUTEX_ITERATIONS);
    let mut seed = seed;
    let mut steps: u64 = 0;
    while !t.is_finished() {
        t.step(schedule(&mut seed), false);
        steps += 1;
        assert!(steps < 10_000_000);
    }
    t
}

#[test]
fn ipc_mutex_lock_test() {
    let t = run_mutex_test(1);
    // Assert no race conditions and we incremented 2x the number of loops
    assert_eq!(2 * TEST_MUTEX_ITERATIONS, UlpLoopCounter::load(&t.mem));
}

#[test]
fn ulp_mutex_lock_test() {
    let t = run_mutex_test(0xdead_beef);
    assert_eq!(2 * TEST_MUTEX_ITERATIONS, UlpLoopCounter::load(&t.mem));
    assert_eq!(TEST_MUTEX_ITERATIONS, t.hp.done);
    assert_eq!(TEST_MUTEX_ITERATIONS, t.ulp.done);
    assert!(!t.mem.lock.flag_hp && !t.mem.lock.flag_ulp);
    assert_eq!(UlpCommand::MUTEX_TEST, t.mem.command);
}

#[test]
fn mutex_test_round_robin_schedule() {
    let mut mem = SharedMemory::new();
    mem.loop_counter = 7;
    let mut t = MutexTest::new(mem, 100);
    let mut steps = 0;
    while !t.is_finished() {
        t.step(Core::Hp, false);
        t.step(Core::Ulp, false);
        steps += 1;
        assert!(steps < 1_000_000);
    }
    assert_eq!(207, t.mem.loop_counter);
}

#[test]
fn mutex_round_on_shared_memory() {
    // The ULP side of MUTEX_TEST: after its rounds the command returns to NOOP.
    let mut mem = SharedMemory::new();
    UlpCommand::MUTEX_TEST.store(&mut mem);
    let plan = ulp_command_begin(&mut mem);
    assert_eq!(plan.hardware, UlpHardwareOp::MutexRounds);
    for _ in 0..TEST_MUTEX_ITERATIONS {
        UlpLoopCounter::increment(&mut mem);
    }
    assert_eq!(ulp_command_finish(&mut mem, plan), LoopControl::Continue);
    assert_eq!(UlpCommand::NOOP, mem.command);
    assert_eq!(UlpReply::OK, mem.reply);
    assert_eq!(TEST_MUTEX_ITERATIONS, mem.loop_counter);
}

#[test]
fn external_interrupt_records_and_clears() {
    let mut mem = SharedMemory::new();
    let c = external_interrupt(&mut mem, 0x40, 0);
    assert_eq!(0xcafebabe, mem.debug_isr_data);
    assert_eq!(Some(0x40), c.sens_bits);
    assert_eq!(None, c.rtcio_bits);
    let c = external_interrupt(&mut mem, 0x80, 0x400);
    assert_eq!(0x80, mem.debug_isr_data);
    assert_eq!(Some(0x80), c.sens_bits);
    assert_eq!(Some(0x400), c.rtcio_bits);
    let c = external_interrupt(&mut mem, 0, 0);
    assert_eq!(0x80, mem.debug_isr_data);
    assert_eq!(None, c.sens_bits);
    assert_eq!(None, c.rtcio_bits);
    // Start bit among others: still the start mark, and all bits cleared.
    let c = external_interrupt(&mut mem, 0xc1, 0);
    assert_eq!(0xcafebabe, mem.debug_isr_data);
    assert_eq!(Some(0xc1), c.sens_bits);
}

// The harness binary's runner: set the command, then start the ULP core
// (timer-driven for the timer counter command).
fn ulp_test_runner(mem: &mut SharedMemory, command: UlpCommand) -> RunEnd {
    reset_ulp_shared_variables(mem);
    command.store(mem);
    let mut hw = Vec::new();
    run_ulp(mem, 10, &mut hw)
}

#[test]
fn main_ulp_loop_counter() {
    let mut mem = SharedMemory::new();
    assert_eq!(ulp_test_runner(&mut mem, UlpCommand::COUNTER_LOOP), RunEnd::StillLooping);
    assert!(ulp_is_looping(&mut mem));
    assert_eq!(UlpReply::load(&mem), UlpReply::OK);
}

#[test]
fn main_ulp_timer_counter() {
    let mut mem = SharedMemory::new();
    assert_eq!(ulp_test_runner(&mut mem, UlpCommand::COUNTER_ULP_TIMER), RunEnd::Halted);
    assert!(ulp_is_looping(&mut mem));
    assert_eq!(UlpReply::load(&mem), UlpReply::OK);
}

#[test]
fn counter_loop_counts_every_pass() {
    let mut mem = SharedMemory::new();
    reprogram_with_run_hook(&mut mem, |m| UlpCommand::COUNTER_LOOP.store(m));
    let mut hw = Vec::new();
    assert_eq!(run_ulp(&mut mem, 10, &mut hw), RunEnd::StillLooping);
    assert_eq!(10, UlpLoopCounter::load(&mem));
    assert_eq!(UlpCommand::COUNTER_LOOP, UlpCommand::load(&mem));
    assert!(hw.is_empty());
}

#[test]
fn waiting_core_with_turn_is_not_overtaken() {
    let mut t = MutexTest::new(SharedMemory::new(), 2);
    // HP raises its flag and gives the turn away, then the ULP core does the same:
    // the turn is now the HP core's.
    t.step(Core::Hp, false);
    t.step(Core::Hp, false);
    t.step(Core::Ulp, false);
    t.step(Core::Ulp, false);
    assert!(!t.mem.lock.is_ulp_turn);
    // However often the ULP core runs, it stays out.
    for _ in 0..10 {
        t.step(Core::Ulp, false);
        assert_eq!(t.ulp.stage, Stage::Acquiring);
    }
    // The HP core gets in within two of its own steps.
    t.step(Core::Hp, false);
    t.step(Core::Hp, false);
    assert_eq!(t.hp.stage, Stage::Load);
}

#[test]
fn core_that_gives_up_holds_nothing_and_tries_again() {
    let mut t = MutexTest::new(SharedMemory::new(), 1);
    // HP takes the lock: raise flag, give turn, see the ULP flag down.
    t.step(Core::Hp, false);
    t.step(Core::Hp, false);
    t.step(Core::Hp, false);
    assert_eq!(t.hp.stage, Stage::Load);
    // ULP raises its flag, gives the turn away, sees HP's flag, reads the turn,
    // and gives up.
    t.step(Core::Ulp, true);
    t.step(Core::Ulp, true);
    t.step(Core::Ulp, true);
    t.step(Core::Ulp, true);
    assert_eq!(t.ulp.stage, Stage::Acquiring);
    assert_eq!(t.ulp.acquire.phase, AcquirePhase::Aborted);
    // Its flag stays raised.
    assert!(t.mem.lock.flag_ulp);
    // HP finishes its round and releases.
    t.step(Core::Hp, false);
    t.step(Core::Hp, false);
    t.step(Core::Hp, false);
    assert_eq!(t.hp.stage, Stage::Finished);
    assert!(!t.mem.lock.flag_hp);
    // ULP starts over and gets in.
    t.step(Core::Ulp, false);
    assert_eq!(t.ulp.acquire.phase, AcquirePhase::RaiseFlag);
    t.step(Core::Ulp, false);
    t.step(Core::Ulp, false);
    t.step(Core::Ulp, false);
    assert_eq!(t.ulp.stage, Stage::Load);
    while !t.is_finished() {
        t.step(Core::Ulp, false);
    }
    assert_eq!(2, t.mem.loop_counter);
}

#[test]
fn mutex_test_with_random_give_ups() {
    let mut mem = SharedMemory::new();
    mem.loop_counter = 3;
    let mut t = MutexTest::new(mem, 200);
    let mut seed: u64 = 42;
    let mut steps: u64 = 0;
    while !t.is_finished() {
        let c = schedule(&mut seed);
        let give_up = seed % 5 == 0;
        t.step(c, give_up);
        assert!(!(t.hp.stage == Stage::Load || t.hp.stage == Stage::Store || t.hp.stage == Stage::Release)
            || !(t.ulp.stage == Stage::Load || t.ulp.stage == Stage::Store || t.ulp.stage == Stage::Release));
        steps += 1;
        assert!(steps < 10_000_000);
    }
    assert_eq!(403, t.mem.loop_counter);
}

fn in_critical(stage: Stage) -> bool {
    stage == Stage::Load || stage == Stage::Store || stage == Stage::Release
}

#[test]
fn waiter_gets_in_after_seven_steps_of_the_other_and_two_of_its_own() {
    let mut t = MutexTest::new(SharedMemory::new(), 3);
    // ULP raises its flag and gives the turn away; HP does the same and sees
    // the turn is the ULP's... then ULP reads: HP's flag up, turn HP's.
    t.step(Core::Ulp, false);
    t.step(Core::Ulp, false);
    t.step(Core::Hp, false);
    t.step(Core::Hp, false);
    // The turn is now the ULP core's: it gets in, and the HP core waits.
    t.step(Core::Ulp, false);
    t.step(Core::Ulp, false);
    assert!(in_critical(t.ulp.stage));
    t.step(Core::Hp, false);
    assert_eq!(t.hp.stage, Stage::Acquiring);
    // Seven steps of the ULP core: through the critical section, a new
    // acquisition, and the turn given away.
    let mut hp_entries = 0;
    for _ in 0..7 {
        t.step(Core::Ulp, false);
        assert!(!in_critical(t.ulp.stage) || !in_critical(t.hp.stage));
    }
    // The ULP core could not get in again ahead of the waiting HP core.
    assert!(!in_critical(t.ulp.stage));
    // Two steps of the HP core get it in.
    for _ in 0..2 {
        let was_in = in_critical(t.hp.stage);
        t.step(Core::Hp, false);
        if !was_in && in_critical(t.hp.stage) {
            hp_entries += 1;
        }
    }
    assert!(in_critical(t.hp.stage));
    assert_eq!(hp_entries, 1);
}

#[test]
fn other_core_bypasses_a_waiter_at_most_once() {
    let mut t = MutexTest::new(SharedMemory::new(), 50);
    // HP gives the turn away first, then ULP: the turn is HP's, ULP waits past
    // its turn, and HP may get in once.
    t.step(Core::Hp, false);
    t.step(Core::Hp, false);
    t.step(Core::Ulp, false);
    t.step(Core::Ulp, false);
    let mut seed: u64 = 7;
    let mut hp_entries = 0;
    let mut steps = 0;
    while !in_critical(t.ulp.stage) {
        let was_in = in_critical(t.hp.stage);
        t.step(schedule(&mut seed), false);
        if !was_in && in_critical(t.hp.stage) {
            hp_entries += 1;
        }
        steps += 1;
        assert!(steps < 1_000_000);
    }
    assert!(hp_entries <= 1);
}
