use ulp_shared::blinky::{baremetal_wake, counter_blinky_tick, gpio_interrupt_handler, ulp_blinky_tick};
use ulp_shared::counter_tacho::{Sample, SampleTachometer};
use ulp_shared::firmware::{
    delay_pending, misaligned_load, my_debug_start_trap, sens_interrupt, start_int_set, ulp_command_begin,
    ulp_command_finish, LoopControl, UlpHardwareOp, MISALIGNED_LOAD_MARK, TENTH_SECOND_CYCLES,
};
use ulp_shared::global_symbols::{
    get_global_symbols, hex_address, linker_script_line, SymbolEntry,
};
use ulp_shared::locks::{
    ulp_riscv_lock_acquire, ulp_riscv_lock_release, AcquirePhase, Core, LockAccess,
    LockAcquire, LockTurn, LockValue, UlpLock,
};
use ulp_shared::rainbow::{rainbow_step, Debounce, DebounceStep};
use ulp_shared::shared::{
    decode_command, reset_ulp_shared_variables, ulp_has_booted, SharedMemory, SharedType, UlpBootCounter,
    UlpCommand, UlpHaltCounter, UlpLoopCounter, UlpReply,
};
use ulp_shared::ulp_debug::{CocpuDebug, CocpuRegisters, FromRegister, SarCocpuState};
use ulp_shared::ulp_lock;
use ulp_shared::ulp_utils::{
    monitor_step, ulp_timer_period, CounterMonitor, LoopingProbe, MonitorAction, ProbePoll,
};

// Runs an acquisition against a lock nobody else touches.
fn acquire_alone(lock: &mut UlpLock, side: Core) -> LockAcquire {
    let mut a = LockAcquire::new(side);
    while let Some(acc) = a.pending_access() {
        let v = lock.perform(side, acc);
        a.advance(v);
    }
    a
}

#[test]
fn lock_new_is_free() {
    let l = UlpLock::new();
    assert!(!l.flag_hp && !l.flag_ulp);
    assert_eq!(l.turn, LockTurn::Hp);
}

#[test]
fn lock_acquire_alone_succeeds() {
    let mut l = UlpLock::new();
    let a = acquire_alone(&mut l, Core::Hp);
    assert!(a.is_acquired());
    assert!(l.flag_hp);
    assert!(!l.flag_ulp);
    // The HP core gave the turn to the ULP core.
    assert_eq!(l.turn, LockTurn::Ulp);
    ulp_riscv_lock_release(&mut l, Core::Hp);
    assert!(!l.flag_hp);
    assert_eq!(l.turn, LockTurn::Ulp);
}

#[test]
fn lock_second_core_waits() {
    let mut l = UlpLock::new();
    let hp = acquire_alone(&mut l, Core::Hp);
    assert!(hp.is_acquired());
    // The ULP core raises its flag, gives the turn to the HP core, and must wait.
    let mut ulp = LockAcquire::new(Core::Ulp);
    for _ in 0..4 {
        ulp.step(&mut l);
    }
    assert!(ulp.is_backing_off());
    ulp.retry();
    assert_eq!(ulp.phase, AcquirePhase::CheckFlag);
    // The HP core releases; the ULP core now gets through.
    ulp_riscv_lock_release(&mut l, Core::Hp);
    let v = l.perform(Core::Ulp, ulp.pending_access().unwrap());
    assert_eq!(v, LockValue::Flag(false));
    ulp.advance(v);
    assert!(ulp.is_acquired());
}

#[test]
fn lock_attempt_counts_rounds_and_gives_up() {
    let mut l = UlpLock { flag_ulp: true, flag_hp: false, turn: LockTurn::Ulp };
    let mut att = ulp_riscv_lock_acquire(Core::Hp);
    let mut rounds = 0;
    loop {
        if let Some(acc) = att.pending_access() {
            let v = l.perform(Core::Hp, acc);
            att.advance(v);
            continue;
        }
        if let Some(r) = att.outcome() {
            assert_eq!(r, Err(3));
            break;
        }
        let n = att.begin_wait_round();
        rounds += 1;
        assert_eq!(n, rounds);
        att.end_wait_round(n >= 3);
    }
    // Giving up leaves the flag raised.
    assert!(l.flag_hp);
}

#[test]
fn lock_attempt_ok_without_waiting() {
    let mut l = UlpLock::new();
    let mut att = ulp_riscv_lock_acquire(Core::Ulp);
    while let Some(acc) = att.pending_access() {
        let v = l.perform(Core::Ulp, acc);
        att.advance(v);
    }
    assert_eq!(att.outcome(), Some(Ok(0)));
    assert_eq!(l.turn, LockTurn::Hp);
}

#[test]
fn lock_give_up_outside_backoff_is_no_op() {
    let mut a = LockAcquire::new(Core::Hp);
    a.give_up();
    assert_eq!(a.phase, AcquirePhase::RaiseFlag);
    a.retry();
    assert_eq!(a.phase, AcquirePhase::RaiseFlag);
    assert_eq!(a.pending_access(), Some(LockAccess::WriteFlag(true)));
}

#[test]
fn legacy_lock_maps_turn_to_bit() {
    let mut l = ulp_lock::UlpLock::new();
    assert!(!l.is_ulp_turn);
    let mut a = ulp_lock::UlpLock::acquire(Core::Hp);
    while let Some(acc) = a.pending_access() {
        let v = l.perform(Core::Hp, acc);
        a.advance(v);
    }
    assert!(a.is_acquired());
    // The HP core hands the turn to the ULP core.
    assert!(l.is_ulp_turn);
    assert!(l.flag_hp);
    assert_eq!(l.perform(Core::Ulp, LockAccess::ReadTurn), LockValue::Turn(LockTurn::Ulp));
    l.release(Core::Hp);
    assert!(!l.flag_hp);
    assert!(l.is_ulp_turn);
    l.reset();
    assert!(!l.flag_hp && !l.flag_ulp && !l.is_ulp_turn);
}

#[test]
fn counters_increment_and_reset() {
    let mut mem = SharedMemory::new();
    UlpLoopCounter::increment(&mut mem);
    UlpLoopCounter::increment(&mut mem);
    assert_eq!(2, UlpLoopCounter::load(&mem));
    UlpBootCounter::increment(&mut mem);
    assert_eq!(1, UlpBootCounter::load(&mem));
    UlpHaltCounter::increment(&mut mem);
    assert_eq!(1, UlpHaltCounter::load(&mem));
    UlpLoopCounter::reset(&mut mem);
    assert_eq!(0, UlpLoopCounter::load(&mem));
    assert_eq!(1, UlpBootCounter::load(&mem));
    UlpBootCounter::reset(&mut mem);
    UlpHaltCounter::reset(&mut mem);
    assert_eq!(0, mem.boot_counter);
    assert_eq!(0, mem.halt_counter);
}

#[test]
fn counters_convert_to_and_from_u32() {
    let c: UlpLoopCounter = 7u32.into();
    assert_eq!(c, UlpLoopCounter(7));
    let v: u32 = UlpBootCounter::from(9).into();
    assert_eq!(v, 9);
    let mut mem = SharedMemory::new();
    UlpHaltCounter::from(5).store(&mut mem);
    assert_eq!(5, UlpHaltCounter::load(&mem));
}

#[test]
fn store_then_load_each_variable() {
    let mut mem = SharedMemory::new();
    UlpCommand::XOR_TEST.store(&mut mem);
    UlpReply::NOK.store(&mut mem);
    assert_eq!(UlpCommand::XOR_TEST, UlpCommand::load(&mem));
    assert_eq!(UlpReply::NOK, UlpReply::load(&mem));
    assert_eq!(0, mem.loop_counter);
}

#[test]
fn reset_shared_variables_keeps_halt_and_debug() {
    let mut mem = SharedMemory::new();
    mem.boot_counter = 3;
    mem.loop_counter = 4;
    mem.halt_counter = 5;
    mem.test_data_in = 6;
    mem.test_data_out = 7;
    mem.debug_isr_data = 8;
    mem.command = UlpCommand::STOP_TEST;
    mem.reply = UlpReply::OK;
    mem.lock.flag_hp = true;
    assert!(ulp_has_booted(&mem));
    reset_ulp_shared_variables(&mut mem);
    assert!(!ulp_has_booted(&mem));
    assert_eq!(0, mem.loop_counter);
    assert_eq!(5, mem.halt_counter);
    assert_eq!(0, mem.test_data_in);
    assert_eq!(0, mem.test_data_out);
    assert_eq!(8, mem.debug_isr_data);
    assert_eq!(UlpCommand::NOOP, mem.command);
    assert_eq!(UlpReply::UNKNOWN, mem.reply);
    assert!(!mem.lock.flag_hp);
}

#[test]
fn timer_period_test_plan() {
    let mut mem = SharedMemory::new();
    mem.command = UlpCommand::TIMER_PERIOD_TEST;
    mem.test_data_in = 265;
    let plan = ulp_command_begin(&mut mem);
    assert_eq!(plan.hardware, UlpHardwareOp::SetTimerPeriod(265));
    // The reply comes only after the timer was set.
    assert_eq!(UlpReply::UNKNOWN, mem.reply);
    assert_eq!(1, mem.loop_counter);
    assert_eq!(ulp_command_finish(&mut mem, plan), LoopControl::Exit);
    assert_eq!(UlpReply::OK, mem.reply);
}

#[test]
fn light_sleep_test_plan() {
    let mut mem = SharedMemory::new();
    mem.command = UlpCommand::LIGHT_SLEEP_TEST;
    let plan = ulp_command_begin(&mut mem);
    assert_eq!(plan.hardware, UlpHardwareOp::WakeHpWhenUnlocked);
    assert_eq!(UlpReply::OK, mem.reply);
    assert_eq!(ulp_command_finish(&mut mem, plan), LoopControl::Exit);
}

#[test]
fn noop_pass_only_replies() {
    let mut mem = SharedMemory::new();
    let plan = ulp_command_begin(&mut mem);
    assert_eq!(plan.hardware, UlpHardwareOp::Nothing);
    assert!(plan.first_pass);
    assert_eq!(ulp_command_finish(&mut mem, plan), LoopControl::Continue);
    assert_eq!(UlpReply::OK, mem.reply);
    assert_eq!(0, mem.loop_counter);
}

#[test]
fn trap_and_interrupt_handlers() {
    let mut mem = SharedMemory::new();
    misaligned_load(&mut mem);
    assert_eq!(MISALIGNED_LOAD_MARK, mem.debug_isr_data);
    assert_eq!(0xbeef, mem.debug_isr_data);
    assert!(!sens_interrupt(&mut mem, 0x80));
    assert_eq!(0xbeef, mem.debug_isr_data);
    assert!(sens_interrupt(&mut mem, 0x41));
    assert_eq!(0xcafebabe, mem.debug_isr_data);
    my_debug_start_trap(&mut mem, 0x1234);
    assert_eq!(0x1234, mem.debug_trap_data);
}

#[test]
fn busy_wait_decision() {
    assert!(delay_pending(10, 10 + TENTH_SECOND_CYCLES, TENTH_SECOND_CYCLES));
    assert!(!delay_pending(10, 11 + TENTH_SECOND_CYCLES, TENTH_SECOND_CYCLES));
    // The count wrapped around.
    assert!(delay_pending(u64::MAX - 5, 3, 1750));
    assert!(!delay_pending(u64::MAX - 5, 2000, 1750));
}

#[test]
fn tachometer_first_sample_is_kept() {
    let mut t = SampleTachometer::new();
    assert!(t.last_sample().is_none());
    t.update(Sample::new(5, 1000));
    assert_eq!(t.last_sample(), Some(Sample::new(5, 1000)));
    assert!(t.changed());
    assert!(!t.changed());
    assert_eq!(t.count_period(), None);
    assert_eq!(t.count_rate(), None);
}

#[test]
fn tachometer_averages_periods() {
    let mut t = SampleTachometer::new();
    t.update(Sample::new(0, 0));
    t.changed();
    // Same count: nothing kept.
    t.update(Sample::new(0, 500));
    assert!(!t.changed());
    assert_eq!(t.last_sample(), Some(Sample::new(0, 0)));
    // Two counts in 1000 us: 500 us per count.
    t.update(Sample::new(2, 1000));
    assert!(t.changed());
    // One count in 1500 us.
    t.update(Sample::new(3, 2500));
    assert_eq!(t.count_period(), Some(1000));
    assert_eq!(t.count_rate(), Some(1000));
    assert_eq!(t.period_samples, 2);
    assert_eq!(t.period_sum, 2000);
    t.reset();
    assert!(!t.changed());
    assert_eq!(t.count_period(), None);
    assert!(t.last_sample().is_none());
}

#[test]
fn cocpu_state_decodes_bits() {
    let regs = CocpuRegisters { state: (1 << 26) | (1 << 29), debug: 0 };
    let s = SarCocpuState::read(regs);
    assert_eq!(s, SarCocpuState { clk_en_st: true, reset_n: false, eoi: false, trap: true, ebreak: false });
}

#[test]
fn cocpu_debug_decodes_fields() {
    let debug = 0x0123 | (1 << 13) | (0x5 << 15) | (0x0abc << 19);
    let regs = CocpuRegisters { state: 1 << 30, debug };
    let d = CocpuDebug::read(regs);
    assert_eq!(d.pc, 0x0123);
    assert!(d.mem_valid);
    assert!(!d.mem_ready);
    assert_eq!(d.write_enable, 5);
    assert_eq!(d.mem_address, 0x0abc);
    assert!(d.state.ebreak);
    assert_eq!(d.pc_address(), 0x5000_0123);
}

#[test]
fn decode_instruction_at_pc() {
    // lui a0, 0x12345
    assert!(CocpuDebug::decode_instruction(0x12345537).is_ok());
    // addi x0, x0, 0 (nop)
    assert!(CocpuDebug::decode_instruction(0x00000013).is_ok());
    // custom-0 opcode
    assert_eq!(
        CocpuDebug::decode_instruction(0x0000000b).unwrap_err(),
        riscv_decode::DecodingError::Custom
    );
    // csrrs a1, mcause, zero decodes as a CSR instruction
    assert!(CocpuDebug::decode_instruction(0x342025f3).is_ok());
}

#[test]
fn looping_probe_sees_change() {
    let p = LoopingProbe::new(100, 7);
    assert_eq!(p.poll(150, 7), ProbePoll::Waiting);
    match p.poll(1100, 9) {
        ProbePoll::Done(r) => {
            assert!(r.looping);
            assert_eq!(r.before, 7);
            assert_eq!(r.after, 9);
            assert_eq!(r.rate_hz, Some(2000));
        }
        ProbePoll::Waiting => panic!("expected the probe to end"),
    }
}

#[test]
fn looping_probe_times_out() {
    let p = LoopingProbe::new(0, 3);
    assert_eq!(p.poll(999_999, 3), ProbePoll::Waiting);
    match p.poll(1_000_000, 3) {
        ProbePoll::Done(r) => {
            assert!(!r.looping);
            assert_eq!(r.rate_hz, None);
        }
        ProbePoll::Waiting => panic!("expected a timeout"),
    }
}

#[test]
fn timer_period_field() {
    assert_eq!(ulp_timer_period(1), 256);
    assert_eq!(ulp_timer_period(530), 530 * 256);
    assert_eq!(ulp_timer_period(0x0100_0001), 256);
}

fn sym(info: u8, shndx: u16, value: u64, size: u64, name: &str) -> SymbolEntry {
    SymbolEntry {
        st_bind: info >> 4,
        st_symtype: info & 0xf,
        st_shndx: shndx,
        st_value: value,
        st_size: size,
        name: Some(name.to_string()),
    }
}

#[test]
fn global_symbols_are_filtered_and_placed() {
    let syms = vec![
        sym(0x11, 1, 0x10, 4, "ULP_COMMAND"),
        sym(0x12, 1, 0x20, 4, "main"),
        sym(0x01, 1, 0x30, 4, "local_var"),
        sym(0x11, 2, 0x8, 0, "ZERO_SIZED"),
        sym(0x11, 2, 0x4, 4, "ULP_REPLY"),
        SymbolEntry { st_bind: 0, st_symtype: 2, st_shndx: 99, st_value: 0, st_size: 0, name: None },
    ];
    let offsets = vec![0, 0x1000, 0x2000];
    let r = get_global_symbols(&syms, &offsets, false);
    assert_eq!(r.len(), 2);
    assert_eq!(r[0].name, "ULP_COMMAND");
    assert_eq!(r[0].address, 0x1010);
    assert_eq!(r[1].name, "ULP_REPLY");
    assert_eq!(r[1].address, 0x2004);
    let r = get_global_symbols(&syms, &offsets, true);
    assert_eq!(r.len(), 3);
    assert_eq!(r[1].name, "ZERO_SIZED");
    assert_eq!(r[1].address, 0x2008);
}

#[test]
fn hex_and_linker_lines() {
    assert_eq!(hex_address(0), "0x0");
    assert_eq!(hex_address(255), "0xff");
    assert_eq!(hex_address(u64::MAX), format!("{:#x}", u64::MAX));
    assert_eq!(hex_address(0x5000_1010), format!("{:#x}", 0x5000_1010u64));
    let name = String::from("ULP_COMMAND");
    assert_eq!(linker_script_line(&name, 0x1010, 0x5000_0000), "PROVIDE(ULP_COMMAND = 0x50001010);");
}

#[test]
fn blinky_counters() {
    assert_eq!(ulp_blinky_tick(8), (9, false));
    assert_eq!(ulp_blinky_tick(9), (10, true));
    assert_eq!(ulp_blinky_tick(u32::MAX), (0, true));
    assert_eq!(counter_blinky_tick(4, 0), (5, false));
    assert_eq!(counter_blinky_tick(u32::MAX, 1), (0, true));
    assert_eq!(baremetal_wake(41), 42);
    assert_eq!(gpio_interrupt_handler(41, true), 0);
    assert_eq!(gpio_interrupt_handler(41, false), 41);
}

#[test]
fn rainbow_frames() {
    let f = rainbow_step(0, true);
    assert_eq!(f.hsv_colour, Some((64, 0, 0)));
    assert_eq!(f.next_counter, 1);
    let f = rainbow_step(1, false);
    assert_eq!(f.hsv_colour, Some((64, 1, 0)));
    assert_eq!(f.next_counter, 2);
    let f = rainbow_step(300, false);
    assert_eq!(f.hsv_colour, Some((61, 64, 0)));
    // Hue 100: green full, red off; hue 200: blue full, green off.
    assert_eq!(rainbow_step(100, false).hsv_colour, Some((0, 64, 22)));
    assert_eq!(rainbow_step(456, false).hsv_colour, Some((45, 0, 64)));
    let f = rainbow_step(7, true);
    assert!(f.hsv_colour.is_none());
    assert_eq!(f.brightness, 16);
    assert_eq!(f.next_counter, 7);
}

#[test]
fn debounce_wakes_after_enough_presses() {
    let pressed = 1u32 << (10 + 5);
    let mut d = Debounce::new();
    let mut last = DebounceStep::ReadAgain;
    let mut reads = 0;
    while last == DebounceStep::ReadAgain {
        last = d.sample(pressed);
        reads += 1;
    }
    assert_eq!(reads, 50);
    assert_eq!(last, DebounceStep::Done { wake: true, after_delay: false });
}

#[test]
fn debounce_gives_up_after_max_reads() {
    let pressed = 1u32 << (10 + 5);
    let mut d = Debounce::new();
    let mut last = DebounceStep::ReadAgain;
    let mut reads = 0u32;
    while last == DebounceStep::ReadAgain {
        // Every other read sees the button.
        last = d.sample(if reads % 2 == 0 { pressed } else { 0 });
        reads += 1;
    }
    assert_eq!(reads, 99);
    assert_eq!(d.press_votes, 50);
    assert_eq!(last, DebounceStep::Done { wake: true, after_delay: false });
    let mut d = Debounce::new();
    let mut last = DebounceStep::ReadAgain;
    while last == DebounceStep::ReadAgain {
        last = d.sample(0);
    }
    assert_eq!(d.reads, 100);
    assert_eq!(last, DebounceStep::Done { wake: false, after_delay: true });
}

// A call of the lock acquisition against a lock whose other side changes its
// flag and the turn between steps as `others` says; returns the outcome and
// the callback arguments in order.
fn acquire_call(
    side: Core,
    lock: &mut UlpLock,
    others: &[(bool, LockTurn)],
    stop: impl Fn(usize) -> bool,
) -> (Option<Result<usize, usize>>, Vec<usize>) {
    let mut att = ulp_riscv_lock_acquire(side);
    let mut calls = Vec::new();
    for &(other_flag, turn) in others {
        match side {
            Core::Hp => lock.flag_ulp = other_flag,
            Core::Ulp => lock.flag_hp = other_flag,
        }
        lock.turn = turn;
        if let Some(acc) = att.pending_access() {
            let v = lock.perform(side, acc);
            att.advance(v);
        } else if att.outcome().is_none() {
            let n = att.begin_wait_round();
            calls.push(n);
            att.end_wait_round(stop(n));
        }
    }
    (att.outcome(), calls)
}

#[test]
fn lock_call_counts_one_two_three_then_acquires() {
    let mut l = UlpLock::new();
    // The HP core keeps its flag up with the turn its own for three rounds,
    // then lowers its flag.
    let mut others = vec![(true, LockTurn::Hp); 2 + 3 * 3];
    others.extend(vec![(false, LockTurn::Hp); 4]);
    let (r, calls) = acquire_call(Core::Ulp, &mut l, &others, |_| false);
    assert_eq!(r, Some(Ok(3)));
    assert_eq!(calls, vec![1, 2, 3]);
    assert!(l.flag_ulp);
}

#[test]
fn lock_call_ends_when_callback_stops() {
    let mut l = UlpLock::new();
    // The other core never lets go; the callback stops from count 4 on.
    let others = vec![(true, LockTurn::Hp); 3 * 4 + 2];
    let (r, calls) = acquire_call(Core::Ulp, &mut l, &others, |n| n >= 4);
    assert_eq!(r, Some(Err(4)));
    assert_eq!(calls, vec![1, 2, 3, 4]);
    // An Err leaves the own flag raised.
    assert!(l.flag_ulp);
}

#[test]
fn tachometer_counts_only_moving_updates() {
    let mut t = SampleTachometer::new();
    t.update(Sample::new(10, 1_000));
    t.update(Sample::new(10, 1_500));
    assert!(t.changed());
    t.update(Sample::new(10, 1_700));
    t.update(Sample::new(14, 2_100));
    t.update(Sample::new(14, 2_200));
    t.update(Sample::new(16, 2_700));
    // Two updates moved the count: periods (2100 - 1500) / 4 and, the sample
    // at 2200 having replaced the one at 2100 while the flag was up,
    // (2700 - 2200) / 2.
    assert_eq!(t.period_samples, 2);
    assert_eq!(t.period_sum, 150 + 250);
    assert_eq!(t.count_period(), Some(200));
    t.reset();
    assert_eq!(t.period_samples, 0);
    assert_eq!(t.period_sum, 0);
    assert_eq!(t.count_period(), None);
    t.update(Sample::new(3, 10));
    assert_eq!(t.count_period(), None);
}

#[test]
fn zero_sized_symbols_only_add_entries() {
    let syms = vec![
        sym(0x11, 1, 0x10, 4, "A"),
        sym(0x11, 1, 0x14, 0, "B_ZERO"),
        sym(0x11, 1, 0x18, 4, "C"),
    ];
    let offsets = vec![0, 0x100];
    let without = get_global_symbols(&syms, &offsets, false);
    let with = get_global_symbols(&syms, &offsets, true);
    let sized: Vec<SymbolEntry> = syms.iter().filter(|s| s.st_size != 0).cloned().collect();
    let sized_with = get_global_symbols(&sized, &offsets, true);
    let names = |v: &Vec<ulp_shared::global_symbols::GlobalObjectSymbol>| {
        v.iter().map(|g| (g.address, g.name.clone())).collect::<Vec<_>>()
    };
    assert_eq!(names(&without), names(&sized_with));
    assert_eq!(names(&without), vec![(0x110, "A".to_string()), (0x118, "C".to_string())]);
    assert_eq!(with.len(), 3);
    assert!(without.len() < with.len());
    // Without zero-sized symbols the flag makes no difference.
    assert_eq!(names(&get_global_symbols(&sized, &offsets, false)), names(&sized_with));
}

#[test]
fn command_words_round_trip_and_unknown_is_nok() {
    for w in 0..12u32 {
        let c = UlpCommand::from_word(w).unwrap();
        assert_eq!(c.to_word(), w);
        assert_eq!(decode_command(w), Ok(c));
    }
    assert_eq!(UlpCommand::from_word(12), None);
    assert_eq!(decode_command(12), Err(UlpReply::NOK));
    assert_eq!(decode_command(0xffff_ffff), Err(UlpReply::NOK));
    assert_eq!(UlpCommand::MUTEX_TEST.to_word(), 6);
    assert_eq!(UlpReply::NOK.to_word(), 2);
    assert_eq!(UlpReply::from_word(1), UlpReply::OK);
    assert_eq!(UlpReply::from_word(7), UlpReply::UNKNOWN);
}

#[test]
fn start_interrupt_bit_is_bit_six() {
    assert!(start_int_set(0x40));
    assert!(start_int_set(0xffff_ffff));
    assert!(!start_int_set(0x80));
    assert!(!start_int_set(0x3f));
}

#[test]
fn counter_monitor_reports_changes_and_dumps_when_still() {
    let mut m = CounterMonitor::new(5, 1_000);
    assert_eq!(monitor_step(&mut m, 1_500, 5), MonitorAction::Nothing);
    assert_eq!(
        monitor_step(&mut m, 3_000, 7),
        MonitorAction::Report { delta_us: 2_000, from: 5, to: 7 }
    );
    assert_eq!(m, CounterMonitor { count: 7, last_change_us: 3_000, last_event_us: 3_000 });
    // Still for just under two seconds: nothing; at two seconds: a dump.
    assert_eq!(monitor_step(&mut m, 2_002_999, 7), MonitorAction::Nothing);
    assert_eq!(monitor_step(&mut m, 2_003_000, 7), MonitorAction::DumpDebug);
    assert_eq!(m.last_event_us, 2_003_000);
    assert_eq!(m.last_change_us, 3_000);
    // The next change is timed from the last change, not from the dump.
    assert_eq!(
        monitor_step(&mut m, 2_500_000, 8),
        MonitorAction::Report { delta_us: 2_497_000, from: 7, to: 8 }
    );
}

#[test]
fn storing_a_shared_variable_leaves_the_others() {
    let mut mem = SharedMemory::new();
    mem.test_data_in = 9;
    mem.debug_isr_data = 3;
    let before = mem;
    UlpCommand::XOR_TEST.store(&mut mem);
    UlpLoopCounter(4).store(&mut mem);
    assert_eq!(mem.command, UlpCommand::XOR_TEST);
    assert_eq!(mem.loop_counter, 4);
    assert_eq!(mem.reply, before.reply);
    assert_eq!(mem.boot_counter, before.boot_counter);
    assert_eq!(mem.halt_counter, before.halt_counter);
    assert_eq!(mem.test_data_in, 9);
    assert_eq!(mem.debug_isr_data, 3);
}
