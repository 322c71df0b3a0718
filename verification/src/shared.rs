//! The variables that the HP core and the ULP core share, and typed access to
//! them.
//!
//! On the chip these variables are statics in the ULP core's memory, which the
//! HP core reaches at fixed addresses. Here they are the fields of one
//! [`SharedMemory`] value; each shared type reads and writes its own field
//! through [`SharedType`].

use vstd::prelude::*;
use crate::ulp_lock::UlpLock;

verus! {

/// The value that the ULP core XORs into `test_data_in` for the XOR test.
pub const TEST_XOR_MASK: u32 = 0xcafe;

/// Rounds of lock/increment/unlock that each core runs in the mutex test.
pub const TEST_MUTEX_ITERATIONS: u32 = 1000;

/// A command from the HP core to the ULP firmware.
#[allow(non_camel_case_types)]
#[derive(Clone, Copy, Debug, PartialEq, Eq, Structural)]
pub enum UlpCommand {
    NOOP,
    COUNTER_ONESHOT,
    COUNTER_LOOP,
    COUNTER_ULP_TIMER,
    XOR_TEST,
    STOP_TEST,
    MUTEX_TEST,
    TIMER_PERIOD_TEST,
    LIGHT_SLEEP_TEST,
    EXCEPTION_TEST,
    START_INT_TEST,
    GPIO_INT_TEST,
}

/// The ULP firmware's answer to the last command.
#[allow(non_camel_case_types)]
#[derive(Clone, Copy, Debug, PartialEq, Eq, Structural)]
pub enum UlpReply {
    UNKNOWN,
    OK,
    NOK,
}

/// The number by which `c` is stored in the command word: the commands are
/// numbered in the order they are declared, from 0.
pub open spec fn command_number(c: UlpCommand) -> u32 {
    match c {
        UlpCommand::NOOP => 0,
        UlpCommand::COUNTER_ONESHOT => 1,
        UlpCommand::COUNTER_LOOP => 2,
        UlpCommand::COUNTER_ULP_TIMER => 3,
        UlpCommand::XOR_TEST => 4,
        UlpCommand::STOP_TEST => 5,
        UlpCommand::MUTEX_TEST => 6,
        UlpCommand::TIMER_PERIOD_TEST => 7,
        UlpCommand::LIGHT_SLEEP_TEST => 8,
        UlpCommand::EXCEPTION_TEST => 9,
        UlpCommand::START_INT_TEST => 10,
        UlpCommand::GPIO_INT_TEST => 11,
    }
}

/// The number by which `r` is stored in the reply word.
pub open spec fn reply_number(r: UlpReply) -> u32 {
    match r {
        UlpReply::UNKNOWN => 0,
        UlpReply::OK => 1,
        UlpReply::NOK => 2,
    }
}

impl UlpCommand {
    /// The command word that stores this command.
    pub fn to_word(&self) -> (w: u32)
        ensures
            w == command_number(*self),
    {
        match self {
            UlpCommand::NOOP => 0,
            UlpCommand::COUNTER_ONESHOT => 1,
            UlpCommand::COUNTER_LOOP => 2,
            UlpCommand::COUNTER_ULP_TIMER => 3,
            UlpCommand::XOR_TEST => 4,
            UlpCommand::STOP_TEST => 5,
            UlpCommand::MUTEX_TEST => 6,
            UlpCommand::TIMER_PERIOD_TEST => 7,
            UlpCommand::LIGHT_SLEEP_TEST => 8,
            UlpCommand::EXCEPTION_TEST => 9,
            UlpCommand::START_INT_TEST => 10,
            UlpCommand::GPIO_INT_TEST => 11,
        }
    }

    /// The command that the command word `w` stores, if it stores one.
    pub fn from_word(w: u32) -> (r: Option<UlpCommand>)
        ensures
            r matches Some(c) ==> command_number(c) == w,
            r is None <==> w > 11,
    {
        match w {
            0 => Some(UlpCommand::NOOP),
            1 => Some(UlpCommand::COUNTER_ONESHOT),
            2 => Some(UlpCommand::COUNTER_LOOP),
            3 => Some(UlpCommand::COUNTER_ULP_TIMER),
            4 => Some(UlpCommand::XOR_TEST),
            5 => Some(UlpCommand::STOP_TEST),
            6 => Some(UlpCommand::MUTEX_TEST),
            7 => Some(UlpCommand::TIMER_PERIOD_TEST),
            8 => Some(UlpCommand::LIGHT_SLEEP_TEST),
            9 => Some(UlpCommand::EXCEPTION_TEST),
            10 => Some(UlpCommand::START_INT_TEST),
            11 => Some(UlpCommand::GPIO_INT_TEST),
            _ => None,
        }
    }
}

impl UlpReply {
    /// The reply word that stores this reply.
    pub fn to_word(&self) -> (w: u32)
        ensures
            w == reply_number(*self),
    {
        match self {
            UlpReply::UNKNOWN => 0,
            UlpReply::OK => 1,
            UlpReply::NOK => 2,
        }
    }

    /// The reply that the reply word `w` stores; a word that stores none
    /// reads as `UNKNOWN`.
    pub fn from_word(w: u32) -> (r: UlpReply)
        ensures
            w <= 2 ==> reply_number(r) == w,
            w > 2 ==> r == UlpReply::UNKNOWN,
    {
        match w {
            1 => UlpReply::OK,
            2 => UlpReply::NOK,
            _ => UlpReply::UNKNOWN,
        }
    }
}

/// Reads the command word: the command it stores, or, for a word that stores
/// no command, the reply that the firmware gives to an unknown command, `NOK`.
pub fn decode_command(w: u32) -> (r: Result<UlpCommand, UlpReply>)
    ensures
        r matches Ok(c) ==> command_number(c) == w,
        r is Err <==> w > 11,
        r matches Err(reply) ==> reply == UlpReply::NOK,
{
    match UlpCommand::from_word(w) {
        Some(c) => Ok(c),
        None => Err(UlpReply::NOK),
    }
}
/// Two commands are stored as different words.
pub proof fn lemma_command_numbers_distinct(a: UlpCommand, b: UlpCommand)
    ensures
        command_number(a) == command_number(b) ==> a == b,
{
}

/// Each command is stored as its place in the declaration order (NOOP 0,
/// COUNTER_ONESHOT 1, ..., XOR_TEST 4, STOP_TEST 5, MUTEX_TEST 6, ...), and
/// every command has such a place; the reply words are UNKNOWN 0, OK 1, NOK 2.
pub proof fn lemma_command_numbering(c: UlpCommand)
    ensures
        ({
            let declared = seq![
                UlpCommand::NOOP,
                UlpCommand::COUNTER_ONESHOT,
                UlpCommand::COUNTER_LOOP,
                UlpCommand::COUNTER_ULP_TIMER,
                UlpCommand::XOR_TEST,
                UlpCommand::STOP_TEST,
                UlpCommand::MUTEX_TEST,
                UlpCommand::TIMER_PERIOD_TEST,
                UlpCommand::LIGHT_SLEEP_TEST,
                UlpCommand::EXCEPTION_TEST,
                UlpCommand::START_INT_TEST,
                UlpCommand::GPIO_INT_TEST,
            ];
            &&& forall|i: int| 0 <= i < 12 ==> command_number(#[trigger] declared[i]) == i
            &&& exists|i: int| 0 <= i < 12 && declared[i] == c
        }),
        reply_number(UlpReply::UNKNOWN) == 0,
        reply_number(UlpReply::OK) == 1,
        reply_number(UlpReply::NOK) == 2,
{
    let d = seq![
        UlpCommand::NOOP,
        UlpCommand::COUNTER_ONESHOT,
        UlpCommand::COUNTER_LOOP,
        UlpCommand::COUNTER_ULP_TIMER,
        UlpCommand::XOR_TEST,
        UlpCommand::STOP_TEST,
        UlpCommand::MUTEX_TEST,
        UlpCommand::TIMER_PERIOD_TEST,
        UlpCommand::LIGHT_SLEEP_TEST,
        UlpCommand::EXCEPTION_TEST,
        UlpCommand::START_INT_TEST,
        UlpCommand::GPIO_INT_TEST,
    ];
    assert(d[0] == UlpCommand::NOOP);
    assert(d[1] == UlpCommand::COUNTER_ONESHOT);
    assert(d[2] == UlpCommand::COUNTER_LOOP);
    assert(d[3] == UlpCommand::COUNTER_ULP_TIMER);
    assert(d[4] == UlpCommand::XOR_TEST);
    assert(d[5] == UlpCommand::STOP_TEST);
    assert(d[6] == UlpCommand::MUTEX_TEST);
    assert(d[7] == UlpCommand::TIMER_PERIOD_TEST);
    assert(d[8] == UlpCommand::LIGHT_SLEEP_TEST);
    assert(d[9] == UlpCommand::EXCEPTION_TEST);
    assert(d[10] == UlpCommand::START_INT_TEST);
    assert(d[11] == UlpCommand::GPIO_INT_TEST);
}

/// All shared variables.
#[derive(Clone, Copy, Debug)]
pub struct SharedMemory {
    pub command: UlpCommand,
    pub reply: UlpReply,
    pub boot_counter: u32,
    pub loop_counter: u32,
    pub halt_counter: u32,
    pub test_data_in: u32,
    pub test_data_out: u32,
    pub debug_isr_data: u32,
    pub debug_trap_data: u32,
    pub lock: UlpLock,
}

impl SharedMemory {
    /// The variables as the ULP image initialises them.
    pub open spec fn initial() -> SharedMemory {
        SharedMemory {
            command: UlpCommand::NOOP,
            reply: UlpReply::UNKNOWN,
            boot_counter: 0,
            loop_counter: 0,
            halt_counter: 0,
            test_data_in: 0,
            test_data_out: 0,
            debug_isr_data: 0,
            debug_trap_data: 0,
            lock: UlpLock { flag_ulp: false, flag_hp: false, is_ulp_turn: false },
        }
    }

    /// The variables as the ULP image initialises them.
    pub fn new() -> (r: SharedMemory)
        ensures
            r == SharedMemory::initial(),
    {
        SharedMemory {
            command: UlpCommand::NOOP,
            reply: UlpReply::UNKNOWN,
            boot_counter: 0,
            loop_counter: 0,
            halt_counter: 0,
            test_data_in: 0,
            test_data_out: 0,
            debug_isr_data: 0,
            debug_trap_data: 0,
            lock: UlpLock::new(),
        }
    }
}

/// `a` and `b` hold the same value in every shared variable but the one
/// numbered `i`: 0 the command, 1 the reply, 2 the boot counter, 3 the loop
/// counter, 4 the halt counter, 5 the test input, 6 the test output, 7 the
/// interrupt debug word, 8 the trap debug word, 9 the lock.
pub open spec fn agree_except(a: SharedMemory, b: SharedMemory, i: nat) -> bool {
    &&& (i != 0 ==> a.command == b.command)
    &&& (i != 1 ==> a.reply == b.reply)
    &&& (i != 2 ==> a.boot_counter == b.boot_counter)
    &&& (i != 3 ==> a.loop_counter == b.loop_counter)
    &&& (i != 4 ==> a.halt_counter == b.halt_counter)
    &&& (i != 5 ==> a.test_data_in == b.test_data_in)
    &&& (i != 6 ==> a.test_data_out == b.test_data_out)
    &&& (i != 7 ==> a.debug_isr_data == b.debug_isr_data)
    &&& (i != 8 ==> a.debug_trap_data == b.debug_trap_data)
    &&& (i != 9 ==> a.lock == b.lock)
}

/// A type that stands for one shared variable.
pub trait SharedType: Sized {
    /// The type of the variable in memory.
    type VarType;

    /// Which variable of `SharedMemory` this type reads and writes, numbered
    /// as `agree_except` numbers them.
    spec fn var_index() -> nat;

    /// The variable's value in `mem`.
    spec fn read_var(mem: SharedMemory) -> Self::VarType;

    /// `mem` with the variable set to `v`, every other variable unchanged.
    spec fn write_var(mem: SharedMemory, v: Self::VarType) -> SharedMemory;

    /// The value that storing `self` writes.
    spec fn var_of(self) -> Self::VarType;

    /// Reading the variable back gives what was written.
    proof fn lemma_read_after_write(mem: SharedMemory, v: Self::VarType)
        ensures
            Self::read_var(Self::write_var(mem, v)) == v,
    ;

    /// Writing the variable leaves every other shared variable as it was.
    proof fn lemma_write_frame(mem: SharedMemory, v: Self::VarType)
        ensures
            agree_except(mem, Self::write_var(mem, v), Self::var_index()),
    ;

    /// Loads the variable.
    fn load(mem: &SharedMemory) -> (v: Self::VarType)
        ensures
            v == Self::read_var(*mem),
    ;

    /// Stores `self` into the variable.
    fn store(self, mem: &mut SharedMemory)
        ensures
            *final(mem) == Self::write_var(*old(mem), self.var_of()),
    ;
}

/// A shared type that converts to and from the variable's type.
pub trait SharedTypeConversion: SharedType + From<<Self as SharedType>::VarType> {

}

impl SharedType for UlpCommand {
    type VarType = UlpCommand;

    open spec fn var_index() -> nat {
        0
    }

    open spec fn read_var(mem: SharedMemory) -> UlpCommand {
        mem.command
    }

    open spec fn write_var(mem: SharedMemory, v: UlpCommand) -> SharedMemory {
        SharedMemory { command: v, ..mem }
    }

    open spec fn var_of(self) -> UlpCommand {
        self
    }

    proof fn lemma_read_after_write(mem: SharedMemory, v: UlpCommand) {
    }

    proof fn lemma_write_frame(mem: SharedMemory, v: UlpCommand) {
    }

    fn load(mem: &SharedMemory) -> (v: UlpCommand) {
        mem.command
    }

    fn store(self, mem: &mut SharedMemory) {
        mem.command = self;
    }
}

impl SharedType for UlpReply {
    type VarType = UlpReply;

    open spec fn var_index() -> nat {
        1
    }

    open spec fn read_var(mem: SharedMemory) -> UlpReply {
        mem.reply
    }

    open spec fn write_var(mem: SharedMemory, v: UlpReply) -> SharedMemory {
        SharedMemory { reply: v, ..mem }
    }

    open spec fn var_of(self) -> UlpReply {
        self
    }

    proof fn lemma_read_after_write(mem: SharedMemory, v: UlpReply) {
    }

    proof fn lemma_write_frame(mem: SharedMemory, v: UlpReply) {
    }

    fn load(mem: &SharedMemory) -> (v: UlpReply) {
        mem.reply
    }

    fn store(self, mem: &mut SharedMemory) {
        mem.reply = self;
    }
}

/// The number of loop iterations (or increments) the ULP firmware has made.
#[derive(Clone, Copy, Debug, PartialEq, Eq, Structural)]
pub struct UlpLoopCounter(pub u32);

/// The number of times the ULP firmware has started.
#[derive(Clone, Copy, Debug, PartialEq, Eq, Structural)]
pub struct UlpBootCounter(pub u32);

/// The number of times the ULP firmware has left its main loop.
#[derive(Clone, Copy, Debug, PartialEq, Eq, Structural)]
pub struct UlpHaltCounter(pub u32);

impl From<u32> for UlpLoopCounter {
    fn from(value: u32) -> (r: Self) {
        UlpLoopCounter(value)
    }
}

impl vstd::std_specs::convert::FromSpecImpl<u32> for UlpLoopCounter {
    open spec fn obeys_from_spec() -> bool {
        true
    }

    open spec fn from_spec(v: u32) -> Self {
        UlpLoopCounter(v)
    }
}

impl From<UlpLoopCounter> for u32 {
    fn from(value: UlpLoopCounter) -> (r: u32) {
        value.0
    }
}

impl vstd::std_specs::convert::FromSpecImpl<UlpLoopCounter> for u32 {
    open spec fn obeys_from_spec() -> bool {
        true
    }

    open spec fn from_spec(v: UlpLoopCounter) -> u32 {
        v.0
    }
}

impl SharedType for UlpLoopCounter {
    type VarType = u32;

    open spec fn var_index() -> nat {
        3
    }

    open spec fn read_var(mem: SharedMemory) -> u32 {
        mem.loop_counter
    }

    open spec fn write_var(mem: SharedMemory, v: u32) -> SharedMemory {
        SharedMemory { loop_counter: v, ..mem }
    }

    open spec fn var_of(self) -> u32 {
        self.0
    }

    proof fn lemma_read_after_write(mem: SharedMemory, v: u32) {
    }

    proof fn lemma_write_frame(mem: SharedMemory, v: u32) {
    }

    fn load(mem: &SharedMemory) -> (v: u32) {
        mem.loop_counter
    }

    fn store(self, mem: &mut SharedMemory) {
        mem.loop_counter = self.0;
    }
}

impl SharedTypeConversion for UlpLoopCounter {

}

impl UlpLoopCounter {
    /// Adds one to the shared loop counter (a load, then a store).
    pub fn increment(mem: &mut SharedMemory)
        requires
            old(mem).loop_counter < u32::MAX,
        ensures
            *final(mem) == (SharedMemory { loop_counter: (old(mem).loop_counter + 1) as u32, ..*old(mem) }),
    {
        let c = Self::load(mem);
        Self::store(UlpLoopCounter(c + 1), mem);
    }

    /// Sets the shared loop counter to zero.
    pub fn reset(mem: &mut SharedMemory)
        ensures
            *final(mem) == (SharedMemory { loop_counter: 0, ..*old(mem) }),
    {
        Self::store(UlpLoopCounter(0), mem);
    }
}

impl From<u32> for UlpBootCounter {
    fn from(value: u32) -> (r: Self) {
        UlpBootCounter(value)
    }
}

impl vstd::std_specs::convert::FromSpecImpl<u32> for UlpBootCounter {
    open spec fn obeys_from_spec() -> bool {
        true
    }

    open spec fn from_spec(v: u32) -> Self {
        UlpBootCounter(v)
    }
}

impl From<UlpBootCounter> for u32 {
    fn from(value: UlpBootCounter) -> (r: u32) {
        value.0
    }
}

impl vstd::std_specs::convert::FromSpecImpl<UlpBootCounter> for u32 {
    open spec fn obeys_from_spec() -> bool {
        true
    }

    open spec fn from_spec(v: UlpBootCounter) -> u32 {
        v.0
    }
}

impl SharedType for UlpBootCounter {
    type VarType = u32;

    open spec fn var_index() -> nat {
        2
    }

    open spec fn read_var(mem: SharedMemory) -> u32 {
        mem.boot_counter
    }

    open spec fn write_var(mem: SharedMemory, v: u32) -> SharedMemory {
        SharedMemory { boot_counter: v, ..mem }
    }

    open spec fn var_of(self) -> u32 {
        self.0
    }

    proof fn lemma_read_after_write(mem: SharedMemory, v: u32) {
    }

    proof fn lemma_write_frame(mem: SharedMemory, v: u32) {
    }

    fn load(mem: &SharedMemory) -> (v: u32) {
        mem.boot_counter
    }

    fn store(self, mem: &mut SharedMemory) {
        mem.boot_counter = self.0;
    }
}

impl SharedTypeConversion for UlpBootCounter {

}

impl UlpBootCounter {
    /// Adds one to the shared boot counter (a load, then a store).
    pub fn increment(mem: &mut SharedMemory)
        requires
            old(mem).boot_counter < u32::MAX,
        ensures
            *final(mem) == (SharedMemory { boot_counter: (old(mem).boot_counter + 1) as u32, ..*old(mem) }),
    {
        let c = Self::load(mem);
        Self::store(UlpBootCounter(c + 1), mem);
    }

    /// Sets the shared boot counter to zero.
    pub fn reset(mem: &mut SharedMemory)
        ensures
            *final(mem) == (SharedMemory { boot_counter: 0, ..*old(mem) }),
    {
        Self::store(UlpBootCounter(0), mem);
    }
}

impl From<u32> for UlpHaltCounter {
    fn from(value: u32) -> (r: Self) {
        UlpHaltCounter(value)
    }
}

impl vstd::std_specs::convert::FromSpecImpl<u32> for UlpHaltCounter {
    open spec fn obeys_from_spec() -> bool {
        true
    }

    open spec fn from_spec(v: u32) -> Self {
        UlpHaltCounter(v)
    }
}

impl From<UlpHaltCounter> for u32 {
    fn from(value: UlpHaltCounter) -> (r: u32) {
        value.0
    }
}

impl vstd::std_specs::convert::FromSpecImpl<UlpHaltCounter> for u32 {
    open spec fn obeys_from_spec() -> bool {
        true
    }

    open spec fn from_spec(v: UlpHaltCounter) -> u32 {
        v.0
    }
}

impl SharedType for UlpHaltCounter {
    type VarType = u32;

    open spec fn var_index() -> nat {
        4
    }

    open spec fn read_var(mem: SharedMemory) -> u32 {
        mem.halt_counter
    }

    open spec fn write_var(mem: SharedMemory, v: u32) -> SharedMemory {
        SharedMemory { halt_counter: v, ..mem }
    }

    open spec fn var_of(self) -> u32 {
        self.0
    }

    proof fn lemma_read_after_write(mem: SharedMemory, v: u32) {
    }

    proof fn lemma_write_frame(mem: SharedMemory, v: u32) {
    }

    fn load(mem: &SharedMemory) -> (v: u32) {
        mem.halt_counter
    }

    fn store(self, mem: &mut SharedMemory) {
        mem.halt_counter = self.0;
    }
}

impl SharedTypeConversion for UlpHaltCounter {

}

impl UlpHaltCounter {
    /// Adds one to the shared halt counter (a load, then a store).
    pub fn increment(mem: &mut SharedMemory)
        requires
            old(mem).halt_counter < u32::MAX,
        ensures
            *final(mem) == (SharedMemory { halt_counter: (old(mem).halt_counter + 1) as u32, ..*old(mem) }),
    {
        let c = Self::load(mem);
        Self::store(UlpHaltCounter(c + 1), mem);
    }

    /// Sets the shared halt counter to zero.
    pub fn reset(mem: &mut SharedMemory)
        ensures
            *final(mem) == (SharedMemory { halt_counter: 0, ..*old(mem) }),
    {
        Self::store(UlpHaltCounter(0), mem);
    }
}

/// Puts the shared variables that a test run depends on back to their
/// start-up values before the ULP core is reprogrammed: both counters, the
/// command, the reply, the test data and the lock. The halt counter and the
/// debug words are left as they are.
pub fn reset_ulp_shared_variables(mem: &mut SharedMemory)
    ensures
        *final(mem) == (SharedMemory {
            command: UlpCommand::NOOP,
            reply: UlpReply::UNKNOWN,
            boot_counter: 0,
            loop_counter: 0,
            test_data_in: 0,
            test_data_out: 0,
            lock: UlpLock { flag_ulp: false, flag_hp: false, is_ulp_turn: false },
            ..*old(mem)
        }),
{
    UlpBootCounter::reset(mem);
    UlpLoopCounter::reset(mem);
    UlpReply::UNKNOWN.store(mem);
    UlpCommand::NOOP.store(mem);
    mem.test_data_in = 0;
    mem.test_data_out = 0;
    mem.lock.reset();
}

/// Whether the ULP firmware has started at least once since the counters were
/// reset.
pub fn ulp_has_booted(mem: &SharedMemory) -> (r: bool)
    ensures
        r == (mem.boot_counter != 0),
{
    UlpBootCounter::load(mem) != 0
}

} // verus!
