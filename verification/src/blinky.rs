//! The counter firmwares of the examples: each run (or each loop pass) of the
//! ULP program bumps a counter in shared memory, and some of them wake the HP
//! core or stop on conditions.

use vstd::prelude::*;

verus! {

/// The counter after `count`, wrapping from `u32::MAX` to zero.
pub open spec fn wrapping_next(count: u32) -> u32 {
    if count == u32::MAX {
        0
    } else {
        (count + 1) as u32
    }
}

/// One run of the wake-up blinky: the counter advances (wrapping), and the HP
/// core is woken whenever the new value is a multiple of ten.
pub fn ulp_blinky_tick(count: u32) -> (r: (u32, bool))
    ensures
        r.0 == wrapping_next(count),
        r.1 == (r.0 % 10 == 0),
{
    let i = count.wrapping_add(1u32);
    (i, i % 10 == 0)
}

/// One pass of the mode-driven blinky loop: the counter advances (wrapping);
/// the loop stops after this pass when `mode` is 1, else it waits a second and
/// goes on.
pub fn counter_blinky_tick(count: u32, mode: u32) -> (r: (u32, bool))
    ensures
        r.0 == wrapping_next(count),
        r.1 == (mode == 1),
{
    let next = count.wrapping_add(1u32);
    (next, mode == 1)
}

/// One wake-up of the interrupt-driven counter: the counter goes up by one.
pub fn baremetal_wake(count: u32) -> (r: u32)
    requires
        count < u32::MAX,
    ensures
        r == count + 1,
{
    count + 1
}

/// The GPIO interrupt handler of the interrupt-driven counter: when the
/// button is the source of the interrupt the counter is reset to zero, else
/// it is left as it is.
pub fn gpio_interrupt_handler(count: u32, button_interrupt: bool) -> (r: u32)
    ensures
        r == if button_interrupt { 0 } else { count },
{
    if button_interrupt {
        0
    } else {
        count
    }
}

} // verus!
