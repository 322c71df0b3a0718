//! Shared-memory inter-processor communication between the high-power (HP)
//! core and the ultra-low-power (ULP) RISC-V core of an ESP32-S2/S3: the
//! Peterson lock that guards shared variables, the shared variables themselves,
//! the command protocol that the ULP firmware serves, and the small pieces of
//! logic that the HP test harness and the example firmwares run around them.

pub mod locks;
pub mod mutex_model;
pub mod ulp_lock;
pub mod shared;
pub mod firmware;
pub mod counter_tacho;
pub mod ulp_debug;
pub mod ulp_utils;
pub mod global_symbols;
pub mod blinky;
pub mod rainbow;

pub use locks::{Core, LockAccess, LockAcquire, LockTurn, LockValue, AcquirePhase, UlpLock};
