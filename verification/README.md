# ulp_shared

Verified logic of the ESP32-S2/S3 HP-core / ULP-core test crates: the
shared-memory Peterson lock (with the law of a whole acquisition call and its
termination once the busy-loop callback stops) and the two-core mutex exercise
(with proofs of mutual exclusion, also when a core gives up waiting, of no
lost increments, of bounded bypass and of progress for every waiting core),
the shared variables and the ULP
test firmware's command handling, the HP-side test decisions, the debug
register decoding, the tachometer, the ELF symbol extraction and the small
example firmwares.

- `src/` — the Verus library (`locks`, `ulp_lock`, `mutex_model`, `shared`,
  `firmware`, `counter_tacho`, `ulp_debug`, `ulp_utils`, `global_symbols`,
  `blinky`, `rainbow`).
- `tests/` — scenario tests that run the firmware model the way the hardware
  test suite runs the chip, and unit tests.
- `app/` — the ELF symbol extraction command line tool, and the glue that runs
  the library's state machines against the chips' shared memory.

The lock laws model each core's accesses to the lock as single-field loads
and stores that both cores see in one order (sequential consistency); on the
chip this holds because each field of the 4-byte aligned lock is written by
a single store and read by a single load.
