# cortexm_threads

Pre-emptive round-robin thread switching for ARM Cortex-M processors, with
the scheduler verified by Verus.

- `src/` is the verified library: thread control blocks and the initial
  exception frame (`thread`), the scheduler state machine (`scheduler`),
  its multi-step properties (`laws`), the two-thread kernel (`os`), the
  system control block values it writes (`hw`) and the process descriptors
  (`process`).
- `app/` holds the hardware side: interrupt masking, the memory-mapped
  registers, the global scheduler state and a demonstration program.
- `tests/` runs the library on concrete scenarios.
