# tock-cc2538, verified

A Verus library holding the logic of Tock OS on the TI CC2538 (the
OpenMote board), with its contracts and laws proved.

- `src/sched.rs`: the kernel's count of outstanding work and the decisions
  of its main loop and per-process loop (quantum expiry, what to do with a
  process's state, a dequeued task, a returned process, a system call, an
  `allow`).
- `src/gpio.rs`, `src/ioc.rs`, `src/sys_ctrl.rs`, `src/uart.rs`: the CC2538
  drivers, each over a model of its register block (the value of every
  register).
- `src/crt1.rs`: start-up relocation and zeroing of memory, modelled as a
  slice of words.
- `src/analog_comparator.rs`, `src/analog_sensor.rs`, `src/sensys.rs`,
  `src/hello_world.rs`: capsules.
- `src/openmote.rs`, `src/test_mod.rs`: board configuration, driver
  selection, the debug writer, and a UART test pattern.

`app/` is the board and chip support around the library: volatile register
access, the loops that call the kernel's processes and drivers, and the
kernel's HIL traits implemented over the library's drivers.  It depends on
the Tock kernel, `cortexm3` and `nrf52` crates.
