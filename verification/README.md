# blucher

Control logic of the Blucher boat, verified with Verus.

- `src/` — the verified library: the commands written to the motor and
  thruster H-bridges and PWM slices (`drive`, `motor_drive`, `thruster`,
  `ship_thruster`), the decisions and tick timing of the thruster tasks
  (`thruster_task`), the locomotion manoeuvre (`locomotion`) and the command
  link state machine (`link`).
- `app/` — the RP2040 firmware around it: tasks, GPIO/PWM/radio/network I/O,
  and the floating-point drive smoothing, which the library does not hold.
- `tests/` — tests of the library on concrete values.
