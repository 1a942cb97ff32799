# rust_experiments

Control logic of a set of Raspberry Pi experiments, verified with Verus.

- `src/` is the verified library:
  - `cycle` — a cursor that walks a collection round robin;
  - `pwm` — the PWM duty-cycle sequencer and the start/stop bookkeeping;
  - `adc` — decoding of two-byte SPI ADC readings and the sampling counter;
  - `sysfs` — reading a decimal value out of a sysfs attribute, and the
    reading loop that keeps unreadable text;
  - `pacing` — time spans and the sleep left in a loop period;
  - `channels` — the state shared between a Python host and the duty cycle
    worker (flags, error code, command mailbox);
  - `duty_worker` — the duty cycle worker as a step function;
  - `slots` — the worker that alternates between two content loops.
- `app/` holds the Python bindings (pyo3), the hardware access (rppal), the
  threads, the file access and the stand-alone programs; it performs what the
  library decides.
- `tests/` runs the library on concrete values.
