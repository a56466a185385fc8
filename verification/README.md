# rs_coffee

Firmware for an ESP32-S3 espresso machine controller, with its decision logic verified by
Verus.

- `src/` is the verified library: the system and operational state machines, the auto-tune
  phase sequence, the main loop's per-tick and switch decisions, pump control, relay and PWM
  timing, switch debouncing, sensor framing and averaging windows, event publishing, drink
  menu file naming, shot checks, MQTT command parsing and the REST request-size rule. Every
  public function states its result in its `ensures`; the laws that relate several calls
  are the public `lemma_*` proof functions.
- `app/` is the firmware around it: hardware set-up on esp-idf, wifi, the REST server and
  the MQTT client, the SD card, and the floating-point boiler model, auto-tuning estimates
  and LED effects. It carries out the actions the library decides.
- `tests/` runs the library on concrete values.

Times in the library are microseconds on the caller's monotonic clock; distances are
millimetres.
