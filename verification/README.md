# hf_amp

Control logic for a Raspberry Pi based HF amplifier and tuner controller,
verified with Verus.

- `src/` is the verified library:
  - `motion` — the position arithmetic of a stepper move and the proof that a
    move ends on its target after twice its distance in pulses;
  - `web` — the encoder, the stepper motors (acceleration profile, move
    worker decisions, band memories) and the MCP23017 port expander model;
  - `encoder`, `stepper`, `mcp` — the first-generation polled encoder,
    one-command-at-a-time motors and port expander;
  - `data` — selection, bands, gauges, relay assignment, the saved profile
    and the page models;
  - `entries` — the saved profile's key names: records to (key, value)
    entries and back, with the round-trip proofs;
  - `control` — what each web request and each background tick decides, as
    state changes plus a list of hardware actions;
  - `text` — string comparison and decimal rendering and parsing.
- `app/` is the web server and the hardware workers (GPIO, I2C, current
  sensors, threads, files, JSON), which carry out the library's decisions.
- `tests/` exercises the library on concrete values.
