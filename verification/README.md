# spessasynth_rs

The control logic of a SoundFont2 / MIDI synthesizer engine, written in Verus and
verified: the executable functions in `src/` carry `requires` / `ensures`
contracts that Verus proves. Two small wrappers around `std::time` (the clock
reading and the sub-second nanoseconds of a duration) are trusted: their
contracts state no more than std documents.

## Layout

- `src/` — the verified library.
  - MIDI systems and bank-select rules (`midi_system`), controller tables and
    defaults (`controller_tables`, `midi_controllers`, `custom_controllers`),
    generator and modulator constants.
  - Patches, preset selection and the sound bank stack with its deduplicated,
    sorted preset list (`midi_patch`, `preset`, `sound_bank_manager`).
  - Per-key overrides (`key_modifier_manager`) and system-exclusive modulators
    (`dynamic_modulator_system`).
  - The integer state of a MIDI channel and what changes it: program and bank
    changes, data entry (RPN / NRPN / AWE32), controller resets, effect macros
    (`midi_channel`, `data_entry`, `awe32`, `controller_reset`, `effect_macros`).
  - Decoders of Roland GS, universal (GM / MTS) and Yamaha XG system-exclusive
    messages into the change they ask for (`sysex_gs`, `sysex_gm`, `sysex_xg`), and
    the insertion-effect cache they update (`insertion`).
  - The integer decisions of voice management (note-off, voice stealing, which
    voices a render call renders, the
    voice cap) and the integer steps of a partial modulator recomputation (which
    modulators a controller change selects, the sum per destination, the limit);
    the modulator values themselves are floating point and come from the host
    (`voice_management`, `compute_modulator`).
  - Channel snapshots (`channel_snapshot`).
- `tests/` — tests of the library on concrete values.
- `app/` — ordinary Rust around the library: the floating-point parts (modulator
  curves, LFO, portamento times, tuning, parameter records), logging, the
  process-wide embedded sound bank identifier, and the dispatch of decoded
  system-exclusive messages to an engine that implements `SysExEngine`.

The laws of the library (what a read gives back after a write, what restoring a
snapshot gives back, the order of the preset list, and others) are public proof
functions next to the code they speak of.
