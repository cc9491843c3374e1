# noob-wave

A wavetable synthesizer (voices with unison and a sub oscillator, a
state-variable filter, two ADSR envelopes, one LFO) whose decision logic is
written in Verus and proved against its contracts.

* `src/` — the verified library: envelope stages (`env`), filter and LFO
  shape selection (`filter`, `lfo`), voice allocation and stealing
  (`voices`), the sample history behind the analyzer (`ring`), the noise
  generator (`noise`), wavetable layout and selection (`wavetable`), the
  parameter and stream layout (`params`), the telemetry schedule
  (`telemetry`), oscillator settings (`synth`) and event dispatch
  (`events`).
* `app/` — the floating-point sound engine, the nih-plug instrument and the
  standalone program, which call the library for every decision above.
* `tests/` — tests of the library on concrete values.
