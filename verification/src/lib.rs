//! noob-wave's verified core: the integer and state-machine logic of a
//! wavetable synth. Envelope stages, filter and table selections, the
//! voice allocator with its stealing rule, the sample history ring, the
//! noise generator, the wavetable memory layout, the parameter and stream
//! layout, and the telemetry schedule. The floating-point sound engine
//! drives these from outside.

pub mod env;
pub mod voices;
pub mod ring;
pub mod noise;
pub mod filter;
pub mod lfo;
pub mod wavetable;
pub mod telemetry;
pub mod params;
pub mod synth;
pub mod events;
