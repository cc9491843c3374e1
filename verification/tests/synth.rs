use noob_wave::lfo::{clamp_shape, LfoShape};
use noob_wave::synth::{clamp_unison, sub_divisor, SubOctave, MAX_UNISON};

#[test]
fn unison_and_sub_octave_settings() {
    assert_eq!(clamp_unison(0), 1);
    assert_eq!(clamp_unison(5), 5);
    assert_eq!(clamp_unison(99), MAX_UNISON);
    assert_eq!(sub_divisor(1), 2);
    assert_eq!(sub_divisor(2), 4);
    assert_eq!(sub_divisor(0), 2);
    assert_eq!(SubOctave::One.octaves(), 1);
    assert_eq!(SubOctave::Two.octaves(), 2);
    assert_eq!(sub_divisor(SubOctave::Two.octaves()), 4);
}

#[test]
fn lfo_shapes_clamp_to_sample_and_hold() {
    assert_eq!(clamp_shape(0), 0);
    assert_eq!(clamp_shape(3), 3);
    assert_eq!(clamp_shape(9), 4);
    assert_eq!(LfoShape::SampleHold.index(), 4);
    assert_eq!(LfoShape::Triangle.index(), 1);
}
