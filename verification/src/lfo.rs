//! Low-frequency oscillator shape selection.
//!
//! The LFO has five shapes: sine, triangle, rising saw, square (50 %) and
//! sample-and-hold. The `lfo_shape` choice parameter stores the shape's
//! index; indices past the last shape select sample-and-hold.
//! [`LfoShape`] is the same choice as the plug-in exposes it.

use vstd::prelude::*;

verus! {

/// Number of LFO shapes (labels of the `lfo_shape` choice).
pub const LFO_SHAPE_COUNT: usize = 5;

/// Index of the sample-and-hold shape, which draws a new random level
/// each time the phase wraps.
pub const SAMPLE_HOLD: usize = 4;

/// The shape an index selects: itself when known, else sample-and-hold.
pub open spec fn clamped_shape(shape: int) -> int {
    if shape < LFO_SHAPE_COUNT {
        shape
    } else {
        SAMPLE_HOLD as int
    }
}

/// The shape index the LFO runs with: the requested one, clamped to the
/// known shapes.
pub fn clamp_shape(shape: usize) -> (s: usize)
    ensures
        s == clamped_shape(shape as int),
        s < LFO_SHAPE_COUNT,
        shape < 5 ==> s == shape,
        shape >= 5 ==> s == 4,
{
    if shape < LFO_SHAPE_COUNT {
        shape
    } else {
        LFO_SHAPE_COUNT - 1
    }
}

/// The `lfo_shape` choice as the plug-in exposes it, in shape-index order.
#[derive(Clone, Copy, PartialEq, Eq, Debug, Structural)]
pub enum LfoShape {
    /// Sine.
    Sine,
    /// Triangle.
    Triangle,
    /// Rising saw.
    Saw,
    /// Square, 50 % duty.
    Square,
    /// Sample-and-hold: a new random level per cycle.
    SampleHold,
}

/// Index of a shape in the `lfo_shape` labels.
pub open spec fn shape_index(s: LfoShape) -> int {
    match s {
        LfoShape::Sine => 0,
        LfoShape::Triangle => 1,
        LfoShape::Saw => 2,
        LfoShape::Square => 3,
        LfoShape::SampleHold => 4,
    }
}

impl LfoShape {
    /// The shape's index.
    pub fn index(self) -> (i: usize)
        ensures
            i == shape_index(self),
            i < LFO_SHAPE_COUNT,
            self == LfoShape::Sine ==> i == 0,
            self == LfoShape::Triangle ==> i == 1,
            self == LfoShape::Saw ==> i == 2,
            self == LfoShape::Square ==> i == 3,
            self == LfoShape::SampleHold ==> i == 4,
    {
        match self {
            LfoShape::Sine => 0,
            LfoShape::Triangle => 1,
            LfoShape::Saw => 2,
            LfoShape::Square => 3,
            LfoShape::SampleHold => 4,
        }
    }
}

/// Each plug-in shape's index is its position in the label list (Sine,
/// Triangle, Saw, Square, S&H), and the clamp keeps indices 0 to 4 and
/// turns every larger one into sample-and-hold.
pub proof fn lemma_shape_positions(i: int)
    ensures
        shape_index(LfoShape::Sine) == 0,
        shape_index(LfoShape::Triangle) == 1,
        shape_index(LfoShape::Saw) == 2,
        shape_index(LfoShape::Square) == 3,
        shape_index(LfoShape::SampleHold) == 4,
        SAMPLE_HOLD == 4,
        0 <= i < 5 ==> clamped_shape(i) == i,
        i >= 5 ==> clamped_shape(i) == 4,
{
}

/// Every plug-in shape passes the LFO's clamp unchanged, and distinct
/// shapes have distinct indices.
pub proof fn lemma_clamp_keeps_shapes(s: LfoShape, t: LfoShape)
    ensures
        clamped_shape(shape_index(s)) == shape_index(s),
        s != t ==> shape_index(s) != shape_index(t),
{
}

} // verus!
