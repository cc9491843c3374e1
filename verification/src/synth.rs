//! Per-voice oscillator settings: the unison count and the sub
//! oscillator's octave.
//!
//! Each voice runs up to [`MAX_UNISON`] wavetable oscillators and an
//! optional sine sub oscillator one or two octaves below the note.

use vstd::prelude::*;

verus! {

/// Oscillators per voice at the highest unison setting.
pub const MAX_UNISON: usize = 7;

/// The unison count a voice runs with: `unison` clamped to
/// `1..=MAX_UNISON`.
pub fn clamp_unison(unison: usize) -> (n: usize)
    ensures
        n == if unison < 1 {
            1
        } else if unison > MAX_UNISON {
            MAX_UNISON as int
        } else {
            unison as int
        },
        1 <= n <= MAX_UNISON,
{
    if unison < 1 {
        1
    } else if unison > MAX_UNISON {
        MAX_UNISON
    } else {
        unison
    }
}

/// The divisor for a `sub_octave` value: 4 from 2 up, else 2.
pub open spec fn divisor_for(sub_octave: int) -> u32 {
    if sub_octave >= 2 {
        4
    } else {
        2
    }
}

/// The divisor of the note's frequency that gives the sub oscillator's:
/// 4 (two octaves down) for a `sub_octave` of 2 or more, else 2 (one
/// octave down).
pub fn sub_divisor(sub_octave: u8) -> (d: u32)
    ensures
        d == divisor_for(sub_octave as int),
        sub_octave >= 2 ==> d == 4,
        sub_octave < 2 ==> d == 2,
{
    if sub_octave >= 2 {
        4
    } else {
        2
    }
}

/// The `sub_octave` choice as the plug-in exposes it.
#[derive(Clone, Copy, PartialEq, Eq, Debug, Structural)]
pub enum SubOctave {
    /// One octave down.
    One,
    /// Two octaves down.
    Two,
}

/// Index of a sub octave choice.
pub open spec fn sub_index(c: SubOctave) -> int {
    match c {
        SubOctave::One => 0,
        SubOctave::Two => 1,
    }
}

impl SubOctave {
    /// The choice's index.
    pub fn index(self) -> (i: usize)
        ensures
            i == sub_index(self),
            self == SubOctave::One ==> i == 0,
            self == SubOctave::Two ==> i == 1,
    {
        match self {
            SubOctave::One => 0,
            SubOctave::Two => 1,
        }
    }

    /// Octaves below the note: the index plus one.
    pub fn octaves(self) -> (o: u8)
        ensures
            o == sub_index(self) + 1,
            self == SubOctave::One ==> o == 1,
            self == SubOctave::Two ==> o == 2,
    {
        (self.index() + 1) as u8
    }
}

/// Each plug-in choice puts the sub oscillator exactly as many octaves
/// down as it says.
pub proof fn lemma_sub_octave_divisor(c: SubOctave)
    ensures
        c == SubOctave::One ==> divisor_for(sub_index(c) + 1) == 2,
        c == SubOctave::Two ==> divisor_for(sub_index(c) + 1) == 4,
        sub_index(SubOctave::One) == 0,
        sub_index(SubOctave::Two) == 1,
        forall|o: int| o >= 2 ==> #[trigger] divisor_for(o) == 4,
        forall|o: int| o < 2 ==> #[trigger] divisor_for(o) == 2,
{
}

} // verus!
