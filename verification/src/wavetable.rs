//! Wavetable selection and memory layout.
//!
//! A table is [`FRAMES`] single cycles of [`FRAME_LEN`] samples; each frame
//! exists in [`MIPS`] band-limited versions. The samples live in one flat
//! buffer laid out `[mip][frame][STRIDE]`, where every stored cycle carries
//! one extra sample (the first repeated) so linear interpolation never
//! wraps. Lookups clamp the mip level and the frame, so any request lands
//! on a stored cycle.
//!
//! There are [`TABLE_COUNT`] factory tables ([`Table`]); a table index
//! selects the table to build, and the built table carries that table's
//! name, so an unknown index builds Basic Shapes, named Basic Shapes.

use vstd::prelude::*;

verus! {

/// Samples per single-cycle frame at level 0.
pub const FRAME_LEN: usize = 2048;
/// Harmonics a level-0 frame can hold (`FRAME_LEN / 2`).
pub const HARMONICS: usize = 1024;
/// Mip levels per frame; level `m` keeps `HARMONICS >> m` harmonics.
pub const MIPS: usize = 9;
/// Frames (morph steps) per table.
pub const FRAMES: usize = 32;
/// Samples per frame in the preview the UI draws.
pub const PREVIEW_LEN: usize = 256;
/// Floats per stored frame: the cycle plus the repeated first sample.
pub const STRIDE: usize = 2049;
/// Number of factory tables.
pub const TABLE_COUNT: usize = 6;

/// Start of the stored cycle for `mip` / `frame` in a table of `frames`
/// frames, both clamped to the stored range.
pub open spec fn frame_start(mip: int, frame: int, frames: int) -> int {
    let m = if mip < MIPS { mip } else { MIPS - 1 };
    let f = if frame < frames { frame } else { frames - 1 };
    (m * frames + f) * STRIDE
}

/// Floats a table of `frames` frames stores.
pub open spec fn table_len(frames: int) -> int {
    MIPS * frames * STRIDE
}

/// Where the stored cycle for `mip` / `frame` starts in the flat sample
/// buffer of a table with `frames` frames. Out-of-range levels and frames
/// are clamped; the whole cycle (`STRIDE` floats) lies inside the buffer.
pub fn frame_base(mip: usize, frame: usize, frames: usize) -> (b: usize)
    requires
        frames > 0,
        table_len(frames as int) <= usize::MAX,
    ensures
        b == frame_start(mip as int, frame as int, frames as int),
        b + STRIDE <= table_len(frames as int),
        b + 2049 <= 9 * frames * 2049,
        mip < 9 && frame < frames ==> b == (mip * frames + frame) * 2049,
        mip >= 9 && frame < frames ==> b == (8 * frames + frame) * 2049,
        mip < 9 && frame >= frames ==> b == (mip * frames + frames - 1) * 2049,
        mip >= 9 && frame >= frames ==> b == (8 * frames + frames - 1) * 2049,
{
    let m = if mip < MIPS { mip } else { MIPS - 1 };
    let f = if frame < frames { frame } else { frames - 1 };
    proof {
        assert(m * frames + f + 1 <= MIPS * frames) by (nonlinear_arith)
            requires
                m < MIPS,
                f < frames,
        ;
        assert((m * frames + f + 1) * STRIDE <= MIPS * frames * STRIDE) by (nonlinear_arith)
            requires
                m * frames + f + 1 <= MIPS * frames,
        ;
        assert((m * frames + f) * STRIDE + STRIDE == (m * frames + f + 1) * STRIDE)
            by (nonlinear_arith);
    }
    (m * frames + f) * STRIDE
}

/// Harmonics mip level `m` keeps: [`HARMONICS`] halved `m` times.
pub open spec fn harmonics_at(m: nat) -> nat
    decreases m,
{
    if m == 0 {
        HARMONICS as nat
    } else {
        harmonics_at((m - 1) as nat) / 2
    }
}

/// The halving sequence from 1024 at level 0 to 4 at level 8.
spec fn levels_table(i: int, h: int) -> bool {
    ||| i == 0 && h == 1024
    ||| i == 1 && h == 512
    ||| i == 2 && h == 256
    ||| i == 3 && h == 128
    ||| i == 4 && h == 64
    ||| i == 5 && h == 32
    ||| i == 6 && h == 16
    ||| i == 7 && h == 8
    ||| i == 8 && h == 4
}

/// Harmonics mip level `m` keeps (`HARMONICS >> m`): 1024 at level 0 down
/// to 4 at level 8.
pub fn mip_harmonics(m: usize) -> (h: usize)
    requires
        m < MIPS,
    ensures
        h == harmonics_at(m as nat),
        h >= 4,
        m == 0 ==> h == 1024,
        m == 1 ==> h == 512,
        m == 2 ==> h == 256,
        m == 3 ==> h == 128,
        m == 4 ==> h == 64,
        m == 5 ==> h == 32,
        m == 6 ==> h == 16,
        m == 7 ==> h == 8,
        m == 8 ==> h == 4,
{
    let mut h: usize = HARMONICS;
    let mut i: usize = 0;
    while i < m
        invariant
            i <= m < MIPS,
            h == harmonics_at(i as nat),
            levels_table(i as int, h as int),
        decreases m - i,
    {
        proof {
            reveal_with_fuel(harmonics_at, 2);
        }
        h = h / 2;
        i = i + 1;
    }
    h
}

/// A `wt_table` value clamped to the last factory table.
pub open spec fn clamped_table(index: int) -> int {
    if index < TABLE_COUNT {
        index
    } else {
        TABLE_COUNT - 1
    }
}

/// Which built table a `wt_table` value selects for playback and preview:
/// clamped to the last factory table. (A factory build names its table
/// after the table it builds, [`Table::from_index`], not after this.)
pub fn clamp_table(index: usize) -> (i: usize)
    ensures
        i == clamped_table(index as int),
        i < TABLE_COUNT,
        index < 6 ==> i == index,
        index >= 6 ==> i == 5,
{
    if index < TABLE_COUNT {
        index
    } else {
        TABLE_COUNT - 1
    }
}

/// The factory tables, in `wt_table` index order.
#[derive(Clone, Copy, PartialEq, Eq, Debug, Structural)]
pub enum Table {
    /// Sine → triangle → saw → square → pulse morph.
    Basic,
    /// Partials added two at a time, sine towards saw.
    Harmonics,
    /// Pulse width 50 % → 3 %.
    Pwm,
    /// Two moving resonant peaks, vowel-like.
    Formant,
    /// Hard-synced saw, ratio 1 → 4.
    Digital,
    /// Eight bell-like partials, darker to brighter.
    Bells,
}

/// Index of a table in `wt_table` order.
pub open spec fn table_index(t: Table) -> int {
    match t {
        Table::Basic => 0,
        Table::Harmonics => 1,
        Table::Pwm => 2,
        Table::Formant => 3,
        Table::Digital => 4,
        Table::Bells => 5,
    }
}

/// The table an index builds; unknown indices build Basic Shapes.
pub open spec fn table_of_index(i: int) -> Table {
    if i == 1 {
        Table::Harmonics
    } else if i == 2 {
        Table::Pwm
    } else if i == 3 {
        Table::Formant
    } else if i == 4 {
        Table::Digital
    } else if i == 5 {
        Table::Bells
    } else {
        Table::Basic
    }
}

impl Table {
    /// The table the factory builds for `index`; unknown indices build
    /// Basic Shapes.
    pub fn from_index(index: usize) -> (t: Table)
        ensures
            t == table_of_index(index as int),
            index == 0 ==> t == Table::Basic,
            index == 1 ==> t == Table::Harmonics,
            index == 2 ==> t == Table::Pwm,
            index == 3 ==> t == Table::Formant,
            index == 4 ==> t == Table::Digital,
            index == 5 ==> t == Table::Bells,
            index >= 6 ==> t == Table::Basic,
    {
        match index {
            1 => Table::Harmonics,
            2 => Table::Pwm,
            3 => Table::Formant,
            4 => Table::Digital,
            5 => Table::Bells,
            _ => Table::Basic,
        }
    }

    /// The table's `wt_table` index.
    pub fn index(self) -> (i: usize)
        ensures
            i == table_index(self),
            i < TABLE_COUNT,
            self == Table::Basic ==> i == 0,
            self == Table::Harmonics ==> i == 1,
            self == Table::Pwm ==> i == 2,
            self == Table::Formant ==> i == 3,
            self == Table::Digital ==> i == 4,
            self == Table::Bells ==> i == 5,
    {
        match self {
            Table::Basic => 0,
            Table::Harmonics => 1,
            Table::Pwm => 2,
            Table::Formant => 3,
            Table::Digital => 4,
            Table::Bells => 5,
        }
    }
}

/// Each mip level keeps half the harmonics of the one before, from 1024 at
/// level 0 down to 4 at level 8.
pub proof fn lemma_harmonics_halve(m: nat)
    ensures
        harmonics_at(0) == 1024,
        m > 0 ==> 2 * harmonics_at(m) <= harmonics_at((m - 1) as nat) <= 2 * harmonics_at(m) + 1,
        harmonics_at(8) == 4,
{
    reveal_with_fuel(harmonics_at, 9);
}

/// Two different stored cycles of a table never overlap: in-range
/// `(mip, frame)` pairs that differ start at least a whole cycle apart.
pub proof fn lemma_frames_disjoint(m1: int, f1: int, m2: int, f2: int, frames: int)
    requires
        frames > 0,
        0 <= m1 < MIPS,
        0 <= m2 < MIPS,
        0 <= f1 < frames,
        0 <= f2 < frames,
        m1 != m2 || f1 != f2,
    ensures
        frame_start(m1, f1, frames) + STRIDE <= frame_start(m2, f2, frames) || frame_start(
            m2,
            f2,
            frames,
        ) + STRIDE <= frame_start(m1, f1, frames),
{
    let a = m1 * frames + f1;
    let b = m2 * frames + f2;
    assert(a != b) by (nonlinear_arith)
        requires
            a == m1 * frames + f1,
            b == m2 * frames + f2,
            m1 != m2 || f1 != f2,
            0 <= f1 < frames,
            0 <= f2 < frames,
    {
        if m1 < m2 {
            assert(m1 * frames + frames <= m2 * frames);
        } else if m2 < m1 {
            assert(m2 * frames + frames <= m1 * frames);
        }
    }
    if a < b {
        assert((a + 1) * STRIDE <= b * STRIDE) by (nonlinear_arith)
            requires
                a + 1 <= b,
        ;
    } else {
        assert((b + 1) * STRIDE <= a * STRIDE) by (nonlinear_arith)
            requires
                b + 1 <= a,
        ;
    }
}

/// The table positions: Basic Shapes 0, Harmonics 1, PWM 2, Formant 3,
/// Digital 4, Bells 5.
pub proof fn lemma_table_positions()
    ensures
        table_index(Table::Basic) == 0,
        table_index(Table::Harmonics) == 1,
        table_index(Table::Pwm) == 2,
        table_index(Table::Formant) == 3,
        table_index(Table::Digital) == 4,
        table_index(Table::Bells) == 5,
{
}

/// For every known index the built table, its name index and the clamped
/// selection agree; past the last table the factory builds Basic Shapes
/// and names it Basic Shapes.
pub proof fn lemma_table_index_roundtrip(t: Table, i: int)
    ensures
        table_of_index(table_index(t)) == t,
        clamped_table(table_index(t)) == table_index(t),
        0 <= i < TABLE_COUNT ==> table_index(table_of_index(i)) == i && clamped_table(i) == i,
        i >= TABLE_COUNT ==> table_of_index(i) == Table::Basic && table_index(table_of_index(i))
            == 0,
{
}

} // verus!
