//! Filter response selection.
//!
//! The per-voice filter offers four responses ([`FilterMode`]): `LP 12`,
//! `BP` and `HP` use one 12 dB/oct stage, `LP 24` cascades a second stage
//! on the low-pass output. The `filter_mode` choice parameter stores the
//! response's index; [`FilterType`] is the same choice as the plug-in
//! exposes it.

use vstd::prelude::*;

verus! {

/// Number of filter responses (labels of the `filter_mode` choice).
pub const FILTER_MODE_COUNT: usize = 4;

/// Filter response.
#[derive(Clone, Copy, PartialEq, Eq, Debug, Structural)]
pub enum FilterMode {
    /// 12 dB/oct low-pass (one stage).
    Lp12,
    /// 24 dB/oct low-pass (two stages).
    Lp24,
    /// Band-pass (one stage).
    Bp,
    /// High-pass (one stage).
    Hp,
}

/// Index of a response in the `filter_mode` labels.
pub open spec fn mode_index(m: FilterMode) -> int {
    match m {
        FilterMode::Lp12 => 0,
        FilterMode::Lp24 => 1,
        FilterMode::Bp => 2,
        FilterMode::Hp => 3,
    }
}

/// The response a parameter index selects; unknown indices fall back to
/// `Lp12`.
pub open spec fn mode_of_index(i: int) -> FilterMode {
    if i == 1 {
        FilterMode::Lp24
    } else if i == 2 {
        FilterMode::Bp
    } else if i == 3 {
        FilterMode::Hp
    } else {
        FilterMode::Lp12
    }
}

impl FilterMode {
    /// From the parameter index; unknown indices fall back to `Lp12`.
    pub fn from_index(i: usize) -> (m: FilterMode)
        ensures
            m == mode_of_index(i as int),
            i == 0 ==> m == FilterMode::Lp12,
            i == 1 ==> m == FilterMode::Lp24,
            i == 2 ==> m == FilterMode::Bp,
            i == 3 ==> m == FilterMode::Hp,
            i >= 4 ==> m == FilterMode::Lp12,
    {
        match i {
            1 => FilterMode::Lp24,
            2 => FilterMode::Bp,
            3 => FilterMode::Hp,
            _ => FilterMode::Lp12,
        }
    }
}

/// The default response is `Lp12`.
impl Default for FilterMode {
    fn default() -> (m: FilterMode)
        ensures
            m == FilterMode::Lp12,
    {
        FilterMode::Lp12
    }
}

/// The `filter_mode` choice as the plug-in exposes it, in [`FilterMode`]
/// order.
#[derive(Clone, Copy, PartialEq, Eq, Debug, Structural)]
pub enum FilterType {
    /// 12 dB/oct low-pass.
    Lp12,
    /// 24 dB/oct low-pass.
    Lp24,
    /// Band-pass.
    Bp,
    /// High-pass.
    Hp,
}

/// Index of a plug-in choice in the `filter_mode` labels.
pub open spec fn type_index(t: FilterType) -> int {
    match t {
        FilterType::Lp12 => 0,
        FilterType::Lp24 => 1,
        FilterType::Bp => 2,
        FilterType::Hp => 3,
    }
}

impl FilterType {
    /// The choice's index.
    pub fn index(self) -> (i: usize)
        ensures
            i == type_index(self),
            self == FilterType::Lp12 ==> i == 0,
            self == FilterType::Lp24 ==> i == 1,
            self == FilterType::Bp ==> i == 2,
            self == FilterType::Hp ==> i == 3,
    {
        match self {
            FilterType::Lp12 => 0,
            FilterType::Lp24 => 1,
            FilterType::Bp => 2,
            FilterType::Hp => 3,
        }
    }

    /// The DSP response the choice selects (through its index).
    pub fn mode(self) -> (m: FilterMode)
        ensures
            m == mode_of_index(type_index(self)),
            mode_index(m) == type_index(self),
            self == FilterType::Lp12 ==> m == FilterMode::Lp12,
            self == FilterType::Lp24 ==> m == FilterMode::Lp24,
            self == FilterType::Bp ==> m == FilterMode::Bp,
            self == FilterType::Hp ==> m == FilterMode::Hp,
    {
        FilterMode::from_index(self.index())
    }
}

/// The labels' order: `LP 12`, `LP 24`, `BP`, `HP` at indices 0 to 3, every
/// other index `LP 12`; the plug-in choices in the same order.
pub proof fn lemma_mode_positions(i: int)
    ensures
        mode_index(FilterMode::Lp12) == 0,
        mode_index(FilterMode::Lp24) == 1,
        mode_index(FilterMode::Bp) == 2,
        mode_index(FilterMode::Hp) == 3,
        type_index(FilterType::Lp12) == 0,
        type_index(FilterType::Lp24) == 1,
        type_index(FilterType::Bp) == 2,
        type_index(FilterType::Hp) == 3,
        (i < 0 || i >= 4) ==> mode_of_index(i) == FilterMode::Lp12,
        0 <= i < 4 ==> mode_index(mode_of_index(i)) == i,
{
}

/// Every response survives the trip through its parameter index, and
/// every index below [`FILTER_MODE_COUNT`] names a different response.
pub proof fn lemma_mode_index_roundtrip(m: FilterMode, i: int, j: int)
    ensures
        mode_of_index(mode_index(m)) == m,
        0 <= mode_index(m) < FILTER_MODE_COUNT,
        0 <= i < FILTER_MODE_COUNT ==> mode_index(mode_of_index(i)) == i,
        0 <= i < FILTER_MODE_COUNT && 0 <= j < FILTER_MODE_COUNT && i != j ==> mode_of_index(i)
            != mode_of_index(j),
{
}

} // verus!
