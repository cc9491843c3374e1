//! Envelope stages and the transitions between them.
//!
//! An ADSR envelope moves through [`Stage`]s: attack rises to the peak,
//! decay falls to the sustain level, sustain holds until note off, and
//! release falls to zero, after which the envelope is idle. A note off
//! during the attack or the decay releases from wherever the level is,
//! and a note off while idle does nothing.

use vstd::prelude::*;

verus! {

/// Envelope stage.
#[derive(Clone, Copy, PartialEq, Eq, Debug, Structural)]
pub enum Stage {
    /// Not sounding; output is 0.
    Idle,
    /// Rising linearly to 1.
    Attack,
    /// Falling exponentially to the sustain level.
    Decay,
    /// Holding the sustain level.
    Sustain,
    /// Falling exponentially to 0, then idle.
    Release,
}

/// Position of a stage along a note's life: attack, decay and sustain in
/// that order, then release, then idle.
pub open spec fn stage_rank(s: Stage) -> int {
    match s {
        Stage::Attack => 0,
        Stage::Decay => 1,
        Stage::Sustain => 2,
        Stage::Release => 3,
        Stage::Idle => 4,
    }
}

/// The stage a note off leaves: release, unless idle.
pub open spec fn stage_after_note_off(s: Stage) -> Stage {
    if s == Stage::Idle { Stage::Idle } else { Stage::Release }
}

/// The stage one sample leaves, given whether that sample's level crossed
/// the target of the stage it started in.
pub open spec fn stage_after_sample(s: Stage, reached: bool) -> Stage {
    if !reached {
        s
    } else {
        match s {
            Stage::Attack => Stage::Decay,
            Stage::Decay => Stage::Sustain,
            Stage::Release => Stage::Idle,
            other => other,
        }
    }
}

/// An envelope starts idle.
impl Default for Stage {
    fn default() -> (s: Stage)
        ensures
            s == Stage::Idle,
    {
        Stage::Idle
    }
}

impl Stage {
    /// The stage after a note on: attack, from whatever stage.
    pub fn note_on(self) -> (s: Stage)
        ensures
            s == Stage::Attack,
    {
        Stage::Attack
    }

    /// The stage after a note off: release, unless idle.
    pub fn note_off(self) -> (s: Stage)
        ensures
            s == stage_after_note_off(self),
            self == Stage::Idle ==> s == Stage::Idle,
            self != Stage::Idle ==> s == Stage::Release,
    {
        match self {
            Stage::Idle => Stage::Idle,
            _ => Stage::Release,
        }
    }

    /// The stage after a reset: idle, without a release.
    pub fn reset(self) -> (s: Stage)
        ensures
            s == Stage::Idle,
    {
        Stage::Idle
    }

    /// The stage after one sample. `reached` says whether this sample's
    /// level crossed the current stage's target: the peak of 1 in the
    /// attack, the sustain level in the decay, the silence floor in the
    /// release. On a crossing, attack moves to decay, decay to sustain and
    /// release to idle; otherwise, and always in idle and sustain, the
    /// stage stays.
    pub fn advance(self, reached: bool) -> (s: Stage)
        ensures
            s == stage_after_sample(self, reached),
            !reached ==> s == self,
            self == Stage::Sustain ==> s == Stage::Sustain,
            self == Stage::Idle ==> s == Stage::Idle,
            reached && self == Stage::Attack ==> s == Stage::Decay,
            reached && self == Stage::Decay ==> s == Stage::Sustain,
            reached && self == Stage::Release ==> s == Stage::Idle,
    {
        if !reached {
            return self;
        }
        match self {
            Stage::Attack => Stage::Decay,
            Stage::Decay => Stage::Sustain,
            Stage::Release => Stage::Idle,
            Stage::Idle => Stage::Idle,
            Stage::Sustain => Stage::Sustain,
        }
    }

    /// `true` when idle: before any note and once the release has finished.
    pub fn is_idle(self) -> (b: bool)
        ensures
            b == (self == Stage::Idle),
    {
        match self {
            Stage::Idle => true,
            _ => false,
        }
    }
}

/// A stage never moves backwards within a note: one sample keeps the stage
/// or moves it one step along attack, decay, sustain; release, idle.
pub proof fn lemma_advance_monotone(s: Stage, reached: bool)
    ensures
        stage_rank(s) <= stage_rank(stage_after_sample(s, reached)),
        stage_after_sample(s, reached) != Stage::Attack || s == Stage::Attack,
{
}

/// Without a crossing a sample keeps the stage; a crossing moves attack to
/// decay, decay to sustain and release to idle; idle and sustain never
/// change on a sample, so sustain is left only through a note off, and a
/// note off releases every stage but idle.
pub proof fn lemma_stage_transitions(s: Stage, reached: bool)
    ensures
        stage_after_sample(s, false) == s,
        stage_after_sample(Stage::Sustain, reached) == Stage::Sustain,
        stage_after_sample(Stage::Idle, reached) == Stage::Idle,
        stage_after_sample(Stage::Attack, true) == Stage::Decay,
        stage_after_sample(Stage::Decay, true) == Stage::Sustain,
        stage_after_sample(Stage::Release, true) == Stage::Idle,
        stage_after_note_off(Stage::Idle) == Stage::Idle,
        s != Stage::Idle ==> stage_after_note_off(s) == Stage::Release,
{
}

/// A note off is idempotent and never wakes an idle envelope; after it,
/// samples can only finish the release.
pub proof fn lemma_note_off_releases(s: Stage, reached: bool)
    ensures
        stage_after_note_off(stage_after_note_off(s)) == stage_after_note_off(s),
        s == Stage::Idle ==> stage_after_note_off(s) == Stage::Idle,
        stage_after_sample(stage_after_note_off(s), reached) == Stage::Release
            || stage_after_sample(stage_after_note_off(s), reached) == Stage::Idle,
{
}

} // verus!
