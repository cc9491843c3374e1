//! What a note or controller event does to the synth.
//!
//! Events reach the audio thread from the web page (the on-screen
//! keyboard) and from the host. A page note on with zero velocity counts
//! as a note off; controller 120 (all sound off) and 123 (all notes off)
//! silence every voice at once; other controllers are ignored. Host
//! events are sample accurate: the block is rendered up to each event's
//! offset, the event is applied, and rendering resumes.

use vstd::prelude::*;

verus! {

/// Kind of a page event.
#[derive(Clone, Copy, PartialEq, Eq, Debug, Structural)]
pub enum EventKind {
    /// A key went down.
    NoteOn,
    /// A key went up.
    NoteOff,
    /// The pitch wheel moved.
    PitchBend,
    /// A controller changed.
    Control,
    /// Anything else.
    Other,
}

/// What the synth does for an event.
#[derive(Clone, Copy, PartialEq, Eq, Debug, Structural)]
pub enum Action {
    /// Start this note.
    NoteOn(u8),
    /// Release this note.
    NoteOff(u8),
    /// Set the pitch bend from the event's value.
    PitchBend,
    /// Silence every voice immediately.
    AllNotesOff,
    /// Nothing.
    Ignore,
}

/// Controller 120 (all sound off) or 123 (all notes off).
pub open spec fn silences(cc: u8) -> bool {
    cc == 120 || cc == 123
}

/// Exactly controllers 120 and 123 silence every voice; every other
/// controller (the sustain pedal, 64, among them) is ignored.
pub proof fn lemma_only_120_and_123_silence(cc: u8)
    ensures
        silences(cc) <==> (cc == 120 || cc == 123),
        cc != 120 && cc != 123 ==> !silences(cc),
{
}

/// Whether controller `cc` silences every voice.
pub fn is_all_notes_off(cc: u8) -> (b: bool)
    ensures
        b == silences(cc),
        b <==> (cc == 120 || cc == 123),
{
    cc == 123 || cc == 120
}

/// The action for a page event of kind `kind` with first data byte `a`
/// (the note, or the controller number); `sounding` says whether the
/// event's value (the velocity of a note on) is above zero.
pub fn ui_action(kind: EventKind, a: u8, sounding: bool) -> (r: Action)
    ensures
        r == (match kind {
            EventKind::NoteOn => if sounding {
                Action::NoteOn(a)
            } else {
                Action::NoteOff(a)
            },
            EventKind::NoteOff => Action::NoteOff(a),
            EventKind::PitchBend => Action::PitchBend,
            EventKind::Control => if silences(a) {
                Action::AllNotesOff
            } else {
                Action::Ignore
            },
            EventKind::Other => Action::Ignore,
        }),
        kind == EventKind::Control ==> (r == Action::AllNotesOff <==> (a == 120 || a == 123)),
        kind == EventKind::Control && a != 120 && a != 123 ==> r == Action::Ignore,
        kind == EventKind::NoteOn && sounding ==> r == Action::NoteOn(a),
        kind == EventKind::NoteOn && !sounding ==> r == Action::NoteOff(a),
        kind == EventKind::NoteOff ==> r == Action::NoteOff(a),
        kind == EventKind::PitchBend ==> r == Action::PitchBend,
        kind == EventKind::Other ==> r == Action::Ignore,
{
    match kind {
        EventKind::NoteOn => {
            if sounding {
                Action::NoteOn(a)
            } else {
                Action::NoteOff(a)
            }
        },
        EventKind::NoteOff => Action::NoteOff(a),
        EventKind::PitchBend => Action::PitchBend,
        EventKind::Control => {
            if is_all_notes_off(a) {
                Action::AllNotesOff
            } else {
                Action::Ignore
            }
        },
        EventKind::Other => Action::Ignore,
    }
}

/// Where host event rendering resumes: the event's sample offset
/// `timing` clamped to the block of `frames` samples, and never behind the
/// `pos` samples already rendered. Samples `pos..t` are rendered before the
/// event is applied; the block's rest after the last event.
pub fn event_offset(pos: usize, timing: u32, frames: usize) -> (t: usize)
    requires
        pos <= frames,
    ensures
        t == if vstd::math::min(timing as int, frames as int) > pos {
            vstd::math::min(timing as int, frames as int)
        } else {
            pos as int
        },
        pos <= t <= frames,
{
    let c: usize = if (timing as u64) < (frames as u64) { timing as usize } else { frames };
    if c > pos {
        c
    } else {
        pos
    }
}

} // verus!
