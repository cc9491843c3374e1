use noob_wave::events::{event_offset, is_all_notes_off, ui_action, Action, EventKind};

#[test]
fn page_events_map_to_synth_actions() {
    assert_eq!(ui_action(EventKind::NoteOn, 60, true), Action::NoteOn(60));
    assert_eq!(ui_action(EventKind::NoteOn, 60, false), Action::NoteOff(60));
    assert_eq!(ui_action(EventKind::NoteOff, 61, true), Action::NoteOff(61));
    assert_eq!(ui_action(EventKind::PitchBend, 0, true), Action::PitchBend);
    assert_eq!(ui_action(EventKind::Control, 123, false), Action::AllNotesOff);
    assert_eq!(ui_action(EventKind::Control, 120, false), Action::AllNotesOff);
    assert_eq!(ui_action(EventKind::Control, 7, false), Action::Ignore);
    assert_eq!(ui_action(EventKind::Other, 60, true), Action::Ignore);
    assert!(is_all_notes_off(120) && is_all_notes_off(123) && !is_all_notes_off(121));
}

#[test]
fn host_events_split_the_block_in_order() {
    assert_eq!(event_offset(0, 10, 64), 10);
    assert_eq!(event_offset(10, 10, 64), 10);
    assert_eq!(event_offset(20, 10, 64), 20);
    assert_eq!(event_offset(20, 1000, 64), 64);
    assert_eq!(event_offset(64, u32::MAX, 64), 64);
}
