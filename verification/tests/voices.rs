use noob_wave::voices::{VoicePool, MAX_VOICES};

fn note_state(pool: &VoicePool) -> Vec<i16> {
    (0..pool.len()).map(|i| pool.voice_note(i)).collect()
}

fn sounding_notes(pool: &VoicePool) -> Vec<i32> {
    note_state(pool)
        .iter()
        .map(|v| *v as i32)
        .filter(|n| *n >= 0)
        .collect()
}

fn releases(pool: &VoicePool, note: u8) -> Vec<bool> {
    (0..pool.len()).map(|i| pool.releases(i, note)).collect()
}

#[test]
fn polyphony_limit_steals_the_oldest() {
    let mut s = VoicePool::new();
    let poly = 2;
    s.note_on(60, poly);
    s.note_on(64, poly);
    s.note_on(67, poly);
    assert_eq!(s.active_voices(), 2);
    let state = note_state(&s);
    assert_eq!(state.len(), MAX_VOICES);
    let notes = sounding_notes(&s);
    assert!(notes.contains(&64) && notes.contains(&67) && !notes.contains(&60));
}

#[test]
fn new_pool_is_silent() {
    let p = VoicePool::new();
    assert_eq!(p.len(), MAX_VOICES);
    assert_eq!(p.active_voices(), 0);
    assert_eq!(p.next_age(), 1);
    assert_eq!(p.oldest_voice(), 0);
    assert!(note_state(&p).iter().all(|n| *n == -1));
}

#[test]
fn notes_fill_the_first_free_slots_with_rising_ages() {
    let mut p = VoicePool::new();
    assert_eq!(p.note_on(60, 8), 0);
    assert_eq!(p.note_on(62, 8), 1);
    assert_eq!(p.note_on(64, 8), 2);
    assert_eq!(p.slot(0).age, 1);
    assert_eq!(p.slot(2).age, 3);
    assert_eq!(p.next_age(), 4);
    // Free the middle slot: the next note reuses it.
    p.free(1);
    assert_eq!(p.active_voices(), 2);
    assert_eq!(p.note_on(65, 8), 1);
    assert_eq!(p.slot(1).note, 65);
    assert_eq!(p.slot(1).age, 4);
}

#[test]
fn stealing_takes_the_oldest_sounding_voice() {
    let mut p = VoicePool::new();
    p.note_on(60, 3);
    p.note_on(62, 3);
    p.note_on(64, 3);
    // The oldest (slot 0) goes idle; the oldest sounding is now slot 1.
    p.free(0);
    p.note_on(65, 3); // slot 0 is free again and under the limit
    assert_eq!(p.oldest_voice(), 1);
    assert_eq!(p.note_on(67, 3), 1);
    assert_eq!(p.active_voices(), 3);
    assert_eq!(sounding_notes(&p), vec![65, 67, 64]);
}

#[test]
fn lowering_poly_steals_without_growing() {
    let mut p = VoicePool::new();
    for n in 0..5u8 {
        p.note_on(40 + n, 8);
    }
    assert_eq!(p.active_voices(), 5);
    let idx = p.note_on(90, 2);
    assert_eq!(idx, 0);
    assert_eq!(p.active_voices(), 5);
}

#[test]
fn poly_is_clamped_to_at_least_one_and_at_most_sixteen() {
    let mut p = VoicePool::new();
    p.note_on(60, 0);
    p.note_on(61, 0);
    assert_eq!(p.active_voices(), 1);
    assert_eq!(sounding_notes(&p), vec![61]);
    let mut q = VoicePool::new();
    for n in 0..20u8 {
        q.note_on(30 + n, 100);
    }
    assert_eq!(q.active_voices(), MAX_VOICES);
    // The first four were stolen by the last four.
    let notes = sounding_notes(&q);
    assert!(!notes.contains(&30) && notes.contains(&49));
}

#[test]
fn note_off_releases_every_voice_playing_the_note() {
    let mut p = VoicePool::new();
    p.note_on(60, 8);
    p.note_on(64, 8);
    p.note_on(60, 8);
    let r = releases(&p, 60);
    assert_eq!(r.len(), MAX_VOICES);
    assert_eq!(&r[..4], &[true, false, true, false]);
    assert!(releases(&p, 61).iter().all(|b| !*b));
    // An idle slot keeps its note but is not released.
    p.free(0);
    assert_eq!(p.slot(0).note, 60);
    assert_eq!(&releases(&p, 60)[..3], &[false, false, true]);
}

#[test]
fn all_notes_off_silences_everything() {
    let mut p = VoicePool::new();
    p.note_on(60, 8);
    p.note_on(64, 8);
    p.all_notes_off();
    assert_eq!(p.active_voices(), 0);
    assert_eq!(p.next_age(), 3);
    assert!(note_state(&p).iter().all(|n| *n == -1));
    assert_eq!(p.note_on(70, 8), 0);
}
