use noob_wave::env::Stage;

#[test]
fn stage_machine_runs_a_note() {
    let s = Stage::default();
    assert!(s.is_idle());
    let s = s.note_on();
    assert_eq!(s, Stage::Attack);
    assert_eq!(s.advance(false), Stage::Attack);
    let s = s.advance(true);
    assert_eq!(s, Stage::Decay);
    let s = s.advance(true);
    assert_eq!(s, Stage::Sustain);
    assert_eq!(s.advance(true), Stage::Sustain);
    let s = s.note_off();
    assert_eq!(s, Stage::Release);
    assert_eq!(s.advance(false), Stage::Release);
    let s = s.advance(true);
    assert!(s.is_idle());
    assert_eq!(s.advance(true), Stage::Idle);
}

#[test]
fn note_off_while_idle_does_nothing() {
    assert_eq!(Stage::Idle.note_off(), Stage::Idle);
    assert_eq!(Stage::Attack.note_off(), Stage::Release);
    assert_eq!(Stage::Decay.note_off(), Stage::Release);
    assert_eq!(Stage::Release.note_off(), Stage::Release);
}

#[test]
fn reset_and_note_on_restart_from_any_stage() {
    for s in [Stage::Idle, Stage::Attack, Stage::Decay, Stage::Sustain, Stage::Release] {
        assert_eq!(s.reset(), Stage::Idle);
        assert_eq!(s.note_on(), Stage::Attack);
        assert!(!s.note_on().is_idle());
    }
}
