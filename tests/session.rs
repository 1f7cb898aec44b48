use note_generator::catalog::from_solfege;
use note_generator::session::{next_note, NoteSession, DEFAULT_INTERVAL_MS, MAX_INTERVAL_MS, MIN_INTERVAL_MS};

const NATURAL_SYLLABLES: &[&str] = &["Do", "Rﾃｩ", "Mi", "Fa", "Sol", "La", "Si"];

#[test]
fn new_session_defaults() {
    let s = NoteSession::new(1000);
    assert!(!s.allow_sharp());
    assert!(s.use_solfege());
    assert!(!s.timer_enabled());
    assert_eq!(s.interval_ms(), DEFAULT_INTERVAL_MS);
    assert_eq!(DEFAULT_INTERVAL_MS, 5000);
    assert!(NATURAL_SYLLABLES.contains(&s.current_note()));
    assert_eq!(s.remaining_ms(1000), 5000);
}

#[test]
fn next_note_prefers_first_draw() {
    let current = "Do".to_string();
    assert_eq!(next_note(&current, "Mi".to_string(), "Fa".to_string()), "Mi");
    assert_eq!(next_note(&current, "Do".to_string(), "Fa".to_string()), "Fa");
    assert_eq!(next_note(&current, "Do".to_string(), "Do".to_string()), "Do");
}

#[test]
fn manual_advance_resets_countdown() {
    let mut s = NoteSession::new(0);
    s.set_timer_enabled(true);
    s.advance(3000);
    assert!(!s.current_note().is_empty());
    assert!(NATURAL_SYLLABLES.contains(&s.current_note()));
    assert_eq!(s.remaining_ms(3000), 5000);
    assert!(!s.tick(7999));
    assert!(s.tick(8000));
}

#[test]
fn auto_advance_fires_exactly_at_interval() {
    let mut s = NoteSession::new(0);
    s.set_timer_enabled(true);
    let before = s.current_note().to_string();
    assert!(!s.tick(4999));
    assert_eq!(s.current_note(), before);
    assert_eq!(s.remaining_ms(4999), 1);
    assert!(s.tick(5000));
    assert_eq!(s.remaining_ms(5000), 5000);
    assert!(!s.tick(5001));
    assert!(s.tick(10500));
}

#[test]
fn disabled_timer_never_fires() {
    let mut s = NoteSession::new(0);
    let before = s.current_note().to_string();
    assert!(!s.tick(100_000));
    assert_eq!(s.current_note(), before);
    s.set_timer_enabled(true);
    assert!(!s.tick(104_999));
    assert!(s.tick(105_000));
}

#[test]
fn clock_before_last_advance_does_not_fire() {
    let mut s = NoteSession::new(10_000);
    s.set_timer_enabled(true);
    assert!(!s.tick(2_000));
    assert_eq!(s.remaining_ms(2_000), 5000);
}

#[test]
fn naming_toggle_relabels_without_redraw() {
    let mut s = NoteSession::new(0);
    let original = s.current_note().to_string();
    s.set_use_solfege(false);
    assert_eq!(s.current_note(), from_solfege(&original));
    s.set_use_solfege(false);
    assert_eq!(s.current_note(), from_solfege(&original));
    s.set_use_solfege(true);
    assert_eq!(s.current_note(), original);
    assert_eq!(s.remaining_ms(0), 5000);
}

#[test]
fn interval_is_clamped() {
    let mut s = NoteSession::new(0);
    s.set_interval_ms(0);
    assert_eq!(s.interval_ms(), MIN_INTERVAL_MS);
    s.set_interval_ms(1_000_000);
    assert_eq!(s.interval_ms(), MAX_INTERVAL_MS);
    s.set_interval_ms(7500);
    assert_eq!(s.interval_ms(), 7500);
}

#[test]
fn accidental_option_applies_to_next_draw() {
    let mut s = NoteSession::new(0);
    s.set_use_solfege(false);
    let before = s.current_note().to_string();
    s.set_allow_sharp(true);
    assert!(s.allow_sharp());
    assert_eq!(s.current_note(), before);
    for t in 1..50u64 {
        s.advance(t);
        assert!(!s.current_note().is_empty());
    }
}
