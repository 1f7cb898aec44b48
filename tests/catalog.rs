use note_generator::catalog::{
    convert_note_format, from_solfege, generate_random_note, note_at, to_solfege, NATURAL_COUNT,
    SPELLING_COUNT,
};

const NATURAL_NOTES: &[&str] = &["C", "D", "E", "F", "G", "A", "B"];
const SHARP_NOTES: &[&str] = &["C#", "D#", "F#", "G#", "A#"];
const FLAT_NOTES: &[&str] = &["Db", "Eb", "Gb", "Ab", "Bb"];

fn all_notes() -> Vec<&'static str> {
    [NATURAL_NOTES, SHARP_NOTES, FLAT_NOTES]
        .iter()
        .flat_map(|notes| notes.iter().copied())
        .collect()
}

const SYLLABLES: &[&str] = &[
    "Do", "Rﾃｩ", "Mi", "Fa", "Sol", "La", "Si", "Do#", "Rﾃｩ#", "Fa#", "Sol#", "La#", "Rﾃｩ笙ｭ",
    "Mi笙ｭ", "Sol笙ｭ", "La笙ｭ", "Si笙ｭ",
];

#[test]
fn test_generate_natural_note() {
    let note = generate_random_note(false, false);
    assert!(NATURAL_NOTES.contains(&note.as_str()));
}

#[test]
fn test_generate_note_with_sharp() {
    let note = generate_random_note(true, false);
    let all_notes = all_notes();
    assert!(all_notes.contains(&note.as_str()));
}

#[test]
fn test_to_solfege() {
    assert_eq!(to_solfege("C"), "Do");
    assert_eq!(to_solfege("C#"), "Do#");
    assert_eq!(to_solfege("Db"), "Rﾃｩ笙ｭ");
}

#[test]
fn test_from_solfege() {
    assert_eq!(from_solfege("Do"), "C");
    assert_eq!(from_solfege("Do#"), "C#");
    assert_eq!(from_solfege("Rﾃｩ笙ｭ"), "Db");
}

#[test]
fn natural_draws_map_back_to_naturals() {
    for _ in 0..200 {
        let note = generate_random_note(false, true);
        let letter = from_solfege(&note);
        assert!(NATURAL_NOTES.contains(&letter.as_str()));
        let plain = generate_random_note(false, false);
        assert!(NATURAL_NOTES.contains(&plain.as_str()));
    }
}

#[test]
fn accidental_draws_stay_in_catalog() {
    let all = all_notes();
    for _ in 0..200 {
        let note = generate_random_note(true, true);
        assert!(SYLLABLES.contains(&note.as_str()));
        assert!(all.contains(&from_solfege(&note).as_str()));
        let letter = generate_random_note(true, false);
        assert!(all.contains(&letter.as_str()));
    }
}

#[test]
fn every_spelling_round_trips() {
    for (letter, syllable) in all_notes().iter().zip(SYLLABLES.iter()) {
        assert_eq!(to_solfege(letter), *syllable);
        assert_eq!(from_solfege(&to_solfege(letter)), *letter);
        assert_eq!(from_solfege(syllable), *letter);
    }
}

#[test]
fn plain_flat_syllables_match_accented() {
    let plain = ["Rﾃｩb", "Mib", "Solb", "Lab", "Sib"];
    let accented = ["Rﾃｩ笙ｭ", "Mi笙ｭ", "Sol笙ｭ", "La笙ｭ", "Si笙ｭ"];
    for k in 0..5 {
        assert_eq!(from_solfege(plain[k]), from_solfege(accented[k]));
        assert_eq!(from_solfege(plain[k]), FLAT_NOTES[k]);
        assert_eq!(to_solfege(FLAT_NOTES[k]), accented[k]);
    }
}

#[test]
fn relabel_examples() {
    assert_eq!(convert_note_format("C#", true), "Do#");
    assert_eq!(convert_note_format("Do#", false), "C#");
    assert_eq!(convert_note_format("Unknown", true), "Unknown");
    assert_eq!(convert_note_format("Unknown", false), "Unknown");
    assert_eq!(convert_note_format("Sol", false), "G");
    assert_eq!(convert_note_format("G", true), "Sol");
}

#[test]
fn unrecognized_text_passes_through() {
    assert_eq!(to_solfege(""), "");
    assert_eq!(from_solfege(""), "");
    assert_eq!(to_solfege("Do"), "Do");
    assert_eq!(from_solfege("C"), "C");
    assert_eq!(to_solfege("c"), "c");
    assert_eq!(from_solfege("Re"), "Re");
}

#[test]
fn toggling_twice_restores_text() {
    for letter in all_notes() {
        assert_eq!(convert_note_format(&convert_note_format(letter, true), false), letter);
    }
    for syllable in SYLLABLES {
        assert_eq!(convert_note_format(&convert_note_format(syllable, false), true), *syllable);
    }
}

#[test]
fn note_at_gives_each_position() {
    assert_eq!(NATURAL_COUNT, 7);
    assert_eq!(SPELLING_COUNT, 17);
    let all = all_notes();
    for i in 0..SPELLING_COUNT {
        assert_eq!(note_at(i, true, false), all[i]);
        assert_eq!(note_at(i, true, true), SYLLABLES[i]);
    }
    for i in 0..NATURAL_COUNT {
        assert_eq!(note_at(i, false, false), NATURAL_NOTES[i]);
    }
    assert_eq!(note_at(16, true, true), "Si笙ｭ");
    assert_eq!(note_at(0, false, true), "Do");
}
