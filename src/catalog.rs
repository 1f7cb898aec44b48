//! The note universe: natural, sharp and flat spellings, their names in the
//! letter and syllable systems, and random selection among them.
use rand::Rng;
use vstd::prelude::*;

verus! {

/// The seven natural spellings, letter system.
pub open spec fn natural_spellings() -> Seq<Seq<char>> {
    seq!["C"@, "D"@, "E"@, "F"@, "G"@, "A"@, "B"@]
}

/// The five sharp spellings, letter system.
pub open spec fn sharp_spellings() -> Seq<Seq<char>> {
    seq!["C#"@, "D#"@, "F#"@, "G#"@, "A#"@]
}

/// The five flat spellings, letter system.
pub open spec fn flat_spellings() -> Seq<Seq<char>> {
    seq!["Db"@, "Eb"@, "Gb"@, "Ab"@, "Bb"@]
}

/// All seventeen canonical letter spellings: naturals, then sharps, then flats.
pub open spec fn letter_spellings() -> Seq<Seq<char>> {
    natural_spellings() + sharp_spellings() + flat_spellings()
}

/// The canonical syllable spelling of each entry of `letter_spellings`, at the
/// same position.
pub open spec fn syllable_spellings() -> Seq<Seq<char>> {
    seq![
        "Do"@, "Rﾃｩ"@, "Mi"@, "Fa"@, "Sol"@, "La"@, "Si"@,
        "Do#"@, "Rﾃｩ#"@, "Fa#"@, "Sol#"@, "La#"@,
        "Rﾃｩ笙ｭ"@, "Mi笙ｭ"@, "Sol笙ｭ"@, "La笙ｭ"@, "Si笙ｭ"@,
    ]
}

/// The plain-suffix syllable spellings of the flats, accepted as input only,
/// at the positions of `flat_spellings`.
pub open spec fn plain_flat_syllables() -> Seq<Seq<char>> {
    seq!["Rﾃｩb"@, "Mib"@, "Solb"@, "Lab"@, "Sib"@]
}

/// Letter to syllable; anything unrecognized is left as it is.
pub open spec fn solfege_of(n: Seq<char>) -> Seq<char> {
    if n == "C"@ { "Do"@ }
    else if n == "D"@ { "Rﾃｩ"@ }
    else if n == "E"@ { "Mi"@ }
    else if n == "F"@ { "Fa"@ }
    else if n == "G"@ { "Sol"@ }
    else if n == "A"@ { "La"@ }
    else if n == "B"@ { "Si"@ }
    else if n == "C#"@ { "Do#"@ }
    else if n == "D#"@ { "Rﾃｩ#"@ }
    else if n == "F#"@ { "Fa#"@ }
    else if n == "G#"@ { "Sol#"@ }
    else if n == "A#"@ { "La#"@ }
    else if n == "Db"@ { "Rﾃｩ笙ｭ"@ }
    else if n == "Eb"@ { "Mi笙ｭ"@ }
    else if n == "Gb"@ { "Sol笙ｭ"@ }
    else if n == "Ab"@ { "La笙ｭ"@ }
    else if n == "Bb"@ { "Si笙ｭ"@ }
    else { n }
}

/// Syllable to letter, accepting both the accented and the plain-suffix flat
/// syllables; anything unrecognized is left as it is.
pub open spec fn letter_of(n: Seq<char>) -> Seq<char> {
    if n == "Do"@ { "C"@ }
    else if n == "Rﾃｩ"@ { "D"@ }
    else if n == "Mi"@ { "E"@ }
    else if n == "Fa"@ { "F"@ }
    else if n == "Sol"@ { "G"@ }
    else if n == "La"@ { "A"@ }
    else if n == "Si"@ { "B"@ }
    else if n == "Do#"@ { "C#"@ }
    else if n == "Rﾃｩ#"@ { "D#"@ }
    else if n == "Fa#"@ { "F#"@ }
    else if n == "Sol#"@ { "G#"@ }
    else if n == "La#"@ { "A#"@ }
    else if n == "Rﾃｩ笙ｭ"@ || n == "Rﾃｩb"@ { "Db"@ }
    else if n == "Mi笙ｭ"@ || n == "Mib"@ { "Eb"@ }
    else if n == "Sol笙ｭ"@ || n == "Solb"@ { "Gb"@ }
    else if n == "La笙ｭ"@ || n == "Lab"@ { "Ab"@ }
    else if n == "Si笙ｭ"@ || n == "Sib"@ { "Bb"@ }
    else { n }
}

/// A note text converted into the syllable system (`true`) or the letter
/// system (`false`).
pub open spec fn converted(n: Seq<char>, to_solfege_format: bool) -> Seq<char> {
    if to_solfege_format { solfege_of(n) } else { letter_of(n) }
}

/// Whether `a` and `b` hold the same characters.
fn same_text(a: &str, b: &str) -> (r: bool)
    ensures
        r == (a@ == b@),
{
    let n = a.unicode_len();
    if n != b.unicode_len() {
        return false;
    }
    let mut i: usize = 0;
    while i < n
        invariant
            n == a@.len(),
            n == b@.len(),
            i <= n,
            forall|j: int| 0 <= j < i ==> a@[j] == b@[j],
        decreases n - i,
    {
        if a.get_char(i) != b.get_char(i) {
            return false;
        }
        i += 1;
    }
    assert(a@ =~= b@);
    true
}

/// Converts a note from the letter system to the syllable system.
pub fn to_solfege(note: &str) -> (r: String)
    ensures
        r@ == solfege_of(note@),
{
    if same_text(note, "C") { "Do".to_owned() }
    else if same_text(note, "D") { "Rﾃｩ".to_owned() }
    else if same_text(note, "E") { "Mi".to_owned() }
    else if same_text(note, "F") { "Fa".to_owned() }
    else if same_text(note, "G") { "Sol".to_owned() }
    else if same_text(note, "A") { "La".to_owned() }
    else if same_text(note, "B") { "Si".to_owned() }
    else if same_text(note, "C#") { "Do#".to_owned() }
    else if same_text(note, "D#") { "Rﾃｩ#".to_owned() }
    else if same_text(note, "F#") { "Fa#".to_owned() }
    else if same_text(note, "G#") { "Sol#".to_owned() }
    else if same_text(note, "A#") { "La#".to_owned() }
    else if same_text(note, "Db") { "Rﾃｩ笙ｭ".to_owned() }
    else if same_text(note, "Eb") { "Mi笙ｭ".to_owned() }
    else if same_text(note, "Gb") { "Sol笙ｭ".to_owned() }
    else if same_text(note, "Ab") { "La笙ｭ".to_owned() }
    else if same_text(note, "Bb") { "Si笙ｭ".to_owned() }
    else { note.to_owned() }
}

/// Converts a note from the syllable system to the letter system.
pub fn from_solfege(note: &str) -> (r: String)
    ensures
        r@ == letter_of(note@),
{
    if same_text(note, "Do") { "C".to_owned() }
    else if same_text(note, "Rﾃｩ") { "D".to_owned() }
    else if same_text(note, "Mi") { "E".to_owned() }
    else if same_text(note, "Fa") { "F".to_owned() }
    else if same_text(note, "Sol") { "G".to_owned() }
    else if same_text(note, "La") { "A".to_owned() }
    else if same_text(note, "Si") { "B".to_owned() }
    else if same_text(note, "Do#") { "C#".to_owned() }
    else if same_text(note, "Rﾃｩ#") { "D#".to_owned() }
    else if same_text(note, "Fa#") { "F#".to_owned() }
    else if same_text(note, "Sol#") { "G#".to_owned() }
    else if same_text(note, "La#") { "A#".to_owned() }
    else if same_text(note, "Rﾃｩ笙ｭ") || same_text(note, "Rﾃｩb") { "Db".to_owned() }
    else if same_text(note, "Mi笙ｭ") || same_text(note, "Mib") { "Eb".to_owned() }
    else if same_text(note, "Sol笙ｭ") || same_text(note, "Solb") { "Gb".to_owned() }
    else if same_text(note, "La笙ｭ") || same_text(note, "Lab") { "Ab".to_owned() }
    else if same_text(note, "Si笙ｭ") || same_text(note, "Sib") { "Bb".to_owned() }
    else { note.to_owned() }
}

/// Converts an existing note into the syllable system (`true`) or the letter
/// system (`false`).
pub fn convert_note_format(note: &str, to_solfege_format: bool) -> (r: String)
    ensures
        r@ == converted(note@, to_solfege_format),
{
    if to_solfege_format {
        to_solfege(note)
    } else {
        from_solfege(note)
    }
}

/// Number of natural spellings; they come first in `letter_spellings`.
pub const NATURAL_COUNT: usize = 7;

/// Number of canonical spellings: naturals, sharps and flats.
pub const SPELLING_COUNT: usize = 17;

/// The letter spellings a draw picks from.
pub open spec fn candidates(allow_sharp: bool) -> Seq<Seq<char>> {
    if allow_sharp { letter_spellings() } else { natural_spellings() }
}

/// A letter spelling as shown in the syllable system (`true`) or the letter
/// system (`false`).
pub open spec fn displayed(n: Seq<char>, use_solfege: bool) -> Seq<char> {
    if use_solfege { solfege_of(n) } else { n }
}

/// Whether `n` is the display text of one of the candidates of a draw.
pub open spec fn is_draw_of(n: Seq<char>, allow_sharp: bool, use_solfege: bool) -> bool {
    exists|i: int| 0 <= i < candidates(allow_sharp).len()
        && n == #[trigger] displayed(candidates(allow_sharp)[i], use_solfege)
}

/// Relies on rand's `thread_rng().gen_range(0..bound)`: a value drawn from the
/// range `0..bound`, which must not be empty.
#[verifier::external_body]
fn random_index(bound: usize) -> (r: usize)
    requires
        bound > 0,
    ensures
        r < bound,
{
    rand::thread_rng().gen_range(0..bound)
}

/// The note at position `index` of the candidates, shown in the chosen system.
pub fn note_at(index: usize, allow_sharp: bool, use_solfege: bool) -> (r: String)
    requires
        index < candidates(allow_sharp).len(),
    ensures
        r@ == displayed(candidates(allow_sharp)[index as int], use_solfege),
{
    let table: Vec<&str> = vec![
        "C", "D", "E", "F", "G", "A", "B",
        "C#", "D#", "F#", "G#", "A#",
        "Db", "Eb", "Gb", "Ab", "Bb",
    ];
    assert(letter_spellings() =~= seq![
        "C"@, "D"@, "E"@, "F"@, "G"@, "A"@, "B"@,
        "C#"@, "D#"@, "F#"@, "G#"@, "A#"@,
        "Db"@, "Eb"@, "Gb"@, "Ab"@, "Bb"@,
    ]);
    let note: &str = table[index];
    if use_solfege {
        to_solfege(note)
    } else {
        note.to_owned()
    }
}

/// Draws a note uniformly among the naturals, or among all seventeen
/// spellings when `allow_sharp` holds, shown in the chosen system.
pub fn generate_random_note(allow_sharp: bool, use_solfege: bool) -> (r: String)
    ensures
        is_draw_of(r@, allow_sharp, use_solfege),
{
    let bound: usize = if allow_sharp { SPELLING_COUNT } else { NATURAL_COUNT };
    let index = random_index(bound);
    let r = note_at(index, allow_sharp, use_solfege);
    assert(r@ == displayed(candidates(allow_sharp)[index as int], use_solfege));
    r
}

/// Converting a canonical letter spelling into the syllable system gives the
/// accented syllable at the same position; converting that syllable, or for a
/// flat its plain-suffix variant, back gives the letter spelling again.
pub proof fn lemma_canonical_pair(i: int)
    requires
        0 <= i < 17,
    ensures
        solfege_of(letter_spellings()[i]) == syllable_spellings()[i],
        letter_of(syllable_spellings()[i]) == letter_spellings()[i],
        12 <= i ==> letter_of(plain_flat_syllables()[i - 12]) == letter_spellings()[i],
        !plain_flat_syllables().contains(syllable_spellings()[i]),
        letter_spellings()[i].len() > 0,
        syllable_spellings()[i].len() > 0,
{
    reveal_strlit("C");
    reveal_strlit("D");
    reveal_strlit("E");
    reveal_strlit("F");
    reveal_strlit("G");
    reveal_strlit("A");
    reveal_strlit("B");
    reveal_strlit("C#");
    reveal_strlit("D#");
    reveal_strlit("F#");
    reveal_strlit("G#");
    reveal_strlit("A#");
    reveal_strlit("Db");
    reveal_strlit("Eb");
    reveal_strlit("Gb");
    reveal_strlit("Ab");
    reveal_strlit("Bb");
    reveal_strlit("Do");
    reveal_strlit("Rﾃｩ");
    reveal_strlit("Mi");
    reveal_strlit("Fa");
    reveal_strlit("Sol");
    reveal_strlit("La");
    reveal_strlit("Si");
    reveal_strlit("Do#");
    reveal_strlit("Rﾃｩ#");
    reveal_strlit("Fa#");
    reveal_strlit("Sol#");
    reveal_strlit("La#");
    reveal_strlit("Rﾃｩ笙ｭ");
    reveal_strlit("Mi笙ｭ");
    reveal_strlit("Sol笙ｭ");
    reveal_strlit("La笙ｭ");
    reveal_strlit("Si笙ｭ");
    reveal_strlit("Rﾃｩb");
    reveal_strlit("Mib");
    reveal_strlit("Solb");
    reveal_strlit("Lab");
    reveal_strlit("Sib");
    // Spelling out every text lets the solver tell any two of them apart.
    assert("C"@.len() == 1 && "C"@[0] == 'C');
    assert("D"@.len() == 1 && "D"@[0] == 'D');
    assert("E"@.len() == 1 && "E"@[0] == 'E');
    assert("F"@.len() == 1 && "F"@[0] == 'F');
    assert("G"@.len() == 1 && "G"@[0] == 'G');
    assert("A"@.len() == 1 && "A"@[0] == 'A');
    assert("B"@.len() == 1 && "B"@[0] == 'B');
    assert("C#"@.len() == 2 && "C#"@[0] == 'C' && "C#"@[1] == '#');
    assert("D#"@.len() == 2 && "D#"@[0] == 'D' && "D#"@[1] == '#');
    assert("F#"@.len() == 2 && "F#"@[0] == 'F' && "F#"@[1] == '#');
    assert("G#"@.len() == 2 && "G#"@[0] == 'G' && "G#"@[1] == '#');
    assert("A#"@.len() == 2 && "A#"@[0] == 'A' && "A#"@[1] == '#');
    assert("Db"@.len() == 2 && "Db"@[0] == 'D' && "Db"@[1] == 'b');
    assert("Eb"@.len() == 2 && "Eb"@[0] == 'E' && "Eb"@[1] == 'b');
    assert("Gb"@.len() == 2 && "Gb"@[0] == 'G' && "Gb"@[1] == 'b');
    assert("Ab"@.len() == 2 && "Ab"@[0] == 'A' && "Ab"@[1] == 'b');
    assert("Bb"@.len() == 2 && "Bb"@[0] == 'B' && "Bb"@[1] == 'b');
    assert("Do"@.len() == 2 && "Do"@[0] == 'D' && "Do"@[1] == 'o');
    assert("Rﾃｩ"@.len() == 3 && "Rﾃｩ"@[0] == 'R' && "Rﾃｩ"@[1] == 'ﾃ' && "Rﾃｩ"@[2] == 'ｩ');
    assert("Mi"@.len() == 2 && "Mi"@[0] == 'M' && "Mi"@[1] == 'i');
    assert("Fa"@.len() == 2 && "Fa"@[0] == 'F' && "Fa"@[1] == 'a');
    assert("Sol"@.len() == 3 && "Sol"@[0] == 'S' && "Sol"@[1] == 'o' && "Sol"@[2] == 'l');
    assert("La"@.len() == 2 && "La"@[0] == 'L' && "La"@[1] == 'a');
    assert("Si"@.len() == 2 && "Si"@[0] == 'S' && "Si"@[1] == 'i');
    assert("Do#"@.len() == 3 && "Do#"@[0] == 'D' && "Do#"@[1] == 'o' && "Do#"@[2] == '#');
    assert("Rﾃｩ#"@.len() == 4 && "Rﾃｩ#"@[0] == 'R' && "Rﾃｩ#"@[1] == 'ﾃ' && "Rﾃｩ#"@[2] == 'ｩ' && "Rﾃｩ#"@[3] == '#');
    assert("Fa#"@.len() == 3 && "Fa#"@[0] == 'F' && "Fa#"@[1] == 'a' && "Fa#"@[2] == '#');
    assert("Sol#"@.len() == 4 && "Sol#"@[0] == 'S' && "Sol#"@[1] == 'o' && "Sol#"@[2] == 'l' && "Sol#"@[3] == '#');
    assert("La#"@.len() == 3 && "La#"@[0] == 'L' && "La#"@[1] == 'a' && "La#"@[2] == '#');
    assert("Rﾃｩ笙ｭ"@.len() == 5 && "Rﾃｩ笙ｭ"@[0] == 'R' && "Rﾃｩ笙ｭ"@[1] == 'ﾃ' && "Rﾃｩ笙ｭ"@[2] == 'ｩ' && "Rﾃｩ笙ｭ"@[3] == '笙' && "Rﾃｩ笙ｭ"@[4] == 'ｭ');
    assert("Mi笙ｭ"@.len() == 4 && "Mi笙ｭ"@[0] == 'M' && "Mi笙ｭ"@[1] == 'i' && "Mi笙ｭ"@[2] == '笙' && "Mi笙ｭ"@[3] == 'ｭ');
    assert("Sol笙ｭ"@.len() == 5 && "Sol笙ｭ"@[0] == 'S' && "Sol笙ｭ"@[1] == 'o' && "Sol笙ｭ"@[2] == 'l' && "Sol笙ｭ"@[3] == '笙' && "Sol笙ｭ"@[4] == 'ｭ');
    assert("La笙ｭ"@.len() == 4 && "La笙ｭ"@[0] == 'L' && "La笙ｭ"@[1] == 'a' && "La笙ｭ"@[2] == '笙' && "La笙ｭ"@[3] == 'ｭ');
    assert("Si笙ｭ"@.len() == 4 && "Si笙ｭ"@[0] == 'S' && "Si笙ｭ"@[1] == 'i' && "Si笙ｭ"@[2] == '笙' && "Si笙ｭ"@[3] == 'ｭ');
    assert("Rﾃｩb"@.len() == 4 && "Rﾃｩb"@[0] == 'R' && "Rﾃｩb"@[1] == 'ﾃ' && "Rﾃｩb"@[2] == 'ｩ' && "Rﾃｩb"@[3] == 'b');
    assert("Mib"@.len() == 3 && "Mib"@[0] == 'M' && "Mib"@[1] == 'i' && "Mib"@[2] == 'b');
    assert("Solb"@.len() == 4 && "Solb"@[0] == 'S' && "Solb"@[1] == 'o' && "Solb"@[2] == 'l' && "Solb"@[3] == 'b');
    assert("Lab"@.len() == 3 && "Lab"@[0] == 'L' && "Lab"@[1] == 'a' && "Lab"@[2] == 'b');
    assert("Sib"@.len() == 3 && "Sib"@[0] == 'S' && "Sib"@[1] == 'i' && "Sib"@[2] == 'b');
    assert(letter_spellings() =~= seq!["C"@, "D"@, "E"@, "F"@, "G"@, "A"@, "B"@, "C#"@, "D#"@, "F#"@, "G#"@, "A#"@, "Db"@, "Eb"@, "Gb"@, "Ab"@, "Bb"@]);
}

/// The letter spelling behind a note shown in the syllable system (`true`) or
/// the letter system (`false`).
pub open spec fn letter_name(n: Seq<char>, use_solfege: bool) -> Seq<char> {
    if use_solfege { letter_of(n) } else { n }
}

/// A draw without accidentals always stands for a natural note, whichever
/// naming system shows it.
pub proof fn lemma_natural_draw(n: Seq<char>, use_solfege: bool)
    requires
        is_draw_of(n, false, use_solfege),
    ensures
        natural_spellings().contains(letter_name(n, use_solfege)),
{
    let i = choose|i: int| 0 <= i < candidates(false).len()
        && n == #[trigger] displayed(candidates(false)[i], use_solfege);
    lemma_canonical_pair(i);
    assert(letter_spellings()[i] == natural_spellings()[i]);
    assert(natural_spellings()[i] == letter_name(n, use_solfege));
}

/// A draw with accidentals always stands for one of the seventeen canonical
/// spellings, and shows that spelling's canonical form in its naming system.
pub proof fn lemma_accidental_draw(n: Seq<char>, use_solfege: bool)
    requires
        is_draw_of(n, true, use_solfege),
    ensures
        letter_spellings().contains(letter_name(n, use_solfege)),
        use_solfege ==> syllable_spellings().contains(n),
{
    let i = choose|i: int| 0 <= i < candidates(true).len()
        && n == #[trigger] displayed(candidates(true)[i], use_solfege);
    lemma_canonical_pair(i);
    assert(letter_spellings()[i] == letter_name(n, use_solfege));
    if use_solfege {
        assert(syllable_spellings()[i] == n);
    }
}

/// Converting a canonical letter spelling into the syllable system and back
/// gives the spelling again.
pub proof fn lemma_round_trip(x: Seq<char>)
    requires
        letter_spellings().contains(x),
    ensures
        letter_of(solfege_of(x)) == x,
{
    let i = choose|i: int| 0 <= i < letter_spellings().len() && letter_spellings()[i] == x;
    lemma_canonical_pair(i);
}

/// A plain-suffix flat syllable converts to the same letter spelling as its
/// accented counterpart, while conversion into the syllable system always
/// gives the accented form, never a plain-suffix one.
pub proof fn lemma_flat_syllable_variants(k: int, x: Seq<char>)
    requires
        0 <= k < 5,
        letter_spellings().contains(x),
    ensures
        letter_of(plain_flat_syllables()[k]) == letter_of(syllable_spellings()[k + 12]),
        letter_of(plain_flat_syllables()[k]) == flat_spellings()[k],
        syllable_spellings().contains(solfege_of(x)),
        !plain_flat_syllables().contains(solfege_of(x)),
{
    lemma_canonical_pair(k + 12);
    let i = choose|i: int| 0 <= i < letter_spellings().len() && letter_spellings()[i] == x;
    lemma_canonical_pair(i);
    assert(syllable_spellings()[i] == solfege_of(x));
}

/// Switching the naming system of a canonical note away and back gives the
/// original text exactly.
pub proof fn lemma_toggle_twice(n: Seq<char>, use_solfege: bool)
    requires
        is_draw_of(n, true, use_solfege),
    ensures
        converted(converted(n, !use_solfege), use_solfege) == n,
{
    let i = choose|i: int| 0 <= i < candidates(true).len()
        && n == #[trigger] displayed(candidates(true)[i], use_solfege);
    lemma_canonical_pair(i);
}

/// A draw under any options shows a non-empty canonical spelling of its
/// naming system.
pub proof fn lemma_draw_is_canonical(n: Seq<char>, allow_sharp: bool, use_solfege: bool)
    requires
        is_draw_of(n, allow_sharp, use_solfege),
    ensures
        is_draw_of(n, true, use_solfege),
        n.len() > 0,
{
    let i = choose|i: int| 0 <= i < candidates(allow_sharp).len()
        && n == #[trigger] displayed(candidates(allow_sharp)[i], use_solfege);
    assert(candidates(allow_sharp)[i] == candidates(true)[i]);
    lemma_canonical_pair(i);
}

/// Relabelling a canonical spelling into the other naming system gives a
/// canonical spelling of that system.
pub proof fn lemma_relabel_is_canonical(n: Seq<char>, use_solfege: bool)
    requires
        is_draw_of(n, true, use_solfege),
    ensures
        is_draw_of(converted(n, !use_solfege), true, !use_solfege),
{
    let i = choose|i: int| 0 <= i < candidates(true).len()
        && n == #[trigger] displayed(candidates(true)[i], use_solfege);
    lemma_canonical_pair(i);
    assert(converted(n, !use_solfege) == displayed(candidates(true)[i], !use_solfege));
}

} // verus!
