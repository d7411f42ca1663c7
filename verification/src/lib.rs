//! Scale generator: spells musical scales with correct letter names and
//! minimal accidentals, for any tonic note and any of the seven diatonic
//! modes.

use vstd::prelude::*;

pub mod error;
pub mod notes;

use notes::Note;
use notes::lemma_letter_index_injective;
use notes::lemma_next_letter_index;
use notes::letter_index;
use notes::spec_advance;
use notes::spec_render;

verus! {

/// The seven diatonic modes, each a rotation of the major-scale step pattern.
#[derive(Copy, Clone, PartialEq, Eq, Debug)]
pub enum Mode {
    Ionian,
    Dorian,
    Phrygian,
    Lydian,
    Mixolydian,
    Aeolian,
    Locrian,
}

/// The ordered semitone step sizes of a mode, from each scale degree to the
/// next. Seven entries, summing to 12.
pub open spec fn spec_intervals(m: Mode) -> Seq<i32> {
    match m {
        Mode::Ionian => seq![2i32, 2, 1, 2, 2, 2, 1],
        Mode::Dorian => seq![2i32, 1, 2, 2, 2, 1, 2],
        Mode::Phrygian => seq![1i32, 2, 2, 2, 1, 2, 2],
        Mode::Lydian => seq![2i32, 2, 2, 1, 2, 2, 1],
        Mode::Mixolydian => seq![2i32, 2, 1, 2, 2, 1, 2],
        Mode::Aeolian => seq![2i32, 1, 2, 2, 1, 2, 2],
        Mode::Locrian => seq![1i32, 2, 2, 1, 2, 2, 2],
    }
}

impl Mode {
    /// The mode's interval table as an array of seven semitone steps.
    pub fn intervals(&self) -> (r: [i32; 7])
        ensures
            r@ == spec_intervals(*self),
    {
        let r: [i32; 7] = match *self {
            Mode::Ionian => [2, 2, 1, 2, 2, 2, 1],
            Mode::Dorian => [2, 1, 2, 2, 2, 1, 2],
            Mode::Phrygian => [1, 2, 2, 2, 1, 2, 2],
            Mode::Lydian => [2, 2, 2, 1, 2, 2, 1],
            Mode::Mixolydian => [2, 2, 1, 2, 2, 1, 2],
            Mode::Aeolian => [2, 1, 2, 2, 1, 2, 2],
            Mode::Locrian => [1, 2, 2, 1, 2, 2, 2],
        };
        proof {
            assert(r@ =~= spec_intervals(*self));
        }
        r
    }

    /// The mode's display name: the familiar names for the two common modes,
    /// the mode's own name otherwise.
    pub fn name(&self) -> (r: &'static str)
        ensures
            r@ == spec_mode_name(*self),
    {
        match *self {
            Mode::Ionian => "Major",
            Mode::Dorian => "Dorian",
            Mode::Phrygian => "Phrygian",
            Mode::Lydian => "Lydian",
            Mode::Mixolydian => "Mixolydian",
            Mode::Aeolian => "Minor",
            Mode::Locrian => "Locrian",
        }
    }

    /// The mode a lower-case selector string names, accepting the mode names
    /// themselves together with the common spellings of the two common modes;
    /// `None` for any other selector.
    pub fn from_name(name: &str) -> (r: Option<Mode>)
        ensures
            r == spec_mode_of_name(name@),
    {
        if str_eq(name, "maj") || str_eq(name, "major") || str_eq(name, "ionian") {
            Some(Mode::Ionian)
        } else if str_eq(name, "dorian") {
            Some(Mode::Dorian)
        } else if str_eq(name, "phrygian") {
            Some(Mode::Phrygian)
        } else if str_eq(name, "lydian") {
            Some(Mode::Lydian)
        } else if str_eq(name, "mixolydian") {
            Some(Mode::Mixolydian)
        } else if str_eq(name, "min") || str_eq(name, "minor") || str_eq(name, "aeolian") {
            Some(Mode::Aeolian)
        } else if str_eq(name, "locrian") {
            Some(Mode::Locrian)
        } else {
            None
        }
    }
}

/// Whether two string slices hold the same characters.
fn str_eq(a: &str, b: &str) -> (r: bool)
    ensures
        r == (a@ == b@),
{
    let a_owned = a.to_owned();
    let b_owned = b.to_owned();
    a_owned == b_owned
}

/// The mode a lower-case selector names; `None` for any other selector.
pub open spec fn spec_mode_of_name(s: Seq<char>) -> Option<Mode> {
    if s == "maj"@ || s == "major"@ || s == "ionian"@ {
        Some(Mode::Ionian)
    } else if s == "dorian"@ {
        Some(Mode::Dorian)
    } else if s == "phrygian"@ {
        Some(Mode::Phrygian)
    } else if s == "lydian"@ {
        Some(Mode::Lydian)
    } else if s == "mixolydian"@ {
        Some(Mode::Mixolydian)
    } else if s == "min"@ || s == "minor"@ || s == "aeolian"@ {
        Some(Mode::Aeolian)
    } else if s == "locrian"@ {
        Some(Mode::Locrian)
    } else {
        None
    }
}

/// The display name of a mode: "Major" for Ionian, "Minor" for Aeolian, the
/// mode's own name otherwise.
pub open spec fn spec_mode_name(m: Mode) -> Seq<char> {
    match m {
        Mode::Ionian => "Major"@,
        Mode::Dorian => "Dorian"@,
        Mode::Phrygian => "Phrygian"@,
        Mode::Lydian => "Lydian"@,
        Mode::Mixolydian => "Mixolydian"@,
        Mode::Aeolian => "Minor"@,
        Mode::Locrian => "Locrian"@,
    }
}

/// The note reached from `tonic` after the first `i` steps of `m`'s interval
/// table: the tonic itself for `i == 0`, and one `spec_advance` per table
/// entry after that.
pub open spec fn note_at(tonic: Note, m: Mode, i: int) -> Note
    decreases i,
{
    if i <= 0 {
        tonic
    } else {
        spec_advance(note_at(tonic, m, i - 1), spec_intervals(m)[i - 1])
    }
}

/// A scale: a tonic note together with a mode. Its note sequence is computed
/// on demand by `enumerate`.
pub struct Scale {
    pub tonic: Note,
    pub mode: Mode,
}

impl Scale {
    /// A scale built from its tonic and mode.
    pub fn new(tonic: Note, mode: Mode) -> (r: Scale)
        ensures
            r == (Scale { tonic, mode }),
    {
        Scale { tonic, mode }
    }

    /// The seven notes of the scale, rendered in order: the tonic first, then
    /// each note one interval-table step above the previous one. The
    /// returned-to octave tonic is not included.
    pub fn enumerate(&self) -> (r: Vec<String>)
        requires
            i32::MIN + 7 <= self.tonic.accidental_count <= i32::MAX - 7,
        ensures
            r@.len() == 7,
            forall|i: int|
                0 <= i < 7 ==> #[trigger] r@[i]@ == spec_render(note_at(self.tonic, self.mode, i)),
            r@[0]@ == spec_render(self.tonic),
    {
        let intervals = self.mode.intervals();
        let mut notes: Vec<String> = Vec::new();
        let mut current = self.tonic;
        let mut idx: usize = 0;
        while idx < 7
            invariant
                0 <= idx <= 7,
                i32::MIN + 7 <= self.tonic.accidental_count <= i32::MAX - 7,
                intervals@ == spec_intervals(self.mode),
                current == note_at(self.tonic, self.mode, idx as int),
                self.tonic.accidental_count - idx <= current.accidental_count
                    <= self.tonic.accidental_count + idx,
                notes@.len() == idx,
                forall|i: int|
                    0 <= i < idx ==> #[trigger] notes@[i]@ == spec_render(
                        note_at(self.tonic, self.mode, i),
                    ),
            decreases 7 - idx,
        {
            proof {
                lemma_intervals_in_range(self.mode);
            }
            notes.push(current.as_string());
            let step = intervals[idx];
            current = current.next(step);
            idx = idx + 1;
        }
        notes
    }

    /// The scale's display name: the tonic's rendering, a space, and the
    /// mode's display name.
    pub fn name(&self) -> (r: String)
        ensures
            r@ == spec_render(self.tonic) + seq![' '] + spec_mode_name(self.mode),
    {
        let mut s = self.tonic.as_string();
        s.append(" ");
        s.append(self.mode.name());
        proof {
            reveal_strlit(" ");
            assert(s@ =~= spec_render(self.tonic) + seq![' '] + spec_mode_name(self.mode));
        }
        s
    }
}

/// Every entry of every mode's interval table is a semitone step of 1 or 2.
pub proof fn lemma_intervals_in_range(m: Mode)
    ensures
        forall|i: int| 0 <= i < 7 ==> 1 <= #[trigger] spec_intervals(m)[i] <= 2,
{
    assert forall|i: int| 0 <= i < 7 implies 1 <= #[trigger] spec_intervals(m)[i] <= 2 by {
        match m {
            Mode::Ionian => {},
            Mode::Dorian => {},
            Mode::Phrygian => {},
            Mode::Lydian => {},
            Mode::Mixolydian => {},
            Mode::Aeolian => {},
            Mode::Locrian => {},
        }
    }
}

/// The cycle position of the letter reached after `i` steps of a scale walk:
/// each step moves one letter forward, so it is the tonic's position plus
/// `i`, wrapped once past G.
pub proof fn lemma_note_at_letter(tonic: Note, m: Mode, i: int)
    requires
        0 <= i <= 7,
    ensures
        letter_index(note_at(tonic, m, i).letter) == if letter_index(tonic.letter) + i < 7 {
            letter_index(tonic.letter) + i
        } else {
            letter_index(tonic.letter) + i - 7
        },
    decreases i,
{
    if i > 0 {
        lemma_note_at_letter(tonic, m, i - 1);
        lemma_next_letter_index(note_at(tonic, m, i - 1).letter);
    }
}

/// A full walk of a mode's interval table touches every letter exactly once:
/// the seven notes of the scale carry seven distinct letters, none repeated
/// and none skipped, and the walk returns to the tonic's letter only after
/// exactly seven steps.
pub proof fn lemma_scale_letters_distinct(tonic: Note, m: Mode)
    ensures
        forall|i: int, j: int|
            0 <= i < j < 7 ==> note_at(tonic, m, i).letter != note_at(tonic, m, j).letter,
        note_at(tonic, m, 7).letter == tonic.letter,
        forall|i: int| 0 < i < 7 ==> note_at(tonic, m, i).letter != tonic.letter,
{
    assert forall|i: int, j: int|
        0 <= i < j < 7 implies note_at(tonic, m, i).letter != note_at(tonic, m, j).letter by {
        lemma_note_at_letter(tonic, m, i);
        lemma_note_at_letter(tonic, m, j);
        lemma_letter_index_injective(note_at(tonic, m, i).letter, note_at(tonic, m, j).letter);
    }
    lemma_note_at_letter(tonic, m, 7);
    lemma_letter_index_injective(note_at(tonic, m, 7).letter, tonic.letter);
    assert forall|i: int| 0 < i < 7 implies note_at(tonic, m, i).letter != tonic.letter by {
        lemma_note_at_letter(tonic, m, i);
        lemma_letter_index_injective(note_at(tonic, m, i).letter, tonic.letter);
    }
}

} // verus!
