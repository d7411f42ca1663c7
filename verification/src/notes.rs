//! The note model: letter names, accidentals, parsing and rendering of note
//! tokens, and the letter-cycling step that keeps a note correctly spelled.

use vstd::prelude::*;

verus! {

/// The seven natural letter names, cyclic in the order A, B, C, D, E, F, G.
#[derive(Copy, Clone, PartialEq, Eq, Structural, Debug)]
pub enum Letter {
    A,
    B,
    C,
    D,
    E,
    F,
    G,
}

/// The next letter in cyclic order.
pub open spec fn spec_next_letter(l: Letter) -> Letter {
    match l {
        Letter::A => Letter::B,
        Letter::B => Letter::C,
        Letter::C => Letter::D,
        Letter::D => Letter::E,
        Letter::E => Letter::F,
        Letter::F => Letter::G,
        Letter::G => Letter::A,
    }
}

/// The semitone distance from the previous letter's natural pitch to this
/// letter's natural pitch: 1 across the B-C and E-F boundaries, 2 elsewhere.
pub open spec fn spec_incremental_value(l: Letter) -> int {
    match l {
        Letter::A => 2,
        Letter::B => 2,
        Letter::C => 1,
        Letter::D => 2,
        Letter::E => 2,
        Letter::F => 1,
        Letter::G => 2,
    }
}

/// The letter's position in the cycle, with A at 0.
pub open spec fn letter_index(l: Letter) -> int {
    match l {
        Letter::A => 0,
        Letter::B => 1,
        Letter::C => 2,
        Letter::D => 3,
        Letter::E => 4,
        Letter::F => 5,
        Letter::G => 6,
    }
}

/// The upper-case character that names the letter.
pub open spec fn letter_char(l: Letter) -> char {
    match l {
        Letter::A => 'A',
        Letter::B => 'B',
        Letter::C => 'C',
        Letter::D => 'D',
        Letter::E => 'E',
        Letter::F => 'F',
        Letter::G => 'G',
    }
}

/// The letter named by a character, upper or lower case; `None` for any
/// character that names no letter.
pub open spec fn char_letter(c: char) -> Option<Letter> {
    if c == 'A' || c == 'a' {
        Some(Letter::A)
    } else if c == 'B' || c == 'b' {
        Some(Letter::B)
    } else if c == 'C' || c == 'c' {
        Some(Letter::C)
    } else if c == 'D' || c == 'd' {
        Some(Letter::D)
    } else if c == 'E' || c == 'e' {
        Some(Letter::E)
    } else if c == 'F' || c == 'f' {
        Some(Letter::F)
    } else if c == 'G' || c == 'g' {
        Some(Letter::G)
    } else {
        None
    }
}

/// A note: a letter name together with a signed count of accidentals.
/// Positive counts are sharps, negative counts are flats, zero is natural.
/// Spelling is part of identity: C sharp and D flat are distinct notes.
#[derive(Copy, Clone, PartialEq, Eq, Structural, Debug)]
pub struct Note {
    pub letter: Letter,
    pub accidental_count: i32,
}

/// The note one `step` semitones above `n`, spelled with the next letter in
/// cyclic order and whatever accidental count makes the arithmetic exact.
/// (The cast is the identity whenever the count fits in its type, which
/// `Note::next` requires.)
pub open spec fn spec_advance(n: Note, step: i32) -> Note {
    Note {
        letter: spec_next_letter(n.letter),
        accidental_count: (n.accidental_count + step - spec_incremental_value(
            spec_next_letter(n.letter),
        )) as i32,
    }
}

/// The accidental marks of a note with accidental count `n`: `n` sharps when
/// positive, `-n` flats when negative, nothing when zero.
pub open spec fn accidental_chars(n: int) -> Seq<char> {
    if n > 0 {
        Seq::new(n as nat, |i: int| '#')
    } else if n < 0 {
        Seq::new((-n) as nat, |i: int| 'b')
    } else {
        Seq::empty()
    }
}

/// The canonical rendering of a note: its letter's upper-case name followed
/// by its accidental marks.
pub open spec fn spec_render(n: Note) -> Seq<char> {
    seq![letter_char(n.letter)] + accidental_chars(n.accidental_count as int)
}

/// Whether a token is a well-formed note name: one letter character, upper or
/// lower case, optionally followed by a single `#` or `b`.
pub open spec fn parse_ok(s: Seq<char>) -> bool {
    &&& 1 <= s.len() <= 2
    &&& char_letter(s[0]) is Some
    &&& s.len() == 2 ==> s[1] == '#' || s[1] == 'b'
}

/// The note a well-formed token names.
pub open spec fn spec_parse_note(s: Seq<char>) -> Note
    recommends
        parse_ok(s),
{
    Note {
        letter: char_letter(s[0])->Some_0,
        accidental_count: if s.len() == 2 {
            if s[1] == '#' {
                1
            } else {
                -1i32
            }
        } else {
            0
        },
    }
}

impl Letter {
    /// The next letter in cyclic order; G wraps around to A.
    pub fn next(&self) -> (r: Letter)
        ensures
            r == spec_next_letter(*self),
    {
        match self {
            Letter::A => Letter::B,
            Letter::B => Letter::C,
            Letter::C => Letter::D,
            Letter::D => Letter::E,
            Letter::E => Letter::F,
            Letter::F => Letter::G,
            Letter::G => Letter::A,
        }
    }

    /// Semitone distance from the previous letter's natural pitch to this
    /// letter's natural pitch.
    pub fn incremental_value(&self) -> (r: i32)
        ensures
            r as int == spec_incremental_value(*self),
    {
        match self {
            Letter::A => 2,
            Letter::B => 2,
            Letter::C => 1,
            Letter::D => 2,
            Letter::E => 2,
            Letter::F => 1,
            Letter::G => 2,
        }
    }

    /// The letter's name as a one-character string.
    pub fn as_str(&self) -> (r: &'static str)
        ensures
            r@ == seq![letter_char(*self)],
    {
        match self {
            Letter::A => {
                proof {
                    reveal_strlit("A");
                    assert("A"@ =~= seq![letter_char(Letter::A)]);
                }
                "A"
            },
            Letter::B => {
                proof {
                    reveal_strlit("B");
                    assert("B"@ =~= seq![letter_char(Letter::B)]);
                }
                "B"
            },
            Letter::C => {
                proof {
                    reveal_strlit("C");
                    assert("C"@ =~= seq![letter_char(Letter::C)]);
                }
                "C"
            },
            Letter::D => {
                proof {
                    reveal_strlit("D");
                    assert("D"@ =~= seq![letter_char(Letter::D)]);
                }
                "D"
            },
            Letter::E => {
                proof {
                    reveal_strlit("E");
                    assert("E"@ =~= seq![letter_char(Letter::E)]);
                }
                "E"
            },
            Letter::F => {
                proof {
                    reveal_strlit("F");
                    assert("F"@ =~= seq![letter_char(Letter::F)]);
                }
                "F"
            },
            Letter::G => {
                proof {
                    reveal_strlit("G");
                    assert("G"@ =~= seq![letter_char(Letter::G)]);
                }
                "G"
            },
        }
    }
}

/// The letter a character names, accepting both cases; `None` for any other
/// character.
fn letter_of_char(c: char) -> (r: Option<Letter>)
    ensures
        r == char_letter(c),
{
    match c {
        'A' | 'a' => Some(Letter::A),
        'B' | 'b' => Some(Letter::B),
        'C' | 'c' => Some(Letter::C),
        'D' | 'd' => Some(Letter::D),
        'E' | 'e' => Some(Letter::E),
        'F' | 'f' => Some(Letter::F),
        'G' | 'g' => Some(Letter::G),
        _ => None,
    }
}

impl Note {
    /// A note built directly from its parts.
    pub fn new(letter: Letter, accidental_count: i32) -> (r: Note)
        ensures
            r == (Note { letter, accidental_count }),
    {
        Note { letter, accidental_count }
    }

    /// Parses a note token: exactly one letter A through G in either case,
    /// optionally followed by one `#` or one `b`. Returns the note for
    /// exactly the well-formed tokens, the empty-input message for an empty
    /// token, and the invalid-tonic message for every other token.
    pub fn from_string(input: &str) -> (r: Result<Note, &'static str>)
        ensures
            parse_ok(input@) <==> r is Ok,
            r is Ok ==> r->Ok_0 == spec_parse_note(input@),
            input@.len() == 0 ==> r is Err && r->Err_0@ == "No tonic note provided."@,
            input@.len() > 0 && !parse_ok(input@) ==> r is Err && r->Err_0@
                == "Invalid tonic note"@,
    {
        let n = input.unicode_len();
        if n == 0 {
            return Err("No tonic note provided.");
        }
        if n > 2 {
            return Err("Invalid tonic note");
        }
        let letter = match letter_of_char(input.get_char(0)) {
            Some(l) => l,
            None => {
                return Err("Invalid tonic note");
            },
        };
        let accidental_count: i32 = if n == 2 {
            match input.get_char(1) {
                '#' => 1,
                'b' => -1,
                _ => {
                    return Err("Invalid tonic note");
                },
            }
        } else {
            0
        };
        Ok(Note { letter, accidental_count })
    }

    /// The note `step` semitones above this one, spelled with the next letter
    /// in cyclic order and the accidental count that makes the pitch
    /// arithmetic exact.
    pub fn next(&self, step: i32) -> (r: Note)
        requires
            1 <= step,
            i32::MIN <= self.accidental_count + step - spec_incremental_value(
                spec_next_letter(self.letter),
            ) <= i32::MAX,
        ensures
            r.letter == spec_next_letter(self.letter),
            r.accidental_count == self.accidental_count + step - spec_incremental_value(r.letter),
            r == spec_advance(*self, step),
    {
        let letter = self.letter.next();
        let delta = step - letter.incremental_value();
        let accidental_count = self.accidental_count + delta;
        Note { letter, accidental_count }
    }

    /// Renders the note: the letter's upper-case name, then one `#` per
    /// positive accidental step or one `b` per negative accidental step.
    pub fn as_string(&self) -> (r: String)
        ensures
            r@ == spec_render(*self),
    {
        let mut s = self.letter.as_str().to_owned();
        if self.accidental_count > 0 {
            let mut i: i32 = 0;
            while i < self.accidental_count
                invariant
                    0 <= i <= self.accidental_count,
                    s@ == seq![letter_char(self.letter)] + Seq::new(i as nat, |j: int| '#'),
                decreases self.accidental_count - i,
            {
                s.append("#");
                proof {
                    reveal_strlit("#");
                    assert(s@ =~= seq![letter_char(self.letter)] + Seq::new(
                        (i + 1) as nat,
                        |j: int| '#',
                    ));
                }
                i = i + 1;
            }
        } else if self.accidental_count < 0 {
            let mut i: i32 = 0;
            while i > self.accidental_count
                invariant
                    self.accidental_count < 0,
                    self.accidental_count <= i <= 0,
                    s@ == seq![letter_char(self.letter)] + Seq::new((-i) as nat, |j: int| 'b'),
                decreases i - self.accidental_count,
            {
                s.append("b");
                proof {
                    reveal_strlit("b");
                    assert(s@ =~= seq![letter_char(self.letter)] + Seq::new(
                        (-(i - 1)) as nat,
                        |j: int| 'b',
                    ));
                }
                i = i - 1;
            }
        }
        proof {
            assert(s@ =~= spec_render(*self));
        }
        s
    }
}

/// Stepping to the next letter moves its cycle position forward by one,
/// wrapping from G back to A.
pub proof fn lemma_next_letter_index(l: Letter)
    ensures
        letter_index(spec_next_letter(l)) == if letter_index(l) == 6 {
            0int
        } else {
            letter_index(l) + 1
        },
{
}

/// Distinct letters occupy distinct cycle positions.
pub proof fn lemma_letter_index_injective(a: Letter, b: Letter)
    ensures
        letter_index(a) == letter_index(b) ==> a == b,
{
}

/// Composing two advances is not the same as advancing once by the combined
/// distance: the composition moves two letters along the cycle, a single
/// advance only one, so the letters always differ, whatever the step sizes.
pub proof fn lemma_advance_not_additive(n: Note, s1: i32, s2: i32, s3: i32)
    ensures
        spec_advance(spec_advance(n, s1), s2).letter != spec_advance(n, s3).letter,
{
}

/// Parsing a well-formed token and rendering the note it names gives back
/// the token with its letter normalized to upper case; a token whose letter
/// is already upper case round-trips verbatim.
pub proof fn lemma_parse_render_round_trip(s: Seq<char>)
    requires
        parse_ok(s),
    ensures
        spec_render(spec_parse_note(s)) == seq![letter_char(char_letter(s[0])->Some_0)] + s.skip(
            1,
        ),
        s[0] == letter_char(char_letter(s[0])->Some_0) ==> spec_render(spec_parse_note(s)) == s,
{
    let n = spec_parse_note(s);
    if s.len() == 1 {
        assert(spec_render(n) =~= seq![letter_char(n.letter)] + s.skip(1));
    } else if s[1] == '#' {
        assert(accidental_chars(1) =~= seq!['#']);
        assert(spec_render(n) =~= seq![letter_char(n.letter)] + s.skip(1));
    } else {
        assert(accidental_chars(-1) =~= seq!['b']);
        assert(spec_render(n) =~= seq![letter_char(n.letter)] + s.skip(1));
    }
    if s[0] == letter_char(char_letter(s[0])->Some_0) {
        assert(seq![s[0]] + s.skip(1) =~= s);
    }
}

} // verus!
