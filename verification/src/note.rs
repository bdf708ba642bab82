//! Pitches by name: a letter, an accidental and an octave, and the pitch
//! index that they stand for. Index 69 is the A above middle C; each step is
//! one semitone and each octave twelve steps, starting with C.

use vstd::prelude::*;
use crate::tuning::{spec_frequency, transpose};

verus! {

/// The seven natural notes of an octave.
#[derive(Clone, Copy, PartialEq, Eq, Structural, Debug)]
pub enum NoteLetter {
    C,
    D,
    E,
    F,
    G,
    A,
    B,
}

impl NoteLetter {
    /// The number of semitones from the C of the same octave.
    pub open spec fn spec_semitone(self) -> int {
        match self {
            NoteLetter::C => 0,
            NoteLetter::D => 2,
            NoteLetter::E => 4,
            NoteLetter::F => 5,
            NoteLetter::G => 7,
            NoteLetter::A => 9,
            NoteLetter::B => 11,
        }
    }

    /// The number of semitones from the C of the same octave.
    pub fn semitone(self) -> (s: u8)
        ensures
            s == self.spec_semitone(),
    {
        match self {
            NoteLetter::C => 0,
            NoteLetter::D => 2,
            NoteLetter::E => 4,
            NoteLetter::F => 5,
            NoteLetter::G => 7,
            NoteLetter::A => 9,
            NoteLetter::B => 11,
        }
    }
}

/// A shift of a natural note by one semitone, or none.
#[derive(Clone, Copy, PartialEq, Eq, Structural, Debug)]
pub enum Accidental {
    Flat,
    Sharp,
    Natural,
}

impl Accidental {
    /// The shift in semitones.
    pub open spec fn spec_shift(self) -> int {
        match self {
            Accidental::Flat => -1,
            Accidental::Sharp => 1,
            Accidental::Natural => 0,
        }
    }

    /// The shift in semitones.
    pub fn shift(self) -> (s: i8)
        ensures
            s == self.spec_shift(),
    {
        match self {
            Accidental::Flat => -1,
            Accidental::Sharp => 1,
            Accidental::Natural => 0,
        }
    }
}

/// A named pitch. The octave counts from zero; the octave that musicians
/// number 4 is octave 5 here.
#[derive(Clone, Copy, PartialEq, Eq, Structural, Debug)]
pub struct Note {
    pub letter: NoteLetter,
    pub accidental: Accidental,
    pub octave: u8,
}

/// The letter of the semitone `step` of an octave; a semitone between two
/// natural notes takes the letter below it.
pub open spec fn letter_at(step: int) -> NoteLetter {
    if step <= 1 {
        NoteLetter::C
    } else if step <= 3 {
        NoteLetter::D
    } else if step == 4 {
        NoteLetter::E
    } else if step <= 6 {
        NoteLetter::F
    } else if step <= 8 {
        NoteLetter::G
    } else if step <= 10 {
        NoteLetter::A
    } else {
        NoteLetter::B
    }
}

/// The accidental of the semitone `step` of an octave: sharp for the five
/// semitones between natural notes.
pub open spec fn accidental_at(step: int) -> Accidental {
    if step == 1 || step == 3 || step == 6 || step == 8 || step == 10 {
        Accidental::Sharp
    } else {
        Accidental::Natural
    }
}

/// The name of the pitch with index `val`.
pub open spec fn name_of(val: u8) -> Note {
    Note {
        letter: letter_at(val as int % 12),
        accidental: accidental_at(val as int % 12),
        octave: (val / 12) as u8,
    }
}

impl Note {
    /// The semitone of the octave that letter and accidental name. A sharp B
    /// is the C of the same octave; a flat C lies one below its octave's C.
    pub open spec fn degree(self) -> int {
        let s = self.letter.spec_semitone() + self.accidental.spec_shift();
        if s == 12 {
            0
        } else {
            s
        }
    }

    /// The pitch index, taken modulo 256.
    pub open spec fn pitch(self) -> int {
        (self.degree() + 12 * self.octave) % 256
    }

    pub fn new(letter: NoteLetter, accidental: Accidental, octave: u8) -> (note: Self)
        ensures
            note == (Note { letter, accidental, octave }),
    {
        Note { letter, accidental, octave }
    }

    /// The pitch index of this name.
    pub fn into_u8(self) -> (index: u8)
        ensures
            index == self.pitch(),
    {
        let s: i32 = self.letter.semitone() as i32 + self.accidental.shift() as i32;
        let degree: i32 = if s == 12 {
            0
        } else {
            s
        };
        let raised: i32 = degree + 12 * (self.octave as i32) + 256;
        (raised % 256) as u8
    }
}

impl From<u8> for Note {
    /// The name of the pitch with index `val`, written with sharps.
    fn from(val: u8) -> (note: Note) {
        let octave: u8 = val / 12;
        let step: u8 = val % 12;
        if step == 0 {
            Note::new(NoteLetter::C, Accidental::Natural, octave)
        } else if step == 1 {
            Note::new(NoteLetter::C, Accidental::Sharp, octave)
        } else if step == 2 {
            Note::new(NoteLetter::D, Accidental::Natural, octave)
        } else if step == 3 {
            Note::new(NoteLetter::D, Accidental::Sharp, octave)
        } else if step == 4 {
            Note::new(NoteLetter::E, Accidental::Natural, octave)
        } else if step == 5 {
            Note::new(NoteLetter::F, Accidental::Natural, octave)
        } else if step == 6 {
            Note::new(NoteLetter::F, Accidental::Sharp, octave)
        } else if step == 7 {
            Note::new(NoteLetter::G, Accidental::Natural, octave)
        } else if step == 8 {
            Note::new(NoteLetter::G, Accidental::Sharp, octave)
        } else if step == 9 {
            Note::new(NoteLetter::A, Accidental::Natural, octave)
        } else if step == 10 {
            Note::new(NoteLetter::A, Accidental::Sharp, octave)
        } else {
            Note::new(NoteLetter::B, Accidental::Natural, octave)
        }
    }
}

impl vstd::std_specs::convert::FromSpecImpl<u8> for Note {
    open spec fn obeys_from_spec() -> bool {
        true
    }

    open spec fn from_spec(val: u8) -> Note {
        name_of(val)
    }
}

/// Naming a pitch index and taking the index of the name gives the index
/// back.
pub proof fn law_name_round_trip(val: u8)
    ensures
        name_of(val).pitch() == val,
{
    let step = val as int % 12;
    let octave = val as int / 12;
    assert(val == 12 * octave + step) by {
        vstd::arithmetic::div_mod::lemma_fundamental_div_mod(val as int, 12);
    }
}

/// The character for the digit `d`.
pub open spec fn digit_char(d: int) -> char {
    (48 + d) as char
}

/// The decimal digits of `n`.
pub open spec fn decimal(n: nat) -> Seq<char>
    decreases n,
{
    if n < 10 {
        seq![digit_char(n as int)]
    } else {
        decimal(n / 10).push(digit_char(n as int % 10))
    }
}

/// The decimal digits of `n`, after a minus sign if it is negative.
pub open spec fn signed_decimal(n: int) -> Seq<char> {
    if n < 0 {
        seq!['-'] + decimal((-n) as nat)
    } else {
        decimal(n as nat)
    }
}

impl NoteLetter {
    /// The letter as a character.
    pub open spec fn spec_symbol(self) -> char {
        match self {
            NoteLetter::C => 'C',
            NoteLetter::D => 'D',
            NoteLetter::E => 'E',
            NoteLetter::F => 'F',
            NoteLetter::G => 'G',
            NoteLetter::A => 'A',
            NoteLetter::B => 'B',
        }
    }

    /// The letter as a character.
    pub fn symbol(self) -> (c: char)
        ensures
            c == self.spec_symbol(),
    {
        match self {
            NoteLetter::C => 'C',
            NoteLetter::D => 'D',
            NoteLetter::E => 'E',
            NoteLetter::F => 'F',
            NoteLetter::G => 'G',
            NoteLetter::A => 'A',
            NoteLetter::B => 'B',
        }
    }
}

impl Accidental {
    /// The sign of the accidental: `b`, `#` or nothing.
    pub open spec fn spec_sign(self) -> Seq<char> {
        match self {
            Accidental::Flat => seq!['b'],
            Accidental::Sharp => seq!['#'],
            Accidental::Natural => Seq::empty(),
        }
    }
}

impl Note {
    /// The number of the octave as musicians count it: one less than the
    /// octave, which is read as a signed byte.
    pub open spec fn octave_number(self) -> int {
        if self.octave < 128 {
            self.octave - 1
        } else {
            self.octave - 257
        }
    }

    /// The written name: the letter, the sign of the accidental and the number
    /// of the octave.
    pub open spec fn label_text(self) -> Seq<char> {
        seq![self.letter.spec_symbol()] + self.accidental.spec_sign() + signed_decimal(
            self.octave_number(),
        )
    }

    /// The written name, such as `C#4`.
    pub fn label(&self) -> (text: String)
        ensures
            text@ == self.label_text(),
    {
        let mut text = String::new();
        text.push(self.letter.symbol());
        match self.accidental {
            Accidental::Flat => {
                text.push('b');
            },
            Accidental::Sharp => {
                text.push('#');
            },
            Accidental::Natural => {},
        }
        let number: i16 = if self.octave < 128 {
            self.octave as i16 - 1
        } else {
            self.octave as i16 - 257
        };
        let ghost stem = text@;
        let magnitude: u8 = if number < 0 {
            text.push('-');
            (-number) as u8
        } else {
            number as u8
        };
        let ghost signed_stem = text@;
        push_decimal(&mut text, magnitude);
        assert(text@ =~= stem + signed_decimal(number as int)) by {
            if number < 0 {
                assert(signed_stem =~= stem + seq!['-']);
            }
        }
        text
    }
}

/// The character for the digit `d`.
fn digit(d: u8) -> (c: char)
    requires
        d < 10,
    ensures
        c == digit_char(d as int),
{
    match d {
        0 => '0',
        1 => '1',
        2 => '2',
        3 => '3',
        4 => '4',
        5 => '5',
        6 => '6',
        7 => '7',
        8 => '8',
        _ => '9',
    }
}

/// Appends the decimal digits of `n`.
fn push_decimal(text: &mut String, n: u8)
    ensures
        final(text)@ == old(text)@ + decimal(n as nat),
{
    reveal_with_fuel(decimal, 3);
    if n >= 100 {
        text.push(digit(n / 100));
    }
    if n >= 10 {
        text.push(digit((n / 10) % 10));
    }
    text.push(digit(n % 10));
}

/// `String::push` of the standard library appends the one character to the
/// end of the string and leaves what was there in place.
pub assume_specification[ String::push ](text: &mut String, ch: char)
    ensures
        final(text)@ == old(text)@.push(ch),
;

impl Note {
    /// The frequency of the pitch, in millionths of a hertz.
    pub fn freq(self) -> (hertz: u64)
        ensures
            hertz == spec_frequency(self.pitch()),
    {
        transpose(self.into_u8(), 0)
    }
}

} // verus!
