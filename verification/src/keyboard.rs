//! The keys of a computer keyboard laid out as a piano: the lower row of
//! letters plays the white keys from C, the row above it the black keys.

use vstd::prelude::*;

verus! {

/// The number of keys that play.
pub const KEY_COUNT: u8 = 17;

/// A key that plays a note, named by what is printed on it.
#[derive(Clone, Copy, PartialEq, Eq, Structural, Debug)]
pub enum PianoKey {
    Z,
    S,
    X,
    D,
    C,
    V,
    G,
    B,
    H,
    N,
    J,
    M,
    Comma,
    L,
    Dot,
    Semicolon,
    Slash,
}

/// The key that plays the note `key_id` semitones above the lowest C.
pub open spec fn spec_key_of(key_id: u8) -> Option<PianoKey> {
    if key_id == 0 {
        Some(PianoKey::Z)
    } else if key_id == 1 {
        Some(PianoKey::S)
    } else if key_id == 2 {
        Some(PianoKey::X)
    } else if key_id == 3 {
        Some(PianoKey::D)
    } else if key_id == 4 {
        Some(PianoKey::C)
    } else if key_id == 5 {
        Some(PianoKey::V)
    } else if key_id == 6 {
        Some(PianoKey::G)
    } else if key_id == 7 {
        Some(PianoKey::B)
    } else if key_id == 8 {
        Some(PianoKey::H)
    } else if key_id == 9 {
        Some(PianoKey::N)
    } else if key_id == 10 {
        Some(PianoKey::J)
    } else if key_id == 11 {
        Some(PianoKey::M)
    } else if key_id == 12 {
        Some(PianoKey::Comma)
    } else if key_id == 13 {
        Some(PianoKey::L)
    } else if key_id == 14 {
        Some(PianoKey::Dot)
    } else if key_id == 15 {
        Some(PianoKey::Semicolon)
    } else if key_id == 16 {
        Some(PianoKey::Slash)
    } else {
        None
    }
}

/// The key that plays the note `key_id` semitones above the lowest C, if
/// there is one.
pub fn key_of(key_id: u8) -> (key: Option<PianoKey>)
    ensures
        key == spec_key_of(key_id),
        key.is_some() <==> key_id < KEY_COUNT,
{
    match key_id {
        0 => Some(PianoKey::Z),
        1 => Some(PianoKey::S),
        2 => Some(PianoKey::X),
        3 => Some(PianoKey::D),
        4 => Some(PianoKey::C),
        5 => Some(PianoKey::V),
        6 => Some(PianoKey::G),
        7 => Some(PianoKey::B),
        8 => Some(PianoKey::H),
        9 => Some(PianoKey::N),
        10 => Some(PianoKey::J),
        11 => Some(PianoKey::M),
        12 => Some(PianoKey::Comma),
        13 => Some(PianoKey::L),
        14 => Some(PianoKey::Dot),
        15 => Some(PianoKey::Semicolon),
        16 => Some(PianoKey::Slash),
        _ => None,
    }
}

/// Whether the key that plays note `key_id` is among the keys that are down.
pub fn is_key_pressed(key_id: u8, keys: &Vec<PianoKey>) -> (pressed: bool)
    ensures
        pressed <==> (spec_key_of(key_id) matches Some(key) && keys@.contains(key)),
{
    match key_of(key_id) {
        Some(key) => {
            let mut i: usize = 0;
            while i < keys.len()
                invariant
                    i <= keys.len(),
                    spec_key_of(key_id) == Some(key),
                    forall|k: int| 0 <= k < i ==> keys@[k] != key,
                decreases keys.len() - i,
            {
                if keys[i] == key {
                    return true;
                }
                i += 1;
            }
            false
        },
        None => false,
    }
}

/// The pitch index of the key `key_id` when the lowest key plays the C of
/// `octave`, counted from zero; `None` if there is no such key or the pitch
/// lies above 255.
pub fn pitch_of_key(key_id: u8, octave: u8) -> (pitch: Option<u8>)
    ensures
        pitch matches Some(p) ==> p == key_id + 12 * octave,
        pitch.is_some() <==> key_id < KEY_COUNT && key_id + 12 * octave <= 255,
{
    if key_id >= KEY_COUNT {
        return None;
    }
    let wide: u32 = key_id as u32 + 12 * (octave as u32);
    if wide <= 255 {
        Some(wide as u8)
    } else {
        None
    }
}

} // verus!
