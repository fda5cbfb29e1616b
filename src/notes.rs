//! Resolution of a physical key, under an octave offset, to a note of the
//! on-screen keyboard.
//!
//! The drawn keyboard has 52 white keys, numbered from 0 (the lowest `a`)
//! upwards. A physical key is bound to a *slot*: either a white key, by its
//! number, or the black key that stands just right of a white key, by the
//! number of that white key. Everything else about the note follows from the
//! slot; only the octave also depends on the offset.
use vstd::prelude::*;

verus! {

/// Keys as the terminal reports them: printable characters and the few
/// named keys the session reacts to.
#[derive(Clone, Copy, Debug, PartialEq, Eq, Structural)]
pub enum Key {
    Char(char),
    Left,
    Right,
    Up,
    Down,
    Esc,
    Other,
}

/// The twelve chromatic sound classes of an octave.
#[derive(Clone, Copy, Debug, PartialEq, Eq, Structural)]
pub enum SoundClass {
    A,
    As,
    B,
    C,
    Cs,
    D,
    Ds,
    E,
    F,
    Fs,
    G,
    Gs,
}

/// Number of white keys on the drawn keyboard.
pub const WHITE_KEYS: u16 = 52;

/// Octave of the white key whose bound physical key sounds the offset itself
/// as its octave.
pub const REFERENCE_OCTAVE: i16 = 3;

/// Exclusive bounds of a screen column that holds a key.
pub const MIN_COLUMN: i16 = 0;
pub const MAX_COLUMN: i16 = 155;

/// The short name of a sound class, as used for resources and in notes.
pub open spec fn sound_name(s: SoundClass) -> Seq<char> {
    match s {
        SoundClass::A => seq!['a'],
        SoundClass::As => seq!['a', 's'],
        SoundClass::B => seq!['b'],
        SoundClass::C => seq!['c'],
        SoundClass::Cs => seq!['c', 's'],
        SoundClass::D => seq!['d'],
        SoundClass::Ds => seq!['d', 's'],
        SoundClass::E => seq!['e'],
        SoundClass::F => seq!['f'],
        SoundClass::Fs => seq!['f', 's'],
        SoundClass::G => seq!['g'],
        SoundClass::Gs => seq!['g', 's'],
    }
}

/// Natural classes are drawn as white keys, sharps as black ones.
pub open spec fn is_natural(s: SoundClass) -> bool {
    match s {
        SoundClass::A | SoundClass::B | SoundClass::C | SoundClass::D | SoundClass::E
        | SoundClass::F | SoundClass::G => true,
        _ => false,
    }
}

/// The natural class of white key `i`: the keyboard starts on `a`.
pub open spec fn white_class(i: int) -> SoundClass {
    let r = i % 7;
    if r == 0 {
        SoundClass::A
    } else if r == 1 {
        SoundClass::B
    } else if r == 2 {
        SoundClass::C
    } else if r == 3 {
        SoundClass::D
    } else if r == 4 {
        SoundClass::E
    } else if r == 5 {
        SoundClass::F
    } else {
        SoundClass::G
    }
}

/// Whether a black key stands right of white key `i` (none after `b` and `e`).
pub open spec fn has_black_after(i: int) -> bool {
    let r = i % 7;
    r != 1 && r != 4
}

/// The sharp class of the black key right of white key `i`.
pub open spec fn black_class(i: int) -> SoundClass {
    let r = i % 7;
    if r == 0 {
        SoundClass::As
    } else if r == 2 {
        SoundClass::Cs
    } else if r == 3 {
        SoundClass::Ds
    } else if r == 5 {
        SoundClass::Fs
    } else {
        SoundClass::Gs
    }
}

/// Octave printed for white key `i`: octaves start at `c`, and white keys
/// 0 and 1 (`a`, `b`) are in octave 0.
pub open spec fn slot_octave(i: int) -> int {
    (i + 5) / 7
}

/// Class of a slot: the white key `i`, or the black key right of it.
pub open spec fn slot_class(white: bool, i: int) -> SoundClass {
    if white {
        white_class(i)
    } else {
        black_class(i)
    }
}

/// Screen column of a slot: white key `i` is painted from column `3 * i + 1`,
/// the black key right of it on the border column `3 * i + 3`.
pub open spec fn slot_position(white: bool, i: int) -> int {
    if white {
        3 * i + 1
    } else {
        3 * i + 3
    }
}

/// The fixed binding of physical keys to slots: `(white, i)`.
pub open spec fn key_slot(key: Key) -> Option<(bool, int)> {
    match key {
        Key::Char(c) => {
            if c == 'z' { Some((true, 11)) }
            else if c == 'x' { Some((true, 12)) }
            else if c == 'c' { Some((true, 13)) }
            else if c == 'v' { Some((true, 14)) }
            else if c == 'b' { Some((true, 15)) }
            else if c == 'n' { Some((true, 16)) }
            else if c == 'm' { Some((true, 17)) }
            else if c == ',' { Some((true, 18)) }
            else if c == '.' { Some((true, 19)) }
            else if c == '/' { Some((true, 20)) }
            else if c == 'q' { Some((true, 21)) }
            else if c == 'w' { Some((true, 22)) }
            else if c == 'e' { Some((true, 23)) }
            else if c == 'r' { Some((true, 24)) }
            else if c == 't' { Some((true, 25)) }
            else if c == 'y' { Some((true, 26)) }
            else if c == 'u' { Some((true, 27)) }
            else if c == 'i' { Some((true, 28)) }
            else if c == 'o' { Some((true, 29)) }
            else if c == 'p' { Some((true, 30)) }
            else if c == '[' { Some((true, 31)) }
            else if c == ']' { Some((true, 32)) }
            else if c == 'd' { Some((false, 12)) }
            else if c == 'f' { Some((false, 13)) }
            else if c == 'g' { Some((false, 14)) }
            else if c == 'j' { Some((false, 16)) }
            else if c == 'k' { Some((false, 17)) }
            else if c == ';' { Some((false, 19)) }
            else if c == '\'' { Some((false, 20)) }
            else if c == '2' { Some((false, 21)) }
            else if c == '4' { Some((false, 23)) }
            else if c == '5' { Some((false, 24)) }
            else if c == '7' { Some((false, 26)) }
            else if c == '8' { Some((false, 27)) }
            else if c == '9' { Some((false, 28)) }
            else if c == '-' { Some((false, 30)) }
            else if c == '=' { Some((false, 31)) }
            else { None }
        },
        _ => None,
    }
}

/// Row of the slot bound to `key` (white when unbound).
pub open spec fn bound_white(key: Key) -> bool {
    match key_slot(key) {
        Some((white, _)) => white,
        None => true,
    }
}

/// White key number of the slot bound to `key` (0 when unbound).
pub open spec fn bound_index(key: Key) -> int {
    match key_slot(key) {
        Some((_, i)) => i,
        None => 0,
    }
}

impl SoundClass {
    /// The short name of the class (`"a"`, `"as"`, ...).
    pub fn name(self) -> (r: String)
        ensures
            r@ == sound_name(self),
    {
        let s: &str = match self {
            SoundClass::A => "a",
            SoundClass::As => "as",
            SoundClass::B => "b",
            SoundClass::C => "c",
            SoundClass::Cs => "cs",
            SoundClass::D => "d",
            SoundClass::Ds => "ds",
            SoundClass::E => "e",
            SoundClass::F => "f",
            SoundClass::Fs => "fs",
            SoundClass::G => "g",
            SoundClass::Gs => "gs",
        };
        proof {
            reveal_strlit("a");
            reveal_strlit("as");
            reveal_strlit("b");
            reveal_strlit("c");
            reveal_strlit("cs");
            reveal_strlit("d");
            reveal_strlit("ds");
            reveal_strlit("e");
            reveal_strlit("f");
            reveal_strlit("fs");
            reveal_strlit("g");
            reveal_strlit("gs");
        }
        s.to_owned()
    }

    /// Whether the class is a natural one, drawn as a white key.
    pub fn is_white(self) -> (r: bool)
        ensures
            r == is_natural(self),
    {
        match self {
            SoundClass::A | SoundClass::B | SoundClass::C | SoundClass::D | SoundClass::E
            | SoundClass::F | SoundClass::G => true,
            _ => false,
        }
    }
}

/// A resolved key press. `position` is the screen column to highlight;
/// a column outside `MIN_COLUMN..MAX_COLUMN` (exclusive) marks a key with no
/// note.
#[derive(Clone, Debug, PartialEq)]
pub struct Note {
    pub sound: String,
    pub sequence: i16,
    pub position: i16,
    pub white: bool,
}

/// Whether `position` is a column that holds a key.
pub open spec fn playable_position(position: int) -> bool {
    MIN_COLUMN < position < MAX_COLUMN
}

/// `n` is what the key `key` gives under the octave offset `offset`.
pub open spec fn resolves_to(key: Key, offset: int, n: Note) -> bool {
    match key_slot(key) {
        Some((white, i)) => {
            &&& n.sound@ == sound_name(slot_class(white, i))
            &&& n.sequence == offset + slot_octave(i) - REFERENCE_OCTAVE
            &&& n.position == slot_position(white, i)
            &&& n.white == white
        },
        None => {
            &&& n.sound@ == Seq::<char>::empty()
            &&& n.sequence == offset
            &&& n.position == MIN_COLUMN
            &&& !n.white
        },
    }
}

/// Offsets for which every octave that a key can reach fits in an `i16`.
pub open spec fn offset_in_range(offset: int) -> bool {
    i16::MIN + 1 <= offset <= i16::MAX - 2
}

/// The slot bound to `key`, as computed.
fn slot_of(key: Key) -> (r: Option<(bool, u8)>)
    ensures
        match r {
            Some((white, i)) => key_slot(key) == Some((white, i as int)) && 11 <= i <= 32,
            None => key_slot(key) is None,
        },
{
    match key {
        Key::Char(c) => match c {
            'z' => Some((true, 11)),
            'x' => Some((true, 12)),
            'c' => Some((true, 13)),
            'v' => Some((true, 14)),
            'b' => Some((true, 15)),
            'n' => Some((true, 16)),
            'm' => Some((true, 17)),
            ',' => Some((true, 18)),
            '.' => Some((true, 19)),
            '/' => Some((true, 20)),
            'q' => Some((true, 21)),
            'w' => Some((true, 22)),
            'e' => Some((true, 23)),
            'r' => Some((true, 24)),
            't' => Some((true, 25)),
            'y' => Some((true, 26)),
            'u' => Some((true, 27)),
            'i' => Some((true, 28)),
            'o' => Some((true, 29)),
            'p' => Some((true, 30)),
            '[' => Some((true, 31)),
            ']' => Some((true, 32)),
            'd' => Some((false, 12)),
            'f' => Some((false, 13)),
            'g' => Some((false, 14)),
            'j' => Some((false, 16)),
            'k' => Some((false, 17)),
            ';' => Some((false, 19)),
            '\'' => Some((false, 20)),
            '2' => Some((false, 21)),
            '4' => Some((false, 23)),
            '5' => Some((false, 24)),
            '7' => Some((false, 26)),
            '8' => Some((false, 27)),
            '9' => Some((false, 28)),
            '-' => Some((false, 30)),
            '=' => Some((false, 31)),
            _ => None,
        },
        _ => None,
    }
}

/// Class of white key `i`, or of the black key right of it.
fn class_of_slot(white: bool, i: u8) -> (r: SoundClass)
    ensures
        r == slot_class(white, i as int),
{
    let k: u8 = i % 7;
    if white {
        match k {
            0 => SoundClass::A,
            1 => SoundClass::B,
            2 => SoundClass::C,
            3 => SoundClass::D,
            4 => SoundClass::E,
            5 => SoundClass::F,
            _ => SoundClass::G,
        }
    } else {
        match k {
            0 => SoundClass::As,
            2 => SoundClass::Cs,
            3 => SoundClass::Ds,
            5 => SoundClass::Fs,
            _ => SoundClass::Gs,
        }
    }
}

/// Resolves `key` under the octave offset `raw_sequence`. A key bound to no
/// slot gives a note at column `MIN_COLUMN`, which is not playable.
pub fn match_note(key: Key, raw_sequence: i16) -> (r: Note)
    requires
        offset_in_range(raw_sequence as int),
    ensures
        resolves_to(key, raw_sequence as int, r),
{
    match slot_of(key) {
        Some((white, i)) => {
            let class = class_of_slot(white, i);
            let octave: i16 = (i as i16 + 5) / 7;
            assert(2 <= octave <= 5);
            let position: i16 = if white {
                3 * i as i16 + 1
            } else {
                3 * i as i16 + 3
            };
            Note {
                sound: class.name(),
                sequence: raw_sequence + (octave - REFERENCE_OCTAVE),
                position,
                white,
            }
        },
        None => Note { sound: String::new(), sequence: raw_sequence, position: MIN_COLUMN, white: false },
    }
}

impl Note {
    /// Whether the note stands for a key of the drawn keyboard.
    pub fn is_playable(&self) -> (r: bool)
        ensures
            r == playable_position(self.position as int),
    {
        MIN_COLUMN < self.position && self.position < MAX_COLUMN
    }
}

/// Every bound slot lies on the drawn keyboard.
pub proof fn lemma_slot_bounds(key: Key)
    requires
        key_slot(key) is Some,
    ensures
        11 <= bound_index(key) <= 32,
        bound_white(key) || has_black_after(bound_index(key)),
{
}

/// Under every offset, a bound key keeps its column, its row (white or
/// black) and its sound class; only the octave moves, and by exactly the
/// difference of the offsets.
pub proof fn lemma_layout_independent_of_offset(key: Key, o1: int, o2: int, n1: Note, n2: Note)
    requires
        key_slot(key) is Some,
        resolves_to(key, o1, n1),
        resolves_to(key, o2, n2),
    ensures
        n1.position == n2.position,
        n1.white == n2.white,
        n1.sound@ == n2.sound@,
        n2.sequence - n1.sequence == o2 - o1,
{
}

/// A resolved note is playable exactly when its key is bound: unbound keys
/// give a column outside the keyboard under every offset.
pub proof fn lemma_playable_iff_bound(key: Key, offset: int, n: Note)
    requires
        resolves_to(key, offset, n),
    ensures
        playable_position(n.position as int) <==> key_slot(key) is Some,
{
    if key_slot(key) is Some {
        lemma_slot_bounds(key);
    }
}

/// Resolving the same key under the same offset twice gives equal notes.
pub proof fn lemma_resolve_deterministic(key: Key, offset: int, n1: Note, n2: Note)
    requires
        resolves_to(key, offset, n1),
        resolves_to(key, offset, n2),
    ensures
        n1.sound@ == n2.sound@,
        n1.sequence == n2.sequence,
        n1.position == n2.position,
        n1.white == n2.white,
{
}

/// The row of a bound key follows its sound class: naturals are white keys,
/// sharps black ones.
pub proof fn lemma_white_iff_natural(key: Key, offset: int, n: Note)
    requires
        key_slot(key) is Some,
        resolves_to(key, offset, n),
    ensures
        n.white == is_natural(slot_class(bound_white(key), bound_index(key))),
{
    lemma_slot_bounds(key);
}

} // verus!
