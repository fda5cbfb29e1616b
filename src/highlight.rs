//! What is painted on the terminal: the keyboard diagram, and the mark that
//! flashes on a played key and its removal.
use vstd::prelude::*;
use crate::notes::{
    bound_index, bound_white, has_black_after, key_slot, lemma_slot_bounds, playable_position,
    slot_position, Key, WHITE_KEYS,
};

verus! {

/// The terminal's named palette.
#[derive(Clone, Copy, Debug, PartialEq, Eq, Structural)]
pub enum Color {
    Black,
    Red,
    Green,
    Yellow,
    Blue,
    Magenta,
    Cyan,
    White,
}

/// The glyphs of the diagram.
#[derive(Clone, Copy, Debug, PartialEq, Eq, Structural)]
pub enum Glyph {
    /// `|`, the border between white keys.
    Border,
    /// `██`, the body of a white key.
    WhiteKey,
    /// `█`, a black key.
    BlackKey,
    /// `▒▒`, the mark on a white key.
    WhiteMark,
    /// `▒`, the mark on a black key.
    BlackMark,
}

/// One glyph painted at a cell, in a foreground and a background colour.
#[derive(Clone, Copy, Debug, PartialEq, Eq, Structural)]
pub struct Paint {
    pub column: usize,
    pub row: usize,
    pub fg: Color,
    pub bg: Color,
    pub glyph: Glyph,
}

/// Rows taken by white keys, and the row where their mark is shown.
pub const WHITE_ROWS: usize = 16;
pub const WHITE_MARK_ROW: usize = 15;
/// Rows taken by black keys, and the row where their mark is shown.
pub const BLACK_ROWS: usize = 9;
pub const BLACK_MARK_ROW: usize = 8;
/// Column of the border that closes the last white key.
pub const RIGHT_BORDER: usize = 156;

/// The name by which a colour is configured.
pub open spec fn color_name(c: Color) -> Seq<char> {
    match c {
        Color::Black => seq!['b', 'l', 'a', 'c', 'k'],
        Color::Red => seq!['r', 'e', 'd'],
        Color::Green => seq!['g', 'r', 'e', 'e', 'n'],
        Color::Yellow => seq!['y', 'e', 'l', 'l', 'o', 'w'],
        Color::Blue => seq!['b', 'l', 'u', 'e'],
        Color::Magenta => seq!['m', 'a', 'g', 'e', 'n', 't', 'a'],
        Color::Cyan => seq!['c', 'y', 'a', 'n'],
        Color::White => seq!['w', 'h', 'i', 't', 'e'],
    }
}

/// The text of a glyph.
pub open spec fn glyph_text(g: Glyph) -> Seq<char> {
    match g {
        Glyph::Border => seq!['|'],
        Glyph::WhiteKey => seq!['\u{2588}', '\u{2588}'],
        Glyph::BlackKey => seq!['\u{2588}'],
        Glyph::WhiteMark => seq!['\u{2592}', '\u{2592}'],
        Glyph::BlackMark => seq!['\u{2592}'],
    }
}

/// The paint that marks the key at `position` in colour `color`.
pub open spec fn mark_of(position: int, white: bool, color: Color) -> Paint {
    if white {
        Paint { column: position as usize, row: WHITE_MARK_ROW, fg: color, bg: Color::White, glyph: Glyph::WhiteMark }
    } else {
        Paint { column: position as usize, row: BLACK_MARK_ROW, fg: color, bg: Color::White, glyph: Glyph::BlackMark }
    }
}

/// The paint that takes the mark off the key at `position`: the mark's
/// glyph in the key's own colour.
pub open spec fn unmark_of(position: int, white: bool) -> Paint {
    if white {
        Paint { column: position as usize, row: WHITE_MARK_ROW, fg: Color::White, bg: Color::White, glyph: Glyph::WhiteMark }
    } else {
        Paint { column: position as usize, row: BLACK_MARK_ROW, fg: Color::Black, bg: Color::White, glyph: Glyph::BlackMark }
    }
}

/// Whether `a` and `b` hold the same characters.
fn same_text(a: &str, b: &str) -> (r: bool)
    ensures
        r == (a@ == b@),
{
    let n = a.unicode_len();
    if n != b.unicode_len() {
        return false;
    }
    let mut i: usize = 0;
    while i < n
        invariant
            n == a@.len(),
            n == b@.len(),
            i <= n,
            forall|j: int| 0 <= j < i ==> a@[j] == b@[j],
        decreases n - i,
    {
        if a.get_char(i) != b.get_char(i) {
            return false;
        }
        i = i + 1;
    }
    assert(a@ =~= b@);
    true
}

impl Color {
    /// The palette entry named `name`, if any.
    pub fn from_name(name: &str) -> (r: Option<Color>)
        ensures
            match r {
                Some(c) => name@ == color_name(c),
                None => forall|c: Color| name@ != color_name(c),
            },
    {
        proof {
            reveal_strlit("black");
            reveal_strlit("red");
            reveal_strlit("green");
            reveal_strlit("yellow");
            reveal_strlit("blue");
            reveal_strlit("magenta");
            reveal_strlit("cyan");
            reveal_strlit("white");
        }
        if same_text(name, "black") {
            Some(Color::Black)
        } else if same_text(name, "red") {
            Some(Color::Red)
        } else if same_text(name, "green") {
            Some(Color::Green)
        } else if same_text(name, "yellow") {
            Some(Color::Yellow)
        } else if same_text(name, "blue") {
            Some(Color::Blue)
        } else if same_text(name, "magenta") {
            Some(Color::Magenta)
        } else if same_text(name, "cyan") {
            Some(Color::Cyan)
        } else if same_text(name, "white") {
            Some(Color::White)
        } else {
            proof {
                assert forall|c: Color| name@ != color_name(c) by {
                    match c {
                        Color::Black => assert(color_name(c) == "black"@),
                        Color::Red => assert(color_name(c) == "red"@),
                        Color::Green => assert(color_name(c) == "green"@),
                        Color::Yellow => assert(color_name(c) == "yellow"@),
                        Color::Blue => assert(color_name(c) == "blue"@),
                        Color::Magenta => assert(color_name(c) == "magenta"@),
                        Color::Cyan => assert(color_name(c) == "cyan"@),
                        Color::White => assert(color_name(c) == "white"@),
                    }
                }
            }
            None
        }
    }
}

impl Glyph {
    /// The text to print for the glyph.
    pub fn text(self) -> (r: &'static str)
        ensures
            r@ == glyph_text(self),
    {
        proof {
            reveal_strlit("|");
            reveal_strlit("\u{2588}\u{2588}");
            reveal_strlit("\u{2588}");
            reveal_strlit("\u{2592}\u{2592}");
            reveal_strlit("\u{2592}");
        }
        match self {
            Glyph::Border => "|",
            Glyph::WhiteKey => "\u{2588}\u{2588}",
            Glyph::BlackKey => "\u{2588}",
            Glyph::WhiteMark => "\u{2592}\u{2592}",
            Glyph::BlackMark => "\u{2592}",
        }
    }
}

/// The paint that marks the key at `position`, white or black, in `color`.
pub fn mark(position: i16, white: bool, color: Color) -> (r: Paint)
    requires
        playable_position(position as int),
    ensures
        r == mark_of(position as int, white, color),
{
    if white {
        Paint { column: position as usize, row: WHITE_MARK_ROW, fg: color, bg: Color::White, glyph: Glyph::WhiteMark }
    } else {
        Paint { column: position as usize, row: BLACK_MARK_ROW, fg: color, bg: Color::White, glyph: Glyph::BlackMark }
    }
}

/// The paint that restores the key at `position` once its mark expires.
pub fn unmark(position: i16, white: bool) -> (r: Paint)
    requires
        playable_position(position as int),
    ensures
        r == unmark_of(position as int, white),
{
    if white {
        Paint { column: position as usize, row: WHITE_MARK_ROW, fg: Color::White, bg: Color::White, glyph: Glyph::WhiteMark }
    } else {
        Paint { column: position as usize, row: BLACK_MARK_ROW, fg: Color::Black, bg: Color::White, glyph: Glyph::BlackMark }
    }
}

/// A border cell of the white keys.
pub open spec fn border_at(column: int, row: int) -> Paint {
    Paint { column: column as usize, row: row as usize, fg: Color::Black, bg: Color::White, glyph: Glyph::Border }
}

/// The body of a white key.
pub open spec fn white_key_at(column: int, row: int) -> Paint {
    Paint { column: column as usize, row: row as usize, fg: Color::White, bg: Color::Black, glyph: Glyph::WhiteKey }
}

/// A black key.
pub open spec fn black_key_at(column: int, row: int) -> Paint {
    Paint { column: column as usize, row: row as usize, fg: Color::Black, bg: Color::White, glyph: Glyph::BlackKey }
}

/// One row of the white keys: the closing border first, then for each white
/// key `x` its left border at `3 * x` and its body from `3 * x + 1`.
pub fn white_key_row(row: usize) -> (r: Vec<Paint>)
    requires
        row < WHITE_ROWS,
    ensures
        r@.len() == 1 + 2 * WHITE_KEYS,
        r@[0] == border_at(RIGHT_BORDER as int, row as int),
        forall|x: int|
            0 <= x < WHITE_KEYS ==> {
                &&& #[trigger] r@[1 + 2 * x] == border_at(3 * x, row as int)
                &&& r@[2 + 2 * x] == white_key_at(slot_position(true, x), row as int)
            },
{
    let mut r: Vec<Paint> = Vec::new();
    r.push(Paint { column: RIGHT_BORDER, row, fg: Color::Black, bg: Color::White, glyph: Glyph::Border });
    let mut x: usize = 0;
    while x < WHITE_KEYS as usize
        invariant
            x <= WHITE_KEYS,
            r@.len() == 1 + 2 * x,
            r@[0] == border_at(RIGHT_BORDER as int, row as int),
            forall|y: int|
                0 <= y < x ==> {
                    &&& #[trigger] r@[1 + 2 * y] == border_at(3 * y, row as int)
                    &&& r@[2 + 2 * y] == white_key_at(slot_position(true, y), row as int)
                },
        decreases WHITE_KEYS - x,
    {
        let k: usize = 3 * x;
        r.push(Paint { column: k, row, fg: Color::Black, bg: Color::White, glyph: Glyph::Border });
        r.push(Paint { column: k + 1, row, fg: Color::White, bg: Color::Black, glyph: Glyph::WhiteKey });
        x = x + 1;
    }
    r
}

/// The white keys below `n` that have a black key right of them, in order.
pub open spec fn black_slots(n: nat) -> Seq<int>
    decreases n,
{
    if n == 0 {
        Seq::empty()
    } else {
        let below = black_slots((n - 1) as nat);
        if has_black_after(n - 1) {
            below.push(n - 1)
        } else {
            below
        }
    }
}

/// One row of the black keys, left to right: one right of every white key
/// (but the last) that is not a `b` or an `e`, on the border column after it.
pub fn black_key_row(row: usize) -> (r: Vec<Paint>)
    requires
        row < BLACK_ROWS,
    ensures
        r@.len() == black_slots((WHITE_KEYS - 1) as nat).len(),
        forall|k: int|
            0 <= k < r@.len() ==> #[trigger] r@[k] == black_key_at(
                slot_position(false, black_slots((WHITE_KEYS - 1) as nat)[k]),
                row as int,
            ),
{
    let mut r: Vec<Paint> = Vec::new();
    let mut i: usize = 0;
    while i < WHITE_KEYS as usize - 1
        invariant
            i <= WHITE_KEYS - 1,
            r@.len() == black_slots(i as nat).len(),
            forall|k: int|
                0 <= k < r@.len() ==> #[trigger] r@[k] == black_key_at(
                    slot_position(false, black_slots(i as nat)[k]),
                    row as int,
                ),
        decreases WHITE_KEYS - 1 - i,
    {
        let m: usize = i % 7;
        assert(black_slots((i + 1) as nat) == if has_black_after(i as int) {
            black_slots(i as nat).push(i as int)
        } else {
            black_slots(i as nat)
        });
        if m != 1 && m != 4 {
            r.push(Paint { column: 3 * i + 3, row, fg: Color::Black, bg: Color::White, glyph: Glyph::BlackKey });
        }
        i = i + 1;
    }
    r
}

/// A mark on a key: painted at once, then taken off by `unmark` once
/// `duration` milliseconds have passed.
#[derive(Clone, Copy, Debug, PartialEq, Eq, Structural)]
pub struct Flash {
    pub mark: Paint,
    pub unmark: Paint,
    pub duration: u32,
}

/// The flash of the key at `position` in `color`, kept for `duration`
/// milliseconds.
pub fn flash(position: i16, white: bool, color: Color, duration: u32) -> (r: Flash)
    requires
        playable_position(position as int),
    ensures
        r.mark == mark_of(position as int, white, color),
        r.unmark == unmark_of(position as int, white),
        r.duration == duration,
{
    Flash { mark: mark(position, white, color), unmark: unmark(position, white), duration }
}

/// A white key below `n` with a black key right of it is among `black_slots(n)`.
proof fn lemma_black_slot_listed(i: int, n: nat)
    requires
        0 <= i < n,
        has_black_after(i),
    ensures
        black_slots(n).contains(i),
    decreases n,
{
    let below = black_slots((n - 1) as nat);
    if i == n - 1 {
        assert(black_slots(n)[below.len() as int] == i);
    } else {
        lemma_black_slot_listed(i, (n - 1) as nat);
        let k = choose|k: int| 0 <= k < below.len() && below[k] == i;
        if has_black_after(n - 1) {
            assert(black_slots(n)[k] == i);
        }
    }
}

/// The mark of every bound key falls on a key of the diagram: a white key's
/// on the body of a white key, a black key's on a drawn black key.
pub proof fn lemma_marks_on_drawn_keys(key: Key)
    requires
        key_slot(key) is Some,
    ensures
        bound_white(key) ==> 0 <= bound_index(key) < WHITE_KEYS,
        !bound_white(key) ==> black_slots((WHITE_KEYS - 1) as nat).contains(bound_index(key)),
{
    lemma_slot_bounds(key);
    if !bound_white(key) {
        lemma_black_slot_listed(bound_index(key), (WHITE_KEYS - 1) as nat);
    }
}

} // verus!
