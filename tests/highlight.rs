use piano::highlight::{black_key_row, flash, mark, unmark, white_key_row, Color, Glyph, Paint};
use piano::notes::{match_note, Key};

#[test]
fn colors_by_name() {
    assert_eq!(Color::from_name("red"), Some(Color::Red));
    assert_eq!(Color::from_name("magenta"), Some(Color::Magenta));
    assert_eq!(Color::from_name("black"), Some(Color::Black));
    assert_eq!(Color::from_name("Red"), None);
    assert_eq!(Color::from_name(""), None);
}

#[test]
fn white_key_mark_and_restore() {
    let note = match_note(Key::Char('q'), 2);
    let f = flash(note.position, note.white, Color::Red, 500);
    assert_eq!(f.mark, Paint { column: 64, row: 15, fg: Color::Red, bg: Color::White, glyph: Glyph::WhiteMark });
    assert_eq!(f.unmark, Paint { column: 64, row: 15, fg: Color::White, bg: Color::White, glyph: Glyph::WhiteMark });
    assert_eq!(f.duration, 500);
    assert_ne!(f.mark, f.unmark);
}

#[test]
fn black_key_mark_and_restore() {
    assert_eq!(mark(66, false, Color::Blue), Paint { column: 66, row: 8, fg: Color::Blue, bg: Color::White, glyph: Glyph::BlackMark });
    assert_eq!(unmark(66, false), Paint { column: 66, row: 8, fg: Color::Black, bg: Color::White, glyph: Glyph::BlackMark });
}

#[test]
fn glyph_texts() {
    assert_eq!(Glyph::Border.text(), "|");
    assert_eq!(Glyph::WhiteKey.text(), "\u{2588}\u{2588}");
    assert_eq!(Glyph::BlackKey.text(), "\u{2588}");
    assert_eq!(Glyph::WhiteMark.text(), "\u{2592}\u{2592}");
    assert_eq!(Glyph::BlackMark.text(), "\u{2592}");
}

#[test]
fn white_row_layout() {
    let r = white_key_row(3);
    assert_eq!(r.len(), 105);
    assert_eq!(r[0], Paint { column: 156, row: 3, fg: Color::Black, bg: Color::White, glyph: Glyph::Border });
    assert_eq!(r[1], Paint { column: 0, row: 3, fg: Color::Black, bg: Color::White, glyph: Glyph::Border });
    assert_eq!(r[2], Paint { column: 1, row: 3, fg: Color::White, bg: Color::Black, glyph: Glyph::WhiteKey });
    assert_eq!(r[104], Paint { column: 154, row: 3, fg: Color::White, bg: Color::Black, glyph: Glyph::WhiteKey });
}

#[test]
fn black_row_layout() {
    let r = black_key_row(0);
    let cols: Vec<usize> = r.iter().map(|p| p.column).collect();
    assert_eq!(cols.len(), 36);
    assert_eq!(&cols[0..7], &[3, 9, 12, 18, 21, 24, 30]);
    assert_eq!(cols[35], 150);
    assert!(r.iter().all(|p| p.glyph == Glyph::BlackKey && p.row == 0));
    for c in ['d', 'f', 'g', 'j', 'k', ';', '\'', '2', '4', '5', '7', '8', '9', '-', '='].iter() {
        let n = match_note(Key::Char(*c), 2);
        assert!(cols.contains(&(n.position as usize)));
    }
}
