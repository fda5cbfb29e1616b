use piano::notes::{match_note, Key, Note, SoundClass};

#[test]
fn check_note_attributes() {
    // check attributes for random note
    let note = match_note(Key::Char('q'), 2);
    let expect_note = Note {
        sound: "a".to_string(),
        sequence: 2,
        position: 64,
        white: true,
    };

    assert_eq!(note, expect_note);
}

#[test]
fn black_key_resolves_to_sharp() {
    let note = match_note(Key::Char('2'), 2);
    assert_eq!(note, Note { sound: "as".to_string(), sequence: 2, position: 66, white: false });
}

#[test]
fn lowest_key_is_one_octave_below_offset() {
    let note = match_note(Key::Char('z'), 3);
    assert_eq!(note, Note { sound: "e".to_string(), sequence: 2, position: 34, white: true });
}

#[test]
fn highest_key_is_two_octaves_above_offset() {
    let note = match_note(Key::Char(']'), 0);
    assert_eq!(note, Note { sound: "e".to_string(), sequence: 2, position: 97, white: true });
}

#[test]
fn offset_moves_only_the_octave() {
    let keys = ['z', 'x', 'd', 'q', '2', '=', ']', ';', '\''];
    for c in keys.iter() {
        let base = match_note(Key::Char(*c), 0);
        assert!(base.is_playable());
        for offset in 0..6_i16 {
            let n = match_note(Key::Char(*c), offset);
            assert_eq!(n.position, base.position);
            assert_eq!(n.white, base.white);
            assert_eq!(n.sound, base.sound);
            assert_eq!(n.sequence - base.sequence, offset);
        }
    }
}

#[test]
fn unbound_keys_are_not_playable() {
    let keys = [Key::Char('a'), Key::Char('s'), Key::Char('h'), Key::Char('3'), Key::Char(' '),
        Key::Left, Key::Right, Key::Up, Key::Down, Key::Esc, Key::Other];
    for k in keys.iter() {
        for offset in 0..6_i16 {
            let n = match_note(*k, offset);
            assert!(!n.is_playable());
            assert!(n.position <= 0 || n.position >= 155);
        }
    }
}

#[test]
fn resolving_twice_gives_equal_notes() {
    for offset in 0..6_i16 {
        assert_eq!(match_note(Key::Char('k'), offset), match_note(Key::Char('k'), offset));
        assert_eq!(match_note(Key::Char('y'), offset), match_note(Key::Char('y'), offset));
    }
}

#[test]
fn white_follows_sound_class() {
    assert!(SoundClass::C.is_white());
    assert!(!SoundClass::Fs.is_white());
    assert_eq!(SoundClass::Gs.name(), "gs");
    assert_eq!(SoundClass::B.name(), "b");
}
