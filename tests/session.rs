use piano::highlight::Color;
use piano::notes::{match_note, Key};
use piano::session::{Action, ConfigError, Session};

#[test]
fn new_checks_each_parameter() {
    assert!(matches!(Session::new(6, 0, 500, "red"), Err(ConfigError::OctaveOutOfRange)));
    assert!(matches!(Session::new(-1, 0, 500, "red"), Err(ConfigError::OctaveOutOfRange)));
    assert!(matches!(Session::new(2, 8050, 500, "red"), Err(ConfigError::NoteDurationOutOfRange)));
    assert!(matches!(Session::new(2, 0, 500, "purple"), Err(ConfigError::UnknownColor)));
    let s = Session::new(2, 8000, 500, "cyan").ok().unwrap();
    assert_eq!(s.octave(), 2);
    assert_eq!(s.note_duration(), 8000);
    assert_eq!(s.mark_duration(), 500);
    assert_eq!(s.color(), Color::Cyan);
}

#[test]
fn octave_stays_within_bounds() {
    let mut s = Session::new(4, 0, 500, "red").ok().unwrap();
    s.octave_up();
    assert_eq!(s.octave(), 5);
    s.octave_up();
    assert_eq!(s.octave(), 5);
    for _ in 0..10 {
        s.octave_down();
    }
    assert_eq!(s.octave(), 0);
}

#[test]
fn duration_moves_in_steps_within_bounds() {
    let mut s = Session::new(2, 7950, 500, "red").ok().unwrap();
    s.duration_up();
    assert_eq!(s.note_duration(), 8000);
    s.duration_up();
    assert_eq!(s.note_duration(), 8000);
    s.duration_down();
    assert_eq!(s.note_duration(), 7950);

    let mut t = Session::new(2, 30, 500, "red").ok().unwrap();
    t.duration_down();
    assert_eq!(t.note_duration(), 30);
    t.duration_up();
    assert_eq!(t.note_duration(), 80);
    t.duration_down();
    t.duration_down();
    assert_eq!(t.note_duration(), 30);

    let mut u = Session::new(2, 7990, 500, "red").ok().unwrap();
    u.duration_up();
    assert_eq!(u.note_duration(), 7990);
}

#[test]
fn keys_drive_the_session() {
    let mut s = Session::new(2, 0, 500, "red").ok().unwrap();
    match s.on_key(Key::Char('q')) {
        Action::Play(n) => assert_eq!(n, match_note(Key::Char('q'), 2)),
        _ => panic!("a bound key plays"),
    }
    assert!(matches!(s.on_key(Key::Right), Action::Idle));
    assert_eq!(s.octave(), 3);
    match s.on_key(Key::Char('q')) {
        Action::Play(n) => assert_eq!(n.sequence, 3),
        _ => panic!("a bound key plays"),
    }
    assert!(matches!(s.on_key(Key::Left), Action::Idle));
    assert!(matches!(s.on_key(Key::Left), Action::Idle));
    assert_eq!(s.octave(), 1);
    assert!(matches!(s.on_key(Key::Up), Action::Idle));
    assert_eq!(s.note_duration(), 50);
    assert!(matches!(s.on_key(Key::Down), Action::Idle));
    assert!(matches!(s.on_key(Key::Down), Action::Idle));
    assert_eq!(s.note_duration(), 0);
    assert!(matches!(s.on_key(Key::Char('a')), Action::Idle));
    assert!(matches!(s.on_key(Key::Other), Action::Idle));
    assert!(matches!(s.on_key(Key::Esc), Action::Quit));
    assert_eq!(s.octave(), 1);
}
