use piano::notes::{match_note, Key, SoundClass};
use piano::samples::{catalog, missing_resources, sample_resource, Playback, SampleStore, CATALOG_LEN};

#[test]
fn catalog_lists_every_class_and_octave() {
    let c = catalog();
    assert_eq!(c.len(), CATALOG_LEN);
    assert_eq!(c[0], (SoundClass::A, -1));
    assert_eq!(c[8], (SoundClass::A, 7));
    assert_eq!(c[9], (SoundClass::As, -1));
    assert_eq!(c[107], (SoundClass::Gs, 7));
}

#[test]
fn resource_names() {
    assert_eq!(sample_resource(SoundClass::A, -1), "a-1.ogg");
    assert_eq!(sample_resource(SoundClass::Gs, 7), "gs7.ogg");
    assert_eq!(sample_resource(SoundClass::C, 4), "c4.ogg");
}

#[test]
fn missing_resources_are_all_reported() {
    let all = vec![true; CATALOG_LEN];
    assert!(missing_resources(&all).is_empty());

    let mut some = vec![true; CATALOG_LEN];
    some[0] = false;
    some[13] = false;
    some[107] = false;
    assert_eq!(missing_resources(&some), vec!["a-1.ogg".to_string(), "as3.ogg".to_string(), "gs7.ogg".to_string()]);

    let none = vec![false; CATALOG_LEN];
    let names = missing_resources(&none);
    assert_eq!(names.len(), CATALOG_LEN);
    let c = catalog();
    for k in 0..CATALOG_LEN {
        assert_eq!(names[k], sample_resource(c[k].0, c[k].1));
    }
}

#[test]
fn store_keeps_latest_sample() {
    let mut store = SampleStore::new();
    assert_eq!(store.get(&"a".to_string(), 2), None);
    store.insert(SoundClass::A, 2, vec![1, 2, 3]);
    store.insert(SoundClass::As, 2, vec![4]);
    assert_eq!(store.get(&"a".to_string(), 2), Some(vec![1, 2, 3]));
    assert_eq!(store.get(&"a".to_string(), 3), None);
    store.insert(SoundClass::A, 2, vec![9]);
    assert_eq!(store.get(&"a".to_string(), 2), Some(vec![9]));
    assert_eq!(store.get(&"as".to_string(), 2), Some(vec![4]));
}

#[test]
fn playback_follows_duration() {
    let mut store = SampleStore::new();
    store.insert(SoundClass::A, 2, vec![7, 7]);
    let note = match_note(Key::Char('q'), 2);
    match store.playback(&note, 0) {
        Playback::ToEnd(v) => assert_eq!(v, vec![7, 7]),
        _ => panic!("duration 0 plays to the end"),
    }
    match store.playback(&note, 300) {
        Playback::Stopped(v, t) => {
            assert_eq!(v, vec![7, 7]);
            assert_eq!(t, 300);
        }
        _ => panic!("a duration stops the sample"),
    }
    let other = match_note(Key::Char('w'), 2);
    assert!(matches!(store.playback(&other, 0), Playback::Silent));
}
