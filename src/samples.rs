//! The sound samples: which resources a full set holds, the store that keeps
//! the loaded ones, and what playing a note asks of the audio output.
use vstd::prelude::*;
use crate::notes::{sound_name, Note, SoundClass};

verus! {

/// Lowest octave of the samples.
pub const LOWEST_SAMPLE_OCTAVE: i16 = -1;
/// Octaves per sound class, and entries in the full set.
pub const SAMPLE_OCTAVES: usize = 9;
pub const CATALOG_LEN: usize = 108;

/// The sound classes in the order the set lists them.
pub open spec fn class_at(i: int) -> SoundClass {
    if i == 0 {
        SoundClass::A
    } else if i == 1 {
        SoundClass::As
    } else if i == 2 {
        SoundClass::B
    } else if i == 3 {
        SoundClass::C
    } else if i == 4 {
        SoundClass::Cs
    } else if i == 5 {
        SoundClass::D
    } else if i == 6 {
        SoundClass::Ds
    } else if i == 7 {
        SoundClass::E
    } else if i == 8 {
        SoundClass::F
    } else if i == 9 {
        SoundClass::Fs
    } else if i == 10 {
        SoundClass::G
    } else {
        SoundClass::Gs
    }
}

/// Entry `k` of the full set: each class in turn, each with every octave
/// from the lowest up.
pub open spec fn catalog_at(k: int) -> (SoundClass, int) {
    (class_at(k / SAMPLE_OCTAVES as int), k % SAMPLE_OCTAVES as int + LOWEST_SAMPLE_OCTAVE)
}

/// How an octave is written in a resource name.
pub open spec fn octave_text(o: int) -> Seq<char> {
    if o < 0 {
        seq!['-', '1']
    } else {
        seq![(o + 48) as char]
    }
}

/// The resource that holds the sample of a class in an octave.
pub open spec fn resource_name(s: SoundClass, o: int) -> Seq<char> {
    sound_name(s) + octave_text(o) + seq!['.', 'o', 'g', 'g']
}

/// Names of the entries below `n` whose resource is not present.
pub open spec fn missing_below(present: Seq<bool>, n: nat) -> Seq<Seq<char>>
    decreases n,
{
    if n == 0 {
        Seq::empty()
    } else {
        let below = missing_below(present, (n - 1) as nat);
        if present[n - 1] {
            below
        } else {
            let (s, o) = catalog_at(n - 1);
            below.push(resource_name(s, o))
        }
    }
}

fn class_by_index(i: usize) -> (r: SoundClass)
    requires
        i < 12,
    ensures
        r == class_at(i as int),
{
    match i {
        0 => SoundClass::A,
        1 => SoundClass::As,
        2 => SoundClass::B,
        3 => SoundClass::C,
        4 => SoundClass::Cs,
        5 => SoundClass::D,
        6 => SoundClass::Ds,
        7 => SoundClass::E,
        8 => SoundClass::F,
        9 => SoundClass::Fs,
        10 => SoundClass::G,
        _ => SoundClass::Gs,
    }
}

/// The full set of samples, as (class, octave) pairs.
pub fn catalog() -> (r: Vec<(SoundClass, i16)>)
    ensures
        r@.len() == CATALOG_LEN,
        forall|k: int|
            0 <= k < CATALOG_LEN ==> (#[trigger] r@[k]).0 == catalog_at(k).0 && r@[k].1
                == catalog_at(k).1,
{
    let mut r: Vec<(SoundClass, i16)> = Vec::new();
    let mut k: usize = 0;
    while k < CATALOG_LEN
        invariant
            k <= CATALOG_LEN,
            r@.len() == k,
            forall|j: int|
                0 <= j < k ==> (#[trigger] r@[j]).0 == catalog_at(j).0 && r@[j].1 == catalog_at(
                    j,
                ).1,
        decreases CATALOG_LEN - k,
    {
        let class = class_by_index(k / SAMPLE_OCTAVES);
        let octave: i16 = (k % SAMPLE_OCTAVES) as i16 + LOWEST_SAMPLE_OCTAVE;
        r.push((class, octave));
        k = k + 1;
    }
    r
}

/// The name of the resource that holds the sample of `sound` in `octave`.
pub fn sample_resource(sound: SoundClass, octave: i16) -> (r: String)
    requires
        LOWEST_SAMPLE_OCTAVE <= octave <= 9,
    ensures
        r@ == resource_name(sound, octave as int),
{
    let mut r = sound.name();
    let digits: &str = match octave {
        -1 => "-1",
        0 => "0",
        1 => "1",
        2 => "2",
        3 => "3",
        4 => "4",
        5 => "5",
        6 => "6",
        7 => "7",
        8 => "8",
        _ => "9",
    };
    proof {
        reveal_strlit("-1");
        reveal_strlit("0");
        reveal_strlit("1");
        reveal_strlit("2");
        reveal_strlit("3");
        reveal_strlit("4");
        reveal_strlit("5");
        reveal_strlit("6");
        reveal_strlit("7");
        reveal_strlit("8");
        reveal_strlit("9");
        reveal_strlit(".ogg");
    }
    assert(digits@ == octave_text(octave as int));
    r.append(digits);
    r.append(".ogg");
    assert(r@ =~= resource_name(sound, octave as int));
    r
}

/// The names of the resources of the full set that are not present, in the
/// set's order; `present[k]` tells whether entry `k` of `catalog` was found.
pub fn missing_resources(present: &Vec<bool>) -> (r: Vec<String>)
    requires
        present@.len() == CATALOG_LEN,
    ensures
        r@.len() == missing_below(present@, CATALOG_LEN as nat).len(),
        forall|k: int|
            0 <= k < r@.len() ==> #[trigger] r@[k]@ == missing_below(
                present@,
                CATALOG_LEN as nat,
            )[k],
{
    let mut r: Vec<String> = Vec::new();
    let mut k: usize = 0;
    while k < CATALOG_LEN
        invariant
            k <= CATALOG_LEN,
            present@.len() == CATALOG_LEN,
            r@.len() == missing_below(present@, k as nat).len(),
            forall|j: int|
                0 <= j < r@.len() ==> #[trigger] r@[j]@ == missing_below(present@, k as nat)[j],
        decreases CATALOG_LEN - k,
    {
        if !present[k] {
            let class = class_by_index(k / SAMPLE_OCTAVES);
            let octave: i16 = (k % SAMPLE_OCTAVES) as i16 + LOWEST_SAMPLE_OCTAVE;
            let name = sample_resource(class, octave);
            r.push(name);
        }
        k = k + 1;
    }
    r
}

/// Every entry of the full set is either present or among the missing.
pub proof fn lemma_every_resource_reported(present: Seq<bool>, k: int)
    requires
        present.len() == CATALOG_LEN,
        0 <= k < CATALOG_LEN,
    ensures
        present[k] || missing_below(present, CATALOG_LEN as nat).contains(
            resource_name(catalog_at(k).0, catalog_at(k).1),
        ),
{
    if !present[k] {
        lemma_missing_grows(present, CATALOG_LEN as nat, k);
    }
}

/// A name reported below `k + 1` is still reported below any `n > k`.
proof fn lemma_missing_grows(present: Seq<bool>, n: nat, k: int)
    requires
        0 <= k < n <= present.len(),
        !present[k],
    ensures
        missing_below(present, n).contains(resource_name(catalog_at(k).0, catalog_at(k).1)),
    decreases n,
{
    let name = resource_name(catalog_at(k).0, catalog_at(k).1);
    let below = missing_below(present, (n - 1) as nat);
    if n == k + 1 {
        assert(missing_below(present, n)[below.len() as int] == name);
    } else {
        lemma_missing_grows(present, (n - 1) as nat, k);
        let i = choose|i: int| 0 <= i < below.len() && below[i] == name;
        assert(missing_below(present, n)[i] == name);
    }
}

/// One loaded sample.
struct Sample {
    sound: String,
    sequence: i16,
    data: Vec<u8>,
}

/// The loaded samples, kept for the whole session. A later insert for the
/// same class and octave replaces an earlier one.
pub struct SampleStore {
    samples: Vec<Sample>,
}

/// The data stored last for `(sound, sequence)` among `samples`.
spec fn find(samples: Seq<Sample>, sound: Seq<char>, sequence: int) -> Option<Seq<u8>>
    decreases samples.len(),
{
    if samples.len() == 0 {
        None
    } else {
        let last = samples.last();
        if last.sound@ == sound && last.sequence == sequence {
            Some(last.data@)
        } else {
            find(samples.drop_last(), sound, sequence)
        }
    }
}

/// What playing a note asks of the audio output.
#[derive(Clone, Debug)]
pub enum Playback {
    /// No sample: nothing to play.
    Silent,
    /// Play this copy of the sample to its end.
    ToEnd(Vec<u8>),
    /// Play this copy of the sample and stop it after the milliseconds given.
    Stopped(Vec<u8>, u32),
}

impl SampleStore {
    /// The sample held for `sound` in octave `sequence`, if any.
    pub closed spec fn lookup(&self, sound: Seq<char>, sequence: int) -> Option<Seq<u8>> {
        find(self.samples@, sound, sequence)
    }

    /// An empty store.
    pub fn new() -> (r: SampleStore)
        ensures
            forall|sound: Seq<char>, sequence: int| r.lookup(sound, sequence) is None,
    {
        SampleStore { samples: Vec::new() }
    }

    /// Keeps `data` as the sample of `sound` in octave `sequence`.
    pub fn insert(&mut self, sound: SoundClass, sequence: i16, data: Vec<u8>)
        ensures
            forall|n: Seq<char>, q: int|
                #[trigger] final(self).lookup(n, q) == if n == sound_name(sound) && q == sequence {
                    Some(data@)
                } else {
                    old(self).lookup(n, q)
                },
    {
        let ghost before = self.samples@;
        self.samples.push(Sample { sound: sound.name(), sequence, data });
        assert(self.samples@.drop_last() =~= before);
    }

    /// A fresh copy of the sample of `sound` in octave `sequence`, if held.
    pub fn get(&self, sound: &String, sequence: i16) -> (r: Option<Vec<u8>>)
        ensures
            match self.lookup(sound@, sequence as int) {
                Some(d) => r matches Some(v) && v@ == d,
                None => r is None,
            },
    {
        let mut i: usize = self.samples.len();
        assert(self.samples@.take(i as int) =~= self.samples@);
        while i > 0
            invariant
                i <= self.samples@.len(),
                find(self.samples@, sound@, sequence as int) == find(
                    self.samples@.take(i as int),
                    sound@,
                    sequence as int,
                ),
            decreases i,
        {
            let e = &self.samples[i - 1];
            assert(self.samples@.take(i as int).drop_last() =~= self.samples@.take(i - 1));
            assert(self.samples@.take(i as int).last() == *e);
            if e.sequence == sequence && e.sound == *sound {
                let copy = e.data.clone();
                assert(copy@ =~= e.data@);
                return Some(copy);
            }
            i = i - 1;
        }
        assert(self.samples@.take(0) =~= Seq::<Sample>::empty());
        None
    }

    /// What playing `note` for `duration` milliseconds asks for: nothing
    /// without a sample; else a fresh copy of it, played to its end when
    /// `duration` is 0 and stopped after `duration` otherwise.
    pub fn playback(&self, note: &Note, duration: u32) -> (r: Playback)
        ensures
            match self.lookup(note.sound@, note.sequence as int) {
                None => r is Silent,
                Some(d) => if duration == 0 {
                    r matches Playback::ToEnd(v) && v@ == d
                } else {
                    r matches Playback::Stopped(v, t) && v@ == d && t == duration
                },
            },
    {
        match self.get(&note.sound, note.sequence) {
            None => Playback::Silent,
            Some(data) => if duration == 0 {
                Playback::ToEnd(data)
            } else {
                Playback::Stopped(data, duration)
            },
        }
    }
}

} // verus!
