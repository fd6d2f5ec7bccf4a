//! Notes, octaves and pitches, with the table of their frequencies.
//!
//! Frequencies are kept in hundredths of a hertz: every entry of the table
//! has at most two decimals, so the integer table is exact, and dividing one
//! of its entries by one hundred in floating point gives back the usual
//! frequency in hertz.
use vstd::prelude::*;
use crate::text::{other_io_error, same_text, UnknownName};

verus! {

/// A note within an octave, from C to B; `S` marks a sharp.
#[derive(Clone, Copy, PartialEq, Eq, Structural, Hash, Debug)]
pub enum Note {
    C,
    CS,
    D,
    DS,
    E,
    F,
    FS,
    G,
    GS,
    A,
    AS,
    B,
}

impl Note {
    /// Position of the note within its octave: 0 for C up to 11 for B.
    pub open spec fn index(self) -> int {
        match self {
            Note::C => 0,
            Note::CS => 1,
            Note::D => 2,
            Note::DS => 3,
            Note::E => 4,
            Note::F => 5,
            Note::FS => 6,
            Note::G => 7,
            Note::GS => 8,
            Note::A => 9,
            Note::AS => 10,
            Note::B => 11,
        }
    }

    /// The note at position `i` of an octave (B for any position past 11).
    pub open spec fn at(i: int) -> Note {
        if i == 0 {
            Note::C
        } else if i == 1 {
            Note::CS
        } else if i == 2 {
            Note::D
        } else if i == 3 {
            Note::DS
        } else if i == 4 {
            Note::E
        } else if i == 5 {
            Note::F
        } else if i == 6 {
            Note::FS
        } else if i == 7 {
            Note::G
        } else if i == 8 {
            Note::GS
        } else if i == 9 {
            Note::A
        } else if i == 10 {
            Note::AS
        } else {
            Note::B
        }
    }

    /// How the note is written: its letter, followed by `#` for a sharp.
    pub open spec fn name(self) -> Seq<char> {
        match self {
            Note::C => "C"@,
            Note::CS => "C#"@,
            Note::D => "D"@,
            Note::DS => "D#"@,
            Note::E => "E"@,
            Note::F => "F"@,
            Note::FS => "F#"@,
            Note::G => "G"@,
            Note::GS => "G#"@,
            Note::A => "A"@,
            Note::AS => "A#"@,
            Note::B => "B"@,
        }
    }

    /// Position of the note within its octave.
    pub fn position(&self) -> (r: usize)
        ensures
            r == self.index(),
            r < 12,
    {
        match self {
            Note::C => 0,
            Note::CS => 1,
            Note::D => 2,
            Note::DS => 3,
            Note::E => 4,
            Note::F => 5,
            Note::FS => 6,
            Note::G => 7,
            Note::GS => 8,
            Note::A => 9,
            Note::AS => 10,
            Note::B => 11,
        }
    }

    /// The twelve notes of an octave, from C to B.
    pub fn all() -> (r: Vec<Note>)
        ensures
            r@.len() == 12,
            forall|i: int| 0 <= i < 12 ==> (#[trigger] r@[i]).index() == i,
    {
        vec![Note::C, Note::CS, Note::D, Note::DS, Note::E, Note::F, Note::FS, Note::G, Note::GS, Note::A, Note::AS, Note::B]
    }

    /// The written name of the note.
    pub fn to_string(&self) -> (r: String)
        ensures
            r@ == self.name(),
    {
        let s: &str = match self {
            Note::C => "C",
            Note::CS => "C#",
            Note::D => "D",
            Note::DS => "D#",
            Note::E => "E",
            Note::F => "F",
            Note::FS => "F#",
            Note::G => "G",
            Note::GS => "G#",
            Note::A => "A",
            Note::AS => "A#",
            Note::B => "B",
        };
        s.to_owned()
    }
}

impl Default for Note {
    fn default() -> (r: Self)
        ensures
            r == Note::C,
    {
        Note::C
    }
}

/// An octave, from 0 to 8.
#[derive(Clone, Copy, PartialEq, Eq, Structural, Hash, Debug)]
pub enum Octave {
    O0,
    O1,
    O2,
    O3,
    O4,
    O5,
    O6,
    O7,
    O8,
}

impl Octave {
    /// The number of the octave, 0 to 8.
    pub open spec fn index(self) -> int {
        match self {
            Octave::O0 => 0,
            Octave::O1 => 1,
            Octave::O2 => 2,
            Octave::O3 => 3,
            Octave::O4 => 4,
            Octave::O5 => 5,
            Octave::O6 => 6,
            Octave::O7 => 7,
            Octave::O8 => 8,
        }
    }

    /// The octave numbered `i` (octave 8 for any number past 8).
    pub open spec fn at(i: int) -> Octave {
        if i == 0 {
            Octave::O0
        } else if i == 1 {
            Octave::O1
        } else if i == 2 {
            Octave::O2
        } else if i == 3 {
            Octave::O3
        } else if i == 4 {
            Octave::O4
        } else if i == 5 {
            Octave::O5
        } else if i == 6 {
            Octave::O6
        } else if i == 7 {
            Octave::O7
        } else {
            Octave::O8
        }
    }

    /// How the octave is written: its number.
    pub open spec fn name(self) -> Seq<char> {
        match self {
            Octave::O0 => "0"@,
            Octave::O1 => "1"@,
            Octave::O2 => "2"@,
            Octave::O3 => "3"@,
            Octave::O4 => "4"@,
            Octave::O5 => "5"@,
            Octave::O6 => "6"@,
            Octave::O7 => "7"@,
            Octave::O8 => "8"@,
        }
    }

    /// The number of the octave.
    pub fn number(&self) -> (r: usize)
        ensures
            r == self.index(),
            r < 9,
    {
        match self {
            Octave::O0 => 0,
            Octave::O1 => 1,
            Octave::O2 => 2,
            Octave::O3 => 3,
            Octave::O4 => 4,
            Octave::O5 => 5,
            Octave::O6 => 6,
            Octave::O7 => 7,
            Octave::O8 => 8,
        }
    }

    /// The nine octaves, from 0 to 8.
    pub fn all() -> (r: Vec<Octave>)
        ensures
            r@.len() == 9,
            forall|i: int| 0 <= i < 9 ==> (#[trigger] r@[i]).index() == i,
    {
        vec![Octave::O0, Octave::O1, Octave::O2, Octave::O3, Octave::O4, Octave::O5, Octave::O6, Octave::O7, Octave::O8]
    }

    /// The written number of the octave.
    pub fn to_string(&self) -> (r: String)
        ensures
            r@ == self.name(),
    {
        let s: &str = match self {
            Octave::O0 => "0",
            Octave::O1 => "1",
            Octave::O2 => "2",
            Octave::O3 => "3",
            Octave::O4 => "4",
            Octave::O5 => "5",
            Octave::O6 => "6",
            Octave::O7 => "7",
            Octave::O8 => "8",
        };
        s.to_owned()
    }
}

impl Default for Octave {
    fn default() -> (r: Self)
        ensures
            r == Octave::O5,
    {
        Octave::O5
    }
}

/// Frequency, in hundredths of a hertz, of the pitch at position `i` of the
/// chromatic scale that starts at C0 (C0 is 0, B8 is 107).
pub open spec fn pitch_freq_centihertz(i: int) -> int {
    if i == 0 {
        1635
    } else if i == 1 {
        1732
    } else if i == 2 {
        1835
    } else if i == 3 {
        1945
    } else if i == 4 {
        2060
    } else if i == 5 {
        2183
    } else if i == 6 {
        2312
    } else if i == 7 {
        2450
    } else if i == 8 {
        2596
    } else if i == 9 {
        2750
    } else if i == 10 {
        2914
    } else if i == 11 {
        3087
    } else if i == 12 {
        3270
    } else if i == 13 {
        3465
    } else if i == 14 {
        3671
    } else if i == 15 {
        3889
    } else if i == 16 {
        4120
    } else if i == 17 {
        4365
    } else if i == 18 {
        4625
    } else if i == 19 {
        4900
    } else if i == 20 {
        5191
    } else if i == 21 {
        5500
    } else if i == 22 {
        5827
    } else if i == 23 {
        6174
    } else if i == 24 {
        6541
    } else if i == 25 {
        6930
    } else if i == 26 {
        7342
    } else if i == 27 {
        7778
    } else if i == 28 {
        8241
    } else if i == 29 {
        8731
    } else if i == 30 {
        9250
    } else if i == 31 {
        9800
    } else if i == 32 {
        10383
    } else if i == 33 {
        11000
    } else if i == 34 {
        11654
    } else if i == 35 {
        12347
    } else if i == 36 {
        13081
    } else if i == 37 {
        13859
    } else if i == 38 {
        14683
    } else if i == 39 {
        15556
    } else if i == 40 {
        16481
    } else if i == 41 {
        17461
    } else if i == 42 {
        18500
    } else if i == 43 {
        19600
    } else if i == 44 {
        20765
    } else if i == 45 {
        22000
    } else if i == 46 {
        23308
    } else if i == 47 {
        24694
    } else if i == 48 {
        26163
    } else if i == 49 {
        27718
    } else if i == 50 {
        29366
    } else if i == 51 {
        31113
    } else if i == 52 {
        32963
    } else if i == 53 {
        34923
    } else if i == 54 {
        36999
    } else if i == 55 {
        39200
    } else if i == 56 {
        41530
    } else if i == 57 {
        44000
    } else if i == 58 {
        46616
    } else if i == 59 {
        49388
    } else if i == 60 {
        52325
    } else if i == 61 {
        55437
    } else if i == 62 {
        58733
    } else if i == 63 {
        62225
    } else if i == 64 {
        65925
    } else if i == 65 {
        69846
    } else if i == 66 {
        73999
    } else if i == 67 {
        78399
    } else if i == 68 {
        83061
    } else if i == 69 {
        88000
    } else if i == 70 {
        93233
    } else if i == 71 {
        98777
    } else if i == 72 {
        104650
    } else if i == 73 {
        110873
    } else if i == 74 {
        117466
    } else if i == 75 {
        124451
    } else if i == 76 {
        131851
    } else if i == 77 {
        139691
    } else if i == 78 {
        147998
    } else if i == 79 {
        156798
    } else if i == 80 {
        166122
    } else if i == 81 {
        176000
    } else if i == 82 {
        186466
    } else if i == 83 {
        197553
    } else if i == 84 {
        209300
    } else if i == 85 {
        221746
    } else if i == 86 {
        234932
    } else if i == 87 {
        248900
    } else if i == 88 {
        263700
    } else if i == 89 {
        279383
    } else if i == 90 {
        295996
    } else if i == 91 {
        313596
    } else if i == 92 {
        332244
    } else if i == 93 {
        352000
    } else if i == 94 {
        372931
    } else if i == 95 {
        395100
    } else if i == 96 {
        418600
    } else if i == 97 {
        443492
    } else if i == 98 {
        469863
    } else if i == 99 {
        497800
    } else if i == 100 {
        527400
    } else if i == 101 {
        558765
    } else if i == 102 {
        591991
    } else if i == 103 {
        627193
    } else if i == 104 {
        664488
    } else if i == 105 {
        704000
    } else if i == 106 {
        745862
    } else if i == 107 {
        790213
    } else {
        0
    }
}

/// The frequency table, position by position.
fn freq_centihertz_at(i: usize) -> (r: u32)
    requires
        i < 108,
    ensures
        r == pitch_freq_centihertz(i as int),
{
    match i {
            0 => 1635,
            1 => 1732,
            2 => 1835,
            3 => 1945,
            4 => 2060,
            5 => 2183,
            6 => 2312,
            7 => 2450,
            8 => 2596,
            9 => 2750,
            10 => 2914,
            11 => 3087,
            12 => 3270,
            13 => 3465,
            14 => 3671,
            15 => 3889,
            16 => 4120,
            17 => 4365,
            18 => 4625,
            19 => 4900,
            20 => 5191,
            21 => 5500,
            22 => 5827,
            23 => 6174,
            24 => 6541,
            25 => 6930,
            26 => 7342,
            27 => 7778,
            28 => 8241,
            29 => 8731,
            30 => 9250,
            31 => 9800,
            32 => 10383,
            33 => 11000,
            34 => 11654,
            35 => 12347,
            36 => 13081,
            37 => 13859,
            38 => 14683,
            39 => 15556,
            40 => 16481,
            41 => 17461,
            42 => 18500,
            43 => 19600,
            44 => 20765,
            45 => 22000,
            46 => 23308,
            47 => 24694,
            48 => 26163,
            49 => 27718,
            50 => 29366,
            51 => 31113,
            52 => 32963,
            53 => 34923,
            54 => 36999,
            55 => 39200,
            56 => 41530,
            57 => 44000,
            58 => 46616,
            59 => 49388,
            60 => 52325,
            61 => 55437,
            62 => 58733,
            63 => 62225,
            64 => 65925,
            65 => 69846,
            66 => 73999,
            67 => 78399,
            68 => 83061,
            69 => 88000,
            70 => 93233,
            71 => 98777,
            72 => 104650,
            73 => 110873,
            74 => 117466,
            75 => 124451,
            76 => 131851,
            77 => 139691,
            78 => 147998,
            79 => 156798,
            80 => 166122,
            81 => 176000,
            82 => 186466,
            83 => 197553,
            84 => 209300,
            85 => 221746,
            86 => 234932,
            87 => 248900,
            88 => 263700,
            89 => 279383,
            90 => 295996,
            91 => 313596,
            92 => 332244,
            93 => 352000,
            94 => 372931,
            95 => 395100,
            96 => 418600,
            97 => 443492,
            98 => 469863,
            99 => 497800,
            100 => 527400,
            101 => 558765,
            102 => 591991,
            103 => 627193,
            104 => 664488,
            105 => 704000,
            106 => 745862,
            _ => 790213,
    }
}

/// A pitch: a note in a given octave.
#[derive(Clone, Copy, PartialEq, Eq, Structural, Debug)]
pub struct Pitch(pub Octave, pub Note);

impl Pitch {
    /// Position of the pitch on the chromatic scale that starts at C0.
    pub open spec fn index(self) -> int {
        12 * self.0.index() + self.1.index()
    }

    /// The pitch at position `i` of the chromatic scale that starts at C0.
    pub open spec fn at(i: int) -> Pitch {
        Pitch(Octave::at(i / 12), Note::at(i % 12))
    }

    /// Frequency of the pitch, in hundredths of a hertz.
    pub open spec fn freq(self) -> int {
        pitch_freq_centihertz(self.index())
    }

    /// Position of the pitch on the chromatic scale that starts at C0.
    pub fn position(&self) -> (r: usize)
        ensures
            r == self.index(),
            r < 108,
    {
        12 * self.0.number() + self.1.position()
    }

    /// Frequency of the pitch, in hundredths of a hertz.
    pub fn freq_centihertz(&self) -> (r: u32)
        ensures
            r == self.freq(),
    {
        freq_centihertz_at(self.position())
    }

    /// The 108 pitches from C0 to B8, in rising order.
    pub fn all() -> (r: Vec<Pitch>)
        ensures
            r@.len() == 108,
            forall|i: int| 0 <= i < 108 ==> (#[trigger] r@[i]).index() == i,
    {
        let octaves = Octave::all();
        let notes = Note::all();
        let mut r: Vec<Pitch> = Vec::new();
        let mut o: usize = 0;
        while o < 9
            invariant
                o <= 9,
                octaves@.len() == 9,
                notes@.len() == 12,
                forall|i: int| 0 <= i < 9 ==> (#[trigger] octaves@[i]).index() == i,
                forall|i: int| 0 <= i < 12 ==> (#[trigger] notes@[i]).index() == i,
                r@.len() == 12 * o,
                forall|i: int| 0 <= i < r@.len() ==> (#[trigger] r@[i]).index() == i,
            decreases 9 - o,
        {
            let mut n: usize = 0;
            while n < 12
                invariant
                    o < 9,
                    n <= 12,
                    octaves@.len() == 9,
                    notes@.len() == 12,
                    forall|i: int| 0 <= i < 9 ==> (#[trigger] octaves@[i]).index() == i,
                    forall|i: int| 0 <= i < 12 ==> (#[trigger] notes@[i]).index() == i,
                    r@.len() == 12 * o + n,
                    forall|i: int| 0 <= i < r@.len() ==> (#[trigger] r@[i]).index() == i,
                decreases 12 - n,
            {
                r.push(Pitch(octaves[o], notes[n]));
                n = n + 1;
            }
            o = o + 1;
        }
        r
    }

    /// The frequencies, in hundredths of a hertz, of the 108 pitches from C0
    /// to B8, in the order of [`Pitch::all`].
    pub fn all_freq_centihertz() -> (r: Vec<u32>)
        ensures
            r@.len() == 108,
            forall|i: int| 0 <= i < 108 ==> #[trigger] r@[i] == pitch_freq_centihertz(i),
    {
        let mut r: Vec<u32> = Vec::new();
        let mut i: usize = 0;
        while i < 108
            invariant
                i <= 108,
                r@.len() == i,
                forall|j: int| 0 <= j < i ==> #[trigger] r@[j] == pitch_freq_centihertz(j),
            decreases 108 - i,
        {
            r.push(freq_centihertz_at(i));
            i = i + 1;
        }
        r
    }
}

/// The pitch a parameter is set to after a pick in its octave and note
/// menus: a picked octave replaces the current one, a picked note the
/// current note; with nothing picked the parameter is left alone (`None`).
/// The parameter's value then becomes the picked pitch's frequency.
pub fn picked_pitch(current: Pitch, octave: Option<Octave>, note: Option<Note>) -> (r: Option<Pitch>)
    ensures
        octave is None && note is None ==> r is None,
        !(octave is None && note is None) ==> r == Some(
            Pitch(
                match octave {
                    Some(o) => o,
                    None => current.0,
                },
                match note {
                    Some(n) => n,
                    None => current.1,
                },
            ),
        ),
{
    match (note, octave) {
        (Some(n), None) => Some(Pitch(current.0, n)),
        (None, Some(o)) => Some(Pitch(o, current.1)),
        (Some(n), Some(o)) => Some(Pitch(o, n)),
        (None, None) => None,
    }
}

impl Default for Pitch {
    fn default() -> (r: Self)
        ensures
            r == Pitch(Octave::O5, Note::C),
    {
        Pitch(Octave::O5, Note::C)
    }
}

/// Each pitch sits at its own position of the chromatic scale, and the
/// position determines the pitch.
pub proof fn lemma_pitch_position(p: Pitch, i: int)
    ensures
        0 <= p.index() < 108,
        Pitch::at(p.index()) == p,
        0 <= i < 108 ==> Pitch::at(i).index() == i,
{
}

/// Going up the chromatic scale, each pitch is one step higher in
/// frequency than the pitch before it.
pub proof fn lemma_freq_step_increasing(i: int)
    requires
        0 <= i < 107,
    ensures
        0 < pitch_freq_centihertz(i) < pitch_freq_centihertz(i + 1),
{
}

/// The table is tuned in equal temperament to A4 = 440 Hz: A4 (position 57)
/// has 44000 hundredths of a hertz, and each semitone up multiplies the
/// frequency by the twelfth root of two (1.05946...), up to the table's
/// rounding: the ratio of neighbouring entries lies between 1.0590 and
/// 1.0600.
pub proof fn lemma_freq_equal_tempered(i: int)
    requires
        0 <= i < 107,
    ensures
        pitch_freq_centihertz(57) == 44000,
        Pitch(Octave::O4, Note::A).freq() == 44000,
        10590 * pitch_freq_centihertz(i) <= 10000 * pitch_freq_centihertz(i + 1) <= 10600 * pitch_freq_centihertz(i),
{
}

/// One octave up doubles the frequency, up to the table's rounding of at
/// most 13 hundredths of a hertz.
pub proof fn lemma_freq_octave_doubles(i: int)
    requires
        0 <= i < 96,
    ensures
        -13 <= pitch_freq_centihertz(i + 12) - 2 * pitch_freq_centihertz(i) <= 13,
{
}

/// The frequency table rises strictly: a higher pitch has a higher frequency.
pub proof fn lemma_freq_strictly_increasing(i: int, j: int)
    requires
        0 <= i < j < 108,
    ensures
        0 < pitch_freq_centihertz(i) < pitch_freq_centihertz(j),
    decreases j - i,
{
    lemma_freq_step_increasing(j - 1);
    if i < j - 1 {
        lemma_freq_strictly_increasing(i, j - 1);
    }
}

/// A note length, as a fraction of a whole note, plain, dotted or triplet.
#[derive(Clone, Copy, PartialEq, Eq, Structural, Debug)]
pub enum NoteSpeed {
    WholeTriplet,
    Whole,
    WholeDotted,
    HalfTriplet,
    Half,
    HalfDotted,
    Quarter,
    QuarterTriplet,
    QuarterDotted,
    Eighth,
    EighthTriplet,
    EighthDotted,
    SixteenthTriplet,
    Sixteenth,
    SixteenthDotted,
    ThirtySecondTriplet,
    ThirtySecond,
    ThirtySecondDotted,
    SixtyFourthTriplet,
    SixtyFourth,
    SixtyFourthDotted,
}

/// The note lengths of every kind, from the longest to the shortest, each
/// size in the order triplet, plain, dotted.
pub open spec fn all_note_speeds() -> Seq<NoteSpeed> {
    seq![NoteSpeed::WholeTriplet, NoteSpeed::Whole, NoteSpeed::WholeDotted, NoteSpeed::HalfTriplet, NoteSpeed::Half, NoteSpeed::HalfDotted, NoteSpeed::QuarterTriplet, NoteSpeed::Quarter, NoteSpeed::QuarterDotted, NoteSpeed::EighthTriplet, NoteSpeed::Eighth, NoteSpeed::EighthDotted, NoteSpeed::SixteenthTriplet, NoteSpeed::Sixteenth, NoteSpeed::SixteenthDotted, NoteSpeed::ThirtySecondTriplet, NoteSpeed::ThirtySecond, NoteSpeed::ThirtySecondDotted, NoteSpeed::SixtyFourthTriplet, NoteSpeed::SixtyFourth, NoteSpeed::SixtyFourthDotted]
}

/// The plain note lengths, from whole to sixty-fourth.
pub open spec fn normal_note_speeds() -> Seq<NoteSpeed> {
    seq![NoteSpeed::Whole, NoteSpeed::Half, NoteSpeed::Quarter, NoteSpeed::Eighth, NoteSpeed::Sixteenth, NoteSpeed::ThirtySecond, NoteSpeed::SixtyFourth]
}

/// The dotted note lengths, from whole to sixty-fourth.
pub open spec fn dotted_note_speeds() -> Seq<NoteSpeed> {
    seq![NoteSpeed::WholeDotted, NoteSpeed::HalfDotted, NoteSpeed::QuarterDotted, NoteSpeed::EighthDotted, NoteSpeed::SixteenthDotted, NoteSpeed::ThirtySecondDotted, NoteSpeed::SixtyFourthDotted]
}

/// The triplet note lengths, from whole to sixty-fourth.
pub open spec fn triplet_note_speeds() -> Seq<NoteSpeed> {
    seq![NoteSpeed::WholeTriplet, NoteSpeed::HalfTriplet, NoteSpeed::QuarterTriplet, NoteSpeed::EighthTriplet, NoteSpeed::SixteenthTriplet, NoteSpeed::ThirtySecondTriplet, NoteSpeed::SixtyFourthTriplet]
}

impl NoteSpeed {
    /// The family the length belongs to: plain, dotted or triplet.
    pub open spec fn family(self) -> NoteSpeedType {
        match self {
            NoteSpeed::WholeTriplet => NoteSpeedType::Triplet,
            NoteSpeed::Whole => NoteSpeedType::Normal,
            NoteSpeed::WholeDotted => NoteSpeedType::Dotted,
            NoteSpeed::HalfTriplet => NoteSpeedType::Triplet,
            NoteSpeed::Half => NoteSpeedType::Normal,
            NoteSpeed::HalfDotted => NoteSpeedType::Dotted,
            NoteSpeed::Quarter => NoteSpeedType::Normal,
            NoteSpeed::QuarterTriplet => NoteSpeedType::Triplet,
            NoteSpeed::QuarterDotted => NoteSpeedType::Dotted,
            NoteSpeed::Eighth => NoteSpeedType::Normal,
            NoteSpeed::EighthTriplet => NoteSpeedType::Triplet,
            NoteSpeed::EighthDotted => NoteSpeedType::Dotted,
            NoteSpeed::SixteenthTriplet => NoteSpeedType::Triplet,
            NoteSpeed::Sixteenth => NoteSpeedType::Normal,
            NoteSpeed::SixteenthDotted => NoteSpeedType::Dotted,
            NoteSpeed::ThirtySecondTriplet => NoteSpeedType::Triplet,
            NoteSpeed::ThirtySecond => NoteSpeedType::Normal,
            NoteSpeed::ThirtySecondDotted => NoteSpeedType::Dotted,
            NoteSpeed::SixtyFourthTriplet => NoteSpeedType::Triplet,
            NoteSpeed::SixtyFourth => NoteSpeedType::Normal,
            NoteSpeed::SixtyFourthDotted => NoteSpeedType::Dotted,
        }
    }

    /// The size of the length, from 0 for a whole note to 6 for a
    /// sixty-fourth, whatever its family.
    pub open spec fn size(self) -> int {
        match self {
            NoteSpeed::WholeTriplet => 0,
            NoteSpeed::Whole => 0,
            NoteSpeed::WholeDotted => 0,
            NoteSpeed::HalfTriplet => 1,
            NoteSpeed::Half => 1,
            NoteSpeed::HalfDotted => 1,
            NoteSpeed::Quarter => 2,
            NoteSpeed::QuarterTriplet => 2,
            NoteSpeed::QuarterDotted => 2,
            NoteSpeed::Eighth => 3,
            NoteSpeed::EighthTriplet => 3,
            NoteSpeed::EighthDotted => 3,
            NoteSpeed::SixteenthTriplet => 4,
            NoteSpeed::Sixteenth => 4,
            NoteSpeed::SixteenthDotted => 4,
            NoteSpeed::ThirtySecondTriplet => 5,
            NoteSpeed::ThirtySecond => 5,
            NoteSpeed::ThirtySecondDotted => 5,
            NoteSpeed::SixtyFourthTriplet => 6,
            NoteSpeed::SixtyFourth => 6,
            NoteSpeed::SixtyFourthDotted => 6,
        }
    }
    /// Length in beats (quarter notes), counted in ninety-sixths of a beat.
    pub open spec fn beats96(self) -> int {
        match self {
            NoteSpeed::WholeTriplet => 256,
            NoteSpeed::Whole => 384,
            NoteSpeed::WholeDotted => 576,
            NoteSpeed::HalfTriplet => 128,
            NoteSpeed::Half => 192,
            NoteSpeed::HalfDotted => 288,
            NoteSpeed::Quarter => 96,
            NoteSpeed::QuarterTriplet => 64,
            NoteSpeed::QuarterDotted => 144,
            NoteSpeed::Eighth => 48,
            NoteSpeed::EighthTriplet => 32,
            NoteSpeed::EighthDotted => 72,
            NoteSpeed::SixteenthTriplet => 16,
            NoteSpeed::Sixteenth => 24,
            NoteSpeed::SixteenthDotted => 36,
            NoteSpeed::ThirtySecondTriplet => 8,
            NoteSpeed::ThirtySecond => 12,
            NoteSpeed::ThirtySecondDotted => 18,
            NoteSpeed::SixtyFourthTriplet => 4,
            NoteSpeed::SixtyFourth => 6,
            NoteSpeed::SixtyFourthDotted => 9,
        }
    }

    /// How the length is written: `1`, `1/2`, ... `1/64`, followed by `.`
    /// when dotted or by ` triplet` for a triplet.
    pub open spec fn name(self) -> Seq<char> {
        match self {
            NoteSpeed::WholeTriplet => "1 triplet"@,
            NoteSpeed::Whole => "1"@,
            NoteSpeed::WholeDotted => "1."@,
            NoteSpeed::HalfTriplet => "1/2 triplet"@,
            NoteSpeed::Half => "1/2"@,
            NoteSpeed::HalfDotted => "1/2."@,
            NoteSpeed::Quarter => "1/4"@,
            NoteSpeed::QuarterTriplet => "1/4 triplet"@,
            NoteSpeed::QuarterDotted => "1/4."@,
            NoteSpeed::Eighth => "1/8"@,
            NoteSpeed::EighthTriplet => "1/8 triplet"@,
            NoteSpeed::EighthDotted => "1/8."@,
            NoteSpeed::SixteenthTriplet => "1/16 triplet"@,
            NoteSpeed::Sixteenth => "1/16"@,
            NoteSpeed::SixteenthDotted => "1/16."@,
            NoteSpeed::ThirtySecondTriplet => "1/32 triplet"@,
            NoteSpeed::ThirtySecond => "1/32"@,
            NoteSpeed::ThirtySecondDotted => "1/32."@,
            NoteSpeed::SixtyFourthTriplet => "1/64 triplet"@,
            NoteSpeed::SixtyFourth => "1/64"@,
            NoteSpeed::SixtyFourthDotted => "1/64."@,
        }
    }

    /// Length of the note in beats, counted in ninety-sixths of a beat (a
    /// quarter note is 96, a sixty-fourth triplet is 4).
    pub fn beats_in_96ths(&self) -> (r: u32)
        ensures
            r == self.beats96(),
    {
        match self {
            NoteSpeed::WholeTriplet => 256,
            NoteSpeed::Whole => 384,
            NoteSpeed::WholeDotted => 576,
            NoteSpeed::HalfTriplet => 128,
            NoteSpeed::Half => 192,
            NoteSpeed::HalfDotted => 288,
            NoteSpeed::Quarter => 96,
            NoteSpeed::QuarterTriplet => 64,
            NoteSpeed::QuarterDotted => 144,
            NoteSpeed::Eighth => 48,
            NoteSpeed::EighthTriplet => 32,
            NoteSpeed::EighthDotted => 72,
            NoteSpeed::SixteenthTriplet => 16,
            NoteSpeed::Sixteenth => 24,
            NoteSpeed::SixteenthDotted => 36,
            NoteSpeed::ThirtySecondTriplet => 8,
            NoteSpeed::ThirtySecond => 12,
            NoteSpeed::ThirtySecondDotted => 18,
            NoteSpeed::SixtyFourthTriplet => 4,
            NoteSpeed::SixtyFourth => 6,
            NoteSpeed::SixtyFourthDotted => 9,
        }
    }

    /// All the note lengths, in the order of [`all_note_speeds`].
    pub fn all() -> (r: Vec<NoteSpeed>)
        ensures
            r@ == all_note_speeds(),
    {
        vec![NoteSpeed::WholeTriplet, NoteSpeed::Whole, NoteSpeed::WholeDotted, NoteSpeed::HalfTriplet, NoteSpeed::Half, NoteSpeed::HalfDotted, NoteSpeed::QuarterTriplet, NoteSpeed::Quarter, NoteSpeed::QuarterDotted, NoteSpeed::EighthTriplet, NoteSpeed::Eighth, NoteSpeed::EighthDotted, NoteSpeed::SixteenthTriplet, NoteSpeed::Sixteenth, NoteSpeed::SixteenthDotted, NoteSpeed::ThirtySecondTriplet, NoteSpeed::ThirtySecond, NoteSpeed::ThirtySecondDotted, NoteSpeed::SixtyFourthTriplet, NoteSpeed::SixtyFourth, NoteSpeed::SixtyFourthDotted]
    }

    /// The plain note lengths.
    pub fn all_normal() -> (r: Vec<NoteSpeed>)
        ensures
            r@ == normal_note_speeds(),
    {
        vec![NoteSpeed::Whole, NoteSpeed::Half, NoteSpeed::Quarter, NoteSpeed::Eighth, NoteSpeed::Sixteenth, NoteSpeed::ThirtySecond, NoteSpeed::SixtyFourth]
    }

    /// The dotted note lengths.
    pub fn all_dotted() -> (r: Vec<NoteSpeed>)
        ensures
            r@ == dotted_note_speeds(),
    {
        vec![NoteSpeed::WholeDotted, NoteSpeed::HalfDotted, NoteSpeed::QuarterDotted, NoteSpeed::EighthDotted, NoteSpeed::SixteenthDotted, NoteSpeed::ThirtySecondDotted, NoteSpeed::SixtyFourthDotted]
    }

    /// The triplet note lengths.
    pub fn all_triplet() -> (r: Vec<NoteSpeed>)
        ensures
            r@ == triplet_note_speeds(),
    {
        vec![NoteSpeed::WholeTriplet, NoteSpeed::HalfTriplet, NoteSpeed::QuarterTriplet, NoteSpeed::EighthTriplet, NoteSpeed::SixteenthTriplet, NoteSpeed::ThirtySecondTriplet, NoteSpeed::SixtyFourthTriplet]
    }

    /// The written form of the length.
    pub fn to_string(&self) -> (r: String)
        ensures
            r@ == self.name(),
    {
        let s: &str = match self {
            NoteSpeed::WholeTriplet => "1 triplet",
            NoteSpeed::Whole => "1",
            NoteSpeed::WholeDotted => "1.",
            NoteSpeed::HalfTriplet => "1/2 triplet",
            NoteSpeed::Half => "1/2",
            NoteSpeed::HalfDotted => "1/2.",
            NoteSpeed::Quarter => "1/4",
            NoteSpeed::QuarterTriplet => "1/4 triplet",
            NoteSpeed::QuarterDotted => "1/4.",
            NoteSpeed::Eighth => "1/8",
            NoteSpeed::EighthTriplet => "1/8 triplet",
            NoteSpeed::EighthDotted => "1/8.",
            NoteSpeed::SixteenthTriplet => "1/16 triplet",
            NoteSpeed::Sixteenth => "1/16",
            NoteSpeed::SixteenthDotted => "1/16.",
            NoteSpeed::ThirtySecondTriplet => "1/32 triplet",
            NoteSpeed::ThirtySecond => "1/32",
            NoteSpeed::ThirtySecondDotted => "1/32.",
            NoteSpeed::SixtyFourthTriplet => "1/64 triplet",
            NoteSpeed::SixtyFourth => "1/64",
            NoteSpeed::SixtyFourthDotted => "1/64.",
        };
        s.to_owned()
    }

    /// Reads a length from its written form; any other text is refused.
    pub fn parse(s: &str) -> (r: Result<NoteSpeed, UnknownName>)
        ensures
            r matches Ok(v) ==> v.name() == s@,
            r is Err <==> (forall|v: NoteSpeed| v.name() != s@),
            forall|v: NoteSpeed| v.name() == s@ ==> r == Ok::<NoteSpeed, UnknownName>(v),
    {
        proof {
            assert forall|a: NoteSpeed, b: NoteSpeed| a.name() == b.name() implies a == b by {
                lemma_note_speed_names_distinct(a, b);
            }
        }
        if same_text(s, "1 triplet") {
            assert(NoteSpeed::WholeTriplet.name() == s@);
            return Ok(NoteSpeed::WholeTriplet);
        }
        if same_text(s, "1") {
            assert(NoteSpeed::Whole.name() == s@);
            return Ok(NoteSpeed::Whole);
        }
        if same_text(s, "1.") {
            assert(NoteSpeed::WholeDotted.name() == s@);
            return Ok(NoteSpeed::WholeDotted);
        }
        if same_text(s, "1/2 triplet") {
            assert(NoteSpeed::HalfTriplet.name() == s@);
            return Ok(NoteSpeed::HalfTriplet);
        }
        if same_text(s, "1/2") {
            assert(NoteSpeed::Half.name() == s@);
            return Ok(NoteSpeed::Half);
        }
        if same_text(s, "1/2.") {
            assert(NoteSpeed::HalfDotted.name() == s@);
            return Ok(NoteSpeed::HalfDotted);
        }
        if same_text(s, "1/4") {
            assert(NoteSpeed::Quarter.name() == s@);
            return Ok(NoteSpeed::Quarter);
        }
        if same_text(s, "1/4 triplet") {
            assert(NoteSpeed::QuarterTriplet.name() == s@);
            return Ok(NoteSpeed::QuarterTriplet);
        }
        if same_text(s, "1/4.") {
            assert(NoteSpeed::QuarterDotted.name() == s@);
            return Ok(NoteSpeed::QuarterDotted);
        }
        if same_text(s, "1/8") {
            assert(NoteSpeed::Eighth.name() == s@);
            return Ok(NoteSpeed::Eighth);
        }
        if same_text(s, "1/8 triplet") {
            assert(NoteSpeed::EighthTriplet.name() == s@);
            return Ok(NoteSpeed::EighthTriplet);
        }
        if same_text(s, "1/8.") {
            assert(NoteSpeed::EighthDotted.name() == s@);
            return Ok(NoteSpeed::EighthDotted);
        }
        if same_text(s, "1/16 triplet") {
            assert(NoteSpeed::SixteenthTriplet.name() == s@);
            return Ok(NoteSpeed::SixteenthTriplet);
        }
        if same_text(s, "1/16") {
            assert(NoteSpeed::Sixteenth.name() == s@);
            return Ok(NoteSpeed::Sixteenth);
        }
        if same_text(s, "1/16.") {
            assert(NoteSpeed::SixteenthDotted.name() == s@);
            return Ok(NoteSpeed::SixteenthDotted);
        }
        if same_text(s, "1/32 triplet") {
            assert(NoteSpeed::ThirtySecondTriplet.name() == s@);
            return Ok(NoteSpeed::ThirtySecondTriplet);
        }
        if same_text(s, "1/32") {
            assert(NoteSpeed::ThirtySecond.name() == s@);
            return Ok(NoteSpeed::ThirtySecond);
        }
        if same_text(s, "1/32.") {
            assert(NoteSpeed::ThirtySecondDotted.name() == s@);
            return Ok(NoteSpeed::ThirtySecondDotted);
        }
        if same_text(s, "1/64 triplet") {
            assert(NoteSpeed::SixtyFourthTriplet.name() == s@);
            return Ok(NoteSpeed::SixtyFourthTriplet);
        }
        if same_text(s, "1/64") {
            assert(NoteSpeed::SixtyFourth.name() == s@);
            return Ok(NoteSpeed::SixtyFourth);
        }
        if same_text(s, "1/64.") {
            assert(NoteSpeed::SixtyFourthDotted.name() == s@);
            return Ok(NoteSpeed::SixtyFourthDotted);
        }
        Err(UnknownName)
    }
}

impl std::str::FromStr for NoteSpeed {
    type Err = std::io::Error;

    /// Reads the written name back; other text is refused with an I/O error
    /// of kind `Other` saying "Incorrect from_str value".
    fn from_str(s: &str) -> (r: Result<NoteSpeed, std::io::Error>)
        ensures
            r matches Ok(v) ==> v.name() == s@,
            r is Err <==> (forall|v: NoteSpeed| v.name() != s@),
            forall|v: NoteSpeed| v.name() == s@ ==> r == Ok::<NoteSpeed, std::io::Error>(v),
    {
        match NoteSpeed::parse(s) {
            Ok(v) => Ok(v),
            Err(_) => Err(other_io_error("Incorrect from_str value")),
        }
    }
}

impl Default for NoteSpeed {
    fn default() -> (r: Self)
        ensures
            r == NoteSpeed::Quarter,
    {
        NoteSpeed::Quarter
    }
}

/// Two different note lengths are written differently.
pub proof fn lemma_note_speed_names_distinct(a: NoteSpeed, b: NoteSpeed)
    ensures
        a.name() == b.name() ==> a == b,
{
        reveal_strlit("1 triplet");
        reveal_strlit("1");
        reveal_strlit("1.");
        reveal_strlit("1/2 triplet");
        reveal_strlit("1/2");
        reveal_strlit("1/2.");
        reveal_strlit("1/4");
        reveal_strlit("1/4 triplet");
        reveal_strlit("1/4.");
        reveal_strlit("1/8");
        reveal_strlit("1/8 triplet");
        reveal_strlit("1/8.");
        reveal_strlit("1/16 triplet");
        reveal_strlit("1/16");
        reveal_strlit("1/16.");
        reveal_strlit("1/32 triplet");
        reveal_strlit("1/32");
        reveal_strlit("1/32.");
        reveal_strlit("1/64 triplet");
        reveal_strlit("1/64");
        reveal_strlit("1/64.");
    if a.name() == b.name() {
        assert(a.name().len() == b.name().len());
        if a.name().len() > 2 {
            assert(a.name()[2] == b.name()[2]);
        }
    }
}

/// Two different families are written differently.
pub proof fn lemma_note_speed_type_names_distinct(a: NoteSpeedType, b: NoteSpeedType)
    ensures
        a.name() == b.name() ==> a == b,
{
    reveal_strlit("Any");
    reveal_strlit("Normal");
    reveal_strlit("Dotted");
    reveal_strlit("Triplet");
    if a.name() == b.name() {
        assert(a.name().len() == b.name().len());
        assert(a.name()[0] == b.name()[0]);
    }
}

/// Which family of note lengths a rhythm draws from.
#[derive(Clone, Copy, PartialEq, Eq, Structural, Debug)]
pub enum NoteSpeedType {
    Any,
    Normal,
    Dotted,
    Triplet,
}

impl NoteSpeedType {
    /// The note lengths of the family.
    pub open spec fn speeds(self) -> Seq<NoteSpeed> {
        match self {
            NoteSpeedType::Any => all_note_speeds(),
            NoteSpeedType::Normal => normal_note_speeds(),
            NoteSpeedType::Dotted => dotted_note_speeds(),
            NoteSpeedType::Triplet => triplet_note_speeds(),
        }
    }

    /// How the family is written.
    pub open spec fn name(self) -> Seq<char> {
        match self {
            NoteSpeedType::Any => "Any"@,
            NoteSpeedType::Normal => "Normal"@,
            NoteSpeedType::Dotted => "Dotted"@,
            NoteSpeedType::Triplet => "Triplet"@,
        }
    }

    /// The four families, in the order any, normal, dotted, triplet.
    pub fn all() -> (r: Vec<NoteSpeedType>)
        ensures
            r@ == seq![NoteSpeedType::Any, NoteSpeedType::Normal, NoteSpeedType::Dotted, NoteSpeedType::Triplet],
    {
        vec![NoteSpeedType::Any, NoteSpeedType::Normal, NoteSpeedType::Dotted, NoteSpeedType::Triplet]
    }

    /// The note lengths that belong to the family.
    pub fn get_beats_type(&self) -> (r: Vec<NoteSpeed>)
        ensures
            r@ == self.speeds(),
    {
        match self {
            NoteSpeedType::Any => NoteSpeed::all(),
            NoteSpeedType::Normal => NoteSpeed::all_normal(),
            NoteSpeedType::Dotted => NoteSpeed::all_dotted(),
            NoteSpeedType::Triplet => NoteSpeed::all_triplet(),
        }
    }

    /// The written form of the family.
    pub fn to_string(&self) -> (r: String)
        ensures
            r@ == self.name(),
    {
        let s: &str = match self {
            NoteSpeedType::Any => "Any",
            NoteSpeedType::Normal => "Normal",
            NoteSpeedType::Dotted => "Dotted",
            NoteSpeedType::Triplet => "Triplet",
        };
        s.to_owned()
    }

    /// Reads a family from its written form; any other text is refused.
    pub fn parse(s: &str) -> (r: Result<NoteSpeedType, UnknownName>)
        ensures
            r matches Ok(v) ==> v.name() == s@,
            r is Err <==> (forall|v: NoteSpeedType| v.name() != s@),
            forall|v: NoteSpeedType| v.name() == s@ ==> r == Ok::<NoteSpeedType, UnknownName>(v),
    {
        proof {
            assert forall|a: NoteSpeedType, b: NoteSpeedType| a.name() == b.name() implies a == b by {
                lemma_note_speed_type_names_distinct(a, b);
            }
        }
        if same_text(s, "Any") {
            assert(NoteSpeedType::Any.name() == s@);
            return Ok(NoteSpeedType::Any);
        }
        if same_text(s, "Normal") {
            assert(NoteSpeedType::Normal.name() == s@);
            return Ok(NoteSpeedType::Normal);
        }
        if same_text(s, "Dotted") {
            assert(NoteSpeedType::Dotted.name() == s@);
            return Ok(NoteSpeedType::Dotted);
        }
        if same_text(s, "Triplet") {
            assert(NoteSpeedType::Triplet.name() == s@);
            return Ok(NoteSpeedType::Triplet);
        }
        Err(UnknownName)
    }
}

impl std::str::FromStr for NoteSpeedType {
    type Err = std::io::Error;

    /// Reads the written name back; other text is refused with an I/O error
    /// of kind `Other` saying "Incorrect from_str value".
    fn from_str(s: &str) -> (r: Result<NoteSpeedType, std::io::Error>)
        ensures
            r matches Ok(v) ==> v.name() == s@,
            r is Err <==> (forall|v: NoteSpeedType| v.name() != s@),
            forall|v: NoteSpeedType| v.name() == s@ ==> r == Ok::<NoteSpeedType, std::io::Error>(v),
    {
        match NoteSpeedType::parse(s) {
            Ok(v) => Ok(v),
            Err(_) => Err(other_io_error("Incorrect from_str value")),
        }
    }
}

impl Default for NoteSpeedType {
    fn default() -> (r: Self)
        ensures
            r == NoteSpeedType::Normal,
    {
        NoteSpeedType::Normal
    }
}

/// Every note length is listed among all lengths, and belongs to exactly one
/// of the plain, dotted and triplet families.
pub proof fn lemma_note_speed_families_partition(s: NoteSpeed)
    ensures
        NoteSpeedType::Any.speeds().contains(s),
        NoteSpeedType::Normal.speeds().contains(s) || NoteSpeedType::Dotted.speeds().contains(s)
            || NoteSpeedType::Triplet.speeds().contains(s),
        !(NoteSpeedType::Normal.speeds().contains(s) && NoteSpeedType::Dotted.speeds().contains(s)),
        !(NoteSpeedType::Normal.speeds().contains(s) && NoteSpeedType::Triplet.speeds().contains(s)),
        !(NoteSpeedType::Dotted.speeds().contains(s) && NoteSpeedType::Triplet.speeds().contains(s)),
{
    let n = normal_note_speeds();
    let d = dotted_note_speeds();
    let t = triplet_note_speeds();
    let a = all_note_speeds();
    assert(forall|i: int| 0 <= i < 7 ==> (#[trigger] n[i]).family() == NoteSpeedType::Normal && n[i].size() == i);
    assert(forall|i: int| 0 <= i < 7 ==> (#[trigger] d[i]).family() == NoteSpeedType::Dotted && d[i].size() == i);
    assert(forall|i: int| 0 <= i < 7 ==> (#[trigger] t[i]).family() == NoteSpeedType::Triplet && t[i].size() == i);
    let k = s.size();
    let off: int = match s.family() {
        NoteSpeedType::Triplet => 0,
        NoteSpeedType::Normal => 1,
        _ => 2,
    };
    assert(a[3 * k + off] == s);
    assert(s.family().speeds()[k] == s);
}

/// The three families line up size by size: a dotted note lasts one and a
/// half times the plain note of its size, a triplet two thirds of it, and
/// each plain size lasts twice as long as the next.
pub proof fn lemma_note_speed_family_ratios(k: int)
    requires
        0 <= k < 7,
    ensures
        normal_note_speeds().len() == 7,
        dotted_note_speeds().len() == 7,
        triplet_note_speeds().len() == 7,
        2 * dotted_note_speeds()[k].beats96() == 3 * normal_note_speeds()[k].beats96(),
        3 * triplet_note_speeds()[k].beats96() == 2 * normal_note_speeds()[k].beats96(),
        k < 6 ==> normal_note_speeds()[k].beats96() == 2 * normal_note_speeds()[k + 1].beats96(),
{
}

/// The decimal digits of `n`, most significant first.
pub open spec fn decimal(n: nat) -> Seq<char>
    decreases n,
{
    let last = seq![(48 + n % 10) as char];
    if n < 10 {
        last
    } else {
        decimal(n / 10) + last
    }
}

/// How a whole note divided into `parts` equal parts is written: `1` for
/// the whole note itself, else `1/` followed by the number of parts.
pub open spec fn fraction_text(parts: nat) -> Seq<char> {
    if parts == 1 {
        "1"@
    } else {
        "1/"@ + decimal(parts)
    }
}

/// A length's written name states how long it is. A plain length of `b`
/// ninety-sixths of a beat is the whole note (384) divided into `384 / b`
/// parts, and is written as that fraction; a dotted length, one and a half
/// times a plain one, is written as that plain fraction followed by `.`; a
/// triplet length, two thirds of a plain one, as that plain fraction
/// followed by ` triplet`.
pub proof fn lemma_note_speed_name_states_length(s: NoteSpeed)
    ensures
        s.family() == NoteSpeedType::Normal ==> 384int % s.beats96() == 0 && s.name() == fraction_text(
            (384int / s.beats96()) as nat,
        ),
        s.family() == NoteSpeedType::Dotted ==> 576int % s.beats96() == 0 && s.name() == fraction_text(
            (576int / s.beats96()) as nat,
        ) + "."@,
        s.family() == NoteSpeedType::Triplet ==> 256int % s.beats96() == 0 && s.name() == fraction_text(
            (256int / s.beats96()) as nat,
        ) + " triplet"@,
{
    reveal_strlit("1");
    reveal_strlit("1/");
    reveal_strlit(".");
    reveal_strlit(" triplet");
    reveal_strlit("1 triplet");
    reveal_strlit("1.");
    reveal_strlit("1/2 triplet");
    reveal_strlit("1/2");
    reveal_strlit("1/2.");
    reveal_strlit("1/4");
    reveal_strlit("1/4 triplet");
    reveal_strlit("1/4.");
    reveal_strlit("1/8");
    reveal_strlit("1/8 triplet");
    reveal_strlit("1/8.");
    reveal_strlit("1/16 triplet");
    reveal_strlit("1/16");
    reveal_strlit("1/16.");
    reveal_strlit("1/32 triplet");
    reveal_strlit("1/32");
    reveal_strlit("1/32.");
    reveal_strlit("1/64 triplet");
    reveal_strlit("1/64");
    reveal_strlit("1/64.");
    reveal_with_fuel(decimal, 3);
    assert(decimal(2) =~= seq!['2']);
    assert(decimal(4) =~= seq!['4']);
    assert(decimal(8) =~= seq!['8']);
    assert(decimal(16) =~= seq!['1', '6']);
    assert(decimal(32) =~= seq!['3', '2']);
    assert(decimal(64) =~= seq!['6', '4']);
    match s {
        NoteSpeed::WholeTriplet => assert(s.name() =~= fraction_text(1) + " triplet"@),
        NoteSpeed::Whole => assert(s.name() =~= fraction_text(1)),
        NoteSpeed::WholeDotted => assert(s.name() =~= fraction_text(1) + "."@),
        NoteSpeed::HalfTriplet => assert(s.name() =~= fraction_text(2) + " triplet"@),
        NoteSpeed::Half => assert(s.name() =~= fraction_text(2)),
        NoteSpeed::HalfDotted => assert(s.name() =~= fraction_text(2) + "."@),
        NoteSpeed::Quarter => assert(s.name() =~= fraction_text(4)),
        NoteSpeed::QuarterTriplet => assert(s.name() =~= fraction_text(4) + " triplet"@),
        NoteSpeed::QuarterDotted => assert(s.name() =~= fraction_text(4) + "."@),
        NoteSpeed::Eighth => assert(s.name() =~= fraction_text(8)),
        NoteSpeed::EighthTriplet => assert(s.name() =~= fraction_text(8) + " triplet"@),
        NoteSpeed::EighthDotted => assert(s.name() =~= fraction_text(8) + "."@),
        NoteSpeed::SixteenthTriplet => assert(s.name() =~= fraction_text(16) + " triplet"@),
        NoteSpeed::Sixteenth => assert(s.name() =~= fraction_text(16)),
        NoteSpeed::SixteenthDotted => assert(s.name() =~= fraction_text(16) + "."@),
        NoteSpeed::ThirtySecondTriplet => assert(s.name() =~= fraction_text(32) + " triplet"@),
        NoteSpeed::ThirtySecond => assert(s.name() =~= fraction_text(32)),
        NoteSpeed::ThirtySecondDotted => assert(s.name() =~= fraction_text(32) + "."@),
        NoteSpeed::SixtyFourthTriplet => assert(s.name() =~= fraction_text(64) + " triplet"@),
        NoteSpeed::SixtyFourth => assert(s.name() =~= fraction_text(64)),
        NoteSpeed::SixtyFourthDotted => assert(s.name() =~= fraction_text(64) + "."@),
    }
}

/// Every note length written out and read back gives the same length.
pub proof fn lemma_note_speed_name_round_trip(s: NoteSpeed, t: NoteSpeedType)
    ensures
        forall|v: NoteSpeed| v.name() == s.name() ==> v == s,
        forall|v: NoteSpeedType| v.name() == t.name() ==> v == t,
{
    assert forall|v: NoteSpeed| v.name() == s.name() implies v == s by {
        lemma_note_speed_names_distinct(v, s);
    }
    assert forall|v: NoteSpeedType| v.name() == t.name() implies v == t by {
        lemma_note_speed_type_names_distinct(v, t);
    }
}

} // verus!
