//! MIDI vocabulary: channels, the messages that drive voices, note numbers
//! and the General MIDI program tables.

use vstd::prelude::*;

verus! {

/// A MIDI channel.
#[derive(Clone, Copy, Debug, Default, PartialEq, Eq, Hash, Structural)]
pub struct MidiChannel(pub u8);

/// The number of MIDI channels.
pub const MIDI_CHANNEL_COUNT: u8 = 16;

impl MidiChannel {
    pub fn new(value: u8) -> (r: Self)
        ensures
            r.0 == value,
    {
        MidiChannel(value)
    }
}

/// A seven-bit MIDI data value from a byte: the top bit is dropped.
pub open spec fn seven_bits(raw: u8) -> u8 {
    (raw % 128) as u8
}

/// Drops the top bit of `raw`, as a MIDI data byte holds seven bits.
pub fn to_seven_bits(raw: u8) -> (r: u8)
    ensures
        r == seven_bits(raw),
        r < 128,
{
    let r = raw & 0x7f;
    assert(raw & 0x7f == raw % 128) by (bit_vector);
    r
}

/// A channel message, with each data value held in seven bits.
#[derive(Clone, Copy, Debug, PartialEq, Eq, Structural)]
pub enum MidiMessage {
    NoteOff { key: u8, vel: u8 },
    NoteOn { key: u8, vel: u8 },
    Aftertouch { key: u8, vel: u8 },
    Controller { controller: u8, value: u8 },
    ProgramChange { program: u8 },
    ChannelAftertouch { vel: u8 },
    /// The fourteen-bit bend value, centred on 0x2000.
    PitchBend { bend: u16 },
}

/// A note-on message; each value keeps its low seven bits.
pub fn new_note_on(note: u8, vel: u8) -> (r: MidiMessage)
    ensures
        r == (MidiMessage::NoteOn { key: seven_bits(note), vel: seven_bits(vel) }),
{
    MidiMessage::NoteOn { key: to_seven_bits(note), vel: to_seven_bits(vel) }
}

/// A note-off message; each value keeps its low seven bits.
pub fn new_note_off(note: u8, vel: u8) -> (r: MidiMessage)
    ensures
        r == (MidiMessage::NoteOff { key: seven_bits(note), vel: seven_bits(vel) }),
{
    MidiMessage::NoteOff { key: to_seven_bits(note), vel: to_seven_bits(vel) }
}

/// The 128 MIDI note numbers, named with C4 = 60. The octave below C0 is
/// called Sub0.
#[derive(Clone, Copy, Debug, Default, PartialEq, Eq, Structural)]
pub enum MidiNote {
    #[default]
    CSub0,
    CsSub0,
    DSub0,
    DsSub0,
    ESub0,
    FSub0,
    FsSub0,
    GSub0,
    GsSub0,
    ASub0,
    AsSub0,
    BSub0,
    C0,
    Cs0,
    D0,
    Ds0,
    E0,
    F0,
    Fs0,
    G0,
    Gs0,
    A0,
    As0,
    B0,
    C1,
    Cs1,
    D1,
    Ds1,
    E1,
    F1,
    Fs1,
    G1,
    Gs1,
    A1,
    As1,
    B1,
    C2,
    Cs2,
    D2,
    Ds2,
    E2,
    F2,
    Fs2,
    G2,
    Gs2,
    A2,
    As2,
    B2,
    C3,
    Cs3,
    D3,
    Ds3,
    E3,
    F3,
    Fs3,
    G3,
    Gs3,
    A3,
    As3,
    B3,
    C4,
    Cs4,
    D4,
    Ds4,
    E4,
    F4,
    Fs4,
    G4,
    Gs4,
    A4,
    As4,
    B4,
    C5,
    Cs5,
    D5,
    Ds5,
    E5,
    F5,
    Fs5,
    G5,
    Gs5,
    A5,
    As5,
    B5,
    C6,
    Cs6,
    D6,
    Ds6,
    E6,
    F6,
    Fs6,
    G6,
    Gs6,
    A6,
    As6,
    B6,
    C7,
    Cs7,
    D7,
    Ds7,
    E7,
    F7,
    Fs7,
    G7,
    Gs7,
    A7,
    As7,
    B7,
    C8,
    Cs8,
    D8,
    Ds8,
    E8,
    F8,
    Fs8,
    G8,
    Gs8,
    A8,
    As8,
    B8,
    C9,
    Cs9,
    D9,
    Ds9,
    E9,
    F9,
    Fs9,
    G9,
}

/// The note number of `note`.
pub open spec fn note_number(note: MidiNote) -> nat {
    match note {
        MidiNote::CSub0 => 0,
        MidiNote::CsSub0 => 1,
        MidiNote::DSub0 => 2,
        MidiNote::DsSub0 => 3,
        MidiNote::ESub0 => 4,
        MidiNote::FSub0 => 5,
        MidiNote::FsSub0 => 6,
        MidiNote::GSub0 => 7,
        MidiNote::GsSub0 => 8,
        MidiNote::ASub0 => 9,
        MidiNote::AsSub0 => 10,
        MidiNote::BSub0 => 11,
        MidiNote::C0 => 12,
        MidiNote::Cs0 => 13,
        MidiNote::D0 => 14,
        MidiNote::Ds0 => 15,
        MidiNote::E0 => 16,
        MidiNote::F0 => 17,
        MidiNote::Fs0 => 18,
        MidiNote::G0 => 19,
        MidiNote::Gs0 => 20,
        MidiNote::A0 => 21,
        MidiNote::As0 => 22,
        MidiNote::B0 => 23,
        MidiNote::C1 => 24,
        MidiNote::Cs1 => 25,
        MidiNote::D1 => 26,
        MidiNote::Ds1 => 27,
        MidiNote::E1 => 28,
        MidiNote::F1 => 29,
        MidiNote::Fs1 => 30,
        MidiNote::G1 => 31,
        MidiNote::Gs1 => 32,
        MidiNote::A1 => 33,
        MidiNote::As1 => 34,
        MidiNote::B1 => 35,
        MidiNote::C2 => 36,
        MidiNote::Cs2 => 37,
        MidiNote::D2 => 38,
        MidiNote::Ds2 => 39,
        MidiNote::E2 => 40,
        MidiNote::F2 => 41,
        MidiNote::Fs2 => 42,
        MidiNote::G2 => 43,
        MidiNote::Gs2 => 44,
        MidiNote::A2 => 45,
        MidiNote::As2 => 46,
        MidiNote::B2 => 47,
        MidiNote::C3 => 48,
        MidiNote::Cs3 => 49,
        MidiNote::D3 => 50,
        MidiNote::Ds3 => 51,
        MidiNote::E3 => 52,
        MidiNote::F3 => 53,
        MidiNote::Fs3 => 54,
        MidiNote::G3 => 55,
        MidiNote::Gs3 => 56,
        MidiNote::A3 => 57,
        MidiNote::As3 => 58,
        MidiNote::B3 => 59,
        MidiNote::C4 => 60,
        MidiNote::Cs4 => 61,
        MidiNote::D4 => 62,
        MidiNote::Ds4 => 63,
        MidiNote::E4 => 64,
        MidiNote::F4 => 65,
        MidiNote::Fs4 => 66,
        MidiNote::G4 => 67,
        MidiNote::Gs4 => 68,
        MidiNote::A4 => 69,
        MidiNote::As4 => 70,
        MidiNote::B4 => 71,
        MidiNote::C5 => 72,
        MidiNote::Cs5 => 73,
        MidiNote::D5 => 74,
        MidiNote::Ds5 => 75,
        MidiNote::E5 => 76,
        MidiNote::F5 => 77,
        MidiNote::Fs5 => 78,
        MidiNote::G5 => 79,
        MidiNote::Gs5 => 80,
        MidiNote::A5 => 81,
        MidiNote::As5 => 82,
        MidiNote::B5 => 83,
        MidiNote::C6 => 84,
        MidiNote::Cs6 => 85,
        MidiNote::D6 => 86,
        MidiNote::Ds6 => 87,
        MidiNote::E6 => 88,
        MidiNote::F6 => 89,
        MidiNote::Fs6 => 90,
        MidiNote::G6 => 91,
        MidiNote::Gs6 => 92,
        MidiNote::A6 => 93,
        MidiNote::As6 => 94,
        MidiNote::B6 => 95,
        MidiNote::C7 => 96,
        MidiNote::Cs7 => 97,
        MidiNote::D7 => 98,
        MidiNote::Ds7 => 99,
        MidiNote::E7 => 100,
        MidiNote::F7 => 101,
        MidiNote::Fs7 => 102,
        MidiNote::G7 => 103,
        MidiNote::Gs7 => 104,
        MidiNote::A7 => 105,
        MidiNote::As7 => 106,
        MidiNote::B7 => 107,
        MidiNote::C8 => 108,
        MidiNote::Cs8 => 109,
        MidiNote::D8 => 110,
        MidiNote::Ds8 => 111,
        MidiNote::E8 => 112,
        MidiNote::F8 => 113,
        MidiNote::Fs8 => 114,
        MidiNote::G8 => 115,
        MidiNote::Gs8 => 116,
        MidiNote::A8 => 117,
        MidiNote::As8 => 118,
        MidiNote::B8 => 119,
        MidiNote::C9 => 120,
        MidiNote::Cs9 => 121,
        MidiNote::D9 => 122,
        MidiNote::Ds9 => 123,
        MidiNote::E9 => 124,
        MidiNote::F9 => 125,
        MidiNote::Fs9 => 126,
        MidiNote::G9 => 127,
    }
}

impl MidiNote {
    /// The lowest named note of the octave numbering.
    pub const MIN: MidiNote = MidiNote::C0;

    /// The highest MIDI note.
    pub const MAX: MidiNote = MidiNote::G9;

    /// The note with number `value`, if there is one.
    pub fn from_repr(value: usize) -> (r: Option<MidiNote>)
        ensures
            match r {
                Some(note) => note_number(note) == value,
                None => value >= 128,
            },
    {
        match value {
            0 => Some(MidiNote::CSub0),
            1 => Some(MidiNote::CsSub0),
            2 => Some(MidiNote::DSub0),
            3 => Some(MidiNote::DsSub0),
            4 => Some(MidiNote::ESub0),
            5 => Some(MidiNote::FSub0),
            6 => Some(MidiNote::FsSub0),
            7 => Some(MidiNote::GSub0),
            8 => Some(MidiNote::GsSub0),
            9 => Some(MidiNote::ASub0),
            10 => Some(MidiNote::AsSub0),
            11 => Some(MidiNote::BSub0),
            12 => Some(MidiNote::C0),
            13 => Some(MidiNote::Cs0),
            14 => Some(MidiNote::D0),
            15 => Some(MidiNote::Ds0),
            16 => Some(MidiNote::E0),
            17 => Some(MidiNote::F0),
            18 => Some(MidiNote::Fs0),
            19 => Some(MidiNote::G0),
            20 => Some(MidiNote::Gs0),
            21 => Some(MidiNote::A0),
            22 => Some(MidiNote::As0),
            23 => Some(MidiNote::B0),
            24 => Some(MidiNote::C1),
            25 => Some(MidiNote::Cs1),
            26 => Some(MidiNote::D1),
            27 => Some(MidiNote::Ds1),
            28 => Some(MidiNote::E1),
            29 => Some(MidiNote::F1),
            30 => Some(MidiNote::Fs1),
            31 => Some(MidiNote::G1),
            32 => Some(MidiNote::Gs1),
            33 => Some(MidiNote::A1),
            34 => Some(MidiNote::As1),
            35 => Some(MidiNote::B1),
            36 => Some(MidiNote::C2),
            37 => Some(MidiNote::Cs2),
            38 => Some(MidiNote::D2),
            39 => Some(MidiNote::Ds2),
            40 => Some(MidiNote::E2),
            41 => Some(MidiNote::F2),
            42 => Some(MidiNote::Fs2),
            43 => Some(MidiNote::G2),
            44 => Some(MidiNote::Gs2),
            45 => Some(MidiNote::A2),
            46 => Some(MidiNote::As2),
            47 => Some(MidiNote::B2),
            48 => Some(MidiNote::C3),
            49 => Some(MidiNote::Cs3),
            50 => Some(MidiNote::D3),
            51 => Some(MidiNote::Ds3),
            52 => Some(MidiNote::E3),
            53 => Some(MidiNote::F3),
            54 => Some(MidiNote::Fs3),
            55 => Some(MidiNote::G3),
            56 => Some(MidiNote::Gs3),
            57 => Some(MidiNote::A3),
            58 => Some(MidiNote::As3),
            59 => Some(MidiNote::B3),
            60 => Some(MidiNote::C4),
            61 => Some(MidiNote::Cs4),
            62 => Some(MidiNote::D4),
            63 => Some(MidiNote::Ds4),
            64 => Some(MidiNote::E4),
            65 => Some(MidiNote::F4),
            66 => Some(MidiNote::Fs4),
            67 => Some(MidiNote::G4),
            68 => Some(MidiNote::Gs4),
            69 => Some(MidiNote::A4),
            70 => Some(MidiNote::As4),
            71 => Some(MidiNote::B4),
            72 => Some(MidiNote::C5),
            73 => Some(MidiNote::Cs5),
            74 => Some(MidiNote::D5),
            75 => Some(MidiNote::Ds5),
            76 => Some(MidiNote::E5),
            77 => Some(MidiNote::F5),
            78 => Some(MidiNote::Fs5),
            79 => Some(MidiNote::G5),
            80 => Some(MidiNote::Gs5),
            81 => Some(MidiNote::A5),
            82 => Some(MidiNote::As5),
            83 => Some(MidiNote::B5),
            84 => Some(MidiNote::C6),
            85 => Some(MidiNote::Cs6),
            86 => Some(MidiNote::D6),
            87 => Some(MidiNote::Ds6),
            88 => Some(MidiNote::E6),
            89 => Some(MidiNote::F6),
            90 => Some(MidiNote::Fs6),
            91 => Some(MidiNote::G6),
            92 => Some(MidiNote::Gs6),
            93 => Some(MidiNote::A6),
            94 => Some(MidiNote::As6),
            95 => Some(MidiNote::B6),
            96 => Some(MidiNote::C7),
            97 => Some(MidiNote::Cs7),
            98 => Some(MidiNote::D7),
            99 => Some(MidiNote::Ds7),
            100 => Some(MidiNote::E7),
            101 => Some(MidiNote::F7),
            102 => Some(MidiNote::Fs7),
            103 => Some(MidiNote::G7),
            104 => Some(MidiNote::Gs7),
            105 => Some(MidiNote::A7),
            106 => Some(MidiNote::As7),
            107 => Some(MidiNote::B7),
            108 => Some(MidiNote::C8),
            109 => Some(MidiNote::Cs8),
            110 => Some(MidiNote::D8),
            111 => Some(MidiNote::Ds8),
            112 => Some(MidiNote::E8),
            113 => Some(MidiNote::F8),
            114 => Some(MidiNote::Fs8),
            115 => Some(MidiNote::G8),
            116 => Some(MidiNote::Gs8),
            117 => Some(MidiNote::A8),
            118 => Some(MidiNote::As8),
            119 => Some(MidiNote::B8),
            120 => Some(MidiNote::C9),
            121 => Some(MidiNote::Cs9),
            122 => Some(MidiNote::D9),
            123 => Some(MidiNote::Ds9),
            124 => Some(MidiNote::E9),
            125 => Some(MidiNote::F9),
            126 => Some(MidiNote::Fs9),
            127 => Some(MidiNote::G9),
            _ => None,
        }
    }

    /// The MIDI note number.
    pub fn number(&self) -> (r: u8)
        ensures
            r as nat == note_number(*self),
    {
        match self {
            MidiNote::CSub0 => 0,
            MidiNote::CsSub0 => 1,
            MidiNote::DSub0 => 2,
            MidiNote::DsSub0 => 3,
            MidiNote::ESub0 => 4,
            MidiNote::FSub0 => 5,
            MidiNote::FsSub0 => 6,
            MidiNote::GSub0 => 7,
            MidiNote::GsSub0 => 8,
            MidiNote::ASub0 => 9,
            MidiNote::AsSub0 => 10,
            MidiNote::BSub0 => 11,
            MidiNote::C0 => 12,
            MidiNote::Cs0 => 13,
            MidiNote::D0 => 14,
            MidiNote::Ds0 => 15,
            MidiNote::E0 => 16,
            MidiNote::F0 => 17,
            MidiNote::Fs0 => 18,
            MidiNote::G0 => 19,
            MidiNote::Gs0 => 20,
            MidiNote::A0 => 21,
            MidiNote::As0 => 22,
            MidiNote::B0 => 23,
            MidiNote::C1 => 24,
            MidiNote::Cs1 => 25,
            MidiNote::D1 => 26,
            MidiNote::Ds1 => 27,
            MidiNote::E1 => 28,
            MidiNote::F1 => 29,
            MidiNote::Fs1 => 30,
            MidiNote::G1 => 31,
            MidiNote::Gs1 => 32,
            MidiNote::A1 => 33,
            MidiNote::As1 => 34,
            MidiNote::B1 => 35,
            MidiNote::C2 => 36,
            MidiNote::Cs2 => 37,
            MidiNote::D2 => 38,
            MidiNote::Ds2 => 39,
            MidiNote::E2 => 40,
            MidiNote::F2 => 41,
            MidiNote::Fs2 => 42,
            MidiNote::G2 => 43,
            MidiNote::Gs2 => 44,
            MidiNote::A2 => 45,
            MidiNote::As2 => 46,
            MidiNote::B2 => 47,
            MidiNote::C3 => 48,
            MidiNote::Cs3 => 49,
            MidiNote::D3 => 50,
            MidiNote::Ds3 => 51,
            MidiNote::E3 => 52,
            MidiNote::F3 => 53,
            MidiNote::Fs3 => 54,
            MidiNote::G3 => 55,
            MidiNote::Gs3 => 56,
            MidiNote::A3 => 57,
            MidiNote::As3 => 58,
            MidiNote::B3 => 59,
            MidiNote::C4 => 60,
            MidiNote::Cs4 => 61,
            MidiNote::D4 => 62,
            MidiNote::Ds4 => 63,
            MidiNote::E4 => 64,
            MidiNote::F4 => 65,
            MidiNote::Fs4 => 66,
            MidiNote::G4 => 67,
            MidiNote::Gs4 => 68,
            MidiNote::A4 => 69,
            MidiNote::As4 => 70,
            MidiNote::B4 => 71,
            MidiNote::C5 => 72,
            MidiNote::Cs5 => 73,
            MidiNote::D5 => 74,
            MidiNote::Ds5 => 75,
            MidiNote::E5 => 76,
            MidiNote::F5 => 77,
            MidiNote::Fs5 => 78,
            MidiNote::G5 => 79,
            MidiNote::Gs5 => 80,
            MidiNote::A5 => 81,
            MidiNote::As5 => 82,
            MidiNote::B5 => 83,
            MidiNote::C6 => 84,
            MidiNote::Cs6 => 85,
            MidiNote::D6 => 86,
            MidiNote::Ds6 => 87,
            MidiNote::E6 => 88,
            MidiNote::F6 => 89,
            MidiNote::Fs6 => 90,
            MidiNote::G6 => 91,
            MidiNote::Gs6 => 92,
            MidiNote::A6 => 93,
            MidiNote::As6 => 94,
            MidiNote::B6 => 95,
            MidiNote::C7 => 96,
            MidiNote::Cs7 => 97,
            MidiNote::D7 => 98,
            MidiNote::Ds7 => 99,
            MidiNote::E7 => 100,
            MidiNote::F7 => 101,
            MidiNote::Fs7 => 102,
            MidiNote::G7 => 103,
            MidiNote::Gs7 => 104,
            MidiNote::A7 => 105,
            MidiNote::As7 => 106,
            MidiNote::B7 => 107,
            MidiNote::C8 => 108,
            MidiNote::Cs8 => 109,
            MidiNote::D8 => 110,
            MidiNote::Ds8 => 111,
            MidiNote::E8 => 112,
            MidiNote::F8 => 113,
            MidiNote::Fs8 => 114,
            MidiNote::G8 => 115,
            MidiNote::Gs8 => 116,
            MidiNote::A8 => 117,
            MidiNote::As8 => 118,
            MidiNote::B8 => 119,
            MidiNote::C9 => 120,
            MidiNote::Cs9 => 121,
            MidiNote::D9 => 122,
            MidiNote::Ds9 => 123,
            MidiNote::E9 => 124,
            MidiNote::F9 => 125,
            MidiNote::Fs9 => 126,
            MidiNote::G9 => 127,
        }
    }
}

/// The General MIDI instruments, in program-number order from 0.
#[derive(Clone, Copy, Debug, PartialEq, Eq, Structural)]
pub enum GeneralMidiProgram {
    AcousticGrand,
    BrightAcoustic,
    ElectricGrand,
    HonkyTonk,
    ElectricPiano1,
    ElectricPiano2,
    Harpsichord,
    Clav,
    Celesta,
    Glockenspiel,
    MusicBox,
    Vibraphone,
    Marimba,
    Xylophone,
    TubularBells,
    Dulcimer,
    DrawbarOrgan,
    PercussiveOrgan,
    RockOrgan,
    ChurchOrgan,
    ReedOrgan,
    Accordion,
    Harmonica,
    TangoAccordion,
    AcousticGuitarNylon,
    AcousticGuitarSteel,
    ElectricGuitarJazz,
    ElectricGuitarClean,
    ElectricGuitarMuted,
    OverdrivenGuitar,
    DistortionGuitar,
    GuitarHarmonics,
    AcousticBass,
    ElectricBassFinger,
    ElectricBassPick,
    FretlessBass,
    SlapBass1,
    SlapBass2,
    SynthBass1,
    SynthBass2,
    Violin,
    Viola,
    Cello,
    Contrabass,
    TremoloStrings,
    PizzicatoStrings,
    OrchestralHarp,
    Timpani,
    StringEnsemble1,
    StringEnsemble2,
    Synthstrings1,
    Synthstrings2,
    ChoirAahs,
    VoiceOohs,
    SynthVoice,
    OrchestraHit,
    Trumpet,
    Trombone,
    Tuba,
    MutedTrumpet,
    FrenchHorn,
    BrassSection,
    Synthbrass1,
    Synthbrass2,
    SopranoSax,
    AltoSax,
    TenorSax,
    BaritoneSax,
    Oboe,
    EnglishHorn,
    Bassoon,
    Clarinet,
    Piccolo,
    Flute,
    Recorder,
    PanFlute,
    BlownBottle,
    Shakuhachi,
    Whistle,
    Ocarina,
    Lead1Square,
    Lead2Sawtooth,
    Lead3Calliope,
    Lead4Chiff,
    Lead5Charang,
    Lead6Voice,
    Lead7Fifths,
    Lead8BassLead,
    Pad1NewAge,
    Pad2Warm,
    Pad3Polysynth,
    Pad4Choir,
    Pad5Bowed,
    Pad6Metallic,
    Pad7Halo,
    Pad8Sweep,
    Fx1Rain,
    Fx2Soundtrack,
    Fx3Crystal,
    Fx4Atmosphere,
    Fx5Brightness,
    Fx6Goblins,
    Fx7Echoes,
    Fx8SciFi,
    Sitar,
    Banjo,
    Shamisen,
    Koto,
    Kalimba,
    Bagpipe,
    Fiddle,
    Shanai,
    TinkleBell,
    Agogo,
    SteelDrums,
    Woodblock,
    TaikoDrum,
    MelodicTom,
    SynthDrum,
    ReverseCymbal,
    GuitarFretNoise,
    BreathNoise,
    Seashore,
    BirdTweet,
    TelephoneRing,
    Helicopter,
    Applause,
    Gunshot,
}

/// The General MIDI percussion instruments, in key order from key 35.
#[derive(Clone, Copy, Debug, PartialEq, Eq, Structural)]
pub enum GeneralMidiPercussionProgram {
    AcousticBassDrum,
    ElectricBassDrum,
    SideStick,
    AcousticSnare,
    HandClap,
    ElectricSnare,
    LowFloorTom,
    ClosedHiHat,
    HighFloorTom,
    PedalHiHat,
    LowTom,
    OpenHiHat,
    LowMidTom,
    HiMidTom,
    CrashCymbal1,
    HighTom,
    RideCymbal1,
    ChineseCymbal,
    RideBell,
    Tambourine,
    SplashCymbal,
    Cowbell,
    CrashCymbal2,
    Vibraslap,
    RideCymbal2,
    HighBongo,
    LowBongo,
    MuteHighConga,
    OpenHighConga,
    LowConga,
    HighTimbale,
    LowTimbale,
    HighAgogo,
    LowAgogo,
    Cabasa,
    Maracas,
    ShortWhistle,
    LongWhistle,
    ShortGuiro,
    LongGuiro,
    Claves,
    HighWoodblock,
    LowWoodblock,
    MuteCuica,
    OpenCuica,
    MuteTriangle,
    OpenTriangle,
}

/// The key that plays `program` on the percussion channel.
pub open spec fn percussion_key(program: GeneralMidiPercussionProgram) -> u8 {
    match program {
        GeneralMidiPercussionProgram::AcousticBassDrum => 35,
        GeneralMidiPercussionProgram::ElectricBassDrum => 36,
        GeneralMidiPercussionProgram::SideStick => 37,
        GeneralMidiPercussionProgram::AcousticSnare => 38,
        GeneralMidiPercussionProgram::HandClap => 39,
        GeneralMidiPercussionProgram::ElectricSnare => 40,
        GeneralMidiPercussionProgram::LowFloorTom => 41,
        GeneralMidiPercussionProgram::ClosedHiHat => 42,
        GeneralMidiPercussionProgram::HighFloorTom => 43,
        GeneralMidiPercussionProgram::PedalHiHat => 44,
        GeneralMidiPercussionProgram::LowTom => 45,
        GeneralMidiPercussionProgram::OpenHiHat => 46,
        GeneralMidiPercussionProgram::LowMidTom => 47,
        GeneralMidiPercussionProgram::HiMidTom => 48,
        GeneralMidiPercussionProgram::CrashCymbal1 => 49,
        GeneralMidiPercussionProgram::HighTom => 50,
        GeneralMidiPercussionProgram::RideCymbal1 => 51,
        GeneralMidiPercussionProgram::ChineseCymbal => 52,
        GeneralMidiPercussionProgram::RideBell => 53,
        GeneralMidiPercussionProgram::Tambourine => 54,
        GeneralMidiPercussionProgram::SplashCymbal => 55,
        GeneralMidiPercussionProgram::Cowbell => 56,
        GeneralMidiPercussionProgram::CrashCymbal2 => 57,
        GeneralMidiPercussionProgram::Vibraslap => 58,
        GeneralMidiPercussionProgram::RideCymbal2 => 59,
        GeneralMidiPercussionProgram::HighBongo => 60,
        GeneralMidiPercussionProgram::LowBongo => 61,
        GeneralMidiPercussionProgram::MuteHighConga => 62,
        GeneralMidiPercussionProgram::OpenHighConga => 63,
        GeneralMidiPercussionProgram::LowConga => 64,
        GeneralMidiPercussionProgram::HighTimbale => 65,
        GeneralMidiPercussionProgram::LowTimbale => 66,
        GeneralMidiPercussionProgram::HighAgogo => 67,
        GeneralMidiPercussionProgram::LowAgogo => 68,
        GeneralMidiPercussionProgram::Cabasa => 69,
        GeneralMidiPercussionProgram::Maracas => 70,
        GeneralMidiPercussionProgram::ShortWhistle => 71,
        GeneralMidiPercussionProgram::LongWhistle => 72,
        GeneralMidiPercussionProgram::ShortGuiro => 73,
        GeneralMidiPercussionProgram::LongGuiro => 74,
        GeneralMidiPercussionProgram::Claves => 75,
        GeneralMidiPercussionProgram::HighWoodblock => 76,
        GeneralMidiPercussionProgram::LowWoodblock => 77,
        GeneralMidiPercussionProgram::MuteCuica => 78,
        GeneralMidiPercussionProgram::OpenCuica => 79,
        GeneralMidiPercussionProgram::MuteTriangle => 80,
        GeneralMidiPercussionProgram::OpenTriangle => 81,
    }
}

impl GeneralMidiPercussionProgram {
    /// The key that plays this instrument on the percussion channel.
    pub fn key(&self) -> (r: u8)
        ensures
            r == percussion_key(*self),
    {
        match self {
            GeneralMidiPercussionProgram::AcousticBassDrum => 35,
            GeneralMidiPercussionProgram::ElectricBassDrum => 36,
            GeneralMidiPercussionProgram::SideStick => 37,
            GeneralMidiPercussionProgram::AcousticSnare => 38,
            GeneralMidiPercussionProgram::HandClap => 39,
            GeneralMidiPercussionProgram::ElectricSnare => 40,
            GeneralMidiPercussionProgram::LowFloorTom => 41,
            GeneralMidiPercussionProgram::ClosedHiHat => 42,
            GeneralMidiPercussionProgram::HighFloorTom => 43,
            GeneralMidiPercussionProgram::PedalHiHat => 44,
            GeneralMidiPercussionProgram::LowTom => 45,
            GeneralMidiPercussionProgram::OpenHiHat => 46,
            GeneralMidiPercussionProgram::LowMidTom => 47,
            GeneralMidiPercussionProgram::HiMidTom => 48,
            GeneralMidiPercussionProgram::CrashCymbal1 => 49,
            GeneralMidiPercussionProgram::HighTom => 50,
            GeneralMidiPercussionProgram::RideCymbal1 => 51,
            GeneralMidiPercussionProgram::ChineseCymbal => 52,
            GeneralMidiPercussionProgram::RideBell => 53,
            GeneralMidiPercussionProgram::Tambourine => 54,
            GeneralMidiPercussionProgram::SplashCymbal => 55,
            GeneralMidiPercussionProgram::Cowbell => 56,
            GeneralMidiPercussionProgram::CrashCymbal2 => 57,
            GeneralMidiPercussionProgram::Vibraslap => 58,
            GeneralMidiPercussionProgram::RideCymbal2 => 59,
            GeneralMidiPercussionProgram::HighBongo => 60,
            GeneralMidiPercussionProgram::LowBongo => 61,
            GeneralMidiPercussionProgram::MuteHighConga => 62,
            GeneralMidiPercussionProgram::OpenHighConga => 63,
            GeneralMidiPercussionProgram::LowConga => 64,
            GeneralMidiPercussionProgram::HighTimbale => 65,
            GeneralMidiPercussionProgram::LowTimbale => 66,
            GeneralMidiPercussionProgram::HighAgogo => 67,
            GeneralMidiPercussionProgram::LowAgogo => 68,
            GeneralMidiPercussionProgram::Cabasa => 69,
            GeneralMidiPercussionProgram::Maracas => 70,
            GeneralMidiPercussionProgram::ShortWhistle => 71,
            GeneralMidiPercussionProgram::LongWhistle => 72,
            GeneralMidiPercussionProgram::ShortGuiro => 73,
            GeneralMidiPercussionProgram::LongGuiro => 74,
            GeneralMidiPercussionProgram::Claves => 75,
            GeneralMidiPercussionProgram::HighWoodblock => 76,
            GeneralMidiPercussionProgram::LowWoodblock => 77,
            GeneralMidiPercussionProgram::MuteCuica => 78,
            GeneralMidiPercussionProgram::OpenCuica => 79,
            GeneralMidiPercussionProgram::MuteTriangle => 80,
            GeneralMidiPercussionProgram::OpenTriangle => 81,
        }
    }
}

} // verus!
