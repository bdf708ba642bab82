//! Instruments: a bank of oscillators, an envelope, a volume and an optional
//! lifetime, and the sample that such a combination gives for a note.

use vstd::prelude::*;
use crate::envelope::EnvelopeADSR;
use crate::fixed::{clip, fx_mul, saturate, times, ONE};
use crate::noise_maker::{Note, WaveType};
use crate::tuning::{lemma_frequency_bounds, spec_transpose, transpose};

verus! {

/// One oscillator of an instrument: its share of the mix, its pitch as an
/// offset in semitones from the note played, its waveform, and the rate (in
/// millionths of a hertz) and depth (in millionths) of its vibrato.
#[derive(Clone, Copy, PartialEq, Eq, Structural, Debug)]
pub struct OscillatorConfig {
    pub weight: i64,
    pub note_offset: i8,
    pub wave: WaveType,
    pub lfo_hertz: i64,
    pub lfo_amplitude: i64,
}

impl std::default::Default for OscillatorConfig {
    /// A sine at the pitch of the note, at full weight, without vibrato.
    fn default() -> (config: Self)
        ensures
            config == plain_oscillator(),
    {
        Self { weight: ONE, note_offset: 0, wave: WaveType::Sine, lfo_hertz: 0, lfo_amplitude: 0 }
    }
}

/// A sine at the pitch of the note, at full weight, without vibrato.
pub open spec fn plain_oscillator() -> OscillatorConfig {
    OscillatorConfig {
        weight: ONE,
        note_offset: 0,
        wave: WaveType::Sine,
        lfo_hertz: 0,
        lfo_amplitude: 0,
    }
}

/// The point at which the waveform of one oscillator is to be evaluated for
/// one sample: the time in ticks, which is the note's start less the current
/// time; the frequency in millionths of a hertz; the waveform; and the
/// vibrato.
#[derive(Clone, Copy, PartialEq, Eq, Structural, Debug)]
pub struct OscillatorInput {
    pub ticks: i128,
    pub frequency: u64,
    pub wave: WaveType,
    pub lfo_hertz: i64,
    pub lfo_amplitude: i64,
}

/// What the oscillator `config` is to be evaluated at for `note` at time `dt`.
pub open spec fn oscillator_input(config: OscillatorConfig, dt: u64, note: Note) -> OscillatorInput {
    OscillatorInput {
        ticks: (note.on - dt) as i128,
        frequency: spec_transpose(note.id, config.note_offset) as u64,
        wave: config.wave,
        lfo_hertz: config.lfo_hertz,
        lfo_amplitude: config.lfo_amplitude,
    }
}

/// The level of oscillator `j`; an oscillator for which no level is given is
/// silent.
pub open spec fn level_at(levels: Seq<i64>, j: int) -> int {
    if 0 <= j < levels.len() {
        levels[j] as int
    } else {
        0
    }
}

/// The weighted levels of the first `count` oscillators of `bank`, added up.
pub open spec fn bank_sum(bank: Seq<OscillatorConfig>, levels: Seq<i64>, count: int) -> int
    decreases count,
{
    if count <= 0 {
        0
    } else {
        bank_sum(bank, levels, count - 1) + fx_mul(
            bank[count - 1].weight as int,
            level_at(levels, count - 1),
        )
    }
}

/// The sample of a note: the envelope's amplitude, times the weighted sum of
/// the oscillator levels, times the volume.
pub open spec fn voice_sample(
    env: EnvelopeADSR,
    bank: Seq<OscillatorConfig>,
    gain: i64,
    dt: u64,
    note: Note,
    levels: Seq<i64>,
) -> int {
    fx_mul(
        fx_mul(
            env.spec_amplitude(dt as int, note.on as int, note.off as int),
            clip(bank_sum(bank, levels, bank.len() as int)),
        ),
        gain as int,
    )
}

/// The note has outlived the instrument's lifetime, if it has one.
pub open spec fn hard_cutoff(lifetime: Option<u64>, dt: u64, note: Note) -> bool {
    match lifetime {
        Some(cap) => dt - note.on >= cap,
        None => false,
    }
}

/// A timbre. The four descriptions say what the instrument is made of; the
/// four getters hand the same out; `play_note` renders a note with them.
pub trait Instrument {
    /// The oscillators.
    spec fn bank(&self) -> Seq<OscillatorConfig>;

    /// The envelope.
    spec fn adsr(&self) -> EnvelopeADSR;

    /// The volume, in millionths.
    spec fn gain(&self) -> i64;

    /// The number of ticks after which a note is cut off, if any.
    spec fn lifetime(&self) -> Option<u64>;

    fn oscillators(&self) -> (bank: Vec<OscillatorConfig>)
        ensures
            bank@ == self.bank(),
    ;

    fn envelope(&self) -> (env: EnvelopeADSR)
        ensures
            env == self.adsr(),
    ;

    fn volume(&self) -> (gain: i64)
        ensures
            gain == self.gain(),
    ;

    fn max_lifetime(&self) -> (cap: Option<u64>)
        ensures
            cap == self.lifetime(),
    ;

    /// What each oscillator is to be evaluated at for `note` at time `dt`, in
    /// the order of the bank.
    fn oscillator_inputs(&self, dt: u64, note: &Note) -> (inputs: Vec<OscillatorInput>)
        ensures
            inputs@.len() == self.bank().len(),
            forall|j: int|
                0 <= j < inputs@.len() ==> inputs@[j] == oscillator_input(
                    self.bank()[j],
                    dt,
                    *note,
                ),
    {
        let bank = self.oscillators();
        let mut inputs: Vec<OscillatorInput> = Vec::new();
        let mut j: usize = 0;
        while j < bank.len()
            invariant
                j <= bank.len(),
                bank@ == self.bank(),
                inputs@.len() == j,
                forall|k: int|
                    0 <= k < j ==> inputs@[k] == oscillator_input(self.bank()[k], dt, *note),
            decreases bank.len() - j,
        {
            let config: OscillatorConfig = bank[j];
            proof {
                lemma_frequency_bounds(note.id, config.note_offset);
            }
            inputs.push(
                OscillatorInput {
                    ticks: note.on as i128 - dt as i128,
                    frequency: transpose(note.id, config.note_offset),
                    wave: config.wave,
                    lfo_hertz: config.lfo_hertz,
                    lfo_amplitude: config.lfo_amplitude,
                },
            );
            j += 1;
        }
        inputs
    }

    /// The sample of `note` at time `dt`, given the level of each oscillator,
    /// and whether the note has outlived the instrument's lifetime.
    fn play_note(&self, dt: u64, note: &Note, levels: &Vec<i64>) -> (out: (i64, bool))
        ensures
            out.0 == voice_sample(self.adsr(), self.bank(), self.gain(), dt, *note, levels@),
            out.1 == hard_cutoff(self.lifetime(), dt, *note),
    {
        let amplitude: u32 = self.envelope().amplitude(dt, note.on, note.off);
        let finished: bool = match self.max_lifetime() {
            Some(cap) => dt >= note.on && dt - note.on >= cap,
            None => false,
        };
        let bank = self.oscillators();
        let mut acc: i128 = 0;
        let mut j: usize = 0;
        while j < bank.len()
            invariant
                j <= bank.len(),
                acc == bank_sum(bank@, levels@, j as int),
                -0x8000_0000_0000_0000 * j <= acc <= 0x8000_0000_0000_0000 * j,
            decreases bank.len() - j,
        {
            let level: i64 = if j < levels.len() {
                levels[j]
            } else {
                0
            };
            let term: i64 = times(bank[j].weight, level);
            acc = acc + term as i128;
            j += 1;
        }
        let mixed: i64 = saturate(acc);
        let sound: i64 = times(times(amplitude as i64, mixed), self.volume());
        (sound, finished)
    }
}

/// The plain instrument: one sine at the pitch of the note, the default
/// envelope, full volume and no lifetime.
pub struct Default {}

impl Default {
    /// The plain instrument. It holds nothing: what it is made of is the same
    /// for every value of the type.
    pub fn new() -> (instrument: Self)
        ensures
            instrument.bank() == seq![plain_oscillator()],
            instrument.adsr() == default_envelope(),
            instrument.gain() == ONE,
            instrument.lifetime() == None::<u64>,
    {
        Self {}
    }
}

/// The envelope of the plain instrument: 0.1 s of attack and of decay, full
/// start and sustain amplitude, 0.2 s of release.
pub open spec fn default_envelope() -> EnvelopeADSR {
    EnvelopeADSR {
        attack_time: 4_800,
        decay_time: 4_800,
        sustain_amplitude: 1_000_000,
        release_time: 9_600,
        start_amplitude: 1_000_000,
    }
}

impl Instrument for Default {
    open spec fn bank(&self) -> Seq<OscillatorConfig> {
        seq![plain_oscillator()]
    }

    open spec fn adsr(&self) -> EnvelopeADSR {
        default_envelope()
    }

    open spec fn gain(&self) -> i64 {
        ONE
    }

    open spec fn lifetime(&self) -> Option<u64> {
        None
    }

    fn oscillators(&self) -> (bank: Vec<OscillatorConfig>) {
        vec![OscillatorConfig::default()]
    }

    fn envelope(&self) -> (env: EnvelopeADSR) {
        EnvelopeADSR::default()
    }

    fn volume(&self) -> (gain: i64) {
        ONE
    }

    fn max_lifetime(&self) -> (cap: Option<u64>) {
        None
    }
}

/// The oscillators of both bells: three sines one, two and three octaves
/// above the note, each at half the weight of the one below, the lowest with a
/// slow vibrato.
pub open spec fn bell_bank() -> Seq<OscillatorConfig> {
    seq![
        OscillatorConfig {
            weight: 1_000_000,
            note_offset: 12,
            wave: WaveType::Sine,
            lfo_hertz: 1_000,
            lfo_amplitude: 5_000_000,
        },
        OscillatorConfig {
            weight: 500_000,
            note_offset: 24,
            wave: WaveType::Sine,
            lfo_hertz: 0,
            lfo_amplitude: 0,
        },
        OscillatorConfig {
            weight: 250_000,
            note_offset: 36,
            wave: WaveType::Sine,
            lfo_hertz: 0,
            lfo_amplitude: 0,
        },
    ]
}

/// Builds the oscillators of the bells.
fn make_bell_bank() -> (bank: Vec<OscillatorConfig>)
    ensures
        bank@ == bell_bank(),
{
    let bank = vec![
        OscillatorConfig {
            weight: 1_000_000,
            note_offset: 12,
            wave: WaveType::Sine,
            lfo_hertz: 1_000,
            lfo_amplitude: 5_000_000,
        },
        OscillatorConfig { weight: 500_000, note_offset: 24, ..OscillatorConfig::default() },
        OscillatorConfig { weight: 250_000, note_offset: 36, ..OscillatorConfig::default() },
    ];
    assert(bank@ =~= bell_bank());
    bank
}

/// The envelope of the bell: 0.01 s of attack, one second of decay down to
/// silence, one second of release.
pub open spec fn bell_envelope() -> EnvelopeADSR {
    EnvelopeADSR {
        attack_time: 480,
        decay_time: 48_000,
        sustain_amplitude: 0,
        release_time: 48_000,
        start_amplitude: 1_000_000,
    }
}

/// A bell: struck, then dying away.
pub struct Bell {
    oscillators: Vec<OscillatorConfig>,
    env: EnvelopeADSR,
}

impl Bell {
    #[verifier::type_invariant]
    spec fn well_formed(self) -> bool {
        self.oscillators@ == bell_bank() && self.env == bell_envelope()
    }

    /// Builds the bell: it holds the three oscillators of the bells and the
    /// bell's envelope.
    pub fn new() -> (instrument: Self)
        ensures
            instrument.bank() == bell_bank(),
            instrument.adsr() == bell_envelope(),
            instrument.gain() == ONE,
            instrument.lifetime() == None::<u64>,
    {
        Self {
            env: EnvelopeADSR {
                attack_time: 480,
                decay_time: 48_000,
                sustain_amplitude: 0,
                release_time: 48_000,
                ..EnvelopeADSR::default()
            },
            oscillators: make_bell_bank(),
        }
    }
}

impl Instrument for Bell {
    /// The oscillators that this value holds.
    closed spec fn bank(&self) -> Seq<OscillatorConfig> {
        self.oscillators@
    }

    /// The envelope that this value holds.
    closed spec fn adsr(&self) -> EnvelopeADSR {
        self.env
    }

    open spec fn gain(&self) -> i64 {
        ONE
    }

    open spec fn lifetime(&self) -> Option<u64> {
        None
    }

    fn oscillators(&self) -> (bank: Vec<OscillatorConfig>)
        ensures
            bank@ == bell_bank(),
    {
        proof {
            use_type_invariant(self);
        }
        self.oscillators.clone()
    }

    fn envelope(&self) -> (env: EnvelopeADSR)
        ensures
            env == bell_envelope(),
    {
        proof {
            use_type_invariant(self);
        }
        self.env
    }

    fn volume(&self) -> (gain: i64) {
        ONE
    }

    fn max_lifetime(&self) -> (cap: Option<u64>) {
        None
    }
}

/// The envelope of the held bell: that of the bell, but sustained at 0.8.
pub open spec fn bell8_envelope() -> EnvelopeADSR {
    EnvelopeADSR {
        attack_time: 480,
        decay_time: 48_000,
        sustain_amplitude: 800_000,
        release_time: 48_000,
        start_amplitude: 1_000_000,
    }
}

/// A bell that keeps sounding while the key is down.
pub struct Bell8 {
    oscillators: Vec<OscillatorConfig>,
    env: EnvelopeADSR,
}

impl Bell8 {
    #[verifier::type_invariant]
    spec fn well_formed(self) -> bool {
        self.oscillators@ == bell_bank() && self.env == bell8_envelope()
    }

    /// Builds the held bell: it holds the three oscillators of the bells and
    /// the held bell's envelope.
    pub fn new() -> (instrument: Self)
        ensures
            instrument.bank() == bell_bank(),
            instrument.adsr() == bell8_envelope(),
            instrument.gain() == ONE,
            instrument.lifetime() == None::<u64>,
    {
        Self {
            env: EnvelopeADSR {
                attack_time: 480,
                decay_time: 48_000,
                sustain_amplitude: 800_000,
                release_time: 48_000,
                ..EnvelopeADSR::default()
            },
            oscillators: make_bell_bank(),
        }
    }
}

impl Instrument for Bell8 {
    /// The oscillators that this value holds.
    closed spec fn bank(&self) -> Seq<OscillatorConfig> {
        self.oscillators@
    }

    /// The envelope that this value holds.
    closed spec fn adsr(&self) -> EnvelopeADSR {
        self.env
    }

    open spec fn gain(&self) -> i64 {
        ONE
    }

    open spec fn lifetime(&self) -> Option<u64> {
        None
    }

    fn oscillators(&self) -> (bank: Vec<OscillatorConfig>)
        ensures
            bank@ == bell_bank(),
    {
        proof {
            use_type_invariant(self);
        }
        self.oscillators.clone()
    }

    fn envelope(&self) -> (env: EnvelopeADSR)
        ensures
            env == bell8_envelope(),
    {
        proof {
            use_type_invariant(self);
        }
        self.env
    }

    fn volume(&self) -> (gain: i64) {
        ONE
    }

    fn max_lifetime(&self) -> (cap: Option<u64>) {
        None
    }
}

/// The oscillators of the harmonica: a square wave at the pitch of the note
/// with a slow vibrato, a square wave an octave above at half the weight, and
/// noise two octaves above at a quarter.
pub open spec fn harmonica_bank() -> Seq<OscillatorConfig> {
    seq![
        OscillatorConfig {
            weight: 1_000_000,
            note_offset: 0,
            wave: WaveType::Square,
            lfo_hertz: 1_000,
            lfo_amplitude: 5_000_000,
        },
        OscillatorConfig {
            weight: 500_000,
            note_offset: 12,
            wave: WaveType::Square,
            lfo_hertz: 0,
            lfo_amplitude: 0,
        },
        OscillatorConfig {
            weight: 250_000,
            note_offset: 24,
            wave: WaveType::Noise,
            lfo_hertz: 0,
            lfo_amplitude: 0,
        },
    ]
}

/// The envelope of the harmonica: 0.05 s of attack, one second of decay to
/// 0.95, 0.1 s of release.
pub open spec fn harmonica_envelope() -> EnvelopeADSR {
    EnvelopeADSR {
        attack_time: 2_400,
        decay_time: 48_000,
        sustain_amplitude: 950_000,
        release_time: 4_800,
        start_amplitude: 1_000_000,
    }
}

/// A harmonica: a sustained reed with some breath in it.
pub struct Harmonica {
    oscillators: Vec<OscillatorConfig>,
    env: EnvelopeADSR,
}

impl Harmonica {
    #[verifier::type_invariant]
    spec fn well_formed(self) -> bool {
        self.oscillators@ == harmonica_bank() && self.env == harmonica_envelope()
    }

    /// Builds the harmonica: it holds the harmonica's three oscillators and
    /// its envelope.
    pub fn new() -> (instrument: Self)
        ensures
            instrument.bank() == harmonica_bank(),
            instrument.adsr() == harmonica_envelope(),
            instrument.gain() == ONE,
            instrument.lifetime() == None::<u64>,
    {
        let oscillators = vec![
            OscillatorConfig {
                weight: 1_000_000,
                note_offset: 0,
                wave: WaveType::Square,
                lfo_hertz: 1_000,
                lfo_amplitude: 5_000_000,
            },
            OscillatorConfig {
                weight: 500_000,
                note_offset: 12,
                wave: WaveType::Square,
                ..OscillatorConfig::default()
            },
            OscillatorConfig {
                weight: 250_000,
                note_offset: 24,
                wave: WaveType::Noise,
                ..OscillatorConfig::default()
            },
        ];
        assert(oscillators@ =~= harmonica_bank());
        Self {
            env: EnvelopeADSR {
                attack_time: 2_400,
                decay_time: 48_000,
                sustain_amplitude: 950_000,
                release_time: 4_800,
                ..EnvelopeADSR::default()
            },
            oscillators,
        }
    }
}

impl Instrument for Harmonica {
    /// The oscillators that this value holds.
    closed spec fn bank(&self) -> Seq<OscillatorConfig> {
        self.oscillators@
    }

    /// The envelope that this value holds.
    closed spec fn adsr(&self) -> EnvelopeADSR {
        self.env
    }

    open spec fn gain(&self) -> i64 {
        ONE
    }

    open spec fn lifetime(&self) -> Option<u64> {
        None
    }

    fn oscillators(&self) -> (bank: Vec<OscillatorConfig>)
        ensures
            bank@ == harmonica_bank(),
    {
        proof {
            use_type_invariant(self);
        }
        self.oscillators.clone()
    }

    fn envelope(&self) -> (env: EnvelopeADSR)
        ensures
            env == harmonica_envelope(),
    {
        proof {
            use_type_invariant(self);
        }
        self.env
    }

    fn volume(&self) -> (gain: i64) {
        ONE
    }

    fn max_lifetime(&self) -> (cap: Option<u64>) {
        None
    }
}

/// The oscillators of the kick drum: a sine three octaves below the note with
/// a vibrato of one hertz, and a trace of noise.
pub open spec fn drum_kick_bank() -> Seq<OscillatorConfig> {
    seq![
        OscillatorConfig {
            weight: 990_000,
            note_offset: -36i8,
            wave: WaveType::Sine,
            lfo_hertz: 1_000_000,
            lfo_amplitude: 1_000_000,
        },
        OscillatorConfig {
            weight: 10_000,
            note_offset: 0,
            wave: WaveType::Noise,
            lfo_hertz: 0,
            lfo_amplitude: 0,
        },
    ]
}

/// The envelope of the kick drum: 0.01 s of attack, 0.15 s of decay down to
/// silence, no release.
pub open spec fn drum_kick_envelope() -> EnvelopeADSR {
    EnvelopeADSR {
        attack_time: 480,
        decay_time: 7_200,
        sustain_amplitude: 0,
        release_time: 0,
        start_amplitude: 1_000_000,
    }
}

/// The lifetime of a kick: a second and a half.
pub const DRUM_KICK_LIFETIME: u64 = 72_000;

/// A kick drum: a short thump, cut off after its lifetime whatever the key
/// does.
pub struct DrumKick {
    oscillators: Vec<OscillatorConfig>,
    env: EnvelopeADSR,
    max_lifetime: u64,
}

impl DrumKick {
    #[verifier::type_invariant]
    spec fn well_formed(self) -> bool {
        self.oscillators@ == drum_kick_bank() && self.env == drum_kick_envelope()
            && self.max_lifetime == DRUM_KICK_LIFETIME
    }

    /// Builds the kick drum: it holds the kick's two oscillators, its envelope
    /// and its lifetime.
    pub fn new() -> (instrument: Self)
        ensures
            instrument.bank() == drum_kick_bank(),
            instrument.adsr() == drum_kick_envelope(),
            instrument.gain() == ONE,
            instrument.lifetime() == Some(DRUM_KICK_LIFETIME),
    {
        let oscillators = vec![
            OscillatorConfig {
                weight: 990_000,
                note_offset: -36,
                wave: WaveType::Sine,
                lfo_hertz: 1_000_000,
                lfo_amplitude: 1_000_000,
            },
            OscillatorConfig {
                weight: 10_000,
                note_offset: 0,
                wave: WaveType::Noise,
                ..OscillatorConfig::default()
            },
        ];
        assert(oscillators@ =~= drum_kick_bank());
        Self {
            env: EnvelopeADSR {
                attack_time: 480,
                decay_time: 7_200,
                sustain_amplitude: 0,
                release_time: 0,
                ..EnvelopeADSR::default()
            },
            max_lifetime: DRUM_KICK_LIFETIME,
            oscillators,
        }
    }
}

impl Instrument for DrumKick {
    /// The oscillators that this value holds.
    closed spec fn bank(&self) -> Seq<OscillatorConfig> {
        self.oscillators@
    }

    /// The envelope that this value holds.
    closed spec fn adsr(&self) -> EnvelopeADSR {
        self.env
    }

    open spec fn gain(&self) -> i64 {
        ONE
    }

    /// The lifetime that this value holds.
    closed spec fn lifetime(&self) -> Option<u64> {
        Some(self.max_lifetime)
    }

    fn oscillators(&self) -> (bank: Vec<OscillatorConfig>)
        ensures
            bank@ == drum_kick_bank(),
    {
        proof {
            use_type_invariant(self);
        }
        self.oscillators.clone()
    }

    fn envelope(&self) -> (env: EnvelopeADSR)
        ensures
            env == drum_kick_envelope(),
    {
        proof {
            use_type_invariant(self);
        }
        self.env
    }

    fn volume(&self) -> (gain: i64) {
        ONE
    }

    fn max_lifetime(&self) -> (cap: Option<u64>)
        ensures
            cap == Some(DRUM_KICK_LIFETIME),
    {
        proof {
            use_type_invariant(self);
        }
        Some(self.max_lifetime)
    }
}

/// The instruments there are.
pub enum InstrumentType {
    Default(Default),
    Bell(Bell),
    Bell8(Bell8),
    Harmonica(Harmonica),
    DrumKick(DrumKick),
}

impl Instrument for InstrumentType {
    open spec fn bank(&self) -> Seq<OscillatorConfig> {
        match self {
            InstrumentType::Default(inner) => inner.bank(),
            InstrumentType::Bell(inner) => inner.bank(),
            InstrumentType::Bell8(inner) => inner.bank(),
            InstrumentType::Harmonica(inner) => inner.bank(),
            InstrumentType::DrumKick(inner) => inner.bank(),
        }
    }

    open spec fn adsr(&self) -> EnvelopeADSR {
        match self {
            InstrumentType::Default(inner) => inner.adsr(),
            InstrumentType::Bell(inner) => inner.adsr(),
            InstrumentType::Bell8(inner) => inner.adsr(),
            InstrumentType::Harmonica(inner) => inner.adsr(),
            InstrumentType::DrumKick(inner) => inner.adsr(),
        }
    }

    open spec fn gain(&self) -> i64 {
        match self {
            InstrumentType::Default(inner) => inner.gain(),
            InstrumentType::Bell(inner) => inner.gain(),
            InstrumentType::Bell8(inner) => inner.gain(),
            InstrumentType::Harmonica(inner) => inner.gain(),
            InstrumentType::DrumKick(inner) => inner.gain(),
        }
    }

    open spec fn lifetime(&self) -> Option<u64> {
        match self {
            InstrumentType::Default(inner) => inner.lifetime(),
            InstrumentType::Bell(inner) => inner.lifetime(),
            InstrumentType::Bell8(inner) => inner.lifetime(),
            InstrumentType::Harmonica(inner) => inner.lifetime(),
            InstrumentType::DrumKick(inner) => inner.lifetime(),
        }
    }

    fn oscillators(&self) -> (bank: Vec<OscillatorConfig>) {
        match self {
            InstrumentType::Default(inner) => inner.oscillators(),
            InstrumentType::Bell(inner) => inner.oscillators(),
            InstrumentType::Bell8(inner) => inner.oscillators(),
            InstrumentType::Harmonica(inner) => inner.oscillators(),
            InstrumentType::DrumKick(inner) => inner.oscillators(),
        }
    }

    fn envelope(&self) -> (env: EnvelopeADSR) {
        match self {
            InstrumentType::Default(inner) => inner.envelope(),
            InstrumentType::Bell(inner) => inner.envelope(),
            InstrumentType::Bell8(inner) => inner.envelope(),
            InstrumentType::Harmonica(inner) => inner.envelope(),
            InstrumentType::DrumKick(inner) => inner.envelope(),
        }
    }

    fn volume(&self) -> (gain: i64) {
        match self {
            InstrumentType::Default(inner) => inner.volume(),
            InstrumentType::Bell(inner) => inner.volume(),
            InstrumentType::Bell8(inner) => inner.volume(),
            InstrumentType::Harmonica(inner) => inner.volume(),
            InstrumentType::DrumKick(inner) => inner.volume(),
        }
    }

    fn max_lifetime(&self) -> (cap: Option<u64>) {
        match self {
            InstrumentType::Default(inner) => inner.max_lifetime(),
            InstrumentType::Bell(inner) => inner.max_lifetime(),
            InstrumentType::Bell8(inner) => inner.max_lifetime(),
            InstrumentType::Harmonica(inner) => inner.max_lifetime(),
            InstrumentType::DrumKick(inner) => inner.max_lifetime(),
        }
    }
}

impl From<Default> for InstrumentType {
    fn from(inner: Default) -> (instrument: InstrumentType) {
        InstrumentType::Default(inner)
    }
}

impl vstd::std_specs::convert::FromSpecImpl<Default> for InstrumentType {
    open spec fn obeys_from_spec() -> bool {
        true
    }

    open spec fn from_spec(inner: Default) -> InstrumentType {
        InstrumentType::Default(inner)
    }
}

impl From<Bell> for InstrumentType {
    fn from(inner: Bell) -> (instrument: InstrumentType) {
        InstrumentType::Bell(inner)
    }
}

impl vstd::std_specs::convert::FromSpecImpl<Bell> for InstrumentType {
    open spec fn obeys_from_spec() -> bool {
        true
    }

    open spec fn from_spec(inner: Bell) -> InstrumentType {
        InstrumentType::Bell(inner)
    }
}

impl From<Bell8> for InstrumentType {
    fn from(inner: Bell8) -> (instrument: InstrumentType) {
        InstrumentType::Bell8(inner)
    }
}

impl vstd::std_specs::convert::FromSpecImpl<Bell8> for InstrumentType {
    open spec fn obeys_from_spec() -> bool {
        true
    }

    open spec fn from_spec(inner: Bell8) -> InstrumentType {
        InstrumentType::Bell8(inner)
    }
}

impl From<Harmonica> for InstrumentType {
    fn from(inner: Harmonica) -> (instrument: InstrumentType) {
        InstrumentType::Harmonica(inner)
    }
}

impl vstd::std_specs::convert::FromSpecImpl<Harmonica> for InstrumentType {
    open spec fn obeys_from_spec() -> bool {
        true
    }

    open spec fn from_spec(inner: Harmonica) -> InstrumentType {
        InstrumentType::Harmonica(inner)
    }
}

impl From<DrumKick> for InstrumentType {
    fn from(inner: DrumKick) -> (instrument: InstrumentType) {
        InstrumentType::DrumKick(inner)
    }
}

impl vstd::std_specs::convert::FromSpecImpl<DrumKick> for InstrumentType {
    open spec fn obeys_from_spec() -> bool {
        true
    }

    open spec fn from_spec(inner: DrumKick) -> InstrumentType {
        InstrumentType::DrumKick(inner)
    }
}

} // verus!
