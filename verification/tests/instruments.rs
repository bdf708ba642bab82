use polysynth::envelope::EnvelopeADSR;
use polysynth::fixed::ONE;
use polysynth::instruments::{
    Bell, Bell8, DrumKick, Harmonica, Instrument, InstrumentType, OscillatorConfig,
    OscillatorInput, DRUM_KICK_LIFETIME,
};
use polysynth::noise_maker::{Note, WaveType};

fn held(id: u8, on: u64) -> Note {
    Note { id, on, off: 0, active: true, instrument_id: 0 }
}

#[test]
fn default_oscillator_is_a_plain_sine() {
    let c = OscillatorConfig::default();
    assert_eq!(c.weight, ONE);
    assert_eq!(c.note_offset, 0);
    assert_eq!(c.wave, WaveType::Sine);
    assert_eq!(c.lfo_hertz, 0);
    assert_eq!(c.lfo_amplitude, 0);
}

#[test]
fn default_instrument_is_one_sine_without_lifetime() {
    let d = polysynth::instruments::Default::new();
    assert_eq!(d.oscillators(), vec![OscillatorConfig::default()]);
    assert_eq!(d.envelope(), EnvelopeADSR::default());
    assert_eq!(d.volume(), ONE);
    assert_eq!(d.max_lifetime(), None);
}

#[test]
fn bell_has_three_sines_and_dies_away() {
    let bell = Bell::new();
    let bank = bell.oscillators();
    assert_eq!(bank.len(), 3);
    assert_eq!(
        bank[0],
        OscillatorConfig {
            weight: 1_000_000,
            note_offset: 12,
            wave: WaveType::Sine,
            lfo_hertz: 1_000,
            lfo_amplitude: 5_000_000,
        }
    );
    assert_eq!(
        bank[1],
        OscillatorConfig { weight: 500_000, note_offset: 24, ..OscillatorConfig::default() }
    );
    assert_eq!(
        bank[2],
        OscillatorConfig { weight: 250_000, note_offset: 36, ..OscillatorConfig::default() }
    );
    assert_eq!(
        bell.envelope(),
        EnvelopeADSR {
            attack_time: 480,
            decay_time: 48_000,
            sustain_amplitude: 0,
            release_time: 48_000,
            start_amplitude: 1_000_000,
        }
    );
    assert_eq!(bell.volume(), ONE);
    assert_eq!(bell.max_lifetime(), None);
}

#[test]
fn bell8_is_a_bell_that_sustains() {
    let bell8 = Bell8::new();
    assert_eq!(bell8.oscillators(), Bell::new().oscillators());
    assert_eq!(
        bell8.envelope(),
        EnvelopeADSR { sustain_amplitude: 800_000, ..Bell::new().envelope() }
    );
    assert_eq!(bell8.max_lifetime(), None);
    // half way down the decay, and held long after it
    assert_eq!(bell8.envelope().amplitude(1 + 480 + 24_000, 1, 0), 900_000);
    assert_eq!(bell8.envelope().amplitude(1 + 480_000, 1, 0), 800_000);
    assert_eq!(Bell::new().envelope().amplitude(1 + 480_000, 1, 0), 0);
    // the bell's last tick of decay lies below the silence threshold
    assert_eq!(Bell::new().envelope().amplitude(1 + 480 + 47_999, 1, 0), 0);
}

#[test]
fn harmonica_is_two_squares_and_noise() {
    let h = Harmonica::new();
    let bank = h.oscillators();
    assert_eq!(bank.len(), 3);
    assert_eq!(
        bank[0],
        OscillatorConfig {
            weight: 1_000_000,
            note_offset: 0,
            wave: WaveType::Square,
            lfo_hertz: 1_000,
            lfo_amplitude: 5_000_000,
        }
    );
    assert_eq!(
        bank[1],
        OscillatorConfig {
            weight: 500_000,
            note_offset: 12,
            wave: WaveType::Square,
            ..OscillatorConfig::default()
        }
    );
    assert_eq!(
        bank[2],
        OscillatorConfig {
            weight: 250_000,
            note_offset: 24,
            wave: WaveType::Noise,
            ..OscillatorConfig::default()
        }
    );
    assert_eq!(
        h.envelope(),
        EnvelopeADSR {
            attack_time: 2_400,
            decay_time: 48_000,
            sustain_amplitude: 950_000,
            release_time: 4_800,
            start_amplitude: 1_000_000,
        }
    );
    assert_eq!(h.max_lifetime(), None);
}

#[test]
fn drum_kick_is_a_low_sine_with_a_lifetime() {
    let kick = DrumKick::new();
    let bank = kick.oscillators();
    assert_eq!(bank.len(), 2);
    assert_eq!(
        bank[0],
        OscillatorConfig {
            weight: 990_000,
            note_offset: -36,
            wave: WaveType::Sine,
            lfo_hertz: 1_000_000,
            lfo_amplitude: 1_000_000,
        }
    );
    assert_eq!(
        bank[1],
        OscillatorConfig {
            weight: 10_000,
            note_offset: 0,
            wave: WaveType::Noise,
            ..OscillatorConfig::default()
        }
    );
    assert_eq!(
        kick.envelope(),
        EnvelopeADSR {
            attack_time: 480,
            decay_time: 7_200,
            sustain_amplitude: 0,
            release_time: 0,
            start_amplitude: 1_000_000,
        }
    );
    assert_eq!(DRUM_KICK_LIFETIME, 72_000);
    assert_eq!(kick.max_lifetime(), Some(72_000));
}

#[test]
fn registry_entries_render_as_what_they_hold() {
    let kick = InstrumentType::from(DrumKick::new());
    assert_eq!(kick.oscillators(), DrumKick::new().oscillators());
    assert_eq!(kick.envelope(), DrumKick::new().envelope());
    assert_eq!(kick.max_lifetime(), Some(72_000));
    let plain = InstrumentType::from(polysynth::instruments::Default::new());
    assert_eq!(plain.oscillators().len(), 1);
    assert_eq!(plain.max_lifetime(), None);
    let bell = InstrumentType::from(Bell::new());
    assert_eq!(bell.envelope().sustain_amplitude, 0);
    let bell8 = InstrumentType::from(Bell8::new());
    assert_eq!(bell8.envelope().sustain_amplitude, 800_000);
    let harmonica = InstrumentType::from(Harmonica::new());
    assert_eq!(harmonica.oscillators()[2].wave, WaveType::Noise);
    assert_eq!(harmonica.volume(), ONE);
}

#[test]
fn sample_is_amplitude_times_level() {
    let d = polysynth::instruments::Default::new();
    // full amplitude after the attack
    let (sound, finished) = d.play_note(100 + 4_800, &held(69, 100), &vec![300_000]);
    assert_eq!(sound, 300_000);
    assert!(!finished);
    // half way up the attack
    let (sound, _) = d.play_note(100 + 2_400, &held(69, 100), &vec![300_000]);
    assert_eq!(sound, 150_000);
    let (sound, _) = d.play_note(100 + 2_400, &held(69, 100), &vec![-300_000]);
    assert_eq!(sound, -150_000);
    // one tick in: 208 millionths of -57_564 millionths, cut toward zero
    let (sound, _) = d.play_note(101, &held(69, 100), &vec![-57_564]);
    assert_eq!(sound, -11);
}

#[test]
fn sample_weighs_each_oscillator() {
    let bell8 = Bell8::new();
    // held long: amplitude 0.8; levels 0.5, -0.2, 0.4 at weights 1, 0.5, 0.25
    let (sound, _) = bell8.play_note(1_000_000, &held(60, 1), &vec![500_000, -200_000, 400_000]);
    assert_eq!(sound, 400_000);
    let kick = DrumKick::new();
    // at the peak of the kick: 0.99 * 1.0 + 0.01 * -1.0
    let (sound, finished) = kick.play_note(1 + 480, &held(60, 1), &vec![1_000_000, -1_000_000]);
    assert_eq!(sound, 980_000);
    assert!(!finished);
}

#[test]
fn missing_levels_count_as_silence() {
    let bell8 = Bell8::new();
    let (sound, _) = bell8.play_note(1_000_000, &held(60, 1), &vec![500_000]);
    assert_eq!(sound, 400_000);
    let (sound, _) = bell8.play_note(1_000_000, &held(60, 1), &vec![]);
    assert_eq!(sound, 0);
    // levels beyond the bank are not used
    let d = polysynth::instruments::Default::new();
    let (sound, _) = d.play_note(100 + 4_800, &held(69, 100), &vec![300_000, 900_000]);
    assert_eq!(sound, 300_000);
}

#[test]
fn huge_levels_saturate() {
    let d = polysynth::instruments::Default::new();
    let (sound, _) = d.play_note(100 + 4_800, &held(69, 100), &vec![i64::MAX]);
    assert_eq!(sound, i64::MAX);
    let (sound, _) = d.play_note(100 + 4_800, &held(69, 100), &vec![i64::MIN]);
    assert_eq!(sound, i64::MIN);
}

#[test]
fn never_triggered_note_renders_silence() {
    let d = polysynth::instruments::Default::new();
    let (sound, finished) = d.play_note(5_000, &held(69, 0), &vec![1_000_000]);
    assert_eq!(sound, 0);
    assert!(!finished);
}

#[test]
fn lifetime_cuts_off_whatever_the_envelope_says() {
    let kick = DrumKick::new();
    let note = held(36, 1_000);
    let (_, finished) = kick.play_note(1_000 + 71_999, &note, &vec![0, 0]);
    assert!(!finished);
    let (_, finished) = kick.play_note(1_000 + 72_000, &note, &vec![0, 0]);
    assert!(finished);
    let (_, finished) = kick.play_note(u64::MAX, &note, &vec![0, 0]);
    assert!(finished);
    // before the note was switched on
    let (_, finished) = kick.play_note(10, &note, &vec![0, 0]);
    assert!(!finished);
    // an instrument without lifetime never reports it
    let (_, finished) = Bell8::new().play_note(u64::MAX, &note, &vec![0, 0, 0]);
    assert!(!finished);
}

#[test]
fn oscillators_are_evaluated_at_start_less_now() {
    let bell = Bell::new();
    let note = held(60, 1_000);
    let inputs = bell.oscillator_inputs(1_480, &note);
    assert_eq!(inputs.len(), 3);
    assert_eq!(
        inputs[0],
        OscillatorInput {
            ticks: -480,
            frequency: 523_251_130,
            wave: WaveType::Sine,
            lfo_hertz: 1_000,
            lfo_amplitude: 5_000_000,
        }
    );
    assert_eq!(inputs[1].frequency, 1_046_502_261);
    assert_eq!(inputs[2].frequency, 2_093_004_522);
    assert_eq!(inputs[2].ticks, -480);
    assert_eq!(inputs[2].lfo_hertz, 0);
}

#[test]
fn oscillator_pitch_may_leave_the_range_of_the_notes() {
    let kick = DrumKick::new();
    let inputs = kick.oscillator_inputs(0, &held(20, u64::MAX));
    // sixteen semitones below index zero: just over three hertz
    assert_eq!(inputs[0].frequency, 3_244_567);
    assert_eq!(inputs[0].ticks, u64::MAX as i128);
    assert_eq!(inputs[1].frequency, 25_956_543);
    assert_eq!(inputs[1].wave, WaveType::Noise);
    let inputs = Bell::new().oscillator_inputs(u64::MAX, &held(250, 0));
    assert_eq!(inputs[2].frequency, 122_202_033_099_398);
    assert_eq!(inputs[2].ticks, -(u64::MAX as i128));
}
