use polysynth::fixed::ONE;
use polysynth::instruments::{Bell, DrumKick, Harmonica, InstrumentType, OscillatorInput};
use polysynth::noise_maker::{
    make_noise, NoiseMaker, NoiseMakerData, Note, WaveType, MASTER_GAIN,
};

fn registry() -> Vec<InstrumentType> {
    vec![
        InstrumentType::from(polysynth::instruments::Default::new()),
        InstrumentType::from(DrumKick::new()),
        InstrumentType::from(Bell::new()),
        InstrumentType::from(Harmonica::new()),
    ]
}

fn note(id: u8, on: u64, off: u64, instrument_id: usize) -> Note {
    Note { id, on, off, active: true, instrument_id }
}

/// The level of a sine of `hertz` at `ticks` ticks, in millionths.
fn sine_level(hertz: f64, ticks: i128) -> i64 {
    let seconds = ticks as f64 / 48_000.0;
    ((2.0 * std::f64::consts::PI * hertz * seconds).sin() * 1_000_000.0).round() as i64
}

/// Runs `count` samples without any note.
fn run_silent(maker: &mut NoiseMaker, data: &mut NoiseMakerData, count: u64) {
    for _ in 0..count {
        assert_eq!(maker.next(data, &vec![]), Some(0));
    }
}

#[test]
fn new_state_is_empty() {
    let data = NoiseMakerData::default();
    assert_eq!(data.dt, 0);
    assert!(data.notes.is_empty());
    let n = Note::default();
    assert_eq!(n, Note { id: 0, on: 0, off: 0, active: false, instrument_id: 0 });
    assert!(!n.is_sounding());
    let maker = NoiseMaker::new(registry());
    assert_eq!(maker.samples_produced(), 0);
    assert_eq!(maker.instruments().len(), 4);
    assert_eq!(MASTER_GAIN, 200_000);
}

#[test]
fn stream_is_mono_at_48_khz_without_end() {
    let maker = NoiseMaker::new(vec![]);
    assert_eq!(maker.channels(), 1);
    assert_eq!(maker.sample_rate(), 48_000);
    assert_eq!(maker.current_frame_len(), None);
    assert_eq!(maker.total_duration(), None);
}

#[test]
fn each_sample_advances_the_clock_by_one_tick() {
    let mut maker = NoiseMaker::new(registry());
    let mut data = NoiseMakerData::default();
    run_silent(&mut maker, &mut data, 3);
    assert_eq!(data.dt, 3);
    assert_eq!(maker.samples_produced(), 3);
}

#[test]
fn key_down_starts_a_note_at_the_clock() {
    let mut maker = NoiseMaker::new(registry());
    let mut data = NoiseMakerData::default();
    run_silent(&mut maker, &mut data, 7);
    data.note_event(69, 2, true);
    assert_eq!(data.notes, vec![Note { id: 69, on: 7, off: 0, active: true, instrument_id: 2 }]);
    assert_eq!(data.dt, 7);
    assert!(data.notes[0].is_sounding());
}

#[test]
fn key_up_without_note_does_nothing() {
    let mut data = NoiseMakerData { dt: 5, notes: vec![note(60, 2, 0, 0)] };
    data.note_event(61, 0, false);
    assert_eq!(data.notes, vec![note(60, 2, 0, 0)]);
}

#[test]
fn key_up_releases_a_held_note_at_the_clock() {
    let mut data = NoiseMakerData { dt: 50, notes: vec![note(60, 2, 0, 0), note(64, 9, 0, 0)] };
    data.note_event(64, 0, false);
    assert_eq!(data.notes, vec![note(60, 2, 0, 0), note(64, 9, 50, 0)]);
    assert!(!data.notes[1].is_sounding());
    // a second key-up changes nothing
    data.dt = 60;
    data.note_event(64, 0, false);
    assert_eq!(data.notes[1], note(64, 9, 50, 0));
}

#[test]
fn retrigger_while_sounding_adds_no_note() {
    let mut data = NoiseMakerData { dt: 10, notes: vec![] };
    data.note_event(69, 0, true);
    assert_eq!(data.notes.len(), 1);
    data.dt = 20;
    data.note_event(69, 0, true);
    assert_eq!(data.notes.len(), 1);
    assert_eq!(data.notes[0], note(69, 10, 0, 0));
    // nor does another instrument make it a second note
    data.note_event(69, 3, true);
    assert_eq!(data.notes, vec![note(69, 10, 0, 0)]);
}

#[test]
fn key_down_on_a_released_note_switches_it_on_again() {
    let mut data = NoiseMakerData { dt: 10, notes: vec![] };
    data.note_event(69, 2, true);
    data.dt = 20;
    data.note_event(69, 2, false);
    data.dt = 30;
    data.note_event(69, 0, true);
    assert_eq!(data.notes, vec![Note { id: 69, on: 30, off: 20, active: true, instrument_id: 2 }]);
    assert!(data.notes[0].is_sounding());
}

#[test]
fn key_down_rearms_an_inactive_released_note() {
    let released = Note { id: 40, on: 5, off: 5, active: false, instrument_id: 1 };
    let mut data = NoiseMakerData { dt: 9, notes: vec![released] };
    data.note_event(40, 0, true);
    assert_eq!(data.notes, vec![Note { id: 40, on: 9, off: 5, active: true, instrument_id: 1 }]);
}

#[test]
fn event_acts_on_the_first_note_of_the_pitch() {
    let mut data = NoiseMakerData {
        dt: 100,
        notes: vec![note(50, 10, 0, 0), note(60, 20, 30, 0), note(60, 40, 0, 0)],
    };
    data.note_event(60, 0, false);
    assert_eq!(data.notes[1], note(60, 20, 30, 0));
    assert_eq!(data.notes[2], note(60, 40, 0, 0));
    data.note_event(60, 0, true);
    assert_eq!(data.notes[1], note(60, 100, 30, 0));
    assert_eq!(data.notes[2], note(60, 40, 0, 0));
    assert_eq!(data.find(60), Some(1));
    assert_eq!(data.find(50), Some(0));
    assert_eq!(data.find(51), None);
}

#[test]
fn concert_a_one_tick_after_key_down() {
    let mut maker = NoiseMaker::new(registry());
    let mut data = NoiseMakerData::default();
    run_silent(&mut maker, &mut data, 1);
    data.note_event(69, 0, true);
    let inputs = maker.frame_inputs(&data);
    assert_eq!(
        inputs,
        vec![vec![OscillatorInput {
            ticks: -1,
            frequency: 440_000_000,
            wave: WaveType::Sine,
            lfo_hertz: 0,
            lfo_amplitude: 0,
        }]]
    );
    let hertz = inputs[0][0].frequency as f64 / 1_000_000.0;
    let level = sine_level(hertz, inputs[0][0].ticks);
    assert_eq!(level, -57_564);
    let out = maker.next(&mut data, &vec![vec![level]]).unwrap();
    // amplitude 208 millionths, times the level, times the master gain
    assert_eq!(out, -2);
    let closed_form = (1.0 / 4_800.0) * (2.0 * std::f64::consts::PI * 440.0 * (-1.0 / 48_000.0)).sin() * 0.2;
    assert!((out as f64 / 1_000_000.0 - closed_form).abs() < 1.0e-6);
    assert_eq!(data.dt, 2);
    assert_eq!(data.notes.len(), 1);
}

#[test]
fn key_down_at_clock_zero_never_sounds() {
    let mut maker = NoiseMaker::new(registry());
    let mut data = NoiseMakerData::default();
    data.note_event(69, 0, true);
    assert_eq!(data.notes, vec![note(69, 0, 0, 0)]);
    let inputs = maker.frame_inputs(&data);
    assert_eq!(inputs[0][0].ticks, -1);
    let level = sine_level(440.0, -1);
    assert_eq!(maker.next(&mut data, &vec![vec![level]]), Some(0));
    // a start time of zero means never switched on: silent, released, dropped
    assert!(data.notes.is_empty());
}

#[test]
fn full_amplitude_sample_is_a_fifth_of_the_level() {
    let mut notes = vec![note(69, 100, 0, 0)];
    let out = make_noise(100 + 4_800, &mut notes, &registry(), &vec![vec![500_000]]);
    assert_eq!(out, 100_000);
    assert_eq!(notes.len(), 1);
}

#[test]
fn mix_of_two_notes_is_the_sum_of_each_alone() {
    let instruments = registry();
    let now = 100 + 4_800;
    let a = note(69, 100, 0, 0);
    let b = note(72, 100, 0, 0);
    let la = sine_level(440.0, -4_800 - 7);
    let lb = sine_level(523.251, -4_800 - 7);
    let mut both = vec![a, b];
    let out = make_noise(now, &mut both, &instruments, &vec![vec![la], vec![lb]]);
    let mut only_a = vec![a];
    let mut only_b = vec![b];
    let out_a = make_noise(now, &mut only_a, &instruments, &vec![vec![la]]);
    let out_b = make_noise(now, &mut only_b, &instruments, &vec![vec![lb]]);
    assert!((out - (out_a + out_b)).abs() <= 1);
    // at full amplitude each note contributes its level
    assert_eq!(out, ((la + lb) as i128 * 200_000 / 1_000_000) as i64);
    assert_eq!(both.len(), 2);
}

#[test]
fn mix_of_two_notes_exact_values() {
    let mut notes = vec![note(69, 100, 0, 0), note(72, 100, 0, 0)];
    let out = make_noise(100 + 4_800, &mut notes, &registry(), &vec![vec![300_000], vec![-450_000]]);
    assert_eq!(out, -30_000);
    // half way up the attack of the second note
    let mut notes = vec![note(69, 100, 0, 0), note(72, 2_500, 0, 0)];
    let out = make_noise(4_900, &mut notes, &registry(), &vec![vec![300_000], vec![-450_000]]);
    assert_eq!(out, 15_000);
}

#[test]
fn released_note_is_dropped_when_its_envelope_is_silent() {
    let instruments = registry();
    // held for 100 ticks, released at 200; the default release takes 9_600 ticks
    let mut notes = vec![note(69, 100, 200, 0), note(50, 100, 0, 0)];
    let out = make_noise(200 + 9_000, &mut notes, &instruments, &vec![vec![ONE], vec![0]]);
    // released from 20_833 millionths; 1_303 are left, a fifth of which is 260
    assert_eq!(out, 260);
    assert_eq!(notes.len(), 2);
    let out = make_noise(200 + 9_600, &mut notes, &instruments, &vec![vec![ONE], vec![0]]);
    assert_eq!(out, 0);
    assert_eq!(notes, vec![note(50, 100, 0, 0)]);
    // the next samples render the remaining note alone
    let out = make_noise(200 + 9_601, &mut notes, &instruments, &vec![vec![ONE]]);
    assert_eq!(out, 200_000);
    assert_eq!(notes, vec![note(50, 100, 0, 0)]);
}

#[test]
fn released_note_is_dropped_as_soon_as_it_is_below_the_threshold() {
    let instruments = registry();
    // released from full level: 105 millionths one tick before the end
    let mut notes = vec![note(69, 100, 20_000, 0)];
    make_noise(20_000 + 9_599, &mut notes, &instruments, &vec![vec![ONE]]);
    assert_eq!(notes.len(), 1);
    // released from 20_833 millionths: 102 remain after 9_553 ticks, 100 after 9_554
    let mut notes = vec![note(69, 100, 200, 0)];
    make_noise(200 + 9_553, &mut notes, &instruments, &vec![vec![ONE]]);
    assert_eq!(notes.len(), 1);
    make_noise(200 + 9_554, &mut notes, &instruments, &vec![vec![ONE]]);
    assert!(notes.is_empty());
}

#[test]
fn held_note_is_kept_even_when_silent() {
    let instruments = registry();
    // the bell has decayed to silence, but the key is still down
    let mut notes = vec![note(60, 100, 0, 2)];
    let out = make_noise(100 + 480 + 48_000 + 10, &mut notes, &instruments, &vec![vec![ONE, ONE, ONE]]);
    assert_eq!(out, 0);
    assert_eq!(notes.len(), 1);
}

#[test]
fn drum_kick_is_cut_off_after_its_lifetime() {
    let instruments = registry();
    let mut notes = vec![note(36, 1_000, 0, 1), note(69, 1_000, 0, 0)];
    let levels = vec![vec![ONE, 0], vec![ONE]];
    let out = make_noise(1_000 + 71_999, &mut notes, &instruments, &levels);
    assert_eq!(out, 200_000);
    assert_eq!(notes.len(), 2);
    // the key is still down, and yet the kick goes
    let out = make_noise(1_000 + 72_000, &mut notes, &instruments, &levels);
    assert_eq!(out, 200_000);
    assert_eq!(notes, vec![note(69, 1_000, 0, 0)]);
    let out = make_noise(1_000 + 72_001, &mut notes, &instruments, &vec![vec![ONE]]);
    assert_eq!(out, 200_000);
}

#[test]
fn drum_kick_sounds_in_its_attack_and_is_gone_long_after() {
    let instruments = registry();
    let mut notes = vec![note(36, 1_000, 0, 1)];
    // in the attack of the kick there is sound
    let out = make_noise(1_000 + 240, &mut notes, &instruments, &vec![vec![ONE, 0]]);
    assert_eq!(out, 99_000);
    assert_eq!(notes.len(), 1);
    let mut late = vec![Note { id: 36, on: 1, off: 0, active: true, instrument_id: 1 }];
    make_noise(u64::MAX, &mut late, &instruments, &vec![]);
    assert!(late.is_empty());
}

#[test]
fn released_drum_kick_goes_at_once() {
    let instruments = registry();
    let mut notes = vec![note(36, 1_000, 1_100, 1)];
    make_noise(1_101, &mut notes, &instruments, &vec![vec![ONE, 0]]);
    assert!(notes.is_empty());
}

#[test]
fn inactive_notes_sound_once_more_and_are_dropped() {
    let instruments = registry();
    let inactive = Note { id: 69, on: 100, off: 0, active: false, instrument_id: 0 };
    let mut notes = vec![note(50, 100, 0, 0), inactive, note(52, 100, 0, 0)];
    let levels = vec![vec![100_000], vec![200_000], vec![400_000]];
    let out = make_noise(100 + 4_800, &mut notes, &instruments, &levels);
    assert_eq!(out, 140_000);
    assert_eq!(notes, vec![note(50, 100, 0, 0), note(52, 100, 0, 0)]);
}

#[test]
fn order_of_the_kept_notes_is_unchanged() {
    let instruments = registry();
    let mut notes = vec![
        note(1, 100, 0, 0),
        note(2, 100, 100, 0),
        note(3, 100, 0, 0),
        note(4, 100, 100, 0),
        note(5, 100, 100, 0),
        note(6, 100, 0, 0),
    ];
    make_noise(500, &mut notes, &instruments, &vec![]);
    let ids: Vec<u8> = notes.iter().map(|n| n.id).collect();
    assert_eq!(ids, vec![1, 3, 6]);
}

#[test]
fn unknown_instrument_renders_silence() {
    let instruments = registry();
    let mut notes = vec![note(69, 100, 0, 9), note(50, 100, 0, 0)];
    let out = make_noise(100 + 4_800, &mut notes, &instruments, &vec![vec![ONE], vec![ONE]]);
    assert_eq!(out, 200_000);
    // while its key is down the note is kept
    assert_eq!(notes.len(), 2);
    notes[0].off = 6_000;
    let out = make_noise(6_001, &mut notes, &instruments, &vec![vec![ONE], vec![ONE]]);
    assert_eq!(out, 200_000);
    assert_eq!(notes, vec![note(50, 100, 0, 0)]);
    let maker = NoiseMaker::new(registry());
    let data = NoiseMakerData { dt: 0, notes: vec![note(69, 100, 0, 9)] };
    assert_eq!(maker.frame_inputs(&data), vec![vec![]]);
}

#[test]
fn empty_registry_and_no_notes_give_silence() {
    let mut notes: Vec<Note> = vec![];
    assert_eq!(make_noise(77, &mut notes, &[], &vec![]), 0);
    let mut notes = vec![note(69, 1, 0, 0)];
    assert_eq!(make_noise(77, &mut notes, &[], &vec![vec![ONE]]), 0);
    assert_eq!(notes.len(), 1);
}

#[test]
fn dense_mix_saturates() {
    let instruments = registry();
    let mut notes: Vec<Note> = (0..8).map(|k| note(k, 100, 0, 0)).collect();
    let levels: Vec<Vec<i64>> = (0..8).map(|_| vec![i64::MAX]).collect();
    let out = make_noise(100 + 4_800, &mut notes, &instruments, &levels);
    // the sum is clipped before the master gain is applied
    assert_eq!(out, ((i64::MAX as i128) * 200_000 / 1_000_000) as i64);
}

#[test]
fn frame_inputs_are_for_the_coming_sample() {
    let mut maker = NoiseMaker::new(registry());
    let mut data = NoiseMakerData::default();
    run_silent(&mut maker, &mut data, 10);
    data.note_event(60, 1, true);
    data.note_event(64, 3, true);
    let inputs = maker.frame_inputs(&data);
    assert_eq!(inputs.len(), 2);
    assert_eq!(inputs[0].len(), 2);
    assert_eq!(inputs[1].len(), 3);
    for list in &inputs {
        for input in list {
            assert_eq!(input.ticks, -1);
        }
    }
    assert_eq!(inputs[0][0].frequency, 32_703_195);
    assert_eq!(inputs[0][1].wave, WaveType::Noise);
    assert_eq!(inputs[1][1].frequency, 659_255_113);
    assert_eq!(inputs[1][0].wave, WaveType::Square);
}

#[test]
fn session_plays_and_releases_a_note() {
    let mut maker = NoiseMaker::new(registry());
    let mut data = NoiseMakerData::default();
    run_silent(&mut maker, &mut data, 100);
    data.note_event(69, 0, true);
    for _ in 0..4_800 {
        maker.next(&mut data, &vec![vec![ONE]]);
    }
    assert_eq!(data.dt, 4_900);
    assert_eq!(maker.next(&mut data, &vec![vec![ONE]]), Some(200_000));
    data.note_event(69, 0, false);
    assert_eq!(data.notes[0].off, 4_901);
    let mut last = 200_000;
    for _ in 0..9_599 {
        let out = maker.next(&mut data, &vec![vec![ONE]]).unwrap();
        assert!(out <= last);
        last = out;
        assert_eq!(data.notes.len(), 1);
    }
    assert_eq!(maker.next(&mut data, &vec![vec![ONE]]), Some(0));
    assert!(data.notes.is_empty());
    assert_eq!(maker.next(&mut data, &vec![]), Some(0));
}
