//! The notes that are sounding, the events that start and release them, and
//! the per-sample step that mixes them and drops those that have ended.

use vstd::prelude::*;
use crate::fixed::{clip, fx_mul, saturate, times, SAMPLE_RATE};
use crate::instruments::{
    hard_cutoff, oscillator_input, voice_sample, Instrument, InstrumentType, OscillatorInput,
};

verus! {

/// The gain applied to the sum of all notes, to leave headroom: 0.2.
pub const MASTER_GAIN: i64 = 200_000;

/// The waveform of an oscillator.
#[derive(Clone, Copy, PartialEq, Eq, Structural, Debug)]
pub enum WaveType {
    Sine,
    Square,
    Triangle,
    SawSlow,
    SawFast,
    Noise,
}

/// One key press. `on` and `off` are the clock values, in ticks, at which the
/// key went down and up; zero means that it has not happened. The note is
/// held while `on > off` and released otherwise.
#[derive(Clone, Copy, PartialEq, Eq, Structural, Debug)]
pub struct Note {
    pub id: u8,
    pub on: u64,
    pub off: u64,
    pub active: bool,
    pub instrument_id: usize,
}

impl Note {
    /// The key is down.
    pub open spec fn sounding(self) -> bool {
        self.on > self.off
    }

    /// The key is down.
    pub fn is_sounding(&self) -> (held: bool)
        ensures
            held == self.sounding(),
    {
        self.on > self.off
    }
}

impl Default for Note {
    fn default() -> (note: Self)
        ensures
            note == (Note { id: 0, on: 0, off: 0, active: false, instrument_id: 0 }),
    {
        Self { id: 0, on: 0, off: 0, active: false, instrument_id: 0 }
    }
}

/// The index of the first note with pitch `id`, or the length of `notes` if
/// there is none.
pub open spec fn first_with_pitch(notes: Seq<Note>, id: u8) -> int
    decreases notes.len(),
{
    if notes.len() == 0 {
        0
    } else if notes[0].id == id {
        0
    } else {
        1 + first_with_pitch(notes.drop_first(), id)
    }
}

/// No two notes have the same pitch.
pub open spec fn distinct_pitches(notes: Seq<Note>) -> bool {
    forall|i: int, j: int| 0 <= i < j < notes.len() ==> notes[i].id != notes[j].id
}

/// The notes after a key event at time `clock`.
///
/// A key that goes down starts a new note if none has its pitch; if one has
/// and it is released, that note is switched on again; if it is held nothing
/// changes. A key that goes up switches off the note of its pitch if that
/// note is held; otherwise nothing changes.
pub open spec fn after_event(
    notes: Seq<Note>,
    clock: u64,
    pitch_id: u8,
    instrument_id: usize,
    pressed: bool,
) -> Seq<Note> {
    let i = first_with_pitch(notes, pitch_id);
    if i < notes.len() {
        let n = notes[i];
        if pressed && !n.sounding() {
            notes.update(i, Note { on: clock, active: true, ..n })
        } else if !pressed && n.sounding() {
            notes.update(i, Note { off: clock, ..n })
        } else {
            notes
        }
    } else if pressed {
        notes.push(Note { id: pitch_id, on: clock, off: 0, active: true, instrument_id })
    } else {
        notes
    }
}

/// `first_with_pitch` is in range exactly when a note has the pitch; it then
/// points at such a note, and no earlier note has the pitch.
pub proof fn lemma_first_with_pitch(notes: Seq<Note>, id: u8)
    ensures
        0 <= first_with_pitch(notes, id) <= notes.len(),
        first_with_pitch(notes, id) < notes.len() ==> notes[first_with_pitch(notes, id)].id == id,
        forall|j: int| 0 <= j < first_with_pitch(notes, id) ==> notes[j].id != id,
    decreases notes.len(),
{
    if notes.len() > 0 && notes[0].id != id {
        let rest = notes.drop_first();
        lemma_first_with_pitch(rest, id);
        assert forall|j: int| 0 <= j < first_with_pitch(notes, id) implies notes[j].id != id by {
            if j > 0 {
                assert(notes[j] == rest[j - 1]);
            }
        }
    }
}

/// An index at which a note has the pitch, with no such note before it, is
/// `first_with_pitch`; so is the length when no note has the pitch.
pub proof fn lemma_first_with_pitch_is(notes: Seq<Note>, id: u8, i: int)
    requires
        0 <= i <= notes.len(),
        i < notes.len() ==> notes[i].id == id,
        forall|j: int| 0 <= j < i ==> notes[j].id != id,
    ensures
        first_with_pitch(notes, id) == i,
{
    lemma_first_with_pitch(notes, id);
}

/// The shared state of a session: the clock, in ticks, and the notes.
pub struct NoiseMakerData {
    pub dt: u64,
    pub notes: Vec<Note>,
}

impl Default for NoiseMakerData {
    fn default() -> (data: Self)
        ensures
            data.dt == 0,
            data.notes@ == Seq::<Note>::empty(),
    {
        Self { dt: 0, notes: Vec::new() }
    }
}

impl NoiseMakerData {
    /// The index of the first note with pitch `pitch_id`.
    pub fn find(&self, pitch_id: u8) -> (found: Option<usize>)
        ensures
            match found {
                Some(i) => i == first_with_pitch(self.notes@, pitch_id) && i < self.notes.len(),
                None => first_with_pitch(self.notes@, pitch_id) == self.notes.len(),
            },
    {
        let mut i: usize = 0;
        while i < self.notes.len()
            invariant
                i <= self.notes.len(),
                forall|j: int| 0 <= j < i ==> self.notes@[j].id != pitch_id,
            decreases self.notes.len() - i,
        {
            if self.notes[i].id == pitch_id {
                proof {
                    lemma_first_with_pitch_is(self.notes@, pitch_id, i as int);
                }
                return Some(i);
            }
            i += 1;
        }
        proof {
            lemma_first_with_pitch_is(self.notes@, pitch_id, i as int);
        }
        None
    }

    /// Registers that the key of pitch `pitch_id` went down (`pressed`) or up,
    /// at the current clock. A new note is played by the instrument
    /// `instrument_id`.
    pub fn note_event(&mut self, pitch_id: u8, instrument_id: usize, pressed: bool)
        ensures
            final(self).dt == old(self).dt,
            final(self).notes@ == after_event(
                old(self).notes@,
                old(self).dt,
                pitch_id,
                instrument_id,
                pressed,
            ),
    {
        let clock: u64 = self.dt;
        match self.find(pitch_id) {
            Some(i) => {
                let n: Note = self.notes[i];
                if pressed {
                    if n.off >= n.on {
                        self.notes.set(i, Note { on: clock, active: true, ..n });
                    }
                } else if n.off < n.on {
                    self.notes.set(i, Note { off: clock, ..n });
                }
            },
            None => {
                if pressed {
                    self.notes.push(
                        Note { id: pitch_id, on: clock, off: 0, active: true, instrument_id },
                    );
                }
            },
        }
    }
}

/// The oscillator levels given for note `i`; none if the list is too short.
pub open spec fn levels_of(levels: Seq<Vec<i64>>, i: int) -> Seq<i64> {
    if 0 <= i < levels.len() {
        levels[i]@
    } else {
        Seq::empty()
    }
}

/// The sample that note `n` adds to the mix at time `dt`. A note whose
/// instrument is not in the registry is silent.
pub open spec fn contribution(
    instruments: Seq<InstrumentType>,
    dt: u64,
    n: Note,
    levels: Seq<i64>,
) -> int {
    if n.instrument_id < instruments.len() {
        let instrument = instruments[n.instrument_id as int];
        voice_sample(instrument.adsr(), instrument.bank(), instrument.gain(), dt, n, levels)
    } else {
        0
    }
}

/// The amplitude of the envelope of note `n` at time `dt`; zero for a note
/// whose instrument is not in the registry.
pub open spec fn envelope_level(instruments: Seq<InstrumentType>, dt: u64, n: Note) -> int {
    if n.instrument_id < instruments.len() {
        instruments[n.instrument_id as int].adsr().spec_amplitude(
            dt as int,
            n.on as int,
            n.off as int,
        )
    } else {
        0
    }
}

/// The note has reached the lifetime of its instrument.
pub open spec fn cut_off(instruments: Seq<InstrumentType>, dt: u64, n: Note) -> bool {
    n.instrument_id < instruments.len() && hard_cutoff(
        instruments[n.instrument_id as int].lifetime(),
        dt,
        n,
    )
}

/// Note `n` has ended at time `dt`: it has reached the lifetime of its
/// instrument, or it has been released and its envelope has come to silence.
pub open spec fn ended(instruments: Seq<InstrumentType>, dt: u64, n: Note) -> bool {
    cut_off(instruments, dt, n) || (!n.sounding() && envelope_level(instruments, dt, n) == 0)
}

/// Note `n` is kept after the sample at time `dt`.
pub open spec fn stays(instruments: Seq<InstrumentType>, dt: u64, n: Note) -> bool {
    n.active && !ended(instruments, dt, n)
}

/// The samples of the first `count` notes, added up.
pub open spec fn mix_sum(
    instruments: Seq<InstrumentType>,
    dt: u64,
    notes: Seq<Note>,
    levels: Seq<Vec<i64>>,
    count: int,
) -> int
    decreases count,
{
    if count <= 0 {
        0
    } else {
        mix_sum(instruments, dt, notes, levels, count - 1) + contribution(
            instruments,
            dt,
            notes[count - 1],
            levels_of(levels, count - 1),
        )
    }
}

/// The output sample at time `dt`: the sum of the samples of all notes,
/// scaled by the master gain.
pub open spec fn frame_sample(
    instruments: Seq<InstrumentType>,
    dt: u64,
    notes: Seq<Note>,
    levels: Seq<Vec<i64>>,
) -> int {
    fx_mul(clip(mix_sum(instruments, dt, notes, levels, notes.len() as int)), MASTER_GAIN as int)
}

/// The notes that are kept after the sample at time `dt`, in their order.
pub open spec fn survivors(instruments: Seq<InstrumentType>, dt: u64, notes: Seq<Note>) -> Seq<
    Note,
> {
    notes.filter(|n: Note| stays(instruments, dt, n))
}

/// The survivors of a list that grows by one note.
pub proof fn lemma_survivors_push(
    instruments: Seq<InstrumentType>,
    dt: u64,
    notes: Seq<Note>,
    n: Note,
)
    ensures
        survivors(instruments, dt, notes.push(n)) == if stays(instruments, dt, n) {
            survivors(instruments, dt, notes).push(n)
        } else {
            survivors(instruments, dt, notes)
        },
{
    reveal(Seq::filter);
    assert(notes.push(n).drop_last() =~= notes);
}

/// Produces one sample at time `dt` and drops the notes that have ended.
///
/// `levels[i]` holds the levels of the oscillators of note `i`, in the order
/// of its instrument's bank. Every note in the list adds its sample. A note
/// is kept if it is active and has not ended.
pub fn make_noise(
    dt: u64,
    notes: &mut Vec<Note>,
    instruments: &[InstrumentType],
    levels: &Vec<Vec<i64>>,
) -> (out: i64)
    ensures
        out == frame_sample(instruments@, dt, old(notes)@, levels@),
        final(notes)@ == survivors(instruments@, dt, old(notes)@),
        forall|k: int|
            0 <= k < final(notes)@.len() ==> stays(instruments@, dt, #[trigger] final(notes)@[k]),
{
    let ghost before = notes@;
    let count: usize = notes.len();
    let silent: Vec<i64> = Vec::new();
    let mut acc: i128 = 0;
    let mut kept: usize = 0;
    let mut i: usize = 0;
    proof {
        reveal(Seq::filter);
    }
    while i < count
        invariant
            i <= count,
            kept <= i,
            count == before.len(),
            notes@.len() == count,
            silent@.len() == 0,
            notes@.subrange(0, kept as int) == survivors(instruments@, dt, before.take(i as int)),
            forall|k: int| i <= k < count ==> notes@[k] == before[k],
            acc == mix_sum(instruments@, dt, before, levels@, i as int),
            -0x8000_0000_0000_0000 * i <= acc <= 0x8000_0000_0000_0000 * i,
        decreases count - i,
    {
        let note: Note = notes[i];
        let given: &Vec<i64> = if i < levels.len() {
            &levels[i]
        } else {
            &silent
        };
        assert(given@ =~= levels_of(levels@, i as int));
        let mut sound: i64 = 0;
        let mut over: bool = note.on <= note.off;
        if note.instrument_id < instruments.len() {
            let instrument = &instruments[note.instrument_id];
            let (sample, finished) = instrument.play_note(dt, &note, given);
            let amplitude: u32 = instrument.envelope().amplitude(dt, note.on, note.off);
            sound = sample;
            over = finished || (note.on <= note.off && amplitude == 0);
        }
        acc = acc + sound as i128;
        proof {
            lemma_survivors_push(instruments@, dt, before.take(i as int), note);
            assert(before.take(i as int).push(note) =~= before.take(i + 1));
        }
        if note.active && !over {
            let ghost prefix = notes@.subrange(0, kept as int);
            notes.set(kept, note);
            assert(notes@.subrange(0, kept + 1) =~= prefix.push(note));
            kept += 1;
        }
        i += 1;
    }
    notes.truncate(kept);
    proof {
        assert(before.take(count as int) =~= before);
        assert forall|k: int| 0 <= k < notes@.len() implies stays(
            instruments@,
            dt,
            #[trigger] notes@[k],
        ) by {
            before.lemma_filter_pred(|n: Note| stays(instruments@, dt, n), k);
        }
    }
    times(saturate(acc), MASTER_GAIN)
}

/// The clock value that follows `counter`. The counter starts again at zero
/// after its largest value.
pub open spec fn next_tick(counter: u64) -> u64 {
    if counter == u64::MAX {
        0
    } else {
        (counter + 1) as u64
    }
}

/// What the oscillators of note `n` are to be evaluated at for the sample at
/// time `dt`; nothing for a note whose instrument is not in the registry.
pub open spec fn inputs_of(instruments: Seq<InstrumentType>, dt: u64, n: Note) -> Seq<
    OscillatorInput,
> {
    if n.instrument_id < instruments.len() {
        let bank = instruments[n.instrument_id as int].bank();
        Seq::new(bank.len(), |j: int| oscillator_input(bank[j], dt, n))
    } else {
        Seq::empty()
    }
}

/// The producer of samples: a counter of the samples produced so far and the
/// registry of instruments, which a note names by its index.
pub struct NoiseMaker {
    num_sample: u64,
    instruments: Vec<InstrumentType>,
}

impl NoiseMaker {
    /// The number of samples produced so far.
    pub closed spec fn counter(&self) -> u64 {
        self.num_sample
    }

    /// The instruments.
    pub closed spec fn registry(&self) -> Seq<InstrumentType> {
        self.instruments@
    }

    pub fn new(instruments: Vec<InstrumentType>) -> (maker: Self)
        ensures
            maker.counter() == 0,
            maker.registry() == instruments@,
    {
        Self { num_sample: 0, instruments }
    }

    /// The number of samples produced so far.
    pub fn samples_produced(&self) -> (count: u64)
        ensures
            count == self.counter(),
    {
        self.num_sample
    }

    /// The instruments.
    pub fn instruments(&self) -> (registry: &Vec<InstrumentType>)
        ensures
            registry@ == self.registry(),
    {
        &self.instruments
    }

    /// The output has one channel.
    pub fn channels(&self) -> (count: u16)
        ensures
            count == 1,
    {
        1
    }

    /// The number of samples per second.
    pub fn sample_rate(&self) -> (rate: u32)
        ensures
            rate == SAMPLE_RATE,
    {
        SAMPLE_RATE
    }

    /// The stream of samples is not divided into frames of a known length.
    pub fn current_frame_len(&self) -> (len: Option<usize>)
        ensures
            len.is_none(),
    {
        None
    }

    /// The stream of samples has no end; a duration would be in ticks.
    pub fn total_duration(&self) -> (ticks: Option<u64>)
        ensures
            ticks.is_none(),
    {
        None
    }

    /// What every oscillator of every note is to be evaluated at for the
    /// sample that the next call of `next` produces: one list for each note,
    /// in the order of the notes.
    pub fn frame_inputs(&self, data: &NoiseMakerData) -> (inputs: Vec<Vec<OscillatorInput>>)
        ensures
            inputs@.len() == data.notes@.len(),
            forall|i: int|
                0 <= i < inputs@.len() ==> (#[trigger] inputs@[i])@ == inputs_of(
                    self.registry(),
                    next_tick(self.counter()),
                    data.notes@[i],
                ),
    {
        let dt: u64 = if self.num_sample == u64::MAX {
            0
        } else {
            self.num_sample + 1
        };
        let mut inputs: Vec<Vec<OscillatorInput>> = Vec::new();
        let mut i: usize = 0;
        while i < data.notes.len()
            invariant
                i <= data.notes.len(),
                inputs@.len() == i,
                dt == next_tick(self.counter()),
                forall|k: int|
                    0 <= k < i ==> (#[trigger] inputs@[k])@ == inputs_of(
                        self.registry(),
                        dt,
                        data.notes@[k],
                    ),
            decreases data.notes.len() - i,
        {
            let note: Note = data.notes[i];
            let list: Vec<OscillatorInput> = if note.instrument_id < self.instruments.len() {
                self.instruments[note.instrument_id].oscillator_inputs(dt, &note)
            } else {
                Vec::new()
            };
            inputs.push(list);
            i += 1;
        }
        inputs
    }

    /// Produces the next sample: advances the counter by one, sets the clock
    /// to it, mixes all notes at that time and drops those that have ended.
    /// `levels[i]` holds the levels of the oscillators of note `i`.
    pub fn next(&mut self, data: &mut NoiseMakerData, levels: &Vec<Vec<i64>>) -> (out: Option<
        i64,
    >)
        ensures
            final(self).counter() == next_tick(old(self).counter()),
            final(self).registry() == old(self).registry(),
            final(data).dt == final(self).counter(),
            out matches Some(sample) && sample == frame_sample(
                old(self).registry(),
                final(data).dt,
                old(data).notes@,
                levels@,
            ),
            final(data).notes@ == survivors(old(self).registry(), final(data).dt, old(data).notes@),
    {
        self.num_sample = if self.num_sample == u64::MAX {
            0
        } else {
            self.num_sample + 1
        };
        data.dt = self.num_sample;
        let noise: i64 = make_noise(data.dt, &mut data.notes, self.instruments.as_slice(), levels);
        Some(noise)
    }
}

/// Mixing adds up: the output for two notes is the sum of what each of them
/// contributes alone, scaled by the master gain.
pub proof fn law_mix_of_two(
    instruments: Seq<InstrumentType>,
    dt: u64,
    a: Note,
    b: Note,
    levels: Seq<Vec<i64>>,
)
    ensures
        frame_sample(instruments, dt, seq![a, b], levels) == fx_mul(
            clip(
                contribution(instruments, dt, a, levels_of(levels, 0)) + contribution(
                    instruments,
                    dt,
                    b,
                    levels_of(levels, 1),
                ),
            ),
            MASTER_GAIN as int,
        ),
{
    reveal_with_fuel(mix_sum, 3);
}

/// Mixing one more note adds its contribution to the sum of the others.
pub proof fn law_mix_adds_up(
    instruments: Seq<InstrumentType>,
    dt: u64,
    notes: Seq<Note>,
    n: Note,
    levels: Seq<Vec<i64>>,
)
    ensures
        mix_sum(instruments, dt, notes.push(n), levels, notes.len() as int + 1) == mix_sum(
            instruments,
            dt,
            notes,
            levels,
            notes.len() as int,
        ) + contribution(instruments, dt, n, levels_of(levels, notes.len() as int)),
{
    lemma_mix_sum_prefix(instruments, dt, notes, notes.push(n), levels, notes.len() as int);
}

/// The sum over the first `count` notes depends on those notes alone.
pub proof fn lemma_mix_sum_prefix(
    instruments: Seq<InstrumentType>,
    dt: u64,
    a: Seq<Note>,
    b: Seq<Note>,
    levels: Seq<Vec<i64>>,
    count: int,
)
    requires
        count <= a.len(),
        count <= b.len(),
        forall|k: int| 0 <= k < count ==> a[k] == b[k],
    ensures
        mix_sum(instruments, dt, a, levels, count) == mix_sum(instruments, dt, b, levels, count),
    decreases count,
{
    if count > 0 {
        lemma_mix_sum_prefix(instruments, dt, a, b, levels, count - 1);
    }
}

/// Only notes that stay are kept, and every kept note was there before.
pub proof fn lemma_survivors_stay(
    instruments: Seq<InstrumentType>,
    dt: u64,
    notes: Seq<Note>,
    n: Note,
)
    requires
        survivors(instruments, dt, notes).contains(n),
    ensures
        stays(instruments, dt, n),
        notes.contains(n),
{
    let pred = |m: Note| stays(instruments, dt, m);
    let k = choose|k: int|
        0 <= k < survivors(instruments, dt, notes).len() && survivors(instruments, dt, notes)[k]
            == n;
    notes.lemma_filter_pred(pred, k);
    notes.lemma_filter_contains_rev(pred, n);
}

/// A note that has been released and whose envelope has come to silence is
/// not kept: it is gone after the sample in which that holds.
pub proof fn law_eviction(instruments: Seq<InstrumentType>, dt: u64, notes: Seq<Note>, n: Note)
    requires
        !n.sounding(),
        envelope_level(instruments, dt, n) == 0,
    ensures
        !survivors(instruments, dt, notes).contains(n),
{
    if survivors(instruments, dt, notes).contains(n) {
        lemma_survivors_stay(instruments, dt, notes, n);
    }
}

/// A note that has reached the lifetime of its instrument is not kept,
/// whatever its envelope and whether or not its key is still down.
pub proof fn law_hard_cutoff(instruments: Seq<InstrumentType>, dt: u64, notes: Seq<Note>, n: Note)
    requires
        n.instrument_id < instruments.len(),
        instruments[n.instrument_id as int].lifetime() matches Some(cap) && dt - n.on >= cap,
    ensures
        !survivors(instruments, dt, notes).contains(n),
{
    if survivors(instruments, dt, notes).contains(n) {
        lemma_survivors_stay(instruments, dt, notes, n);
    }
}

/// A note of the kick drum is not kept once a second and a half have passed
/// since it was switched on. The kick drum is one that holds the lifetime
/// that `DrumKick::new` gives it.
pub proof fn law_drum_kick_cutoff(
    instruments: Seq<InstrumentType>,
    dt: u64,
    notes: Seq<Note>,
    n: Note,
)
    requires
        n.instrument_id < instruments.len(),
        instruments[n.instrument_id as int] is DrumKick,
        instruments[n.instrument_id as int].lifetime() == Some(
            crate::instruments::DRUM_KICK_LIFETIME,
        ),
        dt - n.on >= crate::instruments::DRUM_KICK_LIFETIME,
    ensures
        !survivors(instruments, dt, notes).contains(n),
{
    law_hard_cutoff(instruments, dt, notes, n);
}

/// No sample makes two notes of one pitch out of notes of distinct pitches.
pub proof fn law_survivors_distinct(instruments: Seq<InstrumentType>, dt: u64, notes: Seq<Note>)
    requires
        distinct_pitches(notes),
    ensures
        distinct_pitches(survivors(instruments, dt, notes)),
    decreases notes.len(),
{
    if notes.len() == 0 {
        reveal(Seq::filter);
    } else {
        let front = notes.drop_last();
        let n = notes.last();
        assert(front.push(n) =~= notes);
        law_survivors_distinct(instruments, dt, front);
        lemma_survivors_push(instruments, dt, front, n);
        let kept = survivors(instruments, dt, front);
        if stays(instruments, dt, n) {
            assert forall|i: int, j: int| 0 <= i < j < kept.push(n).len() implies kept.push(n)[i].id
                != kept.push(n)[j].id by {
                if j == kept.len() {
                    assert(kept.contains(kept[i]));
                    lemma_survivors_stay(instruments, dt, front, kept[i]);
                    let k = choose|k: int| 0 <= k < front.len() && front[k] == kept[i];
                    assert(notes[k] == kept[i]);
                }
            }
        }
    }
}

/// A key event leaves the pitches of the notes distinct.
pub proof fn law_event_keeps_pitches_distinct(
    notes: Seq<Note>,
    clock: u64,
    pitch_id: u8,
    instrument_id: usize,
    pressed: bool,
)
    requires
        distinct_pitches(notes),
    ensures
        distinct_pitches(after_event(notes, clock, pitch_id, instrument_id, pressed)),
{
    lemma_first_with_pitch(notes, pitch_id);
}

/// Pressing a key whose pitch has a note adds no note; if that note is held,
/// nothing changes at all.
pub proof fn law_retrigger(notes: Seq<Note>, clock: u64, pitch_id: u8, instrument_id: usize, i: int)
    requires
        0 <= i < notes.len(),
        notes[i].id == pitch_id,
    ensures
        after_event(notes, clock, pitch_id, instrument_id, true).len() == notes.len(),
        distinct_pitches(notes) && notes[i].sounding() ==> after_event(
            notes,
            clock,
            pitch_id,
            instrument_id,
            true,
        ) == notes,
{
    lemma_first_with_pitch(notes, pitch_id);
}

} // verus!
