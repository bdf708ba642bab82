//! A polyphonic synthesis engine in fixed-point arithmetic.
//!
//! Time is counted in sample ticks of `1 / SAMPLE_RATE` seconds, and every
//! amplitude, weight, gain and signal level is an integer number of
//! millionths; frequencies are in millionths of a hertz. The engine decides
//! when notes start, release and end, shapes them with an
//! attack-decay-sustain-release envelope and mixes them. The waveforms that
//! need trigonometry are evaluated by the caller and handed in as levels; the
//! engine says at what time and frequency each is to be evaluated.
//!
//! - [`fixed`]: the units, and products that saturate.
//! - [`tuning`]: the frequency of a pitch in equal temperament.
//! - [`note`]: pitches by name.
//! - [`envelope`]: the envelope.
//! - [`oscillator`]: the sawtooth and noise.
//! - [`instruments`]: the instruments and the sample of one note.
//! - [`noise_maker`]: the notes of a session, key events, and the step that
//!   produces one output sample.
//! - [`keyboard`]: the keys of a computer keyboard as piano keys.

pub mod fixed;
pub mod tuning;
pub mod note;
pub mod envelope;
pub mod oscillator;
pub mod instruments;
pub mod noise_maker;
pub mod keyboard;
