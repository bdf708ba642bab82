//! The attack-decay-sustain-release envelope.
//!
//! The amplitude of a note is a function of three instants alone: the
//! current time, the time the note was switched on and the time it was
//! switched off. Nothing is stored between calls.

use vstd::prelude::*;
use vstd::arithmetic::div_mod::{lemma_div_is_ordered, lemma_div_multiples_vanish, lemma_div_pos_is_pos};
use vstd::arithmetic::mul::{lemma_mul_inequality, lemma_mul_is_commutative, lemma_mul_nonnegative};

verus! {

/// An amplitude at or below this many millionths counts as silence.
pub const SILENCE_THRESHOLD: u32 = 100;

/// The value `step` ticks into a straight line that leads from `from` to `to`
/// in `span` ticks. Between two representable values it takes the one nearer
/// to `from`.
pub open spec fn ramp(from: int, to: int, step: int, span: int) -> int
    recommends
        0 <= step <= span,
        0 < span,
{
    if to >= from {
        from + ((to - from) * step) / span
    } else {
        from - ((from - to) * step) / span
    }
}

/// An amplitude at or below the silence threshold becomes exactly zero.
pub open spec fn snap(level: int) -> int {
    if level <= SILENCE_THRESHOLD {
        0
    } else {
        level
    }
}

/// The larger of two amplitudes.
pub open spec fn larger(a: int, b: int) -> int {
    if a >= b {
        a
    } else {
        b
    }
}

/// The parameters of an envelope. Durations are in ticks, amplitudes in
/// millionths.
#[derive(Clone, Copy, PartialEq, Eq, Structural, Debug)]
pub struct EnvelopeADSR {
    pub attack_time: u64,
    pub decay_time: u64,
    pub sustain_amplitude: u32,
    pub release_time: u64,
    pub start_amplitude: u32,
}

/// A ramp stays between its two ends.
pub proof fn lemma_ramp_between(from: int, to: int, step: int, span: int)
    requires
        0 <= step <= span,
        0 < span,
    ensures
        to >= from ==> from <= ramp(from, to, step, span) <= to,
        to < from ==> to <= ramp(from, to, step, span) <= from,
{
    let d = if to >= from {
        to - from
    } else {
        from - to
    };
    lemma_mul_nonnegative(d, step);
    lemma_div_pos_is_pos(d * step, span);
    lemma_mul_inequality(step, span, d);
    lemma_mul_is_commutative(step, d);
    lemma_div_is_ordered(d * step, d * span, span);
    lemma_div_multiples_vanish(d, span);
    lemma_mul_is_commutative(span, d);
}

/// A ramp reaches `to` at its last tick and is at `from` at its first.
pub proof fn lemma_ramp_ends(from: int, to: int, span: int)
    requires
        0 < span,
    ensures
        ramp(from, to, 0, span) == from,
        ramp(from, to, span, span) == to,
{
    let d = if to >= from {
        to - from
    } else {
        from - to
    };
    assert(d * 0 == 0) by (nonlinear_arith);
    assert(0int / span == 0) by (nonlinear_arith)
        requires
            0 < span,
    ;
    lemma_div_multiples_vanish(d, span);
    lemma_mul_is_commutative(span, d);
}

/// A falling ramp does not rise from one tick to a later one.
pub proof fn lemma_ramp_falls(from: int, to: int, early: int, late: int, span: int)
    requires
        to <= from,
        0 <= early <= late,
        0 < span,
    ensures
        ramp(from, to, late, span) <= ramp(from, to, early, span),
{
    if to < from {
        let d = from - to;
        lemma_mul_inequality(early, late, d);
        lemma_mul_is_commutative(early, d);
        lemma_mul_is_commutative(late, d);
        lemma_div_is_ordered(d * early, d * late, span);
    } else {
        assert(0 * early == 0) by (nonlinear_arith);
        assert(0 * late == 0) by (nonlinear_arith);
    }
}

impl EnvelopeADSR {
    /// The amplitude of a note that has been held for `elapsed` ticks: the
    /// attack ramp from silence to the start amplitude, then the decay ramp to
    /// the sustain amplitude, then the sustain amplitude. Before the note was
    /// switched on it is silent. An attack of no duration is over at once.
    pub open spec fn held_level(&self, elapsed: int) -> int {
        if elapsed < 0 {
            0
        } else if elapsed <= self.attack_time {
            if self.attack_time == 0 {
                self.start_amplitude as int
            } else {
                ramp(0, self.start_amplitude as int, elapsed, self.attack_time as int)
            }
        } else if elapsed <= self.attack_time + self.decay_time {
            ramp(
                self.start_amplitude as int,
                self.sustain_amplitude as int,
                elapsed - self.attack_time,
                self.decay_time as int,
            )
        } else {
            self.sustain_amplitude as int
        }
    }

    /// The amplitude `since` ticks after a note was switched off at the
    /// amplitude `level`: a ramp from `level` to silence over the release
    /// time. A release of no duration is over at once.
    pub open spec fn released_level(&self, level: int, since: int) -> int {
        if since < 0 {
            level
        } else if since >= self.release_time {
            0
        } else {
            ramp(level, 0, since, self.release_time as int)
        }
    }

    /// The amplitude at time `dt` of a note switched on at `dt_on` and off at
    /// `dt_off`. A note with `dt_on` of zero was never switched on. A note is
    /// held while `dt_on > dt_off`; otherwise it has been released, from the
    /// amplitude it had reached after being held for `dt_off - dt_on` ticks.
    pub open spec fn spec_amplitude(&self, dt: int, dt_on: int, dt_off: int) -> int {
        if dt_on <= 0 {
            0
        } else if dt_on > dt_off {
            snap(self.held_level(dt - dt_on))
        } else {
            snap(self.released_level(self.held_level(dt_off - dt_on), dt - dt_off))
        }
    }

    /// The largest amplitude the envelope can take.
    pub open spec fn peak(&self) -> int {
        larger(self.start_amplitude as int, self.sustain_amplitude as int)
    }

    /// The held amplitude never leaves the range from silence to the peak.
    pub proof fn lemma_held_level_bounds(&self, elapsed: int)
        ensures
            0 <= self.held_level(elapsed) <= self.peak(),
    {
        if 0 <= elapsed <= self.attack_time && self.attack_time > 0 {
            lemma_ramp_between(0, self.start_amplitude as int, elapsed, self.attack_time as int);
        } else if self.attack_time < elapsed <= self.attack_time + self.decay_time {
            lemma_ramp_between(
                self.start_amplitude as int,
                self.sustain_amplitude as int,
                elapsed - self.attack_time,
                self.decay_time as int,
            );
        }
    }

    /// The released amplitude never leaves the range from silence to the
    /// amplitude at release.
    pub proof fn lemma_released_level_bounds(&self, level: int, since: int)
        requires
            0 <= level,
        ensures
            0 <= self.released_level(level, since) <= level,
    {
        if 0 <= since < self.release_time {
            lemma_ramp_between(level, 0, since, self.release_time as int);
        }
    }

    /// The envelope's amplitude lies between silence and the peak.
    pub proof fn lemma_amplitude_bounds(&self, dt: int, dt_on: int, dt_off: int)
        ensures
            0 <= self.spec_amplitude(dt, dt_on, dt_off) <= self.peak(),
    {
        self.lemma_held_level_bounds(dt - dt_on);
        self.lemma_held_level_bounds(dt_off - dt_on);
        self.lemma_released_level_bounds(self.held_level(dt_off - dt_on), dt - dt_off);
    }
}

/// Computes a point of a ramp.
fn interpolate(from: u32, to: u32, step: u64, span: u64) -> (r: u32)
    requires
        step <= span,
        0 < span,
    ensures
        r == ramp(from as int, to as int, step as int, span as int),
{
    proof {
        lemma_ramp_between(from as int, to as int, step as int, span as int);
    }
    if to >= from {
        let d: u128 = (to - from) as u128;
        assert(d * step <= 0xffff_ffff * 0xffff_ffff_ffff_ffff) by (nonlinear_arith)
            requires
                0 <= d <= 0xffff_ffff,
                0 <= step <= 0xffff_ffff_ffff_ffff,
        ;
        let q: u128 = d * (step as u128) / (span as u128);
        from + (q as u32)
    } else {
        let d: u128 = (from - to) as u128;
        assert(d * step <= 0xffff_ffff * 0xffff_ffff_ffff_ffff) by (nonlinear_arith)
            requires
                0 <= d <= 0xffff_ffff,
                0 <= step <= 0xffff_ffff_ffff_ffff,
        ;
        let q: u128 = d * (step as u128) / (span as u128);
        from - (q as u32)
    }
}

impl EnvelopeADSR {
    /// The amplitude after the note has been held for `elapsed` ticks.
    pub fn held(&self, elapsed: u64) -> (level: u32)
        ensures
            level == self.held_level(elapsed as int),
    {
        if elapsed <= self.attack_time {
            if self.attack_time == 0 {
                self.start_amplitude
            } else {
                interpolate(0, self.start_amplitude, elapsed, self.attack_time)
            }
        } else if elapsed - self.attack_time <= self.decay_time {
            interpolate(
                self.start_amplitude,
                self.sustain_amplitude,
                elapsed - self.attack_time,
                self.decay_time,
            )
        } else {
            self.sustain_amplitude
        }
    }

    /// The amplitude `since` ticks after release from the amplitude `level`.
    pub fn released(&self, level: u32, since: u64) -> (out: u32)
        ensures
            out == self.released_level(level as int, since as int),
    {
        if since >= self.release_time {
            0
        } else {
            interpolate(level, 0, since, self.release_time)
        }
    }

    /// The amplitude at time `dt` of a note switched on at `dt_on` and off at
    /// `dt_off`, all three in ticks.
    pub fn amplitude(&self, dt: u64, dt_on: u64, dt_off: u64) -> (level: u32)
        ensures
            level == self.spec_amplitude(dt as int, dt_on as int, dt_off as int),
            level <= self.peak(),
    {
        proof {
            self.lemma_amplitude_bounds(dt as int, dt_on as int, dt_off as int);
        }
        if dt_on == 0 {
            return 0;
        }
        let raw: u32 = if dt_on > dt_off {
            if dt < dt_on {
                0
            } else {
                self.held(dt - dt_on)
            }
        } else {
            let at_release: u32 = self.held(dt_off - dt_on);
            if dt < dt_off {
                at_release
            } else {
                self.released(at_release, dt - dt_off)
            }
        };
        if raw <= SILENCE_THRESHOLD {
            0
        } else {
            raw
        }
    }
}

impl Default for EnvelopeADSR {
    /// A tenth of a second each of attack and decay, full start and sustain
    /// amplitude, a fifth of a second of release.
    fn default() -> (env: Self)
        ensures
            env == (EnvelopeADSR {
                attack_time: 4_800,
                decay_time: 4_800,
                sustain_amplitude: 1_000_000,
                release_time: 9_600,
                start_amplitude: 1_000_000,
            }),
    {
        Self {
            attack_time: 4_800,
            decay_time: 4_800,
            sustain_amplitude: 1_000_000,
            release_time: 9_600,
            start_amplitude: 1_000_000,
        }
    }
}

/// The shape of the envelope of a held note. For a note switched on at
/// `on > 0` and not switched off: at the instant it is switched on it is
/// silent, provided the attack has a duration; when the attack ends it is at
/// the start amplitude; and at every instant after the decay has ended it is
/// at the sustain amplitude. Each amplitude is subject to the silence
/// threshold.
pub proof fn law_envelope_shape(env: EnvelopeADSR, on: int, after: int)
    requires
        0 < on,
        0 < after,
    ensures
        env.attack_time > 0 ==> env.spec_amplitude(on, on, 0) == 0,
        env.spec_amplitude(on + env.attack_time, on, 0) == snap(env.start_amplitude as int),
        env.spec_amplitude(on + env.attack_time + env.decay_time + after, on, 0) == snap(
            env.sustain_amplitude as int,
        ),
{
    if env.attack_time > 0 {
        lemma_ramp_ends(0, env.start_amplitude as int, env.attack_time as int);
    }
}

/// The same shape for a note that was switched off once and on again later,
/// so that `on > off`.
pub proof fn law_envelope_shape_rearmed(env: EnvelopeADSR, on: int, off: int, after: int)
    requires
        0 < on,
        off < on,
        0 < after,
    ensures
        env.attack_time > 0 ==> env.spec_amplitude(on, on, off) == 0,
        env.spec_amplitude(on + env.attack_time, on, off) == snap(env.start_amplitude as int),
        env.spec_amplitude(on + env.attack_time + env.decay_time + after, on, off) == snap(
            env.sustain_amplitude as int,
        ),
{
    if env.attack_time > 0 {
        lemma_ramp_ends(0, env.start_amplitude as int, env.attack_time as int);
    }
}

/// While a note is released its amplitude never rises: with the instants of
/// switching on and off fixed, a later time gives an amplitude no larger than
/// an earlier one.
pub proof fn law_release_monotone(env: EnvelopeADSR, on: int, off: int, early: int, late: int)
    requires
        on <= off,
        early <= late,
    ensures
        env.spec_amplitude(late, on, off) <= env.spec_amplitude(early, on, off),
{
    if on > 0 {
        let level = env.held_level(off - on);
        env.lemma_held_level_bounds(off - on);
        let s1 = early - off;
        let s2 = late - off;
        env.lemma_released_level_bounds(level, s1);
        env.lemma_released_level_bounds(level, s2);
        if 0 <= s1 && s2 < env.release_time {
            lemma_ramp_falls(level, 0, s1, s2, env.release_time as int);
        }
    }
}

/// An envelope whose start and sustain amplitudes are at most 1 never leaves
/// the range from 0 to 1.
pub proof fn law_amplitude_within_unit(env: EnvelopeADSR, now: int, on: int, off: int)
    requires
        env.start_amplitude <= crate::fixed::ONE,
        env.sustain_amplitude <= crate::fixed::ONE,
    ensures
        0 <= env.spec_amplitude(now, on, off) <= crate::fixed::ONE,
{
    env.lemma_amplitude_bounds(now, on, off);
}

/// A note that is switched off at the instant it is switched on counts as
/// released after no time of sounding: if the attack has a duration, it is
/// silent at all times.
pub proof fn law_instant_release_is_silent(env: EnvelopeADSR, on: int, now: int)
    requires
        env.attack_time > 0,
    ensures
        env.spec_amplitude(now, on, on) == 0,
{
    lemma_ramp_ends(0, env.start_amplitude as int, env.attack_time as int);
    if 0 <= now - on < env.release_time {
        lemma_ramp_between(0, 0, now - on, env.release_time as int);
    }
}

/// A released note is silent once the release time has passed.
pub proof fn law_release_ends(env: EnvelopeADSR, on: int, off: int, now: int)
    requires
        on <= off,
        now >= off + env.release_time,
    ensures
        env.spec_amplitude(now, on, off) == 0,
{
}

} // verus!
