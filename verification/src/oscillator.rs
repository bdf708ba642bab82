//! The waveforms that need no trigonometry: the sawtooth in closed form and
//! noise. The levels of the others are computed by the caller.

use vstd::prelude::*;
use vstd::arithmetic::div_mod::{
    lemma_add_mod_noop, lemma_div_is_ordered, lemma_div_pos_is_pos,
    lemma_fundamental_div_mod_converse, lemma_mod_bound, lemma_mul_mod_noop_general,
};
use crate::fixed::ONE;

verus! {

/// The number of ticks in a second times the number of millionths in a
/// hertz: time in ticks times frequency in millionths of a hertz, divided by
/// this, is a number of cycles.
pub const CYCLE: u64 = 48_000_000_000;

/// The place within its cycle, from `0` to `CYCLE - 1`, of a wave of
/// `frequency` millionths of a hertz at `ticks` ticks.
pub open spec fn cycle_position(ticks: int, frequency: int) -> int {
    (frequency * ticks) % (CYCLE as int)
}

/// The sawtooth: it rises in a straight line from -1 at the start of each
/// cycle to 1 at its end, `2 * f * (t mod 1/f) - 1`, cut to a whole number
/// of millionths.
pub open spec fn saw_level(ticks: int, frequency: int) -> int {
    (2 * ONE * cycle_position(ticks, frequency)) / (CYCLE as int) - ONE
}

/// The sawtooth stays within -1 and 1.
pub proof fn law_saw_bounds(ticks: int, frequency: int)
    ensures
        -ONE <= saw_level(ticks, frequency) < ONE,
{
    let place = cycle_position(ticks, frequency);
    lemma_mod_bound(frequency * ticks, CYCLE as int);
    lemma_div_pos_is_pos(2_000_000 * place, CYCLE as int);
    lemma_div_is_ordered(2_000_000 * place, 95_999_999_998_000_000, CYCLE as int);
}

/// The sawtooth starts each cycle at -1.
pub proof fn law_saw_starts_low(frequency: int)
    ensures
        saw_level(0, frequency) == -ONE,
{
    assert(frequency * 0 == 0) by (nonlinear_arith);
    assert(2 * ONE * 0 == 0);
}

/// The sawtooth repeats after every whole number of cycles: if `frequency`
/// times `period` is a whole number of cycles, the level `period` ticks later
/// is the same.
pub proof fn law_saw_repeats(ticks: int, frequency: int, period: int)
    requires
        (frequency * period) % (CYCLE as int) == 0,
    ensures
        saw_level(ticks + period, frequency) == saw_level(ticks, frequency),
{
    let d = CYCLE as int;
    assert(frequency * (ticks + period) == frequency * ticks + frequency * period)
        by (nonlinear_arith);
    lemma_add_mod_noop(frequency * ticks, frequency * period, d);
}

/// The level of the sawtooth of `frequency` millionths of a hertz at `ticks`
/// ticks.
pub fn saw_fast(ticks: i128, frequency: u64) -> (level: i64)
    ensures
        level == saw_level(ticks as int, frequency as int),
{
    let d: i128 = CYCLE as i128;
    let t: i128 = ((ticks % d) + d) % d;
    let f: i128 = (frequency % CYCLE) as i128;
    proof {
        lemma_mul_mod_noop_general(frequency as int, ticks as int, d as int);
        lemma_fundamental_div_mod_converse(
            ticks as int,
            d as int,
            ticks as int / (d as int),
            t as int,
        );
        assert(0 <= f * t <= 48_000_000_000 * 48_000_000_000) by (nonlinear_arith)
            requires
                0 <= f < 48_000_000_000,
                0 <= t < 48_000_000_000,
        ;
        law_saw_bounds(ticks as int, frequency as int);
    }
    let place: i128 = (f * t) % d;
    let doubled: i128 = 2 * (ONE as i128) * place;
    (doubled / d - ONE as i128) as i64
}

/// Draws an `i32` from `low..high` with `fastrand::i32`, the generator of the
/// current thread. Nothing is claimed of the value but that it lies in the
/// range; an empty range, on which the generator panics, is left out.
#[verifier::external_body]
fn random_in(low: i32, high: i32) -> (draw: i32)
    requires
        low < high,
    ensures
        low <= draw < high,
{
    fastrand::i32(low..high)
}

/// The level that a draw stands for: as many whole units as the draw says.
pub open spec fn draw_level(draw: i32) -> int {
    draw * ONE
}

/// The level that a draw stands for.
pub fn level_of_draw(draw: i32) -> (level: i64)
    ensures
        level == draw_level(draw),
{
    draw as i64 * ONE
}

/// One sample of noise: either silence or a full negative level, at random.
/// It is the level of a draw from the two numbers -1 and 0.
pub fn noise_level() -> (level: i64)
    ensures
        level == 0 || level == -ONE,
{
    let draw: i32 = random_in(-1, 1);
    level_of_draw(draw)
}

} // verus!
