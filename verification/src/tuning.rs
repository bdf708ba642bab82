//! Equal temperament: the frequency of a pitch index.
//!
//! Index 69 sounds at 440 Hz, each octave doubles the frequency, and the
//! twelve semitones of an octave divide it into equal ratios. Frequencies are
//! in millionths of a hertz. The twelve semitones are tabulated for the
//! highest octave that a transposed pitch can reach; lower octaves are had by
//! halving.

use vstd::prelude::*;
use vstd::arithmetic::div_mod::lemma_fundamental_div_mod_converse;
use vstd::arithmetic::power2::{lemma2_to64, pow2};
use vstd::bits::lemma_u64_shr_is_div;

verus! {

/// 440 Hz, the frequency of pitch index 69.
pub const CONCERT_PITCH: u64 = 440_000_000;

/// The octave that is tabulated. It holds the indices from 372 to 383.
pub const TOP_OCTAVE: u8 = 31;

/// The frequency of semitone `step` of the top octave.
pub open spec fn top_octave(step: int) -> int {
    if step == 0 {
        17_557_394_480_680_993
    } else if step == 1 {
        18_601_411_485_389_097
    } else if step == 2 {
        19_707_508_971_760_867
    } else if step == 3 {
        20_879_378_437_335_342
    } else if step == 4 {
        22_120_930_887_518_048
    } else if step == 5 {
        23_436_309_888_197_983
    } else if step == 6 {
        24_829_905_394_513_584
    } else if step == 7 {
        26_306_368_401_919_920
    } else if step == 8 {
        27_870_626_468_453_667
    } else if step == 9 {
        29_527_900_160_000_000
    } else if step == 10 {
        31_283_720_473_445_930
    } else {
        33_143_947_295_868_262
    }
}

/// The frequency of pitch index `index`, for an index up to 383: the
/// frequency of its semitone in the top octave, halved once for each octave
/// that it lies below, and cut to a whole number.
pub open spec fn spec_frequency(index: int) -> int {
    top_octave(index % 12) / (pow2((TOP_OCTAVE - index / 12) as nat) as int)
}

/// The frequency of the pitch `offset` semitones from `pitch`.
pub open spec fn spec_transpose(pitch: u8, offset: i8) -> int {
    spec_frequency(pitch + offset)
}

/// The frequency of semitone `step` of the top octave.
fn top_octave_entry(step: u16) -> (hertz: u64)
    requires
        step < 12,
    ensures
        hertz == top_octave(step as int),
{
    match step {
        0 => 17_557_394_480_680_993,
        1 => 18_601_411_485_389_097,
        2 => 19_707_508_971_760_867,
        3 => 20_879_378_437_335_342,
        4 => 22_120_930_887_518_048,
        5 => 23_436_309_888_197_983,
        6 => 24_829_905_394_513_584,
        7 => 26_306_368_401_919_920,
        8 => 27_870_626_468_453_667,
        9 => 29_527_900_160_000_000,
        10 => 31_283_720_473_445_930,
        _ => 33_143_947_295_868_262,
    }
}

/// The frequency of the pitch `offset` semitones from `pitch`.
pub fn transpose(pitch: u8, offset: i8) -> (hertz: u64)
    ensures
        hertz == spec_transpose(pitch, offset),
{
    // eleven octaves up, so that nothing is negative
    let raised: u16 = (pitch as i16 + offset as i16 + 132) as u16;
    let step: u16 = raised % 12;
    let octave: u16 = raised / 12;
    let halvings: u64 = (42 - octave) as u64;
    let top: u64 = top_octave_entry(step);
    proof {
        let index = pitch + offset;
        lemma_fundamental_div_mod_converse(index, 12, octave - 11, step as int);
        lemma_u64_shr_is_div(top, halvings);
    }
    top >> halvings
}

/// `x` to the twelfth power.
pub open spec fn twelfth_power(x: int) -> int {
    let square = x * x;
    let cube = square * x;
    let sixth = cube * cube;
    sixth * sixth
}

/// The table is equal-tempered: the frequency of semitone `step` of the top
/// octave differs by at most half a unit from the frequency of its A times
/// the twelfth root of two taken `step - 9` times. With `f` for the tabulated
/// frequency and `a` for that of the A, this says
/// `(f - 1/2)^12 <= a^12 * 2^(step - 9) <= (f + 1/2)^12`, here with both
/// sides multiplied by `2^12 * 2^9`.
pub proof fn law_equal_temperament(step: int)
    requires
        0 <= step < 12,
    ensures
        twelfth_power(2 * top_octave(step) - 1) * pow2(9) <= twelfth_power(2 * top_octave(9))
            * pow2(step as nat),
        twelfth_power(2 * top_octave(9)) * pow2(step as nat) <= twelfth_power(
            2 * top_octave(step) + 1,
        ) * pow2(9),
{
    lemma2_to64();
    if step == 0 {
        assert(twelfth_power(35_114_788_961_361_985) * 512 <= twelfth_power(59_055_800_320_000_000) * 1)
            by (nonlinear_arith);
        assert(twelfth_power(59_055_800_320_000_000) * 1 <= twelfth_power(35_114_788_961_361_987) * 512)
            by (nonlinear_arith);
    } else if step == 1 {
        assert(twelfth_power(37_202_822_970_778_193) * 512 <= twelfth_power(59_055_800_320_000_000) * 2)
            by (nonlinear_arith);
        assert(twelfth_power(59_055_800_320_000_000) * 2 <= twelfth_power(37_202_822_970_778_195) * 512)
            by (nonlinear_arith);
    } else if step == 2 {
        assert(twelfth_power(39_415_017_943_521_733) * 512 <= twelfth_power(59_055_800_320_000_000) * 4)
            by (nonlinear_arith);
        assert(twelfth_power(59_055_800_320_000_000) * 4 <= twelfth_power(39_415_017_943_521_735) * 512)
            by (nonlinear_arith);
    } else if step == 3 {
        assert(twelfth_power(41_758_756_874_670_683) * 512 <= twelfth_power(59_055_800_320_000_000) * 8)
            by (nonlinear_arith);
        assert(twelfth_power(59_055_800_320_000_000) * 8 <= twelfth_power(41_758_756_874_670_685) * 512)
            by (nonlinear_arith);
    } else if step == 4 {
        assert(twelfth_power(44_241_861_775_036_095) * 512 <= twelfth_power(59_055_800_320_000_000) * 16)
            by (nonlinear_arith);
        assert(twelfth_power(59_055_800_320_000_000) * 16 <= twelfth_power(44_241_861_775_036_097) * 512)
            by (nonlinear_arith);
    } else if step == 5 {
        assert(twelfth_power(46_872_619_776_395_965) * 512 <= twelfth_power(59_055_800_320_000_000) * 32)
            by (nonlinear_arith);
        assert(twelfth_power(59_055_800_320_000_000) * 32 <= twelfth_power(46_872_619_776_395_967) * 512)
            by (nonlinear_arith);
    } else if step == 6 {
        assert(twelfth_power(49_659_810_789_027_167) * 512 <= twelfth_power(59_055_800_320_000_000) * 64)
            by (nonlinear_arith);
        assert(twelfth_power(59_055_800_320_000_000) * 64 <= twelfth_power(49_659_810_789_027_169) * 512)
            by (nonlinear_arith);
    } else if step == 7 {
        assert(twelfth_power(52_612_736_803_839_839) * 512 <= twelfth_power(59_055_800_320_000_000) * 128)
            by (nonlinear_arith);
        assert(twelfth_power(59_055_800_320_000_000) * 128 <= twelfth_power(52_612_736_803_839_841) * 512)
            by (nonlinear_arith);
    } else if step == 8 {
        assert(twelfth_power(55_741_252_936_907_333) * 512 <= twelfth_power(59_055_800_320_000_000) * 256)
            by (nonlinear_arith);
        assert(twelfth_power(59_055_800_320_000_000) * 256 <= twelfth_power(55_741_252_936_907_335) * 512)
            by (nonlinear_arith);
    } else if step == 9 {
        assert(twelfth_power(59_055_800_319_999_999) * 512 <= twelfth_power(59_055_800_320_000_000) * 512)
            by (nonlinear_arith);
        assert(twelfth_power(59_055_800_320_000_000) * 512 <= twelfth_power(59_055_800_320_000_001) * 512)
            by (nonlinear_arith);
    } else if step == 10 {
        assert(twelfth_power(62_567_440_946_891_859) * 512 <= twelfth_power(59_055_800_320_000_000) * 1_024)
            by (nonlinear_arith);
        assert(twelfth_power(59_055_800_320_000_000) * 1_024 <= twelfth_power(62_567_440_946_891_861) * 512)
            by (nonlinear_arith);
    } else {
        assert(twelfth_power(66_287_894_591_736_523) * 512 <= twelfth_power(59_055_800_320_000_000) * 2_048)
            by (nonlinear_arith);
        assert(twelfth_power(59_055_800_320_000_000) * 2_048 <= twelfth_power(66_287_894_591_736_525) * 512)
            by (nonlinear_arith);
    }
}

/// A pitch sounds at half the frequency of the pitch an octave above it,
/// cut to a whole number.
pub proof fn law_octave_doubles(index: int)
    requires
        index + 12 <= 383,
    ensures
        spec_frequency(index) == spec_frequency(index + 12) / 2,
{
    let octave = index / 12;
    let step = index % 12;
    lemma_fundamental_div_mod_converse(index + 12, 12, octave + 1, step);
    let halvings = (TOP_OCTAVE - (octave + 1)) as nat;
    assert(pow2(halvings + 1) == 2 * pow2(halvings)) by {
        vstd::arithmetic::power2::lemma_pow2_unfold(halvings + 1);
    }
    vstd::arithmetic::power2::lemma_pow2_pos(halvings);
    vstd::arithmetic::div_mod::lemma_div_denominator(top_octave(step), pow2(halvings) as int, 2);
}

/// A higher pitch has no lower frequency.
pub proof fn law_frequency_rises(index: int)
    requires
        index + 1 <= 383,
    ensures
        spec_frequency(index) <= spec_frequency(index + 1),
{
    let octave = index / 12;
    let step = index % 12;
    let halvings = (TOP_OCTAVE - octave) as nat;
    vstd::arithmetic::power2::lemma_pow2_pos(halvings);
    if step < 11 {
        lemma_fundamental_div_mod_converse(index + 1, 12, octave, step + 1);
        vstd::arithmetic::div_mod::lemma_div_is_ordered(
            top_octave(step),
            top_octave(step + 1),
            pow2(halvings) as int,
        );
    } else {
        lemma_fundamental_div_mod_converse(index + 1, 12, octave + 1, 0);
        let fewer = (halvings - 1) as nat;
        vstd::arithmetic::power2::lemma_pow2_pos(fewer);
        vstd::arithmetic::power2::lemma_pow2_unfold(halvings);
        vstd::arithmetic::div_mod::lemma_div_is_ordered(
            top_octave(11),
            2 * top_octave(0),
            pow2(halvings) as int,
        );
        vstd::arithmetic::div_mod::lemma_div_denominator(2 * top_octave(0), 2, pow2(fewer) as int);
    }
}

/// The frequency of a transposed pitch fits in 64 bits and is not zero.
pub proof fn lemma_frequency_bounds(pitch: u8, offset: i8)
    ensures
        0 < spec_transpose(pitch, offset) <= 33_143_947_295_868_262,
{
    let index = pitch + offset;
    let halvings = (TOP_OCTAVE - index / 12) as nat;
    let top = top_octave(index % 12);
    lemma2_to64();
    vstd::arithmetic::power2::lemma_pow2_pos(halvings);
    assert(pow2(halvings) <= pow2(42)) by {
        if halvings < 42 {
            vstd::arithmetic::power2::lemma_pow2_strictly_increases(halvings, 42);
        }
    }
    assert(pow2(42) == 0x400_0000_0000) by {
        vstd::arithmetic::power2::lemma_pow2_adds(32, 10);
    }
    vstd::arithmetic::div_mod::lemma_div_is_ordered(pow2(halvings) as int, top, pow2(halvings) as int);
}

/// Pitch index 69 sounds at 440 Hz.
pub proof fn law_concert_pitch()
    ensures
        spec_frequency(69) == CONCERT_PITCH,
{
    lemma2_to64();
    assert(pow2(26) == 0x400_0000);
    assert(29_527_900_160_000_000int / 0x400_0000 == 440_000_000);
}

} // verus!
