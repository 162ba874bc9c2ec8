//! Derivation of the frame count from the recorded input count.
//!
//! The container does not store a frame count; it is derived from the input
//! count through a fixed polling-rate ratio: `234` input-polling events span
//! `FPS` video frames, where `FPS = 59.83122493939037` frames per second is
//! the platform's hardware timing constant, taken from the third-party
//! description of the container format. The derived count is
//! `floor(input_count / (234 / FPS))`, which over the integers is
//! `input_count * 5983122493939037 / 23400000000000000` (the constant `FPS`
//! scaled by `10^14`, and the denominator `234` scaled by the same power).
use vstd::prelude::*;

verus! {

/// `FPS * 10^14`: the frames-per-second timing constant as an integer.
pub const FPS_TICKS: u64 = 5983122493939037;

/// `234 * 10^14`: inputs per `FPS_TICKS` frame-ticks, on the same scale.
pub const INPUT_RATIO_TICKS: u64 = 23400000000000000;

/// The frame count derived from an input count:
/// `floor(inputs / (234 / FPS))` computed exactly over the integers.
pub open spec fn spec_frame_count(inputs: int) -> int {
    inputs * (FPS_TICKS as int) / (INPUT_RATIO_TICKS as int)
}

/// The derived frame count is monotonic: more recorded inputs never yield
/// fewer derived frames.
pub proof fn lemma_frame_count_monotonic(a: int, b: int)
    requires
        0 <= a <= b,
    ensures
        spec_frame_count(a) <= spec_frame_count(b),
{
    vstd::arithmetic::mul::lemma_mul_inequality(a, b, FPS_TICKS as int);
    vstd::arithmetic::div_mod::lemma_div_is_ordered(
        a * (FPS_TICKS as int),
        b * (FPS_TICKS as int),
        INPUT_RATIO_TICKS as int,
    );
}

/// The derived frame count never exceeds the input count itself
/// (the ratio of frames to inputs is below one).
pub proof fn lemma_frame_count_le_inputs(inputs: int)
    requires
        0 <= inputs,
    ensures
        0 <= spec_frame_count(inputs) <= inputs,
{
    vstd::arithmetic::mul::lemma_mul_inequality(FPS_TICKS as int, INPUT_RATIO_TICKS as int, inputs);
    vstd::arithmetic::div_mod::lemma_div_is_ordered(
        inputs * (FPS_TICKS as int),
        inputs * (INPUT_RATIO_TICKS as int),
        INPUT_RATIO_TICKS as int,
    );
    vstd::arithmetic::div_mod::lemma_div_multiples_vanish(inputs, INPUT_RATIO_TICKS as int);
    vstd::arithmetic::div_mod::lemma_div_pos_is_pos(inputs * (FPS_TICKS as int), INPUT_RATIO_TICKS as int);
    vstd::arithmetic::mul::lemma_mul_nonnegative(inputs, FPS_TICKS as int);
}

/// Computes the frame count derived from `inputs`.
pub fn frame_count_from_inputs(inputs: u64) -> (r: u64)
    ensures
        r == spec_frame_count(inputs as int),
{
    let wide: u128 = (inputs as u128) * (FPS_TICKS as u128);
    let quotient: u128 = wide / (INPUT_RATIO_TICKS as u128);
    proof {
        lemma_frame_count_le_inputs(inputs as int);
    }
    quotient as u64
}

} // verus!
