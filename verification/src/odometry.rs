//! Distance travelled by a wheel, from two readings of its encoder.

use vstd::prelude::*;

verus! {

/// Distance that a wheel travels per encoder tick, in units of 100 nm
/// (0.0006108 m).
pub const TICK_LENGTH: i64 = 6108;

/// Which way the robot is driven.
#[derive(Clone, Copy, Debug, PartialEq, Eq, Structural)]
pub enum DriveDirection {
    Forward,
    Reverse,
}

/// Readings that a 16-bit encoder has: behind 65535 it rolls over to 0.
pub const ENCODER_MODULUS: i32 = 0x1_0000;

/// The ticks between two readings of a 16-bit encoder that rolls over.
///
/// Driving forward the encoder counts up, and a current reading below the
/// previous one means that it rolled over from 65535 to 0 in between. In
/// reverse it counts down, the ticks are negative, and a current reading
/// above the previous one means that it rolled over from 0 to 65535.
pub open spec fn spec_encoder_ticks(curr: u16, prev: u16, direction: DriveDirection) -> int {
    match direction {
        DriveDirection::Forward => if curr >= prev {
            curr - prev
        } else {
            curr + ENCODER_MODULUS - prev
        },
        DriveDirection::Reverse => if curr <= prev {
            -(prev - curr)
        } else {
            -(prev + ENCODER_MODULUS - curr)
        },
    }
}

/// The ticks are the difference of the two readings in 16-bit wraparound
/// arithmetic: forward the current less the previous reading, in reverse
/// the previous less the current one, counted as negative.
pub proof fn lemma_ticks_are_wraparound_difference(curr: u16, prev: u16)
    ensures
        spec_encoder_ticks(curr, prev, DriveDirection::Forward) == (curr - prev)
            % (ENCODER_MODULUS as int),
        spec_encoder_ticks(curr, prev, DriveDirection::Reverse) == -((prev - curr)
            % (ENCODER_MODULUS as int)),
{
}

/// The ticks between the previous and the current reading of an encoder.
pub fn encoder_ticks(curr_encoder: u16, prev_encoder: u16, direction: DriveDirection) -> (ticks:
    i32)
    ensures
        ticks == spec_encoder_ticks(curr_encoder, prev_encoder, direction),
        direction == DriveDirection::Forward ==> 0 <= ticks <= u16::MAX,
        direction == DriveDirection::Reverse ==> -(u16::MAX as int) <= ticks <= 0,
{
    let curr: i32 = curr_encoder as i32;
    let prev: i32 = prev_encoder as i32;
    match direction {
        DriveDirection::Forward => if curr >= prev {
            curr - prev
        } else {
            curr + ENCODER_MODULUS - prev
        },
        DriveDirection::Reverse => if curr <= prev {
            -(prev - curr)
        } else {
            -(prev + ENCODER_MODULUS - curr)
        },
    }
}

/// The distance travelled between two readings of an encoder, in units of
/// 100 nm: positive driving forward, negative in reverse.
pub fn measure_distance(curr_encoder: u16, prev_encoder: u16, direction: DriveDirection) -> (d:
    i64)
    ensures
        d == TICK_LENGTH * spec_encoder_ticks(curr_encoder, prev_encoder, direction),
        direction == DriveDirection::Forward ==> d >= 0,
        direction == DriveDirection::Reverse ==> d <= 0,
{
    let ticks = encoder_ticks(curr_encoder, prev_encoder, direction);
    TICK_LENGTH * (ticks as i64)
}

} // verus!
