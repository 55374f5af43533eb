//! Command frames sent to the drive base.
//!
//! Every function here returns the complete frame of one command; writing
//! it to the serial line is left to the caller.

use crate::kobuki::utilities::{frame, frame_of};
use crate::wire::{push_i16_le, push_u32_le, spec_i16_bytes, spec_u32_bytes};
use vstd::prelude::*;

verus! {

/// The predefined sound sequences of the base.
#[derive(Clone, Copy, Debug, PartialEq, Eq, Structural)]
pub enum Sound {
    On,
    Off,
    Recharge,
    Button,
    Error,
    CleaningStart,
    CleaningEnd,
}

impl Sound {
    /// The code by which the base knows the sound.
    pub open spec fn spec_code(self) -> u8 {
        match self {
            Sound::On => 0,
            Sound::Off => 1,
            Sound::Recharge => 2,
            Sound::Button => 3,
            Sound::Error => 4,
            Sound::CleaningStart => 5,
            Sound::CleaningEnd => 6,
        }
    }

    pub fn code(self) -> (c: u8)
        ensures
            c == self.spec_code(),
    {
        match self {
            Sound::On => 0,
            Sound::Off => 1,
            Sound::Recharge => 2,
            Sound::Button => 3,
            Sound::Error => 4,
            Sound::CleaningStart => 5,
            Sound::CleaningEnd => 6,
        }
    }
}

/// Scale of the radius in the formula that turns two wheel speeds into a
/// radius.
pub const RADIUS_SCALE: i64 = 123;

/// The magnitude of `x`.
pub open spec fn magnitude(x: int) -> int {
    if x >= 0 {
        x
    } else {
        -x
    }
}

/// The integer nearest to `a / b`, halves rounded away from zero.
pub open spec fn round_div(a: int, b: int) -> int
    recommends
        b != 0,
{
    let m = (2 * magnitude(a) + magnitude(b)) / (2 * magnitude(b));
    if (a < 0) != (b < 0) {
        -m
    } else {
        m
    }
}

/// `x` held to the range of a signed 16-bit integer.
pub open spec fn clamp_i16(x: int) -> int {
    if x < -32768 {
        -32768
    } else if x > 32767 {
        32767
    } else {
        x
    }
}

/// The speed commanded for a pair of wheel speeds: the one of larger
/// magnitude, the left one if both are as large.
pub open spec fn direct_speed(left: i16, right: i16) -> i16 {
    if magnitude(right as int) > magnitude(left as int) {
        right
    } else {
        left
    }
}

/// The radius commanded for a pair of wheel speeds. Equal speeds drive
/// straight, which is radius zero. Otherwise the radius is
/// `(right + left) / (2 * (right - left) / 123)`, rounded, held to 16 bits,
/// and one where that would be zero.
pub open spec fn direct_radius(left: i16, right: i16) -> i16 {
    if left == right {
        0i16
    } else {
        let r = clamp_i16(round_div(RADIUS_SCALE * (right + left), 2 * (right - left)));
        if r == 0 {
            1i16
        } else {
            r as i16
        }
    }
}

/// Payload of the command that drives an arc of `radius` at `speed`.
pub open spec fn radius_payload(radius: i16, speed: i16) -> Seq<u8> {
    seq![0x01u8, 0x04u8] + spec_i16_bytes(speed) + spec_i16_bytes(radius)
}

/// Payload of the command that sets the controller gains; `user` tells the
/// base to use the gains that follow instead of its defaults.
pub open spec fn gain_payload(user: bool, kp: u32, ki: u32, kd: u32) -> Seq<u8> {
    seq![0x0Du8, 0x0Du8, if user { 1u8 } else { 0u8 }] + spec_u32_bytes(kp) + spec_u32_bytes(ki)
        + spec_u32_bytes(kd)
}

/// Payload of the command that plays a sound.
pub open spec fn sound_payload(sound: Sound) -> Seq<u8> {
    seq![0x04u8, 0x01u8, sound.spec_code()]
}

/// Payload of the command that asks for the hardware version, the firmware
/// version and the unique id.
pub open spec fn information_payload() -> Seq<u8> {
    seq![0x09u8, 0x02u8, 0x0Bu8, 0x00u8]
}

/// The rounded quotient is within half a divisor of the exact one.
pub proof fn lemma_round_div_nearest(a: int, b: int)
    requires
        b != 0,
    ensures
        2 * magnitude(a - round_div(a, b) * b) <= magnitude(b),
{
    let na = magnitude(a);
    let nb = magnitude(b);
    let m = (2 * na + nb) / (2 * nb);
    let rem = (2 * na + nb) % (2 * nb);
    assert(2 * na + nb == m * (2 * nb) + rem && 0 <= rem < 2 * nb) by (nonlinear_arith)
        requires
            nb > 0,
            m == (2 * na + nb) / (2 * nb),
            rem == (2 * na + nb) % (2 * nb),
    ;
    assert(m * (2 * nb) == 2 * (m * nb)) by (nonlinear_arith);
    let q = round_div(a, b);
    assert(magnitude(q * b) == m * nb && (a >= 0 ==> q * b >= 0) && (a < 0 ==> q * b <= 0))
        by (nonlinear_arith)
        requires
            q == (if (a < 0) != (b < 0) {
                -m
            } else {
                m
            }),
            nb == magnitude(b),
            m >= 0,
            b != 0,
    ;
}

/// Encoder of the commands of the drive base.
pub struct Actuator {}

impl Actuator {
    /// The frame that commands the two wheel speeds, in mm/s.
    pub fn drive_direct(left_wheel_speed: i16, right_wheel_speed: i16) -> (out: Vec<u8>)
        ensures
            out@ == frame_of(
                radius_payload(
                    direct_radius(left_wheel_speed, right_wheel_speed),
                    direct_speed(left_wheel_speed, right_wheel_speed),
                ),
            ),
            (direct_radius(left_wheel_speed, right_wheel_speed) == 0) <==> left_wheel_speed
                == right_wheel_speed,
    {
        let left: i64 = left_wheel_speed as i64;
        let right: i64 = right_wheel_speed as i64;
        let abs_left: i64 = if left >= 0 {
            left
        } else {
            -left
        };
        let abs_right: i64 = if right >= 0 {
            right
        } else {
            -right
        };
        let cmd_speed: i16 = if abs_right > abs_left {
            right_wheel_speed
        } else {
            left_wheel_speed
        };
        let cmd_radius: i16 = if right_wheel_speed == left_wheel_speed {
            0
        } else {
            let num: i64 = RADIUS_SCALE * (right + left);
            let den: i64 = 2 * (right - left);
            let abs_num: i64 = if num >= 0 {
                num
            } else {
                -num
            };
            let abs_den: i64 = if den >= 0 {
                den
            } else {
                -den
            };
            let m: i64 = (2 * abs_num + abs_den) / (2 * abs_den);
            let q: i64 = if (num < 0) != (den < 0) {
                -m
            } else {
                m
            };
            if q < -32768 {
                -32768
            } else if q > 32767 {
                32767
            } else if q == 0 {
                1
            } else {
                q as i16
            }
        };
        Self::drive_radius(cmd_radius, cmd_speed)
    }

    /// The frame that commands an arc of `radius` mm at `speed` mm/s.
    pub fn drive_radius(radius: i16, speed: i16) -> (out: Vec<u8>)
        ensures
            out@ == frame_of(radius_payload(radius, speed)),
    {
        let mut payload: Vec<u8> = Vec::new();
        payload.push(0x01);
        payload.push(0x04);
        push_i16_le(&mut payload, speed);
        push_i16_le(&mut payload, radius);
        assert(payload@ =~= radius_payload(radius, speed));
        frame(payload.as_slice())
    }

    /// The frame that sets the wheel controller to its default gains.
    pub fn set_controller_default() -> (out: Vec<u8>)
        ensures
            out@ == frame_of(gain_payload(false, 0, 0, 0)),
    {
        Self::controller_frame(false, 0, 0, 0)
    }

    /// The frame that sets the wheel controller to the given gains, each
    /// the gain times one thousand.
    pub fn kobuki_set_controller_user(kp: u32, ki: u32, kd: u32) -> (out: Vec<u8>)
        ensures
            out@ == frame_of(gain_payload(true, kp, ki, kd)),
    {
        Self::controller_frame(true, kp, ki, kd)
    }

    fn controller_frame(user: bool, kp: u32, ki: u32, kd: u32) -> (out: Vec<u8>)
        ensures
            out@ == frame_of(gain_payload(user, kp, ki, kd)),
    {
        let mut payload: Vec<u8> = Vec::new();
        payload.push(0x0D);
        payload.push(0x0D);
        payload.push(if user { 1 } else { 0 });
        push_u32_le(&mut payload, kp);
        push_u32_le(&mut payload, ki);
        push_u32_le(&mut payload, kd);
        assert(payload@ =~= gain_payload(user, kp, ki, kd));
        frame(payload.as_slice())
    }

    /// The frame that plays one of the predefined sounds.
    pub fn play_sound_sequence(sound: Sound) -> (out: Vec<u8>)
        ensures
            out@ == frame_of(sound_payload(sound)),
    {
        let mut payload: Vec<u8> = Vec::new();
        payload.push(0x04);
        payload.push(0x01);
        payload.push(sound.code());
        assert(payload@ =~= sound_payload(sound));
        frame(payload.as_slice())
    }

    /// The frame that asks for the hardware version, the firmware version
    /// and the unique id with the next feedback packet.
    pub fn request_information() -> (out: Vec<u8>)
        ensures
            out@ == frame_of(information_payload()),
    {
        let mut payload: Vec<u8> = Vec::new();
        payload.push(0x09);
        payload.push(0x02);
        payload.push(0x08 | 0x02 | 0x01);
        payload.push(0x00);
        assert(0x08u8 | 0x02u8 | 0x01u8 == 0x0Bu8) by (bit_vector);
        assert(payload@ =~= information_payload());
        frame(payload.as_slice())
    }
}

} // verus!
