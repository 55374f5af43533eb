//! Sensor snapshot of the drive base and the decoder that fills it from
//! feedback frames.

use crate::wire::{i16_le, i8_from_byte, spec_i16_le, spec_i8, spec_u16_le, u16_le};
use vstd::prelude::*;

verus! {

/// Whether each wheel has lost contact with the ground and whether each
/// bumper is pressed.
#[derive(Clone, Copy, Debug, PartialEq, Eq, Structural)]
pub struct BumpsAndWheelDrops {
    pub wheel_drop_left: bool,
    pub wheel_drop_right: bool,
    pub bump_left: bool,
    pub bump_center: bool,
    pub bump_right: bool,
}

impl Default for BumpsAndWheelDrops {
    fn default() -> (r: Self)
        ensures
            r == (BumpsAndWheelDrops {
                wheel_drop_left: false,
                wheel_drop_right: false,
                bump_left: false,
                bump_center: false,
                bump_right: false,
            }),
    {
        BumpsAndWheelDrops {
            wheel_drop_left: false,
            wheel_drop_right: false,
            bump_left: false,
            bump_center: false,
            bump_right: false,
        }
    }
}

/// The three buttons of the base; `true` while held down.
#[derive(Clone, Copy, Debug, PartialEq, Eq, Structural)]
pub struct Buttons {
    pub b0: bool,
    pub b1: bool,
    pub b2: bool,
}

impl Default for Buttons {
    fn default() -> (r: Self)
        ensures
            r == (Buttons { b0: false, b1: false, b2: false }),
    {
        Buttons { b0: false, b1: false, b2: false }
    }
}

#[derive(Clone, Copy, Debug, PartialEq, Eq, Structural)]
pub enum ChargerState {
    Discharging,
    DockingCharged,
    DockingCharging,
    AdapterCharged,
    AdapterCharging,
}

impl ChargerState {
    /// The charger state that a wire code stands for, if it stands for one.
    pub open spec fn spec_from_code(code: u8) -> Option<ChargerState> {
        if code == 0 {
            Some(ChargerState::Discharging)
        } else if code == 2 {
            Some(ChargerState::DockingCharged)
        } else if code == 6 {
            Some(ChargerState::DockingCharging)
        } else if code == 18 {
            Some(ChargerState::AdapterCharged)
        } else if code == 22 {
            Some(ChargerState::AdapterCharging)
        } else {
            None
        }
    }

    /// Decodes the charger byte of a basic sensor record.
    pub fn from_code(code: u8) -> (r: Option<ChargerState>)
        ensures
            r == Self::spec_from_code(code),
    {
        match code {
            0 => Some(ChargerState::Discharging),
            2 => Some(ChargerState::DockingCharged),
            6 => Some(ChargerState::DockingCharging),
            18 => Some(ChargerState::AdapterCharged),
            22 => Some(ChargerState::AdapterCharging),
            _ => None,
        }
    }
}

impl Default for ChargerState {
    fn default() -> (r: Self)
        ensures
            r == ChargerState::Discharging,
    {
        ChargerState::Discharging
    }
}

/// Where a docking infrared receiver sees the docking station.
#[derive(Clone, Copy, Debug, PartialEq, Eq, Structural)]
pub enum DockingState {
    NearLeft,
    NearCenter,
    NearRight,
    FarCenter,
    FarLeft,
    FarRight,
}

impl DockingState {
    /// The docking state with ordinal `n`; there is none beyond five.
    pub open spec fn spec_from_ordinal(n: u8) -> Option<DockingState> {
        if n == 0 {
            Some(DockingState::NearLeft)
        } else if n == 1 {
            Some(DockingState::NearCenter)
        } else if n == 2 {
            Some(DockingState::NearRight)
        } else if n == 3 {
            Some(DockingState::FarCenter)
        } else if n == 4 {
            Some(DockingState::FarLeft)
        } else if n == 5 {
            Some(DockingState::FarRight)
        } else {
            None
        }
    }

    /// Checked conversion from a wire ordinal: `None` for an ordinal that
    /// names no state.
    pub fn from_ordinal(n: u8) -> (r: Option<DockingState>)
        ensures
            r == Self::spec_from_ordinal(n),
            r.is_some() <==> n <= 5,
    {
        match n {
            0 => Some(DockingState::NearLeft),
            1 => Some(DockingState::NearCenter),
            2 => Some(DockingState::NearRight),
            3 => Some(DockingState::FarCenter),
            4 => Some(DockingState::FarLeft),
            5 => Some(DockingState::FarRight),
            _ => None,
        }
    }
}

impl Default for DockingState {
    fn default() -> (r: Self)
        ensures
            r == DockingState::NearLeft,
    {
        DockingState::NearLeft
    }
}

/// Docking position feedback of the three infrared receivers.
#[derive(Clone, Copy, Debug, PartialEq, Eq, Structural)]
pub struct Docking {
    pub right: DockingState,
    pub center: DockingState,
    pub left: DockingState,
}

impl Default for Docking {
    fn default() -> (r: Self)
        ensures
            r == (Docking {
                right: DockingState::NearLeft,
                center: DockingState::NearLeft,
                left: DockingState::NearLeft,
            }),
    {
        Docking {
            right: DockingState::NearLeft,
            center: DockingState::NearLeft,
            left: DockingState::NearLeft,
        }
    }
}

#[derive(Clone, Copy, Debug, PartialEq, Eq, Structural)]
pub struct Version {
    pub patch: u8,
    pub minor: u8,
    pub major: u8,
}

impl Default for Version {
    fn default() -> (r: Self)
        ensures
            r == (Version { patch: 0, minor: 0, major: 0 }),
    {
        Version { patch: 0, minor: 0, major: 0 }
    }
}

/// General-purpose digital and analog inputs of the base.
#[derive(Clone, Copy, Debug, PartialEq, Eq, Structural)]
pub struct Input {
    pub d0: bool,
    pub d1: bool,
    pub d2: bool,
    pub d3: bool,
    pub a0: u16,
    pub a1: u16,
    pub a2: u16,
    pub a3: u16,
}

impl Default for Input {
    fn default() -> (r: Self)
        ensures
            r == (Input {
                d0: false,
                d1: false,
                d2: false,
                d3: false,
                a0: 0,
                a1: 0,
                a2: 0,
                a3: 0,
            }),
    {
        Input { d0: false, d1: false, d2: false, d3: false, a0: 0, a1: 0, a2: 0, a3: 0 }
    }
}

/// Gains of the wheel controller, each scaled by one thousand.
#[derive(Clone, Copy, Debug, PartialEq, Eq, Structural)]
pub struct Gain {
    pub user_configured: bool,
    pub kp: u32,
    pub ki: u32,
    pub kd: u32,
}

impl Default for Gain {
    fn default() -> (r: Self)
        ensures
            r == (Gain { user_configured: false, kp: 0, ki: 0, kd: 0 }),
    {
        Gain { user_configured: false, kp: 0, ki: 0, kd: 0 }
    }
}

/// The most recently decoded state of the drive base.
#[derive(Clone, Copy, Debug, PartialEq, Eq)]
pub struct Sensors {
    pub bumps_wheel_drops: BumpsAndWheelDrops,
    /// Thresholded cliff sensors: `true` over a cliff.
    pub cliff_left: bool,
    pub cliff_center: bool,
    pub cliff_right: bool,
    /// Raw cliff sensor readings.
    pub cliff_left_signal: u16,
    pub cliff_center_signal: u16,
    pub cliff_right_signal: u16,
    pub buttons: Buttons,
    /// Wheel encoders: 16-bit counters that roll over, forward is positive.
    pub left_wheel_encoder: u16,
    pub right_wheel_encoder: u16,
    /// Motor current in steps of 10 mA.
    pub left_wheel_current: i16,
    pub right_wheel_current: i16,
    /// Raw PWM applied to each wheel, forward is positive.
    pub left_wheel_pwm: i8,
    pub right_wheel_pwm: i8,
    pub left_wheel_over_current: bool,
    pub right_wheel_over_current: bool,
    /// Milliseconds, rolling over at 16 bits.
    pub timestamp: u16,
    pub battery_voltage: u8,
    pub charging_state: ChargerState,
    /// Calibrated angle of rotation around the vertical axis, and its rate.
    pub angle: i16,
    pub angle_rate: i16,
    /// Raw gyro rates in steps of 0.00875 degrees per second.
    pub x_axis_rate: u16,
    pub y_axis_rate: u16,
    pub z_axis_rate: u16,
    pub docking: Docking,
    pub hardware_version: Version,
    pub software_version: Version,
    pub uid: [u32; 3],
    pub general_input: Input,
    pub controller_gain: Gain,
    /// The buttons as they were when a press was last asked for.
    pub prev_buttons: Buttons,
}

impl Sensors {
    /// The snapshot before any frame has been decoded.
    pub open spec fn spec_default() -> Sensors {
        Sensors {
            bumps_wheel_drops: BumpsAndWheelDrops {
                wheel_drop_left: false,
                wheel_drop_right: false,
                bump_left: false,
                bump_center: false,
                bump_right: false,
            },
            cliff_left: false,
            cliff_center: false,
            cliff_right: false,
            cliff_left_signal: 0,
            cliff_center_signal: 0,
            cliff_right_signal: 0,
            buttons: Buttons { b0: false, b1: false, b2: false },
            left_wheel_encoder: 0,
            right_wheel_encoder: 0,
            left_wheel_current: 0,
            right_wheel_current: 0,
            left_wheel_pwm: 0,
            right_wheel_pwm: 0,
            left_wheel_over_current: false,
            right_wheel_over_current: false,
            timestamp: 0,
            battery_voltage: 0,
            charging_state: ChargerState::Discharging,
            angle: 0,
            angle_rate: 0,
            x_axis_rate: 0,
            y_axis_rate: 0,
            z_axis_rate: 0,
            docking: Docking {
                right: DockingState::NearLeft,
                center: DockingState::NearLeft,
                left: DockingState::NearLeft,
            },
            hardware_version: Version { patch: 0, minor: 0, major: 0 },
            software_version: Version { patch: 0, minor: 0, major: 0 },
            uid: [0u32, 0u32, 0u32],
            general_input: Input {
                d0: false,
                d1: false,
                d2: false,
                d3: false,
                a0: 0,
                a1: 0,
                a2: 0,
                a3: 0,
            },
            controller_gain: Gain { user_configured: false, kp: 0, ki: 0, kd: 0 },
            prev_buttons: Buttons { b0: false, b1: false, b2: false },
        }
    }

    /// Whether any bumper is pressed.
    pub open spec fn spec_is_bump(self) -> bool {
        self.bumps_wheel_drops.bump_left || self.bumps_wheel_drops.bump_center
            || self.bumps_wheel_drops.bump_right
    }

    /// Whether some button is down now that was up when a press was last
    /// asked for.
    pub open spec fn spec_button_edge(self) -> bool {
        (self.buttons.b0 && !self.prev_buttons.b0) || (self.buttons.b1 && !self.prev_buttons.b1)
            || (self.buttons.b2 && !self.prev_buttons.b2)
    }

    pub fn is_bump(&self) -> (r: bool)
        ensures
            r == self.spec_is_bump(),
    {
        self.bumps_wheel_drops.bump_left || self.bumps_wheel_drops.bump_center
            || self.bumps_wheel_drops.bump_right
    }

    /// Reports a rising edge on any button since the previous call, and
    /// remembers the current buttons for the next one.
    pub fn is_button_pressed(&mut self) -> (r: bool)
        ensures
            r == old(self).spec_button_edge(),
            *final(self) == (Sensors { prev_buttons: old(self).buttons, ..*old(self) }),
    {
        let mut result = false;
        let curr_b0 = self.buttons.b0;
        if curr_b0 && self.prev_buttons.b0 != curr_b0 {
            result = true;
        }
        let curr_b1 = self.buttons.b1;
        if curr_b1 && self.prev_buttons.b1 != curr_b1 {
            result = true;
        }
        let curr_b2 = self.buttons.b2;
        if curr_b2 && self.prev_buttons.b2 != curr_b2 {
            result = true;
        }
        self.prev_buttons = self.buttons;
        result
    }
}

impl Default for Sensors {
    fn default() -> (r: Self)
        ensures
            r == Sensors::spec_default(),
    {
        let r = Sensors {
            bumps_wheel_drops: BumpsAndWheelDrops::default(),
            cliff_left: false,
            cliff_center: false,
            cliff_right: false,
            cliff_left_signal: 0,
            cliff_center_signal: 0,
            cliff_right_signal: 0,
            buttons: Buttons::default(),
            left_wheel_encoder: 0,
            right_wheel_encoder: 0,
            left_wheel_current: 0,
            right_wheel_current: 0,
            left_wheel_pwm: 0,
            right_wheel_pwm: 0,
            left_wheel_over_current: false,
            right_wheel_over_current: false,
            timestamp: 0,
            battery_voltage: 0,
            charging_state: ChargerState::default(),
            angle: 0,
            angle_rate: 0,
            x_axis_rate: 0,
            y_axis_rate: 0,
            z_axis_rate: 0,
            docking: Docking::default(),
            hardware_version: Version::default(),
            software_version: Version::default(),
            uid: [0u32; 3],
            general_input: Input::default(),
            controller_gain: Gain::default(),
            prev_buttons: Buttons::default(),
        };
        assert(r.uid =~= Sensors::spec_default().uid);
        r
    }
}


/// Sub-record id and body length of the basic sensor block.
pub const BASIC_SENSOR_ID: u8 = 0x01;

pub const BASIC_SENSOR_LEN: u8 = 0x0F;

/// Sub-record id and body length of the docking infrared block.
pub const DOCKING_ID: u8 = 0x03;

pub const DOCKING_LEN: u8 = 0x03;

/// Sub-record id and body length of the inertial block.
pub const INERTIAL_ID: u8 = 0x04;

pub const INERTIAL_LEN: u8 = 0x07;

/// Sub-record id and body length of the raw cliff signal block.
pub const CLIFF_ID: u8 = 0x05;

pub const CLIFF_LEN: u8 = 0x06;

/// Whether any bit of `mask` is set in `b`.
pub open spec fn flag(b: u8, mask: u8) -> bool {
    b & mask != 0
}

/// The snapshot after a basic sensor body `d` of fifteen bytes is applied.
/// A charger byte that names no state leaves the charger state as it was.
pub open spec fn apply_basic(s: Sensors, d: Seq<u8>) -> Sensors
    recommends
        d.len() == 15,
{
    Sensors {
        timestamp: spec_u16_le(d[0], d[1]),
        bumps_wheel_drops: BumpsAndWheelDrops {
            bump_right: flag(d[2], 0x01),
            bump_center: flag(d[2], 0x02),
            bump_left: flag(d[2], 0x04),
            wheel_drop_right: flag(d[3], 0x01),
            wheel_drop_left: flag(d[3], 0x02),
        },
        cliff_right: flag(d[4], 0x01),
        cliff_center: flag(d[4], 0x02),
        cliff_left: flag(d[4], 0x04),
        left_wheel_encoder: spec_u16_le(d[5], d[6]),
        right_wheel_encoder: spec_u16_le(d[7], d[8]),
        left_wheel_pwm: spec_i8(d[9]),
        right_wheel_pwm: spec_i8(d[10]),
        buttons: Buttons {
            b0: flag(d[11], 0x01),
            b1: flag(d[11], 0x02),
            b2: flag(d[11], 0x04),
        },
        charging_state: match ChargerState::spec_from_code(d[12]) {
            Some(c) => c,
            None => s.charging_state,
        },
        battery_voltage: d[13],
        left_wheel_over_current: flag(d[14], 0x01),
        right_wheel_over_current: flag(d[14], 0x02),
        ..s
    }
}

/// The snapshot after a docking body `d` of three valid ordinals is applied.
pub open spec fn apply_docking(s: Sensors, d: Seq<u8>) -> Sensors
    recommends
        d.len() == 3,
        d[0] <= 5,
        d[1] <= 5,
        d[2] <= 5,
{
    Sensors {
        docking: Docking {
            right: DockingState::spec_from_ordinal(d[0]).unwrap(),
            center: DockingState::spec_from_ordinal(d[1]).unwrap(),
            left: DockingState::spec_from_ordinal(d[2]).unwrap(),
        },
        ..s
    }
}

/// The snapshot after an inertial body `d` of seven bytes is applied.
pub open spec fn apply_inertial(s: Sensors, d: Seq<u8>) -> Sensors
    recommends
        d.len() == 7,
{
    Sensors { angle: spec_i16_le(d[0], d[1]), angle_rate: spec_i16_le(d[2], d[3]), ..s }
}

/// The snapshot after a raw cliff body `d` of six bytes is applied.
pub open spec fn apply_cliff(s: Sensors, d: Seq<u8>) -> Sensors
    recommends
        d.len() == 6,
{
    Sensors {
        cliff_right_signal: spec_u16_le(d[0], d[1]),
        cliff_center_signal: spec_u16_le(d[2], d[3]),
        cliff_left_signal: spec_u16_le(d[4], d[5]),
        ..s
    }
}

/// The effect of one sub-record with id `id` and body `d` on `s`.
///
/// `None` marks a malformed record: one of a recognized id whose body has
/// not the length that the id calls for, or a docking record that holds an
/// ordinal beyond five. A record of an unrecognized id changes nothing.
pub open spec fn apply_record(s: Sensors, id: u8, d: Seq<u8>) -> Option<Sensors> {
    if id == BASIC_SENSOR_ID {
        if d.len() == BASIC_SENSOR_LEN {
            Some(apply_basic(s, d))
        } else {
            None
        }
    } else if id == DOCKING_ID {
        if d.len() == DOCKING_LEN && d[0] <= 5 && d[1] <= 5 && d[2] <= 5 {
            Some(apply_docking(s, d))
        } else {
            None
        }
    } else if id == INERTIAL_ID {
        if d.len() == INERTIAL_LEN {
            Some(apply_inertial(s, d))
        } else {
            None
        }
    } else if id == CLIFF_ID {
        if d.len() == CLIFF_LEN {
            Some(apply_cliff(s, d))
        } else {
            None
        }
    } else {
        Some(s)
    }
}

/// Whether a whole sub-record, header and body, starts at `i` in payload `p`.
pub open spec fn record_fits(p: Seq<u8>, i: int) -> bool {
    0 <= i && i + 2 <= p.len() && i + 2 + p[i + 1] <= p.len()
}

/// The snapshot after the sub-records of payload `p` from position `i` on
/// are applied to `s`, one after the other. The walk ends at the end of the
/// payload, at a record that does not fit in what is left of it, and at a
/// malformed record; records applied before that stay applied.
pub open spec fn decode_from(p: Seq<u8>, i: int, s: Sensors) -> Sensors
    decreases p.len() - i,
{
    if record_fits(p, i) {
        match apply_record(s, p[i], p.subrange(i + 2, i + 2 + p[i + 1])) {
            Some(t) => decode_from(p, i + 2 + p[i + 1], t),
            None => s,
        }
    } else {
        s
    }
}

/// The snapshot after a whole payload is decoded into `s`.
pub open spec fn decode_payload(p: Seq<u8>, s: Sensors) -> Sensors {
    decode_from(p, 0, s)
}

/// Whether `packet` holds two sync bytes, a length byte and as many payload
/// bytes as the length byte says.
pub open spec fn holds_payload(packet: Seq<u8>) -> bool {
    packet.len() >= 3 && 3 + packet[2] <= packet.len()
}

/// The payload of a packet that holds one.
pub open spec fn payload_of(packet: Seq<u8>) -> Seq<u8>
    recommends
        holds_payload(packet),
{
    packet.subrange(3, 3 + packet[2])
}

/// The snapshot after `packet` is parsed into `s`: a packet too short for
/// the payload it declares changes nothing.
pub open spec fn parse_packet(packet: Seq<u8>, s: Sensors) -> Sensors {
    if holds_payload(packet) {
        decode_payload(payload_of(packet), s)
    } else {
        s
    }
}

fn set_basic(sensors: &mut Sensors, p: &[u8], at: usize)
    requires
        at + 15 <= p.len(),
    ensures
        *final(sensors) == apply_basic(*old(sensors), p@.subrange(at as int, at + 15)),
{
    let ghost d = p@.subrange(at as int, at + 15);
    assert(forall|k: int| 0 <= k < 15 ==> d[k] == p@[at + k]);
    let bumps = BumpsAndWheelDrops {
        bump_right: p[at + 2] & 0x01 != 0,
        bump_center: p[at + 2] & 0x02 != 0,
        bump_left: p[at + 2] & 0x04 != 0,
        wheel_drop_right: p[at + 3] & 0x01 != 0,
        wheel_drop_left: p[at + 3] & 0x02 != 0,
    };
    let buttons = Buttons {
        b0: p[at + 11] & 0x01 != 0,
        b1: p[at + 11] & 0x02 != 0,
        b2: p[at + 11] & 0x04 != 0,
    };
    let charging_state = match ChargerState::from_code(p[at + 12]) {
        Some(c) => c,
        None => sensors.charging_state,
    };
    *sensors = Sensors {
        timestamp: u16_le(p[at], p[at + 1]),
        bumps_wheel_drops: bumps,
        cliff_right: p[at + 4] & 0x01 != 0,
        cliff_center: p[at + 4] & 0x02 != 0,
        cliff_left: p[at + 4] & 0x04 != 0,
        left_wheel_encoder: u16_le(p[at + 5], p[at + 6]),
        right_wheel_encoder: u16_le(p[at + 7], p[at + 8]),
        left_wheel_pwm: i8_from_byte(p[at + 9]),
        right_wheel_pwm: i8_from_byte(p[at + 10]),
        buttons,
        charging_state,
        battery_voltage: p[at + 13],
        left_wheel_over_current: p[at + 14] & 0x01 != 0,
        right_wheel_over_current: p[at + 14] & 0x02 != 0,
        ..*sensors
    };
}

fn set_inertial(sensors: &mut Sensors, p: &[u8], at: usize)
    requires
        at + 7 <= p.len(),
    ensures
        *final(sensors) == apply_inertial(*old(sensors), p@.subrange(at as int, at + 7)),
{
    sensors.angle = i16_le(p[at], p[at + 1]);
    sensors.angle_rate = i16_le(p[at + 2], p[at + 3]);
}

fn set_cliff(sensors: &mut Sensors, p: &[u8], at: usize)
    requires
        at + 6 <= p.len(),
    ensures
        *final(sensors) == apply_cliff(*old(sensors), p@.subrange(at as int, at + 6)),
{
    sensors.cliff_right_signal = u16_le(p[at], p[at + 1]);
    sensors.cliff_center_signal = u16_le(p[at + 2], p[at + 3]);
    sensors.cliff_left_signal = u16_le(p[at + 4], p[at + 5]);
}

/// Applies the docking body at `at` if its three ordinals are valid, and
/// says whether it did.
fn set_docking(sensors: &mut Sensors, p: &[u8], at: usize) -> (applied: bool)
    requires
        at + 3 <= p.len(),
    ensures
        applied <==> (p[at as int] <= 5 && p[at + 1] <= 5 && p[at + 2] <= 5),
        applied ==> *final(sensors) == apply_docking(
            *old(sensors),
            p@.subrange(at as int, at + 3),
        ),
        !applied ==> *final(sensors) == *old(sensors),
{
    let right = DockingState::from_ordinal(p[at]);
    let center = DockingState::from_ordinal(p[at + 1]);
    let left = DockingState::from_ordinal(p[at + 2]);
    match (right, center, left) {
        (Some(r), Some(c), Some(l)) => {
            sensors.docking.right = r;
            sensors.docking.center = c;
            sensors.docking.left = l;
            true
        },
        _ => false,
    }
}

/// Applies the sub-record with id `id` whose body of `len` bytes starts at
/// `at`, and says whether the record was well formed.
fn set_record(sensors: &mut Sensors, p: &[u8], id: u8, at: usize, len: u8) -> (ok: bool)
    requires
        at + len <= p.len(),
    ensures
        ok <==> apply_record(*old(sensors), id, p@.subrange(at as int, at + len)).is_some(),
        ok ==> Some(*final(sensors)) == apply_record(
            *old(sensors),
            id,
            p@.subrange(at as int, at + len),
        ),
        !ok ==> *final(sensors) == *old(sensors),
{
    if id == BASIC_SENSOR_ID {
        if len == BASIC_SENSOR_LEN {
            set_basic(sensors, p, at);
            true
        } else {
            false
        }
    } else if id == DOCKING_ID {
        if len == DOCKING_LEN {
            set_docking(sensors, p, at)
        } else {
            false
        }
    } else if id == INERTIAL_ID {
        if len == INERTIAL_LEN {
            set_inertial(sensors, p, at);
            true
        } else {
            false
        }
    } else if id == CLIFF_ID {
        if len == CLIFF_LEN {
            set_cliff(sensors, p, at);
            true
        } else {
            false
        }
    } else {
        true
    }
}

/// Decodes the sub-records of a feedback packet into `sensors`.
///
/// `packet` is a frame without its checksum byte: two sync bytes, the
/// length byte and the payload. The payload is walked record by record;
/// see [`decode_from`] for where the walk ends.
pub fn parse_sensor_packet(packet: &[u8], sensors: &mut Sensors)
    ensures
        *final(sensors) == parse_packet(packet@, *old(sensors)),
{
    if packet.len() < 3 {
        return ;
    }
    let n: usize = packet[2] as usize;
    if packet.len() - 3 < n {
        return ;
    }
    let ghost p = payload_of(packet@);
    let ghost goal = decode_payload(p, *old(sensors));
    let mut i: usize = 0;
    let mut live = true;
    while live && n - i >= 2
        invariant
            holds_payload(packet@),
            n == packet[2],
            p == payload_of(packet@),
            i <= n,
            live ==> decode_from(p, i as int, *sensors) == goal,
            !live ==> *sensors == goal,
        decreases (if live { 1int } else { 0int }), n - i,
    {
        let id = packet[3 + i];
        let len = packet[3 + i + 1];
        assert(p[i as int] == id && p[i + 1] == len);
        if n - i - 2 < len as usize {
            live = false;
        } else {
            assert(record_fits(p, i as int));
            assert(p.subrange(i + 2, i + 2 + len) =~= packet@.subrange(
                3 + i + 2,
                3 + i + 2 + len,
            ));
            let ok = set_record(sensors, packet, id, 3 + i + 2, len);
            if ok {
                i = i + 2 + len as usize;
            } else {
                live = false;
            }
        }
    }
}

} // verus!
