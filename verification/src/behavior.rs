//! Decisions of the robot's top-level behaviour.
//!
//! Once per cycle the caller polls the sensors, asks for a button press and
//! hands both to [`TopState::step`]; it then carries out what the step
//! decided.

use crate::odometry::{spec_encoder_ticks, DriveDirection, TICK_LENGTH};
use crate::odometry::measure_distance;
use crate::pixy2::Block;
use vstd::prelude::*;

verus! {

/// Wheel speed of every move, in mm/s.
pub const DRIVE_SPEED: i16 = 70;

/// Distance of an approach after which the robot turns to look for the
/// target again: one metre, in units of 100 nm.
pub const DETECT_RECALIBRATE: i64 = 10_000_000;

/// Cycles of a scan after which the target counts as detected.
pub const SCAN_CYCLES: u32 = 200;

/// What is to be done with the integration of the gyro.
#[derive(Clone, Copy, Debug, PartialEq, Eq, Structural)]
pub enum GyroCommand {
    Keep,
    Start,
    Stop,
    Restart,
}

/// The wheel speeds to command, left first.
#[derive(Clone, Copy, Debug, PartialEq, Eq, Structural)]
pub struct Drive {
    pub left: i16,
    pub right: i16,
}

/// States of the detection phase.
#[derive(Clone, Copy, Debug, PartialEq, Eq, Structural)]
pub enum DetectState {
    /// Turning on the spot to look for the target.
    Scan,
    /// Driving backwards towards the target.
    Approach {
        last_encoder: u16,
        /// Distance covered by this approach, in units of 100 nm.
        distance_traveled: i64,
    },
}

/// Top-level states of the robot.
#[derive(Clone, Copy, Debug, PartialEq, Eq, Structural)]
pub enum TopState {
    Off,
    Detect(DetectState),
    Dock,
    Drive,
}

impl Default for TopState {
    fn default() -> (s: Self)
        ensures
            s == TopState::Off,
    {
        TopState::Off
    }
}

/// What a cycle of the detection phase decided.
#[derive(Clone, Copy, Debug, PartialEq, Eq, Structural)]
pub struct Reaction {
    pub next: DetectState,
    /// Cycles that the current scan has lasted.
    pub scan_cycles: u32,
    pub gyro: GyroCommand,
    pub drive: Option<Drive>,
}

/// What a cycle of the top-level behaviour decided.
#[derive(Clone, Copy, Debug, PartialEq, Eq, Structural)]
pub struct Decision {
    pub next: TopState,
    pub scan_cycles: u32,
    pub gyro: GyroCommand,
    pub drive: Option<Drive>,
}

/// The magnitude of the distance between two encoder readings in reverse.
pub open spec fn reverse_distance(curr: u16, prev: u16) -> int {
    -(TICK_LENGTH * spec_encoder_ticks(curr, prev, DriveDirection::Reverse))
}

impl DetectState {
    /// One cycle of the detection phase.
    ///
    /// A scan counts its cycles. When it has lasted [`SCAN_CYCLES`], the
    /// target counts as detected: the gyro is stopped and an approach
    /// starts at the current encoder reading. Until then the robot turns
    /// on the spot. An approach that has covered [`DETECT_RECALIBRATE`]
    /// starts the gyro and goes back to scanning; until then the robot
    /// drives backwards and adds what it has covered since the last cycle.
    pub open spec fn spec_react(self, scan_cycles: u32, encoder: u16) -> Reaction {
        match self {
            DetectState::Scan => if scan_cycles + 1 >= SCAN_CYCLES {
                Reaction {
                    next: DetectState::Approach { last_encoder: encoder, distance_traveled: 0 },
                    scan_cycles: SCAN_CYCLES,
                    gyro: GyroCommand::Stop,
                    drive: None,
                }
            } else {
                Reaction {
                    next: DetectState::Scan,
                    scan_cycles: (scan_cycles + 1) as u32,
                    gyro: GyroCommand::Keep,
                    drive: Some(Drive { left: DRIVE_SPEED, right: (-DRIVE_SPEED) as i16 }),
                }
            },
            DetectState::Approach { last_encoder, distance_traveled } => if distance_traveled
                >= DETECT_RECALIBRATE {
                Reaction {
                    next: DetectState::Scan,
                    scan_cycles: 0,
                    gyro: GyroCommand::Start,
                    drive: None,
                }
            } else {
                Reaction {
                    next: DetectState::Approach {
                        last_encoder: encoder,
                        distance_traveled: (distance_traveled + reverse_distance(
                            encoder,
                            last_encoder,
                        )) as i64,
                    },
                    scan_cycles: 0,
                    gyro: GyroCommand::Keep,
                    drive: Some(Drive { left: (-DRIVE_SPEED) as i16, right: (-DRIVE_SPEED) as i16 }),
                }
            },
        }
    }

    pub fn react(self, scan_cycles: u32, encoder: u16) -> (r: Reaction)
        ensures
            r == self.spec_react(scan_cycles, encoder),
    {
        match self {
            DetectState::Scan => {
                if scan_cycles >= SCAN_CYCLES - 1 {
                    Reaction {
                        next: DetectState::Approach { last_encoder: encoder, distance_traveled: 0 },
                        scan_cycles: SCAN_CYCLES,
                        gyro: GyroCommand::Stop,
                        drive: None,
                    }
                } else {
                    Reaction {
                        next: DetectState::Scan,
                        scan_cycles: scan_cycles + 1,
                        gyro: GyroCommand::Keep,
                        drive: Some(Drive { left: DRIVE_SPEED, right: -DRIVE_SPEED }),
                    }
                }
            },
            DetectState::Approach { last_encoder, distance_traveled } => {
                if distance_traveled >= DETECT_RECALIBRATE {
                    Reaction {
                        next: DetectState::Scan,
                        scan_cycles: 0,
                        gyro: GyroCommand::Start,
                        drive: None,
                    }
                } else {
                    let covered: i64 = -measure_distance(
                        encoder,
                        last_encoder,
                        DriveDirection::Reverse,
                    );
                    assert(0 <= covered <= 65535 * 6108) by (nonlinear_arith)
                        requires
                            covered == -(TICK_LENGTH * spec_encoder_ticks(
                                encoder,
                                last_encoder,
                                DriveDirection::Reverse,
                            )),
                            -65535 <= spec_encoder_ticks(
                                encoder,
                                last_encoder,
                                DriveDirection::Reverse,
                            ) <= 0,
                            TICK_LENGTH == 6108,
                    ;
                    let total: i64 = distance_traveled + covered;
                    Reaction {
                        next: DetectState::Approach {
                            last_encoder: encoder,
                            distance_traveled: total,
                        },
                        scan_cycles: 0,
                        gyro: GyroCommand::Keep,
                        drive: Some(Drive { left: -DRIVE_SPEED, right: -DRIVE_SPEED }),
                    }
                }
            },
        }
    }
}

impl TopState {
    /// Whether the behaviour can be in this state: docking and driving are
    /// named, but nothing leads to them.
    pub open spec fn reachable(self) -> bool {
        self is Off || self is Detect
    }

    /// One cycle of the top-level behaviour.
    ///
    /// Switched off, a button press restarts the gyro and starts a scan;
    /// without one the robot is kept at rest. While detecting, a button
    /// press switches off; without one the detection phase reacts.
    pub open spec fn spec_step(self, is_button_pressed: bool, scan_cycles: u32, encoder: u16)
        -> Decision
        recommends
            self.reachable(),
    {
        match self {
            TopState::Detect(detect) => if is_button_pressed {
                Decision {
                    next: TopState::Off,
                    scan_cycles,
                    gyro: GyroCommand::Keep,
                    drive: None,
                }
            } else {
                let r = detect.spec_react(scan_cycles, encoder);
                Decision {
                    next: TopState::Detect(r.next),
                    scan_cycles: r.scan_cycles,
                    gyro: r.gyro,
                    drive: r.drive,
                }
            },
            _ => if is_button_pressed {
                Decision {
                    next: TopState::Detect(DetectState::Scan),
                    scan_cycles,
                    gyro: GyroCommand::Restart,
                    drive: None,
                }
            } else {
                Decision {
                    next: TopState::Off,
                    scan_cycles,
                    gyro: GyroCommand::Keep,
                    drive: Some(Drive { left: 0, right: 0 }),
                }
            },
        }
    }

    pub fn step(self, is_button_pressed: bool, scan_cycles: u32, encoder: u16) -> (d: Decision)
        requires
            self.reachable(),
        ensures
            d == self.spec_step(is_button_pressed, scan_cycles, encoder),
            d.next.reachable(),
    {
        match self {
            TopState::Detect(detect) => {
                if is_button_pressed {
                    Decision {
                        next: TopState::Off,
                        scan_cycles,
                        gyro: GyroCommand::Keep,
                        drive: None,
                    }
                } else {
                    let r = detect.react(scan_cycles, encoder);
                    Decision {
                        next: TopState::Detect(r.next),
                        scan_cycles: r.scan_cycles,
                        gyro: r.gyro,
                        drive: r.drive,
                    }
                }
            },
            _ => {
                if is_button_pressed {
                    Decision {
                        next: TopState::Detect(DetectState::Scan),
                        scan_cycles,
                        gyro: GyroCommand::Restart,
                        drive: None,
                    }
                } else {
                    Decision {
                        next: TopState::Off,
                        scan_cycles,
                        gyro: GyroCommand::Keep,
                        drive: Some(Drive { left: 0, right: 0 }),
                    }
                }
            },
        }
    }
}


/// Signature of the blocks that mark the target.
pub const TARGET_SIGNATURE: u16 = 1;

/// How far, in pixels, the target may be from the middle of the frame to
/// count as straight ahead.
pub const X_MID_TOL: u16 = 4;

/// Wheel speed while the robot homes in on the target, in mm/s.
pub const TARGET_SPEED: i16 = 60;

/// Milliseconds to stand still before the robot drives at the target.
pub const SETTLE_MS: u32 = 100;

/// States of the run at a target block.
#[derive(Clone, Copy, Debug, PartialEq, Eq, Structural)]
pub enum TargetState {
    /// Turning until the target is straight ahead.
    Scan,
    /// Driving backwards until the dock is touched.
    Drive,
    /// Docked.
    Done,
}

/// What a cycle of the run at a target block decided.
#[derive(Clone, Copy, Debug, PartialEq, Eq, Structural)]
pub struct TargetDecision {
    pub next: TargetState,
    /// The wheel speeds to command, if any are to be commanded.
    pub drive: Option<Drive>,
    /// Milliseconds to pause after the wheels were commanded.
    pub pause_ms: u32,
}

/// Whether `at` is the place of the first block of `blocks` with the
/// signature `signature`.
pub open spec fn is_first_with(blocks: Seq<Block>, signature: u16, at: int) -> bool {
    &&& 0 <= at < blocks.len()
    &&& blocks[at].signature == signature
    &&& forall|k: int| 0 <= k < at ==> blocks[k].signature != signature
}

/// Finds the first block with the signature `signature`.
pub fn find_signature(blocks: &[Block], signature: u16) -> (found: Option<Block>)
    ensures
        found is Some <==> exists|k: int|
            0 <= k < blocks.len() && (#[trigger] blocks[k]).signature == signature,
        found is Some ==> exists|at: int|
            is_first_with(blocks@, signature, at) && found == Some(blocks[at]),
{
    let mut i: usize = 0;
    while i < blocks.len()
        invariant
            i <= blocks.len(),
            forall|k: int| 0 <= k < i ==> (#[trigger] blocks[k]).signature != signature,
        decreases blocks.len() - i,
    {
        if blocks[i].signature == signature {
            assert(is_first_with(blocks@, signature, i as int));
            return Some(blocks[i]);
        }
        i += 1;
    }
    None
}

/// Whether a block at `x` is within the tolerance of the middle `x_mid`
/// on either side.
pub open spec fn is_ahead(x: u16, x_mid: u16) -> bool {
    x < x_mid + X_MID_TOL || x > x_mid - X_MID_TOL
}

impl TargetState {
    /// One cycle of the run at a target block. `target` is the target as
    /// the camera sees it, if it sees it; `x_mid` is the middle of the
    /// frame; `docked` says whether the dock is touched.
    ///
    /// Scanning, the robot turns right while it sees no target. A target
    /// straight ahead stops it for [`SETTLE_MS`] and starts the drive; one
    /// right of the middle turns it left, any other turns it right.
    /// Driving, it backs up until the dock is touched, and commands nothing
    /// in the cycle in which it is. Done, it rests.
    pub open spec fn spec_step(self, target: Option<Block>, x_mid: u16, docked: bool)
        -> TargetDecision {
        match self {
            TargetState::Scan => match target {
                Some(block) => if is_ahead(block.x, x_mid) {
                    TargetDecision {
                        next: TargetState::Drive,
                        drive: Some(Drive { left: 0, right: 0 }),
                        pause_ms: SETTLE_MS,
                    }
                } else if block.x > x_mid {
                    TargetDecision {
                        next: TargetState::Scan,
                        drive: Some(Drive { left: (-TARGET_SPEED) as i16, right: TARGET_SPEED }),
                        pause_ms: 0,
                    }
                } else {
                    TargetDecision {
                        next: TargetState::Scan,
                        drive: Some(Drive { left: TARGET_SPEED, right: (-TARGET_SPEED) as i16 }),
                        pause_ms: 0,
                    }
                },
                None => TargetDecision {
                    next: TargetState::Scan,
                    drive: Some(Drive { left: TARGET_SPEED, right: (-TARGET_SPEED) as i16 }),
                    pause_ms: 0,
                },
            },
            TargetState::Drive => if docked {
                TargetDecision { next: TargetState::Done, drive: None, pause_ms: 0 }
            } else {
                TargetDecision {
                    next: TargetState::Drive,
                    drive: Some(
                        Drive { left: (-TARGET_SPEED) as i16, right: (-TARGET_SPEED) as i16 },
                    ),
                    pause_ms: 0,
                }
            },
            TargetState::Done => TargetDecision {
                next: TargetState::Done,
                drive: Some(Drive { left: 0, right: 0 }),
                pause_ms: 0,
            },
        }
    }

    pub fn step(self, target: Option<Block>, x_mid: u16, docked: bool) -> (d: TargetDecision)
        ensures
            d == self.spec_step(target, x_mid, docked),
    {
        let rest = Some(Drive { left: 0, right: 0 });
        let turn_right = Some(Drive { left: TARGET_SPEED, right: -TARGET_SPEED });
        match self {
            TargetState::Scan => match target {
                Some(block) => {
                    let x: u32 = block.x as u32;
                    let mid: u32 = x_mid as u32;
                    let tol: u32 = X_MID_TOL as u32;
                    if x < mid + tol || x + tol > mid {
                        TargetDecision {
                            next: TargetState::Drive,
                            drive: rest,
                            pause_ms: SETTLE_MS,
                        }
                    } else if block.x > x_mid {
                        TargetDecision {
                            next: TargetState::Scan,
                            drive: Some(Drive { left: -TARGET_SPEED, right: TARGET_SPEED }),
                            pause_ms: 0,
                        }
                    } else {
                        TargetDecision { next: TargetState::Scan, drive: turn_right, pause_ms: 0 }
                    }
                },
                None => TargetDecision { next: TargetState::Scan, drive: turn_right, pause_ms: 0 },
            },
            TargetState::Drive => {
                if docked {
                    TargetDecision { next: TargetState::Done, drive: None, pause_ms: 0 }
                } else {
                    TargetDecision {
                        next: TargetState::Drive,
                        drive: Some(Drive { left: -TARGET_SPEED, right: -TARGET_SPEED }),
                        pause_ms: 0,
                    }
                }
            },
            TargetState::Done => TargetDecision {
                next: TargetState::Done,
                drive: rest,
                pause_ms: 0,
            },
        }
    }
}

/// With the tolerance that holds, every target counts as straight ahead:
/// a scan that sees the target always goes on to the drive.
pub proof fn lemma_seen_target_starts_the_drive(block: Block, x_mid: u16, docked: bool)
    ensures
        TargetState::Scan.spec_step(Some(block), x_mid, docked).next == TargetState::Drive,
{
}

} // verus!
