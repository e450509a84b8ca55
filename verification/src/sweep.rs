//! The node's sweep controller: a pure state machine that steps the sensor
//! angle back and forth across the selected field of view.
//!
//! Two kinds of input reach it: commands (applied immediately, at most one
//! per tick) and fixed-period ticks. The stepping rule keeps the angle
//! inside the field of view, reverses direction exactly at the bounds, and
//! snaps back onto the nearest bound one tick after a field-of-view change
//! strands the angle outside the new range.
//!
//! Everything here is free of I/O: the caller owns the servo and the
//! telemetry socket, and acts on the values these functions return.

use vstd::prelude::*;
use crate::protocol::{CmdData, PeerAddress, ScanFov, SensorData, Status, TELEMETRY_PORT};
use crate::protocol::{spec_encode_telemetry, encode_telemetry};

verus! {

/// Which way the sweep is moving.
#[derive(Debug, Clone, Copy, PartialEq, Eq, Structural)]
pub enum Direction {
    Ascending,
    Descending,
}

/// The sweep controller's whole state: range, run status, current angle in
/// degrees, and travel direction.
#[derive(Debug, Clone, Copy, PartialEq, Eq, Structural)]
pub struct ServoState {
    pub fov: ScanFov,
    pub status: Status,
    pub angle: i32,
    pub dir: Direction,
}

impl ServoState {
    /// The state the node boots with and returns to on `Reset`.
    pub open spec fn spec_default() -> ServoState {
        ServoState { fov: ScanFov::Wide, status: Status::Stop, angle: 0, dir: Direction::Ascending }
    }

    /// The angle lies inside the current field of view.
    pub open spec fn in_range(self) -> bool {
        self.fov.lower() <= self.angle <= self.fov.upper()
    }

    /// At a bound, the direction points back into the range. Every state
    /// the stepping rule produces satisfies this; a state at a bound but
    /// still moving outward would leave the range on its next step.
    pub open spec fn aligned(self) -> bool {
        &&& self.angle == self.fov.lower() ==> self.dir is Ascending
        &&& self.angle == self.fov.upper() ==> self.dir is Descending
    }
}

/// The stepping rule, as a mathematical function of the current state.
///
/// An angle stranded outside the range (after a field-of-view change) snaps
/// to the nearest bound; otherwise the angle moves one degree in the travel
/// direction, and the direction flips exactly when the step lands on a
/// bound.
pub open spec fn spec_next_angle(s: ServoState) -> (int, Direction) {
    let lo = s.fov.lower();
    let hi = s.fov.upper();
    if s.angle < lo {
        (lo, Direction::Ascending)
    } else if s.angle > hi {
        (hi, Direction::Descending)
    } else if s.dir is Ascending {
        (s.angle + 1, if s.angle + 1 == hi { Direction::Descending } else { Direction::Ascending })
    } else {
        (s.angle - 1, if s.angle - 1 == lo { Direction::Ascending } else { Direction::Descending })
    }
}

/// One sweep step: the next `(angle, direction)` pair for `current`.
pub fn next_angle(current: &ServoState) -> (r: (i32, Direction))
    ensures
        r.0 as int == spec_next_angle(*current).0,
        r.1 == spec_next_angle(*current).1,
{
    let (lo, hi) = current.fov.angle();
    if current.angle < lo {
        return (lo, Direction::Ascending);
    } else if current.angle > hi {
        return (hi, Direction::Descending);
    }
    match current.dir {
        Direction::Ascending => {
            let next: i32 = current.angle + 1;
            (next, if next == hi { Direction::Descending } else { Direction::Ascending })
        },
        Direction::Descending => {
            let next: i32 = current.angle - 1;
            (next, if next == lo { Direction::Ascending } else { Direction::Descending })
        },
    }
}

/// One tick never leaves the field of view: from any in-range state whose
/// direction respects the bounds, the stepped angle is again within
/// `[lower, upper]`.
pub proof fn lemma_tick_stays_in_range(s: ServoState)
    requires
        s.in_range(),
        s.aligned(),
    ensures
        s.fov.lower() <= spec_next_angle(s).0 <= s.fov.upper(),
{
}

/// Direction reversal is exact, for every input state: whenever a step
/// lands on the lower bound the new direction is `Ascending`, whenever it
/// lands on the upper bound it is `Descending`, and nowhere else does the
/// direction change. In particular the stepped state is again `aligned`,
/// so a sweep that starts aligned stays aligned forever, and leaving the
/// lower bound moves upward: from `(lower, Ascending)` one step yields
/// `(lower + 1, Ascending)` (the two bounds being more than one degree
/// apart).
pub proof fn lemma_reversal_exact(s: ServoState)
    ensures
        spec_next_angle(s).0 == s.fov.lower() ==> spec_next_angle(s).1 is Ascending,
        spec_next_angle(s).0 == s.fov.upper() ==> spec_next_angle(s).1 is Descending,
        s.in_range() && spec_next_angle(s).1 != s.dir ==> spec_next_angle(s).0 == s.fov.lower()
            || spec_next_angle(s).0 == s.fov.upper(),
        s.angle == s.fov.lower() && s.dir is Ascending ==> spec_next_angle(s) == (
            s.fov.lower() + 1,
            Direction::Ascending,
        ),
        s.angle == s.fov.upper() && s.dir is Descending ==> spec_next_angle(s) == (
            s.fov.upper() - 1,
            Direction::Descending,
        ),
{
}

/// What one command does to the controller: the new sweep state and the
/// new telemetry destination. `Reset` restores the defaults; a peer
/// announcement keeps the announced address but redirects to the fixed
/// telemetry port; the other commands overwrite their one field.
pub open spec fn spec_apply_command(
    s: ServoState,
    peer: Option<PeerAddress>,
    cmd: CmdData,
) -> (ServoState, Option<PeerAddress>) {
    match cmd {
        CmdData::FoV(f) => (
            ServoState { fov: f, status: s.status, angle: s.angle, dir: s.dir },
            peer,
        ),
        CmdData::Operation(op) => (
            ServoState { fov: s.fov, status: op, angle: s.angle, dir: s.dir },
            peer,
        ),
        CmdData::Reset => (ServoState::spec_default(), peer),
        CmdData::PeerAddr(a) => (
            s,
            Some(PeerAddress { ip0: a.ip0, ip1: a.ip1, ip2: a.ip2, ip3: a.ip3, port: TELEMETRY_PORT }),
        ),
    }
}

/// Everything the sweep loop must do after one tick: move the servo to the
/// new angle, and, when a peer is known, send it the encoded telemetry
/// frame. The caller performs both; neither is retried on failure.
pub struct TickAction {
    pub servo_target: i32,
    pub telemetry: Option<(PeerAddress, Vec<u8>)>,
}

/// The node-side worker state: the sweep controller plus the announced
/// telemetry destination. The surrounding loop owns the hardware and the
/// sockets; it feeds commands and ticks in here and carries out the
/// returned actions.
pub struct SweepWorker {
    pub state: ServoState,
    pub peer: Option<PeerAddress>,
}

impl SweepWorker {
    /// A fresh worker: default sweep state, no telemetry destination yet.
    pub fn new() -> (w: SweepWorker)
        ensures
            w.state == ServoState::spec_default(),
            w.peer is None,
    {
        SweepWorker {
            state: ServoState {
                fov: ScanFov::Wide,
                status: Status::Stop,
                angle: 0,
                dir: Direction::Ascending,
            },
            peer: None,
        }
    }

    /// Applies one command. Returns `Some(0)` exactly on `Reset`, which
    /// additionally commands the servo straight to zero degrees; every
    /// other command changes state only.
    pub fn apply_command(&mut self, cmd: CmdData) -> (servo_target: Option<i32>)
        ensures
            (final(self).state, final(self).peer) == spec_apply_command(
                old(self).state,
                old(self).peer,
                cmd,
            ),
            servo_target == (if cmd is Reset {
                Some(0i32)
            } else {
                None::<i32>
            }),
    {
        match cmd {
            CmdData::FoV(f) => {
                self.state.fov = f;
                None
            },
            CmdData::Operation(op) => {
                self.state.status = op;
                None
            },
            CmdData::Reset => {
                self.state = ServoState {
                    fov: ScanFov::Wide,
                    status: Status::Stop,
                    angle: 0,
                    dir: Direction::Ascending,
                };
                Some(0)
            },
            CmdData::PeerAddr(a) => {
                self.peer = Some(PeerAddress {
                    ip0: a.ip0,
                    ip1: a.ip1,
                    ip2: a.ip2,
                    ip3: a.ip3,
                    port: TELEMETRY_PORT,
                });
                None
            },
        }
    }

    /// One sweep tick. While stopped it does nothing and asks for nothing;
    /// while started it advances the angle by the stepping rule and
    /// returns the servo target, plus the encoded telemetry frame when a
    /// destination is known.
    pub fn tick(&mut self) -> (r: Option<TickAction>)
        ensures
            old(self).state.status is Stop ==> r is None && *final(self) == *old(self),
            old(self).state.status is Start ==> {
                &&& final(self).state.angle as int == spec_next_angle(old(self).state).0
                &&& final(self).state.dir == spec_next_angle(old(self).state).1
                &&& final(self).state.fov == old(self).state.fov
                &&& final(self).state.status == old(self).state.status
                &&& final(self).peer == old(self).peer
                &&& match r {
                    Some(act) => {
                        &&& act.servo_target == final(self).state.angle
                        &&& match (old(self).peer, act.telemetry) {
                            (Some(p), Some(dest_frame)) => dest_frame.0 == p
                                && dest_frame.1@ == spec_encode_telemetry(
                                SensorData { angle: final(self).state.angle },
                            ),
                            (None, None) => true,
                            _ => false,
                        }
                    },
                    None => false,
                }
            },
    {
        if self.state.status == Status::Stop {
            return None;
        }
        let (a, d) = next_angle(&self.state);
        self.state.angle = a;
        self.state.dir = d;
        let telemetry = match self.peer {
            Some(p) => Some((p, encode_telemetry(&SensorData { angle: a }))),
            None => None,
        };
        Some(TickAction { servo_target: a, telemetry })
    }
}

} // verus!
