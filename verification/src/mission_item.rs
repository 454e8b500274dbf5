//! Mission item factory.
//!
//! One constructor per semantic action (takeoff, land, waypoint, delay-until,
//! mode-transition, gripper actuate, winch actuate, point-camera, set-home,
//! place-payload, set-flight-mode). Each produces a single low-level command
//! record with a fixed parameter-slot contract and leaves the sequence index
//! unset; indices are assigned in one pass after the full item list is built.
//!
//! Scalar command parameters and coordinates are fixed-point decimals scaled
//! by `DEC_SCALE` (ten million): a latitude of 47.3977419 degrees is stored
//! as the integer 473977419. Slots that the command leaves unused, and slots
//! carrying a "use the current value" sentinel, hold [`ParamValue::Null`];
//! both render as `null` on the wire.

use vstd::prelude::*;
use crate::itinerary::{ClockTime, Pose};

verus! {

/// Scale factor of the fixed-point decimal values used for coordinates and
/// command parameters: stored integers are the decimal value times ten
/// million (seven decimal places).
pub const DEC_SCALE: i64 = 10_000_000;

/// One scalar slot of a mission command's parameter list.
#[derive(Clone, Copy, Debug, PartialEq, Eq, Structural)]
pub enum ParamValue {
    /// An unused slot, or a "use the current value" sentinel; renders as
    /// `null`.
    Null,
    /// A decimal value scaled by [`DEC_SCALE`].
    Num(i64),
}

/// Command code `MAV_CMD_NAV_WAYPOINT`: navigate to a location.
pub const CMD_NAV_WAYPOINT: u16 = 16;

/// Command code `MAV_CMD_NAV_LAND`: land at a location.
pub const CMD_NAV_LAND: u16 = 21;

/// Command code `MAV_CMD_NAV_TAKEOFF`: take off toward a location.
pub const CMD_NAV_TAKEOFF: u16 = 22;

/// Command code `MAV_CMD_NAV_DELAY`: hold until a time of day.
pub const CMD_NAV_DELAY: u16 = 93;

/// Command code `MAV_CMD_NAV_PAYLOAD_PLACE`: descend and release a payload
/// on the ground.
pub const CMD_NAV_PAYLOAD_PLACE: u16 = 94;

/// Command code `MAV_CMD_DO_SET_MODE`: set the autopilot flight mode.
pub const CMD_DO_SET_MODE: u16 = 176;

/// Command code `MAV_CMD_DO_SET_HOME`: set the home position.
pub const CMD_DO_SET_HOME: u16 = 179;

/// Command code `MAV_CMD_DO_SET_ROI_LOCATION`: aim the camera gimbal at a
/// point of interest.
pub const CMD_DO_SET_ROI_LOCATION: u16 = 195;

/// Command code `MAV_CMD_DO_GRIPPER`: actuate the cargo gripper.
pub const CMD_DO_GRIPPER: u16 = 211;

/// Command code `MAV_CMD_LOGGING_START`: start streaming logging data
/// (the default command of a freshly built item record).
pub const CMD_LOGGING_START: u16 = 2510;

/// Command code `MAV_CMD_DO_VTOL_TRANSITION`: transition between multirotor
/// and fixed-wing flight.
pub const CMD_DO_VTOL_TRANSITION: u16 = 3000;

/// Command code `MAV_CMD_DO_WINCH`: actuate the cargo winch.
pub const CMD_DO_WINCH: u16 = 42600;

/// Coordinate frame code `MAV_FRAME_GLOBAL`: WGS-84 coordinates with
/// altitude over mean sea level.
pub const FRAME_GLOBAL: u8 = 0;

/// Coordinate frame code `MAV_FRAME_GLOBAL_RELATIVE_ALT`: WGS-84
/// coordinates with altitude relative to the home position.
pub const FRAME_GLOBAL_RELATIVE_ALT: u8 = 3;

/// VTOL transition target state code `MAV_VTOL_STATE_MC`: multirotor
/// (hover) flight.
pub const VTOL_STATE_MULTIROTOR: u8 = 3;

/// VTOL transition target state code `MAV_VTOL_STATE_FW`: fixed-wing
/// (cruise) flight.
pub const VTOL_STATE_FIXED_WING: u8 = 4;

/// Gripper action code `GRIPPER_ACTION_RELEASE`: open the gripper.
pub const GRIPPER_ACTION_RELEASE: u8 = 0;

/// Gripper action code `GRIPPER_ACTION_GRAB`: close the gripper.
pub const GRIPPER_ACTION_GRAB: u8 = 1;

/// Flight mode code `MAV_MODE_AUTO_DISARMED`: autonomous mode, disarmed.
pub const MODE_AUTO_DISARMED: u8 = 92;

/// Flight mode code `MAV_MODE_AUTO_ARMED`: autonomous mode, armed.
pub const MODE_AUTO_ARMED: u8 = 220;

/// The decimal value `n`, scaled by [`DEC_SCALE`]: the fixed-point form of
/// a whole number.
pub open spec fn scaled(n: int) -> i64 {
    (n * DEC_SCALE) as i64
}

/// One low-level autopilot mission command.
///
/// `sequence_index` is 1-based and is assigned only after the full item list
/// of a plan is built; a freshly constructed item carries the placeholder 0.
#[derive(Clone, Debug, PartialEq)]
pub struct MissionItem {
    /// 1-based position in the compiled plan (the wire's `doJumpId`);
    /// 0 until assigned.
    pub sequence_index: u16,
    /// MAVLink command code.
    pub command: u16,
    /// MAVLink coordinate frame code.
    pub frame: u8,
    /// Altitude, scaled by [`DEC_SCALE`].
    pub altitude: i64,
    /// Altitude mode code.
    pub altitude_mode: u8,
    /// Altitude above terrain over mean sea level, scaled by [`DEC_SCALE`].
    pub amsl_alt_above_terrain: i64,
    /// Whether the autopilot proceeds to the next item automatically.
    pub auto_continue: bool,
    /// Ordered scalar parameter slots; length and meaning are
    /// command-specific.
    pub params: Vec<ParamValue>,
}

/// Mathematical model of a [`MissionItem`].
pub struct ItemModel {
    /// 1-based position in the compiled plan; 0 until assigned.
    pub sequence_index: u16,
    /// MAVLink command code.
    pub command: u16,
    /// MAVLink coordinate frame code.
    pub frame: u8,
    /// Altitude, scaled by [`DEC_SCALE`].
    pub altitude: i64,
    /// Altitude mode code.
    pub altitude_mode: u8,
    /// Altitude above terrain over mean sea level, scaled by [`DEC_SCALE`].
    pub amsl_alt_above_terrain: i64,
    /// Whether the autopilot proceeds to the next item automatically.
    pub auto_continue: bool,
    /// Ordered scalar parameter slots.
    pub params: Seq<ParamValue>,
}

impl View for MissionItem {
    type V = ItemModel;

    open spec fn view(&self) -> ItemModel {
        ItemModel {
            sequence_index: self.sequence_index,
            command: self.command,
            frame: self.frame,
            altitude: self.altitude,
            altitude_mode: self.altitude_mode,
            amsl_alt_above_terrain: self.amsl_alt_above_terrain,
            auto_continue: self.auto_continue,
            params: self.params@,
        }
    }
}

/// The models of a sequence of mission items, element by element.
pub open spec fn models(items: Seq<MissionItem>) -> Seq<ItemModel> {
    Seq::new(items.len(), |i: int| items[i]@)
}

/// The item every factory starts from: global frame, auto-continue, zero
/// altitude, altitude mode 1, and a logging-start command whose first slot
/// (the log format) is zero.
pub open spec fn spec_default_item() -> ItemModel {
    ItemModel {
        sequence_index: 0,
        command: CMD_LOGGING_START,
        frame: FRAME_GLOBAL,
        altitude: 0,
        altitude_mode: 1,
        amsl_alt_above_terrain: 0,
        auto_continue: true,
        params: seq![
            ParamValue::Num(0),
            ParamValue::Null,
            ParamValue::Null,
            ParamValue::Null,
            ParamValue::Null,
            ParamValue::Null,
            ParamValue::Null,
        ],
    }
}

/// A landing command: slots are pitch, two unused, yaw, then the pose.
pub open spec fn spec_landing(pose: Pose, yaw: i64, pitch: i64) -> ItemModel {
    ItemModel {
        command: CMD_NAV_LAND,
        params: seq![
            ParamValue::Num(pitch),
            ParamValue::Null,
            ParamValue::Null,
            ParamValue::Num(yaw),
            ParamValue::Num(pose.latitude),
            ParamValue::Num(pose.longitude),
            ParamValue::Num(pose.altitude_meters),
        ],
        ..spec_default_item()
    }
}

/// A takeoff command toward a target pose: slots as in a landing.
pub open spec fn spec_takeoff(target_pose: Pose, yaw: i64, pitch: i64) -> ItemModel {
    ItemModel {
        command: CMD_NAV_TAKEOFF,
        params: seq![
            ParamValue::Num(pitch),
            ParamValue::Null,
            ParamValue::Null,
            ParamValue::Num(yaw),
            ParamValue::Num(target_pose.latitude),
            ParamValue::Num(target_pose.longitude),
            ParamValue::Num(target_pose.altitude_meters),
        ],
        ..spec_default_item()
    }
}

/// A delay command until a time of day: the leading -1 enables the
/// time-of-day slots, which hold minute, second and hour.
pub open spec fn spec_delay(time: ClockTime) -> ItemModel {
    ItemModel {
        command: CMD_NAV_DELAY,
        frame: FRAME_GLOBAL_RELATIVE_ALT,
        params: seq![
            ParamValue::Num(scaled(-1)),
            ParamValue::Num(scaled(time.minute as int)),
            ParamValue::Num(scaled(time.second as int)),
            ParamValue::Num(scaled(time.hour as int)),
            ParamValue::Null,
            ParamValue::Null,
            ParamValue::Null,
        ],
        ..spec_default_item()
    }
}

/// A waypoint command: zero hold time, acceptance radius and pass-through,
/// the current-heading sentinel for yaw, then the pose.
pub open spec fn spec_waypoint(pose: Pose) -> ItemModel {
    ItemModel {
        command: CMD_NAV_WAYPOINT,
        params: seq![
            ParamValue::Num(0),
            ParamValue::Num(0),
            ParamValue::Num(0),
            ParamValue::Null,
            ParamValue::Num(pose.latitude),
            ParamValue::Num(pose.longitude),
            ParamValue::Num(pose.altitude_meters),
        ],
        ..spec_default_item()
    }
}

/// A VTOL transition command toward `target_state` (one of the two valid
/// target state codes); the zero in the second slot asks for a normal,
/// non-immediate transition.
pub open spec fn spec_transition(target_state: u8) -> ItemModel {
    ItemModel {
        command: CMD_DO_VTOL_TRANSITION,
        frame: FRAME_GLOBAL_RELATIVE_ALT,
        params: seq![
            ParamValue::Num(scaled(target_state as int)),
            ParamValue::Num(0),
            ParamValue::Null,
            ParamValue::Null,
            ParamValue::Null,
            ParamValue::Null,
            ParamValue::Null,
        ],
        ..spec_default_item()
    }
}

/// A gripper command: gripper device 1 and the action code.
pub open spec fn spec_gripper(action: u8) -> ItemModel {
    ItemModel {
        command: CMD_DO_GRIPPER,
        frame: FRAME_GLOBAL_RELATIVE_ALT,
        params: seq![
            ParamValue::Num(scaled(1)),
            ParamValue::Num(scaled(action as int)),
            ParamValue::Null,
            ParamValue::Null,
            ParamValue::Null,
            ParamValue::Null,
            ParamValue::Null,
        ],
        ..spec_default_item()
    }
}

/// A set-flight-mode command: the mode code in the first slot.
pub open spec fn spec_mode(mode: u8) -> ItemModel {
    ItemModel {
        command: CMD_DO_SET_MODE,
        frame: FRAME_GLOBAL_RELATIVE_ALT,
        params: seq![
            ParamValue::Num(scaled(mode as int)),
            ParamValue::Null,
            ParamValue::Null,
            ParamValue::Null,
            ParamValue::Null,
            ParamValue::Null,
            ParamValue::Null,
        ],
        ..spec_default_item()
    }
}

/// A set-home command: with a pose, the use-current-position flag is 0 and
/// the pose fills the location slots; without one, the flag is 1 and the
/// location is all zeroes.
pub open spec fn spec_set_home(pose: Option<Pose>) -> ItemModel {
    let (use_current, p) = match pose {
        Some(p) => (0i64, p),
        None => (
            1i64,
            Pose { latitude: 0, longitude: 0, altitude_meters: 0, heading_degrees: 0 },
        ),
    };
    ItemModel {
        command: CMD_DO_SET_HOME,
        params: seq![
            ParamValue::Num(scaled(use_current as int)),
            ParamValue::Null,
            ParamValue::Null,
            ParamValue::Null,
            ParamValue::Num(p.latitude),
            ParamValue::Num(p.longitude),
            ParamValue::Num(p.altitude_meters),
        ],
        ..spec_default_item()
    }
}

/// A payload-place command: maximum descent, three unused slots, then the
/// pose.
pub open spec fn spec_payload_place(pose: Pose, expected_descent_m: u8) -> ItemModel {
    ItemModel {
        command: CMD_NAV_PAYLOAD_PLACE,
        params: seq![
            ParamValue::Num(scaled(expected_descent_m as int)),
            ParamValue::Null,
            ParamValue::Null,
            ParamValue::Null,
            ParamValue::Num(pose.latitude),
            ParamValue::Num(pose.longitude),
            ParamValue::Num(pose.altitude_meters),
        ],
        ..spec_default_item()
    }
}

/// A winch command: winch device 1, the action code, then payout length and
/// rate (both scaled by [`DEC_SCALE`]).
pub open spec fn spec_do_winch(action: u8, length_m: i64, rate_m_s: i64) -> ItemModel {
    ItemModel {
        command: CMD_DO_WINCH,
        frame: FRAME_GLOBAL_RELATIVE_ALT,
        params: seq![
            ParamValue::Num(scaled(1)),
            ParamValue::Num(scaled(action as int)),
            ParamValue::Num(length_m),
            ParamValue::Num(rate_m_s),
            ParamValue::Null,
            ParamValue::Null,
            ParamValue::Null,
        ],
        ..spec_default_item()
    }
}

/// A region-of-interest command: the gimbal device id, three unused slots,
/// then the pose the camera should track.
pub open spec fn spec_set_roi(pose: Pose, gimbal_camera_id: u8) -> ItemModel {
    ItemModel {
        command: CMD_DO_SET_ROI_LOCATION,
        params: seq![
            ParamValue::Num(scaled(gimbal_camera_id as int)),
            ParamValue::Null,
            ParamValue::Null,
            ParamValue::Null,
            ParamValue::Num(pose.latitude),
            ParamValue::Num(pose.longitude),
            ParamValue::Num(pose.altitude_meters),
        ],
        ..spec_default_item()
    }
}

impl MissionItem {
    /// Build the base item every factory starts from.
    fn base() -> (r: MissionItem)
        ensures
            r@ == spec_default_item(),
    {
        let params = vec![
            ParamValue::Num(0),
            ParamValue::Null,
            ParamValue::Null,
            ParamValue::Null,
            ParamValue::Null,
            ParamValue::Null,
            ParamValue::Null,
        ];
        let r = MissionItem {
            sequence_index: 0,
            command: CMD_LOGGING_START,
            frame: FRAME_GLOBAL,
            altitude: 0,
            altitude_mode: 1,
            amsl_alt_above_terrain: 0,
            auto_continue: true,
            params,
        };
        proof {
            assert(r@.params =~= spec_default_item().params);
        }
        r
    }

    /// Landing command at `pose`; yaw and pitch are decimal degrees scaled
    /// by [`DEC_SCALE`].
    pub fn landing(pose: Pose, yaw: i64, pitch: i64) -> (r: MissionItem)
        ensures
            r@ == spec_landing(pose, yaw, pitch),
    {
        let mut r = Self::base();
        r.command = CMD_NAV_LAND;
        r.params = vec![
            ParamValue::Num(pitch),
            ParamValue::Null,
            ParamValue::Null,
            ParamValue::Num(yaw),
            ParamValue::Num(pose.latitude),
            ParamValue::Num(pose.longitude),
            ParamValue::Num(pose.altitude_meters),
        ];
        proof {
            assert(r@.params =~= spec_landing(pose, yaw, pitch).params);
        }
        r
    }

    /// Takeoff command toward `target_pose`; yaw and pitch are decimal
    /// degrees scaled by [`DEC_SCALE`].
    pub fn takeoff(target_pose: Pose, yaw: i64, pitch: i64) -> (r: MissionItem)
        ensures
            r@ == spec_takeoff(target_pose, yaw, pitch),
    {
        let mut r = Self::base();
        r.command = CMD_NAV_TAKEOFF;
        r.params = vec![
            ParamValue::Num(pitch),
            ParamValue::Null,
            ParamValue::Null,
            ParamValue::Num(yaw),
            ParamValue::Num(target_pose.latitude),
            ParamValue::Num(target_pose.longitude),
            ParamValue::Num(target_pose.altitude_meters),
        ];
        proof {
            assert(r@.params =~= spec_takeoff(target_pose, yaw, pitch).params);
        }
        r
    }

    /// Delay command until the given time of day.
    pub fn delay(time: ClockTime) -> (r: MissionItem)
        ensures
            r@ == spec_delay(time),
    {
        let mut r = Self::base();
        r.command = CMD_NAV_DELAY;
        r.frame = FRAME_GLOBAL_RELATIVE_ALT;
        r.params = vec![
            ParamValue::Num(-1 * DEC_SCALE),
            ParamValue::Num(time.minute as i64 * DEC_SCALE),
            ParamValue::Num(time.second as i64 * DEC_SCALE),
            ParamValue::Num(time.hour as i64 * DEC_SCALE),
            ParamValue::Null,
            ParamValue::Null,
            ParamValue::Null,
        ];
        proof {
            assert(r@.params =~= spec_delay(time).params);
        }
        r
    }

    /// Waypoint command at `pose`.
    pub fn waypoint(pose: Pose) -> (r: MissionItem)
        ensures
            r@ == spec_waypoint(pose),
    {
        let mut r = Self::base();
        r.command = CMD_NAV_WAYPOINT;
        r.params = vec![
            ParamValue::Num(0),
            ParamValue::Num(0),
            ParamValue::Num(0),
            ParamValue::Null,
            ParamValue::Num(pose.latitude),
            ParamValue::Num(pose.longitude),
            ParamValue::Num(pose.altitude_meters),
        ];
        proof {
            assert(r@.params =~= spec_waypoint(pose).params);
        }
        r
    }

    /// VTOL transition command. Valid only for the two VTOL target state
    /// codes [`VTOL_STATE_MULTIROTOR`] and [`VTOL_STATE_FIXED_WING`]; any
    /// other target state fails.
    pub fn try_transition(target_state: u8) -> (r: Result<MissionItem, ()>)
        ensures
            r matches Ok(item) ==> item@ == spec_transition(target_state),
            r is Ok <==> (target_state == VTOL_STATE_MULTIROTOR
                || target_state == VTOL_STATE_FIXED_WING),
    {
        if target_state != VTOL_STATE_MULTIROTOR && target_state != VTOL_STATE_FIXED_WING {
            return Err(());
        }
        let mut r = Self::base();
        r.command = CMD_DO_VTOL_TRANSITION;
        r.frame = FRAME_GLOBAL_RELATIVE_ALT;
        r.params = vec![
            ParamValue::Num(target_state as i64 * DEC_SCALE),
            ParamValue::Num(0),
            ParamValue::Null,
            ParamValue::Null,
            ParamValue::Null,
            ParamValue::Null,
            ParamValue::Null,
        ];
        proof {
            assert(r@.params =~= spec_transition(target_state).params);
        }
        Ok(r)
    }

    /// Gripper command with the given action code.
    pub fn gripper(action: u8) -> (r: MissionItem)
        ensures
            r@ == spec_gripper(action),
    {
        let mut r = Self::base();
        r.command = CMD_DO_GRIPPER;
        r.frame = FRAME_GLOBAL_RELATIVE_ALT;
        r.params = vec![
            ParamValue::Num(1 * DEC_SCALE),
            ParamValue::Num(action as i64 * DEC_SCALE),
            ParamValue::Null,
            ParamValue::Null,
            ParamValue::Null,
            ParamValue::Null,
            ParamValue::Null,
        ];
        proof {
            assert(r@.params =~= spec_gripper(action).params);
        }
        r
    }

    /// Set-flight-mode command with the given mode code. Total; the result
    /// is wrapped only so that callers treat it like the other fallible
    /// steps of a compile.
    pub fn try_mode(mode: u8) -> (r: Result<MissionItem, ()>)
        ensures
            r matches Ok(item) && item@ == spec_mode(mode),
    {
        let mut r = Self::base();
        r.command = CMD_DO_SET_MODE;
        r.frame = FRAME_GLOBAL_RELATIVE_ALT;
        r.params = vec![
            ParamValue::Num(mode as i64 * DEC_SCALE),
            ParamValue::Null,
            ParamValue::Null,
            ParamValue::Null,
            ParamValue::Null,
            ParamValue::Null,
            ParamValue::Null,
        ];
        proof {
            assert(r@.params =~= spec_mode(mode).params);
        }
        Ok(r)
    }

    /// Set-home command: at `pose` when one is given, else at the current
    /// position.
    pub fn set_home(pose: Option<Pose>) -> (r: MissionItem)
        ensures
            r@ == spec_set_home(pose),
    {
        let (use_current, p) = match pose {
            Some(p) => (0i64, p),
            None => (
                1i64,
                Pose { latitude: 0, longitude: 0, altitude_meters: 0, heading_degrees: 0 },
            ),
        };
        let mut r = Self::base();
        r.command = CMD_DO_SET_HOME;
        r.params = vec![
            ParamValue::Num(use_current * DEC_SCALE),
            ParamValue::Null,
            ParamValue::Null,
            ParamValue::Null,
            ParamValue::Num(p.latitude),
            ParamValue::Num(p.longitude),
            ParamValue::Num(p.altitude_meters),
        ];
        proof {
            assert(r@.params =~= spec_set_home(pose).params);
        }
        r
    }

    /// Payload-place command at `pose`, descending at most
    /// `expected_descent_m` meters.
    pub fn payload_place(pose: Pose, expected_descent_m: u8) -> (r: MissionItem)
        ensures
            r@ == spec_payload_place(pose, expected_descent_m),
    {
        let mut r = Self::base();
        r.command = CMD_NAV_PAYLOAD_PLACE;
        r.params = vec![
            ParamValue::Num(expected_descent_m as i64 * DEC_SCALE),
            ParamValue::Null,
            ParamValue::Null,
            ParamValue::Null,
            ParamValue::Num(pose.latitude),
            ParamValue::Num(pose.longitude),
            ParamValue::Num(pose.altitude_meters),
        ];
        proof {
            assert(r@.params =~= spec_payload_place(pose, expected_descent_m).params);
        }
        r
    }

    /// Winch command with the given action code; payout length and rate are
    /// scaled by [`DEC_SCALE`].
    pub fn do_winch(action: u8, length_m: i64, rate_m_s: i64) -> (r: MissionItem)
        ensures
            r@ == spec_do_winch(action, length_m, rate_m_s),
    {
        let mut r = Self::base();
        r.command = CMD_DO_WINCH;
        r.frame = FRAME_GLOBAL_RELATIVE_ALT;
        r.params = vec![
            ParamValue::Num(1 * DEC_SCALE),
            ParamValue::Num(action as i64 * DEC_SCALE),
            ParamValue::Num(length_m),
            ParamValue::Num(rate_m_s),
            ParamValue::Null,
            ParamValue::Null,
            ParamValue::Null,
        ];
        proof {
            assert(r@.params =~= spec_do_winch(action, length_m, rate_m_s).params);
        }
        r
    }

    /// Region-of-interest command: aim the camera with device id
    /// `gimbal_camera_id` at `pose`.
    pub fn set_roi(pose: Pose, gimbal_camera_id: u8) -> (r: MissionItem)
        ensures
            r@ == spec_set_roi(pose, gimbal_camera_id),
    {
        let mut r = Self::base();
        r.command = CMD_DO_SET_ROI_LOCATION;
        r.params = vec![
            ParamValue::Num(gimbal_camera_id as i64 * DEC_SCALE),
            ParamValue::Null,
            ParamValue::Null,
            ParamValue::Null,
            ParamValue::Num(pose.latitude),
            ParamValue::Num(pose.longitude),
            ParamValue::Num(pose.altitude_meters),
        ];
        proof {
            assert(r@.params =~= spec_set_roi(pose, gimbal_camera_id).params);
        }
        r
    }
}

} // verus!
