//! Itinerary input data.
//!
//! The compiler's callers describe a cargo flight with these plain value
//! types. Coordinates and headings are fixed-point decimals scaled by
//! [`crate::mission_item::DEC_SCALE`]; times of day are plain
//! hour/minute/second triples. Waypoint lists are validated only for
//! non-emptiness where the compiler needs a first or last element; time
//! ordering and geographic sanity are the caller's responsibility.

use vstd::prelude::*;

verus! {

/// How a parcel is exchanged during an itinerary.
#[derive(Clone, Copy, Debug, PartialEq, Eq, Structural)]
pub enum PickupType {
    /// Cargo is reeled on a winch line without landing.
    Winch,
    /// Cargo is gripped in a continuous airborne pickup without landing.
    Swoop,
    /// The aircraft lands and is loaded or unloaded while disarmed.
    Land,
}

/// Latitude, longitude, altitude and heading following the WGS-84
/// standard. Each field is a decimal scaled by
/// [`crate::mission_item::DEC_SCALE`]: degrees for latitude, longitude and
/// heading, meters for altitude.
#[derive(Clone, Copy, Debug, PartialEq, Eq, Structural)]
pub struct Pose {
    /// Latitude in degrees, scaled.
    pub latitude: i64,
    /// Longitude in degrees, scaled.
    pub longitude: i64,
    /// Altitude in meters, scaled.
    pub altitude_meters: i64,
    /// Heading with respect to true north in degrees, scaled.
    pub heading_degrees: i64,
}

/// A time of day in hours, minutes and seconds.
#[derive(Clone, Copy, Debug, PartialEq, Eq, Structural)]
pub struct ClockTime {
    /// Hour of the day, 0 to 23.
    pub hour: u8,
    /// Minute of the hour, 0 to 59.
    pub minute: u8,
    /// Second of the minute, 0 to 59.
    pub second: u8,
}

/// Input of a hop itinerary: a single flight from takeoff to landing with
/// no airborne cargo exchange.
#[derive(Clone, Debug, PartialEq)]
pub struct HopData {
    /// Where the flight starts.
    pub takeoff_location: Pose,
    /// When the flight starts.
    pub takeoff_time: ClockTime,
    /// Where the flight ends.
    pub landing_location: Pose,
    /// When the landing window opens.
    pub landing_time: ClockTime,
    /// The path flown, in order; must not be empty.
    pub waypoints: Vec<Pose>,
    /// Cruise speed handed to the ground station, in its native unit.
    pub cruise_speed: u32,
    /// Hover speed handed to the ground station, in its native unit.
    pub hover_speed: u32,
    /// MAVLink autopilot type code of the airframe's firmware.
    pub autopilot_type: u8,
    /// MAVLink vehicle type code of the airframe.
    pub vehicle_type: u8,
    /// Device id of the camera gimbal.
    pub gimbal_camera_id: u8,
}

/// Input of a continuous ("swoop") itinerary: one flight with airborne
/// pickup and dropoff, never landing between legs, with optional deadhead
/// transit legs before pickup and after dropoff.
#[derive(Clone, Debug, PartialEq)]
pub struct ContinuousData {
    /// Where the flight starts.
    pub takeoff_location: Pose,
    /// Where the flight ends.
    pub landing_location: Pose,
    /// Where the parcel is picked up.
    pub pickup_location: Pose,
    /// Where the parcel is dropped off.
    pub dropoff_location: Pose,
    /// When the flight starts.
    pub takeoff_time: ClockTime,
    /// When the landing window opens.
    pub landing_time: ClockTime,
    /// When the pickup window opens.
    pub pickup_time: ClockTime,
    /// When the dropoff window opens.
    pub dropoff_time: ClockTime,
    /// Transit leg flown before the pickup; must not be empty.
    pub waypoints_deadhead_a: Vec<Pose>,
    /// Transit leg flown after the dropoff; must not be empty.
    pub waypoints_deadhead_b: Vec<Pose>,
    /// The loaded leg between pickup and dropoff; must not be empty.
    pub waypoints_main: Vec<Pose>,
    /// Cruise speed handed to the ground station, in its native unit.
    pub cruise_speed: u32,
    /// Hover speed handed to the ground station, in its native unit.
    pub hover_speed: u32,
    /// MAVLink autopilot type code of the airframe's firmware.
    pub autopilot_type: u8,
    /// MAVLink vehicle type code of the airframe.
    pub vehicle_type: u8,
    /// Place the payload gently on the ground instead of releasing it from
    /// the dropoff pose.
    pub gentle_dropoff: bool,
    /// Device id of the camera gimbal.
    pub gimbal_camera_id: u8,
}

/// Why a compilation failed. Every failure aborts the whole compilation; no
/// partial plan is ever returned.
#[derive(Clone, Copy, Debug, PartialEq, Eq, Structural)]
pub enum PlanError {
    /// A required waypoint list was empty where the compiler needed its
    /// first or last element.
    EmptyWaypointLeg,
    /// A VTOL transition was requested toward a state that is neither
    /// fixed-wing nor multirotor.
    InvalidTransitionTarget,
    /// The requested itinerary kind is intentionally unimplemented.
    UnsupportedItineraryVariant,
}

impl PlanError {
    /// A short human-readable description of the error.
    pub fn message(&self) -> (r: &'static str)
        ensures
            *self == PlanError::EmptyWaypointLeg ==> r@ == "no waypoints provided for a required leg"@,
            *self == PlanError::InvalidTransitionTarget ==> r@ == "invalid transition target state provided"@,
            *self == PlanError::UnsupportedItineraryVariant ==> r@ == "itinerary variant is not supported"@,
    {
        match self {
            PlanError::EmptyWaypointLeg => "no waypoints provided for a required leg",
            PlanError::InvalidTransitionTarget => "invalid transition target state provided",
            PlanError::UnsupportedItineraryVariant => "itinerary variant is not supported",
        }
    }
}

} // verus!
