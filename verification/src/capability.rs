//! Vehicle capability classification.
//!
//! An airframe either flies as a pure multirotor for the whole mission, or
//! it can transition between multirotor (hover) and fixed-wing (cruise)
//! flight. The classification is derived once per compile from the numeric
//! vehicle-type code of the MAVLink `MAV_TYPE` enumeration and feeds
//! straight-line sequencing logic: transition-capable airframes get
//! mode-transition commands inserted around their cruise segments.

use vstd::prelude::*;

verus! {

/// Vehicle-type code of a flapping-wing airframe (`MAV_TYPE_FLAPPING_WING`).
pub const VEHICLE_TYPE_FLAPPING_WING: u8 = 16;

/// First vehicle-type code of the contiguous VTOL airframe range
/// (`MAV_TYPE_VTOL_TAILSITTER_DUOROTOR`).
pub const VEHICLE_TYPE_VTOL_FIRST: u8 = 19;

/// Last vehicle-type code of the contiguous VTOL airframe range
/// (`MAV_TYPE_VTOL_TILTWING`).
pub const VEHICLE_TYPE_VTOL_LAST: u8 = 24;

/// A vehicle needs cruise transitions exactly when its type code lies in the
/// contiguous VTOL tail-sitter-through-tilt-wing range or is the
/// flapping-wing code. Unknown codes classify as "no transition needed".
pub open spec fn spec_requires_cruise_transition(vehicle_type_code: u8) -> bool {
    (VEHICLE_TYPE_VTOL_FIRST <= vehicle_type_code <= VEHICLE_TYPE_VTOL_LAST)
        || vehicle_type_code == VEHICLE_TYPE_FLAPPING_WING
}

/// Classify a vehicle-type code: does this airframe need mode-transition
/// commands between vertical (multirotor) and horizontal (fixed-wing)
/// flight? Total over all codes; an unknown code needs no transition.
pub fn requires_cruise_transition(vehicle_type_code: u8) -> (r: bool)
    ensures
        r == spec_requires_cruise_transition(vehicle_type_code),
{
    (VEHICLE_TYPE_VTOL_FIRST <= vehicle_type_code && vehicle_type_code <= VEHICLE_TYPE_VTOL_LAST)
        || vehicle_type_code == VEHICLE_TYPE_FLAPPING_WING
}

} // verus!
