//! REST boundary types.
//!
//! Plain value types carried over the service's REST boundary, and the
//! verified conversion from a storage flight-plan record to the REST
//! flight-plan shape: each required record field is checked in a fixed
//! order and a missing one aborts the conversion with the matching error.

use vstd::prelude::*;

verus! {

/// A request to confirm or reject a flight plan.
#[derive(Clone, Debug, PartialEq)]
pub struct AckRequest {
    /// Flight plan ID to confirm or reject.
    pub fp_id: String,
    /// Acknowledgement status.
    pub status: AckStatus,
}

/// Acknowledgement status of a flight plan.
#[derive(Clone, Copy, Debug, PartialEq, Eq, Structural)]
pub enum AckStatus {
    /// The plan is rejected.
    Deny,
    /// The plan is confirmed.
    Confirm,
}

/// How the aircraft rotates toward a new pose while navigating.
#[derive(Clone, Copy, Debug, PartialEq, Eq, Structural)]
pub enum MovementType {
    /// Rotate to the new pose, then commence navigation.
    StartRotation,
    /// Keep the current pose, rotate at the end.
    EndRotation,
    /// Transition from the current pose to the end pose gradually.
    Smooth,
}

/// Information about cargo being carried.
#[derive(Clone, Debug, PartialEq)]
pub struct Cargo {
    /// Cargo UUID.
    pub id: String,
}

/// One phase of a flight.
#[derive(Clone, Copy, Debug, PartialEq)]
pub enum Phase {
    /// Take off at a pose.
    Takeoff(crate::itinerary::Pose),
    /// Navigate to a pose with a rotation style.
    NavigateTo((crate::itinerary::Pose, MovementType)),
    /// Land precisely at a pose.
    PrecisionLand(crate::itinerary::Pose),
    /// Capture a box: a precision landing without touching down.
    BoxCapture(crate::itinerary::Pose),
    /// Release a box: a precision landing without touching down.
    BoxRelease(crate::itinerary::Pose),
    /// Start or stop camera capture.
    CameraCapture(bool),
    /// Pause for a number of seconds; differs from a hold, which freezes
    /// the current phase.
    PauseSeconds(u16),
}

/// A path point: latitude, longitude and altitude following the WGS-84
/// standard, each a decimal scaled by [`crate::mission_item::DEC_SCALE`].
#[derive(Clone, Copy, Debug, PartialEq, Eq, Structural)]
pub struct PointZ {
    /// Latitude in degrees, scaled.
    pub latitude: i64,
    /// Longitude in degrees, scaled.
    pub longitude: i64,
    /// Altitude in meters, scaled.
    pub altitude_meters: i64,
}

/// A point of a stored flight path: east, north and up coordinates as the
/// record store keeps them, each scaled by
/// [`crate::mission_item::DEC_SCALE`].
#[derive(Clone, Copy, Debug, PartialEq, Eq, Structural)]
pub struct GeoPointZ {
    /// Longitude in degrees, scaled.
    pub x: i64,
    /// Latitude in degrees, scaled.
    pub y: i64,
    /// Altitude in meters, scaled.
    pub z: i64,
}

/// A moment in time as the record store keeps it.
#[derive(Clone, Copy, Debug, PartialEq, Eq, Structural)]
pub struct Timestamp {
    /// Seconds since the epoch.
    pub seconds: i64,
    /// Nanoseconds within the second.
    pub nanos: i32,
}

/// The payload of a stored flight-plan record; every optional field may
/// be missing in the store.
#[derive(Clone, Debug, PartialEq)]
pub struct FlightPlanData {
    /// Session ID.
    pub session_id: String,
    /// Vehicle ID.
    pub vehicle_id: String,
    /// Origin vertiport ID.
    pub origin_vertiport_id: Option<String>,
    /// Target vertiport ID.
    pub target_vertiport_id: Option<String>,
    /// Origin vertipad ID.
    pub origin_vertipad_id: String,
    /// Target vertipad ID.
    pub target_vertipad_id: String,
    /// Start of the origin timeslot.
    pub origin_timeslot_start: Option<Timestamp>,
    /// End of the origin timeslot.
    pub origin_timeslot_end: Option<Timestamp>,
    /// Start of the target timeslot.
    pub target_timeslot_start: Option<Timestamp>,
    /// End of the target timeslot.
    pub target_timeslot_end: Option<Timestamp>,
    /// The flight path.
    pub path: Option<Vec<GeoPointZ>>,
}

/// A stored flight-plan record: its ID and, when present, its payload.
#[derive(Clone, Debug, PartialEq)]
pub struct FlightPlanObject {
    /// Record ID.
    pub id: String,
    /// Record payload.
    pub data: Option<FlightPlanData>,
}

/// A parcel attached to a flight plan in the record store.
#[derive(Clone, Debug, PartialEq)]
pub struct ParcelRecord {
    /// Parcel UUID.
    pub parcel_id: String,
    /// Whether the flight acquires this parcel.
    pub acquire: bool,
    /// Whether the flight delivers this parcel.
    pub deliver: bool,
}

/// Flight plan information over the REST boundary.
#[derive(Clone, Debug, PartialEq)]
pub struct FlightPlan {
    /// Flight ID.
    pub flight_uuid: String,
    /// Session ID.
    pub session_id: String,
    /// Vehicle ID.
    pub aircraft_id: String,
    /// Origin vertiport ID.
    pub origin_vertiport_id: String,
    /// Target vertiport ID.
    pub target_vertiport_id: String,
    /// Origin vertipad ID.
    pub origin_vertipad_id: String,
    /// Target vertipad ID.
    pub target_vertipad_id: String,
    /// Start of the origin timeslot.
    pub origin_timeslot_start: Timestamp,
    /// End of the origin timeslot.
    pub origin_timeslot_end: Timestamp,
    /// Start of the target timeslot.
    pub target_timeslot_start: Timestamp,
    /// End of the target timeslot.
    pub target_timeslot_end: Timestamp,
    /// The flight path.
    pub path: Vec<PointZ>,
    /// Cargo to acquire.
    pub acquire: Vec<Cargo>,
    /// Cargo to deliver.
    pub deliver: Vec<Cargo>,
}

/// Why a stored flight-plan record could not be converted to a REST
/// flight plan.
#[derive(Clone, Copy, Debug, PartialEq, Eq, Structural)]
pub enum FlightPlanError {
    /// The record's payload was missing.
    Data,
    /// The origin vertiport ID was missing.
    OriginVertiportId,
    /// The target vertiport ID was missing.
    TargetVertiportId,
    /// The origin timeslot start was missing.
    OriginTimeslotStart,
    /// The origin timeslot end was missing.
    OriginTimeslotEnd,
    /// The target timeslot start was missing.
    TargetTimeslotStart,
    /// The target timeslot end was missing.
    TargetTimeslotEnd,
    /// The flight path was missing.
    Path,
}

impl FlightPlanError {
    /// A short human-readable description of the error.
    pub fn message(&self) -> (r: &'static str)
        ensures
            *self == FlightPlanError::Data ==> r@ == "could not get data from object."@,
            *self == FlightPlanError::OriginVertiportId ==> r@
                == "could not get origin_vertiport_id from data."@,
            *self == FlightPlanError::TargetVertiportId ==> r@
                == "could not get target_vertiport_id from data."@,
            *self == FlightPlanError::OriginTimeslotStart ==> r@
                == "could not get origin_timeslot_start from data."@,
            *self == FlightPlanError::OriginTimeslotEnd ==> r@
                == "could not get origin_timeslot_end from data."@,
            *self == FlightPlanError::TargetTimeslotStart ==> r@
                == "could not get target_timeslot_start from data."@,
            *self == FlightPlanError::TargetTimeslotEnd ==> r@
                == "could not get target_timeslot_end from data."@,
            *self == FlightPlanError::Path ==> r@ == "could not get path from data."@,
    {
        match self {
            FlightPlanError::Data => "could not get data from object.",
            FlightPlanError::OriginVertiportId => "could not get origin_vertiport_id from data.",
            FlightPlanError::TargetVertiportId => "could not get target_vertiport_id from data.",
            FlightPlanError::OriginTimeslotStart => {
                "could not get origin_timeslot_start from data."
            },
            FlightPlanError::OriginTimeslotEnd => "could not get origin_timeslot_end from data.",
            FlightPlanError::TargetTimeslotStart => {
                "could not get target_timeslot_start from data."
            },
            FlightPlanError::TargetTimeslotEnd => "could not get target_timeslot_end from data.",
            FlightPlanError::Path => "could not get path from data.",
        }
    }
}

/// The error type for the excluded acknowledgment workflow.
#[derive(Clone, Copy, Debug, PartialEq, Eq, Structural)]
pub enum AckError {
    /// Internal error.
    Internal,
    /// Dependencies not available.
    Unavailable,
    /// Flight plan not found.
    NotFound,
}

impl AckError {
    /// A short human-readable description of the error.
    pub fn message(&self) -> (r: &'static str)
        ensures
            *self == AckError::Internal ==> r@ == "Internal Error"@,
            *self == AckError::Unavailable ==> r@ == "Dependencies not available"@,
            *self == AckError::NotFound ==> r@ == "Flight Plan Not Found"@,
    {
        match self {
            AckError::Internal => "Internal Error",
            AckError::Unavailable => "Dependencies not available",
            AckError::NotFound => "Flight Plan Not Found",
        }
    }
}

/// Which record field, if any, is the first missing one, in the fixed
/// checking order.
pub open spec fn spec_first_missing(object: FlightPlanObject) -> Option<FlightPlanError> {
    match object.data {
        None => Some(FlightPlanError::Data),
        Some(d) => {
            if d.origin_vertiport_id is None {
                Some(FlightPlanError::OriginVertiportId)
            } else if d.target_vertiport_id is None {
                Some(FlightPlanError::TargetVertiportId)
            } else if d.origin_timeslot_start is None {
                Some(FlightPlanError::OriginTimeslotStart)
            } else if d.origin_timeslot_end is None {
                Some(FlightPlanError::OriginTimeslotEnd)
            } else if d.target_timeslot_start is None {
                Some(FlightPlanError::TargetTimeslotStart)
            } else if d.target_timeslot_end is None {
                Some(FlightPlanError::TargetTimeslotEnd)
            } else if d.path is None {
                Some(FlightPlanError::Path)
            } else {
                None
            }
        },
    }
}

impl FlightPlan {
    /// Convert a stored flight-plan record. Each required field is
    /// checked in a fixed order; the first missing one decides the error.
    /// On success every field is carried over, each stored path point
    /// becomes a [`PointZ`] with its north coordinate as latitude and its
    /// east coordinate as longitude, and the cargo lists start empty.
    pub fn try_from(object: FlightPlanObject) -> (r: Result<FlightPlan, FlightPlanError>)
        ensures
            r is Ok <==> spec_first_missing(object) is None,
            r matches Err(e) ==> spec_first_missing(object) == Some(e),
            r matches Ok(fp) ==> {
                let d = object.data->0;
                &&& fp.flight_uuid@ == object.id@
                &&& fp.session_id@ == d.session_id@
                &&& fp.aircraft_id@ == d.vehicle_id@
                &&& fp.origin_vertiport_id@ == d.origin_vertiport_id->0@
                &&& fp.target_vertiport_id@ == d.target_vertiport_id->0@
                &&& fp.origin_vertipad_id@ == d.origin_vertipad_id@
                &&& fp.target_vertipad_id@ == d.target_vertipad_id@
                &&& fp.origin_timeslot_start == d.origin_timeslot_start->0
                &&& fp.origin_timeslot_end == d.origin_timeslot_end->0
                &&& fp.target_timeslot_start == d.target_timeslot_start->0
                &&& fp.target_timeslot_end == d.target_timeslot_end->0
                &&& fp.path@.len() == d.path->0@.len()
                &&& forall|i: int|
                    0 <= i < fp.path@.len() ==> #[trigger] fp.path@[i] == (PointZ {
                        latitude: d.path->0@[i].y,
                        longitude: d.path->0@[i].x,
                        altitude_meters: d.path->0@[i].z,
                    })
                &&& fp.acquire@.len() == 0
                &&& fp.deliver@.len() == 0
            },
    {
        let flight_uuid = object.id;
        let data = match object.data {
            Some(data) => data,
            None => {
                return Err(FlightPlanError::Data);
            },
        };
        let origin_vertiport_id = match data.origin_vertiport_id {
            Some(id) => id,
            None => {
                return Err(FlightPlanError::OriginVertiportId);
            },
        };
        let target_vertiport_id = match data.target_vertiport_id {
            Some(id) => id,
            None => {
                return Err(FlightPlanError::TargetVertiportId);
            },
        };
        let origin_timeslot_start = match data.origin_timeslot_start {
            Some(t) => t,
            None => {
                return Err(FlightPlanError::OriginTimeslotStart);
            },
        };
        let origin_timeslot_end = match data.origin_timeslot_end {
            Some(t) => t,
            None => {
                return Err(FlightPlanError::OriginTimeslotEnd);
            },
        };
        let target_timeslot_start = match data.target_timeslot_start {
            Some(t) => t,
            None => {
                return Err(FlightPlanError::TargetTimeslotStart);
            },
        };
        let target_timeslot_end = match data.target_timeslot_end {
            Some(t) => t,
            None => {
                return Err(FlightPlanError::TargetTimeslotEnd);
            },
        };
        let stored_path = match data.path {
            Some(p) => p,
            None => {
                return Err(FlightPlanError::Path);
            },
        };
        let mut path: Vec<PointZ> = Vec::new();
        for i in 0..stored_path.len()
            invariant
                path@.len() == i,
                forall|t: int|
                    0 <= t < i ==> #[trigger] path@[t] == (PointZ {
                        latitude: stored_path@[t].y,
                        longitude: stored_path@[t].x,
                        altitude_meters: stored_path@[t].z,
                    }),
        {
            let p = stored_path[i];
            path.push(PointZ { latitude: p.y, longitude: p.x, altitude_meters: p.z });
        }
        Ok(
            FlightPlan {
                flight_uuid,
                session_id: data.session_id,
                aircraft_id: data.vehicle_id,
                origin_vertiport_id,
                target_vertiport_id,
                origin_vertipad_id: data.origin_vertipad_id,
                target_vertipad_id: data.target_vertipad_id,
                origin_timeslot_start,
                origin_timeslot_end,
                target_timeslot_start,
                target_timeslot_end,
                path,
                acquire: Vec::new(),
                deliver: Vec::new(),
            },
        )
    }
}

/// The views of a cargo list's IDs, element by element.
pub open spec fn cargo_ids(cargo: Seq<Cargo>) -> Seq<Seq<char>> {
    Seq::new(cargo.len(), |i: int| cargo[i].id@)
}

/// The IDs of the parcels a flight acquires, in order.
pub open spec fn spec_acquired_ids(parcels: Seq<ParcelRecord>) -> Seq<Seq<char>>
    decreases parcels.len(),
{
    if parcels.len() == 0 {
        Seq::empty()
    } else {
        spec_acquired_ids(parcels.drop_last()) + (if parcels.last().acquire {
            seq![parcels.last().parcel_id@]
        } else {
            Seq::empty()
        })
    }
}

/// The IDs of the parcels a flight delivers, in order.
pub open spec fn spec_delivered_ids(parcels: Seq<ParcelRecord>) -> Seq<Seq<char>>
    decreases parcels.len(),
{
    if parcels.len() == 0 {
        Seq::empty()
    } else {
        spec_delivered_ids(parcels.drop_last()) + (if parcels.last().deliver {
            seq![parcels.last().parcel_id@]
        } else {
            Seq::empty()
        })
    }
}

/// Attach the parcels of a flight plan: every parcel marked for
/// acquisition joins the acquire list, every one marked for delivery
/// joins the deliver list, in record order; nothing else changes.
pub fn attach_parcels(plan: &mut FlightPlan, parcels: &Vec<ParcelRecord>)
    ensures
        cargo_ids(final(plan).acquire@) == cargo_ids(old(plan).acquire@) + spec_acquired_ids(
            parcels@,
        ),
        cargo_ids(final(plan).deliver@) == cargo_ids(old(plan).deliver@) + spec_delivered_ids(
            parcels@,
        ),
        final(plan).flight_uuid == old(plan).flight_uuid,
        final(plan).session_id == old(plan).session_id,
        final(plan).aircraft_id == old(plan).aircraft_id,
        final(plan).origin_vertiport_id == old(plan).origin_vertiport_id,
        final(plan).target_vertiport_id == old(plan).target_vertiport_id,
        final(plan).origin_vertipad_id == old(plan).origin_vertipad_id,
        final(plan).target_vertipad_id == old(plan).target_vertipad_id,
        final(plan).origin_timeslot_start == old(plan).origin_timeslot_start,
        final(plan).origin_timeslot_end == old(plan).origin_timeslot_end,
        final(plan).target_timeslot_start == old(plan).target_timeslot_start,
        final(plan).target_timeslot_end == old(plan).target_timeslot_end,
        final(plan).path == old(plan).path,
{
    let ghost acquire_base = cargo_ids(old(plan).acquire@);
    let ghost deliver_base = cargo_ids(old(plan).deliver@);
    for i in 0..parcels.len()
        invariant
            cargo_ids(plan.acquire@) == acquire_base + spec_acquired_ids(parcels@.take(i as int)),
            cargo_ids(plan.deliver@) == deliver_base + spec_delivered_ids(
                parcels@.take(i as int),
            ),
            plan.flight_uuid == old(plan).flight_uuid,
            plan.session_id == old(plan).session_id,
            plan.aircraft_id == old(plan).aircraft_id,
            plan.origin_vertiport_id == old(plan).origin_vertiport_id,
            plan.target_vertiport_id == old(plan).target_vertiport_id,
            plan.origin_vertipad_id == old(plan).origin_vertipad_id,
            plan.target_vertipad_id == old(plan).target_vertipad_id,
            plan.origin_timeslot_start == old(plan).origin_timeslot_start,
            plan.origin_timeslot_end == old(plan).origin_timeslot_end,
            plan.target_timeslot_start == old(plan).target_timeslot_start,
            plan.target_timeslot_end == old(plan).target_timeslot_end,
            plan.path == old(plan).path,
    {
        proof {
            assert(parcels@.take(i + 1).drop_last() =~= parcels@.take(i as int));
            assert(parcels@.take(i + 1).last() == parcels@[i as int]);
        }
        let parcel = &parcels[i];
        if parcel.acquire {
            let ghost before = cargo_ids(plan.acquire@);
            plan.acquire.push(Cargo { id: parcel.parcel_id.clone() });
            proof {
                assert(cargo_ids(plan.acquire@) =~= before.push(parcels@[i as int].parcel_id@));
            }
        }
        if parcel.deliver {
            let ghost before = cargo_ids(plan.deliver@);
            plan.deliver.push(Cargo { id: parcel.parcel_id.clone() });
            proof {
                assert(cargo_ids(plan.deliver@) =~= before.push(parcels@[i as int].parcel_id@));
            }
        }
        proof {
            assert(cargo_ids(plan.acquire@) =~= acquire_base + spec_acquired_ids(
                parcels@.take(i + 1),
            ));
            assert(cargo_ids(plan.deliver@) =~= deliver_base + spec_delivered_ids(
                parcels@.take(i + 1),
            ));
        }
    }
    proof {
        assert(parcels@.take(parcels@.len() as int) =~= parcels@);
    }
}

} // verus!
