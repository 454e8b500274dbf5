//! Plan assembler.
//!
//! Wraps a compiled mission item list together with geofence, rally-point
//! and mission metadata into the final versioned mission-plan document.
//! The document, its mission block, its geofence block and its rally-point
//! block are each versioned independently so consumers can detect schema
//! drift per sub-block. The geofence and rally-point blocks are reserved
//! extension points and always empty in generated documents.

use vstd::prelude::*;
use crate::compile::{
    compile_hop_items, compile_swoop_items, spec_hop_compiled, spec_swoop_compiled,
};
use crate::itinerary::{ContinuousData, HopData, PlanError};
use crate::mission_item::{models, ItemModel, MissionItem};

verus! {

/// Version of the top-level mission-plan document schema.
pub const PLAN_VERSION: u8 = 1;

/// Version of the geofence sub-block schema.
pub const GEOFENCE_VERSION: u8 = 2;

/// Version of the rally-points sub-block schema.
pub const RALLYPOINTS_VERSION: u8 = 2;

/// Version of the mission sub-block schema.
pub const MISSION_VERSION: u8 = 2;

/// A latitude/longitude pair, each a decimal in degrees scaled by
/// [`crate::mission_item::DEC_SCALE`].
#[derive(Clone, Copy, Debug, PartialEq, Eq, Structural)]
pub struct LatLon {
    /// Latitude in degrees, scaled.
    pub latitude: i64,
    /// Longitude in degrees, scaled.
    pub longitude: i64,
}

/// A latitude/longitude/altitude triple: degrees and meters, each scaled
/// by [`crate::mission_item::DEC_SCALE`].
#[derive(Clone, Copy, Debug, PartialEq, Eq, Structural)]
pub struct LatLonAlt {
    /// Latitude in degrees, scaled.
    pub latitude: i64,
    /// Longitude in degrees, scaled.
    pub longitude: i64,
    /// Altitude in meters, scaled.
    pub altitude: i64,
}

/// A circle on the ground: center and radius in meters, scaled.
#[derive(Clone, Copy, Debug, PartialEq, Eq, Structural)]
pub struct Circle {
    /// Center of the circle.
    pub center: LatLon,
    /// Radius in meters, scaled.
    pub radius: i64,
}

/// A circular geofence region.
#[derive(Clone, Copy, Debug, PartialEq, Eq, Structural)]
pub struct GeoFenceCircle {
    /// The region's circle.
    pub circle: Circle,
    /// Whether the region is an inclusion (else an exclusion) zone.
    pub inclusion: bool,
    /// Version of this entry's schema.
    pub version: u8,
}

/// A polygonal geofence region.
#[derive(Clone, Debug, PartialEq)]
pub struct GeoFencePolygon {
    /// The polygon's vertices, in order.
    pub polygon: Vec<LatLon>,
    /// Whether the region is an inclusion (else an exclusion) zone.
    pub inclusion: bool,
    /// Version of this entry's schema.
    pub version: u8,
}

/// Mathematical model of a [`GeoFencePolygon`].
pub struct GeoFencePolygonModel {
    /// The polygon's vertices, in order.
    pub polygon: Seq<LatLon>,
    /// Whether the region is an inclusion (else an exclusion) zone.
    pub inclusion: bool,
    /// Version of this entry's schema.
    pub version: u8,
}

impl View for GeoFencePolygon {
    type V = GeoFencePolygonModel;

    open spec fn view(&self) -> GeoFencePolygonModel {
        GeoFencePolygonModel {
            polygon: self.polygon@,
            inclusion: self.inclusion,
            version: self.version,
        }
    }
}

/// The geofence block of a plan document: a reserved extension point,
/// always empty in generated documents.
#[derive(Clone, Debug, PartialEq)]
pub struct GeoFence {
    /// Circular regions.
    pub circles: Vec<GeoFenceCircle>,
    /// Polygonal regions.
    pub polygons: Vec<GeoFencePolygon>,
    /// Version of the geofence block schema.
    pub version: u8,
}

/// Mathematical model of a [`GeoFence`].
pub struct GeoFenceModel {
    /// Circular regions.
    pub circles: Seq<GeoFenceCircle>,
    /// Polygonal regions.
    pub polygons: Seq<GeoFencePolygonModel>,
    /// Version of the geofence block schema.
    pub version: u8,
}

impl View for GeoFence {
    type V = GeoFenceModel;

    open spec fn view(&self) -> GeoFenceModel {
        GeoFenceModel {
            circles: self.circles@,
            polygons: Seq::new(self.polygons@.len(), |i: int| self.polygons@[i]@),
            version: self.version,
        }
    }
}

/// An empty geofence block at the current schema version.
pub open spec fn spec_default_geofence() -> GeoFenceModel {
    GeoFenceModel {
        circles: Seq::empty(),
        polygons: Seq::empty(),
        version: GEOFENCE_VERSION,
    }
}

impl Default for GeoFence {
    /// The empty geofence block at the current schema version.
    fn default() -> (r: GeoFence)
        ensures
            r@ == spec_default_geofence(),
    {
        let r = GeoFence { circles: Vec::new(), polygons: Vec::new(), version: GEOFENCE_VERSION };
        proof {
            assert(r@.polygons =~= spec_default_geofence().polygons);
        }
        r
    }
}

/// The rally-points block of a plan document: a reserved extension point,
/// always empty in generated documents.
#[derive(Clone, Debug, PartialEq)]
pub struct RallyPoints {
    /// Emergency-return points.
    pub points: Vec<LatLonAlt>,
    /// Version of the rally-points block schema.
    pub version: u8,
}

/// Mathematical model of a [`RallyPoints`].
pub struct RallyPointsModel {
    /// Emergency-return points.
    pub points: Seq<LatLonAlt>,
    /// Version of the rally-points block schema.
    pub version: u8,
}

impl View for RallyPoints {
    type V = RallyPointsModel;

    open spec fn view(&self) -> RallyPointsModel {
        RallyPointsModel { points: self.points@, version: self.version }
    }
}

/// An empty rally-points block at the current schema version.
pub open spec fn spec_default_rally_points() -> RallyPointsModel {
    RallyPointsModel { points: Seq::empty(), version: RALLYPOINTS_VERSION }
}

impl Default for RallyPoints {
    /// The empty rally-points block at the current schema version.
    fn default() -> (r: RallyPoints)
        ensures
            r@ == spec_default_rally_points(),
    {
        let r = RallyPoints { points: Vec::new(), version: RALLYPOINTS_VERSION };
        proof {
            assert(r@.points =~= spec_default_rally_points().points);
        }
        r
    }
}

/// The mission block of a plan document: the compiled items plus the
/// itinerary metadata the ground station needs.
#[derive(Clone, Debug, PartialEq)]
pub struct Mission {
    /// Cruise speed in the ground station's native unit.
    pub cruise_speed: u32,
    /// MAVLink autopilot type code of the airframe's firmware.
    pub firmware_type: u8,
    /// Altitude mode applied to the whole plan.
    pub global_plan_altitude_mode: u8,
    /// Hover speed in the ground station's native unit.
    pub hover_speed: u32,
    /// The compiled mission items, in execution order.
    pub items: Vec<MissionItem>,
    /// The planned home position.
    pub planned_home_position: LatLonAlt,
    /// MAVLink vehicle type code of the airframe.
    pub vehicle_type: u8,
    /// Version of the mission block schema.
    pub version: u8,
}

/// Mathematical model of a [`Mission`].
pub struct MissionModel {
    /// Cruise speed in the ground station's native unit.
    pub cruise_speed: u32,
    /// MAVLink autopilot type code of the airframe's firmware.
    pub firmware_type: u8,
    /// Altitude mode applied to the whole plan.
    pub global_plan_altitude_mode: u8,
    /// Hover speed in the ground station's native unit.
    pub hover_speed: u32,
    /// The compiled mission items, in execution order.
    pub items: Seq<ItemModel>,
    /// The planned home position.
    pub planned_home_position: LatLonAlt,
    /// MAVLink vehicle type code of the airframe.
    pub vehicle_type: u8,
    /// Version of the mission block schema.
    pub version: u8,
}

impl View for Mission {
    type V = MissionModel;

    open spec fn view(&self) -> MissionModel {
        MissionModel {
            cruise_speed: self.cruise_speed,
            firmware_type: self.firmware_type,
            global_plan_altitude_mode: self.global_plan_altitude_mode,
            hover_speed: self.hover_speed,
            items: models(self.items@),
            planned_home_position: self.planned_home_position,
            vehicle_type: self.vehicle_type,
            version: self.version,
        }
    }
}

/// The top-level mission-plan document.
#[derive(Clone, Debug, PartialEq)]
pub struct Plan {
    /// Constant document kind marker, as its exact wire characters.
    pub file_type: Vec<char>,
    /// Geofence block.
    pub geo_fence: GeoFence,
    /// Name of the ground-station software family the document targets,
    /// as its exact wire characters.
    pub ground_station: Vec<char>,
    /// Mission block.
    pub mission: Mission,
    /// Rally-points block.
    pub rally_points: RallyPoints,
    /// Version of the top-level document schema.
    pub version: u8,
}

/// Mathematical model of a [`Plan`].
pub struct PlanModel {
    /// Constant document kind marker.
    pub file_type: Seq<char>,
    /// Geofence block.
    pub geo_fence: GeoFenceModel,
    /// Name of the ground-station software family the document targets.
    pub ground_station: Seq<char>,
    /// Mission block.
    pub mission: MissionModel,
    /// Rally-points block.
    pub rally_points: RallyPointsModel,
    /// Version of the top-level document schema.
    pub version: u8,
}

impl View for Plan {
    type V = PlanModel;

    open spec fn view(&self) -> PlanModel {
        PlanModel {
            file_type: self.file_type@,
            geo_fence: self.geo_fence@,
            ground_station: self.ground_station@,
            mission: self.mission@,
            rally_points: self.rally_points@,
            version: self.version,
        }
    }
}

/// The document a compile wraps around an item sequence: constant kind
/// marker, ground-station name and versions, empty geofence and
/// rally-point blocks, and a mission block whose home position is the
/// takeoff location.
pub open spec fn spec_assembled_plan(
    items: Seq<ItemModel>,
    cruise_speed: u32,
    hover_speed: u32,
    autopilot_type: u8,
    vehicle_type: u8,
    home: LatLonAlt,
) -> PlanModel {
    PlanModel {
        file_type: "Plan"@,
        geo_fence: spec_default_geofence(),
        ground_station: "AethericRealm"@,
        mission: MissionModel {
            cruise_speed,
            firmware_type: autopilot_type,
            global_plan_altitude_mode: 1,
            hover_speed,
            items,
            planned_home_position: home,
            vehicle_type,
            version: MISSION_VERSION,
        },
        rally_points: spec_default_rally_points(),
        version: PLAN_VERSION,
    }
}

/// The full document of a successfully compiled hop itinerary.
pub open spec fn spec_hop_plan(data: HopData) -> PlanModel {
    spec_assembled_plan(
        spec_hop_compiled(data),
        data.cruise_speed,
        data.hover_speed,
        data.autopilot_type,
        data.vehicle_type,
        LatLonAlt {
            latitude: data.takeoff_location.latitude,
            longitude: data.takeoff_location.longitude,
            altitude: data.takeoff_location.altitude_meters,
        },
    )
}

/// The full document of a successfully compiled continuous itinerary.
pub open spec fn spec_swoop_plan(data: ContinuousData) -> PlanModel {
    spec_assembled_plan(
        spec_swoop_compiled(data),
        data.cruise_speed,
        data.hover_speed,
        data.autopilot_type,
        data.vehicle_type,
        LatLonAlt {
            latitude: data.takeoff_location.latitude,
            longitude: data.takeoff_location.longitude,
            altitude: data.takeoff_location.altitude_meters,
        },
    )
}

/// The characters of a literal, as an owned vector.
fn str_chars(s: &str) -> (r: Vec<char>)
    ensures
        r@ == s@,
{
    let mut out: Vec<char> = Vec::new();
    let n = s.unicode_len();
    for i in 0..n
        invariant
            n == s@.len(),
            out@ == s@.take(i as int),
    {
        out.push(s.get_char(i));
        proof {
            assert(out@ =~= s@.take(i + 1));
        }
    }
    proof {
        assert(s@.take(n as int) =~= s@);
    }
    out
}

/// Wrap a compiled item list into the final document.
fn assemble(
    items: Vec<MissionItem>,
    cruise_speed: u32,
    hover_speed: u32,
    autopilot_type: u8,
    vehicle_type: u8,
    home: LatLonAlt,
) -> (r: Plan)
    ensures
        r@ == spec_assembled_plan(
            models(items@),
            cruise_speed,
            hover_speed,
            autopilot_type,
            vehicle_type,
            home,
        ),
{
    Plan {
        file_type: str_chars("Plan"),
        geo_fence: GeoFence::default(),
        ground_station: str_chars("AethericRealm"),
        mission: Mission {
            cruise_speed,
            firmware_type: autopilot_type,
            global_plan_altitude_mode: 1,
            hover_speed,
            items,
            planned_home_position: home,
            vehicle_type,
            version: MISSION_VERSION,
        },
        rally_points: RallyPoints::default(),
        version: PLAN_VERSION,
    }
}

impl Plan {
    /// Compile a hop itinerary: a single flight from takeoff to landing
    /// with no airborne cargo exchange. In between hops a parcel may be
    /// loaded or unloaded while the aircraft is disarmed.
    ///
    /// Fails with [`PlanError::EmptyWaypointLeg`], and only with it,
    /// exactly when the waypoint list is empty; no document is produced
    /// then. The length bound keeps every sequence index within `u16`.
    pub fn try_hop(data: HopData) -> (r: Result<Plan, PlanError>)
        requires
            data.waypoints@.len() + 11 <= u16::MAX,
        ensures
            r is Ok <==> data.waypoints@.len() > 0,
            r matches Err(e) ==> e == PlanError::EmptyWaypointLeg,
            r matches Ok(plan) ==> plan@ == spec_hop_plan(data),
    {
        let items = match compile_hop_items(&data) {
            Ok(items) => items,
            Err(e) => {
                return Err(e);
            },
        };
        let home = LatLonAlt {
            latitude: data.takeoff_location.latitude,
            longitude: data.takeoff_location.longitude,
            altitude: data.takeoff_location.altitude_meters,
        };
        Ok(
            assemble(
                items,
                data.cruise_speed,
                data.hover_speed,
                data.autopilot_type,
                data.vehicle_type,
                home,
            ),
        )
    }

    /// Compile a continuous ("swoop") itinerary: one flight with an
    /// airborne pickup and dropoff of a parcel, never landing between
    /// legs.
    ///
    /// Fails with [`PlanError::EmptyWaypointLeg`], and only with it,
    /// exactly when one of the three waypoint legs is empty; no document
    /// is produced then. The length bound keeps every sequence index
    /// within `u16`.
    pub fn try_swoop(data: ContinuousData) -> (r: Result<Plan, PlanError>)
        requires
            data.waypoints_deadhead_a@.len() + data.waypoints_main@.len()
                + data.waypoints_deadhead_b@.len() + 24 <= u16::MAX,
        ensures
            r is Ok <==> data.waypoints_deadhead_a@.len() > 0 && data.waypoints_main@.len() > 0
                && data.waypoints_deadhead_b@.len() > 0,
            r matches Err(e) ==> e == PlanError::EmptyWaypointLeg,
            r matches Ok(plan) ==> plan@ == spec_swoop_plan(data),
    {
        let items = match compile_swoop_items(&data) {
            Ok(items) => items,
            Err(e) => {
                return Err(e);
            },
        };
        let home = LatLonAlt {
            latitude: data.takeoff_location.latitude,
            longitude: data.takeoff_location.longitude,
            altitude: data.takeoff_location.altitude_meters,
        };
        Ok(
            assemble(
                items,
                data.cruise_speed,
                data.hover_speed,
                data.autopilot_type,
                data.vehicle_type,
                home,
            ),
        )
    }

    /// A winch itinerary reels cargo on a line instead of gripping it.
    /// Its sequencing depends on the winch release mechanism and is
    /// intentionally unimplemented: the compile fails immediately rather
    /// than emit an incomplete plan.
    pub fn try_winch(data: ContinuousData) -> (r: Result<Plan, PlanError>)
        ensures
            r == Err::<Plan, PlanError>(PlanError::UnsupportedItineraryVariant),
    {
        let _ = data;
        Err(PlanError::UnsupportedItineraryVariant)
    }
}

} // verus!
