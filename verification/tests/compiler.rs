//! Tests of the itinerary compiler: sequencing, indexing, capability
//! classification and failure behaviour.

use svc_atc::capability::requires_cruise_transition;
use svc_atc::itinerary::{ClockTime, ContinuousData, HopData, PlanError, Pose};
use svc_atc::mission_item::{
    MissionItem, ParamValue, CMD_DO_GRIPPER, CMD_DO_SET_HOME, CMD_DO_SET_MODE,
    CMD_DO_SET_ROI_LOCATION, CMD_DO_VTOL_TRANSITION, CMD_NAV_DELAY, CMD_NAV_LAND,
    CMD_NAV_PAYLOAD_PLACE, CMD_NAV_TAKEOFF, CMD_NAV_WAYPOINT, DEC_SCALE,
    GRIPPER_ACTION_GRAB, GRIPPER_ACTION_RELEASE, MODE_AUTO_ARMED, MODE_AUTO_DISARMED,
};
use svc_atc::plan::Plan;

fn pose(lat_deg_e7: i64, lon_deg_e7: i64, alt_m_e7: i64) -> Pose {
    Pose {
        latitude: lat_deg_e7,
        longitude: lon_deg_e7,
        altitude_meters: alt_m_e7,
        heading_degrees: 0,
    }
}

fn hop_input(waypoints: Vec<Pose>, vehicle_type: u8) -> HopData {
    HopData {
        takeoff_location: pose(470000000, 80000000, 5000000000),
        takeoff_time: ClockTime { hour: 9, minute: 30, second: 0 },
        landing_location: pose(471000000, 81000000, 4000000000),
        landing_time: ClockTime { hour: 10, minute: 15, second: 30 },
        waypoints,
        cruise_speed: 20,
        hover_speed: 5,
        autopilot_type: 12,
        vehicle_type,
        gimbal_camera_id: 1,
    }
}

fn swoop_input(vehicle_type: u8, gentle_dropoff: bool) -> ContinuousData {
    ContinuousData {
        takeoff_location: pose(470000000, 80000000, 5000000000),
        landing_location: pose(471000000, 81000000, 4000000000),
        pickup_location: pose(470500000, 80500000, 100000000),
        dropoff_location: pose(470800000, 80800000, 120000000),
        takeoff_time: ClockTime { hour: 8, minute: 0, second: 0 },
        landing_time: ClockTime { hour: 9, minute: 45, second: 0 },
        pickup_time: ClockTime { hour: 8, minute: 20, second: 0 },
        dropoff_time: ClockTime { hour: 9, minute: 10, second: 0 },
        waypoints_deadhead_a: vec![pose(1, 2, 3), pose(4, 5, 6)],
        waypoints_deadhead_b: vec![pose(7, 8, 9), pose(10, 11, 12), pose(13, 14, 15)],
        waypoints_main: vec![pose(16, 17, 18), pose(19, 20, 21)],
        cruise_speed: 25,
        hover_speed: 6,
        autopilot_type: 12,
        vehicle_type,
        gentle_dropoff,
        gimbal_camera_id: 2,
    }
}

#[test]
fn test_capability_classification() {
    // A pure multirotor (quadrotor) needs no transition.
    assert!(!requires_cruise_transition(2));
    // Every code of the VTOL tail-sitter-through-tilt-wing range needs one.
    for code in 19..=24u8 {
        assert!(requires_cruise_transition(code));
    }
    // The flapping-wing code needs one.
    assert!(requires_cruise_transition(16));
    // Boundary codes just outside the range classify as false.
    assert!(!requires_cruise_transition(18));
    assert!(!requires_cruise_transition(25));
    assert!(!requires_cruise_transition(15));
    assert!(!requires_cruise_transition(17));
    assert!(!requires_cruise_transition(0));
    assert!(!requires_cruise_transition(255));
}

#[test]
fn test_hop_sequence_indices_contiguous() {
    let data = hop_input(vec![pose(1, 2, 3), pose(4, 5, 6), pose(7, 8, 9)], 2);
    let plan = Plan::try_hop(data).unwrap();
    let items = &plan.mission.items;
    for (i, item) in items.iter().enumerate() {
        assert_eq!(item.sequence_index as usize, i + 1);
    }
}

#[test]
fn test_swoop_sequence_indices_contiguous() {
    let plan = Plan::try_swoop(swoop_input(20, false)).unwrap();
    let items = &plan.mission.items;
    for (i, item) in items.iter().enumerate() {
        assert_eq!(item.sequence_index as usize, i + 1);
    }
}

#[test]
fn test_hop_item_count_no_transition() {
    // W waypoints and no transition: W + 8 items.
    let data = hop_input(vec![pose(1, 2, 3), pose(4, 5, 6), pose(7, 8, 9)], 2);
    let plan = Plan::try_hop(data).unwrap();
    assert_eq!(plan.mission.items.len(), 3 + 8);
}

#[test]
fn test_hop_item_count_with_transition() {
    // A transition-capable vehicle adds three transition commands.
    let data = hop_input(vec![pose(1, 2, 3), pose(4, 5, 6)], 21);
    let plan = Plan::try_hop(data).unwrap();
    assert_eq!(plan.mission.items.len(), 2 + 8 + 3);
    let transitions = plan
        .mission
        .items
        .iter()
        .filter(|it| it.command == CMD_DO_VTOL_TRANSITION)
        .count();
    assert_eq!(transitions, 3);
}

#[test]
fn test_swoop_item_count() {
    // a + m + b waypoints, 15 fixed items, 2 dropoff items, no transition.
    let plan = Plan::try_swoop(swoop_input(2, false)).unwrap();
    assert_eq!(plan.mission.items.len(), 2 + 2 + 3 + 15 + 2);
    // With a gentle dropoff there is one dropoff item, and a
    // transition-capable vehicle adds seven transition commands.
    let plan = Plan::try_swoop(swoop_input(19, true)).unwrap();
    assert_eq!(plan.mission.items.len(), 2 + 2 + 3 + 15 + 1 + 7);
}

#[test]
fn test_swoop_gripper_order() {
    let plan = Plan::try_swoop(swoop_input(2, false)).unwrap();
    let items = &plan.mission.items;
    // Expected position of the release: 3 start items, takeoff, two
    // deadhead waypoints, camera, hold.
    let p = 3 + 1 + 2 + 2;
    assert_eq!(items[p].command, CMD_DO_GRIPPER);
    assert_eq!(
        items[p].params[1],
        ParamValue::Num(GRIPPER_ACTION_RELEASE as i64 * DEC_SCALE)
    );
    assert_eq!(items[p + 1].command, CMD_NAV_WAYPOINT);
    assert_eq!(items[p + 2].command, CMD_DO_GRIPPER);
    assert_eq!(
        items[p + 2].params[1],
        ParamValue::Num(GRIPPER_ACTION_GRAB as i64 * DEC_SCALE)
    );
    // Never a grab before the aircraft reaches the pickup waypoint.
    for item in items.iter().take(p + 2) {
        let grab = item.command == CMD_DO_GRIPPER
            && item.params[1] == ParamValue::Num(GRIPPER_ACTION_GRAB as i64 * DEC_SCALE);
        assert!(!grab);
    }
}

#[test]
fn test_hop_empty_waypoints_fails() {
    let data = hop_input(vec![], 2);
    assert_eq!(Plan::try_hop(data).unwrap_err(), PlanError::EmptyWaypointLeg);
}

#[test]
fn test_swoop_empty_leg_fails() {
    let mut data = swoop_input(2, false);
    data.waypoints_deadhead_a = vec![];
    assert_eq!(Plan::try_swoop(data).unwrap_err(), PlanError::EmptyWaypointLeg);
    let mut data = swoop_input(2, false);
    data.waypoints_main = vec![];
    assert_eq!(Plan::try_swoop(data).unwrap_err(), PlanError::EmptyWaypointLeg);
    let mut data = swoop_input(2, false);
    data.waypoints_deadhead_b = vec![];
    assert_eq!(Plan::try_swoop(data).unwrap_err(), PlanError::EmptyWaypointLeg);
}

#[test]
fn test_winch_variant_unsupported() {
    let data = swoop_input(2, false);
    assert_eq!(
        Plan::try_winch(data).unwrap_err(),
        PlanError::UnsupportedItineraryVariant
    );
}

#[test]
fn test_canonical_hop_fixture() {
    // One takeoff pose, one waypoint, one landing pose, a non-transition
    // vehicle type: the canonical regression fixture of nine items.
    let data = hop_input(vec![pose(470500000, 80500000, 600000000)], 2);
    let plan = Plan::try_hop(data).unwrap();
    let commands: Vec<u16> = plan.mission.items.iter().map(|it| it.command).collect();
    assert_eq!(
        commands,
        vec![
            CMD_DO_SET_HOME,
            CMD_NAV_DELAY,
            CMD_DO_SET_MODE,
            CMD_NAV_TAKEOFF,
            CMD_NAV_WAYPOINT,
            CMD_DO_SET_ROI_LOCATION,
            CMD_NAV_DELAY,
            CMD_NAV_LAND,
            CMD_DO_SET_MODE,
        ]
    );
    assert_eq!(plan.mission.items.len(), 9);
    // Armed at the start, disarmed at the end.
    assert_eq!(
        plan.mission.items[2].params[0],
        ParamValue::Num(MODE_AUTO_ARMED as i64 * DEC_SCALE)
    );
    assert_eq!(
        plan.mission.items[8].params[0],
        ParamValue::Num(MODE_AUTO_DISARMED as i64 * DEC_SCALE)
    );
    // The home position is the takeoff location.
    assert_eq!(plan.mission.planned_home_position.latitude, 470000000);
    assert_eq!(plan.mission.planned_home_position.longitude, 80000000);
    assert_eq!(plan.mission.planned_home_position.altitude, 5000000000);
}

#[test]
fn test_gentle_dropoff_places_payload() {
    let plan = Plan::try_swoop(swoop_input(2, true)).unwrap();
    let placed = plan
        .mission
        .items
        .iter()
        .filter(|it| it.command == CMD_NAV_PAYLOAD_PLACE)
        .count();
    assert_eq!(placed, 1);
    // Only one gripper command: the release of the pickup exchange plus
    // the grab, but no dropoff release.
    let grippers = plan
        .mission
        .items
        .iter()
        .filter(|it| it.command == CMD_DO_GRIPPER)
        .count();
    assert_eq!(grippers, 2);
}

#[test]
fn test_factory_parameter_slots() {
    let p = pose(455000000, -1202500000, 1000000000);
    let takeoff = MissionItem::takeoff(p, 0, 0);
    assert_eq!(takeoff.command, CMD_NAV_TAKEOFF);
    assert_eq!(
        takeoff.params,
        vec![
            ParamValue::Num(0),
            ParamValue::Null,
            ParamValue::Null,
            ParamValue::Num(0),
            ParamValue::Num(455000000),
            ParamValue::Num(-1202500000),
            ParamValue::Num(1000000000),
        ]
    );
    assert_eq!(takeoff.sequence_index, 0);
    assert!(takeoff.auto_continue);

    let delay = MissionItem::delay(ClockTime { hour: 13, minute: 45, second: 20 });
    assert_eq!(delay.command, CMD_NAV_DELAY);
    assert_eq!(
        delay.params,
        vec![
            ParamValue::Num(-1 * DEC_SCALE),
            ParamValue::Num(45 * DEC_SCALE),
            ParamValue::Num(20 * DEC_SCALE),
            ParamValue::Num(13 * DEC_SCALE),
            ParamValue::Null,
            ParamValue::Null,
            ParamValue::Null,
        ]
    );

    let wp = MissionItem::waypoint(p);
    assert_eq!(wp.command, CMD_NAV_WAYPOINT);
    assert_eq!(wp.params[3], ParamValue::Null);
    assert_eq!(wp.params[4], ParamValue::Num(455000000));

    let home = MissionItem::set_home(None);
    assert_eq!(home.command, CMD_DO_SET_HOME);
    assert_eq!(home.params[0], ParamValue::Num(1 * DEC_SCALE));
    assert_eq!(home.params[4], ParamValue::Num(0));
    let home = MissionItem::set_home(Some(p));
    assert_eq!(home.params[0], ParamValue::Num(0));
    assert_eq!(home.params[4], ParamValue::Num(455000000));

    let winch = MissionItem::do_winch(4, 25000000, 5000000);
    assert_eq!(winch.params[0], ParamValue::Num(1 * DEC_SCALE));
    assert_eq!(winch.params[1], ParamValue::Num(4 * DEC_SCALE));
    assert_eq!(winch.params[2], ParamValue::Num(25000000));
    assert_eq!(winch.params[3], ParamValue::Num(5000000));

    let place = MissionItem::payload_place(p, 10);
    assert_eq!(place.command, CMD_NAV_PAYLOAD_PLACE);
    assert_eq!(place.params[0], ParamValue::Num(10 * DEC_SCALE));

    let roi = MissionItem::set_roi(p, 3);
    assert_eq!(roi.command, CMD_DO_SET_ROI_LOCATION);
    assert_eq!(roi.params[0], ParamValue::Num(3 * DEC_SCALE));
}

#[test]
fn test_transition_target_validation() {
    assert!(MissionItem::try_transition(3).is_ok());
    assert!(MissionItem::try_transition(4).is_ok());
    assert!(MissionItem::try_transition(0).is_err());
    assert!(MissionItem::try_transition(5).is_err());
    let item = MissionItem::try_transition(4).unwrap();
    assert_eq!(item.command, CMD_DO_VTOL_TRANSITION);
    assert_eq!(item.params[0], ParamValue::Num(4 * DEC_SCALE));
    assert_eq!(item.params[1], ParamValue::Num(0));
}

#[test]
fn test_swoop_command_sequence() {
    let plan = Plan::try_swoop(swoop_input(2, false)).unwrap();
    let commands: Vec<u16> = plan.mission.items.iter().map(|it| it.command).collect();
    assert_eq!(
        commands,
        vec![
            CMD_DO_SET_HOME,
            CMD_NAV_DELAY,
            CMD_DO_SET_MODE,
            CMD_NAV_TAKEOFF,
            CMD_NAV_WAYPOINT,
            CMD_NAV_WAYPOINT,
            CMD_DO_SET_ROI_LOCATION,
            CMD_NAV_DELAY,
            CMD_DO_GRIPPER,
            CMD_NAV_WAYPOINT,
            CMD_DO_GRIPPER,
            CMD_NAV_WAYPOINT,
            CMD_NAV_WAYPOINT,
            CMD_DO_SET_ROI_LOCATION,
            CMD_NAV_DELAY,
            CMD_NAV_WAYPOINT,
            CMD_DO_GRIPPER,
            CMD_NAV_WAYPOINT,
            CMD_NAV_WAYPOINT,
            CMD_NAV_WAYPOINT,
            CMD_DO_SET_ROI_LOCATION,
            CMD_NAV_DELAY,
            CMD_NAV_LAND,
            CMD_DO_SET_MODE,
        ]
    );
}

#[test]
fn test_plan_error_messages() {
    assert_eq!(
        PlanError::EmptyWaypointLeg.message(),
        "no waypoints provided for a required leg"
    );
    assert_eq!(
        PlanError::InvalidTransitionTarget.message(),
        "invalid transition target state provided"
    );
    assert_eq!(
        PlanError::UnsupportedItineraryVariant.message(),
        "itinerary variant is not supported"
    );
}
