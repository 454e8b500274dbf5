//! Tests of the wire format: exact rendering and lossless round trips.

use svc_atc::itinerary::{ClockTime, HopData, Pose};
use svc_atc::mission_item::{MissionItem, ParamValue};
use svc_atc::plan::{
    Circle, GeoFence, GeoFenceCircle, GeoFencePolygon, LatLon, LatLonAlt, Mission, Plan,
    RallyPoints, GEOFENCE_VERSION, MISSION_VERSION, RALLYPOINTS_VERSION,
};

fn chars(s: &str) -> Vec<char> {
    s.chars().collect()
}

fn string_of(v: &[char]) -> String {
    v.iter().collect()
}

#[test]
fn test_whole_to_json() {
    let circle_center_latitude: i64 = 455000000; // 45.5 degrees
    let circle_center_longitude: i64 = -1202500000; // -120.25 degrees
    let circle_radius: i64 = 1505000000; // 150.5 meters

    let polygon_vertices = vec![
        LatLon { latitude: 100000000, longitude: 200000000 },
        LatLon { latitude: 115000000, longitude: 215000000 },
        LatLon { latitude: -120000000, longitude: 220000000 },
        LatLon { latitude: 130000000, longitude: -237500000 },
    ];

    let item_params = vec![
        ParamValue::Num(15000000),
        ParamValue::Num(20000000),
        ParamValue::Num(32500000),
        ParamValue::Num(40000000),
        ParamValue::Num(55000000),
        ParamValue::Num(60000000),
    ];

    let plan = Plan {
        file_type: chars("Plan"),
        ground_station: chars("QGroundControl"),
        version: 1,
        mission: Mission {
            cruise_speed: 20,
            firmware_type: 12,
            global_plan_altitude_mode: 1,
            hover_speed: 5,
            items: vec![MissionItem {
                sequence_index: 7,
                command: 16,
                frame: 3,
                altitude: 500000000,
                altitude_mode: 2,
                amsl_alt_above_terrain: 0,
                auto_continue: true,
                params: item_params,
            }],
            planned_home_position: LatLonAlt {
                latitude: 470000000,
                longitude: 80000000,
                altitude: 5000000000,
            },
            vehicle_type: 2,
            version: MISSION_VERSION,
        },
        rally_points: RallyPoints { points: vec![], version: RALLYPOINTS_VERSION },
        geo_fence: GeoFence {
            circles: vec![GeoFenceCircle {
                circle: Circle {
                    center: LatLon {
                        latitude: circle_center_latitude,
                        longitude: circle_center_longitude,
                    },
                    radius: circle_radius,
                },
                inclusion: true,
                version: 1,
            }],
            polygons: vec![GeoFencePolygon {
                polygon: polygon_vertices,
                inclusion: true,
                version: 1,
            }],
            version: GEOFENCE_VERSION,
        },
    };

    let mut expected = String::new();
    expected.push_str("{\"fileType\":\"Plan\",");
    expected.push_str("\"geoFence\":{");
    expected.push_str("\"circles\":[{\"circle\":{\"center\":[45.5,-120.25],\"radius\":150.5},");
    expected.push_str("\"inclusion\":true,\"version\":1}],");
    expected.push_str("\"polygons\":[{\"polygon\":[[10.0,20.0],[11.5,21.5],[-12.0,22.0],[13.0,-23.75]],");
    expected.push_str("\"inclusion\":true,\"version\":1}],");
    expected.push_str("\"version\":2},");
    expected.push_str("\"groundStation\":\"QGroundControl\",");
    expected.push_str("\"mission\":{\"cruiseSpeed\":20,\"firmwareType\":12,\"globalPlanAltitudeMode\":1,");
    expected.push_str("\"hoverSpeed\":5,");
    expected.push_str("\"items\":[{\"type\":\"SimpleItem\",\"autoContinue\":true,\"command\":16,");
    expected.push_str("\"doJumpId\":7,\"frame\":3,\"params\":[1.5,2.0,3.25,4.0,5.5,6.0],");
    expected.push_str("\"Altitude\":50.0,\"AltitudeMode\":2,\"AMSLAltAboveTerrain\":0.0}],");
    expected.push_str("\"plannedHomePosition\":[47.0,8.0,500.0],\"vehicleType\":2,\"version\":2},");
    expected.push_str("\"rallyPoints\":{\"points\":[],\"version\":2},");
    expected.push_str("\"version\":1}");

    let json = plan.to_json();
    assert_eq!(string_of(&json), expected);
}

#[test]
fn test_decimal_rendering_forms() {
    // One item exercising the decimal edge forms: zero, a negative
    // fraction-only value, a full seven-digit fraction, and null slots.
    let plan = Plan {
        file_type: chars("Plan"),
        ground_station: chars("GS"),
        version: 1,
        mission: Mission {
            cruise_speed: 0,
            firmware_type: 0,
            global_plan_altitude_mode: 1,
            hover_speed: 0,
            items: vec![MissionItem {
                sequence_index: 1,
                command: 16,
                frame: 0,
                altitude: 0,
                altitude_mode: 1,
                amsl_alt_above_terrain: -1,
                auto_continue: false,
                params: vec![
                    ParamValue::Num(0),
                    ParamValue::Num(-5),
                    ParamValue::Num(12345678),
                    ParamValue::Null,
                    ParamValue::Num(-10000000),
                    ParamValue::Num(10000001),
                    ParamValue::Num(9000000000000000000),
                ],
            }],
            planned_home_position: LatLonAlt { latitude: 0, longitude: 0, altitude: 0 },
            vehicle_type: 2,
            version: 2,
        },
        rally_points: RallyPoints { points: vec![], version: 2 },
        geo_fence: GeoFence { circles: vec![], polygons: vec![], version: 2 },
    };
    let json = string_of(&plan.to_json());
    let mut expected_items = String::new();
    expected_items.push_str("\"items\":[{\"type\":\"SimpleItem\",\"autoContinue\":false,\"command\":16,");
    expected_items.push_str("\"doJumpId\":1,\"frame\":0,");
    expected_items.push_str("\"params\":[0.0,-0.0000005,1.2345678,null,-1.0,1.0000001,900000000000.0],");
    expected_items.push_str("\"Altitude\":0.0,\"AltitudeMode\":1,\"AMSLAltAboveTerrain\":-0.0000001}");
    assert!(json.contains(&expected_items));
}

#[test]
fn test_round_trip_hop_document() {
    let data = HopData {
        takeoff_location: Pose {
            latitude: 470000000,
            longitude: 80000000,
            altitude_meters: 5000000000,
            heading_degrees: 0,
        },
        takeoff_time: ClockTime { hour: 9, minute: 30, second: 0 },
        landing_location: Pose {
            latitude: 471000000,
            longitude: 81000000,
            altitude_meters: 4000000000,
            heading_degrees: 0,
        },
        landing_time: ClockTime { hour: 10, minute: 15, second: 30 },
        waypoints: vec![
            Pose {
                latitude: 470500000,
                longitude: 80500000,
                altitude_meters: 600000000,
                heading_degrees: 0,
            },
            Pose {
                latitude: -470600000,
                longitude: -80600000,
                altitude_meters: 650000000,
                heading_degrees: 0,
            },
        ],
        cruise_speed: 20,
        hover_speed: 5,
        autopilot_type: 12,
        vehicle_type: 21,
        gimbal_camera_id: 1,
    };
    let plan = Plan::try_hop(data).unwrap();
    let json = plan.to_json();
    let parsed = Plan::from_json(&json).expect("a rendered document parses");
    // The schema is lossless: command codes and parameter arrays are
    // unchanged, and so is every other populated field.
    assert_eq!(parsed.mission.items.len(), plan.mission.items.len());
    for (a, b) in parsed.mission.items.iter().zip(plan.mission.items.iter()) {
        assert_eq!(a.command, b.command);
        assert_eq!(a.params, b.params);
    }
    assert_eq!(parsed, plan);
}

#[test]
fn test_round_trip_document_with_geofence() {
    let plan = Plan {
        file_type: chars("Plan"),
        ground_station: chars("QGroundControl"),
        version: 1,
        mission: Mission {
            cruise_speed: 3,
            firmware_type: 4,
            global_plan_altitude_mode: 1,
            hover_speed: 6,
            items: vec![],
            planned_home_position: LatLonAlt {
                latitude: -5,
                longitude: 123456789,
                altitude: 0,
            },
            vehicle_type: 20,
            version: 2,
        },
        rally_points: RallyPoints {
            points: vec![LatLonAlt { latitude: 10000000, longitude: -20000000, altitude: 1 }],
            version: 2,
        },
        geo_fence: GeoFence {
            circles: vec![GeoFenceCircle {
                circle: Circle {
                    center: LatLon { latitude: 0, longitude: -1 },
                    radius: 25000000,
                },
                inclusion: false,
                version: 3,
            }],
            polygons: vec![GeoFencePolygon { polygon: vec![], inclusion: true, version: 1 }],
            version: 2,
        },
    };
    let json = plan.to_json();
    let parsed = Plan::from_json(&json).expect("a rendered document parses");
    assert_eq!(parsed, plan);
}

#[test]
fn test_from_json_rejects_corrupted_text() {
    let data = HopData {
        takeoff_location: Pose {
            latitude: 1,
            longitude: 2,
            altitude_meters: 3,
            heading_degrees: 0,
        },
        takeoff_time: ClockTime { hour: 0, minute: 0, second: 0 },
        landing_location: Pose {
            latitude: 4,
            longitude: 5,
            altitude_meters: 6,
            heading_degrees: 0,
        },
        landing_time: ClockTime { hour: 1, minute: 0, second: 0 },
        waypoints: vec![Pose { latitude: 7, longitude: 8, altitude_meters: 9, heading_degrees: 0 }],
        cruise_speed: 1,
        hover_speed: 1,
        autopilot_type: 1,
        vehicle_type: 2,
        gimbal_camera_id: 0,
    };
    let plan = Plan::try_hop(data).unwrap();
    let mut json = plan.to_json();
    // Truncated text does not parse.
    json.pop();
    assert!(Plan::from_json(&json).is_none());
    // Nor does text whose leading brace is gone.
    let tail: Vec<char> = "x".chars().collect();
    assert!(Plan::from_json(&tail).is_none());
}
