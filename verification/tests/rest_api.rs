//! Tests of the REST boundary types: record conversion, error messages,
//! parcel attachment and configuration defaults.

use svc_atc::config::Config;
use svc_atc::types::{
    attach_parcels, AckError, AckRequest, AckStatus, Cargo, FlightPlan, FlightPlanData,
    FlightPlanError, FlightPlanObject, GeoPointZ, ParcelRecord, Timestamp,
};

fn valid_object() -> FlightPlanObject {
    FlightPlanObject {
        id: "id".to_string(),
        data: Some(FlightPlanData {
            session_id: "session_id".to_string(),
            vehicle_id: "vehicle_id".to_string(),
            origin_vertiport_id: Some("origin_vertiport_id".to_string()),
            target_vertiport_id: Some("target_vertiport_id".to_string()),
            origin_vertipad_id: "origin_vertipad_id".to_string(),
            target_vertipad_id: "target_vertipad_id".to_string(),
            origin_timeslot_start: Some(Timestamp { seconds: 1, nanos: 0 }),
            origin_timeslot_end: Some(Timestamp { seconds: 2, nanos: 0 }),
            target_timeslot_start: Some(Timestamp { seconds: 3, nanos: 0 }),
            target_timeslot_end: Some(Timestamp { seconds: 4, nanos: 0 }),
            path: Some(vec![GeoPointZ { y: 10000000, x: 20000000, z: 30000000 }]),
        }),
    }
}

#[test]
fn test_from_flight_plan_object_valid() {
    let object = valid_object();

    let flight_plan = FlightPlan::try_from(object).unwrap();
    assert_eq!(flight_plan.session_id, "session_id");
    assert_eq!(flight_plan.flight_uuid, "id");
    assert_eq!(flight_plan.aircraft_id, "vehicle_id");

    assert_eq!(
        flight_plan.origin_vertiport_id,
        "origin_vertiport_id".to_string()
    );
    assert_eq!(
        flight_plan.target_vertiport_id,
        "target_vertiport_id".to_string()
    );

    assert_eq!(flight_plan.origin_vertipad_id, "origin_vertipad_id");
    assert_eq!(flight_plan.target_vertipad_id, "target_vertipad_id");

    assert_eq!(
        flight_plan.origin_timeslot_start,
        Timestamp { seconds: 1, nanos: 0 }
    );
    assert_eq!(
        flight_plan.origin_timeslot_end,
        Timestamp { seconds: 2, nanos: 0 }
    );
    assert_eq!(
        flight_plan.target_timeslot_start,
        Timestamp { seconds: 3, nanos: 0 }
    );
    assert_eq!(
        flight_plan.target_timeslot_end,
        Timestamp { seconds: 4, nanos: 0 }
    );

    let path = flight_plan.path;
    assert_eq!(path.len(), 1);
    assert_eq!(path[0].latitude, 10000000);
    assert_eq!(path[0].longitude, 20000000);
    assert_eq!(path[0].altitude_meters, 30000000);

    assert!(flight_plan.acquire.is_empty());
    assert!(flight_plan.deliver.is_empty());
}

#[test]
fn test_from_flight_plan_object_invalid() {
    let object = valid_object();

    let mut tmp = object.clone();
    tmp.data = None;
    assert_eq!(
        FlightPlan::try_from(tmp).unwrap_err(),
        FlightPlanError::Data
    );

    let mut tmp = object.clone();
    tmp.data.as_mut().unwrap().origin_vertiport_id = None;
    assert_eq!(
        FlightPlan::try_from(tmp).unwrap_err(),
        FlightPlanError::OriginVertiportId
    );

    let mut tmp = object.clone();
    tmp.data.as_mut().unwrap().target_vertiport_id = None;
    assert_eq!(
        FlightPlan::try_from(tmp).unwrap_err(),
        FlightPlanError::TargetVertiportId
    );

    let mut tmp = object.clone();
    tmp.data.as_mut().unwrap().origin_timeslot_start = None;
    assert_eq!(
        FlightPlan::try_from(tmp).unwrap_err(),
        FlightPlanError::OriginTimeslotStart
    );

    let mut tmp = object.clone();
    tmp.data.as_mut().unwrap().origin_timeslot_end = None;
    assert_eq!(
        FlightPlan::try_from(tmp).unwrap_err(),
        FlightPlanError::OriginTimeslotEnd
    );

    let mut tmp = object.clone();
    tmp.data.as_mut().unwrap().target_timeslot_start = None;
    assert_eq!(
        FlightPlan::try_from(tmp).unwrap_err(),
        FlightPlanError::TargetTimeslotStart
    );

    let mut tmp = object.clone();
    tmp.data.as_mut().unwrap().target_timeslot_end = None;
    assert_eq!(
        FlightPlan::try_from(tmp).unwrap_err(),
        FlightPlanError::TargetTimeslotEnd
    );

    let mut tmp = object.clone();
    tmp.data.as_mut().unwrap().path = None;
    assert_eq!(
        FlightPlan::try_from(tmp).unwrap_err(),
        FlightPlanError::Path
    );
}

#[test]
fn test_flight_plan_error_display() {
    assert_eq!(
        FlightPlanError::Data.message(),
        "could not get data from object."
    );
    assert_eq!(
        FlightPlanError::OriginVertiportId.message(),
        "could not get origin_vertiport_id from data."
    );
    assert_eq!(
        FlightPlanError::TargetVertiportId.message(),
        "could not get target_vertiport_id from data."
    );
    assert_eq!(
        FlightPlanError::OriginTimeslotStart.message(),
        "could not get origin_timeslot_start from data."
    );
    assert_eq!(
        FlightPlanError::OriginTimeslotEnd.message(),
        "could not get origin_timeslot_end from data."
    );
    assert_eq!(
        FlightPlanError::TargetTimeslotStart.message(),
        "could not get target_timeslot_start from data."
    );
    assert_eq!(
        FlightPlanError::TargetTimeslotEnd.message(),
        "could not get target_timeslot_end from data."
    );
    assert_eq!(
        FlightPlanError::Path.message(),
        "could not get path from data."
    );
}

#[test]
fn test_ack_error_messages() {
    assert_eq!(AckError::Internal.message(), "Internal Error");
    assert_eq!(AckError::Unavailable.message(), "Dependencies not available");
    assert_eq!(AckError::NotFound.message(), "Flight Plan Not Found");
}

#[test]
fn test_attach_parcels() {
    let mut plan = FlightPlan::try_from(valid_object()).unwrap();
    plan.acquire.push(Cargo { id: "existing".to_string() });
    let parcels = vec![
        ParcelRecord { parcel_id: "a".to_string(), acquire: true, deliver: false },
        ParcelRecord { parcel_id: "b".to_string(), acquire: false, deliver: true },
        ParcelRecord { parcel_id: "c".to_string(), acquire: true, deliver: true },
        ParcelRecord { parcel_id: "d".to_string(), acquire: false, deliver: false },
    ];
    attach_parcels(&mut plan, &parcels);
    let acquired: Vec<&str> = plan.acquire.iter().map(|c| c.id.as_str()).collect();
    let delivered: Vec<&str> = plan.deliver.iter().map(|c| c.id.as_str()).collect();
    assert_eq!(acquired, vec!["existing", "a", "c"]);
    assert_eq!(delivered, vec!["b", "c"]);
    assert_eq!(plan.flight_uuid, "id");
}

#[test]
fn test_config_defaults() {
    let config = Config::new();
    assert_eq!(config.docker_port_grpc, 50051);
    assert_eq!(config.docker_port_rest, 8000);
    assert_eq!(config.storage_host_grpc, "svc-storage");
    assert_eq!(config.storage_port_grpc, 50008);
    assert_eq!(config.log_config, "log4rs.yaml");
    assert_eq!(config.rest_request_limit_per_second, 2);
    assert_eq!(config.rest_concurrency_limit_per_service, 5);
    assert_eq!(config.rest_cors_allowed_origin, "http://localhost:3000");
    assert_eq!(Config::default(), config);
}

#[test]
fn test_ack_request_shape() {
    let request = AckRequest { fp_id: "some-id".to_string(), status: AckStatus::Confirm };
    assert_eq!(request.fp_id, "some-id");
    assert!(matches!(request.status, AckStatus::Confirm));
    let denied = AckRequest { fp_id: "other".to_string(), status: AckStatus::Deny };
    assert!(matches!(denied.status, AckStatus::Deny));
}
