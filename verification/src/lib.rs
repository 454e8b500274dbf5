//! Flight-mission compiler for cargo drone itineraries.
//!
//! The core of this crate turns a high-level cargo itinerary (takeoff and
//! landing poses, waypoints, pickup and dropoff points, vehicle capability)
//! into an ordered sequence of low-level autopilot mission commands, wrapped
//! in a versioned mission-plan document and rendered to its exact wire
//! format. Every step is specified and verified: command parameter slots,
//! sequencing order, index assignment, and the character-exact document
//! schema together with its lossless parse.

pub mod capability;
pub mod compile;
pub mod config;
pub mod itinerary;
pub mod json;
pub mod mission_item;
pub mod parse;
pub mod plan;
pub mod types;
