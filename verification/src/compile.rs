//! Itinerary compiler.
//!
//! Two sequencing algorithms turn an itinerary description into an ordered
//! list of mission items: one for a single-leg hop, one for a continuous
//! ("swoop") itinerary with airborne pickup and dropoff. Each algorithm is
//! a fixed linear phase order; vehicle capability decides whether VTOL
//! mode-transition commands are inserted around the cruise segments. After
//! the full list is built, a separate final pass assigns the 1-based
//! sequence indices.

use vstd::prelude::*;
use crate::capability::{requires_cruise_transition, spec_requires_cruise_transition};
use crate::itinerary::{ClockTime, ContinuousData, HopData, PlanError, Pose};
use crate::mission_item::{
    models, scaled, spec_delay, spec_gripper, spec_landing, spec_mode, spec_payload_place,
    spec_set_home, spec_set_roi, spec_takeoff, spec_transition, spec_waypoint, ItemModel,
    MissionItem, ParamValue, CMD_DO_GRIPPER, CMD_NAV_WAYPOINT, GRIPPER_ACTION_GRAB,
    GRIPPER_ACTION_RELEASE, MODE_AUTO_ARMED, MODE_AUTO_DISARMED, VTOL_STATE_FIXED_WING,
    VTOL_STATE_MULTIROTOR,
};

verus! {

/// Maximum descent in meters handed to a gentle payload placement. Zero is
/// an explicit placeholder, like the zero takeoff and landing yaw: the real
/// value is still an open design question.
pub const PAYLOAD_PLACE_DESCENT_M: u8 = 0;

/// The common start of every mission: set home to the takeoff pose, hold
/// for the takeoff window, then arm in autonomous mode.
pub open spec fn spec_start_items(time: ClockTime, pose: Pose) -> Seq<ItemModel> {
    seq![
        spec_set_home(Some(pose)),
        spec_delay(time),
        spec_mode(MODE_AUTO_ARMED),
    ]
}

/// The common end of every mission: disarm in autonomous mode.
pub open spec fn spec_end_items() -> Seq<ItemModel> {
    seq![spec_mode(MODE_AUTO_DISARMED)]
}

/// One waypoint command per pose, in order.
pub open spec fn spec_waypoint_items(waypoints: Seq<Pose>) -> Seq<ItemModel> {
    Seq::new(waypoints.len(), |i: int| spec_waypoint(waypoints[i]))
}

/// A single transition command toward `target_state` when the vehicle needs
/// cruise transitions, else nothing.
pub open spec fn spec_transition_items(needed: bool, target_state: u8) -> Seq<ItemModel> {
    if needed {
        seq![spec_transition(target_state)]
    } else {
        Seq::empty()
    }
}

/// The full, still unindexed, item sequence of a hop itinerary: the common
/// start, a transition to multirotor where needed, takeoff toward the first
/// waypoint, a transition to fixed-wing where needed, every waypoint in
/// order, a transition back to multirotor where needed, camera on the
/// landing site, hold for the landing window, land at the last waypoint,
/// and the common end. Meaningful only when the waypoint list is non-empty.
pub open spec fn spec_hop_items(data: HopData) -> Seq<ItemModel> {
    let t = spec_requires_cruise_transition(data.vehicle_type);
    spec_start_items(data.takeoff_time, data.takeoff_location)
        + spec_transition_items(t, VTOL_STATE_MULTIROTOR)
        + seq![spec_takeoff(data.waypoints@[0], 0, 0)]
        + spec_transition_items(t, VTOL_STATE_FIXED_WING)
        + spec_waypoint_items(data.waypoints@)
        + spec_transition_items(t, VTOL_STATE_MULTIROTOR)
        + seq![
            spec_set_roi(data.landing_location, data.gimbal_camera_id),
            spec_delay(data.landing_time),
            spec_landing(data.waypoints@.last(), 0, 0),
        ]
        + spec_end_items()
}

/// The pickup exchange of a continuous itinerary: open the gripper before
/// the approach, fly to the pickup pose, and only then close the gripper,
/// so that a loaded gripper never strikes the ground during the approach.
pub open spec fn spec_pickup_exchange(pickup_location: Pose) -> Seq<ItemModel> {
    seq![
        spec_gripper(GRIPPER_ACTION_RELEASE),
        spec_waypoint(pickup_location),
        spec_gripper(GRIPPER_ACTION_GRAB),
    ]
}

/// The dropoff of a continuous itinerary: either a gentle payload
/// placement, or flying to the dropoff pose and releasing from there.
pub open spec fn spec_dropoff_items(dropoff_location: Pose, gentle: bool) -> Seq<ItemModel> {
    if gentle {
        seq![spec_payload_place(dropoff_location, PAYLOAD_PLACE_DESCENT_M)]
    } else {
        seq![spec_waypoint(dropoff_location), spec_gripper(GRIPPER_ACTION_RELEASE)]
    }
}

/// A cruise leg of a continuous itinerary: ascend to the first waypoint,
/// transition to cruise where needed, fly the remaining waypoints, and
/// transition back where needed. Meaningful only when the leg is non-empty.
pub open spec fn spec_cruise_leg(t: bool, waypoints: Seq<Pose>) -> Seq<ItemModel> {
    seq![spec_waypoint(waypoints[0])]
        + spec_transition_items(t, VTOL_STATE_FIXED_WING)
        + spec_waypoint_items(waypoints.skip(1))
        + spec_transition_items(t, VTOL_STATE_MULTIROTOR)
}

/// The full, still unindexed, item sequence of a continuous ("swoop")
/// itinerary: the hop-like start using the first deadhead leg, camera and
/// hold on the pickup site, the gripper pickup exchange, the loaded main
/// leg, camera and hold on the dropoff site, the dropoff, the second
/// deadhead leg, then camera, hold and landing on the landing site and the
/// common end. Meaningful only when all three waypoint legs are non-empty.
pub open spec fn spec_swoop_items(data: ContinuousData) -> Seq<ItemModel> {
    let t = spec_requires_cruise_transition(data.vehicle_type);
    spec_start_items(data.takeoff_time, data.takeoff_location)
        + spec_transition_items(t, VTOL_STATE_MULTIROTOR)
        + seq![spec_takeoff(data.waypoints_deadhead_a@[0], 0, 0)]
        + spec_transition_items(t, VTOL_STATE_FIXED_WING)
        + spec_waypoint_items(data.waypoints_deadhead_a@)
        + spec_transition_items(t, VTOL_STATE_MULTIROTOR)
        + seq![
            spec_set_roi(data.pickup_location, data.gimbal_camera_id),
            spec_delay(data.pickup_time),
        ]
        + spec_pickup_exchange(data.pickup_location)
        + spec_cruise_leg(t, data.waypoints_main@)
        + seq![
            spec_set_roi(data.dropoff_location, data.gimbal_camera_id),
            spec_delay(data.dropoff_time),
        ]
        + spec_dropoff_items(data.dropoff_location, data.gentle_dropoff)
        + spec_cruise_leg(t, data.waypoints_deadhead_b@)
        + seq![
            spec_set_roi(data.landing_location, data.gimbal_camera_id),
            spec_delay(data.landing_time),
            spec_landing(data.landing_location, 0, 0),
        ]
        + spec_end_items()
}

/// The item sequence with 1-based sequence indices assigned in emission
/// order; every other field is kept.
pub open spec fn spec_assign_indices(items: Seq<ItemModel>) -> Seq<ItemModel> {
    Seq::new(
        items.len(),
        |i: int| ItemModel { sequence_index: (i + 1) as u16, ..items[i] },
    )
}

/// The fully compiled, indexed item sequence of a hop itinerary.
pub open spec fn spec_hop_compiled(data: HopData) -> Seq<ItemModel> {
    spec_assign_indices(spec_hop_items(data))
}

/// The fully compiled, indexed item sequence of a continuous itinerary.
pub open spec fn spec_swoop_compiled(data: ContinuousData) -> Seq<ItemModel> {
    spec_assign_indices(spec_swoop_items(data))
}

/// Push one item, tracked at the model level.
fn push_item(items: &mut Vec<MissionItem>, item: MissionItem)
    ensures
        models(final(items)@) == models(old(items)@).push(item@),
{
    let ghost m = item@;
    items.push(item);
    proof {
        assert(models(items@) =~= models(old(items)@).push(m));
    }
}

/// Push one waypoint command per pose, in order.
fn push_waypoint_items(items: &mut Vec<MissionItem>, waypoints: &Vec<Pose>)
    ensures
        models(final(items)@) == models(old(items)@) + spec_waypoint_items(waypoints@),
{
    let ghost base = models(items@);
    for i in 0..waypoints.len()
        invariant
            models(items@) == base + spec_waypoint_items(waypoints@.take(i as int)),
    {
        push_item(items, MissionItem::waypoint(waypoints[i]));
        proof {
            assert((base + spec_waypoint_items(waypoints@.take(i as int))).push(
                spec_waypoint(waypoints@[i as int]),
            ) =~= base + spec_waypoint_items(waypoints@.take(i + 1)));
        }
    }
    proof {
        assert(waypoints@.take(waypoints@.len() as int) =~= waypoints@);
    }
}

/// Push one waypoint command per pose, skipping the first pose.
fn push_remaining_waypoint_items(items: &mut Vec<MissionItem>, waypoints: &Vec<Pose>)
    requires
        waypoints@.len() > 0,
    ensures
        models(final(items)@) == models(old(items)@) + spec_waypoint_items(waypoints@.skip(1)),
{
    let ghost base = models(items@);
    for i in 1..waypoints.len()
        invariant
            waypoints@.len() > 0,
            models(items@) == base + spec_waypoint_items(waypoints@.subrange(1, i as int)),
    {
        push_item(items, MissionItem::waypoint(waypoints[i]));
        proof {
            assert((base + spec_waypoint_items(waypoints@.subrange(1, i as int))).push(
                spec_waypoint(waypoints@[i as int]),
            ) =~= base + spec_waypoint_items(waypoints@.subrange(1, i + 1)));
        }
    }
    proof {
        assert(waypoints@.subrange(1, waypoints@.len() as int) =~= waypoints@.skip(1));
    }
}

/// Push a full cruise leg: ascend to the first waypoint, transition to
/// cruise where needed, fly the remaining waypoints, transition back where
/// needed.
fn push_cruise_leg(items: &mut Vec<MissionItem>, needed: bool, waypoints: &Vec<Pose>)
    requires
        waypoints@.len() > 0,
    ensures
        models(final(items)@) == models(old(items)@) + spec_cruise_leg(needed, waypoints@),
{
    push_item(items, MissionItem::waypoint(waypoints[0]));
    push_transition_items(items, needed, VTOL_STATE_FIXED_WING);
    push_remaining_waypoint_items(items, waypoints);
    push_transition_items(items, needed, VTOL_STATE_MULTIROTOR);
    proof {
        assert(models(items@) =~= models(old(items)@) + spec_cruise_leg(needed, waypoints@));
    }
}

/// Push the dropoff items: a gentle payload placement, or a waypoint at
/// the dropoff pose followed by a gripper release.
fn push_dropoff_items(items: &mut Vec<MissionItem>, dropoff_location: Pose, gentle: bool)
    ensures
        models(final(items)@) == models(old(items)@)
            + spec_dropoff_items(dropoff_location, gentle),
{
    if gentle {
        push_item(items, MissionItem::payload_place(dropoff_location, PAYLOAD_PLACE_DESCENT_M));
    } else {
        push_item(items, MissionItem::waypoint(dropoff_location));
        push_item(items, MissionItem::gripper(GRIPPER_ACTION_RELEASE));
    }
    proof {
        assert(models(items@) =~= models(old(items)@)
            + spec_dropoff_items(dropoff_location, gentle));
    }
}

/// Push a transition command toward `target_state` when `needed`.
///
/// `target_state` must be one of the two valid VTOL target states; the
/// compilers only ever hand in those two codes.
fn push_transition_items(items: &mut Vec<MissionItem>, needed: bool, target_state: u8)
    requires
        target_state == VTOL_STATE_MULTIROTOR || target_state == VTOL_STATE_FIXED_WING,
    ensures
        models(final(items)@) == models(old(items)@)
            + spec_transition_items(needed, target_state),
{
    if needed {
        let item = match MissionItem::try_transition(target_state) {
            Ok(item) => item,
            Err(()) => {
                proof {
                    assert(false);
                }
                return ;
            },
        };
        push_item(items, item);
    }
    proof {
        assert(models(items@) =~= models(old(items)@)
            + spec_transition_items(needed, target_state));
    }
}

/// Common start mission items: set home, hold for the takeoff window, arm.
pub fn try_mission_start_items(time: ClockTime, pose: Pose) -> (r: Result<
    Vec<MissionItem>,
    PlanError,
>)
    ensures
        r matches Ok(items) && models(items@) == spec_start_items(time, pose),
{
    let mut items: Vec<MissionItem> = Vec::new();
    push_item(&mut items, MissionItem::set_home(Some(pose)));
    push_item(&mut items, MissionItem::delay(time));
    let armed = match MissionItem::try_mode(MODE_AUTO_ARMED) {
        Ok(item) => item,
        Err(()) => {
            proof {
                assert(false);
            }
            return Err(PlanError::InvalidTransitionTarget);
        },
    };
    push_item(&mut items, armed);
    proof {
        assert(models(items@) =~= spec_start_items(time, pose));
    }
    Ok(items)
}

/// Common end mission items: disarm.
pub fn try_mission_end_items() -> (r: Result<Vec<MissionItem>, PlanError>)
    ensures
        r matches Ok(items) && models(items@) == spec_end_items(),
{
    let mut items: Vec<MissionItem> = Vec::new();
    let disarmed = match MissionItem::try_mode(MODE_AUTO_DISARMED) {
        Ok(item) => item,
        Err(()) => {
            proof {
                assert(false);
            }
            return Err(PlanError::InvalidTransitionTarget);
        },
    };
    push_item(&mut items, disarmed);
    proof {
        assert(models(items@) =~= spec_end_items());
    }
    Ok(items)
}

/// Assign the 1-based sequence indices in emission order, as a single pass
/// over the fully built list.
pub fn assign_sequence_indices(items: Vec<MissionItem>) -> (r: Vec<MissionItem>)
    requires
        items@.len() <= u16::MAX,
    ensures
        models(r@) == spec_assign_indices(models(items@)),
{
    let ghost orig = models(items@);
    let mut rest = items;
    let mut out: Vec<MissionItem> = Vec::new();
    while rest.len() > 0
        invariant
            out@.len() + rest@.len() == orig.len() <= u16::MAX,
            models(rest@) == orig.skip(out@.len() as int),
            models(out@) == spec_assign_indices(orig).take(out@.len() as int),
        decreases rest@.len(),
    {
        let ghost done = out@.len() as int;
        let ghost prev = rest@;
        let mut item = rest.remove(0);
        proof {
            assert(item@ == orig.skip(done)[0]);
            assert(item@ == orig[done]);
        }
        item.sequence_index = (out.len() as u16) + 1;
        out.push(item);
        proof {
            assert(rest@ =~= prev.skip(1));
            assert forall|j: int| 0 <= j < models(rest@).len() implies models(rest@)[j]
                == orig.skip(done + 1)[j] by {
                assert(rest@[j] == prev[j + 1]);
                assert(models(prev)[j + 1] == orig.skip(done)[j + 1]);
            }
            assert(models(rest@) =~= orig.skip(done + 1));
            assert(models(out@) =~= spec_assign_indices(orig).take(done + 1));
        }
    }
    proof {
        assert(models(out@) =~= spec_assign_indices(orig));
    }
    out
}

/// Compile a hop itinerary into its fully indexed item sequence.
///
/// Fails with [`PlanError::EmptyWaypointLeg`], and only with it, exactly
/// when the waypoint list is empty. The length bound keeps every sequence
/// index within `u16`.
pub fn compile_hop_items(data: &HopData) -> (r: Result<Vec<MissionItem>, PlanError>)
    requires
        data.waypoints@.len() + 11 <= u16::MAX,
    ensures
        r is Ok <==> data.waypoints@.len() > 0,
        r matches Err(e) ==> e == PlanError::EmptyWaypointLeg,
        r matches Ok(items) ==> models(items@) == spec_hop_compiled(*data),
{
    if data.waypoints.len() == 0 {
        return Err(PlanError::EmptyWaypointLeg);
    }
    let t = requires_cruise_transition(data.vehicle_type);

    let mut items = match try_mission_start_items(data.takeoff_time, data.takeoff_location) {
        Ok(items) => items,
        Err(e) => {
            proof {
                assert(false);
            }
            return Err(e);
        },
    };
    push_transition_items(&mut items, t, VTOL_STATE_MULTIROTOR);
    push_item(&mut items, MissionItem::takeoff(data.waypoints[0], 0, 0));
    push_transition_items(&mut items, t, VTOL_STATE_FIXED_WING);
    push_waypoint_items(&mut items, &data.waypoints);
    push_transition_items(&mut items, t, VTOL_STATE_MULTIROTOR);
    push_item(&mut items, MissionItem::set_roi(data.landing_location, data.gimbal_camera_id));
    push_item(&mut items, MissionItem::delay(data.landing_time));
    let waypoint_last = data.waypoints[data.waypoints.len() - 1];
    push_item(&mut items, MissionItem::landing(waypoint_last, 0, 0));
    let mut end = match try_mission_end_items() {
        Ok(items) => items,
        Err(e) => {
            proof {
                assert(false);
            }
            return Err(e);
        },
    };
    let ghost before_end = items@;
    let ghost end_snapshot = end@;
    items.append(&mut end);
    proof {
        lemma_models_add(before_end, end_snapshot);
        assert(models(items@) =~= spec_hop_items(*data));
        lemma_hop_item_count(*data);
    }
    Ok(assign_sequence_indices(items))
}

/// Compile a continuous ("swoop") itinerary into its fully indexed item
/// sequence.
///
/// Fails with [`PlanError::EmptyWaypointLeg`], and only with it, exactly
/// when one of the three waypoint legs is empty. The length bound keeps
/// every sequence index within `u16`.
#[verifier::rlimit(100)]
pub fn compile_swoop_items(data: &ContinuousData) -> (r: Result<Vec<MissionItem>, PlanError>)
    requires
        data.waypoints_deadhead_a@.len() + data.waypoints_main@.len()
            + data.waypoints_deadhead_b@.len() + 24 <= u16::MAX,
    ensures
        r is Ok <==> data.waypoints_deadhead_a@.len() > 0 && data.waypoints_main@.len() > 0
            && data.waypoints_deadhead_b@.len() > 0,
        r matches Err(e) ==> e == PlanError::EmptyWaypointLeg,
        r matches Ok(items) ==> models(items@) == spec_swoop_compiled(*data),
{
    if data.waypoints_deadhead_a.len() == 0 || data.waypoints_main.len() == 0
        || data.waypoints_deadhead_b.len() == 0 {
        return Err(PlanError::EmptyWaypointLeg);
    }
    let t = requires_cruise_transition(data.vehicle_type);

    let mut items = match try_mission_start_items(data.takeoff_time, data.takeoff_location) {
        Ok(items) => items,
        Err(e) => {
            proof {
                assert(false);
            }
            return Err(e);
        },
    };
    push_transition_items(&mut items, t, VTOL_STATE_MULTIROTOR);
    push_item(&mut items, MissionItem::takeoff(data.waypoints_deadhead_a[0], 0, 0));
    push_transition_items(&mut items, t, VTOL_STATE_FIXED_WING);
    push_waypoint_items(&mut items, &data.waypoints_deadhead_a);
    push_transition_items(&mut items, t, VTOL_STATE_MULTIROTOR);
    push_item(&mut items, MissionItem::set_roi(data.pickup_location, data.gimbal_camera_id));
    push_item(&mut items, MissionItem::delay(data.pickup_time));

    // Pickup exchange: gripper open before the approach, closed only once
    // positioned over the parcel.
    push_item(&mut items, MissionItem::gripper(GRIPPER_ACTION_RELEASE));
    push_item(&mut items, MissionItem::waypoint(data.pickup_location));
    push_item(&mut items, MissionItem::gripper(GRIPPER_ACTION_GRAB));

    proof {
        assert(models(items@) =~= spec_start_items(data.takeoff_time, data.takeoff_location)
            + spec_transition_items(t, VTOL_STATE_MULTIROTOR)
            + seq![spec_takeoff(data.waypoints_deadhead_a@[0], 0, 0)]
            + spec_transition_items(t, VTOL_STATE_FIXED_WING)
            + spec_waypoint_items(data.waypoints_deadhead_a@)
            + spec_transition_items(t, VTOL_STATE_MULTIROTOR)
            + seq![
                spec_set_roi(data.pickup_location, data.gimbal_camera_id),
                spec_delay(data.pickup_time),
            ]
            + spec_pickup_exchange(data.pickup_location));
    }
    let ghost front = models(items@);

    // Loaded main leg, then camera and hold on the dropoff site.
    push_cruise_leg(&mut items, t, &data.waypoints_main);
    push_item(&mut items, MissionItem::set_roi(data.dropoff_location, data.gimbal_camera_id));
    push_item(&mut items, MissionItem::delay(data.dropoff_time));

    // Dropoff, then the second deadhead leg.
    push_dropoff_items(&mut items, data.dropoff_location, data.gentle_dropoff);
    push_cruise_leg(&mut items, t, &data.waypoints_deadhead_b);

    push_item(&mut items, MissionItem::set_roi(data.landing_location, data.gimbal_camera_id));
    push_item(&mut items, MissionItem::delay(data.landing_time));
    push_item(&mut items, MissionItem::landing(data.landing_location, 0, 0));
    let mut end = match try_mission_end_items() {
        Ok(items) => items,
        Err(e) => {
            proof {
                assert(false);
            }
            return Err(e);
        },
    };
    let ghost before_end = items@;
    let ghost end_snapshot = end@;
    items.append(&mut end);
    proof {
        lemma_models_add(before_end, end_snapshot);
        assert(models(items@) =~= front
            + spec_cruise_leg(t, data.waypoints_main@)
            + seq![
                spec_set_roi(data.dropoff_location, data.gimbal_camera_id),
                spec_delay(data.dropoff_time),
            ]
            + spec_dropoff_items(data.dropoff_location, data.gentle_dropoff)
            + spec_cruise_leg(t, data.waypoints_deadhead_b@)
            + seq![
                spec_set_roi(data.landing_location, data.gimbal_camera_id),
                spec_delay(data.landing_time),
                spec_landing(data.landing_location, 0, 0),
            ]
            + spec_end_items());
        assert(models(items@) =~= spec_swoop_items(*data));
        lemma_swoop_item_count(*data);
    }
    Ok(assign_sequence_indices(items))
}

/// Concatenating item vectors concatenates their models.
proof fn lemma_models_add(s1: Seq<MissionItem>, s2: Seq<MissionItem>)
    ensures
        models(s1 + s2) == models(s1) + models(s2),
{
    assert forall|i: int| 0 <= i < models(s1 + s2).len() implies models(s1 + s2)[i] == (models(s1)
        + models(s2))[i] by {
        if i < s1.len() {
            assert((s1 + s2)[i] == s1[i]);
        } else {
            assert((s1 + s2)[i] == s2[i - s1.len()]);
        }
    }
    assert(models(s1 + s2) =~= models(s1) + models(s2));
}

/// Item count of a hop compilation: one item per waypoint, eight fixed
/// items, and three transition commands when the vehicle needs them.
pub proof fn lemma_hop_item_count(data: HopData)
    ensures
        spec_hop_items(data).len() == data.waypoints@.len() + 8 + (
        if spec_requires_cruise_transition(data.vehicle_type) {
            3int
        } else {
            0int
        }),
        spec_hop_compiled(data).len() == spec_hop_items(data).len(),
{
}

/// Item count of a continuous compilation: one item per waypoint over the
/// three legs, thirteen fixed items, one or two dropoff items, and seven
/// transition commands when the vehicle needs them.
pub proof fn lemma_swoop_item_count(data: ContinuousData)
    requires
        data.waypoints_main@.len() > 0,
        data.waypoints_deadhead_b@.len() > 0,
    ensures
        spec_swoop_items(data).len() == data.waypoints_deadhead_a@.len()
            + data.waypoints_main@.len() + data.waypoints_deadhead_b@.len() + 15 + (
        if data.gentle_dropoff {
            1int
        } else {
            2int
        }) + (
        if spec_requires_cruise_transition(data.vehicle_type) {
            7int
        } else {
            0int
        }),
        spec_swoop_compiled(data).len() == spec_swoop_items(data).len(),
{
}

/// Sequence indices of a compiled plan are exactly 1 through N with no
/// gaps or repeats, in emission order.
pub proof fn lemma_assigned_indices_contiguous(items: Seq<ItemModel>)
    requires
        items.len() <= u16::MAX,
    ensures
        spec_assign_indices(items).len() == items.len(),
        forall|i: int|
            0 <= i < items.len() ==> spec_assign_indices(items)[i].sequence_index == i + 1,
{
}

/// Whether an item is a gripper-grab command: the gripper command code
/// with the grab action in its action slot.
pub open spec fn spec_is_grab(it: ItemModel) -> bool {
    it.command == CMD_DO_GRIPPER && it.params[1] == ParamValue::Num(
        scaled(GRIPPER_ACTION_GRAB as int),
    )
}

/// In a compiled continuous itinerary the pickup exchange appears in the
/// order release, waypoint at the pickup pose, grab — and no gripper-grab
/// command stands anywhere before the aircraft reaches the pickup
/// waypoint.
pub proof fn lemma_swoop_pickup_order(data: ContinuousData)
    requires
        data.waypoints_deadhead_a@.len() > 0,
        data.waypoints_main@.len() > 0,
        data.waypoints_deadhead_b@.len() > 0,
    ensures
        ({
            let items = spec_swoop_compiled(data);
            let p = 6 + data.waypoints_deadhead_a@.len() as int + (
            if spec_requires_cruise_transition(data.vehicle_type) {
                3int
            } else {
                0int
            });
            &&& items[p].command == CMD_DO_GRIPPER
            &&& items[p].params == spec_gripper(GRIPPER_ACTION_RELEASE).params
            &&& items[p + 1].command == CMD_NAV_WAYPOINT
            &&& items[p + 1].params == spec_waypoint(data.pickup_location).params
            &&& items[p + 2].command == CMD_DO_GRIPPER
            &&& items[p + 2].params == spec_gripper(GRIPPER_ACTION_GRAB).params
            &&& forall|i: int| 0 <= i < p + 2 ==> !spec_is_grab(#[trigger] items[i])
        }),
{
    let t = spec_requires_cruise_transition(data.vehicle_type);
    let u = spec_swoop_items(data);
    let items = spec_swoop_compiled(data);
    let p = 6 + data.waypoints_deadhead_a@.len() as int + if t {
        3int
    } else {
        0int
    };
    let pre = spec_start_items(data.takeoff_time, data.takeoff_location)
        + spec_transition_items(t, VTOL_STATE_MULTIROTOR)
        + seq![spec_takeoff(data.waypoints_deadhead_a@[0], 0, 0)]
        + spec_transition_items(t, VTOL_STATE_FIXED_WING)
        + spec_waypoint_items(data.waypoints_deadhead_a@)
        + spec_transition_items(t, VTOL_STATE_MULTIROTOR)
        + seq![
            spec_set_roi(data.pickup_location, data.gimbal_camera_id),
            spec_delay(data.pickup_time),
        ];
    let rest = spec_cruise_leg(t, data.waypoints_main@)
        + seq![
            spec_set_roi(data.dropoff_location, data.gimbal_camera_id),
            spec_delay(data.dropoff_time),
        ]
        + spec_dropoff_items(data.dropoff_location, data.gentle_dropoff)
        + spec_cruise_leg(t, data.waypoints_deadhead_b@)
        + seq![
            spec_set_roi(data.landing_location, data.gimbal_camera_id),
            spec_delay(data.landing_time),
            spec_landing(data.landing_location, 0, 0),
        ]
        + spec_end_items();
    assert(pre.len() == p);
    assert(u =~= pre + spec_pickup_exchange(data.pickup_location) + rest);
    assert(u[p] == spec_gripper(GRIPPER_ACTION_RELEASE));
    assert(u[p + 1] == spec_waypoint(data.pickup_location));
    assert(u[p + 2] == spec_gripper(GRIPPER_ACTION_GRAB));
    assert forall|i: int| 0 <= i < p + 2 implies !spec_is_grab(u[i]) by {
        if i < p {
            assert(u[i] == pre[i]);
            if i < 3 {
                assert(pre[i] == spec_start_items(data.takeoff_time, data.takeoff_location)[i]);
            }
            assert(pre[i].command != CMD_DO_GRIPPER);
        } else if i == p {
            assert(u[i] == spec_gripper(GRIPPER_ACTION_RELEASE));
            assert(scaled(GRIPPER_ACTION_RELEASE as int) != scaled(GRIPPER_ACTION_GRAB as int));
        } else {
            assert(u[i] == spec_waypoint(data.pickup_location));
        }
    }
    assert forall|i: int| 0 <= i < p + 2 implies !spec_is_grab(#[trigger] items[i]) by {
        assert(items[i].command == u[i].command);
        assert(items[i].params == u[i].params);
    }
}

/// Index assignment changes nothing but the sequence index.
pub proof fn lemma_assigned_indices_keep_fields(items: Seq<ItemModel>)
    ensures
        spec_assign_indices(items).len() == items.len(),
        forall|i: int|
            0 <= i < items.len() ==> {
                let a = #[trigger] spec_assign_indices(items)[i];
                &&& a.command == items[i].command
                &&& a.frame == items[i].frame
                &&& a.altitude == items[i].altitude
                &&& a.altitude_mode == items[i].altitude_mode
                &&& a.amsl_alt_above_terrain == items[i].amsl_alt_above_terrain
                &&& a.auto_continue == items[i].auto_continue
                &&& a.params == items[i].params
            },
{
}

} // verus!
