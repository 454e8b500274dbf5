//! Wire-format rendering.
//!
//! The mission-plan document is rendered to a compact JSON text whose key
//! names, key casing, nesting and array ordering are fixed: ground-control
//! software parses this schema verbatim, so the mapping is part of the
//! wire contract and is specified here to the exact character sequence.
//!
//! Numbers appear in two forms. Version, command, speed and mode fields
//! are plain unsigned integers. Coordinates and command parameters are
//! fixed-point decimals scaled by [`crate::mission_item::DEC_SCALE`]; they
//! render with at least one integer and one fraction digit and no trailing
//! fraction zeroes, so a stored 455000000 renders as `45.5` and a stored 0
//! as `0.0`. Unused parameter slots render as `null`.

use vstd::prelude::*;
use crate::mission_item::{ItemModel, MissionItem, ParamValue, DEC_SCALE};
use crate::plan::{
    GeoFence, GeoFenceCircle, GeoFenceModel, GeoFencePolygon, GeoFencePolygonModel, LatLon,
    LatLonAlt, Mission, MissionModel, Plan, PlanModel, RallyPoints, RallyPointsModel,
};

verus! {

/// The character of a single decimal digit.
pub open spec fn digit_char(d: int) -> char {
    ((48 + d) as u8) as char
}

/// The decimal digits of `n`, most significant first, without leading
/// zeroes (a single `0` for zero).
pub open spec fn dec_digits(n: nat) -> Seq<char>
    decreases n,
{
    if n < 10 {
        seq![digit_char(n as int)]
    } else {
        dec_digits(n / 10).push(digit_char((n % 10) as int))
    }
}

/// The last `k` decimal digits of `n`, zero padded to exactly `k` digits.
pub open spec fn pad_digits(n: nat, k: nat) -> Seq<char>
    decreases k,
{
    if k == 0 {
        Seq::empty()
    } else {
        pad_digits(n / 10, (k - 1) as nat).push(digit_char((n % 10) as int))
    }
}

/// Drop trailing zero digits, but keep at least one digit.
pub open spec fn trim_zeros(s: Seq<char>) -> Seq<char>
    decreases s.len(),
{
    if s.len() <= 1 || s.last() != '0' {
        s
    } else {
        trim_zeros(s.drop_last())
    }
}

/// The magnitude of `v`, as a mathematical integer.
pub open spec fn mag(v: i64) -> nat {
    if v >= 0 {
        v as nat
    } else {
        (-(v as int)) as nat
    }
}

/// A plain unsigned integer field on the wire.
pub open spec fn nat_json(n: nat) -> Seq<char> {
    dec_digits(n)
}

/// A fixed-point decimal field on the wire: optional sign, the whole part
/// without leading zeroes, a point, and one to seven fraction digits with
/// no trailing zeroes.
pub open spec fn dec_json(v: i64) -> Seq<char> {
    (if v < 0 {
        "-"@
    } else {
        Seq::<char>::empty()
    }) + dec_digits(mag(v) / (DEC_SCALE as nat)) + "."@ + trim_zeros(
        pad_digits(mag(v) % (DEC_SCALE as nat), 7),
    )
}

/// A boolean field on the wire.
pub open spec fn bool_json(b: bool) -> Seq<char> {
    if b {
        "true"@
    } else {
        "false"@
    }
}

/// One parameter slot on the wire: `null` or a fixed-point decimal.
pub open spec fn param_json(p: ParamValue) -> Seq<char> {
    match p {
        ParamValue::Null => "null"@,
        ParamValue::Num(v) => dec_json(v),
    }
}

/// The pieces joined with commas, in order.
pub open spec fn comma_join(parts: Seq<Seq<char>>) -> Seq<char>
    decreases parts.len(),
{
    if parts.len() == 0 {
        Seq::empty()
    } else if parts.len() == 1 {
        parts[0]
    } else {
        comma_join(parts.drop_last()) + ","@ + parts.last()
    }
}

/// Append every character of `s`.
fn push_str_chars(out: &mut Vec<char>, s: &str)
    ensures
        final(out)@ == old(out)@ + s@,
{
    let n = s.unicode_len();
    for i in 0..n
        invariant
            n == s@.len(),
            out@ == old(out)@ + s@.take(i as int),
    {
        out.push(s.get_char(i));
        proof {
            assert(out@ =~= old(out)@ + s@.take(i + 1));
        }
    }
    proof {
        assert(old(out)@ + s@.take(n as int) =~= old(out)@ + s@);
    }
}

/// Append every character of `s`.
fn push_chars(out: &mut Vec<char>, s: &Vec<char>)
    ensures
        final(out)@ == old(out)@ + s@,
{
    for i in 0..s.len()
        invariant
            out@ == old(out)@ + s@.take(i as int),
    {
        out.push(s[i]);
        proof {
            assert(out@ =~= old(out)@ + s@.take(i + 1));
        }
    }
    proof {
        assert(old(out)@ + s@.take(s@.len() as int) =~= old(out)@ + s@);
    }
}

/// Append a boolean field.
fn push_bool(out: &mut Vec<char>, b: bool)
    ensures
        final(out)@ == old(out)@ + bool_json(b),
{
    if b {
        push_str_chars(out, "true");
    } else {
        push_str_chars(out, "false");
    }
}

/// Append the decimal digits of `n`, most significant first.
fn push_nat(out: &mut Vec<char>, n: u64)
    ensures
        final(out)@ == old(out)@ + dec_digits(n as nat),
    decreases n,
{
    if n >= 10 {
        push_nat(out, n / 10);
    }
    let d = ((n % 10) as u8 + 48) as char;
    out.push(d);
    proof {
        assert(out@ =~= old(out)@ + dec_digits(n as nat));
    }
}

/// Append the last `k` decimal digits of `n`, zero padded to `k` digits.
fn push_padded(out: &mut Vec<char>, n: u64, k: u64)
    requires
        k >= 1,
    ensures
        final(out)@ == old(out)@ + pad_digits(n as nat, k as nat),
    decreases k,
{
    if k > 1 {
        push_padded(out, n / 10, k - 1);
    }
    let d = ((n % 10) as u8 + 48) as char;
    out.push(d);
    proof {
        assert(pad_digits((n / 10) as nat, 0) =~= Seq::<char>::empty());
        assert(out@ =~= old(out)@ + pad_digits(n as nat, k as nat));
    }
}

/// Trimming keeps a sequence that already has no trailing zero (or only
/// one digit).
pub proof fn lemma_trim_done(n: nat, k: nat)
    requires
        k >= 1,
        k == 1 || n % 10 != 0,
    ensures
        trim_zeros(pad_digits(n, k)) == pad_digits(n, k),
{
    assert(pad_digits(n, k).len() == k) by {
        lemma_pad_len(n, k);
    }
    if k > 1 {
        assert(pad_digits(n, k).last() == digit_char((n % 10) as int));
        assert(digit_char((n % 10) as int) != '0');
    }
}

/// A padded digit string has exactly `k` digits.
pub proof fn lemma_pad_len(n: nat, k: nat)
    ensures
        pad_digits(n, k).len() == k,
    decreases k,
{
    if k > 0 {
        lemma_pad_len(n / 10, (k - 1) as nat);
    }
}

/// Dropping a trailing zero digit does not change the trimmed form.
pub proof fn lemma_trim_step(n: nat, k: nat)
    requires
        k >= 2,
        n % 10 == 0,
    ensures
        trim_zeros(pad_digits(n, k)) == trim_zeros(pad_digits(n / 10, (k - 1) as nat)),
{
    lemma_pad_len(n, k);
    assert(pad_digits(n, k).last() == digit_char(0));
    assert(pad_digits(n, k).drop_last() =~= pad_digits(n / 10, (k - 1) as nat));
}

/// Append a fixed-point decimal field.
fn push_dec(out: &mut Vec<char>, v: i64)
    ensures
        final(out)@ == old(out)@ + dec_json(v),
{
    if v < 0 {
        push_str_chars(out, "-");
    }
    let m: u64 = if v < 0 {
        (-(v as i128)) as u64
    } else {
        v as u64
    };
    proof {
        assert(m == mag(v));
    }
    push_nat(out, m / (DEC_SCALE as u64));
    push_str_chars(out, ".");
    let mut f: u64 = m % (DEC_SCALE as u64);
    let ghost frac = f as nat;
    let mut k: u64 = 7;
    while k > 1 && f % 10 == 0
        invariant
            1 <= k <= 7,
            trim_zeros(pad_digits(frac, 7)) == trim_zeros(pad_digits(f as nat, k as nat)),
        decreases k,
    {
        proof {
            lemma_trim_step(f as nat, k as nat);
        }
        f = f / 10;
        k = k - 1;
    }
    proof {
        lemma_trim_done(f as nat, k as nat);
    }
    push_padded(out, f, k);
    proof {
        assert(out@ =~= old(out)@ + dec_json(v));
    }
}

/// Append one parameter slot.
fn push_param(out: &mut Vec<char>, p: ParamValue)
    ensures
        final(out)@ == old(out)@ + param_json(p),
{
    match p {
        ParamValue::Null => push_str_chars(out, "null"),
        ParamValue::Num(v) => push_dec(out, v),
    }
}

/// Joining one more piece extends a comma-joined list by a comma (except
/// for the first piece) and the piece.
proof fn lemma_comma_join_step(parts: Seq<Seq<char>>, i: int)
    requires
        0 <= i < parts.len(),
    ensures
        comma_join(parts.take(i + 1)) == if i == 0 {
            parts[0]
        } else {
            comma_join(parts.take(i)) + ","@ + parts[i]
        },
{
    assert(parts.take(i + 1).drop_last() =~= parts.take(i));
    assert(parts.take(i + 1).last() == parts[i]);
    if i == 0 {
        assert(comma_join(parts.take(1)) == parts.take(1)[0]);
    }
}

/// A parameter array on the wire.
pub open spec fn params_json(params: Seq<ParamValue>) -> Seq<char> {
    comma_join(Seq::new(params.len(), |i: int| param_json(params[i])))
}

/// One mission item on the wire.
#[verifier::opaque]
pub open spec fn item_json(it: ItemModel) -> Seq<char> {
    "{\"type\":\"SimpleItem\",\"autoContinue\":"@ + bool_json(it.auto_continue)
        + ",\"command\":"@ + nat_json(it.command as nat) + ",\"doJumpId\":"@ + nat_json(
        it.sequence_index as nat,
    ) + ",\"frame\":"@ + nat_json(it.frame as nat) + ",\"params\":["@ + params_json(it.params)
        + "],\"Altitude\":"@ + dec_json(it.altitude) + ",\"AltitudeMode\":"@ + nat_json(
        it.altitude_mode as nat,
    ) + ",\"AMSLAltAboveTerrain\":"@ + dec_json(it.amsl_alt_above_terrain) + "}"@
}

/// A latitude/longitude pair on the wire.
pub open spec fn latlon_json(v: LatLon) -> Seq<char> {
    "["@ + dec_json(v.latitude) + ","@ + dec_json(v.longitude) + "]"@
}

/// A latitude/longitude/altitude triple on the wire.
pub open spec fn latlonalt_json(v: LatLonAlt) -> Seq<char> {
    "["@ + dec_json(v.latitude) + ","@ + dec_json(v.longitude) + ","@ + dec_json(v.altitude)
        + "]"@
}

/// A circular geofence region on the wire.
#[verifier::opaque]
pub open spec fn circle_json(c: GeoFenceCircle) -> Seq<char> {
    "{\"circle\":{\"center\":["@ + dec_json(c.circle.center.latitude) + ","@ + dec_json(
        c.circle.center.longitude,
    ) + "],\"radius\":"@ + dec_json(c.circle.radius) + "},\"inclusion\":"@ + bool_json(
        c.inclusion,
    ) + ",\"version\":"@ + nat_json(c.version as nat) + "}"@
}

/// A polygonal geofence region on the wire.
#[verifier::opaque]
pub open spec fn polygon_json(p: GeoFencePolygonModel) -> Seq<char> {
    "{\"polygon\":["@ + comma_join(
        Seq::new(p.polygon.len(), |i: int| latlon_json(p.polygon[i])),
    ) + "],\"inclusion\":"@ + bool_json(p.inclusion) + ",\"version\":"@ + nat_json(
        p.version as nat,
    ) + "}"@
}

/// The geofence block on the wire.
pub open spec fn geofence_json(g: GeoFenceModel) -> Seq<char> {
    "{\"circles\":["@ + comma_join(Seq::new(g.circles.len(), |i: int| circle_json(g.circles[i])))
        + "],\"polygons\":["@ + comma_join(
        Seq::new(g.polygons.len(), |i: int| polygon_json(g.polygons[i])),
    ) + "],\"version\":"@ + nat_json(g.version as nat) + "}"@
}

/// The rally-points block on the wire.
pub open spec fn rally_json(r: RallyPointsModel) -> Seq<char> {
    "{\"points\":["@ + comma_join(Seq::new(r.points.len(), |i: int| latlonalt_json(r.points[i])))
        + "],\"version\":"@ + nat_json(r.version as nat) + "}"@
}

/// The mission block on the wire.
pub open spec fn mission_json(m: MissionModel) -> Seq<char> {
    "{\"cruiseSpeed\":"@ + nat_json(m.cruise_speed as nat) + ",\"firmwareType\":"@ + nat_json(
        m.firmware_type as nat,
    ) + ",\"globalPlanAltitudeMode\":"@ + nat_json(m.global_plan_altitude_mode as nat)
        + ",\"hoverSpeed\":"@ + nat_json(m.hover_speed as nat) + ",\"items\":["@ + comma_join(
        Seq::new(m.items.len(), |i: int| item_json(m.items[i])),
    ) + "],\"plannedHomePosition\":"@ + latlonalt_json(m.planned_home_position)
        + ",\"vehicleType\":"@ + nat_json(m.vehicle_type as nat) + ",\"version\":"@ + nat_json(
        m.version as nat,
    ) + "}"@
}

/// The whole mission-plan document on the wire.
pub open spec fn plan_json(p: PlanModel) -> Seq<char> {
    "{\"fileType\":\""@ + p.file_type + "\",\"geoFence\":"@ + geofence_json(p.geo_fence)
        + ",\"groundStation\":\""@ + p.ground_station + "\",\"mission\":"@ + mission_json(
        p.mission,
    ) + ",\"rallyPoints\":"@ + rally_json(p.rally_points) + ",\"version\":"@ + nat_json(
        p.version as nat,
    ) + "}"@
}

/// Append a comma-joined parameter array.
fn push_params_json(out: &mut Vec<char>, params: &Vec<ParamValue>)
    ensures
        final(out)@ == old(out)@ + params_json(params@),
{
    let ghost parts = Seq::new(params@.len(), |i: int| param_json(params@[i]));
    let ghost base = out@;
    for i in 0..params.len()
        invariant
            parts == Seq::new(params@.len(), |i: int| param_json(params@[i])),
            out@ == base + comma_join(parts.take(i as int)),
    {
        proof {
            lemma_comma_join_step(parts, i as int);
        }
        if i > 0 {
            push_str_chars(out, ",");
        }
        push_param(out, params[i]);
        proof {
            assert(out@ =~= base + comma_join(parts.take(i + 1)));
        }
    }
    proof {
        assert(parts.take(params@.len() as int) =~= parts);
    }
}

/// Append one mission item.
fn push_item_json(out: &mut Vec<char>, it: &MissionItem)
    ensures
        final(out)@ == old(out)@ + item_json(it@),
{
    push_str_chars(out, "{\"type\":\"SimpleItem\",\"autoContinue\":");
    push_bool(out, it.auto_continue);
    push_str_chars(out, ",\"command\":");
    push_nat(out, it.command as u64);
    push_str_chars(out, ",\"doJumpId\":");
    push_nat(out, it.sequence_index as u64);
    push_str_chars(out, ",\"frame\":");
    push_nat(out, it.frame as u64);
    push_str_chars(out, ",\"params\":[");
    push_params_json(out, &it.params);
    push_str_chars(out, "],\"Altitude\":");
    push_dec(out, it.altitude);
    push_str_chars(out, ",\"AltitudeMode\":");
    push_nat(out, it.altitude_mode as u64);
    push_str_chars(out, ",\"AMSLAltAboveTerrain\":");
    push_dec(out, it.amsl_alt_above_terrain);
    push_str_chars(out, "}");
    proof {
        reveal(item_json);
        assert(out@ =~= old(out)@ + item_json(it@));
    }
}

/// Append a latitude/longitude pair.
fn push_latlon_json(out: &mut Vec<char>, v: LatLon)
    ensures
        final(out)@ == old(out)@ + latlon_json(v),
{
    push_str_chars(out, "[");
    push_dec(out, v.latitude);
    push_str_chars(out, ",");
    push_dec(out, v.longitude);
    push_str_chars(out, "]");
    proof {
        assert(out@ =~= old(out)@ + latlon_json(v));
    }
}

/// Append a latitude/longitude/altitude triple.
fn push_latlonalt_json(out: &mut Vec<char>, v: LatLonAlt)
    ensures
        final(out)@ == old(out)@ + latlonalt_json(v),
{
    push_str_chars(out, "[");
    push_dec(out, v.latitude);
    push_str_chars(out, ",");
    push_dec(out, v.longitude);
    push_str_chars(out, ",");
    push_dec(out, v.altitude);
    push_str_chars(out, "]");
    proof {
        assert(out@ =~= old(out)@ + latlonalt_json(v));
    }
}

/// Append one circular geofence region.
fn push_circle_json(out: &mut Vec<char>, c: GeoFenceCircle)
    ensures
        final(out)@ == old(out)@ + circle_json(c),
{
    push_str_chars(out, "{\"circle\":{\"center\":[");
    push_dec(out, c.circle.center.latitude);
    push_str_chars(out, ",");
    push_dec(out, c.circle.center.longitude);
    push_str_chars(out, "],\"radius\":");
    push_dec(out, c.circle.radius);
    push_str_chars(out, "},\"inclusion\":");
    push_bool(out, c.inclusion);
    push_str_chars(out, ",\"version\":");
    push_nat(out, c.version as u64);
    push_str_chars(out, "}");
    proof {
        reveal(circle_json);
        assert(out@ =~= old(out)@ + circle_json(c));
    }
}

/// Append one polygonal geofence region.
fn push_polygon_json(out: &mut Vec<char>, p: &GeoFencePolygon)
    ensures
        final(out)@ == old(out)@ + polygon_json(p@),
{
    push_str_chars(out, "{\"polygon\":[");
    let ghost parts = Seq::new(p.polygon@.len(), |i: int| latlon_json(p.polygon@[i]));
    let ghost base = out@;
    for i in 0..p.polygon.len()
        invariant
            parts == Seq::new(p.polygon@.len(), |i: int| latlon_json(p.polygon@[i])),
            out@ == base + comma_join(parts.take(i as int)),
    {
        proof {
            lemma_comma_join_step(parts, i as int);
        }
        if i > 0 {
            push_str_chars(out, ",");
        }
        push_latlon_json(out, p.polygon[i]);
        proof {
            assert(out@ =~= base + comma_join(parts.take(i + 1)));
        }
    }
    proof {
        assert(parts.take(p.polygon@.len() as int) =~= parts);
    }
    push_str_chars(out, "],\"inclusion\":");
    push_bool(out, p.inclusion);
    push_str_chars(out, ",\"version\":");
    push_nat(out, p.version as u64);
    push_str_chars(out, "}");
    proof {
        reveal(polygon_json);
        assert(out@ =~= old(out)@ + polygon_json(p@));
    }
}

/// Append the geofence block.
fn push_geofence_json(out: &mut Vec<char>, g: &GeoFence)
    ensures
        final(out)@ == old(out)@ + geofence_json(g@),
{
    push_str_chars(out, "{\"circles\":[");
    let ghost circle_parts = Seq::new(g.circles@.len(), |i: int| circle_json(g.circles@[i]));
    let ghost base1 = out@;
    for i in 0..g.circles.len()
        invariant
            circle_parts == Seq::new(g.circles@.len(), |i: int| circle_json(g.circles@[i])),
            out@ == base1 + comma_join(circle_parts.take(i as int)),
    {
        proof {
            lemma_comma_join_step(circle_parts, i as int);
        }
        if i > 0 {
            push_str_chars(out, ",");
        }
        push_circle_json(out, g.circles[i]);
        proof {
            assert(out@ =~= base1 + comma_join(circle_parts.take(i + 1)));
        }
    }
    proof {
        assert(circle_parts.take(g.circles@.len() as int) =~= circle_parts);
    }
    push_str_chars(out, "],\"polygons\":[");
    let ghost polygon_parts = Seq::new(g@.polygons.len(), |i: int| polygon_json(g@.polygons[i]));
    let ghost base2 = out@;
    for i in 0..g.polygons.len()
        invariant
            polygon_parts == Seq::new(g@.polygons.len(), |i: int| polygon_json(g@.polygons[i])),
            g@.polygons.len() == g.polygons@.len(),
            forall|j: int| 0 <= j < g.polygons@.len() ==> g@.polygons[j] == g.polygons@[j]@,
            out@ == base2 + comma_join(polygon_parts.take(i as int)),
    {
        proof {
            lemma_comma_join_step(polygon_parts, i as int);
        }
        if i > 0 {
            push_str_chars(out, ",");
        }
        push_polygon_json(out, &g.polygons[i]);
        proof {
            assert(out@ =~= base2 + comma_join(polygon_parts.take(i + 1)));
        }
    }
    proof {
        assert(polygon_parts.take(g@.polygons.len() as int) =~= polygon_parts);
    }
    push_str_chars(out, "],\"version\":");
    push_nat(out, g.version as u64);
    push_str_chars(out, "}");
    proof {
        assert(out@ =~= old(out)@ + geofence_json(g@));
    }
}

/// Append the rally-points block.
fn push_rally_json(out: &mut Vec<char>, r: &RallyPoints)
    ensures
        final(out)@ == old(out)@ + rally_json(r@),
{
    push_str_chars(out, "{\"points\":[");
    let ghost parts = Seq::new(r.points@.len(), |i: int| latlonalt_json(r.points@[i]));
    let ghost base = out@;
    for i in 0..r.points.len()
        invariant
            parts == Seq::new(r.points@.len(), |i: int| latlonalt_json(r.points@[i])),
            out@ == base + comma_join(parts.take(i as int)),
    {
        proof {
            lemma_comma_join_step(parts, i as int);
        }
        if i > 0 {
            push_str_chars(out, ",");
        }
        push_latlonalt_json(out, r.points[i]);
        proof {
            assert(out@ =~= base + comma_join(parts.take(i + 1)));
        }
    }
    proof {
        assert(parts.take(r.points@.len() as int) =~= parts);
    }
    push_str_chars(out, "],\"version\":");
    push_nat(out, r.version as u64);
    push_str_chars(out, "}");
    proof {
        assert(out@ =~= old(out)@ + rally_json(r@));
    }
}

/// Append the mission block.
#[verifier::rlimit(100)]
fn push_mission_json(out: &mut Vec<char>, m: &Mission)
    ensures
        final(out)@ == old(out)@ + mission_json(m@),
{
    push_str_chars(out, "{\"cruiseSpeed\":");
    push_nat(out, m.cruise_speed as u64);
    push_str_chars(out, ",\"firmwareType\":");
    push_nat(out, m.firmware_type as u64);
    push_str_chars(out, ",\"globalPlanAltitudeMode\":");
    push_nat(out, m.global_plan_altitude_mode as u64);
    push_str_chars(out, ",\"hoverSpeed\":");
    push_nat(out, m.hover_speed as u64);
    push_str_chars(out, ",\"items\":[");
    let ghost parts = Seq::new(m@.items.len(), |i: int| item_json(m@.items[i]));
    let ghost base = out@;
    for i in 0..m.items.len()
        invariant
            parts == Seq::new(m@.items.len(), |i: int| item_json(m@.items[i])),
            m@.items.len() == m.items@.len(),
            forall|j: int| 0 <= j < m.items@.len() ==> m@.items[j] == m.items@[j]@,
            out@ == base + comma_join(parts.take(i as int)),
    {
        proof {
            lemma_comma_join_step(parts, i as int);
        }
        if i > 0 {
            push_str_chars(out, ",");
        }
        push_item_json(out, &m.items[i]);
        proof {
            assert(out@ =~= base + comma_join(parts.take(i + 1)));
        }
    }
    proof {
        assert(parts.take(m@.items.len() as int) =~= parts);
    }
    push_str_chars(out, "],\"plannedHomePosition\":");
    push_latlonalt_json(out, m.planned_home_position);
    push_str_chars(out, ",\"vehicleType\":");
    push_nat(out, m.vehicle_type as u64);
    push_str_chars(out, ",\"version\":");
    push_nat(out, m.version as u64);
    push_str_chars(out, "}");
    proof {
        assert(out@ =~= old(out)@ + mission_json(m@));
    }
}

impl Plan {
    /// Render the document to its exact wire format.
    pub fn to_json(&self) -> (r: Vec<char>)
        ensures
            r@ == plan_json(self@),
    {
        let mut out: Vec<char> = Vec::new();
        push_str_chars(&mut out, "{\"fileType\":\"");
        push_chars(&mut out, &self.file_type);
        push_str_chars(&mut out, "\",\"geoFence\":");
        push_geofence_json(&mut out, &self.geo_fence);
        push_str_chars(&mut out, ",\"groundStation\":\"");
        push_chars(&mut out, &self.ground_station);
        push_str_chars(&mut out, "\",\"mission\":");
        push_mission_json(&mut out, &self.mission);
        push_str_chars(&mut out, ",\"rallyPoints\":");
        push_rally_json(&mut out, &self.rally_points);
        push_str_chars(&mut out, ",\"version\":");
        push_nat(&mut out, self.version as u64);
        push_str_chars(&mut out, "}");
        proof {
            assert(out@ =~= plan_json(self@));
        }
        out
    }
}

} // verus!
