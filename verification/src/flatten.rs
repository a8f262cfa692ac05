//! The three entity flatteners: one tabular record per matching entity,
//! with explicit default substitution for absent optional sub-structures.
//!
//! The default policy is uniform: an absent byte-string field becomes the
//! empty string, an absent numeric field becomes `0.0` (bit pattern `0`),
//! and an absent nested structure defaults every field derived from it.

use vstd::prelude::*;

use crate::decode::{empty_position, empty_trip_descriptor, empty_vehicle_descriptor};
use crate::model::{
    entities_v, FeedEntityV, FeedMessage, PositionV, SummaryRow, SummaryRowV, TripDescriptorV,
    TripUpdateRow, TripUpdateRowV, VehicleDescriptorV, VehiclePositionRow, VehiclePositionRowV,
};
use crate::wire::copy_bytes;

verus! {

/// An absent byte string defaults to the empty string.
pub open spec fn bytes_or_empty(o: Option<Seq<u8>>) -> Seq<u8> {
    match o {
        Some(s) => s,
        None => Seq::empty(),
    }
}

/// An absent numeric field defaults to the bit pattern of `0.0`.
pub open spec fn bits_or_zero(o: Option<u32>) -> u32 {
    match o {
        Some(v) => v,
        None => 0,
    }
}

/// An absent trip descriptor defaults every field it would carry.
pub open spec fn td_or_empty(o: Option<TripDescriptorV>) -> TripDescriptorV {
    match o {
        Some(t) => t,
        None => empty_trip_descriptor(),
    }
}

/// An absent vehicle descriptor defaults every field it would carry.
pub open spec fn vd_or_empty(o: Option<VehicleDescriptorV>) -> VehicleDescriptorV {
    match o {
        Some(v) => v,
        None => empty_vehicle_descriptor(),
    }
}

/// An absent position defaults every field it would carry.
pub open spec fn pos_or_empty(o: Option<PositionV>) -> PositionV {
    match o {
        Some(p) => p,
        None => empty_position(),
    }
}

/// The summary record of one entity: its id and three presence flags.
pub open spec fn summary_row_of(e: FeedEntityV) -> SummaryRowV {
    SummaryRowV {
        entity_id: bytes_or_empty(e.id),
        has_trip_update: e.trip_update is Some,
        has_vehicle_position: e.vehicle is Some,
        has_alert: e.has_alert,
    }
}

/// The summary table: one record per entity, no filtering.
pub open spec fn summary_rows(es: Seq<FeedEntityV>) -> Seq<SummaryRowV>
    decreases es.len(),
{
    if es.len() == 0 {
        Seq::empty()
    } else {
        summary_rows(es.drop_last()).push(summary_row_of(es.last()))
    }
}

/// The trip-update record of one entity carrying a trip update.
pub open spec fn trip_update_row_of(e: FeedEntityV) -> TripUpdateRowV
    recommends
        e.trip_update is Some,
{
    let tu = e.trip_update->Some_0;
    let td = td_or_empty(tu.trip);
    TripUpdateRowV {
        entity_id: bytes_or_empty(e.id),
        trip_id: bytes_or_empty(td.trip_id),
        route_id: bytes_or_empty(td.route_id),
        start_time: bytes_or_empty(td.start_time),
        start_date: bytes_or_empty(td.start_date),
        num_stop_updates: tu.stop_time_update_count,
    }
}

/// The trip-update table: one record per entity whose trip update is
/// present; entities without one contribute nothing.
pub open spec fn trip_update_rows(es: Seq<FeedEntityV>) -> Seq<TripUpdateRowV>
    decreases es.len(),
{
    if es.len() == 0 {
        Seq::empty()
    } else {
        let rest = trip_update_rows(es.drop_last());
        if es.last().trip_update is Some {
            rest.push(trip_update_row_of(es.last()))
        } else {
            rest
        }
    }
}

/// The vehicle-position record of one entity carrying a vehicle position.
pub open spec fn vehicle_position_row_of(e: FeedEntityV) -> VehiclePositionRowV
    recommends
        e.vehicle is Some,
{
    let vp = e.vehicle->Some_0;
    let vd = vd_or_empty(vp.vehicle);
    let pos = pos_or_empty(vp.position);
    let td = td_or_empty(vp.trip);
    VehiclePositionRowV {
        entity_id: bytes_or_empty(e.id),
        vehicle_id: bytes_or_empty(vd.id),
        vehicle_label: bytes_or_empty(vd.label),
        latitude: bits_or_zero(pos.latitude),
        longitude: bits_or_zero(pos.longitude),
        bearing: bits_or_zero(pos.bearing),
        speed: bits_or_zero(pos.speed),
        trip_id: bytes_or_empty(td.trip_id),
        route_id: bytes_or_empty(td.route_id),
    }
}

/// The vehicle-position table: one record per entity whose vehicle
/// position is present; entities without one contribute nothing.
pub open spec fn vehicle_position_rows(es: Seq<FeedEntityV>) -> Seq<VehiclePositionRowV>
    decreases es.len(),
{
    if es.len() == 0 {
        Seq::empty()
    } else {
        let rest = vehicle_position_rows(es.drop_last());
        if es.last().vehicle is Some {
            rest.push(vehicle_position_row_of(es.last()))
        } else {
            rest
        }
    }
}

/// How many entities carry a trip update.
pub open spec fn count_trip_updates(es: Seq<FeedEntityV>) -> nat
    decreases es.len(),
{
    if es.len() == 0 {
        0
    } else {
        count_trip_updates(es.drop_last()) + if es.last().trip_update is Some {
            1nat
        } else {
            0nat
        }
    }
}

/// How many entities carry a vehicle position.
pub open spec fn count_vehicle_positions(es: Seq<FeedEntityV>) -> nat
    decreases es.len(),
{
    if es.len() == 0 {
        0
    } else {
        count_vehicle_positions(es.drop_last()) + if es.last().vehicle is Some {
            1nat
        } else {
            0nat
        }
    }
}

/// The summary table never drops a record: its row count equals the
/// entity count of the feed, for every entity list.
pub proof fn lemma_summary_row_count(es: Seq<FeedEntityV>)
    ensures
        summary_rows(es).len() == es.len(),
    decreases es.len(),
{
    if es.len() > 0 {
        lemma_summary_row_count(es.drop_last());
    }
}

/// The trip-update table's row count equals the number of entities whose
/// trip update is present, for every entity list.
pub proof fn lemma_trip_update_row_count(es: Seq<FeedEntityV>)
    ensures
        trip_update_rows(es).len() == count_trip_updates(es),
    decreases es.len(),
{
    if es.len() > 0 {
        lemma_trip_update_row_count(es.drop_last());
    }
}

/// The vehicle-position table's row count equals the number of entities
/// whose vehicle position is present, for every entity list.
pub proof fn lemma_vehicle_position_row_count(es: Seq<FeedEntityV>)
    ensures
        vehicle_position_rows(es).len() == count_vehicle_positions(es),
    decreases es.len(),
{
    if es.len() > 0 {
        lemma_vehicle_position_row_count(es.drop_last());
    }
}

/// When an entity's trip update carries no trip descriptor, all four
/// descriptor-derived columns are the empty string, and the stop-update
/// count is the trip update's own, untouched by the default substitution.
pub proof fn lemma_absent_descriptor_defaults(e: FeedEntityV)
    requires
        e.trip_update is Some,
        e.trip_update->Some_0.trip is None,
    ensures
        trip_update_row_of(e).trip_id == Seq::<u8>::empty(),
        trip_update_row_of(e).route_id == Seq::<u8>::empty(),
        trip_update_row_of(e).start_time == Seq::<u8>::empty(),
        trip_update_row_of(e).start_date == Seq::<u8>::empty(),
        trip_update_row_of(e).num_stop_updates == e.trip_update->Some_0.stop_time_update_count,
{
}

/// When an entity's vehicle position carries no position, all four numeric
/// columns are the bit pattern of `0.0`.
pub proof fn lemma_absent_position_defaults(e: FeedEntityV)
    requires
        e.vehicle is Some,
        e.vehicle->Some_0.position is None,
    ensures
        vehicle_position_row_of(e).latitude == 0,
        vehicle_position_row_of(e).longitude == 0,
        vehicle_position_row_of(e).bearing == 0,
        vehicle_position_row_of(e).speed == 0,
{
}

/// The view of a summary row list.
pub open spec fn summary_rows_v(rs: Seq<SummaryRow>) -> Seq<SummaryRowV> {
    rs.map_values(|r: SummaryRow| r@)
}

/// The view of a trip-update row list.
pub open spec fn trip_update_rows_v(rs: Seq<TripUpdateRow>) -> Seq<TripUpdateRowV> {
    rs.map_values(|r: TripUpdateRow| r@)
}

/// The view of a vehicle-position row list.
pub open spec fn vehicle_position_rows_v(rs: Seq<VehiclePositionRow>) -> Seq<
    VehiclePositionRowV,
> {
    rs.map_values(|r: VehiclePositionRow| r@)
}

/// A copy of an optional byte string, defaulted to the empty string.
fn bytes_field(o: &Option<Vec<u8>>) -> (r: Vec<u8>)
    ensures
        r@ == bytes_or_empty(crate::model::opt_view(*o)),
{
    match o {
        Some(v) => copy_bytes(v),
        None => Vec::new(),
    }
}

/// An optional bit pattern, defaulted to the bit pattern of `0.0`.
fn bits_field(o: &Option<u32>) -> (r: u32)
    ensures
        r == bits_or_zero(*o),
{
    match o {
        Some(v) => *v,
        None => 0,
    }
}

/// Flatten a feed into its summary table: exactly one record per entity,
/// in feed order.
pub fn flatten_summary(m: &FeedMessage) -> (rows: Vec<SummaryRow>)
    ensures
        summary_rows_v(rows@) == summary_rows(m@.entity),
        rows@.len() == m@.entity.len(),
{
    let ghost ev = m@.entity;
    let mut rows: Vec<SummaryRow> = Vec::new();
    let mut i: usize = 0;
    assert(summary_rows_v(rows@) =~= summary_rows(ev.take(0)));
    while i < m.entity.len()
        invariant
            i <= m.entity@.len(),
            ev == entities_v(m.entity@),
            summary_rows_v(rows@) == summary_rows(ev.take(i as int)),
        decreases m.entity@.len() - i,
    {
        let e = &m.entity[i];
        assert(ev[i as int] == e@);
        let row = SummaryRow {
            entity_id: bytes_field(&e.id),
            has_trip_update: e.trip_update.is_some(),
            has_vehicle_position: e.vehicle.is_some(),
            has_alert: e.has_alert,
        };
        proof {
            assert(row@ == summary_row_of(ev[i as int]));
            assert(ev.take(i + 1).drop_last() =~= ev.take(i as int));
            assert(ev.take(i + 1).last() == ev[i as int]);
            assert(summary_rows_v(rows@.push(row)) =~= summary_rows_v(rows@).push(row@));
        }
        rows.push(row);
        i = i + 1;
    }
    assert(ev.take(i as int) =~= ev);
    proof {
        lemma_summary_row_count(ev);
    }
    rows
}

/// Flatten a feed into its trip-update table: one record per entity whose
/// trip update is present, in feed order.
pub fn flatten_trip_updates(m: &FeedMessage) -> (rows: Vec<TripUpdateRow>)
    ensures
        trip_update_rows_v(rows@) == trip_update_rows(m@.entity),
        rows@.len() == count_trip_updates(m@.entity),
{
    let ghost ev = m@.entity;
    let mut rows: Vec<TripUpdateRow> = Vec::new();
    let mut i: usize = 0;
    assert(trip_update_rows_v(rows@) =~= trip_update_rows(ev.take(0)));
    while i < m.entity.len()
        invariant
            i <= m.entity@.len(),
            ev == entities_v(m.entity@),
            trip_update_rows_v(rows@) == trip_update_rows(ev.take(i as int)),
        decreases m.entity@.len() - i,
    {
        let e = &m.entity[i];
        assert(ev[i as int] == e@);
        proof {
            assert(ev.take(i + 1).drop_last() =~= ev.take(i as int));
            assert(ev.take(i + 1).last() == ev[i as int]);
        }
        match &e.trip_update {
            Some(tu) => {
                let (trip_id, route_id, start_time, start_date) = match &tu.trip {
                    Some(td) => (
                        bytes_field(&td.trip_id),
                        bytes_field(&td.route_id),
                        bytes_field(&td.start_time),
                        bytes_field(&td.start_date),
                    ),
                    None => (Vec::new(), Vec::new(), Vec::new(), Vec::new()),
                };
                let row = TripUpdateRow {
                    entity_id: bytes_field(&e.id),
                    trip_id,
                    route_id,
                    start_time,
                    start_date,
                    num_stop_updates: tu.stop_time_update_count,
                };
                proof {
                    assert(row@ == trip_update_row_of(ev[i as int]));
                    assert(trip_update_rows_v(rows@.push(row)) =~= trip_update_rows_v(
                        rows@,
                    ).push(row@));
                }
                rows.push(row);
            },
            None => {},
        }
        i = i + 1;
    }
    assert(ev.take(i as int) =~= ev);
    proof {
        lemma_trip_update_row_count(ev);
    }
    rows
}

/// Flatten a feed into its vehicle-position table: one record per entity
/// whose vehicle position is present, in feed order.
pub fn flatten_vehicle_positions(m: &FeedMessage) -> (rows: Vec<VehiclePositionRow>)
    ensures
        vehicle_position_rows_v(rows@) == vehicle_position_rows(m@.entity),
        rows@.len() == count_vehicle_positions(m@.entity),
{
    let ghost ev = m@.entity;
    let mut rows: Vec<VehiclePositionRow> = Vec::new();
    let mut i: usize = 0;
    assert(vehicle_position_rows_v(rows@) =~= vehicle_position_rows(ev.take(0)));
    while i < m.entity.len()
        invariant
            i <= m.entity@.len(),
            ev == entities_v(m.entity@),
            vehicle_position_rows_v(rows@) == vehicle_position_rows(ev.take(i as int)),
        decreases m.entity@.len() - i,
    {
        let e = &m.entity[i];
        assert(ev[i as int] == e@);
        proof {
            assert(ev.take(i + 1).drop_last() =~= ev.take(i as int));
            assert(ev.take(i + 1).last() == ev[i as int]);
        }
        match &e.vehicle {
            Some(vp) => {
                let (vehicle_id, vehicle_label) = match &vp.vehicle {
                    Some(vd) => (bytes_field(&vd.id), bytes_field(&vd.label)),
                    None => (Vec::new(), Vec::new()),
                };
                let (latitude, longitude, bearing, speed) = match &vp.position {
                    Some(p) => (
                        bits_field(&p.latitude),
                        bits_field(&p.longitude),
                        bits_field(&p.bearing),
                        bits_field(&p.speed),
                    ),
                    None => (0u32, 0u32, 0u32, 0u32),
                };
                let (trip_id, route_id) = match &vp.trip {
                    Some(td) => (bytes_field(&td.trip_id), bytes_field(&td.route_id)),
                    None => (Vec::new(), Vec::new()),
                };
                let row = VehiclePositionRow {
                    entity_id: bytes_field(&e.id),
                    vehicle_id,
                    vehicle_label,
                    latitude,
                    longitude,
                    bearing,
                    speed,
                    trip_id,
                    route_id,
                };
                proof {
                    assert(row@ == vehicle_position_row_of(ev[i as int]));
                    assert(vehicle_position_rows_v(rows@.push(row)) =~= vehicle_position_rows_v(
                        rows@,
                    ).push(row@));
                }
                rows.push(row);
            },
            None => {},
        }
        i = i + 1;
    }
    assert(ev.take(i as int) =~= ev);
    proof {
        lemma_vehicle_position_row_count(ev);
    }
    rows
}

} // verus!
