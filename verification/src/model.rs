//! The decoded feed-message tree and the flat output records.
//!
//! String-valued feed fields are carried as byte strings (`Vec<u8>`), exactly
//! as they stand in the wire payload; the decoder admits them only when they
//! are well-formed UTF-8. Geographic and kinematic quantities
//! (latitude, longitude, bearing, speed) are single-precision values on the
//! wire; the flattener only moves or defaults them, so they are carried as
//! their IEEE-754 bit patterns (`u32`), where `0` is the bit pattern of the
//! default value `0.0`.

use vstd::prelude::*;

verus! {

/// A view of an optional sub-structure: the view of the value, if present.
pub open spec fn opt_view<T: View>(o: Option<T>) -> Option<T::V> {
    match o {
        Some(t) => Some(t@),
        None => None,
    }
}

/// Trip selector nested in trip updates and vehicle positions.
/// Every field is independently optional.
pub struct TripDescriptor {
    pub trip_id: Option<Vec<u8>>,
    pub route_id: Option<Vec<u8>>,
    pub start_time: Option<Vec<u8>>,
    pub start_date: Option<Vec<u8>>,
}

pub struct TripDescriptorV {
    pub trip_id: Option<Seq<u8>>,
    pub route_id: Option<Seq<u8>>,
    pub start_time: Option<Seq<u8>>,
    pub start_date: Option<Seq<u8>>,
}

impl View for TripDescriptor {
    type V = TripDescriptorV;

    open spec fn view(&self) -> TripDescriptorV {
        TripDescriptorV {
            trip_id: opt_view(self.trip_id),
            route_id: opt_view(self.route_id),
            start_time: opt_view(self.start_time),
            start_date: opt_view(self.start_date),
        }
    }
}

/// Real-time schedule deviation data for one trip. Of the stop-time-update
/// sequence only the count is retained: the flatteners extract nothing else.
pub struct TripUpdate {
    pub trip: Option<TripDescriptor>,
    pub stop_time_update_count: usize,
}

pub struct TripUpdateV {
    pub trip: Option<TripDescriptorV>,
    pub stop_time_update_count: nat,
}

impl View for TripUpdate {
    type V = TripUpdateV;

    open spec fn view(&self) -> TripUpdateV {
        TripUpdateV {
            trip: opt_view(self.trip),
            stop_time_update_count: self.stop_time_update_count as nat,
        }
    }
}

/// Identification of one vehicle. Every field is independently optional.
pub struct VehicleDescriptor {
    pub id: Option<Vec<u8>>,
    pub label: Option<Vec<u8>>,
}

pub struct VehicleDescriptorV {
    pub id: Option<Seq<u8>>,
    pub label: Option<Seq<u8>>,
}

impl View for VehicleDescriptor {
    type V = VehicleDescriptorV;

    open spec fn view(&self) -> VehicleDescriptorV {
        VehicleDescriptorV { id: opt_view(self.id), label: opt_view(self.label) }
    }
}

/// A geographic position; fields hold IEEE-754 single-precision bit patterns.
pub struct Position {
    pub latitude: Option<u32>,
    pub longitude: Option<u32>,
    pub bearing: Option<u32>,
    pub speed: Option<u32>,
}

pub struct PositionV {
    pub latitude: Option<u32>,
    pub longitude: Option<u32>,
    pub bearing: Option<u32>,
    pub speed: Option<u32>,
}

impl View for Position {
    type V = PositionV;

    open spec fn view(&self) -> PositionV {
        PositionV {
            latitude: self.latitude,
            longitude: self.longitude,
            bearing: self.bearing,
            speed: self.speed,
        }
    }
}

/// Real-time location data for one vehicle.
pub struct VehiclePosition {
    pub trip: Option<TripDescriptor>,
    pub vehicle: Option<VehicleDescriptor>,
    pub position: Option<Position>,
}

pub struct VehiclePositionV {
    pub trip: Option<TripDescriptorV>,
    pub vehicle: Option<VehicleDescriptorV>,
    pub position: Option<PositionV>,
}

impl View for VehiclePosition {
    type V = VehiclePositionV;

    open spec fn view(&self) -> VehiclePositionV {
        VehiclePositionV {
            trip: opt_view(self.trip),
            vehicle: opt_view(self.vehicle),
            position: opt_view(self.position),
        }
    }
}

/// One update record of a feed. The three payload variants are
/// independently optional and not mutually exclusive: an entity may carry
/// more than one of them, and that permissiveness is preserved here. Of an
/// alert only its presence is retained: the flatteners extract nothing else.
pub struct FeedEntity {
    pub id: Option<Vec<u8>>,
    pub trip_update: Option<TripUpdate>,
    pub vehicle: Option<VehiclePosition>,
    pub has_alert: bool,
}

pub struct FeedEntityV {
    pub id: Option<Seq<u8>>,
    pub trip_update: Option<TripUpdateV>,
    pub vehicle: Option<VehiclePositionV>,
    pub has_alert: bool,
}

impl View for FeedEntity {
    type V = FeedEntityV;

    open spec fn view(&self) -> FeedEntityV {
        FeedEntityV {
            id: opt_view(self.id),
            trip_update: opt_view(self.trip_update),
            vehicle: opt_view(self.vehicle),
            has_alert: self.has_alert,
        }
    }
}

/// The mandatory header of a feed message; only its mandatory version
/// marker is retained.
pub struct FeedHeader {
    pub gtfs_realtime_version: Vec<u8>,
}

pub struct FeedHeaderV {
    pub gtfs_realtime_version: Seq<u8>,
}

impl View for FeedHeader {
    type V = FeedHeaderV;

    open spec fn view(&self) -> FeedHeaderV {
        FeedHeaderV { gtfs_realtime_version: self.gtfs_realtime_version@ }
    }
}

/// The view of an entity list.
pub open spec fn entities_v(es: Seq<FeedEntity>) -> Seq<FeedEntityV> {
    es.map_values(|e: FeedEntity| e@)
}

/// The root decoded structure: a header and an ordered entity list.
/// Values of this type arise only from a successful decode.
pub struct FeedMessage {
    pub header: FeedHeader,
    pub entity: Vec<FeedEntity>,
}

pub struct FeedMessageV {
    pub header: FeedHeaderV,
    pub entity: Seq<FeedEntityV>,
}

impl View for FeedMessage {
    type V = FeedMessageV;

    open spec fn view(&self) -> FeedMessageV {
        FeedMessageV { header: self.header@, entity: entities_v(self.entity@) }
    }
}

/// One row of the summary table: one per entity, no filtering.
pub struct SummaryRow {
    pub entity_id: Vec<u8>,
    pub has_trip_update: bool,
    pub has_vehicle_position: bool,
    pub has_alert: bool,
}

pub struct SummaryRowV {
    pub entity_id: Seq<u8>,
    pub has_trip_update: bool,
    pub has_vehicle_position: bool,
    pub has_alert: bool,
}

impl View for SummaryRow {
    type V = SummaryRowV;

    open spec fn view(&self) -> SummaryRowV {
        SummaryRowV {
            entity_id: self.entity_id@,
            has_trip_update: self.has_trip_update,
            has_vehicle_position: self.has_vehicle_position,
            has_alert: self.has_alert,
        }
    }
}

/// One row of the trip-update table: one per entity carrying a trip update.
pub struct TripUpdateRow {
    pub entity_id: Vec<u8>,
    pub trip_id: Vec<u8>,
    pub route_id: Vec<u8>,
    pub start_time: Vec<u8>,
    pub start_date: Vec<u8>,
    pub num_stop_updates: usize,
}

pub struct TripUpdateRowV {
    pub entity_id: Seq<u8>,
    pub trip_id: Seq<u8>,
    pub route_id: Seq<u8>,
    pub start_time: Seq<u8>,
    pub start_date: Seq<u8>,
    pub num_stop_updates: nat,
}

impl View for TripUpdateRow {
    type V = TripUpdateRowV;

    open spec fn view(&self) -> TripUpdateRowV {
        TripUpdateRowV {
            entity_id: self.entity_id@,
            trip_id: self.trip_id@,
            route_id: self.route_id@,
            start_time: self.start_time@,
            start_date: self.start_date@,
            num_stop_updates: self.num_stop_updates as nat,
        }
    }
}

/// One row of the vehicle-position table: one per entity carrying a
/// vehicle position. The four numeric columns hold IEEE-754 single bits.
pub struct VehiclePositionRow {
    pub entity_id: Vec<u8>,
    pub vehicle_id: Vec<u8>,
    pub vehicle_label: Vec<u8>,
    pub latitude: u32,
    pub longitude: u32,
    pub bearing: u32,
    pub speed: u32,
    pub trip_id: Vec<u8>,
    pub route_id: Vec<u8>,
}

pub struct VehiclePositionRowV {
    pub entity_id: Seq<u8>,
    pub vehicle_id: Seq<u8>,
    pub vehicle_label: Seq<u8>,
    pub latitude: u32,
    pub longitude: u32,
    pub bearing: u32,
    pub speed: u32,
    pub trip_id: Seq<u8>,
    pub route_id: Seq<u8>,
}

impl View for VehiclePositionRow {
    type V = VehiclePositionRowV;

    open spec fn view(&self) -> VehiclePositionRowV {
        VehiclePositionRowV {
            entity_id: self.entity_id@,
            vehicle_id: self.vehicle_id@,
            vehicle_label: self.vehicle_label@,
            latitude: self.latitude,
            longitude: self.longitude,
            bearing: self.bearing,
            speed: self.speed,
            trip_id: self.trip_id@,
            route_id: self.route_id@,
        }
    }
}

} // verus!
