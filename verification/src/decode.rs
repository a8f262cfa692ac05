//! Decoding of the feed-message tree from parsed field lists.
//!
//! Each message kind is decoded by a left fold over its field list: the
//! last occurrence of a scalar field wins, repeated message fields
//! accumulate in order, unknown field numbers are skipped, and a known
//! field carried with the wrong wire shape makes the whole payload
//! malformed, as does a string-valued field that is not well-formed UTF-8.
//! Decoding is all-or-nothing: a malformed nested payload fails the
//! enclosing message.

use vstd::prelude::*;

use crate::model::{
    FeedEntity, FeedEntityV, FeedHeader, FeedHeaderV, FeedMessage, FeedMessageV, Position,
    PositionV, TripDescriptor, TripDescriptorV, TripUpdate, TripUpdateV, VehicleDescriptor,
    VehicleDescriptorV, VehiclePosition, VehiclePositionV,
};
use crate::model::{entities_v, opt_view};
use crate::utf8::{utf8_ok, validate_utf8};
use crate::wire::{
    copy_bytes, fields_v, parse_fields, spec_fields, RawField, RawFieldV, WireValue, WireValueV,
};

verus! {

/// Decoding failed: the payload does not follow the feed schema.
#[derive(Debug)]
pub struct DecodeError {}

/// The trip descriptor with every field absent.
pub open spec fn empty_trip_descriptor() -> TripDescriptorV {
    TripDescriptorV { trip_id: None, route_id: None, start_time: None, start_date: None }
}

/// One field applied to a trip descriptor under construction.
pub open spec fn td_step(acc: TripDescriptorV, f: RawFieldV) -> Option<TripDescriptorV> {
    if f.num == 1 {
        match f.val {
            WireValueV::Bytes(s) => if utf8_ok(s) {
                Some(TripDescriptorV { trip_id: Some(s), ..acc })
            } else {
                None
            },
            _ => None,
        }
    } else if f.num == 2 {
        match f.val {
            WireValueV::Bytes(s) => if utf8_ok(s) {
                Some(TripDescriptorV { start_time: Some(s), ..acc })
            } else {
                None
            },
            _ => None,
        }
    } else if f.num == 3 {
        match f.val {
            WireValueV::Bytes(s) => if utf8_ok(s) {
                Some(TripDescriptorV { start_date: Some(s), ..acc })
            } else {
                None
            },
            _ => None,
        }
    } else if f.num == 5 {
        match f.val {
            WireValueV::Bytes(s) => if utf8_ok(s) {
                Some(TripDescriptorV { route_id: Some(s), ..acc })
            } else {
                None
            },
            _ => None,
        }
    } else {
        Some(acc)
    }
}

pub open spec fn td_fold(fs: Seq<RawFieldV>, i: int, acc: TripDescriptorV) -> Option<
    TripDescriptorV,
>
    decreases fs.len() - i,
{
    if i < 0 || i > fs.len() {
        None
    } else if i == fs.len() {
        Some(acc)
    } else {
        match td_step(acc, fs[i]) {
            None => None,
            Some(a) => td_fold(fs, i + 1, a),
        }
    }
}

/// A trip descriptor decoded from a nested payload.
pub open spec fn spec_trip_descriptor(b: Seq<u8>) -> Option<TripDescriptorV> {
    match spec_fields(b) {
        Some(fs) => td_fold(fs, 0, empty_trip_descriptor()),
        None => None,
    }
}

/// Decode a trip descriptor payload; equal to `spec_trip_descriptor`.
pub fn decode_trip_descriptor(b: &Vec<u8>) -> (r: Option<TripDescriptor>)
    ensures
        match r {
            Some(td) => spec_trip_descriptor(b@) == Some(td@),
            None => spec_trip_descriptor(b@) is None,
        },
{
    let fs = match parse_fields(b) {
        Some(fs) => fs,
        None => {
            return None;
        },
    };
    let ghost fsv = fields_v(fs@);
    let mut acc = TripDescriptor {
        trip_id: None,
        route_id: None,
        start_time: None,
        start_date: None,
    };
    let mut i: usize = 0;
    while i < fs.len()
        invariant
            i <= fs@.len(),
            fsv == fields_v(fs@),
            spec_fields(b@) == Some(fsv),
            td_fold(fsv, 0, empty_trip_descriptor()) == td_fold(fsv, i as int, acc@),
        decreases fs@.len() - i,
    {
        let ghost acc0 = acc@;
        let f = &fs[i];
        assert(fsv[i as int] == f@);
        if f.num == 1 {
            match &f.val {
                WireValue::Bytes(s) => {
                    if !validate_utf8(s) {
                        return None;
                    }
                    acc.trip_id = Some(copy_bytes(s));
                },
                _ => {
                    return None;
                },
            }
        } else if f.num == 2 {
            match &f.val {
                WireValue::Bytes(s) => {
                    if !validate_utf8(s) {
                        return None;
                    }
                    acc.start_time = Some(copy_bytes(s));
                },
                _ => {
                    return None;
                },
            }
        } else if f.num == 3 {
            match &f.val {
                WireValue::Bytes(s) => {
                    if !validate_utf8(s) {
                        return None;
                    }
                    acc.start_date = Some(copy_bytes(s));
                },
                _ => {
                    return None;
                },
            }
        } else if f.num == 5 {
            match &f.val {
                WireValue::Bytes(s) => {
                    if !validate_utf8(s) {
                        return None;
                    }
                    acc.route_id = Some(copy_bytes(s));
                },
                _ => {
                    return None;
                },
            }
        }
        assert(td_step(acc0, fsv[i as int]) == Some(acc@));
        i = i + 1;
    }
    Some(acc)
}

/// The trip update with no descriptor and no stop-time updates.
pub open spec fn empty_trip_update() -> TripUpdateV {
    TripUpdateV { trip: None, stop_time_update_count: 0 }
}

/// One field applied to a trip update under construction. A stop-time
/// update's payload must itself be a well-formed field list, but only its
/// presence is counted.
pub open spec fn tu_step(acc: TripUpdateV, f: RawFieldV) -> Option<TripUpdateV> {
    if f.num == 1 {
        match f.val {
            WireValueV::Bytes(s) => match spec_trip_descriptor(s) {
                Some(td) => Some(TripUpdateV { trip: Some(td), ..acc }),
                None => None,
            },
            _ => None,
        }
    } else if f.num == 2 {
        match f.val {
            WireValueV::Bytes(s) => if spec_fields(s) is Some {
                Some(
                    TripUpdateV {
                        stop_time_update_count: acc.stop_time_update_count + 1,
                        ..acc
                    },
                )
            } else {
                None
            },
            _ => None,
        }
    } else {
        Some(acc)
    }
}

pub open spec fn tu_fold(fs: Seq<RawFieldV>, i: int, acc: TripUpdateV) -> Option<TripUpdateV>
    decreases fs.len() - i,
{
    if i < 0 || i > fs.len() {
        None
    } else if i == fs.len() {
        Some(acc)
    } else {
        match tu_step(acc, fs[i]) {
            None => None,
            Some(a) => tu_fold(fs, i + 1, a),
        }
    }
}

/// A trip update decoded from a nested payload.
pub open spec fn spec_trip_update(b: Seq<u8>) -> Option<TripUpdateV> {
    match spec_fields(b) {
        Some(fs) => tu_fold(fs, 0, empty_trip_update()),
        None => None,
    }
}

/// Decode a trip update payload; equal to `spec_trip_update`.
pub fn decode_trip_update(b: &Vec<u8>) -> (r: Option<TripUpdate>)
    ensures
        match r {
            Some(tu) => spec_trip_update(b@) == Some(tu@),
            None => spec_trip_update(b@) is None,
        },
{
    let fs = match parse_fields(b) {
        Some(fs) => fs,
        None => {
            return None;
        },
    };
    let ghost fsv = fields_v(fs@);
    let mut acc = TripUpdate { trip: None, stop_time_update_count: 0 };
    let mut i: usize = 0;
    while i < fs.len()
        invariant
            i <= fs@.len(),
            fsv == fields_v(fs@),
            spec_fields(b@) == Some(fsv),
            acc.stop_time_update_count <= i,
            tu_fold(fsv, 0, empty_trip_update()) == tu_fold(fsv, i as int, acc@),
        decreases fs@.len() - i,
    {
        let ghost acc0 = acc@;
        let f = &fs[i];
        assert(fsv[i as int] == f@);
        if f.num == 1 {
            match &f.val {
                WireValue::Bytes(s) => match decode_trip_descriptor(s) {
                    Some(td) => {
                        acc.trip = Some(td);
                    },
                    None => {
                        return None;
                    },
                },
                _ => {
                    return None;
                },
            }
        } else if f.num == 2 {
            match &f.val {
                WireValue::Bytes(s) => match parse_fields(s) {
                    Some(_) => {
                        acc.stop_time_update_count = acc.stop_time_update_count + 1;
                    },
                    None => {
                        return None;
                    },
                },
                _ => {
                    return None;
                },
            }
        }
        assert(tu_step(acc0, fsv[i as int]) == Some(acc@));
        i = i + 1;
    }
    Some(acc)
}

/// The vehicle descriptor with every field absent.
pub open spec fn empty_vehicle_descriptor() -> VehicleDescriptorV {
    VehicleDescriptorV { id: None, label: None }
}

/// One field applied to a vehicle descriptor under construction.
pub open spec fn vd_step(acc: VehicleDescriptorV, f: RawFieldV) -> Option<VehicleDescriptorV> {
    if f.num == 1 {
        match f.val {
            WireValueV::Bytes(s) => if utf8_ok(s) {
                Some(VehicleDescriptorV { id: Some(s), ..acc })
            } else {
                None
            },
            _ => None,
        }
    } else if f.num == 2 {
        match f.val {
            WireValueV::Bytes(s) => if utf8_ok(s) {
                Some(VehicleDescriptorV { label: Some(s), ..acc })
            } else {
                None
            },
            _ => None,
        }
    } else {
        Some(acc)
    }
}

pub open spec fn vd_fold(fs: Seq<RawFieldV>, i: int, acc: VehicleDescriptorV) -> Option<
    VehicleDescriptorV,
>
    decreases fs.len() - i,
{
    if i < 0 || i > fs.len() {
        None
    } else if i == fs.len() {
        Some(acc)
    } else {
        match vd_step(acc, fs[i]) {
            None => None,
            Some(a) => vd_fold(fs, i + 1, a),
        }
    }
}

/// A vehicle descriptor decoded from a nested payload.
pub open spec fn spec_vehicle_descriptor(b: Seq<u8>) -> Option<VehicleDescriptorV> {
    match spec_fields(b) {
        Some(fs) => vd_fold(fs, 0, empty_vehicle_descriptor()),
        None => None,
    }
}

/// Decode a vehicle descriptor payload; equal to `spec_vehicle_descriptor`.
pub fn decode_vehicle_descriptor(b: &Vec<u8>) -> (r: Option<VehicleDescriptor>)
    ensures
        match r {
            Some(vd) => spec_vehicle_descriptor(b@) == Some(vd@),
            None => spec_vehicle_descriptor(b@) is None,
        },
{
    let fs = match parse_fields(b) {
        Some(fs) => fs,
        None => {
            return None;
        },
    };
    let ghost fsv = fields_v(fs@);
    let mut acc = VehicleDescriptor { id: None, label: None };
    let mut i: usize = 0;
    while i < fs.len()
        invariant
            i <= fs@.len(),
            fsv == fields_v(fs@),
            spec_fields(b@) == Some(fsv),
            vd_fold(fsv, 0, empty_vehicle_descriptor()) == vd_fold(fsv, i as int, acc@),
        decreases fs@.len() - i,
    {
        let ghost acc0 = acc@;
        let f = &fs[i];
        assert(fsv[i as int] == f@);
        if f.num == 1 {
            match &f.val {
                WireValue::Bytes(s) => {
                    if !validate_utf8(s) {
                        return None;
                    }
                    acc.id = Some(copy_bytes(s));
                },
                _ => {
                    return None;
                },
            }
        } else if f.num == 2 {
            match &f.val {
                WireValue::Bytes(s) => {
                    if !validate_utf8(s) {
                        return None;
                    }
                    acc.label = Some(copy_bytes(s));
                },
                _ => {
                    return None;
                },
            }
        }
        assert(vd_step(acc0, fsv[i as int]) == Some(acc@));
        i = i + 1;
    }
    Some(acc)
}

/// The position with every field absent.
pub open spec fn empty_position() -> PositionV {
    PositionV { latitude: None, longitude: None, bearing: None, speed: None }
}

/// One field applied to a position under construction; the numeric fields
/// are 32-bit fixed-width scalars carried as their bit patterns.
pub open spec fn pos_step(acc: PositionV, f: RawFieldV) -> Option<PositionV> {
    if f.num == 1 {
        match f.val {
            WireValueV::Fixed32(v) => Some(PositionV { latitude: Some(v), ..acc }),
            _ => None,
        }
    } else if f.num == 2 {
        match f.val {
            WireValueV::Fixed32(v) => Some(PositionV { longitude: Some(v), ..acc }),
            _ => None,
        }
    } else if f.num == 3 {
        match f.val {
            WireValueV::Fixed32(v) => Some(PositionV { bearing: Some(v), ..acc }),
            _ => None,
        }
    } else if f.num == 5 {
        match f.val {
            WireValueV::Fixed32(v) => Some(PositionV { speed: Some(v), ..acc }),
            _ => None,
        }
    } else {
        Some(acc)
    }
}

pub open spec fn pos_fold(fs: Seq<RawFieldV>, i: int, acc: PositionV) -> Option<PositionV>
    decreases fs.len() - i,
{
    if i < 0 || i > fs.len() {
        None
    } else if i == fs.len() {
        Some(acc)
    } else {
        match pos_step(acc, fs[i]) {
            None => None,
            Some(a) => pos_fold(fs, i + 1, a),
        }
    }
}

/// A position decoded from a nested payload.
pub open spec fn spec_position(b: Seq<u8>) -> Option<PositionV> {
    match spec_fields(b) {
        Some(fs) => pos_fold(fs, 0, empty_position()),
        None => None,
    }
}

/// Decode a position payload; equal to `spec_position`.
pub fn decode_position(b: &Vec<u8>) -> (r: Option<Position>)
    ensures
        match r {
            Some(p) => spec_position(b@) == Some(p@),
            None => spec_position(b@) is None,
        },
{
    let fs = match parse_fields(b) {
        Some(fs) => fs,
        None => {
            return None;
        },
    };
    let ghost fsv = fields_v(fs@);
    let mut acc = Position { latitude: None, longitude: None, bearing: None, speed: None };
    let mut i: usize = 0;
    while i < fs.len()
        invariant
            i <= fs@.len(),
            fsv == fields_v(fs@),
            spec_fields(b@) == Some(fsv),
            pos_fold(fsv, 0, empty_position()) == pos_fold(fsv, i as int, acc@),
        decreases fs@.len() - i,
    {
        let ghost acc0 = acc@;
        let f = &fs[i];
        assert(fsv[i as int] == f@);
        if f.num == 1 {
            match &f.val {
                WireValue::Fixed32(v) => {
                    acc.latitude = Some(*v);
                },
                _ => {
                    return None;
                },
            }
        } else if f.num == 2 {
            match &f.val {
                WireValue::Fixed32(v) => {
                    acc.longitude = Some(*v);
                },
                _ => {
                    return None;
                },
            }
        } else if f.num == 3 {
            match &f.val {
                WireValue::Fixed32(v) => {
                    acc.bearing = Some(*v);
                },
                _ => {
                    return None;
                },
            }
        } else if f.num == 5 {
            match &f.val {
                WireValue::Fixed32(v) => {
                    acc.speed = Some(*v);
                },
                _ => {
                    return None;
                },
            }
        }
        assert(pos_step(acc0, fsv[i as int]) == Some(acc@));
        i = i + 1;
    }
    Some(acc)
}

/// The vehicle position with every sub-structure absent.
pub open spec fn empty_vehicle_position() -> VehiclePositionV {
    VehiclePositionV { trip: None, vehicle: None, position: None }
}

/// One field applied to a vehicle position under construction.
pub open spec fn vp_step(acc: VehiclePositionV, f: RawFieldV) -> Option<VehiclePositionV> {
    if f.num == 1 {
        match f.val {
            WireValueV::Bytes(s) => match spec_trip_descriptor(s) {
                Some(td) => Some(VehiclePositionV { trip: Some(td), ..acc }),
                None => None,
            },
            _ => None,
        }
    } else if f.num == 2 {
        match f.val {
            WireValueV::Bytes(s) => match spec_position(s) {
                Some(p) => Some(VehiclePositionV { position: Some(p), ..acc }),
                None => None,
            },
            _ => None,
        }
    } else if f.num == 8 {
        match f.val {
            WireValueV::Bytes(s) => match spec_vehicle_descriptor(s) {
                Some(vd) => Some(VehiclePositionV { vehicle: Some(vd), ..acc }),
                None => None,
            },
            _ => None,
        }
    } else {
        Some(acc)
    }
}

pub open spec fn vp_fold(fs: Seq<RawFieldV>, i: int, acc: VehiclePositionV) -> Option<
    VehiclePositionV,
>
    decreases fs.len() - i,
{
    if i < 0 || i > fs.len() {
        None
    } else if i == fs.len() {
        Some(acc)
    } else {
        match vp_step(acc, fs[i]) {
            None => None,
            Some(a) => vp_fold(fs, i + 1, a),
        }
    }
}

/// A vehicle position decoded from a nested payload.
pub open spec fn spec_vehicle_position(b: Seq<u8>) -> Option<VehiclePositionV> {
    match spec_fields(b) {
        Some(fs) => vp_fold(fs, 0, empty_vehicle_position()),
        None => None,
    }
}

/// Decode a vehicle position payload; equal to `spec_vehicle_position`.
pub fn decode_vehicle_position(b: &Vec<u8>) -> (r: Option<VehiclePosition>)
    ensures
        match r {
            Some(vp) => spec_vehicle_position(b@) == Some(vp@),
            None => spec_vehicle_position(b@) is None,
        },
{
    let fs = match parse_fields(b) {
        Some(fs) => fs,
        None => {
            return None;
        },
    };
    let ghost fsv = fields_v(fs@);
    let mut acc = VehiclePosition { trip: None, vehicle: None, position: None };
    let mut i: usize = 0;
    while i < fs.len()
        invariant
            i <= fs@.len(),
            fsv == fields_v(fs@),
            spec_fields(b@) == Some(fsv),
            vp_fold(fsv, 0, empty_vehicle_position()) == vp_fold(fsv, i as int, acc@),
        decreases fs@.len() - i,
    {
        let ghost acc0 = acc@;
        let f = &fs[i];
        assert(fsv[i as int] == f@);
        if f.num == 1 {
            match &f.val {
                WireValue::Bytes(s) => match decode_trip_descriptor(s) {
                    Some(td) => {
                        acc.trip = Some(td);
                    },
                    None => {
                        return None;
                    },
                },
                _ => {
                    return None;
                },
            }
        } else if f.num == 2 {
            match &f.val {
                WireValue::Bytes(s) => match decode_position(s) {
                    Some(p) => {
                        acc.position = Some(p);
                    },
                    None => {
                        return None;
                    },
                },
                _ => {
                    return None;
                },
            }
        } else if f.num == 8 {
            match &f.val {
                WireValue::Bytes(s) => match decode_vehicle_descriptor(s) {
                    Some(vd) => {
                        acc.vehicle = Some(vd);
                    },
                    None => {
                        return None;
                    },
                },
                _ => {
                    return None;
                },
            }
        }
        assert(vp_step(acc0, fsv[i as int]) == Some(acc@));
        i = i + 1;
    }
    Some(acc)
}

/// The entity with no identifier and no payload variant.
pub open spec fn empty_entity() -> FeedEntityV {
    FeedEntityV { id: None, trip_update: None, vehicle: None, has_alert: false }
}

/// One field applied to an entity under construction. An alert's payload
/// must itself be a well-formed field list, but only its presence is
/// retained.
pub open spec fn entity_step(acc: FeedEntityV, f: RawFieldV) -> Option<FeedEntityV> {
    if f.num == 1 {
        match f.val {
            WireValueV::Bytes(s) => if utf8_ok(s) {
                Some(FeedEntityV { id: Some(s), ..acc })
            } else {
                None
            },
            _ => None,
        }
    } else if f.num == 3 {
        match f.val {
            WireValueV::Bytes(s) => match spec_trip_update(s) {
                Some(tu) => Some(FeedEntityV { trip_update: Some(tu), ..acc }),
                None => None,
            },
            _ => None,
        }
    } else if f.num == 4 {
        match f.val {
            WireValueV::Bytes(s) => match spec_vehicle_position(s) {
                Some(vp) => Some(FeedEntityV { vehicle: Some(vp), ..acc }),
                None => None,
            },
            _ => None,
        }
    } else if f.num == 5 {
        match f.val {
            WireValueV::Bytes(s) => if spec_fields(s) is Some {
                Some(FeedEntityV { has_alert: true, ..acc })
            } else {
                None
            },
            _ => None,
        }
    } else {
        Some(acc)
    }
}

pub open spec fn entity_fold(fs: Seq<RawFieldV>, i: int, acc: FeedEntityV) -> Option<FeedEntityV>
    decreases fs.len() - i,
{
    if i < 0 || i > fs.len() {
        None
    } else if i == fs.len() {
        Some(acc)
    } else {
        match entity_step(acc, fs[i]) {
            None => None,
            Some(a) => entity_fold(fs, i + 1, a),
        }
    }
}

/// An entity decoded from a nested payload.
pub open spec fn spec_feed_entity(b: Seq<u8>) -> Option<FeedEntityV> {
    match spec_fields(b) {
        Some(fs) => entity_fold(fs, 0, empty_entity()),
        None => None,
    }
}

/// Decode an entity payload; equal to `spec_feed_entity`.
pub fn decode_feed_entity(b: &Vec<u8>) -> (r: Option<FeedEntity>)
    ensures
        match r {
            Some(e) => spec_feed_entity(b@) == Some(e@),
            None => spec_feed_entity(b@) is None,
        },
{
    let fs = match parse_fields(b) {
        Some(fs) => fs,
        None => {
            return None;
        },
    };
    let ghost fsv = fields_v(fs@);
    let mut acc = FeedEntity { id: None, trip_update: None, vehicle: None, has_alert: false };
    let mut i: usize = 0;
    while i < fs.len()
        invariant
            i <= fs@.len(),
            fsv == fields_v(fs@),
            spec_fields(b@) == Some(fsv),
            entity_fold(fsv, 0, empty_entity()) == entity_fold(fsv, i as int, acc@),
        decreases fs@.len() - i,
    {
        let ghost acc0 = acc@;
        let f = &fs[i];
        assert(fsv[i as int] == f@);
        if f.num == 1 {
            match &f.val {
                WireValue::Bytes(s) => {
                    if !validate_utf8(s) {
                        return None;
                    }
                    acc.id = Some(copy_bytes(s));
                },
                _ => {
                    return None;
                },
            }
        } else if f.num == 3 {
            match &f.val {
                WireValue::Bytes(s) => match decode_trip_update(s) {
                    Some(tu) => {
                        acc.trip_update = Some(tu);
                    },
                    None => {
                        return None;
                    },
                },
                _ => {
                    return None;
                },
            }
        } else if f.num == 4 {
            match &f.val {
                WireValue::Bytes(s) => match decode_vehicle_position(s) {
                    Some(vp) => {
                        acc.vehicle = Some(vp);
                    },
                    None => {
                        return None;
                    },
                },
                _ => {
                    return None;
                },
            }
        } else if f.num == 5 {
            match &f.val {
                WireValue::Bytes(s) => match parse_fields(s) {
                    Some(_) => {
                        acc.has_alert = true;
                    },
                    None => {
                        return None;
                    },
                },
                _ => {
                    return None;
                },
            }
        }
        assert(entity_step(acc0, fsv[i as int]) == Some(acc@));
        i = i + 1;
    }
    Some(acc)
}

/// One field applied to a header under construction; only the mandatory
/// version marker is retained.
pub open spec fn hd_step(acc: Option<Seq<u8>>, f: RawFieldV) -> Option<Option<Seq<u8>>> {
    if f.num == 1 {
        match f.val {
            WireValueV::Bytes(s) => if utf8_ok(s) {
                Some(Some(s))
            } else {
                None
            },
            _ => None,
        }
    } else {
        Some(acc)
    }
}

pub open spec fn hd_fold(fs: Seq<RawFieldV>, i: int, acc: Option<Seq<u8>>) -> Option<
    Option<Seq<u8>>,
>
    decreases fs.len() - i,
{
    if i < 0 || i > fs.len() {
        None
    } else if i == fs.len() {
        Some(acc)
    } else {
        match hd_step(acc, fs[i]) {
            None => None,
            Some(a) => hd_fold(fs, i + 1, a),
        }
    }
}

/// A header decoded from a nested payload. The version marker is
/// mandatory: a header without it is malformed.
pub open spec fn spec_feed_header(b: Seq<u8>) -> Option<FeedHeaderV> {
    match spec_fields(b) {
        Some(fs) => match hd_fold(fs, 0, None) {
            Some(Some(v)) => Some(FeedHeaderV { gtfs_realtime_version: v }),
            _ => None,
        },
        None => None,
    }
}

/// Decode a header payload; equal to `spec_feed_header`.
pub fn decode_feed_header(b: &Vec<u8>) -> (r: Option<FeedHeader>)
    ensures
        match r {
            Some(h) => spec_feed_header(b@) == Some(h@),
            None => spec_feed_header(b@) is None,
        },
{
    let fs = match parse_fields(b) {
        Some(fs) => fs,
        None => {
            return None;
        },
    };
    let ghost fsv = fields_v(fs@);
    let mut acc: Option<Vec<u8>> = None;
    let mut i: usize = 0;
    while i < fs.len()
        invariant
            i <= fs@.len(),
            fsv == fields_v(fs@),
            spec_fields(b@) == Some(fsv),
            hd_fold(fsv, 0, None) == hd_fold(fsv, i as int, opt_view(acc)),
        decreases fs@.len() - i,
    {
        let ghost acc0 = opt_view(acc);
        let f = &fs[i];
        assert(fsv[i as int] == f@);
        if f.num == 1 {
            match &f.val {
                WireValue::Bytes(s) => {
                    if !validate_utf8(s) {
                        return None;
                    }
                    acc = Some(copy_bytes(s));
                },
                _ => {
                    return None;
                },
            }
        }
        assert(hd_step(acc0, fsv[i as int]) == Some(opt_view(acc)));
        i = i + 1;
    }
    match acc {
        Some(v) => Some(FeedHeader { gtfs_realtime_version: v }),
        None => None,
    }
}

/// A feed message under construction: the header seen so far and the
/// entities seen so far, in order.
pub struct FeedAccV {
    pub header: Option<FeedHeaderV>,
    pub entity: Seq<FeedEntityV>,
}

/// One field applied to a feed message under construction.
pub open spec fn fm_step(acc: FeedAccV, f: RawFieldV) -> Option<FeedAccV> {
    if f.num == 1 {
        match f.val {
            WireValueV::Bytes(s) => match spec_feed_header(s) {
                Some(h) => Some(FeedAccV { header: Some(h), ..acc }),
                None => None,
            },
            _ => None,
        }
    } else if f.num == 2 {
        match f.val {
            WireValueV::Bytes(s) => match spec_feed_entity(s) {
                Some(e) => Some(FeedAccV { entity: acc.entity.push(e), ..acc }),
                None => None,
            },
            _ => None,
        }
    } else {
        Some(acc)
    }
}

pub open spec fn fm_fold(fs: Seq<RawFieldV>, i: int, acc: FeedAccV) -> Option<FeedAccV>
    decreases fs.len() - i,
{
    if i < 0 || i > fs.len() {
        None
    } else if i == fs.len() {
        Some(acc)
    } else {
        match fm_step(acc, fs[i]) {
            None => None,
            Some(a) => fm_fold(fs, i + 1, a),
        }
    }
}

/// The feed message decoded from a whole payload. The header is mandatory:
/// a feed without one is malformed. This is the spec-level meaning of the
/// whole decoder.
pub open spec fn spec_feed_message(b: Seq<u8>) -> Option<FeedMessageV> {
    match spec_fields(b) {
        Some(fs) => match fm_fold(fs, 0, (FeedAccV { header: None, entity: Seq::empty() })) {
            Some(acc) => match acc.header {
                Some(h) => Some(FeedMessageV { header: h, entity: acc.entity }),
                None => None,
            },
            None => None,
        },
        None => None,
    }
}

/// Decode one whole feed payload: a `FeedMessage` exactly when
/// `spec_feed_message` accepts the bytes, a `DecodeError` exactly when it
/// does not. Decoding is pure and all-or-nothing.
pub fn decode_feed_message(b: &Vec<u8>) -> (r: Result<FeedMessage, DecodeError>)
    ensures
        match r {
            Ok(m) => spec_feed_message(b@) == Some(m@),
            Err(_) => spec_feed_message(b@) is None,
        },
{
    let fs = match parse_fields(b) {
        Some(fs) => fs,
        None => {
            return Err(DecodeError {});
        },
    };
    let ghost fsv = fields_v(fs@);
    let mut header: Option<FeedHeader> = None;
    let mut entity: Vec<FeedEntity> = Vec::new();
    let mut i: usize = 0;
    assert(entities_v(entity@) =~= Seq::<FeedEntityV>::empty());
    while i < fs.len()
        invariant
            i <= fs@.len(),
            fsv == fields_v(fs@),
            spec_fields(b@) == Some(fsv),
            fm_fold(fsv, 0, (FeedAccV { header: None, entity: Seq::empty() })) == fm_fold(
                fsv,
                i as int,
                (FeedAccV { header: opt_view(header), entity: entities_v(entity@) }),
            ),
        decreases fs@.len() - i,
    {
        let ghost acc0 = FeedAccV { header: opt_view(header), entity: entities_v(entity@) };
        let f = &fs[i];
        assert(fsv[i as int] == f@);
        if f.num == 1 {
            match &f.val {
                WireValue::Bytes(s) => match decode_feed_header(s) {
                    Some(h) => {
                        header = Some(h);
                    },
                    None => {
                        return Err(DecodeError {});
                    },
                },
                _ => {
                    return Err(DecodeError {});
                },
            }
        } else if f.num == 2 {
            match &f.val {
                WireValue::Bytes(s) => match decode_feed_entity(s) {
                    Some(e) => {
                        proof {
                            assert(entities_v(entity@.push(e)) =~= entities_v(entity@).push(e@));
                        }
                        entity.push(e);
                    },
                    None => {
                        return Err(DecodeError {});
                    },
                },
                _ => {
                    return Err(DecodeError {});
                },
            }
        }
        assert(fm_step(acc0, fsv[i as int]) == Some(
            (FeedAccV { header: opt_view(header), entity: entities_v(entity@) }),
        ));
        i = i + 1;
    }
    match header {
        Some(h) => Ok(FeedMessage { header: h, entity }),
        None => Err(DecodeError {}),
    }
}

} // verus!
