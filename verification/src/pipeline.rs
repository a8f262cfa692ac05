//! The per-feed pipeline and the fetch aggregation.
//!
//! Each of the three feeds is processed independently: decode failure of
//! one payload yields that feed's `DecodeError` and touches nothing else,
//! so one malformed feed never aborts the others. Fetch aggregation is the
//! opposite: it is all-or-nothing, surfacing the first error in input
//! order, or every payload in input order.

use vstd::prelude::*;

use crate::decode::{decode_feed_message, spec_feed_message, DecodeError};
use crate::flatten::{
    flatten_summary, flatten_trip_updates, flatten_vehicle_positions, summary_rows,
    summary_rows_v, trip_update_rows, trip_update_rows_v, vehicle_position_rows,
    vehicle_position_rows_v,
};
use crate::model::{SummaryRow, TripUpdateRow, VehiclePositionRow};

verus! {

/// Decode one feed payload and flatten it into the summary table.
/// Succeeds with exactly the summary rows when the bytes decode, and
/// fails exactly when they do not.
pub fn summary_table(bytes: &Vec<u8>) -> (r: Result<Vec<SummaryRow>, DecodeError>)
    ensures
        match spec_feed_message(bytes@) {
            Some(m) => r matches Ok(rows) && summary_rows_v(rows@) == summary_rows(m.entity)
                && rows@.len() == m.entity.len(),
            None => r is Err,
        },
{
    match decode_feed_message(bytes) {
        Ok(m) => Ok(flatten_summary(&m)),
        Err(e) => Err(e),
    }
}

/// Decode one feed payload and flatten it into the trip-update table.
/// Succeeds with exactly the trip-update rows when the bytes decode, and
/// fails exactly when they do not.
pub fn trip_update_table(bytes: &Vec<u8>) -> (r: Result<Vec<TripUpdateRow>, DecodeError>)
    ensures
        match spec_feed_message(bytes@) {
            Some(m) => r matches Ok(rows) && trip_update_rows_v(rows@) == trip_update_rows(
                m.entity,
            ),
            None => r is Err,
        },
{
    match decode_feed_message(bytes) {
        Ok(m) => Ok(flatten_trip_updates(&m)),
        Err(e) => Err(e),
    }
}

/// Decode one feed payload and flatten it into the vehicle-position table.
/// Succeeds with exactly the vehicle-position rows when the bytes decode,
/// and fails exactly when they do not.
pub fn vehicle_position_table(bytes: &Vec<u8>) -> (r: Result<
    Vec<VehiclePositionRow>,
    DecodeError,
>)
    ensures
        match spec_feed_message(bytes@) {
            Some(m) => r matches Ok(rows) && vehicle_position_rows_v(rows@)
                == vehicle_position_rows(m.entity),
            None => r is Err,
        },
{
    match decode_feed_message(bytes) {
        Ok(m) => Ok(flatten_vehicle_positions(&m)),
        Err(e) => Err(e),
    }
}

/// The position of the first failed retrieval from `i` on; the length when
/// every one from `i` on succeeded.
pub open spec fn first_err_from<E>(rs: Seq<Result<Vec<u8>, E>>, i: int) -> int
    decreases rs.len() - i,
{
    if i < 0 || i >= rs.len() {
        rs.len() as int
    } else if rs[i] is Err {
        i
    } else {
        first_err_from(rs, i + 1)
    }
}

/// The position of the first failed retrieval; the length when all
/// succeeded.
pub open spec fn spec_first_err<E>(rs: Seq<Result<Vec<u8>, E>>) -> int {
    first_err_from(rs, 0)
}

/// Aggregate the results of the concurrent retrievals, fail-fast and
/// order-preserving: every payload in input order when all succeeded, else
/// the error of the first failed retrieval (in input order, not completion
/// order) and no partial results.
#[verifier::loop_isolation(false)]
pub fn collect_payloads<E>(results: Vec<Result<Vec<u8>, E>>) -> (r: Result<Vec<Vec<u8>>, E>)
    ensures
        (forall|k: int| 0 <= k < results@.len() ==> results@[k] is Ok) <==> r is Ok,
        r matches Ok(ps) ==> ps@.len() == results@.len() && (forall|k: int|
            0 <= k < results@.len() ==> (#[trigger] results@[k] matches Ok(v) && ps@[k]@ == v@)),
        r matches Err(e) ==> {
            let i = spec_first_err(results@);
            &&& 0 <= i < results@.len()
            &&& results@[i] matches Err(e0) && e == e0
        },
{
    let ghost orig = results@;
    let n = results.len();
    let mut rem = results;
    let mut j: usize = 0;
    while j < n
        invariant
            j <= n,
            n == rem@.len(),
            rem@ == orig,
            forall|k: int| 0 <= k < j ==> rem@[k] is Ok,
            first_err_from(orig, 0) == first_err_from(orig, j as int),
        decreases n - j,
    {
        match &rem[j] {
            Err(_) => {
                assert(orig[j as int] is Err);
                assert(first_err_from(orig, j as int) == j as int);
                let taken = rem.remove(j);
                match taken {
                    Err(e) => {
                        assert(orig[j as int] matches Err(e0) && e == e0);
                        return Err(e);
                    },
                    Ok(_) => {
                        return unreached();
                    },
                }
            },
            Ok(_) => {},
        }
        j = j + 1;
    }
    assert(first_err_from(orig, n as int) == n as int);
    let mut out: Vec<Vec<u8>> = Vec::new();
    while rem.len() > 0
        invariant
            out@.len() + rem@.len() == n == orig.len(),
            forall|k: int| 0 <= k < orig.len() ==> orig[k] is Ok,
            forall|k: int|
                0 <= k < rem@.len() ==> rem@[k] == orig[out@.len() + k],
            forall|k: int|
                0 <= k < out@.len() ==> (#[trigger] orig[k] matches Ok(v) && out@[k]@ == v@),
        decreases rem@.len(),
    {
        let taken = rem.remove(0);
        assert(taken == orig[out@.len() as int]);
        match taken {
            Ok(v) => {
                out.push(v);
            },
            Err(_) => {
                return unreached();
            },
        }
    }
    Ok(out)
}

} // verus!
