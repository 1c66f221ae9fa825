use vstd::prelude::*;

use crate::error::{BotError, GridPair};
use crate::weather::{cached_location, Model, Station};
use crate::zoned::DateTimeZoned;

verus! {

/// The header fields of one gridded submessage that selecting the 2 m temperature reads.
/// A field the submessage does not carry is `None`.
#[derive(Clone, Copy, Debug, PartialEq, Eq, Structural)]
pub struct SubmessageInfo {
    pub discipline: u8,
    pub parameter_category: Option<u8>,
    pub parameter_number: Option<u8>,
    pub surface_type: Option<u8>,
    pub scaled_value: Option<i32>,
}

/// Whether a submessage holds the temperature 2 m above ground: meteorological discipline 0,
/// category 0, parameter 0, first fixed surface of type 103 at scaled value 2.
pub open spec fn is_two_metre_temperature(m: SubmessageInfo) -> bool {
    &&& m.discipline == 0
    &&& m.parameter_category == Some(0u8)
    &&& m.parameter_number == Some(0u8)
    &&& m.surface_type == Some(103u8)
    &&& m.scaled_value == Some(2i32)
}

impl SubmessageInfo {
    /// Whether this submessage holds the temperature 2 m above ground.
    pub fn is_target(&self) -> (r: bool)
        ensures
            r == is_two_metre_temperature(*self),
    {
        self.discipline == 0 && match (
            self.parameter_category,
            self.parameter_number,
            self.surface_type,
            self.scaled_value,
        ) {
            (Some(c), Some(n), Some(t), Some(v)) => c == 0 && n == 0 && t == 103 && v == 2,
            _ => false,
        }
    }
}

/// The position of the first submessage that holds the 2 m temperature; `NoTempSubmessage`
/// when none does.
pub fn find_message(messages: &Vec<SubmessageInfo>) -> (r: Result<usize, BotError>)
    ensures
        r matches Ok(i) ==> i < messages@.len() && is_two_metre_temperature(messages@[i as int])
            && forall|k: int| 0 <= k < i ==> !is_two_metre_temperature(#[trigger] messages@[k]),
        r is Err <==> forall|k: int|
            0 <= k < messages@.len() ==> !is_two_metre_temperature(#[trigger] messages@[k]),
        r matches Err(e) ==> e == BotError::NoTempSubmessage,
{
    let mut i: usize = 0;
    while i < messages.len()
        invariant
            i <= messages@.len(),
            forall|k: int| 0 <= k < i ==> !is_two_metre_temperature(#[trigger] messages@[k]),
        decreases messages@.len() - i,
    {
        if messages[i].is_target() {
            return Ok(i);
        }
        i = i + 1;
    }
    Err(BotError::NoTempSubmessage)
}

/// Fails with `ModelGridChanged` when the report's grid shape is not the one the model's cached
/// cell was computed on.
pub fn check_grid_shape(model: Model, station: Station, shape: (usize, usize)) -> (r: Result<(), BotError>)
    ensures
        shape == cached_location(model, station).1 <==> r is Ok,
        r matches Err(e) ==> e == (BotError::ModelGridChanged {
            expected: GridPair {
                first: cached_location(model, station).1.0,
                second: cached_location(model, station).1.1,
            },
            actual: GridPair { first: shape.0, second: shape.1 },
        }),
{
    let (_, (nx, ny)) = model.computed_grid_location_and_info(station);
    if shape.0 != nx || shape.1 != ny {
        return Err(BotError::ModelGridChanged {
            expected: GridPair { first: nx, second: ny },
            actual: GridPair { first: shape.0, second: shape.1 },
        });
    }
    Ok(())
}

/// The position, in row-major order, of the station's cached cell `(i, j)`: `nx * j + i`.
/// Fails with `ModelGridChanged` when the report's grid shape differs from the cached one.
pub fn precomputed_index(model: Model, station: Station, shape: (usize, usize)) -> (r: Result<usize, BotError>)
    ensures
        shape == cached_location(model, station).1 <==> r is Ok,
        r matches Ok(idx) ==> idx == shape.0 * cached_location(model, station).0.1
            + cached_location(model, station).0.0,
        r matches Err(e) ==> e == (BotError::ModelGridChanged {
            expected: GridPair {
                first: cached_location(model, station).1.0,
                second: cached_location(model, station).1.1,
            },
            actual: GridPair { first: shape.0, second: shape.1 },
        }),
{
    check_grid_shape(model, station, shape)?;
    let ((i, j), _) = model.computed_grid_location_and_info(station);
    Ok(shape.0 * j + i)
}

/// Checks a cell found by searching the grid against the model's cached one: fails with
/// `ModelGridChanged` when the grid shape differs, and with `ModelCacheStale` when the cells
/// differ, however valid the data.
pub fn check_computed_cell(model: Model, station: Station, shape: (usize, usize), computed: (usize, usize)) -> (r: Result<(), BotError>)
    ensures
        r is Ok <==> shape == cached_location(model, station).1 && computed == cached_location(
            model,
            station,
        ).0,
        shape != cached_location(model, station).1 ==> r == Err::<(), BotError>(
            BotError::ModelGridChanged {
                expected: GridPair {
                    first: cached_location(model, station).1.0,
                    second: cached_location(model, station).1.1,
                },
                actual: GridPair { first: shape.0, second: shape.1 },
            },
        ),
        shape == cached_location(model, station).1 && computed != cached_location(model, station).0
            ==> r == Err::<(), BotError>(
            BotError::ModelCacheStale {
                expected: GridPair {
                    first: cached_location(model, station).0.0,
                    second: cached_location(model, station).0.1,
                },
                actual: GridPair { first: computed.0, second: computed.1 },
            },
        ),
{
    check_grid_shape(model, station, shape)?;
    let ((i, j), _) = model.computed_grid_location_and_info(station);
    if computed.0 != i || computed.1 != j {
        return Err(BotError::ModelCacheStale {
            expected: GridPair { first: i, second: j },
            actual: GridPair { first: computed.0, second: computed.1 },
        });
    }
    Ok(())
}

/// The instant a forecast is for: the run's timestamp plus the lead time in hours, in the run's
/// zone. Fails with `InstantInvalid` when that instant does not fit.
pub fn forecast_instant(ts: &DateTimeZoned, lead_time: usize) -> (r: Result<DateTimeZoned, BotError>)
    ensures
        r matches Ok(at) ==> at.timestamp == ts.timestamp + 3600 * lead_time && at.zone@
            == ts.zone@,
        r is Ok <==> lead_time <= i64::MAX && i64::MIN <= 3600 * lead_time <= i64::MAX && i64::MIN
            <= ts.timestamp + 3600 * lead_time <= i64::MAX,
        r matches Err(e) ==> e == BotError::InstantInvalid,
{
    if lead_time as u64 > i64::MAX as u64 {
        return Err(BotError::InstantInvalid);
    }
    match ts.plus_hours(lead_time as i64) {
        Some(at) => Ok(at),
        None => Err(BotError::InstantInvalid),
    }
}

} // verus!
