use vstd::prelude::*;

use crate::service::ServiceName;

verus! {

/// A pair of grid coordinates: a shape `(nx, ny)` or a cell `(i, j)`.
#[derive(Clone, Copy, Debug, PartialEq, Eq, Structural)]
pub struct GridPair {
    pub first: usize,
    pub second: usize,
}

/// Every failure the library reports, by component.
#[derive(Clone, Debug, PartialEq, Eq)]
pub enum BotError {
    /// A write or read stopped part-way through a frame.
    TransportIo,
    /// The peer closed the stream cleanly before a new frame began.
    TransportClosed,
    /// A frame's payload is not a well-formed event.
    TransportDecode,
    /// A frame announced a payload larger than the frame limit.
    TransportOversize { len: u64 },
    /// No publisher answered after every connection attempt.
    BusUnreachable { service: ServiceName, attempts: u32 },
    /// A time zone name that the zone database does not know.
    ZoneUnknown,
    /// An instant that has no calendar representation.
    InstantInvalid,
    /// The forecast report is not published yet.
    ReportUnavailable,
    /// The forecast server asked us to slow down.
    ReportRateLimited,
    /// The forecast server answered with an unexpected status.
    ReportHttpError { status: u16 },
    /// The report index lacks the temperature line or its successor, or an offset is not a number.
    IndexMalformed,
    /// The report holds no 2 m temperature submessage.
    NoTempSubmessage,
    /// The report's grid shape differs from the one the model's cached location was computed on.
    ModelGridChanged { expected: GridPair, actual: GridPair },
    /// The nearest grid cell differs from the model's cached location.
    ModelCacheStale { expected: GridPair, actual: GridPair },
    /// The cached grid cell lies outside the decoded values.
    IndexOutOfBounds,
    /// The gridded data could not be decoded.
    DecoderFailed,
    /// A supervised child exited unsuccessfully.
    ChildFailed { name: String, code: Option<i32> },
}

} // verus!
