use vstd::prelude::*;

verus! {

/// A weather station whose readings settle markets.
#[derive(Clone, Copy, Debug, PartialEq, Eq, Structural)]
pub enum Station {
    KNYC,
}

/// A numerical weather model whose forecasts are ingested.
#[derive(Clone, Copy, Debug, PartialEq, Eq, Structural)]
pub enum Model {
    HRRR,
}

/// How the decoder finds the station's grid cell.
#[derive(Clone, Copy, Debug, PartialEq, Eq, Structural)]
pub enum ComputeOptions {
    /// Search the whole grid for the nearest cell, and check it against the cached one.
    Compute,
    /// Use the model's cached cell directly.
    Precomputed,
}

/// The cached grid cell `(i, j)` of a station in a model's grid, and the grid shape `(nx, ny)`
/// it was computed on.
pub open spec fn cached_location(model: Model, station: Station) -> ((usize, usize), (usize, usize)) {
    match (model, station) {
        (Model::HRRR, Station::KNYC) => ((1553, 698), (1799, 1059)),
    }
}

/// The longest lead time, in hours, that a model forecasts.
pub open spec fn model_max_runs(model: Model) -> usize {
    match model {
        Model::HRRR => 18,
    }
}

impl Station {
    /// The station's identifier.
    pub fn name(&self) -> (r: &'static str)
        ensures
            r@ == "KNYC"@,
    {
        match self {
            Station::KNYC => "KNYC",
        }
    }

    /// The IANA name of the station's time zone.
    pub fn timezone(&self) -> (r: &'static str)
        ensures
            r@ == "US/Eastern"@,
    {
        match self {
            Station::KNYC => "US/Eastern",
        }
    }

    /// The code of the weather office area that issues the station's reports.
    pub fn area_code(&self) -> (r: &'static str)
        ensures
            r@ == "NWS"@,
    {
        match self {
            Station::KNYC => "NWS",
        }
    }

    /// The city code under which the station's reports are issued.
    pub fn city(&self) -> (r: &'static str)
        ensures
            r@ == "NYC"@,
    {
        match self {
            Station::KNYC => "NYC",
        }
    }
}

impl Model {
    /// The model's name as written in upper case.
    pub fn name(&self) -> (r: &'static str)
        ensures
            r@ == "HRRR"@,
    {
        match self {
            Model::HRRR => "HRRR",
        }
    }

    /// The model's name as it appears in report file names.
    pub fn file_prefix(&self) -> (r: &'static str)
        ensures
            r@ == "hrrr"@,
    {
        match self {
            Model::HRRR => "hrrr",
        }
    }

    /// The cached grid cell `(i, j)` of `station` and the grid shape `(nx, ny)` it was computed
    /// on.
    pub fn computed_grid_location_and_info(&self, station: Station) -> (r: (
        (usize, usize),
        (usize, usize),
    ))
        ensures
            r == cached_location(*self, station),
    {
        match (self, station) {
            (Model::HRRR, Station::KNYC) => ((1553, 698), (1799, 1059)),
        }
    }

    /// The longest lead time, in hours, that the model forecasts.
    pub fn max_runs(&self) -> (r: usize)
        ensures
            r == model_max_runs(*self),
    {
        match self {
            Model::HRRR => 18,
        }
    }
}

} // verus!
