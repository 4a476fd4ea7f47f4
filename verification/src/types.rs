//! Core data model: geographic points, local map coordinates, city records,
//! guesses, scores, session states, and the error taxonomy.
//!
//! Coordinates are held in fixed-point integers so that every computation on
//! them is exact: a geographic point stores microdegrees (millionths of a
//! degree), a local point stores milliunits (thousandths of a scene unit).

use vstd::prelude::*;

verus! {

/// Westernmost supported longitude, in microdegrees.
pub const LON_MIN_MICRO: i64 = -180_000_000;

/// Easternmost supported longitude, in microdegrees.
pub const LON_MAX_MICRO: i64 = 180_000_000;

/// Southernmost supported latitude, in microdegrees. The projection is
/// calibrated to the band of the map it draws, so latitudes far outside it
/// are rejected at catalog construction.
pub const LAT_MIN_MICRO: i64 = 48_000_000;

/// Northernmost supported latitude, in microdegrees.
pub const LAT_MAX_MICRO: i64 = 53_000_000;

/// Largest magnitude a local coordinate may have, in milliunits. Distance
/// computations square coordinate differences; this cap keeps every
/// intermediate inside 64 bits.
pub const COORD_LIMIT_MILLI: i64 = 1_000_000_000;

/// A geographic position in degrees, held as microdegrees.
#[derive(Clone, Copy, Debug, PartialEq, Eq, Structural)]
pub struct GeoPoint {
    /// Longitude in millionths of a degree, positive east.
    pub lon_micro: i64,
    /// Latitude in millionths of a degree, positive north.
    pub lat_micro: i64,
}

/// A position in the flat scene space of the map, held as milliunits
/// (thousandths of a scene unit).
#[derive(Clone, Copy, Debug, PartialEq, Eq, Structural)]
pub struct LocalPoint {
    /// Horizontal scene coordinate in thousandths of a unit.
    pub x_milli: i64,
    /// Vertical scene coordinate in thousandths of a unit.
    pub y_milli: i64,
}

/// True when a geographic point lies in the band the projection supports.
pub open spec fn geo_in_domain(g: GeoPoint) -> bool {
    &&& LON_MIN_MICRO <= g.lon_micro <= LON_MAX_MICRO
    &&& LAT_MIN_MICRO <= g.lat_micro <= LAT_MAX_MICRO
}

/// True when a local point is small enough for exact distance arithmetic.
pub open spec fn local_in_bounds(p: LocalPoint) -> bool {
    &&& -COORD_LIMIT_MILLI <= p.x_milli <= COORD_LIMIT_MILLI
    &&& -COORD_LIMIT_MILLI <= p.y_milli <= COORD_LIMIT_MILLI
}

/// One city of the catalog: a display name and its place on the map.
#[derive(Debug)]
pub struct CityRecord {
    /// Display name shown to the player; never empty.
    pub name: String,
    /// Where the city sits in scene space.
    pub location: LocalPoint,
}

impl CityRecord {
    /// Validity of a record: a non-empty name and a location that distance
    /// arithmetic can handle.
    pub open spec fn wf(&self) -> bool {
        &&& self.name@.len() > 0
        &&& local_in_bounds(self.location)
    }
}

impl Clone for CityRecord {
    fn clone(&self) -> (r: Self)
        ensures
            r == *self,
    {
        CityRecord { name: self.name.clone(), location: self.location }
    }
}

/// A raw dataset record as the loading boundary hands it over: a default
/// name, optional localized names, and a geographic position.
#[derive(Debug)]
pub struct RawCity {
    /// Primary display name from the dataset.
    pub name_default: String,
    /// French name, preferred over the default when present.
    pub name_fr: Option<String>,
    /// Dutch name; carried with the record but not used by the current
    /// name-preference policy.
    pub name_nl: Option<String>,
    /// Longitude in microdegrees.
    pub lon_micro: i64,
    /// Latitude in microdegrees.
    pub lat_micro: i64,
}

impl RawCity {
    /// The geographic point of this record.
    pub open spec fn geo(&self) -> GeoPoint {
        GeoPoint { lon_micro: self.lon_micro, lat_micro: self.lat_micro }
    }
}

/// A player's answer for the active round: either a clicked location or a
/// typed city name.
#[derive(Debug)]
pub enum GuessType {
    /// A typed city name, matched case-insensitively after trimming.
    Name(String),
    /// A clicked position in scene space, scored by proximity.
    Location(LocalPoint),
}

/// True when a guess is small enough for exact scoring arithmetic; a typed
/// name is always acceptable.
pub open spec fn guess_in_bounds(g: GuessType) -> bool {
    match g {
        GuessType::Name(_) => true,
        GuessType::Location(p) => local_in_bounds(p),
    }
}

/// Accumulated points over a quiz session.
#[derive(Clone, Copy, Debug, PartialEq, Eq, Structural)]
pub struct Score {
    /// Points earned so far.
    pub total: u32,
    /// Points that were available so far: the per-round maximum times the
    /// number of completed rounds.
    pub max: u32,
}

/// Where a quiz session stands in its lifecycle.
#[derive(Clone, Copy, Debug, PartialEq, Eq, Structural)]
pub enum GameState {
    /// No round has been started yet.
    NotStarted,
    /// A target city is active and awaits a guess.
    InRound,
    /// The last guess was scored; the next round has not begun.
    RoundComplete,
    /// The round pool is exhausted; the session is over.
    SessionComplete,
}

/// Everything that can go wrong in the quiz core.
#[derive(Debug)]
pub enum GeoError {
    /// The dataset was empty or malformed; fatal to catalog construction.
    DataLoading(String),
    /// A round size of zero was requested at the start of a quiz.
    InvalidRoundSize,
    /// A guess was submitted while no round was in progress.
    NoActiveRound,
}

} // verus!
