//! The city catalog: the immutable, non-empty set of known cities, built
//! once from raw dataset records by projecting each record's geographic
//! position and applying the name-preference policy (the French name when
//! present, otherwise the default name).

use vstd::prelude::*;
use vstd::string::StrSliceExecFns;

use crate::projection::{project, project_spec};
use crate::types::{
    geo_in_domain, CityRecord, GeoError, GeoPoint, RawCity, LAT_MAX_MICRO, LAT_MIN_MICRO,
    LON_MAX_MICRO, LON_MIN_MICRO,
};

verus! {

/// Largest number of records a catalog may hold. Keeps session score
/// arithmetic far from the integer limits.
pub const MAX_CATALOG_LEN: usize = 1_000_000;

/// The name a raw record is displayed under: the French name when present,
/// otherwise the default name.
pub open spec fn preferred_name_spec(r: RawCity) -> Seq<char> {
    match r.name_fr {
        Some(n) => n@,
        None => r.name_default@,
    }
}

/// A raw record the catalog accepts: coordinates in the supported band and a
/// non-empty preferred name.
pub open spec fn raw_valid(r: RawCity) -> bool {
    &&& geo_in_domain(r.geo())
    &&& preferred_name_spec(r).len() > 0
}

/// The immutable full set of known cities. Always non-empty; shared
/// read-only by every quiz session.
#[derive(Debug)]
pub struct CityCatalog {
    records: Vec<CityRecord>,
}

impl View for CityCatalog {
    type V = Seq<CityRecord>;

    closed spec fn view(&self) -> Seq<CityRecord> {
        self.records@
    }
}

impl CityCatalog {
    /// Validity of a catalog: non-empty, within the size cap, every record
    /// well-formed.
    pub open spec fn wf(&self) -> bool {
        &&& 0 < self@.len() <= MAX_CATALOG_LEN as int
        &&& forall|i: int| 0 <= i < self@.len() ==> (#[trigger] self@[i]).wf()
    }

    /// Number of cities in the catalog.
    pub fn len(&self) -> (n: usize)
        ensures
            n == self@.len(),
    {
        self.records.len()
    }

    /// The city at position `i`.
    pub fn get(&self, i: usize) -> (r: &CityRecord)
        requires
            i < self@.len(),
        ensures
            *r == self@[i as int],
    {
        &self.records[i]
    }
}

/// Build the catalog from raw dataset records, preserving input order:
/// project each record's position onto the map and pick its preferred name.
/// Fails exactly when the input is empty, oversized, or holds a record with
/// coordinates outside the supported band or an empty preferred name.
pub fn build_catalog(raw: &Vec<RawCity>) -> (r: Result<CityCatalog, GeoError>)
    ensures
        match r {
            Ok(c) => {
                &&& c.wf()
                &&& 0 < raw@.len() <= MAX_CATALOG_LEN as int
                &&& forall|i: int| 0 <= i < raw@.len() ==> raw_valid(#[trigger] raw@[i])
                &&& c@.len() == raw@.len()
                &&& forall|i: int|
                    0 <= i < raw@.len() ==> (#[trigger] c@[i]).name@ == preferred_name_spec(
                        raw@[i],
                    )
                &&& forall|i: int|
                    0 <= i < raw@.len() ==> (#[trigger] c@[i]).location == project_spec(
                        raw@[i].geo(),
                    )
            },
            Err(e) => {
                &&& e is DataLoading
                &&& (raw@.len() == 0 || raw@.len() > MAX_CATALOG_LEN as int || exists|i: int|
                    0 <= i < raw@.len() && !raw_valid(#[trigger] raw@[i]))
            },
        },
{
    if raw.len() == 0 {
        return Err(GeoError::DataLoading("dataset is empty".to_owned()));
    }
    if raw.len() > MAX_CATALOG_LEN {
        return Err(GeoError::DataLoading("dataset holds too many records".to_owned()));
    }
    let mut records: Vec<CityRecord> = Vec::new();
    let mut idx: usize = 0;
    while idx < raw.len()
        invariant
            idx <= raw@.len() <= MAX_CATALOG_LEN as int,
            records@.len() == idx,
            forall|i: int| 0 <= i < idx ==> raw_valid(#[trigger] raw@[i]),
            forall|i: int| 0 <= i < idx ==> (#[trigger] records@[i]).wf(),
            forall|i: int|
                0 <= i < idx ==> (#[trigger] records@[i]).name@ == preferred_name_spec(raw@[i]),
            forall|i: int|
                0 <= i < idx ==> (#[trigger] records@[i]).location == project_spec(raw@[i].geo()),
        decreases raw@.len() - idx,
    {
        let rc = &raw[idx];
        let lon_ok = LON_MIN_MICRO <= rc.lon_micro && rc.lon_micro <= LON_MAX_MICRO;
        let lat_ok = LAT_MIN_MICRO <= rc.lat_micro && rc.lat_micro <= LAT_MAX_MICRO;
        if !(lon_ok && lat_ok) {
            assert(!raw_valid(raw@[idx as int]));
            return Err(
                GeoError::DataLoading("record coordinates outside the supported band".to_owned()),
            );
        }
        let name: String = match &rc.name_fr {
            Some(nf) => nf.clone(),
            None => rc.name_default.clone(),
        };
        if name.as_str().unicode_len() == 0 {
            assert(!raw_valid(raw@[idx as int]));
            return Err(GeoError::DataLoading("record has an empty name".to_owned()));
        }
        let location = project(GeoPoint { lon_micro: rc.lon_micro, lat_micro: rc.lat_micro });
        records.push(CityRecord { name, location });
        idx += 1;
    }
    Ok(CityCatalog { records })
}

} // verus!
