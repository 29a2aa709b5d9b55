//! The line layout that populated places and regions share.
use crate::line::{Column, Kind, opt, or_empty, req, required};
use vstd::prelude::*;

verus! {

/// Column of the identifier.
pub const COL_ID: usize = 0;

/// Column of the name.
pub const COL_NAME: usize = 1;

/// Column of the latitude.
pub const COL_LAT: usize = 4;

/// Column of the longitude.
pub const COL_LNG: usize = 5;

/// Column of the feature code.
pub const COL_FEATURE_CODE: usize = 7;

/// Column of the country code.
pub const COL_COUNTRY: usize = 8;

/// Column of the alternate country codes.
pub const COL_CC2: usize = 9;

/// Column of the code of the first-level administrative area.
pub const COL_ADMIN1: usize = 10;

/// Column of the code of the second-level administrative area.
pub const COL_ADMIN2: usize = 11;

/// Column of the population.
pub const COL_POPULATION: usize = 14;

/// The nineteen columns of a feature line: identifier, name, name in ASCII,
/// alternate names, latitude, longitude, feature class, feature code,
/// country code, alternate country codes, four administrative codes,
/// population, elevation, elevation model, time zone, date of change.
pub open spec fn feature_layout() -> Seq<Column> {
    seq![
        req(Kind::Whole64),
        req(Kind::Text),
        req(Kind::Text),
        opt(Kind::Text),
        opt(Kind::Fraction),
        opt(Kind::Fraction),
        opt(Kind::Text),
        opt(Kind::Text),
        opt(Kind::Text),
        opt(Kind::Text),
        opt(Kind::Text),
        opt(Kind::Text),
        opt(Kind::Text),
        opt(Kind::Text),
        opt(Kind::Whole64),
        opt(Kind::Whole64),
        opt(Kind::Whole64),
        opt(Kind::Text),
        opt(Kind::Text),
    ]
}

/// Builds the layout of a feature line.
pub fn feature_columns() -> (v: Vec<Column>)
    ensures
        v@ == feature_layout(),
{
    let mut v: Vec<Column> = Vec::with_capacity(19);
    v.push(required(Kind::Whole64));
    v.push(required(Kind::Text));
    v.push(required(Kind::Text));
    v.push(or_empty(Kind::Text));
    v.push(or_empty(Kind::Fraction));
    v.push(or_empty(Kind::Fraction));
    let mut i: usize = 6;
    while i < 14
        invariant
            6 <= i <= 14,
            v@.len() == i,
            v@.take(6) == feature_layout().take(6),
            forall|j: int| 6 <= j < i ==> v@[j] == opt(Kind::Text),
        decreases 14 - i,
    {
        v.push(or_empty(Kind::Text));
        i += 1;
    }
    v.push(or_empty(Kind::Whole64));
    v.push(or_empty(Kind::Whole64));
    v.push(or_empty(Kind::Whole64));
    v.push(or_empty(Kind::Text));
    v.push(or_empty(Kind::Text));
    assert(v@ == feature_layout()) by {
        assert forall|j: int| 0 <= j < 19 implies v@[j] == feature_layout()[j] by {
            if j < 6 {
                assert(feature_layout()[j] == feature_layout().take(6)[j]);
            }
        }
    }
    v
}

} // verus!
