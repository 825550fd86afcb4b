//! EPSG codes: reading one from a CRS's identifiers.
use vstd::prelude::*;
use crate::crs::{
    AuthorityId, CompoundCrs, Crs, GeodCrs, GeogCrs, Identifier, ProjectedCrs, VertCrs,
};
use crate::decimal::{saturate_i32, trunc};
use crate::model::{AuthorityIdV, CrsV, IdentifierV, ids_v};
use crate::text::str_eq;

verus! {

/// The EPSG code that an identifier gives: its numeric code, as the cast
/// `code as i32` makes it, when the authority is `EPSG`.
pub open spec fn epsg_of_id(id: IdentifierV) -> Option<i32> {
    if id.authority_name == "EPSG"@ {
        match id.authority_unique_id {
            AuthorityIdV::Number(d) => Some(saturate_i32(trunc(d)) as i32),
            AuthorityIdV::Text(_) => None,
        }
    } else {
        None
    }
}

/// The EPSG code of the first identifier that gives one.
pub open spec fn epsg_code_of(ids: Seq<IdentifierV>) -> Option<i32>
    decreases ids.len(),
{
    if ids.len() == 0 {
        None
    } else {
        match epsg_of_id(ids[0]) {
            Some(c) => Some(c),
            None => epsg_code_of(ids.skip(1)),
        }
    }
}

/// The EPSG code of a CRS: that of its own identifiers.
pub open spec fn crs_epsg_code(c: CrsV) -> Option<i32> {
    match c {
        CrsV::ProjectedCrs(x) => epsg_code_of(x.identifiers),
        CrsV::GeogCrs(x) => epsg_code_of(x.identifiers),
        CrsV::GeodCrs(x) => epsg_code_of(x.identifiers),
        CrsV::VertCrs(x) => epsg_code_of(x.identifiers),
        CrsV::CompoundCrs(x) => epsg_code_of(x.identifiers),
    }
}

/// The EPSG code of the first identifier in `ids` that gives one.
pub fn first_epsg_code(ids: &Vec<Identifier>) -> (r: Option<i32>)
    ensures
        r == epsg_code_of(ids_v(*ids)),
{
    let ghost xs = ids_v(*ids);
    let mut i: usize = 0;
    assert(xs.skip(0) =~= xs);
    while i < ids.len()
        invariant
            i <= ids@.len(),
            xs == ids_v(*ids),
            epsg_code_of(xs) == epsg_code_of(xs.skip(i as int)),
        decreases ids@.len() - i,
    {
        let id = &ids[i];
        proof {
            assert(xs.skip(i as int)[0] == id@);
            assert(xs.skip(i as int).skip(1) =~= xs.skip(i + 1));
        }
        if str_eq(id.authority_name.as_str(), "EPSG") {
            match &id.authority_unique_id {
                AuthorityId::Number(n) => {
                    return Some(n.to_i32_saturating());
                },
                AuthorityId::Text(_) => {},
            }
        }
        i = i + 1;
    }
    None
}

impl Crs {
    /// The EPSG code from this CRS's identifiers, if present.
    pub fn to_epsg(&self) -> (r: Option<i32>)
        ensures
            r == crs_epsg_code(self@),
    {
        match self {
            Crs::ProjectedCrs(c) => c.to_epsg(),
            Crs::GeogCrs(c) => c.to_epsg(),
            Crs::GeodCrs(c) => c.to_epsg(),
            Crs::VertCrs(c) => c.to_epsg(),
            Crs::CompoundCrs(c) => c.to_epsg(),
        }
    }
}

impl ProjectedCrs {
    /// The EPSG code from this CRS's identifiers, if present.
    pub fn to_epsg(&self) -> (r: Option<i32>)
        ensures
            r == epsg_code_of(self@.identifiers),
    {
        first_epsg_code(&self.identifiers)
    }
}

impl GeogCrs {
    /// The EPSG code from this CRS's identifiers, if present.
    pub fn to_epsg(&self) -> (r: Option<i32>)
        ensures
            r == epsg_code_of(self@.identifiers),
    {
        first_epsg_code(&self.identifiers)
    }
}

impl GeodCrs {
    /// The EPSG code from this CRS's identifiers, if present.
    pub fn to_epsg(&self) -> (r: Option<i32>)
        ensures
            r == epsg_code_of(self@.identifiers),
    {
        first_epsg_code(&self.identifiers)
    }
}

impl VertCrs {
    /// The EPSG code from this CRS's identifiers, if present.
    pub fn to_epsg(&self) -> (r: Option<i32>)
        ensures
            r == epsg_code_of(self@.identifiers),
    {
        first_epsg_code(&self.identifiers)
    }
}

impl CompoundCrs {
    /// The EPSG code from this CRS's identifiers, if present.
    pub fn to_epsg(&self) -> (r: Option<i32>)
        ensures
            r == epsg_code_of(self@.identifiers),
    {
        first_epsg_code(&self.identifiers)
    }
}

} // verus!
