//! WKT2 datum nodes: reference frames, ensembles, ellipsoids, prime meridians
//! and the dynamic CRS attributes.
use vstd::prelude::*;
use crate::crs::{
    DatumEnsemble, DatumKeyword, DeformationModel, DynamicCrs, Ellipsoid, EnsembleMember,
    GeodeticReferenceFrame, Identifier, PrimeMeridian, VerticalReferenceFrame,
    VerticalReferenceFrameKeyword,
};
use crate::decimal::{Decimal, DecimalV};
use crate::error::{ParseError, ParseErrorV};
use crate::model::{
    DatumEnsembleV, DeformationModelV, DynamicCrsV, EllipsoidV, EnsembleMemberV,
    GeodeticReferenceFrameV, IdentifierV, PrimeMeridianV, VerticalReferenceFrameV, ids_v, opt_dec,
    opt_text,
};
use crate::text::{
    Parser, SRes, sp_at_close, sp_bracketed_node, sp_close, sp_item_start, sp_kw_number,
    sp_kw_quoted, sp_number, sp_open_among, sp_open_kw, sp_peek, sp_peek_kw, sp_quoted,
    sp_skip_ws, sp_ws_char_ws,
};
use crate::wkt2::parse_meta::{sp_id_node, sp_ids_items, sp_unit_ids_items};

verus! {

/// The optional parts of a reference frame: anchor, anchor epoch, identifiers.
pub type FrameRest = (Option<Seq<char>>, Option<DecimalV>, Seq<IdentifierV>);

/// The trailing items of a reference frame.
pub open spec fn sp_frame_items(s: Seq<char>, p: int, st: FrameRest) -> SRes<FrameRest>
    decreases s.len() - p,
{
    if p < 0 || p > s.len() {
        Err(ParseErrorV::UnexpectedEnd)
    } else if sp_at_close(s, p) {
        Ok((st, sp_skip_ws(s, p)))
    } else {
        match sp_item_start(s, p) {
            Err(e) => Err(e),
            Ok(q) => {
                let kw = sp_peek_kw(s, q);
                let step: SRes<FrameRest> = if kw == "ANCHOR"@ {
                    match sp_kw_quoted(s, q, "ANCHOR"@) {
                        Err(e) => Err(e),
                        Ok((a, q2)) => Ok(((Some(a), st.1, st.2), q2)),
                    }
                } else if kw == "ANCHOREPOCH"@ {
                    match sp_kw_number(s, q, "ANCHOREPOCH"@) {
                        Err(e) => Err(e),
                        Ok((a, q2)) => Ok(((st.0, Some(a), st.2), q2)),
                    }
                } else if kw == "ID"@ {
                    match sp_id_node(s, q) {
                        Err(e) => Err(e),
                        Ok((id, q2)) => Ok(((st.0, st.1, st.2.push(id)), q2)),
                    }
                } else {
                    match sp_bracketed_node(s, q) {
                        Err(e) => Err(e),
                        Ok((_, q2)) => Ok((st, q2)),
                    }
                };
                match step {
                    Err(e) => Err(e),
                    Ok((st2, q2)) => if p < q2 <= s.len() {
                        sp_frame_items(s, q2, st2)
                    } else {
                        Err(ParseErrorV::UnexpectedEnd)
                    },
                }
            },
        }
    }
}

/// `ELLIPSOID|SPHEROID["name", a, rf {, unit} {, ID}]`.
pub open spec fn sp_ellipsoid(s: Seq<char>, p: int) -> SRes<EllipsoidV> {
    match sp_open_among(s, p, "ELLIPSOID"@, "SPHEROID"@, "SPHEROID"@) {
        Err(e) => Err(e),
        Ok((_, q)) => match sp_quoted(s, q) {
            Err(e) => Err(e),
            Ok((name, q1)) => match sp_ws_char_ws(s, q1, ',') {
                Err(e) => Err(e),
                Ok(q2) => match sp_number(s, q2) {
                    Err(e) => Err(e),
                    Ok((a, q3)) => match sp_ws_char_ws(s, q3, ',') {
                        Err(e) => Err(e),
                        Ok(q4) => match sp_number(s, q4) {
                            Err(e) => Err(e),
                            Ok((rf, q5)) => match sp_unit_ids_items(s, q5, (None, Seq::empty())) {
                                Err(e) => Err(e),
                                Ok((rest, q6)) => match sp_close(s, q6) {
                                    Err(e) => Err(e),
                                    Ok(q7) => Ok(
                                        (
                                            EllipsoidV {
                                                name,
                                                semi_major_axis: a,
                                                inverse_flattening: rf,
                                                unit: rest.0,
                                                identifiers: rest.1,
                                            },
                                            q7,
                                        ),
                                    ),
                                },
                            },
                        },
                    },
                },
            },
        },
    }
}

/// `PRIMEM|PRIMEMERIDIAN["name", longitude {, unit} {, ID}]`.
pub open spec fn sp_prime_meridian(s: Seq<char>, p: int) -> SRes<PrimeMeridianV> {
    match sp_open_among(s, p, "PRIMEM"@, "PRIMEMERIDIAN"@, "PRIMEMERIDIAN"@) {
        Err(e) => Err(e),
        Ok((_, q)) => match sp_quoted(s, q) {
            Err(e) => Err(e),
            Ok((name, q1)) => match sp_ws_char_ws(s, q1, ',') {
                Err(e) => Err(e),
                Ok(q2) => match sp_number(s, q2) {
                    Err(e) => Err(e),
                    Ok((lon, q3)) => match sp_unit_ids_items(s, q3, (None, Seq::empty())) {
                        Err(e) => Err(e),
                        Ok((rest, q4)) => match sp_close(s, q4) {
                            Err(e) => Err(e),
                            Ok(q5) => Ok(
                                (
                                    PrimeMeridianV {
                                        name,
                                        irm_longitude: lon,
                                        unit: rest.0,
                                        identifiers: rest.1,
                                    },
                                    q5,
                                ),
                            ),
                        },
                    },
                },
            },
        },
    }
}

pub open spec fn datum_kw_of(k: Seq<char>) -> DatumKeyword {
    if k == "DATUM"@ {
        DatumKeyword::Datum
    } else if k == "TRF"@ {
        DatumKeyword::Trf
    } else {
        DatumKeyword::GeodeticDatum
    }
}

/// `DATUM|TRF|GEODETICDATUM["name", ELLIPSOID[...] {, ANCHOR} {, ANCHOREPOCH} {, ID}]`.
pub open spec fn sp_geodetic_frame(s: Seq<char>, p: int) -> SRes<GeodeticReferenceFrameV> {
    match sp_open_among(s, p, "DATUM"@, "TRF"@, "GEODETICDATUM"@) {
        Err(e) => Err(e),
        Ok((k, q)) => match sp_quoted(s, q) {
            Err(e) => Err(e),
            Ok((name, q1)) => match sp_ws_char_ws(s, q1, ',') {
                Err(e) => Err(e),
                Ok(q2) => match sp_ellipsoid(s, q2) {
                    Err(e) => Err(e),
                    Ok((ell, q3)) => match sp_frame_items(s, q3, (None, None, Seq::empty())) {
                        Err(e) => Err(e),
                        Ok((rest, q4)) => match sp_close(s, q4) {
                            Err(e) => Err(e),
                            Ok(q5) => Ok(
                                (
                                    GeodeticReferenceFrameV {
                                        keyword: datum_kw_of(k),
                                        name,
                                        ellipsoid: ell,
                                        anchor: rest.0,
                                        anchor_epoch: rest.1,
                                        identifiers: rest.2,
                                        prime_meridian: None,
                                    },
                                    q5,
                                ),
                            ),
                        },
                    },
                },
            },
        },
    }
}

pub open spec fn vrf_kw_of(k: Seq<char>) -> VerticalReferenceFrameKeyword {
    if k == "VDATUM"@ {
        VerticalReferenceFrameKeyword::VDatum
    } else if k == "VRF"@ {
        VerticalReferenceFrameKeyword::Vrf
    } else {
        VerticalReferenceFrameKeyword::VerticalDatum
    }
}

/// `VDATUM|VRF|VERTICALDATUM["name" {, ANCHOR} {, ANCHOREPOCH} {, ID}]`.
pub open spec fn sp_vertical_frame(s: Seq<char>, p: int) -> SRes<VerticalReferenceFrameV> {
    match sp_open_among(s, p, "VDATUM"@, "VRF"@, "VERTICALDATUM"@) {
        Err(e) => Err(e),
        Ok((k, q)) => match sp_quoted(s, q) {
            Err(e) => Err(e),
            Ok((name, q1)) => match sp_frame_items(s, q1, (None, None, Seq::empty())) {
                Err(e) => Err(e),
                Ok((rest, q2)) => match sp_close(s, q2) {
                    Err(e) => Err(e),
                    Ok(q3) => Ok(
                        (
                            VerticalReferenceFrameV {
                                keyword: vrf_kw_of(k),
                                name,
                                anchor: rest.0,
                                anchor_epoch: rest.1,
                                identifiers: rest.2,
                            },
                            q3,
                        ),
                    ),
                },
            },
        },
    }
}

/// `MEMBER["name" {, ID}]`.
pub open spec fn sp_member(s: Seq<char>, p: int) -> SRes<EnsembleMemberV> {
    match sp_open_kw(s, p, "MEMBER"@) {
        Err(e) => Err(e),
        Ok(q) => match sp_quoted(s, q) {
            Err(e) => Err(e),
            Ok((name, q1)) => match sp_ids_items(s, q1, Seq::empty()) {
                Err(e) => Err(e),
                Ok((ids, q2)) => match sp_close(s, q2) {
                    Err(e) => Err(e),
                    Ok(q3) => Ok((EnsembleMemberV { name, identifiers: ids }, q3)),
                },
            },
        },
    }
}

/// The parts of an ensemble after its name: members, ellipsoid, accuracy, identifiers.
pub type EnsembleRest = (
    Seq<EnsembleMemberV>,
    Option<EllipsoidV>,
    Option<DecimalV>,
    Seq<IdentifierV>,
);

/// The trailing items of `ENSEMBLE[...]`.
pub open spec fn sp_ensemble_items(s: Seq<char>, p: int, st: EnsembleRest) -> SRes<EnsembleRest>
    decreases s.len() - p,
{
    if p < 0 || p > s.len() {
        Err(ParseErrorV::UnexpectedEnd)
    } else if sp_at_close(s, p) {
        Ok((st, sp_skip_ws(s, p)))
    } else {
        match sp_item_start(s, p) {
            Err(e) => Err(e),
            Ok(q) => {
                let kw = sp_peek_kw(s, q);
                let step: SRes<EnsembleRest> = if kw == "MEMBER"@ {
                    match sp_member(s, q) {
                        Err(e) => Err(e),
                        Ok((m, q2)) => Ok(((st.0.push(m), st.1, st.2, st.3), q2)),
                    }
                } else if kw == "ELLIPSOID"@ || kw == "SPHEROID"@ {
                    match sp_ellipsoid(s, q) {
                        Err(e) => Err(e),
                        Ok((el, q2)) => Ok(((st.0, Some(el), st.2, st.3), q2)),
                    }
                } else if kw == "ENSEMBLEACCURACY"@ {
                    match sp_kw_number(s, q, "ENSEMBLEACCURACY"@) {
                        Err(e) => Err(e),
                        Ok((a, q2)) => Ok(((st.0, st.1, Some(a), st.3), q2)),
                    }
                } else if kw == "ID"@ {
                    match sp_id_node(s, q) {
                        Err(e) => Err(e),
                        Ok((id, q2)) => Ok(((st.0, st.1, st.2, st.3.push(id)), q2)),
                    }
                } else {
                    match sp_bracketed_node(s, q) {
                        Err(e) => Err(e),
                        Ok((_, q2)) => Ok((st, q2)),
                    }
                };
                match step {
                    Err(e) => Err(e),
                    Ok((st2, q2)) => if p < q2 <= s.len() {
                        sp_ensemble_items(s, q2, st2)
                    } else {
                        Err(ParseErrorV::UnexpectedEnd)
                    },
                }
            },
        }
    }
}

/// `ENSEMBLE["name", MEMBER[...]..., ENSEMBLEACCURACY[...] ...]`; the
/// accuracy is required.
pub open spec fn sp_ensemble(s: Seq<char>, p: int) -> SRes<DatumEnsembleV> {
    match sp_open_kw(s, p, "ENSEMBLE"@) {
        Err(e) => Err(e),
        Ok(q) => match sp_quoted(s, q) {
            Err(e) => Err(e),
            Ok((name, q1)) => match sp_ensemble_items(s, q1, (Seq::empty(), None, None, Seq::empty())) {
                Err(e) => Err(e),
                Ok((rest, q2)) => match rest.2 {
                    None => Err(ParseErrorV::UnexpectedEnd),
                    Some(acc) => match sp_close(s, q2) {
                        Err(e) => Err(e),
                        Ok(q3) => Ok(
                            (
                                DatumEnsembleV {
                                    name,
                                    members: rest.0,
                                    ellipsoid: rest.1,
                                    accuracy: acc,
                                    identifiers: rest.3,
                                    prime_meridian: None,
                                },
                                q3,
                            ),
                        ),
                    },
                },
            },
        },
    }
}

/// `DYNAMIC[FRAMEEPOCH[...] {, MODEL|VELOCITYGRID["name" {, ID}]}]`.
pub open spec fn sp_dynamic(s: Seq<char>, p: int) -> SRes<DynamicCrsV> {
    match sp_open_kw(s, p, "DYNAMIC"@) {
        Err(e) => Err(e),
        Ok(q) => match sp_kw_number(s, q, "FRAMEEPOCH"@) {
            Err(e) => Err(e),
            Ok((epoch, q1)) => {
                let q2 = sp_skip_ws(s, q1);
                let model: SRes<Option<DeformationModelV>> = if sp_peek(s, q2) == Some(']') {
                    Ok((None, q2))
                } else {
                    match sp_ws_char_ws(s, q2, ',') {
                        Err(e) => Err(e),
                        Ok(q3) => match sp_open_among(s, q3, "MODEL"@, "VELOCITYGRID"@, "VELOCITYGRID"@) {
                            Err(e) => Err(e),
                            Ok((_, q4)) => match sp_quoted(s, q4) {
                                Err(e) => Err(e),
                                Ok((name, q5)) => match sp_ids_items(s, q5, Seq::empty()) {
                                    Err(e) => Err(e),
                                    Ok((ids, q6)) => match sp_close(s, q6) {
                                        Err(e) => Err(e),
                                        Ok(q7) => Ok(
                                            (Some(DeformationModelV { name, identifiers: ids }), q7),
                                        ),
                                    },
                                },
                            },
                        },
                    }
                };
                match model {
                    Err(e) => Err(e),
                    Ok((m, q8)) => match sp_close(s, q8) {
                        Err(e) => Err(e),
                        Ok(q9) => Ok(
                            (DynamicCrsV { frame_reference_epoch: epoch, deformation_model: m }, q9),
                        ),
                    },
                }
            },
        },
    }
}

impl Parser {
    /// `ELLIPSOID[...]`.
    pub(crate) fn parse_ellipsoid(&mut self) -> (r: Result<Ellipsoid, ParseError>)
        requires
            old(self).wf(),
        ensures
            final(self).wf(),
            final(self).s() == old(self).s(),
            old(self).p() <= final(self).p(),
            match sp_ellipsoid(old(self).s(), old(self).p()) {
                Ok((v, q)) => r matches Ok(x) && x@ == v && final(self).p() == q,
                Err(e) => r matches Err(x) && x@ == e,
            },
    {
        self.open_among("ELLIPSOID", "SPHEROID", "SPHEROID")?;
        let name = self.parse_quoted_string()?;
        self.ws_char_ws(',')?;
        let semi_major_axis = self.parse_number()?;
        self.ws_char_ws(',')?;
        let inverse_flattening = self.parse_number()?;
        let (unit, identifiers) = self.parse_trailing_unit_and_identifiers()?;
        self.close()?;
        Ok(Ellipsoid { name, semi_major_axis, inverse_flattening, unit, identifiers })
    }

    /// `PRIMEM[...]`.
    pub(crate) fn parse_prime_meridian(&mut self) -> (r: Result<PrimeMeridian, ParseError>)
        requires
            old(self).wf(),
        ensures
            final(self).wf(),
            final(self).s() == old(self).s(),
            old(self).p() <= final(self).p(),
            match sp_prime_meridian(old(self).s(), old(self).p()) {
                Ok((v, q)) => r matches Ok(x) && x@ == v && final(self).p() == q,
                Err(e) => r matches Err(x) && x@ == e,
            },
    {
        self.open_among("PRIMEM", "PRIMEMERIDIAN", "PRIMEMERIDIAN")?;
        let name = self.parse_quoted_string()?;
        self.ws_char_ws(',')?;
        let irm_longitude = self.parse_number()?;
        let (unit, identifiers) = self.parse_trailing_unit_and_identifiers()?;
        self.close()?;
        Ok(PrimeMeridian { name, irm_longitude, unit, identifiers })
    }

    /// The trailing items of a reference frame.
    #[verifier::loop_isolation(false)]
    fn parse_frame_items(&mut self) -> (r: Result<
        (Option<String>, Option<Decimal>, Vec<Identifier>),
        ParseError,
    >)
        requires
            old(self).wf(),
        ensures
            final(self).wf(),
            final(self).s() == old(self).s(),
            old(self).p() <= final(self).p(),
            match sp_frame_items(old(self).s(), old(self).p(), (None, None, Seq::empty())) {
                Ok((v, q)) => r matches Ok((a, ep, ids)) && opt_text(a) == v.0 && opt_dec(ep)
                    == v.1 && ids_v(ids) == v.2 && final(self).p() == q,
                Err(e) => r matches Err(x) && x@ == e,
            },
    {
        let ghost s = self.s();
        let ghost p0 = self.p();
        let mut anchor: Option<String> = None;
        let mut anchor_epoch: Option<Decimal> = None;
        let mut identifiers: Vec<Identifier> = Vec::new();
        proof {
            assert(ids_v(identifiers) =~= Seq::<IdentifierV>::empty());
        }
        loop
            invariant
                sp_frame_items(s, p0, (None, None, Seq::empty())) == sp_frame_items(
                    s,
                    self.p(),
                    (opt_text(anchor), opt_dec(anchor_epoch), ids_v(identifiers)),
                ),
                self.wf(),
                self.s() == s,
                s == old(self).s(),
                old(self).p() <= self.p(),
            decreases s.len() - self.p(),
        {
            if self.at_close() {
                self.skip_whitespace();
                break;
            }
            self.item_start()?;
            if self.peek_is("ANCHOR") {
                anchor = Some(self.parse_keyword_quoted_string("ANCHOR")?);
            } else if self.peek_is("ANCHOREPOCH") {
                anchor_epoch = Some(self.parse_keyword_number("ANCHOREPOCH")?);
            } else if self.peek_is("ID") {
                let id = self.parse_identifier_node()?;
                let ghost before = ids_v(identifiers);
                identifiers.push(id);
                proof {
                    assert(ids_v(identifiers) =~= before.push(id@));
                }
            } else {
                self.parse_bracketed_node()?;
            }
        }
        Ok((anchor, anchor_epoch, identifiers))
    }

    /// `DATUM[...]`; the prime meridian is filled in by the caller.
    pub(crate) fn parse_geodetic_reference_frame(&mut self) -> (r: Result<
        GeodeticReferenceFrame,
        ParseError,
    >)
        requires
            old(self).wf(),
        ensures
            final(self).wf(),
            final(self).s() == old(self).s(),
            old(self).p() <= final(self).p(),
            match sp_geodetic_frame(old(self).s(), old(self).p()) {
                Ok((v, q)) => r matches Ok(x) && x@ == v && final(self).p() == q,
                Err(e) => r matches Err(x) && x@ == e,
            },
    {
        let which = self.open_among("DATUM", "TRF", "GEODETICDATUM")?;
        let keyword = if which == 0 {
            DatumKeyword::Datum
        } else if which == 1 {
            DatumKeyword::Trf
        } else {
            DatumKeyword::GeodeticDatum
        };
        let name = self.parse_quoted_string()?;
        self.ws_char_ws(',')?;
        let ellipsoid = self.parse_ellipsoid()?;
        let (anchor, anchor_epoch, identifiers) = self.parse_frame_items()?;
        self.close()?;
        Ok(
            GeodeticReferenceFrame {
                keyword,
                name,
                ellipsoid,
                anchor,
                anchor_epoch,
                identifiers,
                prime_meridian: None,
            },
        )
    }

    /// `VDATUM[...]`.
    pub(crate) fn parse_vertical_reference_frame(&mut self) -> (r: Result<
        VerticalReferenceFrame,
        ParseError,
    >)
        requires
            old(self).wf(),
        ensures
            final(self).wf(),
            final(self).s() == old(self).s(),
            old(self).p() <= final(self).p(),
            match sp_vertical_frame(old(self).s(), old(self).p()) {
                Ok((v, q)) => r matches Ok(x) && x@ == v && final(self).p() == q,
                Err(e) => r matches Err(x) && x@ == e,
            },
    {
        let which = self.open_among("VDATUM", "VRF", "VERTICALDATUM")?;
        let keyword = if which == 0 {
            VerticalReferenceFrameKeyword::VDatum
        } else if which == 1 {
            VerticalReferenceFrameKeyword::Vrf
        } else {
            VerticalReferenceFrameKeyword::VerticalDatum
        };
        let name = self.parse_quoted_string()?;
        let (anchor, anchor_epoch, identifiers) = self.parse_frame_items()?;
        self.close()?;
        Ok(VerticalReferenceFrame { keyword, name, anchor, anchor_epoch, identifiers })
    }

    /// `MEMBER[...]`.
    pub(crate) fn parse_ensemble_member(&mut self) -> (r: Result<EnsembleMember, ParseError>)
        requires
            old(self).wf(),
        ensures
            final(self).wf(),
            final(self).s() == old(self).s(),
            old(self).p() <= final(self).p(),
            match sp_member(old(self).s(), old(self).p()) {
                Ok((v, q)) => r matches Ok(x) && x@ == v && final(self).p() == q,
                Err(e) => r matches Err(x) && x@ == e,
            },
    {
        self.open_kw("MEMBER")?;
        let name = self.parse_quoted_string()?;
        let identifiers = self.trailing_identifiers()?;
        self.close()?;
        Ok(EnsembleMember { name, identifiers })
    }

    /// `ENSEMBLE[...]`.
    #[verifier::loop_isolation(false)]
    pub(crate) fn parse_datum_ensemble(&mut self) -> (r: Result<DatumEnsemble, ParseError>)
        requires
            old(self).wf(),
        ensures
            final(self).wf(),
            final(self).s() == old(self).s(),
            old(self).p() <= final(self).p(),
            match sp_ensemble(old(self).s(), old(self).p()) {
                Ok((v, q)) => r matches Ok(x) && x@ == v && final(self).p() == q,
                Err(e) => r matches Err(x) && x@ == e,
            },
    {
        self.open_kw("ENSEMBLE")?;
        let name = self.parse_quoted_string()?;
        let ghost s = self.s();
        let ghost p0 = self.p();
        let mut members: Vec<EnsembleMember> = Vec::new();
        let mut ellipsoid: Option<Ellipsoid> = None;
        let mut accuracy: Option<Decimal> = None;
        let mut identifiers: Vec<Identifier> = Vec::new();
        proof {
            assert(ids_v(identifiers) =~= Seq::<IdentifierV>::empty());
            assert(members@.map_values(|m: EnsembleMember| m@) =~= Seq::<EnsembleMemberV>::empty());
        }
        loop
            invariant
                sp_ensemble_items(s, p0, (Seq::empty(), None, None, Seq::empty()))
                    == sp_ensemble_items(
                    s,
                    self.p(),
                    (
                        members@.map_values(|m: EnsembleMember| m@),
                        match ellipsoid {
                            Some(e) => Some(e@),
                            None => None,
                        },
                        opt_dec(accuracy),
                        ids_v(identifiers),
                    ),
                ),
                self.wf(),
                self.s() == s,
                s == old(self).s(),
                old(self).p() <= self.p(),
            decreases s.len() - self.p(),
        {
            if self.at_close() {
                self.skip_whitespace();
                break;
            }
            self.item_start()?;
            if self.peek_is("MEMBER") {
                let m = self.parse_ensemble_member()?;
                let ghost before = members@.map_values(|m: EnsembleMember| m@);
                members.push(m);
                proof {
                    assert(members@.map_values(|m: EnsembleMember| m@) =~= before.push(m@));
                }
            } else if self.peek_is("ELLIPSOID") || self.peek_is("SPHEROID") {
                ellipsoid = Some(self.parse_ellipsoid()?);
            } else if self.peek_is("ENSEMBLEACCURACY") {
                accuracy = Some(self.parse_keyword_number("ENSEMBLEACCURACY")?);
            } else if self.peek_is("ID") {
                let id = self.parse_identifier_node()?;
                let ghost before = ids_v(identifiers);
                identifiers.push(id);
                proof {
                    assert(ids_v(identifiers) =~= before.push(id@));
                }
            } else {
                self.parse_bracketed_node()?;
            }
        }
        let accuracy = match accuracy {
            Some(a) => a,
            None => {
                return Err(ParseError::UnexpectedEnd);
            },
        };
        self.close()?;
        Ok(
            DatumEnsemble {
                name,
                members,
                ellipsoid,
                accuracy,
                identifiers,
                prime_meridian: None,
            },
        )
    }

    /// `DYNAMIC[...]`.
    pub(crate) fn parse_dynamic_crs(&mut self) -> (r: Result<DynamicCrs, ParseError>)
        requires
            old(self).wf(),
        ensures
            final(self).wf(),
            final(self).s() == old(self).s(),
            old(self).p() <= final(self).p(),
            match sp_dynamic(old(self).s(), old(self).p()) {
                Ok((v, q)) => r matches Ok(x) && x@ == v && final(self).p() == q,
                Err(e) => r matches Err(x) && x@ == e,
            },
    {
        self.open_kw("DYNAMIC")?;
        let frame_reference_epoch = self.parse_keyword_number("FRAMEEPOCH")?;
        self.skip_whitespace();
        let deformation_model = if self.peek_char() == Some(']') {
            None
        } else {
            self.ws_char_ws(',')?;
            self.open_among("MODEL", "VELOCITYGRID", "VELOCITYGRID")?;
            let name = self.parse_quoted_string()?;
            let identifiers = self.trailing_identifiers()?;
            self.close()?;
            Some(DeformationModel { name, identifiers })
        };
        self.close()?;
        Ok(DynamicCrs { frame_reference_epoch, deformation_model })
    }
}

} // verus!
