//! Lookup logic over the WKT1 method and parameter tables: which EPSG method
//! a `PROJECTION` with its `PARAMETER`s stands for.
//!
//! Every step is stated over the tables it is given, so what is proved holds
//! of any table; the tables themselves are in `mappings_data`.
use vstd::prelude::*;
use crate::decimal::{Decimal, DecimalV, same_value, number_value, number_end, of_int};
use crate::error::{ParseError, ParseErrorV};
use crate::text::{chars_of, str_eq};
use crate::wkt1::names::{eq_normalized, eq_normalized_v, lower_text, to_lower};

verus! {

/// The kind of unit a projection parameter is measured in.
#[derive(Debug, Clone, Copy, PartialEq, Eq, Structural)]
pub enum UnitType {
    Angular,
    Linear,
    Scale,
    /// No unit, or an unknown kind of unit (such as a polynomial coefficient).
    Unitless,
}

/// A GDAL parameter spelling.
pub struct ParamMapping {
    pub wkt1_name: &'static str,
    pub epsg_name: &'static str,
    pub epsg_code: i32,
    pub unit_type: UnitType,
}

/// A GDAL method spelling with its parameters.
pub struct MethodMapping {
    pub wkt1_name: &'static str,
    pub epsg_name: &'static str,
    pub epsg_code: i32,
    pub params: Vec<ParamMapping>,
}

/// An ESRI parameter spelling. An empty EPSG name marks a parameter with no
/// EPSG equivalent, accepted only at `fixed_value` and then dropped.
pub struct EsriParamMapping {
    pub esri_name: &'static str,
    pub epsg_name: &'static str,
    pub epsg_code: i32,
    pub fixed_value: &'static str,
}

/// An ESRI method spelling with its parameters.
pub struct EsriMethodMapping {
    pub esri_name: &'static str,
    pub epsg_name: &'static str,
    pub epsg_code: i32,
    pub params: Vec<EsriParamMapping>,
}

/// A parameter resolved to its EPSG name.
pub struct ResolvedParam {
    pub epsg_name: String,
    pub epsg_code: i32,
    pub unit_type: UnitType,
    pub value: Decimal,
}

/// A projection method resolved to its EPSG name (code 0 when it has none).
pub struct ResolvedMethod {
    pub epsg_name: String,
    pub epsg_code: i32,
    pub params: Vec<ResolvedParam>,
}

/// Properties of the enclosing CRS that choose between method variants
/// which WKT1 writes under one name.
#[derive(Debug, Clone, Copy)]
pub struct MethodContext {
    /// The base ellipsoid is a sphere (zero inverse flattening).
    pub is_sphere: bool,
    /// The coordinate system has a south- or west-pointing axis.
    pub south_west_oriented: bool,
}

/// All the tables the resolution reads.
pub struct MappingTables {
    pub gdal: Vec<MethodMapping>,
    pub esri: Vec<EsriMethodMapping>,
    pub epsg_methods: Vec<(&'static str, i32)>,
    pub epsg_params: Vec<(&'static str, i32)>,
    pub unit_types: Vec<(i32, UnitType)>,
}

pub struct ParamMappingV {
    pub wkt1_name: Seq<char>,
    pub epsg_name: Seq<char>,
    pub epsg_code: i32,
    pub unit_type: UnitType,
}

pub struct MethodMappingV {
    pub wkt1_name: Seq<char>,
    pub epsg_name: Seq<char>,
    pub epsg_code: i32,
    pub params: Seq<ParamMappingV>,
}

pub struct EsriParamMappingV {
    pub esri_name: Seq<char>,
    pub epsg_name: Seq<char>,
    pub epsg_code: i32,
    pub fixed_value: Seq<char>,
}

pub struct EsriMethodMappingV {
    pub esri_name: Seq<char>,
    pub epsg_name: Seq<char>,
    pub epsg_code: i32,
    pub params: Seq<EsriParamMappingV>,
}

pub struct ResolvedParamV {
    pub epsg_name: Seq<char>,
    pub epsg_code: i32,
    pub unit_type: UnitType,
    pub value: DecimalV,
}

pub struct ResolvedMethodV {
    pub epsg_name: Seq<char>,
    pub epsg_code: i32,
    pub params: Seq<ResolvedParamV>,
}

impl View for ParamMapping {
    type V = ParamMappingV;

    open spec fn view(&self) -> ParamMappingV {
        ParamMappingV {
            wkt1_name: self.wkt1_name@,
            epsg_name: self.epsg_name@,
            epsg_code: self.epsg_code,
            unit_type: self.unit_type,
        }
    }
}

impl View for MethodMapping {
    type V = MethodMappingV;

    open spec fn view(&self) -> MethodMappingV {
        MethodMappingV {
            wkt1_name: self.wkt1_name@,
            epsg_name: self.epsg_name@,
            epsg_code: self.epsg_code,
            params: self.params@.map_values(|p: ParamMapping| p@),
        }
    }
}

impl View for EsriParamMapping {
    type V = EsriParamMappingV;

    open spec fn view(&self) -> EsriParamMappingV {
        EsriParamMappingV {
            esri_name: self.esri_name@,
            epsg_name: self.epsg_name@,
            epsg_code: self.epsg_code,
            fixed_value: self.fixed_value@,
        }
    }
}

impl View for EsriMethodMapping {
    type V = EsriMethodMappingV;

    open spec fn view(&self) -> EsriMethodMappingV {
        EsriMethodMappingV {
            esri_name: self.esri_name@,
            epsg_name: self.epsg_name@,
            epsg_code: self.epsg_code,
            params: self.params@.map_values(|p: EsriParamMapping| p@),
        }
    }
}

impl View for ResolvedParam {
    type V = ResolvedParamV;

    open spec fn view(&self) -> ResolvedParamV {
        ResolvedParamV {
            epsg_name: self.epsg_name@,
            epsg_code: self.epsg_code,
            unit_type: self.unit_type,
            value: self.value@,
        }
    }
}

impl View for ResolvedMethod {
    type V = ResolvedMethodV;

    open spec fn view(&self) -> ResolvedMethodV {
        ResolvedMethodV {
            epsg_name: self.epsg_name@,
            epsg_code: self.epsg_code,
            params: self.params@.map_values(|p: ResolvedParam| p@),
        }
    }
}

/// Whether `sub` occurs in `t`.
pub open spec fn contains_text(t: Seq<char>, sub: Seq<char>) -> bool {
    exists|i: int| 0 <= i && i + sub.len() <= t.len() && #[trigger] t.subrange(i, i + sub.len()) == sub
}

/// Whether two names are equal ignoring ASCII case.
pub open spec fn eq_ignore_case(a: Seq<char>, b: Seq<char>) -> bool {
    lower_text(a) == lower_text(b)
}

/// How well an EPSG method name fits the context: one point each for
/// agreeing on `(Spherical)` and on `(North Orientated)`, minus one for each
/// disagreement.
pub open spec fn score_v(ctx: MethodContext, epsg_name: Seq<char>) -> int {
    (if contains_text(epsg_name, "(Spherical)"@) == ctx.is_sphere {
        1int
    } else {
        -1int
    }) + (if contains_text(epsg_name, "(North Orientated)"@) == !ctx.south_west_oriented {
        1int
    } else {
        -1int
    })
}

/// Whether a name looks like a polynomial coefficient: `A`, `B` or `C`
/// followed only by digits.
pub open spec fn is_coefficient(t: Seq<char>) -> bool {
    t.len() > 0 && ('A' <= t[0] && t[0] <= 'C') && forall|i: int|
        1 <= i < t.len() ==> crate::text::is_digit(#[trigger] t[i])
}

/// The unit type guessed from an EPSG parameter name.
pub open spec fn unit_type_from_name_v(name: Seq<char>) -> UnitType {
    let l = lower_text(name);
    if contains_text(l, "latitude"@) || contains_text(l, "longitude"@) || contains_text(
        l,
        "azimuth"@,
    ) || contains_text(l, "angle"@) || contains_text(l, "rotation"@) || l == "zone width"@ {
        UnitType::Angular
    } else if contains_text(l, "scale"@) || contains_text(l, "scaling"@) || is_coefficient(name) {
        UnitType::Scale
    } else {
        UnitType::Linear
    }
}

/// The unit type that the table gives a parameter code: the first entry's.
pub open spec fn unit_type_for_code_v(t: Seq<(i32, UnitType)>, code: i32) -> Option<UnitType>
    decreases t.len(),
{
    if t.len() == 0 {
        None
    } else if t[0].0 == code {
        Some(t[0].1)
    } else {
        unit_type_for_code_v(t.skip(1), code)
    }
}

/// The unit type of an EPSG parameter: from the table, else from its name.
pub open spec fn param_unit_type_v(t: Seq<(i32, UnitType)>, code: i32, name: Seq<char>) -> UnitType {
    match unit_type_for_code_v(t, code) {
        Some(u) => u,
        None => unit_type_from_name_v(name),
    }
}

/// Whether dropping a parameter with this value leaves the projection
/// unchanged: one for a scale factor, zero for anything else.
pub open spec fn is_identity_value_v(u: UnitType, v: DecimalV) -> bool {
    match u {
        UnitType::Scale => same_value(v, of_int(1)),
        _ => same_value(v, of_int(0)),
    }
}

/// Whether a number is 90 or -90.
pub open spec fn is_pole_v(v: DecimalV) -> bool {
    same_value(v, of_int(90)) || same_value(v, of_int(-90))
}

/// The number that a whole text spells, when it spells one.
pub open spec fn decimal_of_text(t: Seq<char>) -> Option<DecimalV> {
    if number_end(t, 0) == t.len() {
        number_value(t, 0)
    } else {
        None
    }
}

/// Why a table entry could not read the input parameters.
pub enum RejectV {
    UnknownName(Seq<char>),
    BadValue { name: Seq<char>, value: DecimalV },
}

pub open spec fn reject_error(r: RejectV, method: Seq<char>) -> ParseErrorV {
    match r {
        RejectV::UnknownName(name) => ParseErrorV::UnknownParameter { method, name },
        RejectV::BadValue { name, value } => ParseErrorV::UnsupportedParameterValue {
            method,
            name,
            value,
        },
    }
}

/// The first ESRI parameter spelled `name`, ignoring ASCII case.
pub open spec fn esri_find_v(ps: Seq<EsriParamMappingV>, name: Seq<char>) -> Option<EsriParamMappingV>
    decreases ps.len(),
{
    if ps.len() == 0 {
        None
    } else if eq_ignore_case(ps[0].esri_name, name) {
        Some(ps[0])
    } else {
        esri_find_v(ps.skip(1), name)
    }
}

/// The first resolved parameter with this EPSG name.
pub open spec fn resolved_find_v(rs: Seq<ResolvedParamV>, name: Seq<char>) -> Option<ResolvedParamV>
    decreases rs.len(),
{
    if rs.len() == 0 {
        None
    } else if rs[0].epsg_name == name {
        Some(rs[0])
    } else {
        resolved_find_v(rs.skip(1), name)
    }
}

/// Read the input parameters from `i` on against one ESRI table entry, with
/// the parameters resolved so far. A fixed-value parameter must carry its
/// value and is dropped; a second spelling of an EPSG parameter must carry
/// the same value and collapses into the first.
pub open spec fn esri_match_from(
    c: EsriMethodMappingV,
    units: Seq<(i32, UnitType)>,
    input: Seq<(Seq<char>, DecimalV)>,
    i: int,
    acc: Seq<ResolvedParamV>,
) -> Result<Seq<ResolvedParamV>, RejectV>
    decreases input.len() - i,
{
    if i < 0 || i >= input.len() {
        Ok(acc)
    } else {
        let name = input[i].0;
        let value = input[i].1;
        match esri_find_v(c.params, name) {
            None => Err(RejectV::UnknownName(name)),
            Some(p) => if p.epsg_name.len() == 0 {
                match decimal_of_text(p.fixed_value) {
                    Some(expected) => if same_value(value, expected) {
                        esri_match_from(c, units, input, i + 1, acc)
                    } else {
                        Err(RejectV::BadValue { name: p.esri_name, value })
                    },
                    None => Err(RejectV::BadValue { name: p.esri_name, value }),
                }
            } else {
                match resolved_find_v(acc, p.epsg_name) {
                    Some(prev) => if same_value(prev.value, value) {
                        esri_match_from(c, units, input, i + 1, acc)
                    } else {
                        Err(RejectV::BadValue { name: p.esri_name, value })
                    },
                    None => esri_match_from(
                        c,
                        units,
                        input,
                        i + 1,
                        acc.push(
                            ResolvedParamV {
                                epsg_name: p.epsg_name,
                                epsg_code: p.epsg_code,
                                unit_type: param_unit_type_v(units, p.epsg_code, p.epsg_name),
                                value,
                            },
                        ),
                    ),
                }
            },
        }
    }
}

/// The first GDAL parameter of an entry spelled `name` (ignoring ASCII
/// case), or whose EPSG name matches `name` once normalized.
pub open spec fn gdal_find_v(ps: Seq<ParamMappingV>, name: Seq<char>) -> Option<ParamMappingV>
    decreases ps.len(),
{
    if ps.len() == 0 {
        None
    } else if eq_ignore_case(ps[0].wkt1_name, name) || eq_normalized_v(ps[0].epsg_name, name) {
        Some(ps[0])
    } else {
        gdal_find_v(ps.skip(1), name)
    }
}

/// The parameter spelled `name` in the first sibling entry that has one.
pub open spec fn sibling_find_v(sibs: Seq<MethodMappingV>, name: Seq<char>) -> Option<ParamMappingV>
    decreases sibs.len(),
{
    if sibs.len() == 0 {
        None
    } else {
        match gdal_find_v(sibs[0].params, name) {
            Some(p) => Some(p),
            None => sibling_find_v(sibs.skip(1), name),
        }
    }
}

/// Read the input parameters from `i` on against one GDAL table entry. A
/// parameter that only a sibling variant defines is dropped when it carries
/// its identity value.
pub open spec fn gdal_match_from(
    c: MethodMappingV,
    sibs: Seq<MethodMappingV>,
    input: Seq<(Seq<char>, DecimalV)>,
    i: int,
    acc: Seq<ResolvedParamV>,
) -> Result<Seq<ResolvedParamV>, RejectV>
    decreases input.len() - i,
{
    if i < 0 || i >= input.len() {
        Ok(acc)
    } else {
        let name = input[i].0;
        let value = input[i].1;
        match gdal_find_v(c.params, name) {
            Some(p) => gdal_match_from(
                c,
                sibs,
                input,
                i + 1,
                acc.push(
                    ResolvedParamV {
                        epsg_name: p.epsg_name,
                        epsg_code: p.epsg_code,
                        unit_type: if p.unit_type == UnitType::Unitless {
                            unit_type_from_name_v(p.epsg_name)
                        } else {
                            p.unit_type
                        },
                        value,
                    },
                ),
            ),
            None => match sibling_find_v(sibs, name) {
                Some(p) => if is_identity_value_v(p.unit_type, value) {
                    gdal_match_from(c, sibs, input, i + 1, acc)
                } else {
                    Err(RejectV::BadValue { name: p.wkt1_name, value })
                },
                None => Err(RejectV::UnknownName(name)),
            },
        }
    }
}

/// The latitude of natural origin among resolved parameters (the first).
pub open spec fn nat_origin_lat_v(ps: Seq<ResolvedParamV>) -> Option<DecimalV> {
    match resolved_find_v(ps, "Latitude of natural origin"@) {
        Some(p) => Some(p.value),
        None => None,
    }
}

/// Whether a candidate contradicts its own EPSG definition: Polar
/// Stereographic variant A puts its natural origin at a pole.
pub open spec fn violates_domain_v(m: ResolvedMethodV) -> bool {
    m.epsg_code == 9810 && match nat_origin_lat_v(m.params) {
        Some(v) => !is_pole_v(v),
        None => false,
    }
}

pub open spec fn in_domain_pred() -> spec_fn((ResolvedMethodV, Seq<char>)) -> bool {
    |x: (ResolvedMethodV, Seq<char>)| !violates_domain_v(x.0)
}

pub open spec fn out_of_domain_pred() -> spec_fn((ResolvedMethodV, Seq<char>)) -> bool {
    |x: (ResolvedMethodV, Seq<char>)| violates_domain_v(x.0)
}

/// The first candidate with the highest score, from `i` on, given the best so far.
pub open spec fn best_from(
    pool: Seq<(ResolvedMethodV, Seq<char>)>,
    ctx: MethodContext,
    i: int,
    best: Option<(ResolvedMethodV, int)>,
) -> Option<ResolvedMethodV>
    decreases pool.len() - i,
{
    if i < 0 || i >= pool.len() {
        match best {
            Some((m, _)) => Some(m),
            None => None,
        }
    } else {
        let s = score_v(ctx, pool[i].1);
        let keep = match best {
            Some((_, b)) => s <= b,
            None => false,
        };
        best_from(pool, ctx, i + 1, if keep { best } else { Some((pool[i].0, s)) })
    }
}

/// Choose among the entries that accepted the input: prefer those whose own
/// EPSG definition the values satisfy (unless the name was not ambiguous and
/// none does), then the best contextual fit, then table order.
pub open spec fn pick_v(
    matches: Seq<(ResolvedMethodV, Seq<char>)>,
    ctx: MethodContext,
    ambiguous: bool,
) -> Option<ResolvedMethodV> {
    let in_domain = matches.filter(in_domain_pred());
    let rest = matches.filter(out_of_domain_pred());
    let pool = if in_domain.len() == 0 && !ambiguous {
        rest
    } else {
        in_domain
    };
    best_from(pool, ctx, 0, None)
}

/// Whether the parameters carry non-empty, pairwise different EPSG names.
pub open spec fn distinct_named(ps: Seq<ResolvedParamV>) -> bool {
    &&& forall|i: int| 0 <= i < ps.len() ==> (#[trigger] ps[i]).epsg_name.len() > 0
    &&& forall|i: int, j: int|
        0 <= i < j < ps.len() ==> (#[trigger] ps[i]).epsg_name != (#[trigger] ps[j]).epsg_name
}

proof fn lemma_resolved_find_none(rs: Seq<ResolvedParamV>, name: Seq<char>)
    requires
        resolved_find_v(rs, name) is None,
    ensures
        forall|k: int| 0 <= k < rs.len() ==> (#[trigger] rs[k]).epsg_name != name,
    decreases rs.len(),
{
    if rs.len() > 0 {
        lemma_resolved_find_none(rs.skip(1), name);
        assert forall|k: int| 0 <= k < rs.len() implies (#[trigger] rs[k]).epsg_name != name by {
            if k > 0 {
                assert(rs[k] == rs.skip(1)[k - 1]);
            }
        }
    }
}

proof fn lemma_esri_distinct(
    c: EsriMethodMappingV,
    units: Seq<(i32, UnitType)>,
    input: Seq<(Seq<char>, DecimalV)>,
    i: int,
    acc: Seq<ResolvedParamV>,
)
    requires
        distinct_named(acc),
    ensures
        esri_match_from(c, units, input, i, acc) matches Ok(ps) ==> distinct_named(ps),
    decreases input.len() - i,
{
    if 0 <= i < input.len() {
        let name = input[i].0;
        let value = input[i].1;
        match esri_find_v(c.params, name) {
            None => {},
            Some(p) => {
                if p.epsg_name.len() == 0 {
                    lemma_esri_distinct(c, units, input, i + 1, acc);
                } else {
                    match resolved_find_v(acc, p.epsg_name) {
                        Some(prev) => {
                            lemma_esri_distinct(c, units, input, i + 1, acc);
                        },
                        None => {
                            lemma_resolved_find_none(acc, p.epsg_name);
                            let n = acc.push(
                                ResolvedParamV {
                                    epsg_name: p.epsg_name,
                                    epsg_code: p.epsg_code,
                                    unit_type: param_unit_type_v(units, p.epsg_code, p.epsg_name),
                                    value,
                                },
                            );
                            assert forall|a: int, b: int| 0 <= a < b < n.len() implies (#[trigger] n[a]).epsg_name
                                != (#[trigger] n[b]).epsg_name by {
                                if b == acc.len() {
                                    assert(n[a] == acc[a]);
                                } else {
                                    assert(n[a] == acc[a] && n[b] == acc[b]);
                                }
                            }
                            assert forall|a: int| 0 <= a < n.len() implies (#[trigger] n[a]).epsg_name.len() > 0 by {
                                if a < acc.len() {
                                    assert(n[a] == acc[a]);
                                }
                            }
                            lemma_esri_distinct(c, units, input, i + 1, n);
                        },
                    }
                }
            },
        }
    }
}

/// The parameters that an ESRI table entry accepts carry non-empty,
/// pairwise different EPSG names: a fixed-value parameter is checked and
/// dropped, and a second spelling of an EPSG parameter collapses into the
/// first.
pub proof fn law_esri_match_distinct(
    c: EsriMethodMappingV,
    units: Seq<(i32, UnitType)>,
    input: Seq<(Seq<char>, DecimalV)>,
)
    ensures
        esri_match_from(c, units, input, 0, Seq::empty()) matches Ok(ps) ==> distinct_named(ps),
{
    lemma_esri_distinct(c, units, input, 0, Seq::empty());
}

/// The candidates that picking chooses from: those within their method's
/// domain, or, when there are none and the name is not ambiguous, all of them.
pub open spec fn pick_pool(matches: Seq<(ResolvedMethodV, Seq<char>)>, ambiguous: bool) -> Seq<
    (ResolvedMethodV, Seq<char>),
> {
    let in_domain = matches.filter(in_domain_pred());
    if in_domain.len() == 0 && !ambiguous {
        matches.filter(out_of_domain_pred())
    } else {
        in_domain
    }
}

/// Whether `k` is the first candidate of `pool` with the highest score.
pub open spec fn first_best(pool: Seq<(ResolvedMethodV, Seq<char>)>, ctx: MethodContext, k: int) -> bool {
    &&& 0 <= k < pool.len()
    &&& forall|j: int| 0 <= j < pool.len() ==> score_v(ctx, #[trigger] pool[j].1) <= score_v(ctx, pool[k].1)
    &&& forall|j: int| 0 <= j < k ==> score_v(ctx, #[trigger] pool[j].1) < score_v(ctx, pool[k].1)
}

proof fn lemma_best_from(
    pool: Seq<(ResolvedMethodV, Seq<char>)>,
    ctx: MethodContext,
    i: int,
    best: Option<(ResolvedMethodV, int)>,
)
    requires
        0 <= i <= pool.len(),
        best is None <==> i == 0,
        best matches Some((m, b)) ==> exists|k: int|
            0 <= k < i && m == #[trigger] pool[k].0 && b == score_v(ctx, pool[k].1) && (forall|j: int|
                0 <= j < i ==> score_v(ctx, #[trigger] pool[j].1) <= b) && (forall|j: int|
                0 <= j < k ==> score_v(ctx, #[trigger] pool[j].1) < b),
    ensures
        best_from(pool, ctx, i, best) is None <==> pool.len() == 0,
        pool.len() > 0 ==> exists|k: int|
            first_best(pool, ctx, k) && best_from(pool, ctx, i, best) == Some(#[trigger] pool[k].0),
    decreases pool.len() - i,
{
    if i >= pool.len() {
        if pool.len() > 0 {
            let (m, b) = best.unwrap();
            let k = choose|k: int|
                0 <= k < i && m == #[trigger] pool[k].0 && b == score_v(ctx, pool[k].1) && (forall|j: int|
                    0 <= j < i ==> score_v(ctx, #[trigger] pool[j].1) <= b) && (forall|j: int|
                    0 <= j < k ==> score_v(ctx, #[trigger] pool[j].1) < b);
            assert(first_best(pool, ctx, k));
        }
    } else {
        let s = score_v(ctx, pool[i].1);
        let keep = match best {
            Some((_, b)) => s <= b,
            None => false,
        };
        let next = if keep {
            best
        } else {
            Some((pool[i].0, s))
        };
        if keep {
            let (m, b) = best.unwrap();
            let k = choose|k: int|
                0 <= k < i && m == #[trigger] pool[k].0 && b == score_v(ctx, pool[k].1) && (forall|j: int|
                    0 <= j < i ==> score_v(ctx, #[trigger] pool[j].1) <= b) && (forall|j: int|
                    0 <= j < k ==> score_v(ctx, #[trigger] pool[j].1) < b);
            assert(forall|j: int| 0 <= j < i + 1 ==> score_v(ctx, #[trigger] pool[j].1) <= b);
            assert(m == pool[k].0);
        } else {
            if best is Some {
                let (m, b) = best.unwrap();
                let k = choose|k: int|
                    0 <= k < i && m == #[trigger] pool[k].0 && b == score_v(ctx, pool[k].1) && (forall|j: int|
                        0 <= j < i ==> score_v(ctx, #[trigger] pool[j].1) <= b) && (forall|j: int|
                        0 <= j < k ==> score_v(ctx, #[trigger] pool[j].1) < b);
                assert(forall|j: int| 0 <= j < i ==> score_v(ctx, #[trigger] pool[j].1) < s);
            }
            assert(forall|j: int| 0 <= j < i + 1 ==> score_v(ctx, #[trigger] pool[j].1) <= s);
            assert(pool[i].0 == pool[i].0);
        }
        lemma_best_from(pool, ctx, i + 1, next);
    }
}

/// Picking among candidate methods gives nothing exactly when the pool is
/// empty; otherwise it gives the first candidate of the pool whose score
/// in the context is the highest: no candidate fits the context better,
/// and ties go to table order.
pub proof fn law_pick_first_best(
    matches: Seq<(ResolvedMethodV, Seq<char>)>,
    ctx: MethodContext,
    ambiguous: bool,
)
    ensures
        pick_v(matches, ctx, ambiguous) is None <==> pick_pool(matches, ambiguous).len() == 0,
        pick_pool(matches, ambiguous).len() > 0 ==> exists|k: int|
            first_best(pick_pool(matches, ambiguous), ctx, k) && pick_v(matches, ctx, ambiguous)
                == Some(#[trigger] pick_pool(matches, ambiguous)[k].0),
{
    lemma_best_from(pick_pool(matches, ambiguous), ctx, 0, None);
}

/// The GDAL entries spelled `method`, ignoring ASCII case, in table order.
pub open spec fn gdal_entries_v(t: Seq<MethodMappingV>, method: Seq<char>) -> Seq<MethodMappingV> {
    t.filter(gdal_pred(method))
}

pub open spec fn gdal_pred(method: Seq<char>) -> spec_fn(MethodMappingV) -> bool {
    |m: MethodMappingV| eq_ignore_case(m.wkt1_name, method)
}

/// Every entry's reading of the input, from entry `i` on: the accepting
/// entries with their EPSG names, and the first rejection.
pub open spec fn gdal_collect(
    entries: Seq<MethodMappingV>,
    input: Seq<(Seq<char>, DecimalV)>,
    i: int,
    matches: Seq<(ResolvedMethodV, Seq<char>)>,
    reject: Option<RejectV>,
) -> (Seq<(ResolvedMethodV, Seq<char>)>, Option<RejectV>)
    decreases entries.len() - i,
{
    if i < 0 || i >= entries.len() {
        (matches, reject)
    } else {
        let e = entries[i];
        match gdal_match_from(e, entries, input, 0, Seq::empty()) {
            Ok(ps) => gdal_collect(
                entries,
                input,
                i + 1,
                matches.push(
                    (ResolvedMethodV { epsg_name: e.epsg_name, epsg_code: e.epsg_code, params: ps }, e.epsg_name),
                ),
                reject,
            ),
            Err(r) => gdal_collect(
                entries,
                input,
                i + 1,
                matches,
                if reject is None {
                    Some(r)
                } else {
                    reject
                },
            ),
        }
    }
}

/// The ESRI entries spelled `method`, ignoring ASCII case, in table order.
pub open spec fn esri_entries_v(t: Seq<EsriMethodMappingV>, method: Seq<char>) -> Seq<EsriMethodMappingV> {
    t.filter(esri_pred(method))
}

pub open spec fn esri_pred(method: Seq<char>) -> spec_fn(EsriMethodMappingV) -> bool {
    |m: EsriMethodMappingV| eq_ignore_case(m.esri_name, method)
}

pub open spec fn esri_collect(
    entries: Seq<EsriMethodMappingV>,
    units: Seq<(i32, UnitType)>,
    input: Seq<(Seq<char>, DecimalV)>,
    i: int,
    matches: Seq<(ResolvedMethodV, Seq<char>)>,
    reject: Option<RejectV>,
) -> (Seq<(ResolvedMethodV, Seq<char>)>, Option<RejectV>)
    decreases entries.len() - i,
{
    if i < 0 || i >= entries.len() {
        (matches, reject)
    } else {
        let e = entries[i];
        match esri_match_from(e, units, input, 0, Seq::empty()) {
            Ok(ps) => esri_collect(
                entries,
                units,
                input,
                i + 1,
                matches.push(
                    (ResolvedMethodV { epsg_name: e.epsg_name, epsg_code: e.epsg_code, params: ps }, e.epsg_name),
                ),
                reject,
            ),
            Err(r) => esri_collect(
                entries,
                units,
                input,
                i + 1,
                matches,
                if reject is None {
                    Some(r)
                } else {
                    reject
                },
            ),
        }
    }
}

/// The outcome of one table once every entry has read the input.
pub open spec fn attempt_v(
    matches: Seq<(ResolvedMethodV, Seq<char>)>,
    reject: Option<RejectV>,
    ctx: MethodContext,
    ambiguous: bool,
    method: Seq<char>,
) -> Result<ResolvedMethodV, ParseErrorV> {
    match pick_v(matches, ctx, ambiguous) {
        Some(m) => Ok(m),
        None => Err(
            match reject {
                Some(r) => reject_error(r, method),
                None => ParseErrorV::UnknownProjectionMethod { name: method },
            },
        ),
    }
}

pub struct TablesV {
    pub gdal: Seq<MethodMappingV>,
    pub esri: Seq<EsriMethodMappingV>,
    pub epsg_methods: Seq<(Seq<char>, i32)>,
    pub epsg_params: Seq<(Seq<char>, i32)>,
    pub unit_types: Seq<(i32, UnitType)>,
}

impl View for MappingTables {
    type V = TablesV;

    open spec fn view(&self) -> TablesV {
        TablesV {
            gdal: self.gdal@.map_values(|m: MethodMapping| m@),
            esri: self.esri@.map_values(|m: EsriMethodMapping| m@),
            epsg_methods: self.epsg_methods@.map_values(|x: (&'static str, i32)| (x.0@, x.1)),
            epsg_params: self.epsg_params@.map_values(|x: (&'static str, i32)| (x.0@, x.1)),
            unit_types: self.unit_types@,
        }
    }
}

/// The GDAL table's reading of the input; `None` when it has no such method.
pub open spec fn resolve_gdal_v(
    t: TablesV,
    method: Seq<char>,
    input: Seq<(Seq<char>, DecimalV)>,
    ctx: MethodContext,
) -> Option<Result<ResolvedMethodV, ParseErrorV>> {
    let entries = gdal_entries_v(t.gdal, method);
    if entries.len() == 0 {
        None
    } else {
        let (m, r) = gdal_collect(entries, input, 0, Seq::empty(), None);
        Some(attempt_v(m, r, ctx, entries.len() > 1, method))
    }
}

/// The ESRI table's reading of the input; `None` when it has no such method.
pub open spec fn resolve_esri_v(
    t: TablesV,
    method: Seq<char>,
    input: Seq<(Seq<char>, DecimalV)>,
    ctx: MethodContext,
) -> Option<Result<ResolvedMethodV, ParseErrorV>> {
    let entries = esri_entries_v(t.esri, method);
    if entries.len() == 0 {
        None
    } else {
        let (m, r) = esri_collect(entries, t.unit_types, input, 0, Seq::empty(), None);
        Some(attempt_v(m, r, ctx, entries.len() > 1, method))
    }
}

/// The first name in a table that matches `name` once normalized.
pub open spec fn name_find_v(t: Seq<(Seq<char>, i32)>, name: Seq<char>) -> Option<(Seq<char>, i32)>
    decreases t.len(),
{
    if t.len() == 0 {
        None
    } else if eq_normalized_v(t[0].0, name) {
        Some(t[0])
    } else {
        name_find_v(t.skip(1), name)
    }
}

/// The input parameters from `i` on read as EPSG parameter names.
pub open spec fn epsg_params_from(
    t: TablesV,
    method: Seq<char>,
    input: Seq<(Seq<char>, DecimalV)>,
    i: int,
    acc: Seq<ResolvedParamV>,
) -> Result<Seq<ResolvedParamV>, ParseErrorV>
    decreases input.len() - i,
{
    if i < 0 || i >= input.len() {
        Ok(acc)
    } else {
        match name_find_v(t.epsg_params, input[i].0) {
            None => Err(ParseErrorV::UnknownParameter { method, name: input[i].0 }),
            Some((pn, pc)) => epsg_params_from(
                t,
                method,
                input,
                i + 1,
                acc.push(
                    ResolvedParamV {
                        epsg_name: pn,
                        epsg_code: pc,
                        unit_type: param_unit_type_v(t.unit_types, pc, pn),
                        value: input[i].1,
                    },
                ),
            ),
        }
    }
}

/// The input read as an EPSG method name with EPSG parameter names; `None`
/// when the method name is not an EPSG one.
pub open spec fn resolve_epsg_v(
    t: TablesV,
    method: Seq<char>,
    input: Seq<(Seq<char>, DecimalV)>,
) -> Option<Result<ResolvedMethodV, ParseErrorV>> {
    match name_find_v(t.epsg_methods, method) {
        None => None,
        Some((name, code)) => Some(
            match epsg_params_from(t, method, input, 0, Seq::empty()) {
                Ok(ps) => Ok(ResolvedMethodV { epsg_name: name, epsg_code: code, params: ps }),
                Err(e) => Err(e),
            },
        ),
    }
}

/// Plain `Stereographic` is polar at the poles and oblique elsewhere.
pub open spec fn disambiguate_v(m: ResolvedMethodV) -> ResolvedMethodV {
    if m.epsg_name == "Stereographic"@ && m.epsg_code == 0 {
        let lat = match nat_origin_lat_v(m.params) {
            Some(v) => v,
            None => of_int(0),
        };
        if is_pole_v(lat) {
            ResolvedMethodV { epsg_name: "Polar Stereographic (variant A)"@, epsg_code: 9810, ..m }
        } else {
            ResolvedMethodV { epsg_name: "Oblique Stereographic"@, epsg_code: 9809, ..m }
        }
    } else {
        m
    }
}

/// A WKT1 method and its parameters resolved to EPSG names: the GDAL
/// table, then the ESRI table, then EPSG names, taking the first that
/// accepts; else the first table's error; else an unknown method.
pub open spec fn resolve_method_v(
    t: TablesV,
    method: Seq<char>,
    input: Seq<(Seq<char>, DecimalV)>,
    ctx: MethodContext,
) -> Result<ResolvedMethodV, ParseErrorV> {
    let g = resolve_gdal_v(t, method, input, ctx);
    let e = resolve_esri_v(t, method, input, ctx);
    let n = resolve_epsg_v(t, method, input);
    match g {
        Some(Ok(m)) => Ok(disambiguate_v(m)),
        _ => match e {
            Some(Ok(m)) => Ok(disambiguate_v(m)),
            _ => match n {
                Some(Ok(m)) => Ok(disambiguate_v(m)),
                _ => match g {
                    Some(Err(x)) => Err(x),
                    _ => match e {
                        Some(Err(x)) => Err(x),
                        _ => match n {
                            Some(Err(x)) => Err(x),
                            _ => Err(ParseErrorV::UnknownProjectionMethod { name: method }),
                        },
                    },
                },
            },
        },
    }
}

/// The view of a list of input parameters.
pub open spec fn input_v(v: Seq<(String, Decimal)>) -> Seq<(Seq<char>, DecimalV)> {
    v.map_values(|x: (String, Decimal)| (x.0@, x.1@))
}

/// Why a table entry could not read the input parameters.
pub enum Reject {
    UnknownName(String),
    BadValue { name: String, value: Decimal },
}

impl View for Reject {
    type V = RejectV;

    open spec fn view(&self) -> RejectV {
        match self {
            Reject::UnknownName(n) => RejectV::UnknownName(n@),
            Reject::BadValue { name, value } => RejectV::BadValue { name: name@, value: value@ },
        }
    }
}

impl Reject {
    fn into_error(self, method: &str) -> (r: ParseError)
        ensures
            r@ == reject_error(self@, method@),
    {
        match self {
            Reject::UnknownName(name) => ParseError::UnknownParameter { method: own(method), name },
            Reject::BadValue { name, value } => ParseError::UnsupportedParameterValue {
                method: own(method),
                name,
                value,
            },
        }
    }
}

/// A string with the text of `s`.
pub fn own(s: &str) -> (r: String)
    ensures
        r@ == s@,
{
    let cs = chars_of(s);
    crate::text::string_of(cs.as_slice(), 0, cs.len())
}

/// Whether two names are equal ignoring ASCII case.
pub fn eq_ignore_ascii_case(a: &str, b: &str) -> (r: bool)
    ensures
        r == eq_ignore_case(a@, b@),
{
    let x = to_lower(a);
    let y = to_lower(b);
    str_eq(x.as_str(), y.as_str())
}

/// Whether `sub` occurs in `t`.
pub fn contains(t: &str, sub: &str) -> (r: bool)
    ensures
        r == contains_text(t@, sub@),
{
    let cs = chars_of(t);
    let n = cs.len();
    let m = sub.unicode_len();
    if m > n {
        return false;
    }
    if m == 0 {
        let ghost z: int = 0;
        assert(t@.subrange(z, z + sub@.len()) =~= sub@);
        return true;
    }
    let last = n - m;
    let mut i: usize = 0;
    while i <= last
        invariant
            cs@ == t@,
            n == t@.len(),
            m == sub@.len(),
            1 <= m <= n,
            last == n - m,
            i <= last + 1,
            forall|j: int| 0 <= j < i ==> #[trigger] t@.subrange(j, j + m) != sub@,
        decreases last + 1 - i,
    {
        if crate::text::span_is(cs.as_slice(), i, i + m, sub) {
            return true;
        }
        i = i + 1;
    }
    assert forall|j: int| 0 <= j && j + sub@.len() <= t@.len() implies #[trigger] t@.subrange(
        j,
        j + sub@.len(),
    ) != sub@ by {
        assert(j < i);
    }
    false
}

impl MethodContext {
    /// How well an EPSG method name fits this context.
    pub fn score(self, epsg_name: &str) -> (r: i32)
        ensures
            r == score_v(self, epsg_name@),
    {
        let a: i32 = if contains(epsg_name, "(Spherical)") == self.is_sphere {
            1
        } else {
            -1
        };
        let b: i32 = if contains(epsg_name, "(North Orientated)") == !self.south_west_oriented {
            1
        } else {
            -1
        };
        a + b
    }
}

/// The unit type guessed from an EPSG parameter name.
pub fn unit_type_from_name(name: &str) -> (r: UnitType)
    ensures
        r == unit_type_from_name_v(name@),
{
    let l = to_lower(name);
    let ls = l.as_str();
    if contains(ls, "latitude") || contains(ls, "longitude") || contains(ls, "azimuth") || contains(
        ls,
        "angle",
    ) || contains(ls, "rotation") || str_eq(ls, "zone width") {
        return UnitType::Angular;
    }
    let cs = chars_of(name);
    let mut coefficient = cs.len() > 0 && 'A' <= cs[0] && cs[0] <= 'C';
    let mut i: usize = 1;
    while coefficient && i < cs.len()
        invariant
            cs@ == name@,
            1 <= i,
            coefficient ==> cs@.len() > 0 && 'A' <= cs@[0] && cs@[0] <= 'C',
            coefficient ==> forall|j: int| 1 <= j < i && j < cs@.len() ==> crate::text::is_digit(#[trigger] cs@[j]),
            !coefficient ==> !is_coefficient(name@),
        decreases cs@.len() - i,
    {
        if !('0' <= cs[i] && cs[i] <= '9') {
            coefficient = false;
        }
        i = i + 1;
    }
    if contains(ls, "scale") || contains(ls, "scaling") || coefficient {
        UnitType::Scale
    } else {
        UnitType::Linear
    }
}

/// The unit type the table gives a parameter code.
pub fn unit_type_for_code(t: &Vec<(i32, UnitType)>, code: i32) -> (r: Option<UnitType>)
    ensures
        r == unit_type_for_code_v(t@, code),
{
    let mut i: usize = 0;
    assert(t@.skip(0) =~= t@);
    while i < t.len()
        invariant
            i <= t@.len(),
            unit_type_for_code_v(t@, code) == unit_type_for_code_v(t@.skip(i as int), code),
        decreases t@.len() - i,
    {
        proof {
            assert(t@.skip(i as int)[0] == t@[i as int]);
            assert(t@.skip(i as int).skip(1) =~= t@.skip(i + 1));
        }
        if t[i].0 == code {
            return Some(t[i].1);
        }
        i = i + 1;
    }
    None
}

fn param_unit_type(t: &Vec<(i32, UnitType)>, code: i32, name: &str) -> (r: UnitType)
    ensures
        r == param_unit_type_v(t@, code, name@),
{
    match unit_type_for_code(t, code) {
        Some(u) => u,
        None => unit_type_from_name(name),
    }
}

fn is_identity_value(u: UnitType, v: &Decimal) -> (r: bool)
    ensures
        r == is_identity_value_v(u, v@),
{
    match u {
        UnitType::Scale => v.same_value_as(&Decimal::from_i32(1)),
        _ => v.same_value_as(&Decimal::from_i32(0)),
    }
}

fn is_pole(v: &Decimal) -> (r: bool)
    ensures
        r == is_pole_v(v@),
{
    v.same_value_as(&Decimal::from_i32(90)) || v.same_value_as(&Decimal::from_i32(-90))
}

/// The number that a whole text spells.
pub fn decimal_of(t: &str) -> (r: Option<Decimal>)
    ensures
        match decimal_of_text(t@) {
            Some(v) => r matches Some(d) && d@ == v,
            None => r is None,
        },
{
    let cs = chars_of(t);
    match Decimal::read(cs.as_slice(), 0) {
        Some((d, e)) => {
            if e == cs.len() {
                Some(d)
            } else {
                None
            }
        },
        None => {
            None
        },
    }
}

fn esri_find(ps: &Vec<EsriParamMapping>, name: &str) -> (r: Option<usize>)
    ensures
        match esri_find_v(ps@.map_values(|p: EsriParamMapping| p@), name@) {
            Some(p) => r matches Some(k) && k < ps@.len() && ps@[k as int]@ == p,
            None => r is None,
        },
{
    let ghost pv = ps@.map_values(|p: EsriParamMapping| p@);
    let mut i: usize = 0;
    assert(pv.skip(0) =~= pv);
    while i < ps.len()
        invariant
            i <= ps@.len(),
            pv == ps@.map_values(|p: EsriParamMapping| p@),
            esri_find_v(pv, name@) == esri_find_v(pv.skip(i as int), name@),
        decreases ps@.len() - i,
    {
        proof {
            assert(pv.skip(i as int)[0] == ps@[i as int]@);
            assert(pv.skip(i as int).skip(1) =~= pv.skip(i + 1));
        }
        if eq_ignore_ascii_case(ps[i].esri_name, name) {
            return Some(i);
        }
        i = i + 1;
    }
    None
}

fn resolved_find(rs: &Vec<ResolvedParam>, name: &str) -> (r: Option<usize>)
    ensures
        match resolved_find_v(rs@.map_values(|p: ResolvedParam| p@), name@) {
            Some(p) => r matches Some(k) && k < rs@.len() && rs@[k as int]@ == p,
            None => r is None,
        },
{
    let ghost rv = rs@.map_values(|p: ResolvedParam| p@);
    let mut i: usize = 0;
    assert(rv.skip(0) =~= rv);
    while i < rs.len()
        invariant
            i <= rs@.len(),
            rv == rs@.map_values(|p: ResolvedParam| p@),
            resolved_find_v(rv, name@) == resolved_find_v(rv.skip(i as int), name@),
        decreases rs@.len() - i,
    {
        proof {
            assert(rv.skip(i as int)[0] == rs@[i as int]@);
            assert(rv.skip(i as int).skip(1) =~= rv.skip(i + 1));
        }
        if str_eq(rs[i].epsg_name.as_str(), name) {
            return Some(i);
        }
        i = i + 1;
    }
    None
}

/// Read the input parameters against one ESRI table entry.
pub fn match_esri(
    c: &EsriMethodMapping,
    units: &Vec<(i32, UnitType)>,
    input: &Vec<(String, Decimal)>,
) -> (r: Result<Vec<ResolvedParam>, Reject>)
    ensures
        match esri_match_from(c@, units@, input_v(input@), 0, Seq::empty()) {
            Ok(ps) => r matches Ok(x) && x@.map_values(|p: ResolvedParam| p@) == ps,
            Err(e) => r matches Err(x) && x@ == e,
        },
{
    let ghost iv = input_v(input@);
    let mut acc: Vec<ResolvedParam> = Vec::new();
    let mut i: usize = 0;
    assert(acc@.map_values(|p: ResolvedParam| p@) =~= Seq::<ResolvedParamV>::empty());
    while i < input.len()
        invariant
            i <= input@.len(),
            iv == input_v(input@),
            esri_match_from(c@, units@, iv, 0, Seq::empty()) == esri_match_from(
                c@,
                units@,
                iv,
                i as int,
                acc@.map_values(|p: ResolvedParam| p@),
            ),
        decreases input@.len() - i,
    {
        let name = &input[i].0;
        let value = &input[i].1;
        let ghost accv = acc@.map_values(|p: ResolvedParam| p@);
        match esri_find(&c.params, name.as_str()) {
            None => {
                return Err(Reject::UnknownName(name.clone()));
            },
            Some(k) => {
                let pm = &c.params[k];
                if pm.epsg_name.unicode_len() == 0 {
                    match decimal_of(pm.fixed_value) {
                        Some(expected) => {
                            if !value.same_value_as(&expected) {
                                return Err(
                                    Reject::BadValue { name: own(pm.esri_name), value: value.clone() },
                                );
                            }
                        },
                        None => {
                            return Err(
                                Reject::BadValue { name: own(pm.esri_name), value: value.clone() },
                            );
                        },
                    }
                } else {
                    match resolved_find(&acc, pm.epsg_name) {
                        Some(j) => {
                            if !acc[j].value.same_value_as(value) {
                                return Err(
                                    Reject::BadValue { name: own(pm.esri_name), value: value.clone() },
                                );
                            }
                        },
                        None => {
                            let rp = ResolvedParam {
                                epsg_name: own(pm.epsg_name),
                                epsg_code: pm.epsg_code,
                                unit_type: param_unit_type(units, pm.epsg_code, pm.epsg_name),
                                value: value.clone(),
                            };
                            acc.push(rp);
                            proof {
                                assert(acc@.map_values(|p: ResolvedParam| p@) =~= accv.push(rp@));
                            }
                        },
                    }
                }
            },
        }
        i = i + 1;
    }
    Ok(acc)
}

/// The views of a list of GDAL entries.
pub open spec fn entries_v(v: Seq<&MethodMapping>) -> Seq<MethodMappingV> {
    v.map_values(|m: &MethodMapping| m@)
}

fn gdal_find(ps: &Vec<ParamMapping>, name: &str) -> (r: Option<usize>)
    ensures
        match gdal_find_v(ps@.map_values(|p: ParamMapping| p@), name@) {
            Some(p) => r matches Some(k) && k < ps@.len() && ps@[k as int]@ == p,
            None => r is None,
        },
{
    let ghost pv = ps@.map_values(|p: ParamMapping| p@);
    let mut i: usize = 0;
    assert(pv.skip(0) =~= pv);
    while i < ps.len()
        invariant
            i <= ps@.len(),
            pv == ps@.map_values(|p: ParamMapping| p@),
            gdal_find_v(pv, name@) == gdal_find_v(pv.skip(i as int), name@),
        decreases ps@.len() - i,
    {
        proof {
            assert(pv.skip(i as int)[0] == ps@[i as int]@);
            assert(pv.skip(i as int).skip(1) =~= pv.skip(i + 1));
        }
        if eq_ignore_ascii_case(ps[i].wkt1_name, name) || eq_normalized(ps[i].epsg_name, name) {
            return Some(i);
        }
        i = i + 1;
    }
    None
}

fn sibling_find(sibs: &Vec<&MethodMapping>, name: &str) -> (r: Option<(usize, usize)>)
    ensures
        match sibling_find_v(entries_v(sibs@), name@) {
            Some(p) => r matches Some((a, k)) && a < sibs@.len() && k < sibs@[a as int].params@.len()
                && sibs@[a as int].params@[k as int]@ == p,
            None => r is None,
        },
{
    let ghost sv = entries_v(sibs@);
    let mut i: usize = 0;
    assert(sv.skip(0) =~= sv);
    while i < sibs.len()
        invariant
            i <= sibs@.len(),
            sv == entries_v(sibs@),
            sibling_find_v(sv, name@) == sibling_find_v(sv.skip(i as int), name@),
        decreases sibs@.len() - i,
    {
        proof {
            assert(sv.skip(i as int)[0] == sibs@[i as int]@);
            assert(sv.skip(i as int).skip(1) =~= sv.skip(i + 1));
        }
        match gdal_find(&sibs[i].params, name) {
            Some(k) => {
                return Some((i, k));
            },
            None => {},
        }
        i = i + 1;
    }
    None
}

/// Read the input parameters against one GDAL table entry, with its sibling
/// entries (those sharing its WKT1 name).
pub fn match_gdal(
    c: &MethodMapping,
    sibs: &Vec<&MethodMapping>,
    input: &Vec<(String, Decimal)>,
) -> (r: Result<Vec<ResolvedParam>, Reject>)
    ensures
        match gdal_match_from(c@, entries_v(sibs@), input_v(input@), 0, Seq::empty()) {
            Ok(ps) => r matches Ok(x) && x@.map_values(|p: ResolvedParam| p@) == ps,
            Err(e) => r matches Err(x) && x@ == e,
        },
{
    let ghost iv = input_v(input@);
    let mut acc: Vec<ResolvedParam> = Vec::new();
    let mut i: usize = 0;
    assert(acc@.map_values(|p: ResolvedParam| p@) =~= Seq::<ResolvedParamV>::empty());
    while i < input.len()
        invariant
            i <= input@.len(),
            iv == input_v(input@),
            gdal_match_from(c@, entries_v(sibs@), iv, 0, Seq::empty()) == gdal_match_from(
                c@,
                entries_v(sibs@),
                iv,
                i as int,
                acc@.map_values(|p: ResolvedParam| p@),
            ),
        decreases input@.len() - i,
    {
        let name = &input[i].0;
        let value = &input[i].1;
        let ghost accv = acc@.map_values(|p: ResolvedParam| p@);
        match gdal_find(&c.params, name.as_str()) {
            Some(k) => {
                let pm = &c.params[k];
                let unit_type = if pm.unit_type == UnitType::Unitless {
                    unit_type_from_name(pm.epsg_name)
                } else {
                    pm.unit_type
                };
                let rp = ResolvedParam {
                    epsg_name: own(pm.epsg_name),
                    epsg_code: pm.epsg_code,
                    unit_type,
                    value: value.clone(),
                };
                acc.push(rp);
                proof {
                    assert(acc@.map_values(|p: ResolvedParam| p@) =~= accv.push(rp@));
                }
            },
            None => match sibling_find(sibs, name.as_str()) {
                Some((a, k)) => {
                    let pm = &sibs[a].params[k];
                    if !is_identity_value(pm.unit_type, value) {
                        return Err(Reject::BadValue { name: own(pm.wkt1_name), value: value.clone() });
                    }
                },
                None => {
                    return Err(Reject::UnknownName(name.clone()));
                },
            },
        }
        i = i + 1;
    }
    Ok(acc)
}

fn nat_origin_lat(ps: &Vec<ResolvedParam>) -> (r: Option<&Decimal>)
    ensures
        match nat_origin_lat_v(ps@.map_values(|p: ResolvedParam| p@)) {
            Some(v) => r matches Some(d) && d@ == v,
            None => r is None,
        },
{
    match resolved_find(ps, "Latitude of natural origin") {
        Some(k) => Some(&ps[k].value),
        None => None,
    }
}

fn violates_domain(m: &ResolvedMethod) -> (r: bool)
    ensures
        r == violates_domain_v(m@),
{
    if m.epsg_code != 9810 {
        return false;
    }
    match nat_origin_lat(&m.params) {
        Some(v) => !is_pole(v),
        None => false,
    }
}

/// The views of candidate methods with their EPSG names.
pub open spec fn cands_v(v: Seq<(ResolvedMethod, &'static str)>) -> Seq<(ResolvedMethodV, Seq<char>)> {
    v.map_values(|x: (ResolvedMethod, &'static str)| (x.0@, x.1@))
}

/// Choose among the entries that accepted the input.
pub fn pick(
    matches: Vec<(ResolvedMethod, &'static str)>,
    ctx: MethodContext,
    ambiguous: bool,
) -> (r: Option<ResolvedMethod>)
    ensures
        match pick_v(cands_v(matches@), ctx, ambiguous) {
            Some(m) => r matches Some(x) && x@ == m,
            None => r is None,
        },
{
    let ghost mv = cands_v(matches@);
    let mut in_domain: Vec<(ResolvedMethod, &'static str)> = Vec::new();
    let mut rest: Vec<(ResolvedMethod, &'static str)> = Vec::new();
    let mut matches = matches;
    let mut taken: Vec<(ResolvedMethod, &'static str)> = Vec::new();
    let n = matches.len();
    let mut i: usize = 0;
    proof {
        assert(mv.take(0).filter(in_domain_pred()) =~= Seq::empty());
        assert(mv.take(0).filter(out_of_domain_pred()) =~= Seq::empty());
    }
    while i < n
        invariant
            n == mv.len(),
            i <= n,
            matches@.len() == n - i,
            forall|j: int| 0 <= j < n - i ==> (#[trigger] matches@[j]).0@ == mv[j + i].0 && matches@[j].1@ == mv[j + i].1,
            cands_v(in_domain@) == mv.take(i as int).filter(in_domain_pred()),
            cands_v(rest@) == mv.take(i as int).filter(out_of_domain_pred()),
        decreases n - i,
    {
        let x = matches.remove(0);
        proof {
            assert(mv.take(i + 1) =~= mv.take(i as int).push(mv[i as int]));
            mv.take(i as int).lemma_filter_push(mv[i as int], in_domain_pred());
            mv.take(i as int).lemma_filter_push(mv[i as int], out_of_domain_pred());
        }
        let ghost xv = (x.0@, x.1@);
        let ghost before_in = cands_v(in_domain@);
        let ghost before_rest = cands_v(rest@);
        if violates_domain(&x.0) {
            rest.push(x);
            proof {
                assert(cands_v(rest@) =~= before_rest.push(xv));
            }
        } else {
            in_domain.push(x);
            proof {
                assert(cands_v(in_domain@) =~= before_in.push(xv));
            }
        }
        i = i + 1;
    }
    proof {
        assert(mv.take(n as int) =~= mv);
    }
    let pool = if in_domain.len() == 0 && !ambiguous {
        rest
    } else {
        in_domain
    };
    let ghost pv = cands_v(pool@);
    let mut best: Option<(ResolvedMethod, i32)> = None;
    let mut pool = pool;
    let pn = pool.len();
    let mut j: usize = 0;
    while j < pn
        invariant
            pn == pv.len(),
            j <= pn,
            pool@.len() == pn - j,
            forall|k: int| 0 <= k < pn - j ==> (#[trigger] pool@[k]).0@ == pv[k + j].0 && pool@[k].1@ == pv[k + j].1,
            best_from(pv, ctx, 0, None) == best_from(
                pv,
                ctx,
                j as int,
                match best {
                    Some((m, b)) => Some((m@, b as int)),
                    None => None,
                },
            ),
        decreases pn - j,
    {
        let (cand, name) = pool.remove(0);
        let sc = ctx.score(name);
        let keep = match &best {
            Some((_, b)) => sc <= *b,
            None => false,
        };
        if !keep {
            best = Some((cand, sc));
        }
        j = j + 1;
    }
    match best {
        Some((m, _)) => Some(m),
        None => None,
    }
}

pub open spec fn opt_reject(r: Option<Reject>) -> Option<RejectV> {
    match r {
        Some(x) => Some(x@),
        None => None,
    }
}

fn first_reject(reject: Option<Reject>, r: Reject) -> (out: Option<Reject>)
    ensures
        opt_reject(out) == (if reject is None {
            Some(r@)
        } else {
            opt_reject(reject)
        }),
{
    match reject {
        None => Some(r),
        Some(x) => Some(x),
    }
}

fn attempt(
    matches: Vec<(ResolvedMethod, &'static str)>,
    reject: Option<Reject>,
    ctx: MethodContext,
    ambiguous: bool,
    method: &str,
) -> (r: Result<ResolvedMethod, ParseError>)
    ensures
        match attempt_v(cands_v(matches@), opt_reject(reject), ctx, ambiguous, method@) {
            Ok(m) => r matches Ok(x) && x@ == m,
            Err(e) => r matches Err(x) && x@ == e,
        },
{
    match pick(matches, ctx, ambiguous) {
        Some(m) => Ok(m),
        None => Err(
            match reject {
                Some(r) => r.into_error(method),
                None => ParseError::UnknownProjectionMethod { name: own(method) },
            },
        ),
    }
}

/// The GDAL table's reading of the input; `None` when it has no such method.
pub fn resolve_gdal(
    t: &MappingTables,
    method: &str,
    input: &Vec<(String, Decimal)>,
    ctx: MethodContext,
) -> (r: Option<Result<ResolvedMethod, ParseError>>)
    ensures
        match resolve_gdal_v(t@, method@, input_v(input@), ctx) {
            Some(Ok(m)) => r matches Some(Ok(x)) && x@ == m,
            Some(Err(e)) => r matches Some(Err(x)) && x@ == e,
            None => r is None,
        },
{
    let ghost tv = t@.gdal;
    let mut entries: Vec<&MethodMapping> = Vec::new();
    let mut i: usize = 0;
    assert(tv.take(0).filter(gdal_pred(method@)) =~= Seq::<MethodMappingV>::empty());
    while i < t.gdal.len()
        invariant
            i <= t.gdal@.len(),
            tv == t@.gdal,
            entries_v(entries@) == tv.take(i as int).filter(gdal_pred(method@)),
        decreases t.gdal@.len() - i,
    {
        let e = &t.gdal[i];
        proof {
            assert(tv.take(i + 1) =~= tv.take(i as int).push(tv[i as int]));
            tv.take(i as int).lemma_filter_push(tv[i as int], gdal_pred(method@));
        }
        if eq_ignore_ascii_case(e.wkt1_name, method) {
            let ghost before = entries_v(entries@);
            entries.push(e);
            proof {
                assert(entries_v(entries@) =~= before.push(e@));
            }
        }
        i = i + 1;
    }
    proof {
        assert(tv.take(t.gdal@.len() as int) =~= tv);
    }
    if entries.len() == 0 {
        return None;
    }
    let ghost ev = entries_v(entries@);
    let ghost iv = input_v(input@);
    let mut matches: Vec<(ResolvedMethod, &'static str)> = Vec::new();
    let mut reject: Option<Reject> = None;
    let mut j: usize = 0;
    assert(cands_v(matches@) =~= Seq::<(ResolvedMethodV, Seq<char>)>::empty());
    while j < entries.len()
        invariant
            j <= entries@.len(),
            ev == entries_v(entries@),
            iv == input_v(input@),
            gdal_collect(ev, iv, 0, Seq::empty(), None) == gdal_collect(
                ev,
                iv,
                j as int,
                cands_v(matches@),
                opt_reject(reject),
            ),
        decreases entries@.len() - j,
    {
        let e = entries[j];
        match match_gdal(e, &entries, input) {
            Ok(ps) => {
                let rm = ResolvedMethod { epsg_name: own(e.epsg_name), epsg_code: e.epsg_code, params: ps };
                let ghost before = cands_v(matches@);
                let ghost xv = (rm@, e.epsg_name@);
                matches.push((rm, e.epsg_name));
                proof {
                    assert(cands_v(matches@) =~= before.push(xv));
                }
            },
            Err(r) => {
                reject = first_reject(reject, r);
            },
        }
        j = j + 1;
    }
    let ambiguous = entries.len() > 1;
    Some(attempt(matches, reject, ctx, ambiguous, method))
}

/// The views of a list of ESRI entries.
pub open spec fn esri_entries_of(v: Seq<&EsriMethodMapping>) -> Seq<EsriMethodMappingV> {
    v.map_values(|m: &EsriMethodMapping| m@)
}

/// The ESRI table's reading of the input; `None` when it has no such method.
pub fn resolve_esri(
    t: &MappingTables,
    method: &str,
    input: &Vec<(String, Decimal)>,
    ctx: MethodContext,
) -> (r: Option<Result<ResolvedMethod, ParseError>>)
    ensures
        match resolve_esri_v(t@, method@, input_v(input@), ctx) {
            Some(Ok(m)) => r matches Some(Ok(x)) && x@ == m,
            Some(Err(e)) => r matches Some(Err(x)) && x@ == e,
            None => r is None,
        },
{
    let ghost tv = t@.esri;
    let mut entries: Vec<&EsriMethodMapping> = Vec::new();
    let mut i: usize = 0;
    assert(tv.take(0).filter(esri_pred(method@)) =~= Seq::<EsriMethodMappingV>::empty());
    while i < t.esri.len()
        invariant
            i <= t.esri@.len(),
            tv == t@.esri,
            esri_entries_of(entries@) == tv.take(i as int).filter(esri_pred(method@)),
        decreases t.esri@.len() - i,
    {
        let e = &t.esri[i];
        proof {
            assert(tv.take(i + 1) =~= tv.take(i as int).push(tv[i as int]));
            tv.take(i as int).lemma_filter_push(tv[i as int], esri_pred(method@));
        }
        if eq_ignore_ascii_case(e.esri_name, method) {
            let ghost before = esri_entries_of(entries@);
            entries.push(e);
            proof {
                assert(esri_entries_of(entries@) =~= before.push(e@));
            }
        }
        i = i + 1;
    }
    proof {
        assert(tv.take(t.esri@.len() as int) =~= tv);
    }
    if entries.len() == 0 {
        return None;
    }
    let ghost ev = esri_entries_of(entries@);
    let ghost iv = input_v(input@);
    let mut matches: Vec<(ResolvedMethod, &'static str)> = Vec::new();
    let mut reject: Option<Reject> = None;
    let mut j: usize = 0;
    assert(cands_v(matches@) =~= Seq::<(ResolvedMethodV, Seq<char>)>::empty());
    while j < entries.len()
        invariant
            j <= entries@.len(),
            ev == esri_entries_of(entries@),
            iv == input_v(input@),
            esri_collect(ev, t@.unit_types, iv, 0, Seq::empty(), None) == esri_collect(
                ev,
                t@.unit_types,
                iv,
                j as int,
                cands_v(matches@),
                opt_reject(reject),
            ),
        decreases entries@.len() - j,
    {
        let e = entries[j];
        match match_esri(e, &t.unit_types, input) {
            Ok(ps) => {
                let rm = ResolvedMethod { epsg_name: own(e.epsg_name), epsg_code: e.epsg_code, params: ps };
                let ghost before = cands_v(matches@);
                let ghost xv = (rm@, e.epsg_name@);
                matches.push((rm, e.epsg_name));
                proof {
                    assert(cands_v(matches@) =~= before.push(xv));
                }
            },
            Err(r) => {
                reject = first_reject(reject, r);
            },
        }
        j = j + 1;
    }
    let ambiguous = entries.len() > 1;
    Some(attempt(matches, reject, ctx, ambiguous, method))
}

fn name_find(t: &Vec<(&'static str, i32)>, name: &str) -> (r: Option<(&'static str, i32)>)
    ensures
        match name_find_v(t@.map_values(|x: (&'static str, i32)| (x.0@, x.1)), name@) {
            Some((n, c)) => r matches Some((x, k)) && x@ == n && k == c,
            None => r is None,
        },
{
    let ghost tv = t@.map_values(|x: (&'static str, i32)| (x.0@, x.1));
    let mut i: usize = 0;
    assert(tv.skip(0) =~= tv);
    while i < t.len()
        invariant
            i <= t@.len(),
            tv == t@.map_values(|x: (&'static str, i32)| (x.0@, x.1)),
            name_find_v(tv, name@) == name_find_v(tv.skip(i as int), name@),
        decreases t@.len() - i,
    {
        proof {
            assert(tv.skip(i as int)[0] == (t@[i as int].0@, t@[i as int].1));
            assert(tv.skip(i as int).skip(1) =~= tv.skip(i + 1));
        }
        if eq_normalized(t[i].0, name) {
            return Some(t[i]);
        }
        i = i + 1;
    }
    None
}

/// The input read as an EPSG method name with EPSG parameter names.
pub fn resolve_epsg_names(
    t: &MappingTables,
    method: &str,
    input: &Vec<(String, Decimal)>,
) -> (r: Option<Result<ResolvedMethod, ParseError>>)
    ensures
        match resolve_epsg_v(t@, method@, input_v(input@)) {
            Some(Ok(m)) => r matches Some(Ok(x)) && x@ == m,
            Some(Err(e)) => r matches Some(Err(x)) && x@ == e,
            None => r is None,
        },
{
    let (name, code) = match name_find(&t.epsg_methods, method) {
        Some(x) => x,
        None => {
            return None;
        },
    };
    let ghost iv = input_v(input@);
    let mut acc: Vec<ResolvedParam> = Vec::new();
    let mut i: usize = 0;
    assert(acc@.map_values(|p: ResolvedParam| p@) =~= Seq::<ResolvedParamV>::empty());
    while i < input.len()
        invariant
            i <= input@.len(),
            iv == input_v(input@),
            name_find_v(t@.epsg_methods, method@) == Some((name@, code)),
            epsg_params_from(t@, method@, iv, 0, Seq::empty()) == epsg_params_from(
                t@,
                method@,
                iv,
                i as int,
                acc@.map_values(|p: ResolvedParam| p@),
            ),
        decreases input@.len() - i,
    {
        let pname = &input[i].0;
        match name_find(&t.epsg_params, pname.as_str()) {
            None => {
                return Some(
                    Err(ParseError::UnknownParameter { method: own(method), name: pname.clone() }),
                );
            },
            Some((pn, pc)) => {
                let rp = ResolvedParam {
                    epsg_name: own(pn),
                    epsg_code: pc,
                    unit_type: param_unit_type(&t.unit_types, pc, pn),
                    value: input[i].1.clone(),
                };
                let ghost before = acc@.map_values(|p: ResolvedParam| p@);
                acc.push(rp);
                proof {
                    assert(acc@.map_values(|p: ResolvedParam| p@) =~= before.push(rp@));
                }
            },
        }
        i = i + 1;
    }
    Some(Ok(ResolvedMethod { epsg_name: own(name), epsg_code: code, params: acc }))
}

/// Plain `Stereographic` is polar at the poles and oblique elsewhere.
pub fn disambiguate_stereographic(m: ResolvedMethod) -> (r: ResolvedMethod)
    ensures
        r@ == disambiguate_v(m@),
{
    if !str_eq(m.epsg_name.as_str(), "Stereographic") || m.epsg_code != 0 {
        return m;
    }
    let polar = match nat_origin_lat(&m.params) {
        Some(v) => is_pole(v),
        None => is_pole(&Decimal::from_i32(0)),
    };
    let mut m = m;
    if polar {
        m.epsg_name = own("Polar Stereographic (variant A)");
        m.epsg_code = 9810;
    } else {
        m.epsg_name = own("Oblique Stereographic");
        m.epsg_code = 9809;
    }
    m
}

/// Resolve a WKT1 `PROJECTION` name and its `PARAMETER`s to EPSG names.
pub fn resolve_method(
    t: &MappingTables,
    method: &str,
    input: &Vec<(String, Decimal)>,
    ctx: MethodContext,
) -> (r: Result<ResolvedMethod, ParseError>)
    ensures
        match resolve_method_v(t@, method@, input_v(input@), ctx) {
            Ok(m) => r matches Ok(x) && x@ == m,
            Err(e) => r matches Err(x) && x@ == e,
        },
{
    let mut first_err: Option<ParseError> = None;
    match resolve_gdal(t, method, input, ctx) {
        Some(Ok(m)) => {
            return Ok(disambiguate_stereographic(m));
        },
        Some(Err(e)) => {
            first_err = Some(e);
        },
        None => {},
    }
    match resolve_esri(t, method, input, ctx) {
        Some(Ok(m)) => {
            return Ok(disambiguate_stereographic(m));
        },
        Some(Err(e)) => {
            if first_err.is_none() {
                first_err = Some(e);
            }
        },
        None => {},
    }
    match resolve_epsg_names(t, method, input) {
        Some(Ok(m)) => {
            return Ok(disambiguate_stereographic(m));
        },
        Some(Err(e)) => {
            if first_err.is_none() {
                first_err = Some(e);
            }
        },
        None => {},
    }
    match first_err {
        Some(e) => Err(e),
        None => Err(ParseError::UnknownProjectionMethod { name: own(method) }),
    }
}

} // verus!
