//! The mechanism-constructor pattern, exemplified by the Gaussian
//! constructor: class-branch validation of the numeric compatibility
//! between input domain, input metric and output privacy measure, then
//! dispatch over the closed registry of supported combinations. A
//! floating data type admits no cross-precision mixing; an integer data
//! type requires a floating measure parameter its distances inflation-cast
//! into, so privacy loss is never understated. Validation precedes every
//! allocation: a failure returns a structured error and nothing else.

use vstd::prelude::*;
use vstd::string::StringExecFns;

use crate::descriptor::{
    AtomType, TypeDesc, atom_name, atom_str, desc_atom, get_atom, is_float, is_float_atom,
    is_integer, is_integer_atom, is_number, is_number_atom, name_of, name_str, parse_name,
    parse_type,
};
use crate::error::{BoundaryError, ErrorKind};

verus! {

/// An input domain: the admissible values of one atomic type, either as
/// a scalar or element-wise over a vector.
#[derive(Clone, Copy, Debug, PartialEq, Eq, Structural)]
pub struct Domain {
    pub desc: TypeDesc,
}

impl Domain {
    /// A domain descriptor is a scalar or a vector domain shape.
    pub open spec fn wf(self) -> bool {
        self.desc matches TypeDesc::AtomDomain(_) || self.desc matches TypeDesc::VectorDomain(_)
    }

    /// The domain's atomic type.
    pub open spec fn atom(self) -> AtomType {
        desc_atom(self.desc)
    }
}

/// An input metric: a distance-function family whose associated distance
/// type is its atomic type.
#[derive(Clone, Copy, Debug, PartialEq, Eq, Structural)]
pub struct Metric {
    pub desc: TypeDesc,
}

impl Metric {
    /// A metric descriptor is an absolute-distance or a vector-norm shape.
    pub open spec fn wf(self) -> bool {
        self.desc matches TypeDesc::AbsoluteDistance(_) || self.desc matches TypeDesc::L2Distance(
            _,
        )
    }

    /// The metric's distance type.
    pub open spec fn atom(self) -> AtomType {
        desc_atom(self.desc)
    }
}

/// The message rejecting a descriptor that is not a domain shape.
pub open spec fn msg_not_domain(desc: TypeDesc) -> Seq<char> {
    "not a domain descriptor: "@ + name_of(desc)
}

/// Validates a descriptor as an input domain.
pub fn domain_from_desc(desc: TypeDesc) -> (r: Result<Domain, BoundaryError>)
    ensures
        match r {
            Ok(d) => d == (Domain { desc }) && d.wf(),
            Err(e) => !(Domain { desc }).wf() && e.kind == ErrorKind::InvalidArgument && e.message@
                == msg_not_domain(desc),
        },
{
    if matches!(desc, TypeDesc::AtomDomain(_) | TypeDesc::VectorDomain(_)) {
        Ok(Domain { desc })
    } else {
        let mut m = String::from_str("not a domain descriptor: ");
        let n = name_str(&desc);
        m.append(n.as_str());
        Err(BoundaryError::new(ErrorKind::InvalidArgument, m))
    }
}

/// The message rejecting a descriptor that is not a metric shape.
pub open spec fn msg_not_metric(desc: TypeDesc) -> Seq<char> {
    "not a metric descriptor: "@ + name_of(desc)
}

/// Validates a descriptor as an input metric.
pub fn metric_from_desc(desc: TypeDesc) -> (r: Result<Metric, BoundaryError>)
    ensures
        match r {
            Ok(m) => m == (Metric { desc }) && m.wf(),
            Err(e) => !(Metric { desc }).wf() && e.kind == ErrorKind::InvalidArgument && e.message@
                == msg_not_metric(desc),
        },
{
    if matches!(desc, TypeDesc::AbsoluteDistance(_) | TypeDesc::L2Distance(_)) {
        Ok(Metric { desc })
    } else {
        let mut m = String::from_str("not a metric descriptor: ");
        let n = name_str(&desc);
        m.append(n.as_str());
        Err(BoundaryError::new(ErrorKind::InvalidArgument, m))
    }
}

/// The registered metric spaces: a scalar domain pairs with an absolute
/// distance, a vector domain with the 2-norm distance over its elements.
pub open spec fn metric_matches_domain(dd: TypeDesc, md: TypeDesc) -> bool {
    match dd {
        TypeDesc::AtomDomain(_) => md matches TypeDesc::AbsoluteDistance(_),
        TypeDesc::VectorDomain(_) => md matches TypeDesc::L2Distance(_),
        _ => false,
    }
}

/// One axis of a dispatch table: a candidate list, given either as a
/// combinator shortcut naming a whole classification class or as a
/// single literal type. The supported combinations of a constructor are
/// declared as one candidate list per axis, whose cartesian product is
/// searched.
#[derive(Clone, Copy, Debug, PartialEq, Eq, Structural)]
pub enum Candidates {
    Floats,
    Integers,
    Numbers,
    Exactly(AtomType),
}

/// Membership of a runtime type in a candidate list.
pub open spec fn candidates_admit(c: Candidates, a: AtomType) -> bool {
    match c {
        Candidates::Floats => is_float_atom(a),
        Candidates::Integers => is_integer_atom(a),
        Candidates::Numbers => is_number_atom(a),
        Candidates::Exactly(b) => a == b,
    }
}

/// Checks one runtime type against one axis's candidate list.
pub fn candidates_check(c: &Candidates, a: AtomType) -> (r: bool)
    ensures
        r == candidates_admit(*c, a),
{
    match c {
        Candidates::Floats => is_float(a),
        Candidates::Integers => is_integer(a),
        Candidates::Numbers => is_number(a),
        Candidates::Exactly(b) => a == *b,
    }
}

/// The cartesian-product search of a three-axis dispatch table: a tuple
/// of runtime types matches exactly when every axis admits its component.
pub fn dispatch_admits(
    c0: &Candidates,
    a0: AtomType,
    c1: &Candidates,
    a1: AtomType,
    c2: &Candidates,
    a2: AtomType,
) -> (r: bool)
    ensures
        r == (candidates_admit(*c0, a0) && candidates_admit(*c1, a1) && candidates_admit(
            *c2,
            a2,
        )),
{
    candidates_check(c0, a0) && candidates_check(c1, a1) && candidates_check(c2, a2)
}

/// The inflation-cast relation between a metric's distance type and a
/// measure's distance type: the identity, or a cast of any numeric type
/// into a floating type, which rounds away from zero and so never
/// understates a distance. No other conversion is admitted, so privacy
/// loss can never be silently understated.
pub open spec fn inf_castable(qi: AtomType, qo: AtomType) -> bool {
    qi == qo || (is_number_atom(qi) && is_float_atom(qo))
}

/// The message of a floating-branch mismatch on the input distance type.
pub open spec fn msg_float_qi(qi: AtomType, t: AtomType) -> Seq<char> {
    "since data type is float, input distance type ("@ + atom_name(qi)
        + ") must match data type ("@ + atom_name(t) + ")"@
}

/// The message of a floating-branch mismatch on the output distance type.
pub open spec fn msg_float_qo(qo: AtomType, t: AtomType) -> Seq<char> {
    "since data type is float, output distance type ("@ + atom_name(qo)
        + ") must match data type ("@ + atom_name(t) + ")"@
}

/// The message rejecting an output measure outside the registry.
pub open spec fn msg_unsupported_measure(mo: TypeDesc) -> Seq<char> {
    "unsupported output measure for the gaussian mechanism: "@ + name_of(mo)
}

/// The message rejecting an unsupported (data, distance, measure) tuple.
pub open spec fn msg_unsupported_combination(t: AtomType, qi: AtomType, mo: TypeDesc) -> Seq<
    char,
> {
    "unsupported type combination for the gaussian mechanism: data type "@ + atom_name(t)
        + ", input distance type "@ + atom_name(qi) + ", output measure "@ + name_of(mo)
}

/// The message rejecting a domain/metric pairing that is not registered
/// as a metric space.
pub open spec fn msg_metric_space(dd: TypeDesc, md: TypeDesc) -> Seq<char> {
    "domain "@ + name_of(dd) + " and metric "@ + name_of(md)
        + " do not form a registered metric space"@
}

/// The whole validation/dispatch decision of the Gaussian constructor
/// over the descriptors of its inputs. The floating branch admits no
/// cross-precision mixing; the integer branch admits any numeric input
/// distance type whose values inflation-cast into a floating measure
/// parameter; the selected builder then checks that the domain/metric
/// pairing is a registered metric space.
pub open spec fn spec_gaussian_check(dd: TypeDesc, md: TypeDesc, mo: TypeDesc) -> Result<
    (),
    (ErrorKind, Seq<char>),
> {
    let t = desc_atom(dd);
    let qi = desc_atom(md);
    let qo = desc_atom(mo);
    if is_float_atom(t) {
        if qi != t {
            Err((ErrorKind::TypeMismatch, msg_float_qi(qi, t)))
        } else if qo != t {
            Err((ErrorKind::TypeMismatch, msg_float_qo(qo, t)))
        } else if !(mo matches TypeDesc::ZeroConcentratedDivergence(_)) {
            Err((ErrorKind::UnsupportedCombination, msg_unsupported_measure(mo)))
        } else if !metric_matches_domain(dd, md) {
            Err((ErrorKind::IncompatibleMetricSpace, msg_metric_space(dd, md)))
        } else {
            Ok(())
        }
    } else {
        if !(is_integer_atom(t) && is_number_atom(qi) && is_float_atom(qo) && (
        mo matches TypeDesc::ZeroConcentratedDivergence(_))) {
            Err((ErrorKind::UnsupportedCombination, msg_unsupported_combination(t, qi, mo)))
        } else if !metric_matches_domain(dd, md) {
            Err((ErrorKind::IncompatibleMetricSpace, msg_metric_space(dd, md)))
        } else {
            Ok(())
        }
    }
}

/// A measurement: a randomized mapping from its input domain, tagged with
/// its input metric and output measure and carrying the scale payload its
/// privacy-loss relation is derived from. Immutable once built.
#[derive(Clone, Copy, Debug, PartialEq, Eq, Structural)]
pub struct Measurement {
    pub input_domain: Domain,
    pub input_metric: Metric,
    pub output_measure: TypeDesc,
    pub scale_bits: u64,
}

impl Measurement {
    /// A measurement is only ever built from a combination the Gaussian
    /// validation accepts.
    pub open spec fn wf(self) -> bool {
        &&& self.input_domain.wf()
        &&& self.input_metric.wf()
        &&& spec_gaussian_check(self.input_domain.desc, self.input_metric.desc, self.output_measure)
            == Ok::<(), (ErrorKind, Seq<char>)>(())
    }
}

/// The Gaussian mechanism constructor: validates the numeric
/// compatibility of the input domain, the input metric and the requested
/// output measure, and on success builds the measurement for the
/// supplied raw scale payload. Every rejection names the offending types;
/// no partial object survives a failure.
pub fn make_gaussian(
    input_domain: &Domain,
    input_metric: &Metric,
    scale_bits: u64,
    output_measure: &TypeDesc,
) -> (r: Result<Measurement, BoundaryError>)
    requires
        input_domain.wf(),
        input_metric.wf(),
    ensures
        match r {
            Ok(m) => spec_gaussian_check(input_domain.desc, input_metric.desc, *output_measure)
                == Ok::<(), (ErrorKind, Seq<char>)>(()) && m == (Measurement {
                input_domain: *input_domain,
                input_metric: *input_metric,
                output_measure: *output_measure,
                scale_bits,
            }) && m.wf(),
            Err(e) => spec_gaussian_check(input_domain.desc, input_metric.desc, *output_measure)
                matches Err(p) && e.kind == p.0 && e.message@ == p.1,
        },
{
    let t = get_atom(&input_domain.desc);
    let qi = get_atom(&input_metric.desc);
    let qo = get_atom(output_measure);
    if is_float(t) {
        if qi != t {
            let mut m = String::from_str("since data type is float, input distance type (");
            let nqi = atom_str(qi);
            m.append(nqi.as_str());
            m.append(") must match data type (");
            let nt = atom_str(t);
            m.append(nt.as_str());
            m.append(")");
            return Err(BoundaryError::new(ErrorKind::TypeMismatch, m));
        }
        if qo != t {
            let mut m = String::from_str("since data type is float, output distance type (");
            let nqo = atom_str(qo);
            m.append(nqo.as_str());
            m.append(") must match data type (");
            let nt = atom_str(t);
            m.append(nt.as_str());
            m.append(")");
            return Err(BoundaryError::new(ErrorKind::TypeMismatch, m));
        }
        if !matches!(output_measure, TypeDesc::ZeroConcentratedDivergence(_)) {
            let mut m = String::from_str("unsupported output measure for the gaussian mechanism: ");
            let n = name_str(output_measure);
            m.append(n.as_str());
            return Err(BoundaryError::new(ErrorKind::UnsupportedCombination, m));
        }
    } else {
        let supported = dispatch_admits(
            &Candidates::Integers,
            t,
            &Candidates::Numbers,
            qi,
            &Candidates::Floats,
            qo,
        ) && matches!(output_measure, TypeDesc::ZeroConcentratedDivergence(_));
        if !supported {
            let mut m = String::from_str(
                "unsupported type combination for the gaussian mechanism: data type ",
            );
            let nt = atom_str(t);
            m.append(nt.as_str());
            m.append(", input distance type ");
            let nqi = atom_str(qi);
            m.append(nqi.as_str());
            m.append(", output measure ");
            let nmo = name_str(output_measure);
            m.append(nmo.as_str());
            return Err(BoundaryError::new(ErrorKind::UnsupportedCombination, m));
        }
    }
    let shape_ok = match (&input_domain.desc, &input_metric.desc) {
        (TypeDesc::AtomDomain(_), TypeDesc::AbsoluteDistance(_)) => true,
        (TypeDesc::VectorDomain(_), TypeDesc::L2Distance(_)) => true,
        _ => false,
    };
    if !shape_ok {
        let mut m = String::from_str("domain ");
        let nd = name_str(&input_domain.desc);
        m.append(nd.as_str());
        m.append(" and metric ");
        let nm = name_str(&input_metric.desc);
        m.append(nm.as_str());
        m.append(" do not form a registered metric space");
        return Err(BoundaryError::new(ErrorKind::IncompatibleMetricSpace, m));
    }
    Ok(
        Measurement {
            input_domain: *input_domain,
            input_metric: *input_metric,
            output_measure: *output_measure,
            scale_bits,
        },
    )
}

/// The Gaussian constructor as reached from the boundary: the output
/// measure arrives as a canonical type name, which is resolved in the
/// registry before validation; an unregistered name is rejected as an
/// unsupported type.
pub fn make_gaussian_named(
    input_domain: &Domain,
    input_metric: &Metric,
    scale_bits: u64,
    output_measure_name: &str,
) -> (r: Result<Measurement, BoundaryError>)
    requires
        input_domain.wf(),
        input_metric.wf(),
    ensures
        match parse_name(output_measure_name@) {
            None => r matches Err(e) && e.kind == ErrorKind::UnsupportedType && e.message@
                == "unsupported type descriptor: "@ + output_measure_name@,
            Some(mo) => match r {
                Ok(m) => spec_gaussian_check(input_domain.desc, input_metric.desc, mo) == Ok::<
                    (),
                    (ErrorKind, Seq<char>),
                >(()) && m == (Measurement {
                    input_domain: *input_domain,
                    input_metric: *input_metric,
                    output_measure: mo,
                    scale_bits,
                }) && m.wf(),
                Err(e) => spec_gaussian_check(input_domain.desc, input_metric.desc, mo) matches Err(
                    p,
                ) && e.kind == p.0 && e.message@ == p.1,
            },
        },
{
    match parse_type(output_measure_name) {
        Ok(mo) => make_gaussian(input_domain, input_metric, scale_bits, &mo),
        Err(e) => Err(e),
    }
}

/// The clamping of an exact sum into the 32-bit integer range.
pub open spec fn clamp_i32(x: int) -> int {
    if x < i32::MIN {
        i32::MIN as int
    } else if x > i32::MAX {
        i32::MAX as int
    } else {
        x
    }
}

/// The message rejecting an invocation on a measurement over another
/// domain.
pub open spec fn msg_invoke_domain(dd: TypeDesc) -> Seq<char> {
    "invocation argument of type i32 does not match the measurement's domain "@ + name_of(dd)
}

/// Invokes a measurement over the scalar 32-bit integer domain: the
/// output is the input shifted by the noise value the sampler supplied,
/// saturating at the type's bounds. The noise is drawn outside this
/// library with mean zero, so the mechanism is mean-preserving wherever
/// the sum stays in range.
pub fn invoke_i32(m: &Measurement, arg: i32, noise: i32) -> (r: Result<i32, BoundaryError>)
    ensures
        match r {
            Ok(v) => m.input_domain.desc == TypeDesc::AtomDomain(AtomType::I32) && v as int
                == clamp_i32(arg + noise),
            Err(e) => m.input_domain.desc != TypeDesc::AtomDomain(AtomType::I32) && e.kind
                == ErrorKind::TypeMismatch && e.message@ == msg_invoke_domain(m.input_domain.desc),
        },
{
    match m.input_domain.desc {
        TypeDesc::AtomDomain(AtomType::I32) => {
            let sum: i64 = arg as i64 + noise as i64;
            let lo: i64 = i32::MIN as i64;
            let hi: i64 = i32::MAX as i64;
            let v: i64 = if sum < lo {
                lo
            } else if sum > hi {
                hi
            } else {
                sum
            };
            Ok(v as i32)
        },
        _ => {
            let mut msg = String::from_str("invocation argument of type i32 does not match the measurement's domain ");
            let n = name_str(&m.input_domain.desc);
            msg.append(n.as_str());
            Err(BoundaryError::new(ErrorKind::TypeMismatch, msg))
        },
    }
}

/// The message rejecting a vector invocation on a measurement over
/// another domain.
pub open spec fn msg_invoke_vec_domain(dd: TypeDesc) -> Seq<char> {
    "invocation argument of type Vec<i32> does not match the measurement's domain "@ + name_of(dd)
}

/// Invokes a measurement over the vector 32-bit integer domain: each
/// element is shifted by the noise value the sampler supplied for it,
/// saturating at the type's bounds. A noise payload of the wrong length
/// is a marshalling fault.
pub fn invoke_vec_i32(m: &Measurement, arg: &Vec<i32>, noise: &Vec<i32>) -> (r: Result<
    Vec<i32>,
    BoundaryError,
>)
    ensures
        match r {
            Ok(v) => m.input_domain.desc == TypeDesc::VectorDomain(AtomType::I32) && noise@.len()
                == arg@.len() && v@.len() == arg@.len() && (forall|j: int|
                0 <= j < arg@.len() ==> v@[j] as int == clamp_i32(arg@[j] + noise@[j])),
            Err(e) => if m.input_domain.desc != TypeDesc::VectorDomain(AtomType::I32) {
                e.kind == ErrorKind::TypeMismatch && e.message@ == msg_invoke_vec_domain(
                    m.input_domain.desc,
                )
            } else {
                noise@.len() != arg@.len() && e.kind == ErrorKind::InternalMarshalling && e.message@
                    == "noise payload length does not match argument length"@
            },
        },
{
    match m.input_domain.desc {
        TypeDesc::VectorDomain(AtomType::I32) => {
            if noise.len() != arg.len() {
                return Err(
                    BoundaryError::new(
                        ErrorKind::InternalMarshalling,
                        String::from_str("noise payload length does not match argument length"),
                    ),
                );
            }
            let mut out: Vec<i32> = Vec::new();
            let mut i: usize = 0;
            while i < arg.len()
                invariant
                    i <= arg@.len(),
                    noise@.len() == arg@.len(),
                    out@.len() == i,
                    forall|j: int| 0 <= j < i ==> out@[j] as int == clamp_i32(arg@[j] + noise@[j]),
                decreases arg@.len() - i,
            {
                let sum: i64 = arg[i] as i64 + noise[i] as i64;
                let lo: i64 = i32::MIN as i64;
                let hi: i64 = i32::MAX as i64;
                let v: i64 = if sum < lo {
                    lo
                } else if sum > hi {
                    hi
                } else {
                    sum
                };
                out.push(v as i32);
                i = i + 1;
            }
            Ok(out)
        },
        _ => {
            let mut msg = String::from_str(
                "invocation argument of type Vec<i32> does not match the measurement's domain ",
            );
            let n = name_str(&m.input_domain.desc);
            msg.append(n.as_str());
            Err(BoundaryError::new(ErrorKind::TypeMismatch, msg))
        },
    }
}

/// Wherever the shifted value stays in the 32-bit range, the invocation
/// returns exactly the input plus the supplied noise: with zero-mean
/// noise the mechanism's output has the input as its expected value.
pub proof fn lemma_invoke_mean_preserving(arg: int, noise: int)
    requires
        i32::MIN <= arg + noise <= i32::MAX,
    ensures
        clamp_i32(arg + noise) == arg + noise,
{
}

/// Floating strictness: over a floating data type, any metric whose
/// distance type differs from the data type is rejected as a type
/// mismatch, whatever the scale payload holds.
pub proof fn lemma_floating_strictness(dd: TypeDesc, md: TypeDesc, mo: TypeDesc)
    requires
        is_float_atom(desc_atom(dd)),
        desc_atom(md) != desc_atom(dd),
    ensures
        spec_gaussian_check(dd, md, mo) matches Err(p) && p.0 == ErrorKind::TypeMismatch,
{
}

/// Floating success: when domain, metric and measure all carry the same
/// floating atomic type and the domain/metric pairing is a registered
/// metric space, construction is accepted for every scale payload.
pub proof fn lemma_floating_success(dd: TypeDesc, md: TypeDesc, mo: TypeDesc)
    requires
        is_float_atom(desc_atom(dd)),
        desc_atom(md) == desc_atom(dd),
        mo == TypeDesc::ZeroConcentratedDivergence(desc_atom(dd)),
        metric_matches_domain(dd, md),
    ensures
        spec_gaussian_check(dd, md, mo) == Ok::<(), (ErrorKind, Seq<char>)>(()),
{
}

/// Integer inflation rule: an integer data type with any numeric input
/// distance type and a floating measure parameter is accepted whenever
/// the domain/metric pairing is registered — the distances inflation-cast
/// into the measure's type without understating risk.
pub proof fn lemma_integer_inflation(dd: TypeDesc, md: TypeDesc, mo: TypeDesc)
    requires
        is_integer_atom(desc_atom(dd)),
        is_number_atom(desc_atom(md)),
        mo matches TypeDesc::ZeroConcentratedDivergence(q) && is_float_atom(q),
        metric_matches_domain(dd, md),
    ensures
        spec_gaussian_check(dd, md, mo) == Ok::<(), (ErrorKind, Seq<char>)>(()),
{
}

/// Integer inflation rule, negative: over an integer data type, a measure
/// whose parameter type is not floating is rejected as an unsupported
/// combination.
pub proof fn lemma_integer_inflation_negative(dd: TypeDesc, md: TypeDesc, mo: TypeDesc)
    requires
        is_integer_atom(desc_atom(dd)),
        !is_float_atom(desc_atom(mo)),
    ensures
        spec_gaussian_check(dd, md, mo) matches Err(p) && p.0 == ErrorKind::UnsupportedCombination,
{
}

/// The relationship invariant of every constructed measurement: its
/// metric's distance type inflation-casts into its measure's distance
/// type, so no accepted combination can understate privacy loss.
pub proof fn lemma_measurement_inf_cast(m: Measurement)
    requires
        m.wf(),
    ensures
        inf_castable(m.input_metric.atom(), desc_atom(m.output_measure)),
{
}

} // verus!
