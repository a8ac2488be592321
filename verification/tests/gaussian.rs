use dp_boundary::bootstrap;
use dp_boundary::descriptor::{AtomType, TypeDesc};
use dp_boundary::error::ErrorKind;
use dp_boundary::gaussian::{
    candidates_check, dispatch_admits, domain_from_desc, invoke_i32, invoke_vec_i32,
    make_gaussian, make_gaussian_named, metric_from_desc, Candidates,
};

#[test]
fn test_make_gaussian_ffi() {
    let input_domain = domain_from_desc(TypeDesc::AtomDomain(AtomType::I32)).unwrap();
    let input_metric = metric_from_desc(TypeDesc::AbsoluteDistance(AtomType::I32)).unwrap();
    let measurement = make_gaussian_named(
        &input_domain,
        &input_metric,
        0.0f64.to_bits(),
        "ZeroConcentratedDivergence<f64>",
    )
    .unwrap();
    // With a zero scale the sampler adds no noise.
    let res = invoke_i32(&measurement, 99, 0).unwrap();
    assert_eq!(res, 99);
}

#[test]
fn test_floating_strictness() {
    // A 64-bit floating domain with a 32-bit floating metric distance
    // type fails, regardless of the scale payload.
    let input_domain = domain_from_desc(TypeDesc::AtomDomain(AtomType::F64)).unwrap();
    let input_metric = metric_from_desc(TypeDesc::AbsoluteDistance(AtomType::F32)).unwrap();
    for scale in [0.0f64, 1.0, 1e30] {
        let e = make_gaussian(
            &input_domain,
            &input_metric,
            scale.to_bits(),
            &TypeDesc::ZeroConcentratedDivergence(AtomType::F64),
        )
        .expect_err("cross-precision mixing must be rejected");
        assert_eq!(e.kind, ErrorKind::TypeMismatch);
        assert_eq!(
            e.message,
            "since data type is float, input distance type (f32) must match data type (f64)"
        );
    }
}

#[test]
fn test_floating_output_strictness() {
    let input_domain = domain_from_desc(TypeDesc::AtomDomain(AtomType::F64)).unwrap();
    let input_metric = metric_from_desc(TypeDesc::AbsoluteDistance(AtomType::F64)).unwrap();
    let e = make_gaussian(
        &input_domain,
        &input_metric,
        1.0f64.to_bits(),
        &TypeDesc::ZeroConcentratedDivergence(AtomType::F32),
    )
    .expect_err("cross-precision output must be rejected");
    assert_eq!(e.kind, ErrorKind::TypeMismatch);
    assert_eq!(
        e.message,
        "since data type is float, output distance type (f32) must match data type (f64)"
    );
}

#[test]
fn test_floating_success() {
    // Domain, metric and measure all 64-bit floating, scale = 1.0.
    let input_domain = domain_from_desc(TypeDesc::AtomDomain(AtomType::F64)).unwrap();
    let input_metric = metric_from_desc(TypeDesc::AbsoluteDistance(AtomType::F64)).unwrap();
    let m = make_gaussian_named(
        &input_domain,
        &input_metric,
        1.0f64.to_bits(),
        "ZeroConcentratedDivergence<f64>",
    )
    .unwrap();
    assert_eq!(m.input_domain.desc, TypeDesc::AtomDomain(AtomType::F64));
    assert_eq!(m.input_metric.desc, TypeDesc::AbsoluteDistance(AtomType::F64));
    assert_eq!(m.output_measure, TypeDesc::ZeroConcentratedDivergence(AtomType::F64));
    assert_eq!(f64::from_bits(m.scale_bits), 1.0);
}

#[test]
fn test_integer_inflation_rule() {
    // 32-bit integer domain and metric with a 64-bit floating measure
    // parameter: every i32 distance inflation-casts losslessly into f64.
    let input_domain = domain_from_desc(TypeDesc::AtomDomain(AtomType::I32)).unwrap();
    let input_metric = metric_from_desc(TypeDesc::AbsoluteDistance(AtomType::I32)).unwrap();
    let m = make_gaussian(
        &input_domain,
        &input_metric,
        1.0f64.to_bits(),
        &TypeDesc::ZeroConcentratedDivergence(AtomType::F64),
    )
    .unwrap();
    // Invoking on 99 with the zero-mean sampler's draw handed in as zero
    // yields exactly 99, the expected value of the mechanism's output.
    assert_eq!(invoke_i32(&m, 99, 0).unwrap(), 99);
    assert_eq!(invoke_i32(&m, 99, 5).unwrap(), 104);
    assert_eq!(invoke_i32(&m, 99, -5).unwrap(), 94);
}

#[test]
fn test_integer_inflation_rule_negative() {
    // A non-floating measure parameter type is an unsupported combination.
    let input_domain = domain_from_desc(TypeDesc::AtomDomain(AtomType::I32)).unwrap();
    let input_metric = metric_from_desc(TypeDesc::AbsoluteDistance(AtomType::I32)).unwrap();
    for qo in [AtomType::I64, AtomType::U32, AtomType::Bool, AtomType::Str] {
        let e = make_gaussian(
            &input_domain,
            &input_metric,
            1.0f64.to_bits(),
            &TypeDesc::ZeroConcentratedDivergence(qo),
        )
        .expect_err("non-floating measure parameter must be rejected");
        assert_eq!(e.kind, ErrorKind::UnsupportedCombination);
    }
}

#[test]
fn test_unregistered_measure_name() {
    let input_domain = domain_from_desc(TypeDesc::AtomDomain(AtomType::I32)).unwrap();
    let input_metric = metric_from_desc(TypeDesc::AbsoluteDistance(AtomType::I32)).unwrap();
    let e = make_gaussian_named(&input_domain, &input_metric, 0, "SmoothedMaxDivergence<f64>")
        .expect_err("unregistered measure name must be rejected");
    assert_eq!(e.kind, ErrorKind::UnsupportedType);
    assert_eq!(
        e.message,
        "unsupported type descriptor: SmoothedMaxDivergence<f64>"
    );
}

#[test]
fn test_metric_space_pairing() {
    // A vector domain pairs with the 2-norm distance, not the absolute
    // distance; the mismatch is caught inside dispatch.
    let vector_domain = domain_from_desc(TypeDesc::VectorDomain(AtomType::F64)).unwrap();
    let absolute = metric_from_desc(TypeDesc::AbsoluteDistance(AtomType::F64)).unwrap();
    let e = make_gaussian(
        &vector_domain,
        &absolute,
        1.0f64.to_bits(),
        &TypeDesc::ZeroConcentratedDivergence(AtomType::F64),
    )
    .expect_err("unregistered metric space must be rejected");
    assert_eq!(e.kind, ErrorKind::IncompatibleMetricSpace);
    assert_eq!(
        e.message,
        "domain VectorDomain<AtomDomain<f64>> and metric AbsoluteDistance<f64> do not form a registered metric space"
    );

    let l2 = metric_from_desc(TypeDesc::L2Distance(AtomType::F64)).unwrap();
    assert!(make_gaussian(
        &vector_domain,
        &l2,
        1.0f64.to_bits(),
        &TypeDesc::ZeroConcentratedDivergence(AtomType::F64),
    )
    .is_ok());
}

#[test]
fn test_domain_and_metric_shape_validation() {
    let e = domain_from_desc(TypeDesc::Atom(AtomType::I32)).expect_err("not a domain");
    assert_eq!(e.kind, ErrorKind::InvalidArgument);
    assert_eq!(e.message, "not a domain descriptor: i32");
    let e = metric_from_desc(TypeDesc::AtomDomain(AtomType::I32)).expect_err("not a metric");
    assert_eq!(e.kind, ErrorKind::InvalidArgument);
    assert_eq!(e.message, "not a metric descriptor: AtomDomain<i32>");
}

#[test]
fn test_invoke_on_foreign_domain_fails() {
    let input_domain = domain_from_desc(TypeDesc::AtomDomain(AtomType::U8)).unwrap();
    let input_metric = metric_from_desc(TypeDesc::AbsoluteDistance(AtomType::I32)).unwrap();
    let m = make_gaussian(
        &input_domain,
        &input_metric,
        1.0f64.to_bits(),
        &TypeDesc::ZeroConcentratedDivergence(AtomType::F64),
    )
    .unwrap();
    let e = invoke_i32(&m, 99, 0).expect_err("wrong argument type must be rejected");
    assert_eq!(e.kind, ErrorKind::TypeMismatch);
}

#[test]
fn test_invoke_saturates_at_bounds() {
    let input_domain = domain_from_desc(TypeDesc::AtomDomain(AtomType::I32)).unwrap();
    let input_metric = metric_from_desc(TypeDesc::AbsoluteDistance(AtomType::I32)).unwrap();
    let m = make_gaussian(
        &input_domain,
        &input_metric,
        1.0f64.to_bits(),
        &TypeDesc::ZeroConcentratedDivergence(AtomType::F64),
    )
    .unwrap();
    assert_eq!(invoke_i32(&m, i32::MAX, 1).unwrap(), i32::MAX);
    assert_eq!(invoke_i32(&m, i32::MIN, -1).unwrap(), i32::MIN);
}

#[test]
fn test_bootstrap_document() {
    let doc = bootstrap();
    assert!(doc.starts_with("{\"functions\":["));
    assert!(doc.contains("\"make_gaussian\""));
    assert!(doc.contains("\"data_free\""));
}

#[test]
fn test_invoke_vector_domain() {
    let input_domain = domain_from_desc(TypeDesc::VectorDomain(AtomType::I32)).unwrap();
    let input_metric = metric_from_desc(TypeDesc::L2Distance(AtomType::I32)).unwrap();
    let m = make_gaussian(
        &input_domain,
        &input_metric,
        1.0f64.to_bits(),
        &TypeDesc::ZeroConcentratedDivergence(AtomType::F64),
    )
    .unwrap();
    assert_eq!(
        invoke_vec_i32(&m, &vec![1, 2, 3], &vec![0, 0, 0]).unwrap(),
        vec![1, 2, 3]
    );
    assert_eq!(
        invoke_vec_i32(&m, &vec![1, 2, 3], &vec![1, -1, 2]).unwrap(),
        vec![2, 1, 5]
    );
    let e = invoke_vec_i32(&m, &vec![1, 2, 3], &vec![0]).expect_err("length mismatch");
    assert_eq!(e.kind, ErrorKind::InternalMarshalling);
    assert_eq!(e.message, "noise payload length does not match argument length");
    let e = invoke_i32(&m, 99, 0).expect_err("scalar argument on a vector domain");
    assert_eq!(e.kind, ErrorKind::TypeMismatch);
}

#[test]
fn test_candidate_lists() {
    assert!(candidates_check(&Candidates::Floats, AtomType::F64));
    assert!(!candidates_check(&Candidates::Floats, AtomType::I32));
    assert!(candidates_check(&Candidates::Integers, AtomType::U8));
    assert!(candidates_check(&Candidates::Numbers, AtomType::F32));
    assert!(!candidates_check(&Candidates::Numbers, AtomType::Str));
    assert!(candidates_check(&Candidates::Exactly(AtomType::I64), AtomType::I64));
    assert!(!candidates_check(&Candidates::Exactly(AtomType::I64), AtomType::I32));
    assert!(dispatch_admits(
        &Candidates::Integers,
        AtomType::I32,
        &Candidates::Numbers,
        AtomType::I32,
        &Candidates::Floats,
        AtomType::F64,
    ));
    assert!(!dispatch_admits(
        &Candidates::Integers,
        AtomType::I32,
        &Candidates::Numbers,
        AtomType::I32,
        &Candidates::Floats,
        AtomType::I64,
    ));
}
