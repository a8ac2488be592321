use dp_boundary::descriptor::{
    get_atom, is_float, is_integer, is_number, name_str, parse_type, AtomType, TypeDesc,
};
use dp_boundary::error::ErrorKind;

fn all_atoms() -> Vec<AtomType> {
    vec![
        AtomType::Bool,
        AtomType::U8,
        AtomType::U32,
        AtomType::U64,
        AtomType::I32,
        AtomType::I64,
        AtomType::F32,
        AtomType::F64,
        AtomType::Str,
    ]
}

fn all_descriptors() -> Vec<TypeDesc> {
    let mut all = vec![TypeDesc::F64Pair];
    for a in all_atoms() {
        all.push(TypeDesc::Atom(a));
        all.push(TypeDesc::Vector(a));
        all.push(TypeDesc::AtomDomain(a));
        all.push(TypeDesc::VectorDomain(a));
        all.push(TypeDesc::AbsoluteDistance(a));
        all.push(TypeDesc::L2Distance(a));
        all.push(TypeDesc::ZeroConcentratedDivergence(a));
    }
    all
}

#[test]
fn test_names_are_canonical() {
    assert_eq!(name_str(&TypeDesc::Atom(AtomType::F64)), "f64");
    assert_eq!(name_str(&TypeDesc::Atom(AtomType::Str)), "String");
    assert_eq!(name_str(&TypeDesc::Vector(AtomType::I32)), "Vec<i32>");
    assert_eq!(name_str(&TypeDesc::AtomDomain(AtomType::I32)), "AtomDomain<i32>");
    assert_eq!(
        name_str(&TypeDesc::VectorDomain(AtomType::F64)),
        "VectorDomain<AtomDomain<f64>>"
    );
    assert_eq!(
        name_str(&TypeDesc::AbsoluteDistance(AtomType::U32)),
        "AbsoluteDistance<u32>"
    );
    assert_eq!(name_str(&TypeDesc::L2Distance(AtomType::F32)), "L2Distance<f32>");
    assert_eq!(
        name_str(&TypeDesc::ZeroConcentratedDivergence(AtomType::F64)),
        "ZeroConcentratedDivergence<f64>"
    );
    assert_eq!(name_str(&TypeDesc::F64Pair), "(f64, f64)");
}

#[test]
fn test_parse_render_round_trip() {
    for d in all_descriptors() {
        let name = name_str(&d);
        let parsed = parse_type(name.as_str()).expect("canonical name must parse");
        assert_eq!(parsed, d);
    }
}

#[test]
fn test_names_are_distinct() {
    let all = all_descriptors();
    for (i, a) in all.iter().enumerate() {
        for (j, b) in all.iter().enumerate() {
            if i != j {
                assert_ne!(name_str(a), name_str(b));
            }
        }
    }
}

#[test]
fn test_parse_unregistered_name_fails() {
    for name in ["Duck", "Vec<Duck>", "AtomDomain<i32", "f64 ", "", "Vec<Vec<i32>>"] {
        let e = parse_type(name).expect_err("unregistered name must be rejected");
        assert_eq!(e.kind, ErrorKind::UnsupportedType);
        assert_eq!(e.message, format!("unsupported type descriptor: {}", name));
    }
}

#[test]
fn test_classification_sets() {
    assert!(is_float(AtomType::F32));
    assert!(is_float(AtomType::F64));
    assert!(!is_float(AtomType::I32));
    assert!(is_integer(AtomType::U8));
    assert!(is_integer(AtomType::I64));
    assert!(!is_integer(AtomType::F64));
    assert!(!is_integer(AtomType::Bool));
    assert!(is_number(AtomType::U64));
    assert!(is_number(AtomType::F32));
    assert!(!is_number(AtomType::Str));
    assert!(!is_number(AtomType::Bool));
}

#[test]
fn test_get_atom() {
    assert_eq!(get_atom(&TypeDesc::AtomDomain(AtomType::I32)), AtomType::I32);
    assert_eq!(get_atom(&TypeDesc::VectorDomain(AtomType::F64)), AtomType::F64);
    assert_eq!(
        get_atom(&TypeDesc::ZeroConcentratedDivergence(AtomType::F32)),
        AtomType::F32
    );
    assert_eq!(get_atom(&TypeDesc::Atom(AtomType::U8)), AtomType::U8);
    assert_eq!(get_atom(&TypeDesc::F64Pair), AtomType::F64);
}

#[test]
fn test_descriptor_equality_is_structural() {
    assert_eq!(TypeDesc::Vector(AtomType::I32), TypeDesc::Vector(AtomType::I32));
    assert_ne!(TypeDesc::Vector(AtomType::I32), TypeDesc::Vector(AtomType::I64));
    assert_ne!(TypeDesc::Atom(AtomType::I32), TypeDesc::AtomDomain(AtomType::I32));
}
