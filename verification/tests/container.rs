use dp_boundary::descriptor::{AtomType, TypeDesc};
use dp_boundary::error::ErrorKind;
use dp_boundary::object::{wrap, Value};

fn sample_values() -> Vec<Value> {
    vec![
        Value::Bool(true),
        Value::U8(7),
        Value::U32(40000),
        Value::U64(18446744073709551615),
        Value::I32(-123),
        Value::I64(-9223372036854775808),
        Value::F32Bits(1.5f32.to_bits()),
        Value::F64Bits(1.0f64.to_bits()),
        Value::Str(String::from("hello")),
        Value::VecBool(vec![true, false]),
        Value::VecU8(vec![1, 2, 3]),
        Value::VecU32(vec![10]),
        Value::VecU64(vec![]),
        Value::VecI32(vec![1, -2, 3]),
        Value::VecI64(vec![-1]),
        Value::VecF32Bits(vec![0.5f32.to_bits()]),
        Value::VecF64Bits(vec![2.0f64.to_bits(), 0.25f64.to_bits()]),
        Value::VecStr(vec![String::from("a"), String::from("b")]),
        Value::F64PairBits(0.5f64.to_bits(), 1e-6f64.to_bits()),
    ]
}

#[test]
fn test_wrap_borrow_round_trip() {
    for v in sample_values() {
        let handle = wrap(v.clone());
        let desc = handle.type_desc();
        let borrowed = handle.borrow(&desc).expect("matching descriptor must succeed");
        assert_eq!(*borrowed, v);
    }
}

#[test]
fn test_borrow_mismatch_always_fails() {
    let mut all_descs = vec![TypeDesc::F64Pair];
    for a in [
        AtomType::Bool,
        AtomType::U8,
        AtomType::U32,
        AtomType::U64,
        AtomType::I32,
        AtomType::I64,
        AtomType::F32,
        AtomType::F64,
        AtomType::Str,
    ] {
        all_descs.push(TypeDesc::Atom(a));
        all_descs.push(TypeDesc::Vector(a));
    }
    for v in sample_values() {
        let handle = wrap(v);
        let own = handle.type_desc();
        for d in &all_descs {
            if *d != own {
                let e = handle.borrow(d).expect_err("foreign descriptor must fail");
                assert_eq!(e.kind, ErrorKind::TypeMismatch);
            }
        }
    }
}

#[test]
fn test_borrow_mismatch_message() {
    let handle = wrap(Value::I32(5));
    let e = handle
        .borrow(&TypeDesc::Atom(AtomType::F64))
        .expect_err("mismatch");
    assert_eq!(e.message, "type mismatch: expected f64, found i32");
}

#[test]
fn test_into_owned_returns_value() {
    let handle = wrap(Value::Str(String::from("payload")));
    assert_eq!(handle.into_owned(), Value::Str(String::from("payload")));
}

#[test]
fn test_describe_scalars() {
    assert_eq!(wrap(Value::Bool(true)).describe().unwrap(), "true");
    assert_eq!(wrap(Value::Bool(false)).describe().unwrap(), "false");
    assert_eq!(wrap(Value::U8(0)).describe().unwrap(), "0");
    assert_eq!(wrap(Value::U32(40000)).describe().unwrap(), "40000");
    assert_eq!(
        wrap(Value::U64(18446744073709551615)).describe().unwrap(),
        "18446744073709551615"
    );
    assert_eq!(wrap(Value::I32(-123)).describe().unwrap(), "-123");
    assert_eq!(
        wrap(Value::I64(-9223372036854775808)).describe().unwrap(),
        "-9223372036854775808"
    );
    assert_eq!(wrap(Value::Str(String::from("hello"))).describe().unwrap(), "\"hello\"");
}

#[test]
fn test_describe_float_payloads_as_bits() {
    assert_eq!(
        wrap(Value::F64Bits(1.0f64.to_bits())).describe().unwrap(),
        "f64 bits 4607182418800017408"
    );
    assert_eq!(
        wrap(Value::F32Bits(1.5f32.to_bits())).describe().unwrap(),
        format!("f32 bits {}", 1.5f32.to_bits())
    );
    assert_eq!(
        wrap(Value::F64PairBits(0.0f64.to_bits(), 1.0f64.to_bits()))
            .describe()
            .unwrap(),
        "(f64 bits 0, f64 bits 4607182418800017408)"
    );
}

#[test]
fn test_describe_containers() {
    assert_eq!(wrap(Value::VecI32(vec![1, -2, 3])).describe().unwrap(), "[1, -2, 3]");
    assert_eq!(wrap(Value::VecU64(vec![])).describe().unwrap(), "[]");
    assert_eq!(wrap(Value::VecBool(vec![true, false])).describe().unwrap(), "[true, false]");
    assert_eq!(
        wrap(Value::VecStr(vec![String::from("a"), String::from("b")]))
            .describe()
            .unwrap(),
        "[\"a\", \"b\"]"
    );
    assert_eq!(
        wrap(Value::VecF64Bits(vec![2.0f64.to_bits()])).describe().unwrap(),
        format!("f64 bits [{}]", 2.0f64.to_bits())
    );
}

#[test]
fn test_describe_every_supported_type_succeeds() {
    for v in sample_values() {
        let handle = wrap(v);
        assert!(handle.describe().is_ok());
    }
}

#[test]
fn test_wrap_free_cycles() {
    // Repeated wrap/free cycles: every handle is consumed exactly once,
    // so no outstanding allocation survives an iteration.
    for i in 0..10000u64 {
        let handle = wrap(Value::U64(i));
        handle.free();
        let handle = wrap(Value::VecStr(vec![String::from("x"); 4]));
        handle.free();
    }
    let handle = wrap(Value::Str(String::from("still fine")));
    assert_eq!(handle.describe().unwrap(), "\"still fine\"");
    handle.free();
}

#[test]
fn test_describe_string_ownership_transfers() {
    let handle = wrap(Value::U32(1));
    let first = handle.describe().unwrap();
    let second = handle.describe().unwrap();
    drop(first);
    assert_eq!(second, "1");
}
