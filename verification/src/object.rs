//! The type-erasure container: a value of one of the closed set of
//! supported types behind an opaque handle, together with its type
//! descriptor. A handle has exactly one owner; ownership moves across
//! the boundary, and a handle is released by exactly one free call.

use vstd::prelude::*;
use vstd::string::StringExecFns;

use crate::descriptor::{AtomType, TypeDesc, name_of, name_str};
use crate::error::{BoundaryError, ErrorKind};
use crate::render::{Render, dec_int, dec_nat, i64_dec, render_list, spec_list, u64_dec};

verus! {

/// A value of one of the supported concrete types. Floating values are
/// held as their raw bit patterns, the shape in which they cross the
/// boundary; the pair variant carries the two bit patterns of a
/// smoothed-max-divergence distance.
#[derive(Clone, Debug, PartialEq)]
pub enum Value {
    Bool(bool),
    U8(u8),
    U32(u32),
    U64(u64),
    I32(i32),
    I64(i64),
    F32Bits(u32),
    F64Bits(u64),
    Str(String),
    VecBool(Vec<bool>),
    VecU8(Vec<u8>),
    VecU32(Vec<u32>),
    VecU64(Vec<u64>),
    VecI32(Vec<i32>),
    VecI64(Vec<i64>),
    VecF32Bits(Vec<u32>),
    VecF64Bits(Vec<u64>),
    VecStr(Vec<String>),
    F64PairBits(u64, u64),
}

/// The descriptor of the compile-time type a value was built from. The
/// stored descriptor of a handle always exactly matches its value.
pub open spec fn type_of_value(v: Value) -> TypeDesc {
    match v {
        Value::Bool(_) => TypeDesc::Atom(AtomType::Bool),
        Value::U8(_) => TypeDesc::Atom(AtomType::U8),
        Value::U32(_) => TypeDesc::Atom(AtomType::U32),
        Value::U64(_) => TypeDesc::Atom(AtomType::U64),
        Value::I32(_) => TypeDesc::Atom(AtomType::I32),
        Value::I64(_) => TypeDesc::Atom(AtomType::I64),
        Value::F32Bits(_) => TypeDesc::Atom(AtomType::F32),
        Value::F64Bits(_) => TypeDesc::Atom(AtomType::F64),
        Value::Str(_) => TypeDesc::Atom(AtomType::Str),
        Value::VecBool(_) => TypeDesc::Vector(AtomType::Bool),
        Value::VecU8(_) => TypeDesc::Vector(AtomType::U8),
        Value::VecU32(_) => TypeDesc::Vector(AtomType::U32),
        Value::VecU64(_) => TypeDesc::Vector(AtomType::U64),
        Value::VecI32(_) => TypeDesc::Vector(AtomType::I32),
        Value::VecI64(_) => TypeDesc::Vector(AtomType::I64),
        Value::VecF32Bits(_) => TypeDesc::Vector(AtomType::F32),
        Value::VecF64Bits(_) => TypeDesc::Vector(AtomType::F64),
        Value::VecStr(_) => TypeDesc::Vector(AtomType::Str),
        Value::F64PairBits(_, _) => TypeDesc::F64Pair,
    }
}

/// Computes the descriptor of a value.
pub fn value_type(v: &Value) -> (d: TypeDesc)
    ensures
        d == type_of_value(*v),
{
    match v {
        Value::Bool(_) => TypeDesc::Atom(AtomType::Bool),
        Value::U8(_) => TypeDesc::Atom(AtomType::U8),
        Value::U32(_) => TypeDesc::Atom(AtomType::U32),
        Value::U64(_) => TypeDesc::Atom(AtomType::U64),
        Value::I32(_) => TypeDesc::Atom(AtomType::I32),
        Value::I64(_) => TypeDesc::Atom(AtomType::I64),
        Value::F32Bits(_) => TypeDesc::Atom(AtomType::F32),
        Value::F64Bits(_) => TypeDesc::Atom(AtomType::F64),
        Value::Str(_) => TypeDesc::Atom(AtomType::Str),
        Value::VecBool(_) => TypeDesc::Vector(AtomType::Bool),
        Value::VecU8(_) => TypeDesc::Vector(AtomType::U8),
        Value::VecU32(_) => TypeDesc::Vector(AtomType::U32),
        Value::VecU64(_) => TypeDesc::Vector(AtomType::U64),
        Value::VecI32(_) => TypeDesc::Vector(AtomType::I32),
        Value::VecI64(_) => TypeDesc::Vector(AtomType::I64),
        Value::VecF32Bits(_) => TypeDesc::Vector(AtomType::F32),
        Value::VecF64Bits(_) => TypeDesc::Vector(AtomType::F64),
        Value::VecStr(_) => TypeDesc::Vector(AtomType::Str),
        Value::F64PairBits(_, _) => TypeDesc::F64Pair,
    }
}

/// The outcome of borrowing a handle under an expected descriptor: the
/// stored value when the descriptor matches the stored one exactly, and
/// a type-mismatch failure otherwise — never reinterpreted data.
pub open spec fn borrow_model(v: Value, expected: TypeDesc) -> Result<Value, ErrorKind> {
    if expected == type_of_value(v) {
        Ok(v)
    } else {
        Err(ErrorKind::TypeMismatch)
    }
}

/// The diagnostic message of a failed borrow, naming both descriptors.
pub open spec fn mismatch_message(expected: TypeDesc, actual: TypeDesc) -> Seq<char> {
    "type mismatch: expected "@ + name_of(expected) + ", found "@ + name_of(actual)
}

/// The diagnostic rendering of a stored value: its embedded value for the
/// supported scalars and containers, with floating payloads shown as the
/// bit patterns in which they crossed the boundary.
pub open spec fn spec_describe(v: Value) -> Seq<char> {
    match v {
        Value::Bool(b) => b.rspec(),
        Value::U8(x) => dec_nat(x as nat),
        Value::U32(x) => dec_nat(x as nat),
        Value::U64(x) => dec_nat(x as nat),
        Value::I32(x) => dec_int(x as int),
        Value::I64(x) => dec_int(x as int),
        Value::F32Bits(x) => "f32 bits "@ + dec_nat(x as nat),
        Value::F64Bits(x) => "f64 bits "@ + dec_nat(x as nat),
        Value::Str(s) => s.rspec(),
        Value::VecBool(v) => spec_list(v@),
        Value::VecU8(v) => spec_list(v@),
        Value::VecU32(v) => spec_list(v@),
        Value::VecU64(v) => spec_list(v@),
        Value::VecI32(v) => spec_list(v@),
        Value::VecI64(v) => spec_list(v@),
        Value::VecF32Bits(v) => "f32 bits "@ + spec_list(v@),
        Value::VecF64Bits(v) => "f64 bits "@ + spec_list(v@),
        Value::VecStr(v) => spec_list(v@),
        Value::F64PairBits(a, b) => "(f64 bits "@ + dec_nat(a as nat) + ", f64 bits "@ + dec_nat(
            b as nat,
        ) + ")"@,
    }
}

/// The type-erased handle: an owned value whose descriptor is derivable
/// from its variant, so the stored descriptor can never drift from the
/// embedded value.
#[derive(Debug)]
pub struct FfiObject {
    pub value: Value,
}

/// Wraps a concrete value into an erased handle; always succeeds, and
/// the handle's descriptor is the true type of the value. Ownership of
/// the handle passes to the caller.
pub fn wrap(value: Value) -> (o: FfiObject)
    ensures
        o.value == value,
{
    FfiObject { value }
}

impl FfiObject {
    /// The descriptor of the stored value.
    pub fn type_desc(&self) -> (d: TypeDesc)
        ensures
            d == type_of_value(self.value),
    {
        value_type(&self.value)
    }

    /// Borrows the stored value under an expected descriptor: a safe
    /// downcast that fails with a type mismatch whenever the expected
    /// descriptor differs from the stored one.
    pub fn borrow<'a>(&'a self, expected: &TypeDesc) -> (r: Result<&'a Value, BoundaryError>)
        ensures
            match r {
                Ok(v) => *expected == type_of_value(self.value) && *v == self.value,
                Err(e) => *expected != type_of_value(self.value) && e.kind
                    == ErrorKind::TypeMismatch && e.message@ == mismatch_message(
                    *expected,
                    type_of_value(self.value),
                ),
            },
    {
        let actual = value_type(&self.value);
        if *expected == actual {
            Ok(&self.value)
        } else {
            let mut m = String::from_str("type mismatch: expected ");
            let en = name_str(expected);
            m.append(en.as_str());
            m.append(", found ");
            let an = name_str(&actual);
            m.append(an.as_str());
            Err(BoundaryError::new(ErrorKind::TypeMismatch, m))
        }
    }

    /// Consumes the handle and hands the embedded value back. Any further
    /// use of the handle is ruled out by ownership itself.
    pub fn into_owned(self) -> (v: Value)
        ensures
            v == self.value,
    {
        self.value
    }

    /// Releases the handle and the value it owns. Called exactly once per
    /// live handle; the move enforces that no second owner remains.
    pub fn free(self) {
        let _ = self;
    }

    /// Produces the diagnostic representation of the stored value by
    /// dispatching over the closed set of supported types; the handle's
    /// closed construction makes the dispatch exhaustive, so every stored
    /// value renders. Ownership of the returned string passes to the
    /// caller, who releases it.
    pub fn describe(&self) -> (r: Result<String, BoundaryError>)
        ensures
            r matches Ok(s) && s@ == spec_describe(self.value),
    {
        match &self.value {
            Value::Bool(b) => Ok(b.render()),
            Value::U8(x) => Ok(u64_dec(*x as u64)),
            Value::U32(x) => Ok(u64_dec(*x as u64)),
            Value::U64(x) => Ok(u64_dec(*x)),
            Value::I32(x) => Ok(i64_dec(*x as i64)),
            Value::I64(x) => Ok(i64_dec(*x)),
            Value::F32Bits(x) => {
                let mut s = String::from_str("f32 bits ");
                let d = u64_dec(*x as u64);
                s.append(d.as_str());
                Ok(s)
            },
            Value::F64Bits(x) => {
                let mut s = String::from_str("f64 bits ");
                let d = u64_dec(*x);
                s.append(d.as_str());
                Ok(s)
            },
            Value::Str(st) => Ok(st.render()),
            Value::VecBool(v) => Ok(render_list(v)),
            Value::VecU8(v) => Ok(render_list(v)),
            Value::VecU32(v) => Ok(render_list(v)),
            Value::VecU64(v) => Ok(render_list(v)),
            Value::VecI32(v) => Ok(render_list(v)),
            Value::VecI64(v) => Ok(render_list(v)),
            Value::VecF32Bits(v) => {
                let mut s = String::from_str("f32 bits ");
                let l = render_list(v);
                s.append(l.as_str());
                Ok(s)
            },
            Value::VecF64Bits(v) => {
                let mut s = String::from_str("f64 bits ");
                let l = render_list(v);
                s.append(l.as_str());
                Ok(s)
            },
            Value::VecStr(v) => Ok(render_list(v)),
            Value::F64PairBits(a, b) => {
                let mut s = String::from_str("(f64 bits ");
                let da = u64_dec(*a);
                s.append(da.as_str());
                s.append(", f64 bits ");
                let db = u64_dec(*b);
                s.append(db.as_str());
                s.append(")");
                Ok(s)
            },
        }
    }
}

/// Round trip: borrowing a handle under the descriptor its value was
/// wrapped with always yields the original value, unchanged.
pub proof fn lemma_borrow_round_trip(v: Value)
    ensures
        borrow_model(v, type_of_value(v)) == Ok::<Value, ErrorKind>(v),
{
}

/// Type safety: borrowing a handle under any descriptor other than the
/// one its value was wrapped with always fails with a type mismatch,
/// never yielding misinterpreted data.
pub proof fn lemma_borrow_type_safety(v: Value, d: TypeDesc)
    requires
        d != type_of_value(v),
    ensures
        borrow_model(v, d) == Err::<Value, ErrorKind>(ErrorKind::TypeMismatch),
{
}

} // verus!
