//! The type-descriptor registry: a structured, comparable representation
//! of every runtime type name the boundary supports, with classification
//! sets and a parser for the canonical type-name grammar (base identifier
//! plus bracketed generic arguments). The registry is closed at compile
//! time, so "unsupported type" failures are exhaustive and stable.

use vstd::prelude::*;
use vstd::string::StringExecFns;

use crate::error::{BoundaryError, ErrorKind};

verus! {

/// The closed set of atomic types. Floating values cross the boundary as
/// raw bit payloads, so the two floating atoms describe values held as
/// their bit patterns.
#[derive(Clone, Copy, Debug, PartialEq, Eq, Structural)]
pub enum AtomType {
    Bool,
    U8,
    U32,
    U64,
    I32,
    I64,
    F32,
    F64,
    Str,
}

/// A structured runtime type descriptor: an atomic type, a container of
/// one, a domain, a metric or a measure over one, or the pair type used
/// for smoothed-max-divergence distances. Two descriptors compare equal
/// exactly when they were produced from identical canonical names.
#[derive(Clone, Copy, Debug, PartialEq, Eq, Structural)]
pub enum TypeDesc {
    Atom(AtomType),
    Vector(AtomType),
    AtomDomain(AtomType),
    VectorDomain(AtomType),
    AbsoluteDistance(AtomType),
    L2Distance(AtomType),
    ZeroConcentratedDivergence(AtomType),
    F64Pair,
}

/// Membership in the classification set of floating types.
pub open spec fn is_float_atom(a: AtomType) -> bool {
    a == AtomType::F32 || a == AtomType::F64
}

/// Membership in the classification set of integer types.
pub open spec fn is_integer_atom(a: AtomType) -> bool {
    a == AtomType::U8 || a == AtomType::U32 || a == AtomType::U64 || a == AtomType::I32 || a
        == AtomType::I64
}

/// Membership in the classification set of numeric types.
pub open spec fn is_number_atom(a: AtomType) -> bool {
    is_float_atom(a) || is_integer_atom(a)
}

/// Fast single-type classification check: does the atom belong to the
/// floats class? Cheap enough to decide a branch before any diagnostic
/// context is built.
pub fn is_float(a: AtomType) -> (r: bool)
    ensures
        r == is_float_atom(a),
{
    matches!(a, AtomType::F32 | AtomType::F64)
}

/// Fast single-type classification check for the integers class.
pub fn is_integer(a: AtomType) -> (r: bool)
    ensures
        r == is_integer_atom(a),
{
    matches!(a, AtomType::U8 | AtomType::U32 | AtomType::U64 | AtomType::I32 | AtomType::I64)
}

/// Fast single-type classification check for the numbers class.
pub fn is_number(a: AtomType) -> (r: bool)
    ensures
        r == is_number_atom(a),
{
    is_float(a) || is_integer(a)
}

/// The atomic type a descriptor is built over: the descriptor itself for
/// an atom, its type argument otherwise.
pub open spec fn desc_atom(d: TypeDesc) -> AtomType {
    match d {
        TypeDesc::Atom(a) => a,
        TypeDesc::Vector(a) => a,
        TypeDesc::AtomDomain(a) => a,
        TypeDesc::VectorDomain(a) => a,
        TypeDesc::AbsoluteDistance(a) => a,
        TypeDesc::L2Distance(a) => a,
        TypeDesc::ZeroConcentratedDivergence(a) => a,
        TypeDesc::F64Pair => AtomType::F64,
    }
}

/// Recovers the atomic type a descriptor is built over.
pub fn get_atom(d: &TypeDesc) -> (a: AtomType)
    ensures
        a == desc_atom(*d),
{
    match d {
        TypeDesc::Atom(a) => *a,
        TypeDesc::Vector(a) => *a,
        TypeDesc::AtomDomain(a) => *a,
        TypeDesc::VectorDomain(a) => *a,
        TypeDesc::AbsoluteDistance(a) => *a,
        TypeDesc::L2Distance(a) => *a,
        TypeDesc::ZeroConcentratedDivergence(a) => *a,
        TypeDesc::F64Pair => AtomType::F64,
    }
}

/// The canonical name of an atomic type.
pub open spec fn atom_name(a: AtomType) -> Seq<char> {
    match a {
        AtomType::Bool => "bool"@,
        AtomType::U8 => "u8"@,
        AtomType::U32 => "u32"@,
        AtomType::U64 => "u64"@,
        AtomType::I32 => "i32"@,
        AtomType::I64 => "i64"@,
        AtomType::F32 => "f32"@,
        AtomType::F64 => "f64"@,
        AtomType::Str => "String"@,
    }
}

/// The canonical name of the Vector descriptor over each atom.
pub open spec fn vector_name(a: AtomType) -> Seq<char> {
    match a {
        AtomType::Bool => "Vec<bool>"@,
        AtomType::U8 => "Vec<u8>"@,
        AtomType::U32 => "Vec<u32>"@,
        AtomType::U64 => "Vec<u64>"@,
        AtomType::I32 => "Vec<i32>"@,
        AtomType::I64 => "Vec<i64>"@,
        AtomType::F32 => "Vec<f32>"@,
        AtomType::F64 => "Vec<f64>"@,
        AtomType::Str => "Vec<String>"@,
    }
}

/// The canonical name of the AtomDomain descriptor over each atom.
pub open spec fn atom_domain_name(a: AtomType) -> Seq<char> {
    match a {
        AtomType::Bool => "AtomDomain<bool>"@,
        AtomType::U8 => "AtomDomain<u8>"@,
        AtomType::U32 => "AtomDomain<u32>"@,
        AtomType::U64 => "AtomDomain<u64>"@,
        AtomType::I32 => "AtomDomain<i32>"@,
        AtomType::I64 => "AtomDomain<i64>"@,
        AtomType::F32 => "AtomDomain<f32>"@,
        AtomType::F64 => "AtomDomain<f64>"@,
        AtomType::Str => "AtomDomain<String>"@,
    }
}

/// The canonical name of the VectorDomain descriptor over each atom.
pub open spec fn vector_domain_name(a: AtomType) -> Seq<char> {
    match a {
        AtomType::Bool => "VectorDomain<AtomDomain<bool>>"@,
        AtomType::U8 => "VectorDomain<AtomDomain<u8>>"@,
        AtomType::U32 => "VectorDomain<AtomDomain<u32>>"@,
        AtomType::U64 => "VectorDomain<AtomDomain<u64>>"@,
        AtomType::I32 => "VectorDomain<AtomDomain<i32>>"@,
        AtomType::I64 => "VectorDomain<AtomDomain<i64>>"@,
        AtomType::F32 => "VectorDomain<AtomDomain<f32>>"@,
        AtomType::F64 => "VectorDomain<AtomDomain<f64>>"@,
        AtomType::Str => "VectorDomain<AtomDomain<String>>"@,
    }
}

/// The canonical name of the AbsoluteDistance descriptor over each atom.
pub open spec fn absolute_distance_name(a: AtomType) -> Seq<char> {
    match a {
        AtomType::Bool => "AbsoluteDistance<bool>"@,
        AtomType::U8 => "AbsoluteDistance<u8>"@,
        AtomType::U32 => "AbsoluteDistance<u32>"@,
        AtomType::U64 => "AbsoluteDistance<u64>"@,
        AtomType::I32 => "AbsoluteDistance<i32>"@,
        AtomType::I64 => "AbsoluteDistance<i64>"@,
        AtomType::F32 => "AbsoluteDistance<f32>"@,
        AtomType::F64 => "AbsoluteDistance<f64>"@,
        AtomType::Str => "AbsoluteDistance<String>"@,
    }
}

/// The canonical name of the L2Distance descriptor over each atom.
pub open spec fn l2_distance_name(a: AtomType) -> Seq<char> {
    match a {
        AtomType::Bool => "L2Distance<bool>"@,
        AtomType::U8 => "L2Distance<u8>"@,
        AtomType::U32 => "L2Distance<u32>"@,
        AtomType::U64 => "L2Distance<u64>"@,
        AtomType::I32 => "L2Distance<i32>"@,
        AtomType::I64 => "L2Distance<i64>"@,
        AtomType::F32 => "L2Distance<f32>"@,
        AtomType::F64 => "L2Distance<f64>"@,
        AtomType::Str => "L2Distance<String>"@,
    }
}

/// The canonical name of the ZeroConcentratedDivergence descriptor over each atom.
pub open spec fn zcd_name(a: AtomType) -> Seq<char> {
    match a {
        AtomType::Bool => "ZeroConcentratedDivergence<bool>"@,
        AtomType::U8 => "ZeroConcentratedDivergence<u8>"@,
        AtomType::U32 => "ZeroConcentratedDivergence<u32>"@,
        AtomType::U64 => "ZeroConcentratedDivergence<u64>"@,
        AtomType::I32 => "ZeroConcentratedDivergence<i32>"@,
        AtomType::I64 => "ZeroConcentratedDivergence<i64>"@,
        AtomType::F32 => "ZeroConcentratedDivergence<f32>"@,
        AtomType::F64 => "ZeroConcentratedDivergence<f64>"@,
        AtomType::Str => "ZeroConcentratedDivergence<String>"@,
    }
}

/// The canonical name of any supported descriptor.
pub open spec fn name_of(d: TypeDesc) -> Seq<char> {
    match d {
        TypeDesc::Atom(a) => atom_name(a),
        TypeDesc::Vector(a) => vector_name(a),
        TypeDesc::AtomDomain(a) => atom_domain_name(a),
        TypeDesc::VectorDomain(a) => vector_domain_name(a),
        TypeDesc::AbsoluteDistance(a) => absolute_distance_name(a),
        TypeDesc::L2Distance(a) => l2_distance_name(a),
        TypeDesc::ZeroConcentratedDivergence(a) => zcd_name(a),
        TypeDesc::F64Pair => "(f64, f64)"@,
    }
}

/// Renders the canonical name of an atomic type.
pub fn atom_str(a: AtomType) -> (s: String)
    ensures
        s@ == atom_name(a),
{
    match a {
        AtomType::Bool => String::from_str("bool"),
        AtomType::U8 => String::from_str("u8"),
        AtomType::U32 => String::from_str("u32"),
        AtomType::U64 => String::from_str("u64"),
        AtomType::I32 => String::from_str("i32"),
        AtomType::I64 => String::from_str("i64"),
        AtomType::F32 => String::from_str("f32"),
        AtomType::F64 => String::from_str("f64"),
        AtomType::Str => String::from_str("String"),
    }
}

/// Renders the canonical name of any supported descriptor; callers own
/// the returned string.
pub fn name_str(d: &TypeDesc) -> (s: String)
    ensures
        s@ == name_of(*d),
{
    match d {
        TypeDesc::Atom(a) => atom_str(*a),
        TypeDesc::Vector(a) => {
            match a {
                AtomType::Bool => String::from_str("Vec<bool>"),
                AtomType::U8 => String::from_str("Vec<u8>"),
                AtomType::U32 => String::from_str("Vec<u32>"),
                AtomType::U64 => String::from_str("Vec<u64>"),
                AtomType::I32 => String::from_str("Vec<i32>"),
                AtomType::I64 => String::from_str("Vec<i64>"),
                AtomType::F32 => String::from_str("Vec<f32>"),
                AtomType::F64 => String::from_str("Vec<f64>"),
                AtomType::Str => String::from_str("Vec<String>"),
            }
        },
        TypeDesc::AtomDomain(a) => {
            match a {
                AtomType::Bool => String::from_str("AtomDomain<bool>"),
                AtomType::U8 => String::from_str("AtomDomain<u8>"),
                AtomType::U32 => String::from_str("AtomDomain<u32>"),
                AtomType::U64 => String::from_str("AtomDomain<u64>"),
                AtomType::I32 => String::from_str("AtomDomain<i32>"),
                AtomType::I64 => String::from_str("AtomDomain<i64>"),
                AtomType::F32 => String::from_str("AtomDomain<f32>"),
                AtomType::F64 => String::from_str("AtomDomain<f64>"),
                AtomType::Str => String::from_str("AtomDomain<String>"),
            }
        },
        TypeDesc::VectorDomain(a) => {
            match a {
                AtomType::Bool => String::from_str("VectorDomain<AtomDomain<bool>>"),
                AtomType::U8 => String::from_str("VectorDomain<AtomDomain<u8>>"),
                AtomType::U32 => String::from_str("VectorDomain<AtomDomain<u32>>"),
                AtomType::U64 => String::from_str("VectorDomain<AtomDomain<u64>>"),
                AtomType::I32 => String::from_str("VectorDomain<AtomDomain<i32>>"),
                AtomType::I64 => String::from_str("VectorDomain<AtomDomain<i64>>"),
                AtomType::F32 => String::from_str("VectorDomain<AtomDomain<f32>>"),
                AtomType::F64 => String::from_str("VectorDomain<AtomDomain<f64>>"),
                AtomType::Str => String::from_str("VectorDomain<AtomDomain<String>>"),
            }
        },
        TypeDesc::AbsoluteDistance(a) => {
            match a {
                AtomType::Bool => String::from_str("AbsoluteDistance<bool>"),
                AtomType::U8 => String::from_str("AbsoluteDistance<u8>"),
                AtomType::U32 => String::from_str("AbsoluteDistance<u32>"),
                AtomType::U64 => String::from_str("AbsoluteDistance<u64>"),
                AtomType::I32 => String::from_str("AbsoluteDistance<i32>"),
                AtomType::I64 => String::from_str("AbsoluteDistance<i64>"),
                AtomType::F32 => String::from_str("AbsoluteDistance<f32>"),
                AtomType::F64 => String::from_str("AbsoluteDistance<f64>"),
                AtomType::Str => String::from_str("AbsoluteDistance<String>"),
            }
        },
        TypeDesc::L2Distance(a) => {
            match a {
                AtomType::Bool => String::from_str("L2Distance<bool>"),
                AtomType::U8 => String::from_str("L2Distance<u8>"),
                AtomType::U32 => String::from_str("L2Distance<u32>"),
                AtomType::U64 => String::from_str("L2Distance<u64>"),
                AtomType::I32 => String::from_str("L2Distance<i32>"),
                AtomType::I64 => String::from_str("L2Distance<i64>"),
                AtomType::F32 => String::from_str("L2Distance<f32>"),
                AtomType::F64 => String::from_str("L2Distance<f64>"),
                AtomType::Str => String::from_str("L2Distance<String>"),
            }
        },
        TypeDesc::ZeroConcentratedDivergence(a) => {
            match a {
                AtomType::Bool => String::from_str("ZeroConcentratedDivergence<bool>"),
                AtomType::U8 => String::from_str("ZeroConcentratedDivergence<u8>"),
                AtomType::U32 => String::from_str("ZeroConcentratedDivergence<u32>"),
                AtomType::U64 => String::from_str("ZeroConcentratedDivergence<u64>"),
                AtomType::I32 => String::from_str("ZeroConcentratedDivergence<i32>"),
                AtomType::I64 => String::from_str("ZeroConcentratedDivergence<i64>"),
                AtomType::F32 => String::from_str("ZeroConcentratedDivergence<f32>"),
                AtomType::F64 => String::from_str("ZeroConcentratedDivergence<f64>"),
                AtomType::Str => String::from_str("ZeroConcentratedDivergence<String>"),
            }
        },
        TypeDesc::F64Pair => String::from_str("(f64, f64)"),
    }
}

/// Resolves a name against the atomic entries of the registry.
pub open spec fn parse_atom_name(s: Seq<char>) -> Option<AtomType> {
    if s == "bool"@ {
        Some(AtomType::Bool)
    } else if s == "u8"@ {
        Some(AtomType::U8)
    } else if s == "u32"@ {
        Some(AtomType::U32)
    } else if s == "u64"@ {
        Some(AtomType::U64)
    } else if s == "i32"@ {
        Some(AtomType::I32)
    } else if s == "i64"@ {
        Some(AtomType::I64)
    } else if s == "f32"@ {
        Some(AtomType::F32)
    } else if s == "f64"@ {
        Some(AtomType::F64)
    } else if s == "String"@ {
        Some(AtomType::Str)
    } else {
        None
    }
}

/// Resolves a name against the Vector entries of the registry.
pub open spec fn parse_vector_name(s: Seq<char>) -> Option<AtomType> {
    if s == "Vec<bool>"@ {
        Some(AtomType::Bool)
    } else if s == "Vec<u8>"@ {
        Some(AtomType::U8)
    } else if s == "Vec<u32>"@ {
        Some(AtomType::U32)
    } else if s == "Vec<u64>"@ {
        Some(AtomType::U64)
    } else if s == "Vec<i32>"@ {
        Some(AtomType::I32)
    } else if s == "Vec<i64>"@ {
        Some(AtomType::I64)
    } else if s == "Vec<f32>"@ {
        Some(AtomType::F32)
    } else if s == "Vec<f64>"@ {
        Some(AtomType::F64)
    } else if s == "Vec<String>"@ {
        Some(AtomType::Str)
    } else {
        None
    }
}

/// Resolves a name against the AtomDomain entries of the registry.
pub open spec fn parse_atom_domain_name(s: Seq<char>) -> Option<AtomType> {
    if s == "AtomDomain<bool>"@ {
        Some(AtomType::Bool)
    } else if s == "AtomDomain<u8>"@ {
        Some(AtomType::U8)
    } else if s == "AtomDomain<u32>"@ {
        Some(AtomType::U32)
    } else if s == "AtomDomain<u64>"@ {
        Some(AtomType::U64)
    } else if s == "AtomDomain<i32>"@ {
        Some(AtomType::I32)
    } else if s == "AtomDomain<i64>"@ {
        Some(AtomType::I64)
    } else if s == "AtomDomain<f32>"@ {
        Some(AtomType::F32)
    } else if s == "AtomDomain<f64>"@ {
        Some(AtomType::F64)
    } else if s == "AtomDomain<String>"@ {
        Some(AtomType::Str)
    } else {
        None
    }
}

/// Resolves a name against the VectorDomain entries of the registry.
pub open spec fn parse_vector_domain_name(s: Seq<char>) -> Option<AtomType> {
    if s == "VectorDomain<AtomDomain<bool>>"@ {
        Some(AtomType::Bool)
    } else if s == "VectorDomain<AtomDomain<u8>>"@ {
        Some(AtomType::U8)
    } else if s == "VectorDomain<AtomDomain<u32>>"@ {
        Some(AtomType::U32)
    } else if s == "VectorDomain<AtomDomain<u64>>"@ {
        Some(AtomType::U64)
    } else if s == "VectorDomain<AtomDomain<i32>>"@ {
        Some(AtomType::I32)
    } else if s == "VectorDomain<AtomDomain<i64>>"@ {
        Some(AtomType::I64)
    } else if s == "VectorDomain<AtomDomain<f32>>"@ {
        Some(AtomType::F32)
    } else if s == "VectorDomain<AtomDomain<f64>>"@ {
        Some(AtomType::F64)
    } else if s == "VectorDomain<AtomDomain<String>>"@ {
        Some(AtomType::Str)
    } else {
        None
    }
}

/// Resolves a name against the AbsoluteDistance entries of the registry.
pub open spec fn parse_absolute_distance_name(s: Seq<char>) -> Option<AtomType> {
    if s == "AbsoluteDistance<bool>"@ {
        Some(AtomType::Bool)
    } else if s == "AbsoluteDistance<u8>"@ {
        Some(AtomType::U8)
    } else if s == "AbsoluteDistance<u32>"@ {
        Some(AtomType::U32)
    } else if s == "AbsoluteDistance<u64>"@ {
        Some(AtomType::U64)
    } else if s == "AbsoluteDistance<i32>"@ {
        Some(AtomType::I32)
    } else if s == "AbsoluteDistance<i64>"@ {
        Some(AtomType::I64)
    } else if s == "AbsoluteDistance<f32>"@ {
        Some(AtomType::F32)
    } else if s == "AbsoluteDistance<f64>"@ {
        Some(AtomType::F64)
    } else if s == "AbsoluteDistance<String>"@ {
        Some(AtomType::Str)
    } else {
        None
    }
}

/// Resolves a name against the L2Distance entries of the registry.
pub open spec fn parse_l2_distance_name(s: Seq<char>) -> Option<AtomType> {
    if s == "L2Distance<bool>"@ {
        Some(AtomType::Bool)
    } else if s == "L2Distance<u8>"@ {
        Some(AtomType::U8)
    } else if s == "L2Distance<u32>"@ {
        Some(AtomType::U32)
    } else if s == "L2Distance<u64>"@ {
        Some(AtomType::U64)
    } else if s == "L2Distance<i32>"@ {
        Some(AtomType::I32)
    } else if s == "L2Distance<i64>"@ {
        Some(AtomType::I64)
    } else if s == "L2Distance<f32>"@ {
        Some(AtomType::F32)
    } else if s == "L2Distance<f64>"@ {
        Some(AtomType::F64)
    } else if s == "L2Distance<String>"@ {
        Some(AtomType::Str)
    } else {
        None
    }
}

/// Resolves a name against the ZeroConcentratedDivergence entries of the registry.
pub open spec fn parse_zcd_name(s: Seq<char>) -> Option<AtomType> {
    if s == "ZeroConcentratedDivergence<bool>"@ {
        Some(AtomType::Bool)
    } else if s == "ZeroConcentratedDivergence<u8>"@ {
        Some(AtomType::U8)
    } else if s == "ZeroConcentratedDivergence<u32>"@ {
        Some(AtomType::U32)
    } else if s == "ZeroConcentratedDivergence<u64>"@ {
        Some(AtomType::U64)
    } else if s == "ZeroConcentratedDivergence<i32>"@ {
        Some(AtomType::I32)
    } else if s == "ZeroConcentratedDivergence<i64>"@ {
        Some(AtomType::I64)
    } else if s == "ZeroConcentratedDivergence<f32>"@ {
        Some(AtomType::F32)
    } else if s == "ZeroConcentratedDivergence<f64>"@ {
        Some(AtomType::F64)
    } else if s == "ZeroConcentratedDivergence<String>"@ {
        Some(AtomType::Str)
    } else {
        None
    }
}

/// Resolves a canonical name against the whole registry: the unique
/// supported descriptor carrying that name, or nothing.
pub open spec fn parse_name(s: Seq<char>) -> Option<TypeDesc> {
    match parse_atom_name(s) {
        Some(a) => Some(TypeDesc::Atom(a)),
        None => match parse_vector_name(s) {
            Some(a) => Some(TypeDesc::Vector(a)),
            None => match parse_atom_domain_name(s) {
                Some(a) => Some(TypeDesc::AtomDomain(a)),
                None => match parse_vector_domain_name(s) {
                    Some(a) => Some(TypeDesc::VectorDomain(a)),
                    None => match parse_absolute_distance_name(s) {
                        Some(a) => Some(TypeDesc::AbsoluteDistance(a)),
                        None => match parse_l2_distance_name(s) {
                            Some(a) => Some(TypeDesc::L2Distance(a)),
                            None => match parse_zcd_name(s) {
                                Some(a) => Some(TypeDesc::ZeroConcentratedDivergence(a)),
                                None => if s == "(f64, f64)"@ {
                                    Some(TypeDesc::F64Pair)
                                } else {
                                    None
                                },
                            },
                        },
                    },
                },
            },
        },
    }
}

/// Character-for-character equality of two string slices.
fn str_eq(a: &str, b: &str) -> (r: bool)
    ensures
        r == (a@ == b@),
{
    let sa = String::from_str(a);
    let sb = String::from_str(b);
    sa == sb
}

fn parse_atom_str(s: &str) -> (r: Option<AtomType>)
    ensures
        r == parse_atom_name(s@),
        r matches Some(a) ==> atom_name(a) == s@,
{
    if str_eq(s, "bool") {
        Some(AtomType::Bool)
    } else if str_eq(s, "u8") {
        Some(AtomType::U8)
    } else if str_eq(s, "u32") {
        Some(AtomType::U32)
    } else if str_eq(s, "u64") {
        Some(AtomType::U64)
    } else if str_eq(s, "i32") {
        Some(AtomType::I32)
    } else if str_eq(s, "i64") {
        Some(AtomType::I64)
    } else if str_eq(s, "f32") {
        Some(AtomType::F32)
    } else if str_eq(s, "f64") {
        Some(AtomType::F64)
    } else if str_eq(s, "String") {
        Some(AtomType::Str)
    } else {
        None
    }
}

fn parse_vector_str(s: &str) -> (r: Option<AtomType>)
    ensures
        r == parse_vector_name(s@),
        r matches Some(a) ==> vector_name(a) == s@,
{
    if str_eq(s, "Vec<bool>") {
        Some(AtomType::Bool)
    } else if str_eq(s, "Vec<u8>") {
        Some(AtomType::U8)
    } else if str_eq(s, "Vec<u32>") {
        Some(AtomType::U32)
    } else if str_eq(s, "Vec<u64>") {
        Some(AtomType::U64)
    } else if str_eq(s, "Vec<i32>") {
        Some(AtomType::I32)
    } else if str_eq(s, "Vec<i64>") {
        Some(AtomType::I64)
    } else if str_eq(s, "Vec<f32>") {
        Some(AtomType::F32)
    } else if str_eq(s, "Vec<f64>") {
        Some(AtomType::F64)
    } else if str_eq(s, "Vec<String>") {
        Some(AtomType::Str)
    } else {
        None
    }
}

fn parse_atom_domain_str(s: &str) -> (r: Option<AtomType>)
    ensures
        r == parse_atom_domain_name(s@),
        r matches Some(a) ==> atom_domain_name(a) == s@,
{
    if str_eq(s, "AtomDomain<bool>") {
        Some(AtomType::Bool)
    } else if str_eq(s, "AtomDomain<u8>") {
        Some(AtomType::U8)
    } else if str_eq(s, "AtomDomain<u32>") {
        Some(AtomType::U32)
    } else if str_eq(s, "AtomDomain<u64>") {
        Some(AtomType::U64)
    } else if str_eq(s, "AtomDomain<i32>") {
        Some(AtomType::I32)
    } else if str_eq(s, "AtomDomain<i64>") {
        Some(AtomType::I64)
    } else if str_eq(s, "AtomDomain<f32>") {
        Some(AtomType::F32)
    } else if str_eq(s, "AtomDomain<f64>") {
        Some(AtomType::F64)
    } else if str_eq(s, "AtomDomain<String>") {
        Some(AtomType::Str)
    } else {
        None
    }
}

fn parse_vector_domain_str(s: &str) -> (r: Option<AtomType>)
    ensures
        r == parse_vector_domain_name(s@),
        r matches Some(a) ==> vector_domain_name(a) == s@,
{
    if str_eq(s, "VectorDomain<AtomDomain<bool>>") {
        Some(AtomType::Bool)
    } else if str_eq(s, "VectorDomain<AtomDomain<u8>>") {
        Some(AtomType::U8)
    } else if str_eq(s, "VectorDomain<AtomDomain<u32>>") {
        Some(AtomType::U32)
    } else if str_eq(s, "VectorDomain<AtomDomain<u64>>") {
        Some(AtomType::U64)
    } else if str_eq(s, "VectorDomain<AtomDomain<i32>>") {
        Some(AtomType::I32)
    } else if str_eq(s, "VectorDomain<AtomDomain<i64>>") {
        Some(AtomType::I64)
    } else if str_eq(s, "VectorDomain<AtomDomain<f32>>") {
        Some(AtomType::F32)
    } else if str_eq(s, "VectorDomain<AtomDomain<f64>>") {
        Some(AtomType::F64)
    } else if str_eq(s, "VectorDomain<AtomDomain<String>>") {
        Some(AtomType::Str)
    } else {
        None
    }
}

fn parse_absolute_distance_str(s: &str) -> (r: Option<AtomType>)
    ensures
        r == parse_absolute_distance_name(s@),
        r matches Some(a) ==> absolute_distance_name(a) == s@,
{
    if str_eq(s, "AbsoluteDistance<bool>") {
        Some(AtomType::Bool)
    } else if str_eq(s, "AbsoluteDistance<u8>") {
        Some(AtomType::U8)
    } else if str_eq(s, "AbsoluteDistance<u32>") {
        Some(AtomType::U32)
    } else if str_eq(s, "AbsoluteDistance<u64>") {
        Some(AtomType::U64)
    } else if str_eq(s, "AbsoluteDistance<i32>") {
        Some(AtomType::I32)
    } else if str_eq(s, "AbsoluteDistance<i64>") {
        Some(AtomType::I64)
    } else if str_eq(s, "AbsoluteDistance<f32>") {
        Some(AtomType::F32)
    } else if str_eq(s, "AbsoluteDistance<f64>") {
        Some(AtomType::F64)
    } else if str_eq(s, "AbsoluteDistance<String>") {
        Some(AtomType::Str)
    } else {
        None
    }
}

fn parse_l2_distance_str(s: &str) -> (r: Option<AtomType>)
    ensures
        r == parse_l2_distance_name(s@),
        r matches Some(a) ==> l2_distance_name(a) == s@,
{
    if str_eq(s, "L2Distance<bool>") {
        Some(AtomType::Bool)
    } else if str_eq(s, "L2Distance<u8>") {
        Some(AtomType::U8)
    } else if str_eq(s, "L2Distance<u32>") {
        Some(AtomType::U32)
    } else if str_eq(s, "L2Distance<u64>") {
        Some(AtomType::U64)
    } else if str_eq(s, "L2Distance<i32>") {
        Some(AtomType::I32)
    } else if str_eq(s, "L2Distance<i64>") {
        Some(AtomType::I64)
    } else if str_eq(s, "L2Distance<f32>") {
        Some(AtomType::F32)
    } else if str_eq(s, "L2Distance<f64>") {
        Some(AtomType::F64)
    } else if str_eq(s, "L2Distance<String>") {
        Some(AtomType::Str)
    } else {
        None
    }
}

fn parse_zcd_str(s: &str) -> (r: Option<AtomType>)
    ensures
        r == parse_zcd_name(s@),
        r matches Some(a) ==> zcd_name(a) == s@,
{
    if str_eq(s, "ZeroConcentratedDivergence<bool>") {
        Some(AtomType::Bool)
    } else if str_eq(s, "ZeroConcentratedDivergence<u8>") {
        Some(AtomType::U8)
    } else if str_eq(s, "ZeroConcentratedDivergence<u32>") {
        Some(AtomType::U32)
    } else if str_eq(s, "ZeroConcentratedDivergence<u64>") {
        Some(AtomType::U64)
    } else if str_eq(s, "ZeroConcentratedDivergence<i32>") {
        Some(AtomType::I32)
    } else if str_eq(s, "ZeroConcentratedDivergence<i64>") {
        Some(AtomType::I64)
    } else if str_eq(s, "ZeroConcentratedDivergence<f32>") {
        Some(AtomType::F32)
    } else if str_eq(s, "ZeroConcentratedDivergence<f64>") {
        Some(AtomType::F64)
    } else if str_eq(s, "ZeroConcentratedDivergence<String>") {
        Some(AtomType::Str)
    } else {
        None
    }
}

/// Parses a canonical type-name string into its descriptor. Succeeds for
/// exactly the names in the closed registry; any other name is rejected
/// as an unsupported type, never guessed at.
pub fn parse_type(s: &str) -> (r: Result<TypeDesc, BoundaryError>)
    ensures
        match r {
            Ok(d) => parse_name(s@) == Some(d) && name_of(d) == s@,
            Err(e) => parse_name(s@) is None && e.kind == ErrorKind::UnsupportedType
                && e.message@ == "unsupported type descriptor: "@ + s@,
        },
{
    if let Some(a) = parse_atom_str(s) {
        Ok(TypeDesc::Atom(a))
    } else if let Some(a) = parse_vector_str(s) {
        Ok(TypeDesc::Vector(a))
    } else if let Some(a) = parse_atom_domain_str(s) {
        Ok(TypeDesc::AtomDomain(a))
    } else if let Some(a) = parse_vector_domain_str(s) {
        Ok(TypeDesc::VectorDomain(a))
    } else if let Some(a) = parse_absolute_distance_str(s) {
        Ok(TypeDesc::AbsoluteDistance(a))
    } else if let Some(a) = parse_l2_distance_str(s) {
        Ok(TypeDesc::L2Distance(a))
    } else if let Some(a) = parse_zcd_str(s) {
        Ok(TypeDesc::ZeroConcentratedDivergence(a))
    } else if str_eq(s, "(f64, f64)") {
        Ok(TypeDesc::F64Pair)
    } else {
        let mut m = String::from_str("unsupported type descriptor: ");
        m.append(s);
        Err(BoundaryError::new(ErrorKind::UnsupportedType, m))
    }
}

/// Dispatch exhaustiveness, positive half: the canonical name of every
/// supported descriptor resolves in the registry.
pub proof fn lemma_registered_name_parses(d: TypeDesc)
    ensures
        parse_name(name_of(d)) is Some,
{
}

/// A resolved name is the canonical name of the descriptor it resolves to.
pub proof fn lemma_parse_sound(s: Seq<char>)
    ensures
        parse_name(s) matches Some(d) ==> name_of(d) == s,
{
}

/// Dispatch exhaustiveness, negative half: a name that no supported
/// descriptor carries resolves to nothing, so lookups on it fail.
pub proof fn lemma_unregistered_name_fails(s: Seq<char>)
    requires
        forall|d: TypeDesc| name_of(d) != s,
    ensures
        parse_name(s) is None,
{
    if parse_name(s) is Some {
        lemma_parse_sound(s);
    }
}

proof fn lemma_round_trip_atom(a: AtomType)
    ensures
        parse_name(atom_name(a)) == Some(TypeDesc::Atom(a)),
{
    reveal_strlit("bool");
    reveal_strlit("u8");
    reveal_strlit("u32");
    reveal_strlit("u64");
    reveal_strlit("i32");
    reveal_strlit("i64");
    reveal_strlit("f32");
    reveal_strlit("f64");
    reveal_strlit("String");
    assert("bool"@.len() == 4);
    assert("u8"@.len() == 2);
    assert("u32"@.len() == 3);
    assert("u64"@.len() == 3);
    assert("u64"@[1] == '6');
    assert("u32"@[1] == '3');
    assert("i32"@.len() == 3);
    assert("i32"@[0] == 'i');
    assert("u32"@[0] == 'u');
    assert("u64"@[0] == 'u');
    assert("i64"@.len() == 3);
    assert("i64"@[0] == 'i');
    assert("i64"@[1] == '6');
    assert("i32"@[1] == '3');
    assert("f32"@.len() == 3);
    assert("f32"@[0] == 'f');
    assert("f64"@.len() == 3);
    assert("f64"@[0] == 'f');
    assert("f64"@[1] == '6');
    assert("f32"@[1] == '3');
    assert("String"@.len() == 6);
    match a {
        AtomType::Bool => {},
        AtomType::U8 => {},
        AtomType::U32 => {},
        AtomType::U64 => {},
        AtomType::I32 => {},
        AtomType::I64 => {},
        AtomType::F32 => {},
        AtomType::F64 => {},
        AtomType::Str => {},
    }
}

proof fn lemma_round_trip_vector(a: AtomType)
    ensures
        parse_name(vector_name(a)) == Some(TypeDesc::Vector(a)),
{
    reveal_strlit("bool");
    reveal_strlit("u8");
    reveal_strlit("u32");
    reveal_strlit("u64");
    reveal_strlit("i32");
    reveal_strlit("i64");
    reveal_strlit("f32");
    reveal_strlit("f64");
    reveal_strlit("String");
    reveal_strlit("Vec<bool>");
    reveal_strlit("Vec<u8>");
    reveal_strlit("Vec<u32>");
    reveal_strlit("Vec<u64>");
    reveal_strlit("Vec<i32>");
    reveal_strlit("Vec<i64>");
    reveal_strlit("Vec<f32>");
    reveal_strlit("Vec<f64>");
    reveal_strlit("Vec<String>");
    assert("bool"@.len() == 4);
    assert("u8"@.len() == 2);
    assert("u32"@.len() == 3);
    assert("u64"@.len() == 3);
    assert("i32"@.len() == 3);
    assert("i64"@.len() == 3);
    assert("f32"@.len() == 3);
    assert("f64"@.len() == 3);
    assert("String"@.len() == 6);
    assert("Vec<bool>"@.len() == 9);
    assert("Vec<u8>"@.len() == 7);
    assert("Vec<u32>"@.len() == 8);
    assert("Vec<u64>"@.len() == 8);
    assert("Vec<u64>"@[5] == '6');
    assert("Vec<u32>"@[5] == '3');
    assert("Vec<i32>"@.len() == 8);
    assert("Vec<i32>"@[4] == 'i');
    assert("Vec<u32>"@[4] == 'u');
    assert("Vec<u64>"@[4] == 'u');
    assert("Vec<i64>"@.len() == 8);
    assert("Vec<i64>"@[4] == 'i');
    assert("Vec<i64>"@[5] == '6');
    assert("Vec<i32>"@[5] == '3');
    assert("Vec<f32>"@.len() == 8);
    assert("Vec<f32>"@[4] == 'f');
    assert("Vec<f64>"@.len() == 8);
    assert("Vec<f64>"@[4] == 'f');
    assert("Vec<f64>"@[5] == '6');
    assert("Vec<f32>"@[5] == '3');
    assert("Vec<String>"@.len() == 11);
    match a {
        AtomType::Bool => {},
        AtomType::U8 => {},
        AtomType::U32 => {},
        AtomType::U64 => {},
        AtomType::I32 => {},
        AtomType::I64 => {},
        AtomType::F32 => {},
        AtomType::F64 => {},
        AtomType::Str => {},
    }
}

proof fn lemma_round_trip_atom_domain(a: AtomType)
    ensures
        parse_name(atom_domain_name(a)) == Some(TypeDesc::AtomDomain(a)),
{
    reveal_strlit("bool");
    reveal_strlit("u8");
    reveal_strlit("u32");
    reveal_strlit("u64");
    reveal_strlit("i32");
    reveal_strlit("i64");
    reveal_strlit("f32");
    reveal_strlit("f64");
    reveal_strlit("String");
    reveal_strlit("Vec<bool>");
    reveal_strlit("Vec<u8>");
    reveal_strlit("Vec<u32>");
    reveal_strlit("Vec<u64>");
    reveal_strlit("Vec<i32>");
    reveal_strlit("Vec<i64>");
    reveal_strlit("Vec<f32>");
    reveal_strlit("Vec<f64>");
    reveal_strlit("Vec<String>");
    reveal_strlit("AtomDomain<bool>");
    reveal_strlit("AtomDomain<u8>");
    reveal_strlit("AtomDomain<u32>");
    reveal_strlit("AtomDomain<u64>");
    reveal_strlit("AtomDomain<i32>");
    reveal_strlit("AtomDomain<i64>");
    reveal_strlit("AtomDomain<f32>");
    reveal_strlit("AtomDomain<f64>");
    reveal_strlit("AtomDomain<String>");
    assert("bool"@.len() == 4);
    assert("u8"@.len() == 2);
    assert("u32"@.len() == 3);
    assert("u64"@.len() == 3);
    assert("i32"@.len() == 3);
    assert("i64"@.len() == 3);
    assert("f32"@.len() == 3);
    assert("f64"@.len() == 3);
    assert("String"@.len() == 6);
    assert("Vec<bool>"@.len() == 9);
    assert("Vec<u8>"@.len() == 7);
    assert("Vec<u32>"@.len() == 8);
    assert("Vec<u64>"@.len() == 8);
    assert("Vec<i32>"@.len() == 8);
    assert("Vec<i64>"@.len() == 8);
    assert("Vec<f32>"@.len() == 8);
    assert("Vec<f64>"@.len() == 8);
    assert("Vec<String>"@.len() == 11);
    assert("AtomDomain<bool>"@.len() == 16);
    assert("AtomDomain<u8>"@.len() == 14);
    assert("AtomDomain<u32>"@.len() == 15);
    assert("AtomDomain<u64>"@.len() == 15);
    assert("AtomDomain<u64>"@[12] == '6');
    assert("AtomDomain<u32>"@[12] == '3');
    assert("AtomDomain<i32>"@.len() == 15);
    assert("AtomDomain<i32>"@[11] == 'i');
    assert("AtomDomain<u32>"@[11] == 'u');
    assert("AtomDomain<u64>"@[11] == 'u');
    assert("AtomDomain<i64>"@.len() == 15);
    assert("AtomDomain<i64>"@[11] == 'i');
    assert("AtomDomain<i64>"@[12] == '6');
    assert("AtomDomain<i32>"@[12] == '3');
    assert("AtomDomain<f32>"@.len() == 15);
    assert("AtomDomain<f32>"@[11] == 'f');
    assert("AtomDomain<f64>"@.len() == 15);
    assert("AtomDomain<f64>"@[11] == 'f');
    assert("AtomDomain<f64>"@[12] == '6');
    assert("AtomDomain<f32>"@[12] == '3');
    assert("AtomDomain<String>"@.len() == 18);
    match a {
        AtomType::Bool => {},
        AtomType::U8 => {},
        AtomType::U32 => {},
        AtomType::U64 => {},
        AtomType::I32 => {},
        AtomType::I64 => {},
        AtomType::F32 => {},
        AtomType::F64 => {},
        AtomType::Str => {},
    }
}

proof fn lemma_round_trip_vector_domain(a: AtomType)
    ensures
        parse_name(vector_domain_name(a)) == Some(TypeDesc::VectorDomain(a)),
{
    reveal_strlit("bool");
    reveal_strlit("u8");
    reveal_strlit("u32");
    reveal_strlit("u64");
    reveal_strlit("i32");
    reveal_strlit("i64");
    reveal_strlit("f32");
    reveal_strlit("f64");
    reveal_strlit("String");
    reveal_strlit("Vec<bool>");
    reveal_strlit("Vec<u8>");
    reveal_strlit("Vec<u32>");
    reveal_strlit("Vec<u64>");
    reveal_strlit("Vec<i32>");
    reveal_strlit("Vec<i64>");
    reveal_strlit("Vec<f32>");
    reveal_strlit("Vec<f64>");
    reveal_strlit("Vec<String>");
    reveal_strlit("AtomDomain<bool>");
    reveal_strlit("AtomDomain<u8>");
    reveal_strlit("AtomDomain<u32>");
    reveal_strlit("AtomDomain<u64>");
    reveal_strlit("AtomDomain<i32>");
    reveal_strlit("AtomDomain<i64>");
    reveal_strlit("AtomDomain<f32>");
    reveal_strlit("AtomDomain<f64>");
    reveal_strlit("AtomDomain<String>");
    reveal_strlit("VectorDomain<AtomDomain<bool>>");
    reveal_strlit("VectorDomain<AtomDomain<u8>>");
    reveal_strlit("VectorDomain<AtomDomain<u32>>");
    reveal_strlit("VectorDomain<AtomDomain<u64>>");
    reveal_strlit("VectorDomain<AtomDomain<i32>>");
    reveal_strlit("VectorDomain<AtomDomain<i64>>");
    reveal_strlit("VectorDomain<AtomDomain<f32>>");
    reveal_strlit("VectorDomain<AtomDomain<f64>>");
    reveal_strlit("VectorDomain<AtomDomain<String>>");
    assert("bool"@.len() == 4);
    assert("u8"@.len() == 2);
    assert("u32"@.len() == 3);
    assert("u64"@.len() == 3);
    assert("i32"@.len() == 3);
    assert("i64"@.len() == 3);
    assert("f32"@.len() == 3);
    assert("f64"@.len() == 3);
    assert("String"@.len() == 6);
    assert("Vec<bool>"@.len() == 9);
    assert("Vec<u8>"@.len() == 7);
    assert("Vec<u32>"@.len() == 8);
    assert("Vec<u64>"@.len() == 8);
    assert("Vec<i32>"@.len() == 8);
    assert("Vec<i64>"@.len() == 8);
    assert("Vec<f32>"@.len() == 8);
    assert("Vec<f64>"@.len() == 8);
    assert("Vec<String>"@.len() == 11);
    assert("AtomDomain<bool>"@.len() == 16);
    assert("AtomDomain<u8>"@.len() == 14);
    assert("AtomDomain<u32>"@.len() == 15);
    assert("AtomDomain<u64>"@.len() == 15);
    assert("AtomDomain<i32>"@.len() == 15);
    assert("AtomDomain<i64>"@.len() == 15);
    assert("AtomDomain<f32>"@.len() == 15);
    assert("AtomDomain<f64>"@.len() == 15);
    assert("AtomDomain<String>"@.len() == 18);
    assert("VectorDomain<AtomDomain<bool>>"@.len() == 30);
    assert("VectorDomain<AtomDomain<u8>>"@.len() == 28);
    assert("VectorDomain<AtomDomain<u32>>"@.len() == 29);
    assert("VectorDomain<AtomDomain<u64>>"@.len() == 29);
    assert("VectorDomain<AtomDomain<u64>>"@[25] == '6');
    assert("VectorDomain<AtomDomain<u32>>"@[25] == '3');
    assert("VectorDomain<AtomDomain<i32>>"@.len() == 29);
    assert("VectorDomain<AtomDomain<i32>>"@[24] == 'i');
    assert("VectorDomain<AtomDomain<u32>>"@[24] == 'u');
    assert("VectorDomain<AtomDomain<u64>>"@[24] == 'u');
    assert("VectorDomain<AtomDomain<i64>>"@.len() == 29);
    assert("VectorDomain<AtomDomain<i64>>"@[24] == 'i');
    assert("VectorDomain<AtomDomain<i64>>"@[25] == '6');
    assert("VectorDomain<AtomDomain<i32>>"@[25] == '3');
    assert("VectorDomain<AtomDomain<f32>>"@.len() == 29);
    assert("VectorDomain<AtomDomain<f32>>"@[24] == 'f');
    assert("VectorDomain<AtomDomain<f64>>"@.len() == 29);
    assert("VectorDomain<AtomDomain<f64>>"@[24] == 'f');
    assert("VectorDomain<AtomDomain<f64>>"@[25] == '6');
    assert("VectorDomain<AtomDomain<f32>>"@[25] == '3');
    assert("VectorDomain<AtomDomain<String>>"@.len() == 32);
    match a {
        AtomType::Bool => {},
        AtomType::U8 => {},
        AtomType::U32 => {},
        AtomType::U64 => {},
        AtomType::I32 => {},
        AtomType::I64 => {},
        AtomType::F32 => {},
        AtomType::F64 => {},
        AtomType::Str => {},
    }
}

proof fn lemma_round_trip_absolute_distance(a: AtomType)
    ensures
        parse_name(absolute_distance_name(a)) == Some(TypeDesc::AbsoluteDistance(a)),
{
    reveal_strlit("bool");
    reveal_strlit("u8");
    reveal_strlit("u32");
    reveal_strlit("u64");
    reveal_strlit("i32");
    reveal_strlit("i64");
    reveal_strlit("f32");
    reveal_strlit("f64");
    reveal_strlit("String");
    reveal_strlit("Vec<bool>");
    reveal_strlit("Vec<u8>");
    reveal_strlit("Vec<u32>");
    reveal_strlit("Vec<u64>");
    reveal_strlit("Vec<i32>");
    reveal_strlit("Vec<i64>");
    reveal_strlit("Vec<f32>");
    reveal_strlit("Vec<f64>");
    reveal_strlit("Vec<String>");
    reveal_strlit("AtomDomain<bool>");
    reveal_strlit("AtomDomain<u8>");
    reveal_strlit("AtomDomain<u32>");
    reveal_strlit("AtomDomain<u64>");
    reveal_strlit("AtomDomain<i32>");
    reveal_strlit("AtomDomain<i64>");
    reveal_strlit("AtomDomain<f32>");
    reveal_strlit("AtomDomain<f64>");
    reveal_strlit("AtomDomain<String>");
    reveal_strlit("VectorDomain<AtomDomain<bool>>");
    reveal_strlit("VectorDomain<AtomDomain<u8>>");
    reveal_strlit("VectorDomain<AtomDomain<u32>>");
    reveal_strlit("VectorDomain<AtomDomain<u64>>");
    reveal_strlit("VectorDomain<AtomDomain<i32>>");
    reveal_strlit("VectorDomain<AtomDomain<i64>>");
    reveal_strlit("VectorDomain<AtomDomain<f32>>");
    reveal_strlit("VectorDomain<AtomDomain<f64>>");
    reveal_strlit("VectorDomain<AtomDomain<String>>");
    reveal_strlit("AbsoluteDistance<bool>");
    reveal_strlit("AbsoluteDistance<u8>");
    reveal_strlit("AbsoluteDistance<u32>");
    reveal_strlit("AbsoluteDistance<u64>");
    reveal_strlit("AbsoluteDistance<i32>");
    reveal_strlit("AbsoluteDistance<i64>");
    reveal_strlit("AbsoluteDistance<f32>");
    reveal_strlit("AbsoluteDistance<f64>");
    reveal_strlit("AbsoluteDistance<String>");
    assert("bool"@.len() == 4);
    assert("u8"@.len() == 2);
    assert("u32"@.len() == 3);
    assert("u64"@.len() == 3);
    assert("i32"@.len() == 3);
    assert("i64"@.len() == 3);
    assert("f32"@.len() == 3);
    assert("f64"@.len() == 3);
    assert("String"@.len() == 6);
    assert("Vec<bool>"@.len() == 9);
    assert("Vec<u8>"@.len() == 7);
    assert("Vec<u32>"@.len() == 8);
    assert("Vec<u64>"@.len() == 8);
    assert("Vec<i32>"@.len() == 8);
    assert("Vec<i64>"@.len() == 8);
    assert("Vec<f32>"@.len() == 8);
    assert("Vec<f64>"@.len() == 8);
    assert("Vec<String>"@.len() == 11);
    assert("AtomDomain<bool>"@.len() == 16);
    assert("AtomDomain<u8>"@.len() == 14);
    assert("AtomDomain<u32>"@.len() == 15);
    assert("AtomDomain<u64>"@.len() == 15);
    assert("AtomDomain<i32>"@.len() == 15);
    assert("AtomDomain<i64>"@.len() == 15);
    assert("AtomDomain<f32>"@.len() == 15);
    assert("AtomDomain<f64>"@.len() == 15);
    assert("AtomDomain<String>"@.len() == 18);
    assert("VectorDomain<AtomDomain<bool>>"@.len() == 30);
    assert("VectorDomain<AtomDomain<u8>>"@.len() == 28);
    assert("VectorDomain<AtomDomain<u32>>"@.len() == 29);
    assert("VectorDomain<AtomDomain<u64>>"@.len() == 29);
    assert("VectorDomain<AtomDomain<i32>>"@.len() == 29);
    assert("VectorDomain<AtomDomain<i64>>"@.len() == 29);
    assert("VectorDomain<AtomDomain<f32>>"@.len() == 29);
    assert("VectorDomain<AtomDomain<f64>>"@.len() == 29);
    assert("VectorDomain<AtomDomain<String>>"@.len() == 32);
    assert("AbsoluteDistance<bool>"@.len() == 22);
    assert("AbsoluteDistance<u8>"@.len() == 20);
    assert("AbsoluteDistance<u32>"@.len() == 21);
    assert("AbsoluteDistance<u64>"@.len() == 21);
    assert("AbsoluteDistance<u64>"@[18] == '6');
    assert("AbsoluteDistance<u32>"@[18] == '3');
    assert("AbsoluteDistance<i32>"@.len() == 21);
    assert("AbsoluteDistance<i32>"@[17] == 'i');
    assert("AbsoluteDistance<u32>"@[17] == 'u');
    assert("AbsoluteDistance<u64>"@[17] == 'u');
    assert("AbsoluteDistance<i64>"@.len() == 21);
    assert("AbsoluteDistance<i64>"@[17] == 'i');
    assert("AbsoluteDistance<i64>"@[18] == '6');
    assert("AbsoluteDistance<i32>"@[18] == '3');
    assert("AbsoluteDistance<f32>"@.len() == 21);
    assert("AbsoluteDistance<f32>"@[17] == 'f');
    assert("AbsoluteDistance<f64>"@.len() == 21);
    assert("AbsoluteDistance<f64>"@[17] == 'f');
    assert("AbsoluteDistance<f64>"@[18] == '6');
    assert("AbsoluteDistance<f32>"@[18] == '3');
    assert("AbsoluteDistance<String>"@.len() == 24);
    match a {
        AtomType::Bool => {},
        AtomType::U8 => {},
        AtomType::U32 => {},
        AtomType::U64 => {},
        AtomType::I32 => {},
        AtomType::I64 => {},
        AtomType::F32 => {},
        AtomType::F64 => {},
        AtomType::Str => {},
    }
}

proof fn lemma_round_trip_l2_distance(a: AtomType)
    ensures
        parse_name(l2_distance_name(a)) == Some(TypeDesc::L2Distance(a)),
{
    reveal_strlit("bool");
    reveal_strlit("u8");
    reveal_strlit("u32");
    reveal_strlit("u64");
    reveal_strlit("i32");
    reveal_strlit("i64");
    reveal_strlit("f32");
    reveal_strlit("f64");
    reveal_strlit("String");
    reveal_strlit("Vec<bool>");
    reveal_strlit("Vec<u8>");
    reveal_strlit("Vec<u32>");
    reveal_strlit("Vec<u64>");
    reveal_strlit("Vec<i32>");
    reveal_strlit("Vec<i64>");
    reveal_strlit("Vec<f32>");
    reveal_strlit("Vec<f64>");
    reveal_strlit("Vec<String>");
    reveal_strlit("AtomDomain<bool>");
    reveal_strlit("AtomDomain<u8>");
    reveal_strlit("AtomDomain<u32>");
    reveal_strlit("AtomDomain<u64>");
    reveal_strlit("AtomDomain<i32>");
    reveal_strlit("AtomDomain<i64>");
    reveal_strlit("AtomDomain<f32>");
    reveal_strlit("AtomDomain<f64>");
    reveal_strlit("AtomDomain<String>");
    reveal_strlit("VectorDomain<AtomDomain<bool>>");
    reveal_strlit("VectorDomain<AtomDomain<u8>>");
    reveal_strlit("VectorDomain<AtomDomain<u32>>");
    reveal_strlit("VectorDomain<AtomDomain<u64>>");
    reveal_strlit("VectorDomain<AtomDomain<i32>>");
    reveal_strlit("VectorDomain<AtomDomain<i64>>");
    reveal_strlit("VectorDomain<AtomDomain<f32>>");
    reveal_strlit("VectorDomain<AtomDomain<f64>>");
    reveal_strlit("VectorDomain<AtomDomain<String>>");
    reveal_strlit("AbsoluteDistance<bool>");
    reveal_strlit("AbsoluteDistance<u8>");
    reveal_strlit("AbsoluteDistance<u32>");
    reveal_strlit("AbsoluteDistance<u64>");
    reveal_strlit("AbsoluteDistance<i32>");
    reveal_strlit("AbsoluteDistance<i64>");
    reveal_strlit("AbsoluteDistance<f32>");
    reveal_strlit("AbsoluteDistance<f64>");
    reveal_strlit("AbsoluteDistance<String>");
    reveal_strlit("L2Distance<bool>");
    reveal_strlit("L2Distance<u8>");
    reveal_strlit("L2Distance<u32>");
    reveal_strlit("L2Distance<u64>");
    reveal_strlit("L2Distance<i32>");
    reveal_strlit("L2Distance<i64>");
    reveal_strlit("L2Distance<f32>");
    reveal_strlit("L2Distance<f64>");
    reveal_strlit("L2Distance<String>");
    assert("bool"@.len() == 4);
    assert("u8"@.len() == 2);
    assert("u32"@.len() == 3);
    assert("u64"@.len() == 3);
    assert("i32"@.len() == 3);
    assert("i64"@.len() == 3);
    assert("f32"@.len() == 3);
    assert("f64"@.len() == 3);
    assert("String"@.len() == 6);
    assert("Vec<bool>"@.len() == 9);
    assert("Vec<u8>"@.len() == 7);
    assert("Vec<u32>"@.len() == 8);
    assert("Vec<u64>"@.len() == 8);
    assert("Vec<i32>"@.len() == 8);
    assert("Vec<i64>"@.len() == 8);
    assert("Vec<f32>"@.len() == 8);
    assert("Vec<f64>"@.len() == 8);
    assert("Vec<String>"@.len() == 11);
    assert("AtomDomain<bool>"@.len() == 16);
    assert("AtomDomain<u8>"@.len() == 14);
    assert("AtomDomain<u32>"@.len() == 15);
    assert("AtomDomain<u64>"@.len() == 15);
    assert("AtomDomain<i32>"@.len() == 15);
    assert("AtomDomain<i64>"@.len() == 15);
    assert("AtomDomain<f32>"@.len() == 15);
    assert("AtomDomain<f64>"@.len() == 15);
    assert("AtomDomain<String>"@.len() == 18);
    assert("VectorDomain<AtomDomain<bool>>"@.len() == 30);
    assert("VectorDomain<AtomDomain<u8>>"@.len() == 28);
    assert("VectorDomain<AtomDomain<u32>>"@.len() == 29);
    assert("VectorDomain<AtomDomain<u64>>"@.len() == 29);
    assert("VectorDomain<AtomDomain<i32>>"@.len() == 29);
    assert("VectorDomain<AtomDomain<i64>>"@.len() == 29);
    assert("VectorDomain<AtomDomain<f32>>"@.len() == 29);
    assert("VectorDomain<AtomDomain<f64>>"@.len() == 29);
    assert("VectorDomain<AtomDomain<String>>"@.len() == 32);
    assert("AbsoluteDistance<bool>"@.len() == 22);
    assert("AbsoluteDistance<u8>"@.len() == 20);
    assert("AbsoluteDistance<u32>"@.len() == 21);
    assert("AbsoluteDistance<u64>"@.len() == 21);
    assert("AbsoluteDistance<i32>"@.len() == 21);
    assert("AbsoluteDistance<i64>"@.len() == 21);
    assert("AbsoluteDistance<f32>"@.len() == 21);
    assert("AbsoluteDistance<f64>"@.len() == 21);
    assert("AbsoluteDistance<String>"@.len() == 24);
    assert("L2Distance<bool>"@.len() == 16);
    assert("L2Distance<bool>"@[0] == 'L');
    assert("AtomDomain<bool>"@[0] == 'A');
    assert("L2Distance<u8>"@.len() == 14);
    assert("L2Distance<u8>"@[0] == 'L');
    assert("AtomDomain<u8>"@[0] == 'A');
    assert("L2Distance<u32>"@.len() == 15);
    assert("L2Distance<u32>"@[0] == 'L');
    assert("AtomDomain<u32>"@[0] == 'A');
    assert("AtomDomain<u64>"@[0] == 'A');
    assert("AtomDomain<i32>"@[0] == 'A');
    assert("AtomDomain<i64>"@[0] == 'A');
    assert("AtomDomain<f32>"@[0] == 'A');
    assert("AtomDomain<f64>"@[0] == 'A');
    assert("L2Distance<u64>"@.len() == 15);
    assert("L2Distance<u64>"@[0] == 'L');
    assert("L2Distance<u64>"@[12] == '6');
    assert("L2Distance<u32>"@[12] == '3');
    assert("L2Distance<i32>"@.len() == 15);
    assert("L2Distance<i32>"@[0] == 'L');
    assert("L2Distance<i32>"@[11] == 'i');
    assert("L2Distance<u32>"@[11] == 'u');
    assert("L2Distance<u64>"@[11] == 'u');
    assert("L2Distance<i64>"@.len() == 15);
    assert("L2Distance<i64>"@[0] == 'L');
    assert("L2Distance<i64>"@[11] == 'i');
    assert("L2Distance<i64>"@[12] == '6');
    assert("L2Distance<i32>"@[12] == '3');
    assert("L2Distance<f32>"@.len() == 15);
    assert("L2Distance<f32>"@[0] == 'L');
    assert("L2Distance<f32>"@[11] == 'f');
    assert("L2Distance<f64>"@.len() == 15);
    assert("L2Distance<f64>"@[0] == 'L');
    assert("L2Distance<f64>"@[11] == 'f');
    assert("L2Distance<f64>"@[12] == '6');
    assert("L2Distance<f32>"@[12] == '3');
    assert("L2Distance<String>"@.len() == 18);
    assert("L2Distance<String>"@[0] == 'L');
    assert("AtomDomain<String>"@[0] == 'A');
    match a {
        AtomType::Bool => {},
        AtomType::U8 => {},
        AtomType::U32 => {},
        AtomType::U64 => {},
        AtomType::I32 => {},
        AtomType::I64 => {},
        AtomType::F32 => {},
        AtomType::F64 => {},
        AtomType::Str => {},
    }
}

proof fn lemma_round_trip_zcd(a: AtomType)
    ensures
        parse_name(zcd_name(a)) == Some(TypeDesc::ZeroConcentratedDivergence(a)),
{
    reveal_strlit("bool");
    reveal_strlit("u8");
    reveal_strlit("u32");
    reveal_strlit("u64");
    reveal_strlit("i32");
    reveal_strlit("i64");
    reveal_strlit("f32");
    reveal_strlit("f64");
    reveal_strlit("String");
    reveal_strlit("Vec<bool>");
    reveal_strlit("Vec<u8>");
    reveal_strlit("Vec<u32>");
    reveal_strlit("Vec<u64>");
    reveal_strlit("Vec<i32>");
    reveal_strlit("Vec<i64>");
    reveal_strlit("Vec<f32>");
    reveal_strlit("Vec<f64>");
    reveal_strlit("Vec<String>");
    reveal_strlit("AtomDomain<bool>");
    reveal_strlit("AtomDomain<u8>");
    reveal_strlit("AtomDomain<u32>");
    reveal_strlit("AtomDomain<u64>");
    reveal_strlit("AtomDomain<i32>");
    reveal_strlit("AtomDomain<i64>");
    reveal_strlit("AtomDomain<f32>");
    reveal_strlit("AtomDomain<f64>");
    reveal_strlit("AtomDomain<String>");
    reveal_strlit("VectorDomain<AtomDomain<bool>>");
    reveal_strlit("VectorDomain<AtomDomain<u8>>");
    reveal_strlit("VectorDomain<AtomDomain<u32>>");
    reveal_strlit("VectorDomain<AtomDomain<u64>>");
    reveal_strlit("VectorDomain<AtomDomain<i32>>");
    reveal_strlit("VectorDomain<AtomDomain<i64>>");
    reveal_strlit("VectorDomain<AtomDomain<f32>>");
    reveal_strlit("VectorDomain<AtomDomain<f64>>");
    reveal_strlit("VectorDomain<AtomDomain<String>>");
    reveal_strlit("AbsoluteDistance<bool>");
    reveal_strlit("AbsoluteDistance<u8>");
    reveal_strlit("AbsoluteDistance<u32>");
    reveal_strlit("AbsoluteDistance<u64>");
    reveal_strlit("AbsoluteDistance<i32>");
    reveal_strlit("AbsoluteDistance<i64>");
    reveal_strlit("AbsoluteDistance<f32>");
    reveal_strlit("AbsoluteDistance<f64>");
    reveal_strlit("AbsoluteDistance<String>");
    reveal_strlit("L2Distance<bool>");
    reveal_strlit("L2Distance<u8>");
    reveal_strlit("L2Distance<u32>");
    reveal_strlit("L2Distance<u64>");
    reveal_strlit("L2Distance<i32>");
    reveal_strlit("L2Distance<i64>");
    reveal_strlit("L2Distance<f32>");
    reveal_strlit("L2Distance<f64>");
    reveal_strlit("L2Distance<String>");
    reveal_strlit("ZeroConcentratedDivergence<bool>");
    reveal_strlit("ZeroConcentratedDivergence<u8>");
    reveal_strlit("ZeroConcentratedDivergence<u32>");
    reveal_strlit("ZeroConcentratedDivergence<u64>");
    reveal_strlit("ZeroConcentratedDivergence<i32>");
    reveal_strlit("ZeroConcentratedDivergence<i64>");
    reveal_strlit("ZeroConcentratedDivergence<f32>");
    reveal_strlit("ZeroConcentratedDivergence<f64>");
    reveal_strlit("ZeroConcentratedDivergence<String>");
    assert("bool"@.len() == 4);
    assert("u8"@.len() == 2);
    assert("u32"@.len() == 3);
    assert("u64"@.len() == 3);
    assert("i32"@.len() == 3);
    assert("i64"@.len() == 3);
    assert("f32"@.len() == 3);
    assert("f64"@.len() == 3);
    assert("String"@.len() == 6);
    assert("Vec<bool>"@.len() == 9);
    assert("Vec<u8>"@.len() == 7);
    assert("Vec<u32>"@.len() == 8);
    assert("Vec<u64>"@.len() == 8);
    assert("Vec<i32>"@.len() == 8);
    assert("Vec<i64>"@.len() == 8);
    assert("Vec<f32>"@.len() == 8);
    assert("Vec<f64>"@.len() == 8);
    assert("Vec<String>"@.len() == 11);
    assert("AtomDomain<bool>"@.len() == 16);
    assert("AtomDomain<u8>"@.len() == 14);
    assert("AtomDomain<u32>"@.len() == 15);
    assert("AtomDomain<u64>"@.len() == 15);
    assert("AtomDomain<i32>"@.len() == 15);
    assert("AtomDomain<i64>"@.len() == 15);
    assert("AtomDomain<f32>"@.len() == 15);
    assert("AtomDomain<f64>"@.len() == 15);
    assert("AtomDomain<String>"@.len() == 18);
    assert("VectorDomain<AtomDomain<bool>>"@.len() == 30);
    assert("VectorDomain<AtomDomain<u8>>"@.len() == 28);
    assert("VectorDomain<AtomDomain<u32>>"@.len() == 29);
    assert("VectorDomain<AtomDomain<u64>>"@.len() == 29);
    assert("VectorDomain<AtomDomain<i32>>"@.len() == 29);
    assert("VectorDomain<AtomDomain<i64>>"@.len() == 29);
    assert("VectorDomain<AtomDomain<f32>>"@.len() == 29);
    assert("VectorDomain<AtomDomain<f64>>"@.len() == 29);
    assert("VectorDomain<AtomDomain<String>>"@.len() == 32);
    assert("AbsoluteDistance<bool>"@.len() == 22);
    assert("AbsoluteDistance<u8>"@.len() == 20);
    assert("AbsoluteDistance<u32>"@.len() == 21);
    assert("AbsoluteDistance<u64>"@.len() == 21);
    assert("AbsoluteDistance<i32>"@.len() == 21);
    assert("AbsoluteDistance<i64>"@.len() == 21);
    assert("AbsoluteDistance<f32>"@.len() == 21);
    assert("AbsoluteDistance<f64>"@.len() == 21);
    assert("AbsoluteDistance<String>"@.len() == 24);
    assert("L2Distance<bool>"@.len() == 16);
    assert("L2Distance<u8>"@.len() == 14);
    assert("L2Distance<u32>"@.len() == 15);
    assert("L2Distance<u64>"@.len() == 15);
    assert("L2Distance<i32>"@.len() == 15);
    assert("L2Distance<i64>"@.len() == 15);
    assert("L2Distance<f32>"@.len() == 15);
    assert("L2Distance<f64>"@.len() == 15);
    assert("L2Distance<String>"@.len() == 18);
    assert("ZeroConcentratedDivergence<bool>"@.len() == 32);
    assert("ZeroConcentratedDivergence<bool>"@[0] == 'Z');
    assert("VectorDomain<AtomDomain<String>>"@[0] == 'V');
    assert("ZeroConcentratedDivergence<u8>"@.len() == 30);
    assert("ZeroConcentratedDivergence<u8>"@[0] == 'Z');
    assert("VectorDomain<AtomDomain<bool>>"@[0] == 'V');
    assert("ZeroConcentratedDivergence<u32>"@.len() == 31);
    assert("ZeroConcentratedDivergence<u64>"@.len() == 31);
    assert("ZeroConcentratedDivergence<u64>"@[28] == '6');
    assert("ZeroConcentratedDivergence<u32>"@[28] == '3');
    assert("ZeroConcentratedDivergence<i32>"@.len() == 31);
    assert("ZeroConcentratedDivergence<i32>"@[27] == 'i');
    assert("ZeroConcentratedDivergence<u32>"@[27] == 'u');
    assert("ZeroConcentratedDivergence<u64>"@[27] == 'u');
    assert("ZeroConcentratedDivergence<i64>"@.len() == 31);
    assert("ZeroConcentratedDivergence<i64>"@[27] == 'i');
    assert("ZeroConcentratedDivergence<i64>"@[28] == '6');
    assert("ZeroConcentratedDivergence<i32>"@[28] == '3');
    assert("ZeroConcentratedDivergence<f32>"@.len() == 31);
    assert("ZeroConcentratedDivergence<f32>"@[27] == 'f');
    assert("ZeroConcentratedDivergence<f64>"@.len() == 31);
    assert("ZeroConcentratedDivergence<f64>"@[27] == 'f');
    assert("ZeroConcentratedDivergence<f64>"@[28] == '6');
    assert("ZeroConcentratedDivergence<f32>"@[28] == '3');
    assert("ZeroConcentratedDivergence<String>"@.len() == 34);
    match a {
        AtomType::Bool => {},
        AtomType::U8 => {},
        AtomType::U32 => {},
        AtomType::U64 => {},
        AtomType::I32 => {},
        AtomType::I64 => {},
        AtomType::F32 => {},
        AtomType::F64 => {},
        AtomType::Str => {},
    }
}

proof fn lemma_round_trip_pair()
    ensures
        parse_name("(f64, f64)"@) == Some(TypeDesc::F64Pair),
{
    reveal_strlit("bool");
    reveal_strlit("u8");
    reveal_strlit("u32");
    reveal_strlit("u64");
    reveal_strlit("i32");
    reveal_strlit("i64");
    reveal_strlit("f32");
    reveal_strlit("f64");
    reveal_strlit("String");
    reveal_strlit("Vec<bool>");
    reveal_strlit("Vec<u8>");
    reveal_strlit("Vec<u32>");
    reveal_strlit("Vec<u64>");
    reveal_strlit("Vec<i32>");
    reveal_strlit("Vec<i64>");
    reveal_strlit("Vec<f32>");
    reveal_strlit("Vec<f64>");
    reveal_strlit("Vec<String>");
    reveal_strlit("AtomDomain<bool>");
    reveal_strlit("AtomDomain<u8>");
    reveal_strlit("AtomDomain<u32>");
    reveal_strlit("AtomDomain<u64>");
    reveal_strlit("AtomDomain<i32>");
    reveal_strlit("AtomDomain<i64>");
    reveal_strlit("AtomDomain<f32>");
    reveal_strlit("AtomDomain<f64>");
    reveal_strlit("AtomDomain<String>");
    reveal_strlit("VectorDomain<AtomDomain<bool>>");
    reveal_strlit("VectorDomain<AtomDomain<u8>>");
    reveal_strlit("VectorDomain<AtomDomain<u32>>");
    reveal_strlit("VectorDomain<AtomDomain<u64>>");
    reveal_strlit("VectorDomain<AtomDomain<i32>>");
    reveal_strlit("VectorDomain<AtomDomain<i64>>");
    reveal_strlit("VectorDomain<AtomDomain<f32>>");
    reveal_strlit("VectorDomain<AtomDomain<f64>>");
    reveal_strlit("VectorDomain<AtomDomain<String>>");
    reveal_strlit("AbsoluteDistance<bool>");
    reveal_strlit("AbsoluteDistance<u8>");
    reveal_strlit("AbsoluteDistance<u32>");
    reveal_strlit("AbsoluteDistance<u64>");
    reveal_strlit("AbsoluteDistance<i32>");
    reveal_strlit("AbsoluteDistance<i64>");
    reveal_strlit("AbsoluteDistance<f32>");
    reveal_strlit("AbsoluteDistance<f64>");
    reveal_strlit("AbsoluteDistance<String>");
    reveal_strlit("L2Distance<bool>");
    reveal_strlit("L2Distance<u8>");
    reveal_strlit("L2Distance<u32>");
    reveal_strlit("L2Distance<u64>");
    reveal_strlit("L2Distance<i32>");
    reveal_strlit("L2Distance<i64>");
    reveal_strlit("L2Distance<f32>");
    reveal_strlit("L2Distance<f64>");
    reveal_strlit("L2Distance<String>");
    reveal_strlit("ZeroConcentratedDivergence<bool>");
    reveal_strlit("ZeroConcentratedDivergence<u8>");
    reveal_strlit("ZeroConcentratedDivergence<u32>");
    reveal_strlit("ZeroConcentratedDivergence<u64>");
    reveal_strlit("ZeroConcentratedDivergence<i32>");
    reveal_strlit("ZeroConcentratedDivergence<i64>");
    reveal_strlit("ZeroConcentratedDivergence<f32>");
    reveal_strlit("ZeroConcentratedDivergence<f64>");
    reveal_strlit("ZeroConcentratedDivergence<String>");
    reveal_strlit("(f64, f64)");
    assert("bool"@.len() == 4);
    assert("u8"@.len() == 2);
    assert("u32"@.len() == 3);
    assert("u64"@.len() == 3);
    assert("i32"@.len() == 3);
    assert("i64"@.len() == 3);
    assert("f32"@.len() == 3);
    assert("f64"@.len() == 3);
    assert("String"@.len() == 6);
    assert("Vec<bool>"@.len() == 9);
    assert("Vec<u8>"@.len() == 7);
    assert("Vec<u32>"@.len() == 8);
    assert("Vec<u64>"@.len() == 8);
    assert("Vec<i32>"@.len() == 8);
    assert("Vec<i64>"@.len() == 8);
    assert("Vec<f32>"@.len() == 8);
    assert("Vec<f64>"@.len() == 8);
    assert("Vec<String>"@.len() == 11);
    assert("AtomDomain<bool>"@.len() == 16);
    assert("AtomDomain<u8>"@.len() == 14);
    assert("AtomDomain<u32>"@.len() == 15);
    assert("AtomDomain<u64>"@.len() == 15);
    assert("AtomDomain<i32>"@.len() == 15);
    assert("AtomDomain<i64>"@.len() == 15);
    assert("AtomDomain<f32>"@.len() == 15);
    assert("AtomDomain<f64>"@.len() == 15);
    assert("AtomDomain<String>"@.len() == 18);
    assert("VectorDomain<AtomDomain<bool>>"@.len() == 30);
    assert("VectorDomain<AtomDomain<u8>>"@.len() == 28);
    assert("VectorDomain<AtomDomain<u32>>"@.len() == 29);
    assert("VectorDomain<AtomDomain<u64>>"@.len() == 29);
    assert("VectorDomain<AtomDomain<i32>>"@.len() == 29);
    assert("VectorDomain<AtomDomain<i64>>"@.len() == 29);
    assert("VectorDomain<AtomDomain<f32>>"@.len() == 29);
    assert("VectorDomain<AtomDomain<f64>>"@.len() == 29);
    assert("VectorDomain<AtomDomain<String>>"@.len() == 32);
    assert("AbsoluteDistance<bool>"@.len() == 22);
    assert("AbsoluteDistance<u8>"@.len() == 20);
    assert("AbsoluteDistance<u32>"@.len() == 21);
    assert("AbsoluteDistance<u64>"@.len() == 21);
    assert("AbsoluteDistance<i32>"@.len() == 21);
    assert("AbsoluteDistance<i64>"@.len() == 21);
    assert("AbsoluteDistance<f32>"@.len() == 21);
    assert("AbsoluteDistance<f64>"@.len() == 21);
    assert("AbsoluteDistance<String>"@.len() == 24);
    assert("L2Distance<bool>"@.len() == 16);
    assert("L2Distance<u8>"@.len() == 14);
    assert("L2Distance<u32>"@.len() == 15);
    assert("L2Distance<u64>"@.len() == 15);
    assert("L2Distance<i32>"@.len() == 15);
    assert("L2Distance<i64>"@.len() == 15);
    assert("L2Distance<f32>"@.len() == 15);
    assert("L2Distance<f64>"@.len() == 15);
    assert("L2Distance<String>"@.len() == 18);
    assert("ZeroConcentratedDivergence<bool>"@.len() == 32);
    assert("ZeroConcentratedDivergence<u8>"@.len() == 30);
    assert("ZeroConcentratedDivergence<u32>"@.len() == 31);
    assert("ZeroConcentratedDivergence<u64>"@.len() == 31);
    assert("ZeroConcentratedDivergence<i32>"@.len() == 31);
    assert("ZeroConcentratedDivergence<i64>"@.len() == 31);
    assert("ZeroConcentratedDivergence<f32>"@.len() == 31);
    assert("ZeroConcentratedDivergence<f64>"@.len() == 31);
    assert("ZeroConcentratedDivergence<String>"@.len() == 34);
    assert("(f64, f64)"@.len() == 10);
}

/// Parsing inverts rendering: the canonical name of every supported
/// descriptor resolves in the registry to that descriptor and no other.
pub proof fn lemma_parse_round_trip(d: TypeDesc)
    ensures
        parse_name(name_of(d)) == Some(d),
{
    match d {
        TypeDesc::Atom(a) => lemma_round_trip_atom(a),
        TypeDesc::Vector(a) => lemma_round_trip_vector(a),
        TypeDesc::AtomDomain(a) => lemma_round_trip_atom_domain(a),
        TypeDesc::VectorDomain(a) => lemma_round_trip_vector_domain(a),
        TypeDesc::AbsoluteDistance(a) => lemma_round_trip_absolute_distance(a),
        TypeDesc::L2Distance(a) => lemma_round_trip_l2_distance(a),
        TypeDesc::ZeroConcentratedDivergence(a) => lemma_round_trip_zcd(a),
        TypeDesc::F64Pair => lemma_round_trip_pair(),
    }
}

/// Canonical names are produced one-to-one: two descriptors compare
/// equal exactly when their canonical names and argument lists coincide.
pub proof fn lemma_name_injective(d1: TypeDesc, d2: TypeDesc)
    requires
        name_of(d1) == name_of(d2),
    ensures
        d1 == d2,
{
    lemma_parse_round_trip(d1);
    lemma_parse_round_trip(d2);
}

} // verus!
