//! The kernel type model: value types, calling conventions, and function
//! signatures, together with the translation of value types to their
//! textual intermediate-representation spelling.

use crate::text::digits_of;
use crate::text::usize_to_string;
use vstd::prelude::*;

verus! {

/// A value type in a kernel signature. Nested types are owned by value.
#[derive(Debug)]
pub enum JitType {
    Void,
    I8,
    I16,
    I32,
    I64,
    F32,
    F64,
    /// A pointer to a value of the inner type.
    Ptr(Box<JitType>),
    /// A fixed-length array; a length of zero is permitted.
    Array(Box<JitType>, usize),
    /// An aggregate of ordered fields. Field-by-field lowering is out of
    /// scope: the translation renders an opaque aggregate marker.
    Struct(Vec<JitType>),
    /// A SIMD vector of the inner type; meaningful lane counts are positive.
    Vector(Box<JitType>, usize),
}

/// The calling convention a compiled function adheres to.
#[derive(Debug, Clone, Copy, PartialEq, Eq, Structural)]
pub enum CallingConvention {
    C,
    Fast,
    Cold,
    Preserve,
}

/// A function signature: name, return type, ordered parameter types, and
/// calling convention. The engine overwrites the name with the one it
/// generates, which is unique per engine instance.
#[derive(Debug)]
pub struct FunctionSignature {
    pub name: String,
    pub return_type: JitType,
    pub parameters: Vec<JitType>,
    pub calling_convention: CallingConvention,
}

/// The textual spelling of a value type: a total, deterministic function
/// of the type tree alone.
pub open spec fn spec_type_text(t: JitType) -> Seq<char>
    decreases t,
{
    match t {
        JitType::Void => "void"@,
        JitType::I8 => "i8"@,
        JitType::I16 => "i16"@,
        JitType::I32 => "i32"@,
        JitType::I64 => "i64"@,
        JitType::F32 => "float"@,
        JitType::F64 => "double"@,
        JitType::Ptr(inner) => spec_type_text(*inner) + "*"@,
        JitType::Array(inner, len) => "["@ + digits_of(len as nat) + " x "@ + spec_type_text(*inner)
            + "]"@,
        JitType::Struct(_) => "{ ... }"@,
        JitType::Vector(inner, lanes) => "<"@ + digits_of(lanes as nat) + " x "@ + spec_type_text(
            *inner,
        ) + ">"@,
    }
}

/// Translates a value type to its textual spelling; the result is exactly
/// `spec_type_text`, so two calls on equal trees yield identical text.
pub fn type_to_llvm(t: &JitType) -> (r: String)
    ensures
        r@ == spec_type_text(*t),
    decreases *t,
{
    match t {
        JitType::Void => "void".to_owned(),
        JitType::I8 => "i8".to_owned(),
        JitType::I16 => "i16".to_owned(),
        JitType::I32 => "i32".to_owned(),
        JitType::I64 => "i64".to_owned(),
        JitType::F32 => "float".to_owned(),
        JitType::F64 => "double".to_owned(),
        JitType::Ptr(inner) => {
            let mut s = type_to_llvm(inner);
            s.append("*");
            s
        },
        JitType::Array(inner, len) => {
            let mut s = "[".to_owned();
            s.append(usize_to_string(*len).as_str());
            s.append(" x ");
            s.append(type_to_llvm(inner).as_str());
            s.append("]");
            proof {
                assert(s@ =~= spec_type_text(*t));
            }
            s
        },
        JitType::Struct(_) => "{ ... }".to_owned(),
        JitType::Vector(inner, lanes) => {
            let mut s = "<".to_owned();
            s.append(usize_to_string(*lanes).as_str());
            s.append(" x ");
            s.append(type_to_llvm(inner).as_str());
            s.append(">");
            proof {
                assert(s@ =~= spec_type_text(*t));
            }
            s
        },
    }
}

/// The translation is deterministic: any two results that meet
/// `type_to_llvm`'s contract for the same type tree are the same text.
pub proof fn lemma_translate_deterministic(t: JitType, r1: Seq<char>, r2: Seq<char>)
    requires
        r1 == spec_type_text(t),
        r2 == spec_type_text(t),
    ensures
        r1 == r2,
{
}

} // verus!
