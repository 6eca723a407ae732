//! Type classifier: maps a declared field type to its memory triple
//! (size in bytes, alignment in bytes, one-byte type tag).
//!
//! The classifier is a total function over a closed, typed enumeration of
//! declared types. Field declarations written as type-name text are first
//! parsed into that enumeration; an unrecognized name is the caller's
//! schema-declaration-time error.

use vstd::prelude::*;

verus! {

/// Pointer width in effect for one schema-compilation unit: 4 bytes on one
/// target family, 8 on the rest. Every width-dependent field in a schema
/// uses the same width.
#[derive(Clone, Copy, PartialEq, Eq, Structural, Debug)]
pub enum PointerWidth {
    W4,
    W8,
}

impl PointerWidth {
    /// Width in bytes: 4 or 8.
    pub open spec fn spec_bytes(self) -> u32 {
        match self {
            PointerWidth::W4 => 4,
            PointerWidth::W8 => 8,
        }
    }

    /// Width in bytes: 4 or 8.
    #[verifier::when_used_as_spec(spec_bytes)]
    pub fn bytes(self) -> (w: u32)
        ensures
            w == self.spec_bytes(),
    {
        match self {
            PointerWidth::W4 => 4,
            PointerWidth::W8 => 8,
        }
    }
}

/// The one-byte discriminator identifying a field's memory representation.
///
/// `Text` is the tag for text fields; `Pointer` is the tag shared by the
/// two 64-bit handle kinds and by sequence fields, which are always
/// pointer-represented.
#[derive(Clone, Copy, PartialEq, Eq, Structural, Debug)]
pub enum FieldTypeTag {
    U8,
    U16,
    U32,
    U64,
    I8,
    I16,
    I32,
    I64,
    F32,
    F64,
    Bool,
    Text,
    Pointer,
}

/// Element type of a homogeneous sequence field. Sequences of booleans or
/// of text are not supported; every other scalar and both handle kinds are.
#[derive(Clone, Copy, PartialEq, Eq, Structural, Debug)]
pub enum ElemType {
    U8,
    U16,
    U32,
    U64,
    I8,
    I16,
    I32,
    I64,
    F32,
    F64,
    Ptr,
    EntityId,
}

/// A declared field type: the closed set of types a schema may use.
///
/// `Ptr` is the generic pointer-sized handle and `EntityId` the
/// entity-identifier handle; both are 64-bit. `Text` is an owned string;
/// `Sequence` a homogeneous list, represented inline as a pointer-sized
/// cell.
#[derive(Clone, Copy, PartialEq, Eq, Structural, Debug)]
pub enum DeclaredType {
    U8,
    U16,
    U32,
    U64,
    I8,
    I16,
    I32,
    I64,
    F32,
    F64,
    Bool,
    Ptr,
    EntityId,
    Text,
    Sequence(ElemType),
}

/// The tag a declared type classifies to.
pub open spec fn spec_type_tag(ty: DeclaredType) -> FieldTypeTag {
    match ty {
        DeclaredType::U8 => FieldTypeTag::U8,
        DeclaredType::U16 => FieldTypeTag::U16,
        DeclaredType::U32 => FieldTypeTag::U32,
        DeclaredType::U64 => FieldTypeTag::U64,
        DeclaredType::I8 => FieldTypeTag::I8,
        DeclaredType::I16 => FieldTypeTag::I16,
        DeclaredType::I32 => FieldTypeTag::I32,
        DeclaredType::I64 => FieldTypeTag::I64,
        DeclaredType::F32 => FieldTypeTag::F32,
        DeclaredType::F64 => FieldTypeTag::F64,
        DeclaredType::Bool => FieldTypeTag::Bool,
        DeclaredType::Ptr => FieldTypeTag::Pointer,
        DeclaredType::EntityId => FieldTypeTag::Pointer,
        DeclaredType::Text => FieldTypeTag::Text,
        DeclaredType::Sequence(_) => FieldTypeTag::Pointer,
    }
}

/// The numeric code of a tag, as stored in schema metadata.
pub open spec fn spec_tag_code(tag: FieldTypeTag) -> u8 {
    match tag {
        FieldTypeTag::U8 => 0,
        FieldTypeTag::U16 => 1,
        FieldTypeTag::U32 => 2,
        FieldTypeTag::U64 => 3,
        FieldTypeTag::I8 => 4,
        FieldTypeTag::I16 => 5,
        FieldTypeTag::I32 => 6,
        FieldTypeTag::I64 => 7,
        FieldTypeTag::F32 => 8,
        FieldTypeTag::F64 => 9,
        FieldTypeTag::Bool => 10,
        FieldTypeTag::Text => 11,
        FieldTypeTag::Pointer => 12,
    }
}

/// Size in bytes of a declared type under the given pointer width.
///
/// Scalars have their natural width; booleans are one byte; the two handle
/// kinds are 64-bit everywhere; text and sequence fields occupy one
/// pointer-sized inline cell.
pub open spec fn spec_type_size(ty: DeclaredType, width: PointerWidth) -> u32 {
    match ty {
        DeclaredType::U8 => 1,
        DeclaredType::U16 => 2,
        DeclaredType::U32 => 4,
        DeclaredType::U64 => 8,
        DeclaredType::I8 => 1,
        DeclaredType::I16 => 2,
        DeclaredType::I32 => 4,
        DeclaredType::I64 => 8,
        DeclaredType::F32 => 4,
        DeclaredType::F64 => 8,
        DeclaredType::Bool => 1,
        DeclaredType::Ptr => 8,
        DeclaredType::EntityId => 8,
        DeclaredType::Text => width.spec_bytes(),
        DeclaredType::Sequence(_) => width.spec_bytes(),
    }
}

/// Alignment in bytes of a declared type: equal to its size for every
/// supported type.
pub open spec fn spec_type_align(ty: DeclaredType, width: PointerWidth) -> u32 {
    spec_type_size(ty, width)
}

/// True for a type whose size does not depend on the pointer width.
pub open spec fn spec_width_independent(ty: DeclaredType) -> bool {
    !(ty is Text || ty is Sequence)
}

/// Every size is 1, 2, 4 or 8 — in particular a power of two — and
/// alignment always equals size.
pub proof fn lemma_size_align_shape(ty: DeclaredType, width: PointerWidth)
    ensures
        spec_type_size(ty, width) == 1 || spec_type_size(ty, width) == 2 || spec_type_size(
            ty,
            width,
        ) == 4 || spec_type_size(ty, width) == 8,
        spec_type_align(ty, width) == spec_type_size(ty, width),
{
}

/// The tag of a declared type.
pub fn type_tag(ty: &DeclaredType) -> (tag: FieldTypeTag)
    ensures
        tag == spec_type_tag(*ty),
{
    match ty {
        DeclaredType::U8 => FieldTypeTag::U8,
        DeclaredType::U16 => FieldTypeTag::U16,
        DeclaredType::U32 => FieldTypeTag::U32,
        DeclaredType::U64 => FieldTypeTag::U64,
        DeclaredType::I8 => FieldTypeTag::I8,
        DeclaredType::I16 => FieldTypeTag::I16,
        DeclaredType::I32 => FieldTypeTag::I32,
        DeclaredType::I64 => FieldTypeTag::I64,
        DeclaredType::F32 => FieldTypeTag::F32,
        DeclaredType::F64 => FieldTypeTag::F64,
        DeclaredType::Bool => FieldTypeTag::Bool,
        DeclaredType::Ptr => FieldTypeTag::Pointer,
        DeclaredType::EntityId => FieldTypeTag::Pointer,
        DeclaredType::Text => FieldTypeTag::Text,
        DeclaredType::Sequence(_) => FieldTypeTag::Pointer,
    }
}

/// The numeric code of a declared type's tag, as sent to the registry.
pub fn get_type_code(ty: &DeclaredType) -> (code: u8)
    ensures
        code == spec_tag_code(spec_type_tag(*ty)),
{
    tag_code(&type_tag(ty))
}

/// The numeric code of a tag.
pub fn tag_code(tag: &FieldTypeTag) -> (code: u8)
    ensures
        code == spec_tag_code(*tag),
{
    match tag {
        FieldTypeTag::U8 => 0,
        FieldTypeTag::U16 => 1,
        FieldTypeTag::U32 => 2,
        FieldTypeTag::U64 => 3,
        FieldTypeTag::I8 => 4,
        FieldTypeTag::I16 => 5,
        FieldTypeTag::I32 => 6,
        FieldTypeTag::I64 => 7,
        FieldTypeTag::F32 => 8,
        FieldTypeTag::F64 => 9,
        FieldTypeTag::Bool => 10,
        FieldTypeTag::Text => 11,
        FieldTypeTag::Pointer => 12,
    }
}

/// Size in bytes of a declared type under the given pointer width.
pub fn get_type_size(ty: &DeclaredType, width: PointerWidth) -> (size: u32)
    ensures
        size == spec_type_size(*ty, width),
{
    match ty {
        DeclaredType::U8 => 1,
        DeclaredType::U16 => 2,
        DeclaredType::U32 => 4,
        DeclaredType::U64 => 8,
        DeclaredType::I8 => 1,
        DeclaredType::I16 => 2,
        DeclaredType::I32 => 4,
        DeclaredType::I64 => 8,
        DeclaredType::F32 => 4,
        DeclaredType::F64 => 8,
        DeclaredType::Bool => 1,
        DeclaredType::Ptr => 8,
        DeclaredType::EntityId => 8,
        DeclaredType::Text => width.bytes(),
        DeclaredType::Sequence(_) => width.bytes(),
    }
}

/// Alignment in bytes of a declared type: equal to its size.
pub fn get_type_alignment(ty: &DeclaredType, width: PointerWidth) -> (align: u32)
    ensures
        align == spec_type_align(*ty, width),
{
    get_type_size(ty, width)
}

/// Character-for-character equality of two string slices.
pub fn str_eq(a: &str, b: &str) -> (r: bool)
    ensures
        r == (a@ == b@),
{
    let alen = a.unicode_len();
    let blen = b.unicode_len();
    if alen != blen {
        return false;
    }
    let mut i: usize = 0;
    while i < alen
        invariant
            alen == a@.len(),
            alen == b@.len(),
            i <= alen,
            forall|j: int| 0 <= j < i ==> a@[j] == b@[j],
        decreases alen - i,
    {
        if a.get_char(i) != b.get_char(i) {
            return false;
        }
        i = i + 1;
    }
    proof {
        assert(a@ =~= b@);
    }
    true
}

/// The declared type a type name denotes, if any.
///
/// The supported names are the scalar primitives, `bool`, the two handle
/// kinds `PointerT` and `EcsEntityT`, `String`, and `Vec<T>` for every
/// scalar or handle element type.
pub open spec fn spec_parse_type_name(s: Seq<char>) -> Option<DeclaredType> {
    if s == "u8"@ {
        Some(DeclaredType::U8)
    } else if s == "u16"@ {
        Some(DeclaredType::U16)
    } else if s == "u32"@ {
        Some(DeclaredType::U32)
    } else if s == "u64"@ {
        Some(DeclaredType::U64)
    } else if s == "i8"@ {
        Some(DeclaredType::I8)
    } else if s == "i16"@ {
        Some(DeclaredType::I16)
    } else if s == "i32"@ {
        Some(DeclaredType::I32)
    } else if s == "i64"@ {
        Some(DeclaredType::I64)
    } else if s == "f32"@ {
        Some(DeclaredType::F32)
    } else if s == "f64"@ {
        Some(DeclaredType::F64)
    } else if s == "bool"@ {
        Some(DeclaredType::Bool)
    } else if s == "PointerT"@ {
        Some(DeclaredType::Ptr)
    } else if s == "EcsEntityT"@ {
        Some(DeclaredType::EntityId)
    } else if s == "String"@ {
        Some(DeclaredType::Text)
    } else if s == "Vec<u8>"@ {
        Some(DeclaredType::Sequence(ElemType::U8))
    } else if s == "Vec<u16>"@ {
        Some(DeclaredType::Sequence(ElemType::U16))
    } else if s == "Vec<u32>"@ {
        Some(DeclaredType::Sequence(ElemType::U32))
    } else if s == "Vec<u64>"@ {
        Some(DeclaredType::Sequence(ElemType::U64))
    } else if s == "Vec<i8>"@ {
        Some(DeclaredType::Sequence(ElemType::I8))
    } else if s == "Vec<i16>"@ {
        Some(DeclaredType::Sequence(ElemType::I16))
    } else if s == "Vec<i32>"@ {
        Some(DeclaredType::Sequence(ElemType::I32))
    } else if s == "Vec<i64>"@ {
        Some(DeclaredType::Sequence(ElemType::I64))
    } else if s == "Vec<f32>"@ {
        Some(DeclaredType::Sequence(ElemType::F32))
    } else if s == "Vec<f64>"@ {
        Some(DeclaredType::Sequence(ElemType::F64))
    } else if s == "Vec<PointerT>"@ {
        Some(DeclaredType::Sequence(ElemType::Ptr))
    } else if s == "Vec<EcsEntityT>"@ {
        Some(DeclaredType::Sequence(ElemType::EntityId))
    } else {
        None
    }
}

/// Parse a type name into its declared type; `None` for an unrecognized
/// name.
pub fn parse_type_name(s: &str) -> (ty: Option<DeclaredType>)
    ensures
        ty == spec_parse_type_name(s@),
{
    if str_eq(s, "u8") {
        Some(DeclaredType::U8)
    } else if str_eq(s, "u16") {
        Some(DeclaredType::U16)
    } else if str_eq(s, "u32") {
        Some(DeclaredType::U32)
    } else if str_eq(s, "u64") {
        Some(DeclaredType::U64)
    } else if str_eq(s, "i8") {
        Some(DeclaredType::I8)
    } else if str_eq(s, "i16") {
        Some(DeclaredType::I16)
    } else if str_eq(s, "i32") {
        Some(DeclaredType::I32)
    } else if str_eq(s, "i64") {
        Some(DeclaredType::I64)
    } else if str_eq(s, "f32") {
        Some(DeclaredType::F32)
    } else if str_eq(s, "f64") {
        Some(DeclaredType::F64)
    } else if str_eq(s, "bool") {
        Some(DeclaredType::Bool)
    } else if str_eq(s, "PointerT") {
        Some(DeclaredType::Ptr)
    } else if str_eq(s, "EcsEntityT") {
        Some(DeclaredType::EntityId)
    } else if str_eq(s, "String") {
        Some(DeclaredType::Text)
    } else if str_eq(s, "Vec<u8>") {
        Some(DeclaredType::Sequence(ElemType::U8))
    } else if str_eq(s, "Vec<u16>") {
        Some(DeclaredType::Sequence(ElemType::U16))
    } else if str_eq(s, "Vec<u32>") {
        Some(DeclaredType::Sequence(ElemType::U32))
    } else if str_eq(s, "Vec<u64>") {
        Some(DeclaredType::Sequence(ElemType::U64))
    } else if str_eq(s, "Vec<i8>") {
        Some(DeclaredType::Sequence(ElemType::I8))
    } else if str_eq(s, "Vec<i16>") {
        Some(DeclaredType::Sequence(ElemType::I16))
    } else if str_eq(s, "Vec<i32>") {
        Some(DeclaredType::Sequence(ElemType::I32))
    } else if str_eq(s, "Vec<i64>") {
        Some(DeclaredType::Sequence(ElemType::I64))
    } else if str_eq(s, "Vec<f32>") {
        Some(DeclaredType::Sequence(ElemType::F32))
    } else if str_eq(s, "Vec<f64>") {
        Some(DeclaredType::Sequence(ElemType::F64))
    } else if str_eq(s, "Vec<PointerT>") {
        Some(DeclaredType::Sequence(ElemType::Ptr))
    } else if str_eq(s, "Vec<EcsEntityT>") {
        Some(DeclaredType::Sequence(ElemType::EntityId))
    } else {
        None
    }
}

/// The full classification triple of a declared type: (size, alignment,
/// tag).
pub fn classify(ty: &DeclaredType, width: PointerWidth) -> (triple: (u32, u32, FieldTypeTag))
    ensures
        triple.0 == spec_type_size(*ty, width),
        triple.1 == spec_type_align(*ty, width),
        triple.2 == spec_type_tag(*ty),
{
    (get_type_size(ty, width), get_type_alignment(ty, width), type_tag(ty))
}

} // verus!
