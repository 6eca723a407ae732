//! Record schemas: the ordered, typed field list defining a record kind's
//! shape, with every field's memory placement planned.
//!
//! A schema is built once, at declaration time, from the field list as
//! declared — either as typed descriptors or as type-name text — and is
//! immutable afterwards.

use vstd::prelude::*;

use crate::errors::SchemaError;
use crate::field_type::{
    classify, parse_type_name, spec_parse_type_name, spec_type_align, spec_type_size,
    spec_type_tag, DeclaredType, FieldTypeTag, PointerWidth,
};
use crate::layout::{
    lemma_cursor_step, plan_offsets, spec_field_offset, spec_plan_cursor, MAX_FIELDS,
};

verus! {

/// One declared field with its planned memory placement.
#[derive(Debug)]
pub struct FieldSpec {
    /// The declared field name; unique within its schema.
    pub name: String,
    /// The declared type.
    pub declared_type: DeclaredType,
    /// Size in bytes.
    pub size_bytes: u32,
    /// Alignment in bytes; offsets are multiples of it.
    pub align_bytes: u32,
    /// Planned byte offset inside the record's memory block.
    pub offset_bytes: u32,
}

/// A record kind's shape: its name, its ordered fields with planned
/// offsets, and the pointer width the plan was made under.
#[derive(Debug)]
pub struct RecordSchema {
    /// The record kind's name, as registered.
    pub name: String,
    /// The declared fields in declaration order.
    pub fields: Vec<FieldSpec>,
    /// The pointer width in effect for this schema-compilation unit.
    pub pointer_width: PointerWidth,
    /// Total bytes the planned fields occupy; no trailing padding is
    /// added.
    pub size_bytes: u32,
}

impl RecordSchema {
    /// The ordered list of declared types.
    pub open spec fn spec_types(self) -> Seq<DeclaredType> {
        Seq::new(self.fields@.len(), |i: int| self.fields@[i].declared_type)
    }

    /// Schema well-formedness: every field carries the classification of
    /// its declared type and the offset the layout planner assigns it,
    /// field names are distinct, and the total size is the planner's final
    /// cursor.
    pub open spec fn wf(self) -> bool {
        &&& self.fields@.len() <= MAX_FIELDS
        &&& forall|i: int|
            0 <= i < self.fields@.len() ==> {
                &&& (#[trigger] self.fields@[i]).size_bytes == spec_type_size(
                    self.fields@[i].declared_type,
                    self.pointer_width,
                )
                &&& self.fields@[i].align_bytes == spec_type_align(
                    self.fields@[i].declared_type,
                    self.pointer_width,
                )
                &&& self.fields@[i].offset_bytes as int == spec_field_offset(
                    self.spec_types(),
                    i,
                    self.pointer_width,
                )
            }
        &&& forall|i: int, j: int|
            0 <= i < j < self.fields@.len() ==> (#[trigger] self.fields@[i]).name@ != (
            #[trigger] self.fields@[j]).name@
        &&& self.size_bytes as int == spec_plan_cursor(self.spec_types(), self.pointer_width)
    }

    /// The record kind's name.
    pub fn get_name(&self) -> (name: &str)
        ensures
            name@ == self.name@,
    {
        self.name.as_str()
    }

    /// The declared field names, in declaration order.
    pub fn field_names(&self) -> (names: Vec<String>)
        ensures
            names@.len() == self.fields@.len(),
            forall|i: int| 0 <= i < names@.len() ==> names@[i]@ == self.fields@[i].name@,
    {
        let mut names: Vec<String> = Vec::new();
        let mut i: usize = 0;
        while i < self.fields.len()
            invariant
                i <= self.fields@.len(),
                names@.len() == i,
                forall|k: int| 0 <= k < i ==> names@[k]@ == self.fields@[k].name@,
            decreases self.fields@.len() - i,
        {
            names.push(self.fields[i].name.clone());
            i = i + 1;
        }
        names
    }

    /// The one-byte type tag codes of the declared fields, in declaration
    /// order.
    pub fn type_tag_codes(&self) -> (codes: Vec<u8>)
        ensures
            codes@.len() == self.fields@.len(),
            forall|i: int|
                0 <= i < codes@.len() ==> codes@[i] == crate::field_type::spec_tag_code(
                    spec_type_tag(self.fields@[i].declared_type),
                ),
    {
        let mut codes: Vec<u8> = Vec::new();
        let mut i: usize = 0;
        while i < self.fields.len()
            invariant
                i <= self.fields@.len(),
                codes@.len() == i,
                forall|k: int|
                    0 <= k < i ==> codes@[k] == crate::field_type::spec_tag_code(
                        spec_type_tag(self.fields@[k].declared_type),
                    ),
            decreases self.fields@.len() - i,
        {
            codes.push(crate::field_type::get_type_code(&self.fields[i].declared_type));
            i = i + 1;
        }
        codes
    }

    /// The declared type tags, in declaration order.
    pub fn type_tags(&self) -> (tags: Vec<FieldTypeTag>)
        ensures
            tags@.len() == self.fields@.len(),
            forall|i: int|
                0 <= i < tags@.len() ==> tags@[i] == spec_type_tag(
                    self.fields@[i].declared_type,
                ),
    {
        let mut tags: Vec<FieldTypeTag> = Vec::new();
        let mut i: usize = 0;
        while i < self.fields.len()
            invariant
                i <= self.fields@.len(),
                tags@.len() == i,
                forall|k: int|
                    0 <= k < i ==> tags@[k] == spec_type_tag(self.fields@[k].declared_type),
            decreases self.fields@.len() - i,
        {
            tags.push(crate::field_type::type_tag(&self.fields[i].declared_type));
            i = i + 1;
        }
        tags
    }
}

/// The layout guarantees a well-formed schema gives its holder: every
/// field's offset is a multiple of its alignment, the byte ranges
/// `[offset, offset + size)` of distinct fields are pairwise disjoint,
/// and every field lies inside the schema's total size.
pub proof fn lemma_schema_layout_sound(s: RecordSchema)
    requires
        s.wf(),
    ensures
        forall|i: int|
            0 <= i < s.fields@.len() ==> (#[trigger] s.fields@[i]).offset_bytes as int % (
            s.fields@[i].align_bytes as int) == 0,
        forall|i: int, j: int|
            0 <= i < j < s.fields@.len() ==> (#[trigger] s.fields@[i]).offset_bytes as int
                + s.fields@[i].size_bytes <= (#[trigger] s.fields@[j]).offset_bytes,
        forall|i: int|
            0 <= i < s.fields@.len() ==> (#[trigger] s.fields@[i]).offset_bytes as int
                + s.fields@[i].size_bytes <= s.size_bytes,
{
    let types = s.spec_types();
    assert forall|i: int|
        0 <= i < s.fields@.len() implies (#[trigger] s.fields@[i]).offset_bytes as int % (
    s.fields@[i].align_bytes as int) == 0 by {
        crate::field_type::lemma_size_align_shape(types[i], s.pointer_width);
        crate::layout::lemma_offset_aligned(types, s.pointer_width, i);
    }
    assert forall|i: int, j: int|
        0 <= i < j < s.fields@.len() implies (#[trigger] s.fields@[i]).offset_bytes as int
        + s.fields@[i].size_bytes <= (#[trigger] s.fields@[j]).offset_bytes by {
        crate::layout::lemma_no_overlap(types, s.pointer_width, i, j);
    }
    assert forall|i: int|
        0 <= i < s.fields@.len() implies (#[trigger] s.fields@[i]).offset_bytes as int
        + s.fields@[i].size_bytes <= s.size_bytes by {
        lemma_cursor_step(types, s.pointer_width, i);
        crate::layout::lemma_cursor_monotone(types, s.pointer_width, i + 1, types.len() as int);
        assert(types.subrange(0, types.len() as int) =~= types);
    }
}

/// Distinctness of declared field names.
pub open spec fn spec_names_distinct(decls: Seq<(String, DeclaredType)>) -> bool {
    forall|i: int, j: int|
        0 <= i < j < decls.len() ==> (#[trigger] decls[i]).0@ != (#[trigger] decls[j]).0@
}

/// Whether a declared name list holds two equal names; the executable
/// check behind `spec_names_distinct`.
pub fn field_names_distinct(decls: &Vec<(String, DeclaredType)>) -> (r: bool)
    ensures
        r == spec_names_distinct(decls@),
{
    let mut i: usize = 0;
    while i < decls.len()
        invariant
            i <= decls@.len(),
            forall|a: int, b: int|
                0 <= a < b < decls@.len() && a < i ==> (#[trigger] decls@[a]).0@ != (
                #[trigger] decls@[b]).0@,
        decreases decls@.len() - i,
    {
        let mut j: usize = i + 1;
        while j < decls.len()
            invariant
                i < decls@.len(),
                i < j,
                forall|b: int| i < b < j ==> decls@[i as int].0@ != (#[trigger] decls@[b]).0@,
            decreases decls@.len() - j,
        {
            if crate::field_type::str_eq(decls[i].0.as_str(), decls[j].0.as_str()) {
                return false;
            }
            j = j + 1;
        }
        i = i + 1;
    }
    true
}

/// Build a schema from typed field descriptors.
///
/// Every typed descriptor classifies, so this construction cannot fail;
/// the resulting schema is well formed and keeps declaration order.
pub fn build_schema_typed(
    name: String,
    decls: Vec<(String, DeclaredType)>,
    width: PointerWidth,
) -> (schema: RecordSchema)
    requires
        decls@.len() <= MAX_FIELDS,
        spec_names_distinct(decls@),
    ensures
        schema.wf(),
        schema.name@ == name@,
        schema.pointer_width == width,
        schema.fields@.len() == decls@.len(),
        forall|i: int|
            0 <= i < decls@.len() ==> (#[trigger] schema.fields@[i]).name@ == decls@[i].0@
                && schema.fields@[i].declared_type == decls@[i].1,
{
    let mut types: Vec<DeclaredType> = Vec::new();
    let mut i: usize = 0;
    while i < decls.len()
        invariant
            i <= decls@.len(),
            types@.len() == i,
            forall|k: int| 0 <= k < i ==> types@[k] == decls@[k].1,
        decreases decls@.len() - i,
    {
        types.push(decls[i].1);
        i = i + 1;
    }
    let offsets = plan_offsets(&types, width);
    let mut fields: Vec<FieldSpec> = Vec::new();
    let mut size_bytes: u32 = 0;
    let mut j: usize = 0;
    while j < decls.len()
        invariant
            j <= decls@.len(),
            decls@.len() <= MAX_FIELDS,
            fields@.len() == j,
            types@.len() == decls@.len(),
            offsets@.len() == decls@.len(),
            forall|k: int| 0 <= k < decls@.len() ==> types@[k] == decls@[k].1,
            forall|k: int|
                0 <= k < decls@.len() ==> offsets@[k] as int == spec_field_offset(
                    types@,
                    k,
                    width,
                ),
            forall|k: int|
                0 <= k < j ==> {
                    &&& (#[trigger] fields@[k]).name@ == decls@[k].0@
                    &&& fields@[k].declared_type == decls@[k].1
                    &&& fields@[k].size_bytes == spec_type_size(decls@[k].1, width)
                    &&& fields@[k].align_bytes == spec_type_align(decls@[k].1, width)
                    &&& fields@[k].offset_bytes == offsets@[k]
                },
            size_bytes as int == spec_plan_cursor(types@.subrange(0, j as int), width),
        decreases decls@.len() - j,
    {
        let (size, align, _tag) = classify(&decls[j].1, width);
        proof {
            lemma_cursor_step(types@, width, j as int);
            crate::layout::lemma_cursor_bounds(types@.subrange(0, j + 1), width);
        }
        fields.push(
            FieldSpec {
                name: decls[j].0.clone(),
                declared_type: decls[j].1,
                size_bytes: size,
                align_bytes: align,
                offset_bytes: offsets[j],
            },
        );
        size_bytes = offsets[j] + size;
        j = j + 1;
    }
    proof {
        assert(types@.subrange(0, decls@.len() as int) =~= types@);
    }
    let schema = RecordSchema { name, fields, pointer_width: width, size_bytes };
    proof {
        assert(schema.spec_types() =~= types@);
    }
    schema
}

/// Build a schema from field declarations written as type-name text.
///
/// Fails with `UnsupportedType`, naming the first offending field, when a
/// type name is not recognized.
pub fn build_schema(
    name: String,
    decls: Vec<(String, String)>,
    width: PointerWidth,
) -> (result: Result<RecordSchema, SchemaError>)
    requires
        decls@.len() <= MAX_FIELDS,
        forall|i: int, j: int|
            0 <= i < j < decls@.len() ==> (#[trigger] decls@[i]).0@ != (#[trigger] decls@[j]).0@,
    ensures
        match result {
            Ok(schema) => {
                &&& forall|i: int|
                    0 <= i < decls@.len() ==> spec_parse_type_name(
                        (#[trigger] decls@[i]).1@,
                    ) is Some
                &&& schema.wf()
                &&& schema.name@ == name@
                &&& schema.pointer_width == width
                &&& schema.fields@.len() == decls@.len()
                &&& forall|i: int|
                    0 <= i < decls@.len() ==> (#[trigger] schema.fields@[i]).name@
                        == decls@[i].0@ && schema.fields@[i].declared_type
                        == spec_parse_type_name(decls@[i].1@)->Some_0
            },
            Err(SchemaError::UnsupportedType(field)) => exists|j: int|
                {
                    &&& 0 <= j < decls@.len()
                    &&& spec_parse_type_name((#[trigger] decls@[j]).1@) is None
                    &&& forall|k: int|
                        0 <= k < j ==> spec_parse_type_name((#[trigger] decls@[k]).1@) is Some
                    &&& field@ == decls@[j].0@
                },
            Err(_) => false,
        },
{
    let mut typed: Vec<(String, DeclaredType)> = Vec::new();
    let mut i: usize = 0;
    while i < decls.len()
        invariant
            i <= decls@.len(),
            typed@.len() == i,
            forall|k: int|
                0 <= k < i ==> spec_parse_type_name((#[trigger] decls@[k]).1@) is Some,
            forall|k: int|
                0 <= k < i ==> (#[trigger] typed@[k]).0@ == decls@[k].0@ && typed@[k].1
                    == spec_parse_type_name(decls@[k].1@)->Some_0,
        decreases decls@.len() - i,
    {
        match parse_type_name(decls[i].1.as_str()) {
            Some(ty) => {
                typed.push((decls[i].0.clone(), ty));
            },
            None => {
                return Err(SchemaError::UnsupportedType(decls[i].0.clone()));
            },
        }
        i = i + 1;
    }
    Ok(build_schema_typed(name, typed, width))
}

} // verus!
