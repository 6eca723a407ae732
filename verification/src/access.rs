//! Accessor dispatch: one read and one write operation per declared field
//! type, each delegating to the raw member primitive selected by the
//! type's tag, parameterized by the field's planned offset.
//!
//! Accessors are pure pass-throughs with no caching. The laws at the end
//! state what the dispatch guarantees: writing a field and reading it back
//! returns the written value, and writing one planned field leaves every
//! other planned field of the schema unchanged.

use vstd::prelude::*;

use crate::field_type::{spec_type_size, DeclaredType, ElemType, PointerWidth};
use crate::layout::{
    lemma_cursor_bounds, lemma_cursor_monotone, lemma_cursor_step, lemma_no_overlap,
    spec_field_offset, spec_plan_cursor, MAX_FIELDS,
};
use crate::member::{
    lemma_le2_round_trip, lemma_le4_round_trip, lemma_le8_round_trip, lemma_splice_index,
    spec_le2_at, spec_le2_of, spec_le4_at, spec_le4_of, spec_le8_at, spec_le8_of, spec_splice,
    spec_i16_to_u16, spec_i32_to_u32, spec_i64_to_u64, spec_i8_to_u8, spec_u16_to_i16,
    spec_u32_to_i32, spec_u64_to_i64, spec_u8_to_i8, ComponentData, DataView,
};

verus! {

/// One field value in transit through an accessor.
///
/// Float fields travel as their raw bit patterns; the two handle kinds
/// travel as 64-bit words; list fields of 64-bit elements and of handles
/// share the word-list representation.
#[derive(Clone, PartialEq, Eq, Debug)]
pub enum FieldValue {
    U8(u8),
    U16(u16),
    U32(u32),
    U64(u64),
    I8(i8),
    I16(i16),
    I32(i32),
    I64(i64),
    F32Bits(u32),
    F64Bits(u64),
    Bool(bool),
    Text(String),
    Handle(u64),
    U8List(Vec<u8>),
    U64List(Vec<u64>),
}

/// The mathematical content of a `FieldValue`.
pub enum FieldValueView {
    U8(u8),
    U16(u16),
    U32(u32),
    U64(u64),
    I8(i8),
    I16(i16),
    I32(i32),
    I64(i64),
    F32Bits(u32),
    F64Bits(u64),
    Bool(bool),
    Text(Seq<char>),
    Handle(u64),
    U8List(Seq<u8>),
    U64List(Seq<u64>),
}

impl View for FieldValue {
    type V = FieldValueView;

    open spec fn view(&self) -> FieldValueView {
        match self {
            FieldValue::U8(x) => FieldValueView::U8(*x),
            FieldValue::U16(x) => FieldValueView::U16(*x),
            FieldValue::U32(x) => FieldValueView::U32(*x),
            FieldValue::U64(x) => FieldValueView::U64(*x),
            FieldValue::I8(x) => FieldValueView::I8(*x),
            FieldValue::I16(x) => FieldValueView::I16(*x),
            FieldValue::I32(x) => FieldValueView::I32(*x),
            FieldValue::I64(x) => FieldValueView::I64(*x),
            FieldValue::F32Bits(x) => FieldValueView::F32Bits(*x),
            FieldValue::F64Bits(x) => FieldValueView::F64Bits(*x),
            FieldValue::Bool(x) => FieldValueView::Bool(*x),
            FieldValue::Text(s) => FieldValueView::Text(s@),
            FieldValue::Handle(x) => FieldValueView::Handle(*x),
            FieldValue::U8List(l) => FieldValueView::U8List(l@),
            FieldValue::U64List(l) => FieldValueView::U64List(l@),
        }
    }
}

/// Whether the accessor layer supports a declared type. Every fixed-size
/// type, text, and the byte-list and word-list sequences are supported;
/// sequences of narrower scalars have no member primitive.
pub open spec fn spec_has_accessor(ty: DeclaredType) -> bool {
    match ty {
        DeclaredType::Sequence(e) => e == ElemType::U8 || e == ElemType::U64 || e == ElemType::Ptr
            || e == ElemType::EntityId,
        _ => true,
    }
}

/// Whether a value is of the shape a declared type's accessors move.
pub open spec fn spec_value_fits(v: FieldValueView, ty: DeclaredType) -> bool {
    match ty {
        DeclaredType::U8 => v is U8,
        DeclaredType::U16 => v is U16,
        DeclaredType::U32 => v is U32,
        DeclaredType::U64 => v is U64,
        DeclaredType::I8 => v is I8,
        DeclaredType::I16 => v is I16,
        DeclaredType::I32 => v is I32,
        DeclaredType::I64 => v is I64,
        DeclaredType::F32 => v is F32Bits,
        DeclaredType::F64 => v is F64Bits,
        DeclaredType::Bool => v is Bool,
        DeclaredType::Ptr => v is Handle,
        DeclaredType::EntityId => v is Handle,
        DeclaredType::Text => v is Text,
        DeclaredType::Sequence(e) => if e == ElemType::U8 {
            v is U8List
        } else if (e == ElemType::U64 || e == ElemType::Ptr || e == ElemType::EntityId) {
            v is U64List
        } else {
            false
        },
    }
}

/// How many bytes of the fixed-size block an accessor for the type
/// touches. Text and sequence accessors move payloads only, so they touch
/// none.
pub open spec fn spec_access_bytes(ty: DeclaredType) -> u32 {
    match ty {
        DeclaredType::U8 => 1,
        DeclaredType::U16 => 2,
        DeclaredType::U32 => 4,
        DeclaredType::U64 => 8,
        DeclaredType::I8 => 1,
        DeclaredType::I16 => 2,
        DeclaredType::I32 => 4,
        DeclaredType::I64 => 8,
        DeclaredType::F32 => 4,
        DeclaredType::F64 => 8,
        DeclaredType::Bool => 1,
        DeclaredType::Ptr => 8,
        DeclaredType::EntityId => 8,
        DeclaredType::Text => 0,
        DeclaredType::Sequence(_) => 0,
    }
}

/// An accessor never touches more of the block than the field's planned
/// size.
pub proof fn lemma_access_within_size(ty: DeclaredType, width: PointerWidth)
    ensures
        spec_access_bytes(ty) <= spec_type_size(ty, width),
{
}

/// What reading a field of the given type at the given offset returns.
pub open spec fn spec_read_field(d: DataView, ty: DeclaredType, offset: u32) -> FieldValueView {
    match ty {
        DeclaredType::U8 => FieldValueView::U8(d.bytes[offset as int]),
        DeclaredType::U16 => FieldValueView::U16(spec_le2_at(d.bytes, offset as int)),
        DeclaredType::U32 => FieldValueView::U32(spec_le4_at(d.bytes, offset as int)),
        DeclaredType::U64 => FieldValueView::U64(spec_le8_at(d.bytes, offset as int)),
        DeclaredType::I8 => FieldValueView::I8(spec_u8_to_i8(d.bytes[offset as int])),
        DeclaredType::I16 => FieldValueView::I16(
            spec_u16_to_i16(spec_le2_at(d.bytes, offset as int)),
        ),
        DeclaredType::I32 => FieldValueView::I32(
            spec_u32_to_i32(spec_le4_at(d.bytes, offset as int)),
        ),
        DeclaredType::I64 => FieldValueView::I64(
            spec_u64_to_i64(spec_le8_at(d.bytes, offset as int)),
        ),
        DeclaredType::F32 => FieldValueView::F32Bits(spec_le4_at(d.bytes, offset as int)),
        DeclaredType::F64 => FieldValueView::F64Bits(spec_le8_at(d.bytes, offset as int)),
        DeclaredType::Bool => FieldValueView::Bool(d.bytes[offset as int] != 0),
        DeclaredType::Ptr => FieldValueView::Handle(spec_le8_at(d.bytes, offset as int)),
        DeclaredType::EntityId => FieldValueView::Handle(spec_le8_at(d.bytes, offset as int)),
        DeclaredType::Text => FieldValueView::Text(
            if d.texts.contains_key(offset) {
                d.texts[offset]
            } else {
                Seq::<char>::empty()
            },
        ),
        DeclaredType::Sequence(e) => if e == ElemType::U8 {
            FieldValueView::U8List(
                if d.byte_lists.contains_key(offset) {
                    d.byte_lists[offset]
                } else {
                    Seq::<u8>::empty()
                },
            )
        } else {
            FieldValueView::U64List(
                if d.word_lists.contains_key(offset) {
                    d.word_lists[offset]
                } else {
                    Seq::<u64>::empty()
                },
            )
        },
    }
}

/// What the descriptor holds after writing a field of the given type at
/// the given offset.
pub open spec fn spec_write_field(
    d: DataView,
    ty: DeclaredType,
    offset: u32,
    v: FieldValueView,
) -> DataView
    recommends
        spec_value_fits(v, ty),
{
    match ty {
        DeclaredType::U8 => DataView {
            bytes: spec_splice(d.bytes, offset as int, seq![v->U8_0]),
            ..d
        },
        DeclaredType::U16 => DataView {
            bytes: spec_splice(d.bytes, offset as int, spec_le2_of(v->U16_0)),
            ..d
        },
        DeclaredType::U32 => DataView {
            bytes: spec_splice(d.bytes, offset as int, spec_le4_of(v->U32_0)),
            ..d
        },
        DeclaredType::U64 => DataView {
            bytes: spec_splice(d.bytes, offset as int, spec_le8_of(v->U64_0)),
            ..d
        },
        DeclaredType::I8 => DataView {
            bytes: spec_splice(d.bytes, offset as int, seq![spec_i8_to_u8(v->I8_0)]),
            ..d
        },
        DeclaredType::I16 => DataView {
            bytes: spec_splice(d.bytes, offset as int, spec_le2_of(spec_i16_to_u16(v->I16_0))),
            ..d
        },
        DeclaredType::I32 => DataView {
            bytes: spec_splice(d.bytes, offset as int, spec_le4_of(spec_i32_to_u32(v->I32_0))),
            ..d
        },
        DeclaredType::I64 => DataView {
            bytes: spec_splice(d.bytes, offset as int, spec_le8_of(spec_i64_to_u64(v->I64_0))),
            ..d
        },
        DeclaredType::F32 => DataView {
            bytes: spec_splice(d.bytes, offset as int, spec_le4_of(v->F32Bits_0)),
            ..d
        },
        DeclaredType::F64 => DataView {
            bytes: spec_splice(d.bytes, offset as int, spec_le8_of(v->F64Bits_0)),
            ..d
        },
        DeclaredType::Bool => DataView {
            bytes: spec_splice(
                d.bytes,
                offset as int,
                seq![if v->Bool_0 {
                    1u8
                } else {
                    0u8
                }],
            ),
            ..d
        },
        DeclaredType::Ptr => DataView {
            bytes: spec_splice(d.bytes, offset as int, spec_le8_of(v->Handle_0)),
            ..d
        },
        DeclaredType::EntityId => DataView {
            bytes: spec_splice(d.bytes, offset as int, spec_le8_of(v->Handle_0)),
            ..d
        },
        DeclaredType::Text => DataView { texts: d.texts.insert(offset, v->Text_0), ..d },
        DeclaredType::Sequence(e) => if e == ElemType::U8 {
            DataView { byte_lists: d.byte_lists.insert(offset, v->U8List_0), ..d }
        } else {
            DataView { word_lists: d.word_lists.insert(offset, v->U64List_0), ..d }
        },
    }
}

impl ComponentData {
    /// Read the field of the given declared type at the given planned
    /// offset, dispatching to the member primitive its tag selects.
    pub fn read_field(&self, ty: &DeclaredType, offset: u32) -> (v: FieldValue)
        requires
            self.inv(),
            spec_has_accessor(*ty),
            offset + spec_access_bytes(*ty) <= self@.bytes.len(),
        ensures
            v@ == spec_read_field(self@, *ty, offset),
            spec_value_fits(v@, *ty),
    {
        match ty {
            DeclaredType::U8 => FieldValue::U8(self.get_member_u8(offset)),
            DeclaredType::U16 => FieldValue::U16(self.get_member_u16(offset)),
            DeclaredType::U32 => FieldValue::U32(self.get_member_u32(offset)),
            DeclaredType::U64 => FieldValue::U64(self.get_member_u64(offset)),
            DeclaredType::I8 => FieldValue::I8(self.get_member_i8(offset)),
            DeclaredType::I16 => FieldValue::I16(self.get_member_i16(offset)),
            DeclaredType::I32 => FieldValue::I32(self.get_member_i32(offset)),
            DeclaredType::I64 => FieldValue::I64(self.get_member_i64(offset)),
            DeclaredType::F32 => FieldValue::F32Bits(self.get_member_f32_bits(offset)),
            DeclaredType::F64 => FieldValue::F64Bits(self.get_member_f64_bits(offset)),
            DeclaredType::Bool => FieldValue::Bool(self.get_member_bool(offset)),
            DeclaredType::Ptr => FieldValue::Handle(self.get_member_u64(offset)),
            DeclaredType::EntityId => FieldValue::Handle(self.get_member_u64(offset)),
            DeclaredType::Text => FieldValue::Text(self.get_member_string(offset)),
            DeclaredType::Sequence(e) => match e {
                ElemType::U8 => FieldValue::U8List(self.get_member_u8list(offset)),
                _ => FieldValue::U64List(self.get_member_u64list(offset)),
            },
        }
    }

    /// Write a field of the given declared type at the given planned
    /// offset; after the call the field holds the written value.
    pub fn write_field(&mut self, ty: &DeclaredType, offset: u32, value: FieldValue)
        requires
            old(self).inv(),
            spec_has_accessor(*ty),
            spec_value_fits(value@, *ty),
            offset + spec_access_bytes(*ty) <= old(self)@.bytes.len(),
        ensures
            final(self).inv(),
            final(self)@ == spec_write_field(old(self)@, *ty, offset, value@),
            spec_read_field(final(self)@, *ty, offset) == value@,
    {
        proof {
            lemma_write_then_read(self@, *ty, offset, value@);
        }
        match (*ty, value) {
            (DeclaredType::U8, FieldValue::U8(x)) => self.set_member_u8(offset, x),
            (DeclaredType::U16, FieldValue::U16(x)) => self.set_member_u16(offset, x),
            (DeclaredType::U32, FieldValue::U32(x)) => self.set_member_u32(offset, x),
            (DeclaredType::U64, FieldValue::U64(x)) => self.set_member_u64(offset, x),
            (DeclaredType::I8, FieldValue::I8(x)) => self.set_member_i8(offset, x),
            (DeclaredType::I16, FieldValue::I16(x)) => self.set_member_i16(offset, x),
            (DeclaredType::I32, FieldValue::I32(x)) => self.set_member_i32(offset, x),
            (DeclaredType::I64, FieldValue::I64(x)) => self.set_member_i64(offset, x),
            (DeclaredType::F32, FieldValue::F32Bits(x)) => self.set_member_f32_bits(offset, x),
            (DeclaredType::F64, FieldValue::F64Bits(x)) => self.set_member_f64_bits(offset, x),
            (DeclaredType::Bool, FieldValue::Bool(x)) => self.set_member_bool(offset, x),
            (DeclaredType::Ptr, FieldValue::Handle(x)) => self.set_member_u64(offset, x),
            (DeclaredType::EntityId, FieldValue::Handle(x)) => self.set_member_u64(offset, x),
            (DeclaredType::Text, FieldValue::Text(s)) => self.set_member_string(offset, s),
            (DeclaredType::Sequence(ElemType::U8), FieldValue::U8List(l)) => self.set_member_u8list(
                offset,
                l,
            ),
            (DeclaredType::Sequence(ElemType::U64), FieldValue::U64List(l)) => self
                .set_member_u64list(offset, l),
            (DeclaredType::Sequence(ElemType::Ptr), FieldValue::U64List(l)) => self
                .set_member_u64list(offset, l),
            (DeclaredType::Sequence(ElemType::EntityId), FieldValue::U64List(l)) => self
                .set_member_u64list(offset, l),
            _ => {},
        }
    }
}

/// The zero/empty value of a declared type: what a freshly attached,
/// zero-initialized field reads as.
pub open spec fn spec_zero_value(ty: DeclaredType) -> FieldValueView {
    match ty {
        DeclaredType::U8 => FieldValueView::U8(0),
        DeclaredType::U16 => FieldValueView::U16(0),
        DeclaredType::U32 => FieldValueView::U32(0),
        DeclaredType::U64 => FieldValueView::U64(0),
        DeclaredType::I8 => FieldValueView::I8(0),
        DeclaredType::I16 => FieldValueView::I16(0),
        DeclaredType::I32 => FieldValueView::I32(0),
        DeclaredType::I64 => FieldValueView::I64(0),
        DeclaredType::F32 => FieldValueView::F32Bits(0),
        DeclaredType::F64 => FieldValueView::F64Bits(0),
        DeclaredType::Bool => FieldValueView::Bool(false),
        DeclaredType::Ptr => FieldValueView::Handle(0),
        DeclaredType::EntityId => FieldValueView::Handle(0),
        DeclaredType::Text => FieldValueView::Text(Seq::empty()),
        DeclaredType::Sequence(e) => if e == ElemType::U8 {
            FieldValueView::U8List(Seq::empty())
        } else {
            FieldValueView::U64List(Seq::empty())
        },
    }
}

/// Default construction zero/empty-initializes all fields: in a fresh
/// descriptor — all bytes zero, no payloads — every supported field reads
/// as its type's zero value.
pub proof fn lemma_fresh_reads_zero(d: DataView, ty: DeclaredType, offset: u32)
    requires
        spec_has_accessor(ty),
        offset + spec_access_bytes(ty) <= d.bytes.len(),
        forall|i: int| 0 <= i < d.bytes.len() ==> d.bytes[i] == 0u8,
        d.texts == Map::<u32, Seq<char>>::empty(),
        d.byte_lists == Map::<u32, Seq<u8>>::empty(),
        d.word_lists == Map::<u32, Seq<u64>>::empty(),
    ensures
        spec_read_field(d, ty, offset) == spec_zero_value(ty),
{
}

/// Round trip: for every supported field type and valid offset, writing a
/// fitting value and reading the same field back returns that value.
pub proof fn lemma_write_then_read(d: DataView, ty: DeclaredType, offset: u32, v: FieldValueView)
    requires
        spec_has_accessor(ty),
        spec_value_fits(v, ty),
        offset + spec_access_bytes(ty) <= d.bytes.len(),
    ensures
        spec_read_field(spec_write_field(d, ty, offset, v), ty, offset) == v,
{
    match ty {
        DeclaredType::U8 => {
            lemma_splice_index(d.bytes, offset as int, seq![v->U8_0], offset as int);
        },
        DeclaredType::U16 => {
            lemma_le2_round_trip(v->U16_0);
            lemma_le_patch_visible(d.bytes, offset, spec_le2_of(v->U16_0));
        },
        DeclaredType::U32 => {
            lemma_le4_round_trip(v->U32_0);
            lemma_le_patch_visible(d.bytes, offset, spec_le4_of(v->U32_0));
        },
        DeclaredType::U64 => {
            lemma_le8_round_trip(v->U64_0);
            lemma_le_patch_visible(d.bytes, offset, spec_le8_of(v->U64_0));
        },
        DeclaredType::I8 => {
            lemma_splice_index(d.bytes, offset as int, seq![spec_i8_to_u8(v->I8_0)], offset as int);
        },
        DeclaredType::I16 => {
            lemma_le2_round_trip(spec_i16_to_u16(v->I16_0));
            lemma_le_patch_visible(d.bytes, offset, spec_le2_of(spec_i16_to_u16(v->I16_0)));
        },
        DeclaredType::I32 => {
            lemma_le4_round_trip(spec_i32_to_u32(v->I32_0));
            lemma_le_patch_visible(d.bytes, offset, spec_le4_of(spec_i32_to_u32(v->I32_0)));
        },
        DeclaredType::I64 => {
            lemma_le8_round_trip(spec_i64_to_u64(v->I64_0));
            lemma_le_patch_visible(d.bytes, offset, spec_le8_of(spec_i64_to_u64(v->I64_0)));
        },
        DeclaredType::F32 => {
            lemma_le4_round_trip(v->F32Bits_0);
            lemma_le_patch_visible(d.bytes, offset, spec_le4_of(v->F32Bits_0));
        },
        DeclaredType::F64 => {
            lemma_le8_round_trip(v->F64Bits_0);
            lemma_le_patch_visible(d.bytes, offset, spec_le8_of(v->F64Bits_0));
        },
        DeclaredType::Bool => {
            lemma_splice_index(
                d.bytes,
                offset as int,
                seq![if v->Bool_0 {
                    1u8
                } else {
                    0u8
                }],
                offset as int,
            );
        },
        DeclaredType::Ptr => {
            lemma_le8_round_trip(v->Handle_0);
            lemma_le_patch_visible(d.bytes, offset, spec_le8_of(v->Handle_0));
        },
        DeclaredType::EntityId => {
            lemma_le8_round_trip(v->Handle_0);
            lemma_le_patch_visible(d.bytes, offset, spec_le8_of(v->Handle_0));
        },
        DeclaredType::Text => {},
        DeclaredType::Sequence(_) => {},
    }
}

/// After a splice, the little-endian value read from the patched window
/// is the value read from the patch itself.
proof fn lemma_le_patch_visible(bytes: Seq<u8>, offset: u32, patch: Seq<u8>)
    requires
        offset + patch.len() <= bytes.len(),
    ensures
        forall|k: int|
            0 <= k < patch.len() ==> #[trigger] spec_splice(bytes, offset as int, patch)[offset
                + k] == patch[k],
        spec_splice(bytes, offset as int, patch).len() == bytes.len(),
{
    assert forall|k: int|
        0 <= k < patch.len() implies #[trigger] spec_splice(bytes, offset as int, patch)[offset
        + k] == patch[k] by {
        lemma_splice_index(bytes, offset as int, patch, offset + k);
    }
}

/// Writing one field changes nothing another accessor at a different
/// place can observe: the write's byte window and the read's byte window
/// are disjoint, and payloads are keyed by their own offsets.
pub proof fn lemma_write_frame(
    d: DataView,
    ty1: DeclaredType,
    offset1: u32,
    v: FieldValueView,
    ty2: DeclaredType,
    offset2: u32,
)
    requires
        spec_has_accessor(ty1),
        spec_has_accessor(ty2),
        spec_value_fits(v, ty1),
        offset1 + spec_access_bytes(ty1) <= d.bytes.len(),
        offset2 + spec_access_bytes(ty2) <= d.bytes.len(),
        offset1 != offset2,
        spec_access_bytes(ty1) == 0 || spec_access_bytes(ty2) == 0 || offset1 + spec_access_bytes(
            ty1,
        ) <= offset2 || offset2 + spec_access_bytes(ty2) <= offset1,
    ensures
        spec_read_field(spec_write_field(d, ty1, offset1, v), ty2, offset2) == spec_read_field(
            d,
            ty2,
            offset2,
        ),
{
    let w = spec_write_field(d, ty1, offset1, v);
    if spec_access_bytes(ty1) > 0 {
        assert forall|i: int|
            offset2 <= i < offset2 + spec_access_bytes(ty2) implies w.bytes[i] == d.bytes[i] by {
            lemma_splice_write_keeps_len(d, ty1, offset1, v);
            lemma_splice_outside(d, ty1, offset1, v, i);
        }
        assert(w.texts =~= d.texts);
        assert(w.byte_lists =~= d.byte_lists);
        assert(w.word_lists =~= d.word_lists);
    } else {
        assert(w.bytes =~= d.bytes);
    }
}

/// The byte block keeps its length under any field write.
pub proof fn lemma_splice_write_keeps_len(d: DataView, ty: DeclaredType, offset: u32, v: FieldValueView)
    requires
        spec_has_accessor(ty),
        spec_value_fits(v, ty),
        offset + spec_access_bytes(ty) <= d.bytes.len(),
    ensures
        spec_write_field(d, ty, offset, v).bytes.len() == d.bytes.len(),
{
    if spec_access_bytes(ty) > 0 {
        lemma_splice_index(
            d.bytes,
            offset as int,
            spec_write_patch(ty, v),
            offset as int,
        );
        assert(spec_write_field(d, ty, offset, v).bytes == spec_splice(
            d.bytes,
            offset as int,
            spec_write_patch(ty, v),
        ));
    }
}

/// The bytes a fixed-size field write splices in.
pub open spec fn spec_write_patch(ty: DeclaredType, v: FieldValueView) -> Seq<u8> {
    match ty {
        DeclaredType::U8 => seq![v->U8_0],
        DeclaredType::U16 => spec_le2_of(v->U16_0),
        DeclaredType::U32 => spec_le4_of(v->U32_0),
        DeclaredType::U64 => spec_le8_of(v->U64_0),
        DeclaredType::I8 => seq![spec_i8_to_u8(v->I8_0)],
        DeclaredType::I16 => spec_le2_of(spec_i16_to_u16(v->I16_0)),
        DeclaredType::I32 => spec_le4_of(spec_i32_to_u32(v->I32_0)),
        DeclaredType::I64 => spec_le8_of(spec_i64_to_u64(v->I64_0)),
        DeclaredType::F32 => spec_le4_of(v->F32Bits_0),
        DeclaredType::F64 => spec_le8_of(v->F64Bits_0),
        DeclaredType::Bool => seq![
            if v->Bool_0 {
                1u8
            } else {
                0u8
            },
        ],
        DeclaredType::Ptr => spec_le8_of(v->Handle_0),
        DeclaredType::EntityId => spec_le8_of(v->Handle_0),
        DeclaredType::Text => Seq::empty(),
        DeclaredType::Sequence(_) => Seq::empty(),
    }
}

/// Bytes outside a fixed-size write's window are untouched.
#[verifier::rlimit(50)]
proof fn lemma_splice_outside(
    d: DataView,
    ty: DeclaredType,
    offset: u32,
    v: FieldValueView,
    i: int,
)
    requires
        spec_has_accessor(ty),
        spec_value_fits(v, ty),
        spec_access_bytes(ty) > 0,
        offset + spec_access_bytes(ty) <= d.bytes.len(),
        0 <= i < d.bytes.len(),
        i < offset || offset + spec_access_bytes(ty) <= i,
    ensures
        spec_write_field(d, ty, offset, v).bytes[i] == d.bytes[i],
{
    assert(spec_write_field(d, ty, offset, v).bytes == spec_splice(
        d.bytes,
        offset as int,
        spec_write_patch(ty, v),
    ));
    lemma_splice_index(d.bytes, offset as int, spec_write_patch(ty, v), i);
}

/// Schema-level independence: in a planned type list, writing field `i`
/// leaves what is read from any other field `j` unchanged, for a
/// descriptor whose block has the planned total size.
pub proof fn lemma_planned_fields_independent(
    d: DataView,
    types: Seq<DeclaredType>,
    width: PointerWidth,
    i: int,
    j: int,
    v: FieldValueView,
)
    requires
        types.len() <= MAX_FIELDS,
        d.bytes.len() == spec_plan_cursor(types, width),
        0 <= i < types.len(),
        0 <= j < types.len(),
        i != j,
        spec_has_accessor(types[i]),
        spec_has_accessor(types[j]),
        spec_value_fits(v, types[i]),
    ensures
        spec_read_field(
            spec_write_field(d, types[i], spec_field_offset(types, i, width) as u32, v),
            types[j],
            spec_field_offset(types, j, width) as u32,
        ) == spec_read_field(d, types[j], spec_field_offset(types, j, width) as u32),
{
    lemma_field_window_in_block(d, types, width, i);
    lemma_field_window_in_block(d, types, width, j);
    lemma_access_within_size(types[i], width);
    lemma_access_within_size(types[j], width);
    if i < j {
        lemma_no_overlap(types, width, i, j);
    } else {
        lemma_no_overlap(types, width, j, i);
    }
    lemma_write_frame(
        d,
        types[i],
        spec_field_offset(types, i, width) as u32,
        v,
        types[j],
        spec_field_offset(types, j, width) as u32,
    );
}

/// A planned field's access window lies inside a block of the planned
/// total size, and its offset fits in 32 bits.
pub proof fn lemma_field_window_in_block(
    d: DataView,
    types: Seq<DeclaredType>,
    width: PointerWidth,
    k: int,
)
    requires
        types.len() <= MAX_FIELDS,
        d.bytes.len() == spec_plan_cursor(types, width),
        0 <= k < types.len(),
    ensures
        0 <= spec_field_offset(types, k, width),
        spec_field_offset(types, k, width) + spec_type_size(types[k], width) <= d.bytes.len(),
        spec_field_offset(types, k, width) <= 0xffff_ffff,
        spec_field_offset(types, k, width) as u32 == spec_field_offset(types, k, width),
{
    lemma_cursor_step(types, width, k);
    lemma_cursor_bounds(types.subrange(0, k), width);
    lemma_cursor_monotone(types, width, k + 1, types.len() as int);
    assert(types.subrange(0, types.len() as int) =~= types);
    crate::field_type::lemma_size_align_shape(types[k], width);
}

} // verus!
