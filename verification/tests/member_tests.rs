//! Member primitives and accessor dispatch on a concrete descriptor.

use toxoid_core::access::FieldValue;
use toxoid_core::field_type::{DeclaredType, ElemType};
use toxoid_core::member::ComponentData;

#[test]
fn fresh_descriptor_reads_zero() {
    let d = ComponentData::new(16);
    assert_eq!(d.size(), 16);
    assert_eq!(d.get_member_u8(0), 0);
    assert_eq!(d.get_member_u32(4), 0);
    assert_eq!(d.get_member_u64(8), 0);
    assert!(!d.get_member_bool(3));
    assert_eq!(d.get_member_string(0), String::new());
    assert_eq!(d.get_member_u8list(0), Vec::<u8>::new());
    assert_eq!(d.get_member_u64list(8), Vec::<u64>::new());
}

#[test]
fn dispatch_reads_zero_on_a_fresh_descriptor() {
    let d = ComponentData::new(16);
    assert_eq!(d.read_field(&DeclaredType::U32, 0), FieldValue::U32(0));
    assert_eq!(d.read_field(&DeclaredType::I64, 8), FieldValue::I64(0));
    assert_eq!(d.read_field(&DeclaredType::Bool, 2), FieldValue::Bool(false));
    assert_eq!(d.read_field(&DeclaredType::Ptr, 0), FieldValue::Handle(0));
    assert_eq!(
        d.read_field(&DeclaredType::Text, 0),
        FieldValue::Text(String::new())
    );
    assert_eq!(
        d.read_field(&DeclaredType::Sequence(ElemType::U64), 8),
        FieldValue::U64List(Vec::new())
    );
}

#[test]
fn words_are_stored_little_endian() {
    let mut d = ComponentData::new(8);
    d.set_member_u32(0, 0x0102_0304);
    assert_eq!(d.get_member_u8(0), 0x04);
    assert_eq!(d.get_member_u8(1), 0x03);
    assert_eq!(d.get_member_u8(2), 0x02);
    assert_eq!(d.get_member_u8(3), 0x01);
    assert_eq!(d.get_member_u32(0), 0x0102_0304);
}

#[test]
fn unsigned_round_trips() {
    let mut d = ComponentData::new(32);
    d.set_member_u8(0, 0xab);
    d.set_member_u16(2, 0xbeef);
    d.set_member_u32(4, 0xdead_beef);
    d.set_member_u64(8, 0x0123_4567_89ab_cdef);
    assert_eq!(d.get_member_u8(0), 0xab);
    assert_eq!(d.get_member_u16(2), 0xbeef);
    assert_eq!(d.get_member_u32(4), 0xdead_beef);
    assert_eq!(d.get_member_u64(8), 0x0123_4567_89ab_cdef);
}

#[test]
fn signed_round_trips_including_extremes() {
    let mut d = ComponentData::new(32);
    d.set_member_i8(0, -128);
    d.set_member_i16(2, -2);
    d.set_member_i32(4, i32::MIN);
    d.set_member_i64(8, i64::MIN);
    assert_eq!(d.get_member_i8(0), -128);
    assert_eq!(d.get_member_i16(2), -2);
    assert_eq!(d.get_member_i32(4), i32::MIN);
    assert_eq!(d.get_member_i64(8), i64::MIN);
    d.set_member_i32(4, 7);
    assert_eq!(d.get_member_i32(4), 7);
}

#[test]
fn float_bit_patterns_round_trip() {
    let mut d = ComponentData::new(16);
    let dx = 1.5f32.to_bits();
    let dy = (-2.25f64).to_bits();
    d.set_member_f32_bits(0, dx);
    d.set_member_f64_bits(8, dy);
    assert_eq!(f32::from_bits(d.get_member_f32_bits(0)), 1.5);
    assert_eq!(f64::from_bits(d.get_member_f64_bits(8)), -2.25);
}

#[test]
fn bool_round_trips() {
    let mut d = ComponentData::new(4);
    d.set_member_bool(0, true);
    d.set_member_bool(1, false);
    assert!(d.get_member_bool(0));
    assert!(!d.get_member_bool(1));
}

#[test]
fn text_payload_moves_in_and_reads_back() {
    let mut d = ComponentData::new(16);
    d.set_member_string(0, String::from("hello"));
    assert_eq!(d.get_member_string(0), "hello");
    d.set_member_string(0, String::from("world"));
    assert_eq!(d.get_member_string(0), "world");
    assert_eq!(d.get_member_string(8), "");
}

#[test]
fn list_payloads_read_back() {
    let mut d = ComponentData::new(16);
    d.set_member_u8list(0, vec![1, 2, 3]);
    d.set_member_u64list(8, vec![10, 20]);
    assert_eq!(d.get_member_u8list(0), vec![1, 2, 3]);
    assert_eq!(d.get_member_u64list(8), vec![10, 20]);
}

#[test]
fn dispatch_round_trips_every_supported_type() {
    let mut d = ComponentData::new(64);
    let cases: Vec<(DeclaredType, u32, FieldValue)> = vec![
        (DeclaredType::U8, 0, FieldValue::U8(9)),
        (DeclaredType::U16, 2, FieldValue::U16(512)),
        (DeclaredType::U32, 4, FieldValue::U32(70_000)),
        (DeclaredType::U64, 8, FieldValue::U64(1 << 40)),
        (DeclaredType::I8, 16, FieldValue::I8(-7)),
        (DeclaredType::I16, 18, FieldValue::I16(-300)),
        (DeclaredType::I32, 20, FieldValue::I32(-70_000)),
        (DeclaredType::I64, 24, FieldValue::I64(-(1 << 40))),
        (DeclaredType::F32, 32, FieldValue::F32Bits(3.5f32.to_bits())),
        (DeclaredType::F64, 40, FieldValue::F64Bits(2.75f64.to_bits())),
        (DeclaredType::Bool, 48, FieldValue::Bool(true)),
        (DeclaredType::Ptr, 56, FieldValue::Handle(0xfeed_beef)),
        (DeclaredType::EntityId, 56, FieldValue::Handle(42)),
        (DeclaredType::Text, 0, FieldValue::Text(String::from("abc"))),
        (
            DeclaredType::Sequence(ElemType::U8),
            4,
            FieldValue::U8List(vec![5, 6]),
        ),
        (
            DeclaredType::Sequence(ElemType::U64),
            8,
            FieldValue::U64List(vec![7, 8, 9]),
        ),
        (
            DeclaredType::Sequence(ElemType::Ptr),
            12,
            FieldValue::U64List(vec![11]),
        ),
        (
            DeclaredType::Sequence(ElemType::EntityId),
            16,
            FieldValue::U64List(vec![]),
        ),
    ];
    for (ty, offset, value) in cases {
        d.write_field(&ty, offset, value.clone());
        assert_eq!(d.read_field(&ty, offset), value);
    }
}

#[test]
fn writing_one_field_leaves_others_untouched() {
    let mut d = ComponentData::new(16);
    d.set_member_u32(0, 0xaaaa_bbbb);
    d.set_member_u32(4, 0xcccc_dddd);
    d.set_member_u64(8, 77);
    d.set_member_u32(4, 0x1111_2222);
    assert_eq!(d.get_member_u32(0), 0xaaaa_bbbb);
    assert_eq!(d.get_member_u32(4), 0x1111_2222);
    assert_eq!(d.get_member_u64(8), 77);
}

#[test]
fn payloads_are_keyed_by_their_cell_offset() {
    let mut d = ComponentData::new(16);
    d.set_member_string(0, String::from("first"));
    d.set_member_string(8, String::from("second"));
    assert_eq!(d.get_member_string(0), "first");
    assert_eq!(d.get_member_string(8), "second");
    d.set_member_u8list(0, vec![1]);
    assert_eq!(d.get_member_string(0), "first");
    assert_eq!(d.get_member_u8list(0), vec![1]);
}
