//! Classifier and layout planner behaviour on concrete schemas.

use toxoid_core::field_type::{
    classify, get_type_alignment, get_type_code, get_type_size, parse_type_name, tag_code,
    type_tag, DeclaredType, ElemType, FieldTypeTag, PointerWidth,
};
use toxoid_core::layout::{align_up, plan_offsets};

#[test]
fn classify_scalars() {
    assert_eq!(classify(&DeclaredType::U8, PointerWidth::W8), (1, 1, FieldTypeTag::U8));
    assert_eq!(classify(&DeclaredType::U16, PointerWidth::W8), (2, 2, FieldTypeTag::U16));
    assert_eq!(classify(&DeclaredType::U32, PointerWidth::W8), (4, 4, FieldTypeTag::U32));
    assert_eq!(classify(&DeclaredType::U64, PointerWidth::W8), (8, 8, FieldTypeTag::U64));
    assert_eq!(classify(&DeclaredType::I8, PointerWidth::W8), (1, 1, FieldTypeTag::I8));
    assert_eq!(classify(&DeclaredType::I16, PointerWidth::W8), (2, 2, FieldTypeTag::I16));
    assert_eq!(classify(&DeclaredType::I32, PointerWidth::W8), (4, 4, FieldTypeTag::I32));
    assert_eq!(classify(&DeclaredType::I64, PointerWidth::W8), (8, 8, FieldTypeTag::I64));
    assert_eq!(classify(&DeclaredType::F32, PointerWidth::W8), (4, 4, FieldTypeTag::F32));
    assert_eq!(classify(&DeclaredType::F64, PointerWidth::W8), (8, 8, FieldTypeTag::F64));
    assert_eq!(classify(&DeclaredType::Bool, PointerWidth::W8), (1, 1, FieldTypeTag::Bool));
}

#[test]
fn classify_handles_are_64_bit_under_both_widths() {
    for width in [PointerWidth::W4, PointerWidth::W8] {
        assert_eq!(classify(&DeclaredType::Ptr, width), (8, 8, FieldTypeTag::Pointer));
        assert_eq!(classify(&DeclaredType::EntityId, width), (8, 8, FieldTypeTag::Pointer));
    }
}

#[test]
fn classify_text_and_sequences_follow_pointer_width() {
    assert_eq!(classify(&DeclaredType::Text, PointerWidth::W4), (4, 4, FieldTypeTag::Text));
    assert_eq!(classify(&DeclaredType::Text, PointerWidth::W8), (8, 8, FieldTypeTag::Text));
    let seq_u8 = DeclaredType::Sequence(ElemType::U8);
    assert_eq!(classify(&seq_u8, PointerWidth::W4), (4, 4, FieldTypeTag::Pointer));
    assert_eq!(classify(&seq_u8, PointerWidth::W8), (8, 8, FieldTypeTag::Pointer));
}

#[test]
fn alignment_equals_size_for_every_type() {
    let types = [
        DeclaredType::U8,
        DeclaredType::U16,
        DeclaredType::U32,
        DeclaredType::U64,
        DeclaredType::I8,
        DeclaredType::I16,
        DeclaredType::I32,
        DeclaredType::I64,
        DeclaredType::F32,
        DeclaredType::F64,
        DeclaredType::Bool,
        DeclaredType::Ptr,
        DeclaredType::EntityId,
        DeclaredType::Text,
        DeclaredType::Sequence(ElemType::U64),
    ];
    for ty in types {
        for width in [PointerWidth::W4, PointerWidth::W8] {
            let size = get_type_size(&ty, width);
            let align = get_type_alignment(&ty, width);
            assert_eq!(size, align);
            assert!(size.is_power_of_two());
        }
    }
}

#[test]
fn tag_codes_are_stable() {
    assert_eq!(tag_code(&FieldTypeTag::U8), 0);
    assert_eq!(tag_code(&FieldTypeTag::U16), 1);
    assert_eq!(tag_code(&FieldTypeTag::U32), 2);
    assert_eq!(tag_code(&FieldTypeTag::U64), 3);
    assert_eq!(tag_code(&FieldTypeTag::I8), 4);
    assert_eq!(tag_code(&FieldTypeTag::I16), 5);
    assert_eq!(tag_code(&FieldTypeTag::I32), 6);
    assert_eq!(tag_code(&FieldTypeTag::I64), 7);
    assert_eq!(tag_code(&FieldTypeTag::F32), 8);
    assert_eq!(tag_code(&FieldTypeTag::F64), 9);
    assert_eq!(tag_code(&FieldTypeTag::Bool), 10);
    assert_eq!(tag_code(&FieldTypeTag::Text), 11);
    assert_eq!(tag_code(&FieldTypeTag::Pointer), 12);
    assert_eq!(get_type_code(&DeclaredType::EntityId), 12);
    assert_eq!(get_type_code(&DeclaredType::Text), 11);
}

#[test]
fn parse_recognizes_every_supported_name() {
    assert_eq!(parse_type_name("u8"), Some(DeclaredType::U8));
    assert_eq!(parse_type_name("u16"), Some(DeclaredType::U16));
    assert_eq!(parse_type_name("u32"), Some(DeclaredType::U32));
    assert_eq!(parse_type_name("u64"), Some(DeclaredType::U64));
    assert_eq!(parse_type_name("i8"), Some(DeclaredType::I8));
    assert_eq!(parse_type_name("i16"), Some(DeclaredType::I16));
    assert_eq!(parse_type_name("i32"), Some(DeclaredType::I32));
    assert_eq!(parse_type_name("i64"), Some(DeclaredType::I64));
    assert_eq!(parse_type_name("f32"), Some(DeclaredType::F32));
    assert_eq!(parse_type_name("f64"), Some(DeclaredType::F64));
    assert_eq!(parse_type_name("bool"), Some(DeclaredType::Bool));
    assert_eq!(parse_type_name("PointerT"), Some(DeclaredType::Ptr));
    assert_eq!(parse_type_name("EcsEntityT"), Some(DeclaredType::EntityId));
    assert_eq!(parse_type_name("String"), Some(DeclaredType::Text));
    assert_eq!(parse_type_name("Vec<u8>"), Some(DeclaredType::Sequence(ElemType::U8)));
    assert_eq!(parse_type_name("Vec<u64>"), Some(DeclaredType::Sequence(ElemType::U64)));
    assert_eq!(parse_type_name("Vec<f64>"), Some(DeclaredType::Sequence(ElemType::F64)));
    assert_eq!(
        parse_type_name("Vec<PointerT>"),
        Some(DeclaredType::Sequence(ElemType::Ptr))
    );
    assert_eq!(
        parse_type_name("Vec<EcsEntityT>"),
        Some(DeclaredType::Sequence(ElemType::EntityId))
    );
}

#[test]
fn parse_rejects_unknown_names() {
    assert_eq!(parse_type_name("usize"), None);
    assert_eq!(parse_type_name("Vec<bool>"), None);
    assert_eq!(parse_type_name("Vec<String>"), None);
    assert_eq!(parse_type_name(""), None);
    assert_eq!(parse_type_name("U32"), None);
}

#[test]
fn align_up_rounds_to_the_next_multiple() {
    assert_eq!(align_up(0, 1), 0);
    assert_eq!(align_up(5, 1), 5);
    assert_eq!(align_up(1, 2), 2);
    assert_eq!(align_up(5, 4), 8);
    assert_eq!(align_up(8, 4), 8);
    assert_eq!(align_up(9, 8), 16);
    assert_eq!(align_up(16, 8), 16);
}

#[test]
fn example_u32_u8_u64_plans_to_0_4_8() {
    let types = vec![DeclaredType::U32, DeclaredType::U8, DeclaredType::U64];
    let offsets = plan_offsets(&types, PointerWidth::W8);
    assert_eq!(offsets, vec![0, 4, 8]);
}

#[test]
fn planning_is_deterministic() {
    let types = vec![
        DeclaredType::U8,
        DeclaredType::Text,
        DeclaredType::U64,
        DeclaredType::Bool,
    ];
    let first = plan_offsets(&types, PointerWidth::W8);
    let second = plan_offsets(&types, PointerWidth::W8);
    assert_eq!(first, second);
}

#[test]
fn planning_depends_on_declaration_order() {
    let forward = vec![DeclaredType::U8, DeclaredType::U8, DeclaredType::U32];
    let shuffled = vec![DeclaredType::U8, DeclaredType::U32, DeclaredType::U8];
    assert_eq!(plan_offsets(&forward, PointerWidth::W8), vec![0, 1, 4]);
    assert_eq!(plan_offsets(&shuffled, PointerWidth::W8), vec![0, 4, 8]);
}

#[test]
fn fixed_scalar_offsets_ignore_pointer_width() {
    let types = vec![
        DeclaredType::U32,
        DeclaredType::U8,
        DeclaredType::U64,
        DeclaredType::Ptr,
    ];
    let narrow = plan_offsets(&types, PointerWidth::W4);
    let wide = plan_offsets(&types, PointerWidth::W8);
    assert_eq!(narrow, wide);
}

#[test]
fn text_fields_push_later_offsets_under_wider_pointers() {
    let types = vec![DeclaredType::U8, DeclaredType::Text, DeclaredType::U64];
    assert_eq!(plan_offsets(&types, PointerWidth::W4), vec![0, 4, 8]);
    assert_eq!(plan_offsets(&types, PointerWidth::W8), vec![0, 8, 16]);
}

#[test]
fn planned_offsets_are_aligned_and_disjoint() {
    let types = vec![
        DeclaredType::Bool,
        DeclaredType::U64,
        DeclaredType::U16,
        DeclaredType::Text,
        DeclaredType::U8,
        DeclaredType::F64,
    ];
    for width in [PointerWidth::W4, PointerWidth::W8] {
        let offsets = plan_offsets(&types, width);
        let mut ranges: Vec<(u32, u32)> = Vec::new();
        for (ty, offset) in types.iter().zip(offsets.iter()) {
            let align = get_type_alignment(ty, width);
            let size = get_type_size(ty, width);
            assert_eq!(offset % align, 0);
            ranges.push((*offset, offset + size));
        }
        for a in 0..ranges.len() {
            for b in 0..ranges.len() {
                if a != b {
                    let (a_start, a_end) = ranges[a];
                    let (b_start, b_end) = ranges[b];
                    assert!(a_end <= b_start || b_end <= a_start);
                }
            }
        }
    }
}

#[test]
fn type_tag_of_sequences_is_pointer() {
    assert_eq!(type_tag(&DeclaredType::Sequence(ElemType::F32)), FieldTypeTag::Pointer);
    assert_eq!(type_tag(&DeclaredType::Sequence(ElemType::EntityId)), FieldTypeTag::Pointer);
}
