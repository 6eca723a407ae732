//! Record lifecycle: default construction, attach, access, release.

use toxoid_core::access::FieldValue;
use toxoid_core::errors::RuntimeError;
use toxoid_core::field_type::DeclaredType;
use toxoid_core::member::ComponentData;
use toxoid_core::record::RecordInstance;

#[test]
fn default_record_has_no_handle_and_zeroed_header() {
    let r = RecordInstance::default();
    assert!(!r.is_attached());
    assert_eq!(r.entity_added(), 0);
    assert_eq!(r.component_type_id(), 0);
    assert_eq!(r.instance_id(), 0);
    assert!(!r.is_singleton());
}

#[test]
fn header_setters_update_the_header() {
    let mut r = RecordInstance::default();
    r.set_entity_added(11);
    r.set_component_type(22);
    r.set_id(33);
    r.set_singleton(true);
    assert_eq!(r.entity_added(), 11);
    assert_eq!(r.component_type_id(), 22);
    assert_eq!(r.instance_id(), 33);
    assert!(r.is_singleton());
}

#[test]
fn attached_record_reads_and_writes_fields() {
    let mut r = RecordInstance::default();
    r.set_component(ComponentData::new(16));
    assert!(r.is_attached());
    r.write(&DeclaredType::U32, 0, FieldValue::U32(123));
    r.write(&DeclaredType::U32, 4, FieldValue::U32(456));
    r.write(&DeclaredType::U64, 8, FieldValue::U64(789));
    assert_eq!(r.read(&DeclaredType::U32, 0), FieldValue::U32(123));
    assert_eq!(r.read(&DeclaredType::U32, 4), FieldValue::U32(456));
    assert_eq!(r.read(&DeclaredType::U64, 8), FieldValue::U64(789));
}

#[test]
fn unattached_access_reports_null_handle() {
    let mut r = RecordInstance::default();
    assert_eq!(r.try_read(&DeclaredType::U32, 0), Err(RuntimeError::NullHandle));
    assert_eq!(
        r.try_write(&DeclaredType::U32, 0, FieldValue::U32(5)),
        Err(RuntimeError::NullHandle)
    );
}

#[test]
fn checked_access_works_once_attached() {
    let mut r = RecordInstance::default();
    r.set_component(ComponentData::new(8));
    assert_eq!(r.try_write(&DeclaredType::U16, 0, FieldValue::U16(99)), Ok(()));
    assert_eq!(r.try_read(&DeclaredType::U16, 0), Ok(FieldValue::U16(99)));
}

#[test]
fn release_nulls_the_handle_and_a_second_release_is_a_no_op() {
    let mut r = RecordInstance::default();
    r.set_component(ComponentData::new(8));
    assert!(r.is_attached());
    r.release();
    assert!(!r.is_attached());
    r.release();
    assert!(!r.is_attached());
    assert_eq!(r.try_read(&DeclaredType::U8, 0), Err(RuntimeError::NullHandle));
}

#[test]
fn planned_accessors_follow_the_schema_layout() {
    let decls = vec![
        (String::from("a"), String::from("u32")),
        (String::from("b"), String::from("u8")),
        (String::from("c"), String::from("u64")),
    ];
    let schema = toxoid_core::schema::build_schema(
        String::from("Abc"),
        decls,
        toxoid_core::field_type::PointerWidth::W8,
    )
    .unwrap();
    let mut r = RecordInstance::default();
    r.set_component(ComponentData::new(schema.size_bytes));
    r.write_planned(&schema, 0, FieldValue::U32(0x0102_0304));
    r.write_planned(&schema, 1, FieldValue::U8(0xff));
    r.write_planned(&schema, 2, FieldValue::U64(7));
    assert_eq!(r.read_planned(&schema, 0), FieldValue::U32(0x0102_0304));
    assert_eq!(r.read_planned(&schema, 1), FieldValue::U8(0xff));
    assert_eq!(r.read_planned(&schema, 2), FieldValue::U64(7));
    // The u8 at planned offset 4 did not disturb its u32 neighbour.
    assert_eq!(r.read(&DeclaredType::U32, 0), FieldValue::U32(0x0102_0304));
}

#[test]
fn release_keeps_the_identity_header() {
    let mut r = RecordInstance::default();
    r.set_entity_added(5);
    r.set_component(ComponentData::new(4));
    r.release();
    assert_eq!(r.entity_added(), 5);
}
