//! Schema building, registration, lookup, hashing, and the built-in
//! component kinds.

use toxoid_core::components::{direction_code, init, DirectionEnum};
use toxoid_core::errors::{RuntimeError, SchemaError};
use toxoid_core::field_type::{FieldTypeTag, PointerWidth};
use toxoid_core::query::{make_variable_name, plan_query};
use toxoid_core::registry::ComponentRegistry;
use toxoid_core::schema::build_schema;
use toxoid_core::utils::fnv1a_hash;

#[test]
fn fnv1a_known_values() {
    assert_eq!(fnv1a_hash(b""), 14695981039346656037);
    assert_eq!(fnv1a_hash(b"a"), 12638187200555641996);
    assert_eq!(fnv1a_hash(b"abc"), 16654208175385433931);
    assert_eq!(fnv1a_hash(b"Position"), 13934449531345340970);
}

#[test]
fn position_schema_registers_and_resolves() {
    let decls = vec![
        (String::from("x"), String::from("u32")),
        (String::from("y"), String::from("u32")),
    ];
    let schema = build_schema(String::from("Position"), decls, PointerWidth::W8).unwrap();
    assert_eq!(schema.get_name(), "Position");
    assert_eq!(schema.type_tags(), vec![FieldTypeTag::U32, FieldTypeTag::U32]);
    assert_eq!(schema.type_tag_codes(), vec![2, 2]);
    assert_eq!(
        schema.field_names(),
        vec![String::from("x"), String::from("y")]
    );

    let mut registry = ComponentRegistry::new();
    let id = schema.register(&mut registry);
    assert_eq!(id, fnv1a_hash(b"Position"));
    assert_eq!(registry.get_component_id("Position"), Ok(id));
    assert_eq!(schema.get_id(&registry), Ok(id));
}

#[test]
fn lookup_of_unregistered_name_fails() {
    let registry = ComponentRegistry::new();
    assert_eq!(
        registry.get_component_id("Position"),
        Err(RuntimeError::NotFound)
    );
}

#[test]
fn registration_is_not_idempotent_but_ids_agree() {
    let mut registry = ComponentRegistry::new();
    let first = registry.register_component(String::from("Health"), vec![], vec![]);
    let second = registry.register_component(String::from("Health"), vec![], vec![]);
    assert_eq!(registry.len(), 2);
    assert_eq!(first, second);
    assert_eq!(registry.get_component_id("Health"), Ok(first));
}

#[test]
fn unsupported_type_names_the_offending_field() {
    let decls = vec![
        (String::from("x"), String::from("u32")),
        (String::from("pos"), String::from("Position")),
    ];
    let err = build_schema(String::from("Bad"), decls, PointerWidth::W8).unwrap_err();
    assert_eq!(err, SchemaError::UnsupportedType(String::from("pos")));
}

#[test]
fn schema_example_offsets_match_the_planned_layout() {
    let decls = vec![
        (String::from("a"), String::from("u32")),
        (String::from("b"), String::from("u8")),
        (String::from("c"), String::from("u64")),
    ];
    let schema = build_schema(String::from("Abc"), decls, PointerWidth::W8).unwrap();
    let offsets: Vec<u32> = schema.fields.iter().map(|f| f.offset_bytes).collect();
    assert_eq!(offsets, vec![0, 4, 8]);
    assert_eq!(schema.size_bytes, 16);
}

#[test]
fn init_registers_the_nine_builtin_kinds() {
    let mut registry = ComponentRegistry::new();
    init(&mut registry, PointerWidth::W8);
    assert_eq!(registry.len(), 9);
    for name in [
        "Position",
        "Velocity",
        "KeyboardInput",
        "Rect",
        "Color",
        "Renderable",
        "Direction",
        "Player",
        "Food",
    ] {
        let id = registry.get_component_id(name).unwrap();
        assert_eq!(id, fnv1a_hash(name.as_bytes()));
    }
    assert_eq!(
        registry.get_component_id("Despawn"),
        Err(RuntimeError::NotFound)
    );
}

#[test]
fn direction_codes_are_stable() {
    assert_eq!(direction_code(&DirectionEnum::Up), 0);
    assert_eq!(direction_code(&DirectionEnum::Down), 1);
    assert_eq!(direction_code(&DirectionEnum::Left), 2);
    assert_eq!(direction_code(&DirectionEnum::Right), 3);
}

#[test]
fn query_planning_selects_declared_terms_with_positions() {
    let terms = vec![
        Some(String::from("Position")),
        None,
        Some(String::from("Velocity")),
    ];
    let bindings = plan_query(&terms).unwrap();
    assert_eq!(bindings.len(), 2);
    assert_eq!(bindings[0].term_index, 0);
    assert_eq!(bindings[0].component_name, "Position");
    assert_eq!(bindings[1].term_index, 2);
    assert_eq!(bindings[1].component_name, "Velocity");
}

#[test]
fn query_planning_rejects_excess_arity() {
    let terms: Vec<Option<String>> = (0..33).map(|i| Some(format!("C{}", i))).collect();
    let err = plan_query(&terms).unwrap_err();
    assert_eq!(err, SchemaError::UnsupportedArity(33));
}

#[test]
fn query_planning_rejects_zero_selected_components() {
    assert_eq!(
        plan_query(&Vec::new()).unwrap_err(),
        SchemaError::UnsupportedArity(0)
    );
    let placeholders: Vec<Option<String>> = vec![None, None, None];
    assert_eq!(
        plan_query(&placeholders).unwrap_err(),
        SchemaError::UnsupportedArity(0)
    );
}

#[test]
fn query_planning_counts_selected_terms_not_placeholders() {
    // 33 declared terms, one a placeholder: 32 selected components, which
    // the combinator's arity admits.
    let mut terms: Vec<Option<String>> = (0..32).map(|i| Some(format!("C{}", i))).collect();
    terms.insert(5, None);
    let bindings = plan_query(&terms).unwrap();
    assert_eq!(bindings.len(), 32);
    assert_eq!(bindings[4].term_index, 4);
    assert_eq!(bindings[5].term_index, 6);
    assert_eq!(bindings[31].term_index, 32);
}

#[test]
fn query_planning_accepts_the_maximum_arity() {
    let terms: Vec<Option<String>> = (0..32).map(|i| Some(format!("C{}", i))).collect();
    let bindings = plan_query(&terms).unwrap();
    assert_eq!(bindings.len(), 32);
    assert_eq!(bindings[31].term_index, 31);
}

#[test]
fn variable_names_are_snake_cased_last_segments() {
    assert_eq!(make_variable_name("Position"), "position");
    assert_eq!(make_variable_name("KeyboardInput"), "keyboard_input");
    assert_eq!(make_variable_name("BoneAnimationImage"), "bone_animation_image");
    assert_eq!(make_variable_name("toxoid_api::KeyboardInput"), "keyboard_input");
    assert_eq!(make_variable_name("a::b::Rect"), "rect");
    assert_eq!(make_variable_name("already_snake"), "already_snake");
    assert_eq!(make_variable_name("ABC"), "a_b_c");
    assert_eq!(make_variable_name(""), "");
}
