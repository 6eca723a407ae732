//! The built-in component kinds and their one-time registration.

use vstd::prelude::*;
use vstd::string::StringExecFns;

use crate::field_type::{DeclaredType, PointerWidth};
use crate::registry::{spec_registry_wf, spec_type_id, ComponentRegistry, RegistryEntryView};
use crate::schema::{build_schema_typed, spec_names_distinct};

verus! {

/// A movement direction, stored in the `Direction` component as a byte
/// code.
#[derive(Clone, Copy, PartialEq, Eq, Structural, Debug)]
pub enum DirectionEnum {
    Up,
    Down,
    Left,
    Right,
}

/// The byte code of a direction.
pub open spec fn spec_direction_code(d: DirectionEnum) -> u8 {
    match d {
        DirectionEnum::Up => 0,
        DirectionEnum::Down => 1,
        DirectionEnum::Left => 2,
        DirectionEnum::Right => 3,
    }
}

/// The byte code of a direction, as stored in a `Direction` component's
/// field.
pub fn direction_code(d: &DirectionEnum) -> (code: u8)
    ensures
        code == spec_direction_code(*d),
{
    match d {
        DirectionEnum::Up => 0,
        DirectionEnum::Down => 1,
        DirectionEnum::Left => 2,
        DirectionEnum::Right => 3,
    }
}

/// The registrations `init` performs, in order: each built-in component
/// kind's name, field names, tag codes, and identifier.
pub open spec fn spec_builtin_entries() -> Seq<RegistryEntryView> {
    seq![
        RegistryEntryView {
            name: "Position"@,
            field_names: seq!["x"@, "y"@],
            type_tags: seq![2u8, 2u8],
            type_id: spec_type_id("Position"@),
        },
        RegistryEntryView {
            name: "Velocity"@,
            field_names: seq!["dx"@, "dy"@],
            type_tags: seq![8u8, 8u8],
            type_id: spec_type_id("Velocity"@),
        },
        RegistryEntryView {
            name: "KeyboardInput"@,
            field_names: seq!["up"@, "down"@, "left"@, "right"@],
            type_tags: seq![10u8, 10u8, 10u8, 10u8],
            type_id: spec_type_id("KeyboardInput"@),
        },
        RegistryEntryView {
            name: "Rect"@,
            field_names: seq!["width"@, "height"@],
            type_tags: seq![2u8, 2u8],
            type_id: spec_type_id("Rect"@),
        },
        RegistryEntryView {
            name: "Color"@,
            field_names: seq!["r"@, "g"@, "b"@],
            type_tags: seq![0u8, 0u8, 0u8],
            type_id: spec_type_id("Color"@),
        },
        RegistryEntryView {
            name: "Renderable"@,
            field_names: seq!["x"@, "y"@],
            type_tags: seq![2u8, 2u8],
            type_id: spec_type_id("Renderable"@),
        },
        RegistryEntryView {
            name: "Direction"@,
            field_names: seq!["direction"@],
            type_tags: seq![0u8],
            type_id: spec_type_id("Direction"@),
        },
        RegistryEntryView {
            name: "Player"@,
            field_names: seq!["head"@],
            type_tags: seq![10u8],
            type_id: spec_type_id("Player"@),
        },
        RegistryEntryView {
            name: "Food"@,
            field_names: seq!["food"@],
            type_tags: seq![10u8],
            type_id: spec_type_id("Food"@),
        },
    ]
}

/// One declared field, built from a field name and a typed descriptor.
fn decl(name: &str, ty: DeclaredType) -> (d: (String, DeclaredType))
    ensures
        d.0@ == name@,
        d.1 == ty,
{
    (String::from_str(name), ty)
}

/// Declare one built-in kind and register it.
fn register_builtin(
    registry: &mut ComponentRegistry,
    name: &str,
    decls: Vec<(String, DeclaredType)>,
    width: PointerWidth,
) -> (type_id: u64)
    requires
        spec_registry_wf(old(registry)@),
        decls@.len() <= crate::layout::MAX_FIELDS,
        spec_names_distinct(decls@),
    ensures
        spec_registry_wf(final(registry)@),
        type_id == spec_type_id(name@),
        final(registry)@ =~~= old(registry)@.push(
            RegistryEntryView {
                name: name@,
                field_names: Seq::new(decls@.len(), |i: int| decls@[i].0@),
                type_tags: Seq::new(
                    decls@.len(),
                    |i: int|
                        crate::field_type::spec_tag_code(
                            crate::field_type::spec_type_tag(decls@[i].1),
                        ),
                ),
                type_id: spec_type_id(name@),
            },
        ),
{
    let ghost declsv = decls@;
    let schema = build_schema_typed(String::from_str(name), decls, width);
    let type_id = schema.register(registry);
    proof {
        assert(Seq::new(schema.fields@.len(), |i: int| schema.fields@[i].name@) =~= Seq::new(
            declsv.len(),
            |i: int| declsv[i].0@,
        ));
        assert(Seq::new(
            schema.fields@.len(),
            |i: int|
                crate::field_type::spec_tag_code(
                    crate::field_type::spec_type_tag(schema.fields@[i].declared_type),
                ),
        ) =~= Seq::new(
            declsv.len(),
            |i: int|
                crate::field_type::spec_tag_code(crate::field_type::spec_type_tag(declsv[i].1)),
        ));
    }
    type_id
}

/// Register every built-in component kind, in a fixed order, under the
/// pointer width in effect.
#[verifier::rlimit(100)]
pub fn init(registry: &mut ComponentRegistry, width: PointerWidth)
    requires
        spec_registry_wf(old(registry)@),
    ensures
        spec_registry_wf(final(registry)@),
        final(registry)@ == old(registry)@ + spec_builtin_entries(),
{
    let ghost base = old(registry)@;

    let mut position: Vec<(String, DeclaredType)> = Vec::new();
    position.push(decl("x", DeclaredType::U32));
    position.push(decl("y", DeclaredType::U32));
    proof {
        reveal_strlit("x");
        reveal_strlit("y");
        assert("x"@[0] == 'x' && "y"@[0] == 'y');
        assert("x"@ != "y"@);
        assert(spec_names_distinct(position@));
    }
    register_builtin(registry, "Position", position, width);

    let mut velocity: Vec<(String, DeclaredType)> = Vec::new();
    velocity.push(decl("dx", DeclaredType::F32));
    velocity.push(decl("dy", DeclaredType::F32));
    proof {
        reveal_strlit("dx");
        reveal_strlit("dy");
        assert("dx"@[1] == 'x' && "dy"@[1] == 'y');
        assert("dx"@ != "dy"@);
        assert(spec_names_distinct(velocity@));
    }
    register_builtin(registry, "Velocity", velocity, width);

    let mut keyboard: Vec<(String, DeclaredType)> = Vec::new();
    keyboard.push(decl("up", DeclaredType::Bool));
    keyboard.push(decl("down", DeclaredType::Bool));
    keyboard.push(decl("left", DeclaredType::Bool));
    keyboard.push(decl("right", DeclaredType::Bool));
    proof {
        reveal_strlit("up");
        reveal_strlit("down");
        reveal_strlit("left");
        reveal_strlit("right");
        assert("up"@.len() == 2 && "down"@.len() == 4 && "left"@.len() == 4 && "right"@.len()
            == 5);
        assert("down"@[0] == 'd' && "left"@[0] == 'l');
        assert("up"@ != "down"@ && "up"@ != "left"@ && "up"@ != "right"@);
        assert("down"@ != "left"@ && "down"@ != "right"@ && "left"@ != "right"@);
        assert(spec_names_distinct(keyboard@));
    }
    register_builtin(registry, "KeyboardInput", keyboard, width);

    let mut rect: Vec<(String, DeclaredType)> = Vec::new();
    rect.push(decl("width", DeclaredType::U32));
    rect.push(decl("height", DeclaredType::U32));
    proof {
        reveal_strlit("width");
        reveal_strlit("height");
        assert("width"@.len() == 5 && "height"@.len() == 6);
        assert("width"@ != "height"@);
        assert(spec_names_distinct(rect@));
    }
    register_builtin(registry, "Rect", rect, width);

    let mut color: Vec<(String, DeclaredType)> = Vec::new();
    color.push(decl("r", DeclaredType::U8));
    color.push(decl("g", DeclaredType::U8));
    color.push(decl("b", DeclaredType::U8));
    proof {
        reveal_strlit("r");
        reveal_strlit("g");
        reveal_strlit("b");
        assert("r"@[0] == 'r' && "g"@[0] == 'g' && "b"@[0] == 'b');
        assert("r"@ != "g"@ && "r"@ != "b"@ && "g"@ != "b"@);
        assert(spec_names_distinct(color@));
    }
    register_builtin(registry, "Color", color, width);

    let mut renderable: Vec<(String, DeclaredType)> = Vec::new();
    renderable.push(decl("x", DeclaredType::U32));
    renderable.push(decl("y", DeclaredType::U32));
    proof {
        reveal_strlit("x");
        reveal_strlit("y");
        assert("x"@[0] == 'x' && "y"@[0] == 'y');
        assert("x"@ != "y"@);
        assert(spec_names_distinct(renderable@));
    }
    register_builtin(registry, "Renderable", renderable, width);

    let mut direction: Vec<(String, DeclaredType)> = Vec::new();
    direction.push(decl("direction", DeclaredType::U8));
    register_builtin(registry, "Direction", direction, width);

    let mut player: Vec<(String, DeclaredType)> = Vec::new();
    player.push(decl("head", DeclaredType::Bool));
    register_builtin(registry, "Player", player, width);

    let mut food: Vec<(String, DeclaredType)> = Vec::new();
    food.push(decl("food", DeclaredType::Bool));
    register_builtin(registry, "Food", food, width);

    proof {
        assert(registry@ =~~= base + spec_builtin_entries());
    }
}

} // verus!
