//! Layout planner: walks fields in declaration order and assigns each its
//! byte offset by aligning a running cursor.
//!
//! Planning is a pure function of the ordered type list and the pointer
//! width — same inputs always produce byte-identical offsets, which is what
//! lets independently compiled modules agree on a memory block's layout.
//! Declaration order is preserved: fields are never reordered for packing,
//! and no whole-record trailing padding is added.

use vstd::arithmetic::div_mod::{
    lemma_fundamental_div_mod, lemma_mod_division_less_than_divisor, lemma_mod_multiples_basic,
};
use vstd::prelude::*;

use crate::field_type::{
    get_type_alignment, get_type_size, lemma_size_align_shape, spec_type_align, spec_type_size,
    spec_width_independent, DeclaredType, PointerWidth,
};

verus! {

/// The greatest number of fields one record may declare; keeps every
/// cursor value inside `u32`.
pub const MAX_FIELDS: usize = 0x0fff_ffff;

/// Smallest multiple of `a` that is at least `x`.
pub open spec fn spec_align_up(x: int, a: int) -> int
    recommends
        a > 0,
{
    ((x + a - 1) / a) * a
}

/// `spec_align_up` lands on a multiple of `a` inside the window
/// `[x, x + a)`.
pub proof fn lemma_align_up_props(x: int, a: int)
    requires
        a > 0,
        x >= 0,
    ensures
        spec_align_up(x, a) % a == 0,
        x <= spec_align_up(x, a) < x + a,
{
    let n = x + a - 1;
    lemma_fundamental_div_mod(n, a);
    lemma_mod_division_less_than_divisor(n, a);
    lemma_mod_multiples_basic(n / a, a);
    assert((n / a) * a == a * (n / a)) by (nonlinear_arith);
}

/// Align the cursor up to the next multiple of `align`.
pub fn align_up(x: u32, align: u32) -> (r: u32)
    requires
        align >= 1,
        x + align - 1 <= u32::MAX,
    ensures
        r == spec_align_up(x as int, align as int),
        r % align == 0,
        x <= r < x + align,
{
    proof {
        lemma_align_up_props(x as int, align as int);
        lemma_fundamental_div_mod((x + align - 1) as int, align as int);
        lemma_mod_division_less_than_divisor((x + align - 1) as int, align as int);
    }
    let n = x + (align - 1);
    let q = n / align;
    proof {
        assert(q * align == (align as int) * ((n as int) / (align as int))) by (nonlinear_arith)
            requires
                q == (n as int) / (align as int),
                align > 0,
        ;
    }
    q * align
}

/// The running cursor after planning all fields of `types`: each field
/// aligns the cursor up, takes its offset there, then advances the cursor
/// by its size.
pub open spec fn spec_plan_cursor(types: Seq<DeclaredType>, width: PointerWidth) -> int
    decreases types.len(),
{
    if types.len() == 0 {
        0
    } else {
        spec_align_up(
            spec_plan_cursor(types.drop_last(), width),
            spec_type_align(types.last(), width) as int,
        ) + spec_type_size(types.last(), width)
    }
}

/// The planned byte offset of field `i`: the cursor after the fields
/// before it, aligned up to field `i`'s alignment.
pub open spec fn spec_field_offset(types: Seq<DeclaredType>, i: int, width: PointerWidth) -> int
    recommends
        0 <= i < types.len(),
{
    spec_align_up(
        spec_plan_cursor(types.subrange(0, i), width),
        spec_type_align(types[i], width) as int,
    )
}

/// The planned offsets of all fields, in declaration order.
pub open spec fn spec_plan(types: Seq<DeclaredType>, width: PointerWidth) -> Seq<int> {
    Seq::new(types.len(), |i: int| spec_field_offset(types, i, width))
}

/// The cursor never runs ahead of sixteen bytes per field planned, and
/// never backward.
pub proof fn lemma_cursor_bounds(types: Seq<DeclaredType>, width: PointerWidth)
    ensures
        0 <= spec_plan_cursor(types, width) <= 16 * types.len(),
    decreases types.len(),
{
    if types.len() > 0 {
        let prev = spec_plan_cursor(types.drop_last(), width);
        lemma_cursor_bounds(types.drop_last(), width);
        lemma_size_align_shape(types.last(), width);
        lemma_align_up_props(prev, spec_type_align(types.last(), width) as int);
    }
}

/// One planning step: field `k`'s offset lies between the cursor before it
/// and the cursor after it, which it advances by exactly the field's size.
pub proof fn lemma_cursor_step(types: Seq<DeclaredType>, width: PointerWidth, k: int)
    requires
        0 <= k < types.len(),
    ensures
        spec_plan_cursor(types.subrange(0, k), width) <= spec_field_offset(types, k, width),
        spec_field_offset(types, k, width) + spec_type_size(types[k], width) == spec_plan_cursor(
            types.subrange(0, k + 1),
            width,
        ),
        spec_field_offset(types, k, width) < spec_plan_cursor(types.subrange(0, k), width)
            + spec_type_align(types[k], width),
{
    let prefix = types.subrange(0, k + 1);
    assert(prefix.drop_last() =~= types.subrange(0, k));
    assert(prefix.last() == types[k]);
    lemma_cursor_bounds(types.subrange(0, k), width);
    lemma_size_align_shape(types[k], width);
    lemma_align_up_props(
        spec_plan_cursor(types.subrange(0, k), width),
        spec_type_align(types[k], width) as int,
    );
}

/// The cursor grows monotonically with the number of fields planned.
pub proof fn lemma_cursor_monotone(types: Seq<DeclaredType>, width: PointerWidth, k1: int, k2: int)
    requires
        0 <= k1 <= k2 <= types.len(),
    ensures
        spec_plan_cursor(types.subrange(0, k1), width) <= spec_plan_cursor(
            types.subrange(0, k2),
            width,
        ),
    decreases k2 - k1,
{
    if k1 < k2 {
        lemma_cursor_monotone(types, width, k1, k2 - 1);
        lemma_cursor_step(types, width, k2 - 1);
        lemma_size_align_shape(types[k2 - 1], width);
    }
}

/// Alignment invariant: every planned offset is a multiple of its field's
/// alignment.
pub proof fn lemma_offset_aligned(types: Seq<DeclaredType>, width: PointerWidth, i: int)
    requires
        0 <= i < types.len(),
    ensures
        spec_field_offset(types, i, width) % (spec_type_align(types[i], width) as int) == 0,
{
    lemma_cursor_bounds(types.subrange(0, i), width);
    lemma_size_align_shape(types[i], width);
    lemma_align_up_props(
        spec_plan_cursor(types.subrange(0, i), width),
        spec_type_align(types[i], width) as int,
    );
}

/// No-overlap invariant: the byte ranges `[offset, offset + size)` of two
/// distinct planned fields are disjoint; the earlier field ends at or
/// before the later one begins.
pub proof fn lemma_no_overlap(types: Seq<DeclaredType>, width: PointerWidth, i: int, j: int)
    requires
        0 <= i < j < types.len(),
    ensures
        spec_field_offset(types, i, width) + spec_type_size(types[i], width) <= spec_field_offset(
            types,
            j,
            width,
        ),
{
    lemma_cursor_step(types, width, i);
    lemma_cursor_monotone(types, width, i + 1, j);
    lemma_cursor_step(types, width, j);
}

/// Determinism: planning is a pure function of the ordered type list and
/// the pointer width, so equal inputs yield byte-identical offsets.
pub proof fn lemma_plan_deterministic(
    types1: Seq<DeclaredType>,
    types2: Seq<DeclaredType>,
    width1: PointerWidth,
    width2: PointerWidth,
)
    requires
        types1 == types2,
        width1 == width2,
    ensures
        spec_plan(types1, width1) == spec_plan(types2, width2),
{
}

/// Pointer-width sensitivity, fixed-scalar half: a type list in which no
/// field is width-dependent plans to the same offsets under 4-byte and
/// 8-byte pointer widths.
pub proof fn lemma_width_independent_plan(types: Seq<DeclaredType>)
    requires
        forall|k: int| 0 <= k < types.len() ==> spec_width_independent(types[k]),
    ensures
        spec_plan(types, PointerWidth::W4) =~= spec_plan(types, PointerWidth::W8),
{
    assert forall|k: int| 0 <= k <= types.len() implies spec_plan_cursor(
        types.subrange(0, k),
        PointerWidth::W4,
    ) == spec_plan_cursor(types.subrange(0, k), PointerWidth::W8) by {
        lemma_width_independent_cursor(types, k);
    }
}

/// Helper for `lemma_width_independent_plan`: the running cursor agrees
/// under both widths on every prefix of a width-independent type list.
proof fn lemma_width_independent_cursor(types: Seq<DeclaredType>, k: int)
    requires
        0 <= k <= types.len(),
        forall|j: int| 0 <= j < types.len() ==> spec_width_independent(types[j]),
    ensures
        spec_plan_cursor(types.subrange(0, k), PointerWidth::W4) == spec_plan_cursor(
            types.subrange(0, k),
            PointerWidth::W8,
        ),
    decreases k,
{
    if k > 0 {
        lemma_width_independent_cursor(types, k - 1);
        assert(types.subrange(0, k).drop_last() =~= types.subrange(0, k - 1));
        assert(types.subrange(0, k).last() == types[k - 1]);
    }
}

/// Aligning a smaller cursor to a divisor of the alignment never lands
/// past aligning a larger cursor to the alignment itself.
pub proof fn lemma_align_up_monotone(x1: int, a1: int, x2: int, a2: int)
    requires
        0 <= x1 <= x2,
        0 < a1,
        0 < a2,
        a2 % a1 == 0,
    ensures
        spec_align_up(x1, a1) <= spec_align_up(x2, a2),
{
    lemma_align_up_props(x1, a1);
    lemma_align_up_props(x2, a2);
    let lo = spec_align_up(x1, a1);
    let hi = spec_align_up(x2, a2);
    lemma_fundamental_div_mod(a2, a1);
    lemma_fundamental_div_mod(hi, a2);
    assert(hi == a1 * ((a2 / a1) * (hi / a2))) by (nonlinear_arith)
        requires
            a2 == a1 * (a2 / a1),
            hi == a2 * (hi / a2),
    ;
    lemma_mod_multiples_basic((a2 / a1) * (hi / a2), a1);
    assert(hi % a1 == 0) by {
        assert(hi == ((a2 / a1) * (hi / a2)) * a1) by (nonlinear_arith)
            requires
                hi == a1 * ((a2 / a1) * (hi / a2)),
        ;
    }
    lemma_fundamental_div_mod(lo, a1);
    lemma_fundamental_div_mod(hi, a1);
    assert(a1 * (lo / a1) <= a1 * (hi / a1)) by (nonlinear_arith)
        requires
            a1 > 0,
            a1 * (lo / a1) < a1 * (hi / a1) + a1,
    ;
}

/// Under the wider pointer width no type shrinks, and every alignment
/// divides its wider counterpart.
pub proof fn lemma_width_grows_types(ty: DeclaredType)
    ensures
        spec_type_size(ty, PointerWidth::W4) <= spec_type_size(ty, PointerWidth::W8),
        spec_type_align(ty, PointerWidth::W4) <= spec_type_align(ty, PointerWidth::W8),
        spec_type_align(ty, PointerWidth::W8) % spec_type_align(ty, PointerWidth::W4) == 0,
{
    if spec_width_independent(ty) {
        lemma_size_align_shape(ty, PointerWidth::W4);
        let a = spec_type_align(ty, PointerWidth::W4);
        assert(a == 1 || a == 2 || a == 4 || a == 8);
        assert(1u32 % 1 == 0 && 2u32 % 2 == 0 && 4u32 % 4 == 0 && 8u32 % 8 == 0);
    } else {
        assert(8u32 % 4 == 0);
    }
}

/// Pointer-width sensitivity, width-dependent half: planning the same
/// type list under the 8-byte width never places a field before where the
/// 4-byte width places it; width-dependent fields can only push later
/// offsets up.
pub proof fn lemma_plan_width_monotone(types: Seq<DeclaredType>)
    ensures
        forall|i: int|
            0 <= i < types.len() ==> spec_plan(types, PointerWidth::W4)[i] <= spec_plan(
                types,
                PointerWidth::W8,
            )[i],
{
    assert forall|i: int|
        0 <= i < types.len() implies spec_plan(types, PointerWidth::W4)[i] <= spec_plan(
        types,
        PointerWidth::W8,
    )[i] by {
        lemma_cursor_width_monotone(types, i);
        lemma_cursor_bounds(types.subrange(0, i), PointerWidth::W4);
        lemma_width_grows_types(types[i]);
        lemma_size_align_shape(types[i], PointerWidth::W4);
        lemma_align_up_monotone(
            spec_plan_cursor(types.subrange(0, i), PointerWidth::W4),
            spec_type_align(types[i], PointerWidth::W4) as int,
            spec_plan_cursor(types.subrange(0, i), PointerWidth::W8),
            spec_type_align(types[i], PointerWidth::W8) as int,
        );
    }
}

/// Helper for `lemma_plan_width_monotone`: the running cursor under the
/// 4-byte width never runs ahead of the cursor under the 8-byte width.
proof fn lemma_cursor_width_monotone(types: Seq<DeclaredType>, k: int)
    requires
        0 <= k <= types.len(),
    ensures
        spec_plan_cursor(types.subrange(0, k), PointerWidth::W4) <= spec_plan_cursor(
            types.subrange(0, k),
            PointerWidth::W8,
        ),
    decreases k,
{
    if k > 0 {
        lemma_cursor_width_monotone(types, k - 1);
        assert(types.subrange(0, k).drop_last() =~= types.subrange(0, k - 1));
        assert(types.subrange(0, k).last() == types[k - 1]);
        lemma_cursor_bounds(types.subrange(0, k - 1), PointerWidth::W4);
        lemma_width_grows_types(types[k - 1]);
        lemma_size_align_shape(types[k - 1], PointerWidth::W4);
        lemma_align_up_monotone(
            spec_plan_cursor(types.subrange(0, k - 1), PointerWidth::W4),
            spec_type_align(types[k - 1], PointerWidth::W4) as int,
            spec_plan_cursor(types.subrange(0, k - 1), PointerWidth::W8),
            spec_type_align(types[k - 1], PointerWidth::W8) as int,
        );
    }
}

/// Plan the byte offsets of `types` in declaration order under the given
/// pointer width.
pub fn plan_offsets(types: &Vec<DeclaredType>, width: PointerWidth) -> (offsets: Vec<u32>)
    requires
        types@.len() <= MAX_FIELDS,
    ensures
        offsets@.len() == types@.len(),
        forall|i: int|
            0 <= i < types@.len() ==> offsets@[i] as int == spec_field_offset(types@, i, width),
{
    let mut offsets: Vec<u32> = Vec::new();
    let mut cursor: u32 = 0;
    let mut i: usize = 0;
    while i < types.len()
        invariant
            i <= types@.len(),
            types@.len() <= MAX_FIELDS,
            offsets@.len() == i,
            cursor as int == spec_plan_cursor(types@.subrange(0, i as int), width),
            cursor <= 16 * i,
            forall|k: int|
                0 <= k < i ==> offsets@[k] as int == spec_field_offset(types@, k, width),
        decreases types@.len() - i,
    {
        let align = get_type_alignment(&types[i], width);
        let size = get_type_size(&types[i], width);
        proof {
            lemma_size_align_shape(types@[i as int], width);
            lemma_cursor_step(types@, width, i as int);
        }
        let offset = align_up(cursor, align);
        offsets.push(offset);
        cursor = offset + size;
        i = i + 1;
    }
    proof {
        assert(types@.subrange(0, types@.len() as int) =~= types@);
    }
    offsets
}

} // verus!
