//! Numeric encodings of shapes: the codes the shader reads for primitives,
//! combination operations and modifiers, and the indices the editor's pickers use.
use vstd::prelude::*;
use crate::bits::{ZERO, F_0_1, ONE, HALF};
use crate::scene::{F_0_05, F_2};
use crate::bone::{first_index, lemma_first_index};
use crate::shape::{SdfPrimitive, CombinationOp, ShapeModifier};
use crate::text::str_eq;

verus! {

/// Position of the primitive's kind in the fixed list of kinds.
pub open spec fn prim_index(p: SdfPrimitive) -> nat {
    match p {
        SdfPrimitive::Sphere { .. } => 0,
        SdfPrimitive::Box { .. } => 1,
        SdfPrimitive::RoundBox { .. } => 2,
        SdfPrimitive::Cylinder { .. } => 3,
        SdfPrimitive::CappedCone { .. } => 4,
        SdfPrimitive::Torus { .. } => 5,
        SdfPrimitive::Capsule { .. } => 6,
        SdfPrimitive::Plane { .. } => 7,
        SdfPrimitive::Ellipsoid { .. } => 8,
        SdfPrimitive::Octahedron { .. } => 9,
        SdfPrimitive::Pyramid { .. } => 10,
        SdfPrimitive::HexPrism { .. } => 11,
        SdfPrimitive::RoundCone { .. } => 12,
    }
}

/// The four shader parameters of a primitive, in the order of its fields, padded
/// with zeros.
pub open spec fn prim_params_spec(p: SdfPrimitive) -> [u32; 4] {
    match p {
        SdfPrimitive::Sphere { radius } => [radius, ZERO, ZERO, ZERO],
        SdfPrimitive::Box { half_extents: h } => [h[0], h[1], h[2], ZERO],
        SdfPrimitive::RoundBox { half_extents: h, rounding } => [h[0], h[1], h[2], rounding],
        SdfPrimitive::Cylinder { height, radius } => [height, radius, ZERO, ZERO],
        SdfPrimitive::CappedCone { height, r1, r2 } => [height, r1, r2, ZERO],
        SdfPrimitive::Torus { major_radius, minor_radius } => [major_radius, minor_radius, ZERO, ZERO],
        SdfPrimitive::Capsule { radius, half_height } => [radius, half_height, ZERO, ZERO],
        SdfPrimitive::Plane { normal: n, offset } => [n[0], n[1], n[2], offset],
        SdfPrimitive::Ellipsoid { radii: r } => [r[0], r[1], r[2], ZERO],
        SdfPrimitive::Octahedron { size } => [size, ZERO, ZERO, ZERO],
        SdfPrimitive::Pyramid { height, base } => [height, base, ZERO, ZERO],
        SdfPrimitive::HexPrism { height, radius } => [height, radius, ZERO, ZERO],
        SdfPrimitive::RoundCone { r1, r2, height } => [r1, r2, height, ZERO],
    }
}

/// The primitive of the same kind whose fields are taken, in order, from `a, b, c, d`.
pub open spec fn with_params(p: SdfPrimitive, a: u32, b: u32, c: u32, d: u32) -> SdfPrimitive {
    match p {
        SdfPrimitive::Sphere { .. } => SdfPrimitive::Sphere { radius: a },
        SdfPrimitive::Box { .. } => SdfPrimitive::Box { half_extents: [a, b, c] },
        SdfPrimitive::RoundBox { .. } => SdfPrimitive::RoundBox { half_extents: [a, b, c], rounding: d },
        SdfPrimitive::Cylinder { .. } => SdfPrimitive::Cylinder { height: a, radius: b },
        SdfPrimitive::CappedCone { .. } => SdfPrimitive::CappedCone { height: a, r1: b, r2: c },
        SdfPrimitive::Torus { .. } => SdfPrimitive::Torus { major_radius: a, minor_radius: b },
        SdfPrimitive::Capsule { .. } => SdfPrimitive::Capsule { radius: a, half_height: b },
        SdfPrimitive::Plane { .. } => SdfPrimitive::Plane { normal: [a, b, c], offset: d },
        SdfPrimitive::Ellipsoid { .. } => SdfPrimitive::Ellipsoid { radii: [a, b, c] },
        SdfPrimitive::Octahedron { .. } => SdfPrimitive::Octahedron { size: a },
        SdfPrimitive::Pyramid { .. } => SdfPrimitive::Pyramid { height: a, base: b },
        SdfPrimitive::HexPrism { .. } => SdfPrimitive::HexPrism { height: a, radius: b },
        SdfPrimitive::RoundCone { .. } => SdfPrimitive::RoundCone { r1: a, r2: b, height: c },
    }
}

/// Reading a primitive's parameters and writing them back gives the primitive again:
/// the parameters are its fields in their order, and the slots past its fields are zero.
pub proof fn law_params_round_trip(p: SdfPrimitive)
    ensures
        ({
            let q = prim_params_spec(p);
            with_params(p, q[0], q[1], q[2], q[3]) == p
        }),
        ({
            let z = with_params(p, ZERO, ZERO, ZERO, ZERO);
            prim_params_spec(z) == [ZERO, ZERO, ZERO, ZERO]
        }),
{
    match p {
        SdfPrimitive::Box { half_extents: h } => assert([h[0], h[1], h[2]] =~= h),
        SdfPrimitive::RoundBox { half_extents: h, .. } => assert([h[0], h[1], h[2]] =~= h),
        SdfPrimitive::Plane { normal: h, .. } => assert([h[0], h[1], h[2]] =~= h),
        SdfPrimitive::Ellipsoid { radii: h } => assert([h[0], h[1], h[2]] =~= h),
        _ => {},
    }
}

/// Shader code of the primitive's kind.
pub fn prim_type_encode(prim: &SdfPrimitive) -> (r: u32)
    ensures
        r == prim_index(*prim),
{
    match prim {
        SdfPrimitive::Sphere { .. } => 0,
        SdfPrimitive::Box { .. } => 1,
        SdfPrimitive::RoundBox { .. } => 2,
        SdfPrimitive::Cylinder { .. } => 3,
        SdfPrimitive::CappedCone { .. } => 4,
        SdfPrimitive::Torus { .. } => 5,
        SdfPrimitive::Capsule { .. } => 6,
        SdfPrimitive::Plane { .. } => 7,
        SdfPrimitive::Ellipsoid { .. } => 8,
        SdfPrimitive::Octahedron { .. } => 9,
        SdfPrimitive::Pyramid { .. } => 10,
        SdfPrimitive::HexPrism { .. } => 11,
        SdfPrimitive::RoundCone { .. } => 12,
    }
}

/// Index of the primitive's kind in the editor's list of kinds.
pub fn prim_to_index(p: &SdfPrimitive) -> (r: usize)
    ensures
        r == prim_index(*p),
{
    let code = prim_type_encode(p);
    code as usize
}

/// Shader parameters of a primitive.
pub fn prim_params_encode(prim: &SdfPrimitive) -> (r: [u32; 4])
    ensures
        r == prim_params_spec(*prim),
{
    match prim {
        SdfPrimitive::Sphere { radius } => [*radius, ZERO, ZERO, ZERO],
        SdfPrimitive::Box { half_extents: h } => [h[0], h[1], h[2], ZERO],
        SdfPrimitive::RoundBox { half_extents: h, rounding } => [h[0], h[1], h[2], *rounding],
        SdfPrimitive::Cylinder { height, radius } => [*height, *radius, ZERO, ZERO],
        SdfPrimitive::CappedCone { height, r1, r2 } => [*height, *r1, *r2, ZERO],
        SdfPrimitive::Torus { major_radius, minor_radius } => [*major_radius, *minor_radius, ZERO, ZERO],
        SdfPrimitive::Capsule { radius, half_height } => [*radius, *half_height, ZERO, ZERO],
        SdfPrimitive::Plane { normal: n, offset } => [n[0], n[1], n[2], *offset],
        SdfPrimitive::Ellipsoid { radii: r } => [r[0], r[1], r[2], ZERO],
        SdfPrimitive::Octahedron { size } => [*size, ZERO, ZERO, ZERO],
        SdfPrimitive::Pyramid { height, base } => [*height, *base, ZERO, ZERO],
        SdfPrimitive::HexPrism { height, radius } => [*height, *radius, ZERO, ZERO],
        SdfPrimitive::RoundCone { r1, r2, height } => [*r1, *r2, *height, ZERO],
    }
}

/// The primitive's parameters as the editor's four number fields show them.
pub fn prim_params(p: &SdfPrimitive) -> (r: [u32; 4])
    ensures
        r == prim_params_spec(*p),
{
    prim_params_encode(p)
}

/// Overwrite the primitive's fields, in order, with `a, b, c, d`; its kind stays.
pub fn set_prim_params(p: &mut SdfPrimitive, a: u32, b: u32, c: u32, d: u32)
    ensures
        *final(p) == with_params(*old(p), a, b, c, d),
{
    match p {
        SdfPrimitive::Sphere { radius } => *radius = a,
        SdfPrimitive::Box { half_extents: h } => *h = [a, b, c],
        SdfPrimitive::RoundBox { half_extents: h, rounding: r } => {
            *h = [a, b, c];
            *r = d;
        },
        SdfPrimitive::Cylinder { height: h, radius: r } => {
            *h = a;
            *r = b;
        },
        SdfPrimitive::CappedCone { height: h, r1, r2 } => {
            *h = a;
            *r1 = b;
            *r2 = c;
        },
        SdfPrimitive::Torus { major_radius: ma, minor_radius: mi } => {
            *ma = a;
            *mi = b;
        },
        SdfPrimitive::Capsule { radius: r, half_height: h } => {
            *r = a;
            *h = b;
        },
        SdfPrimitive::Plane { normal: n, offset: o } => {
            *n = [a, b, c];
            *o = d;
        },
        SdfPrimitive::Ellipsoid { radii: r } => *r = [a, b, c],
        SdfPrimitive::Octahedron { size } => *size = a,
        SdfPrimitive::Pyramid { height, base } => {
            *height = a;
            *base = b;
        },
        SdfPrimitive::HexPrism { height, radius } => {
            *height = a;
            *radius = b;
        },
        SdfPrimitive::RoundCone { r1, r2, height } => {
            *r1 = a;
            *r2 = b;
            *height = c;
        },
    }
}

/// Position of the operation in the fixed list of operations.
pub open spec fn combo_index(c: CombinationOp) -> nat {
    match c {
        CombinationOp::Union => 0,
        CombinationOp::Intersection => 1,
        CombinationOp::Subtraction => 2,
        CombinationOp::SmoothUnion { .. } => 3,
        CombinationOp::SmoothIntersection { .. } => 4,
        CombinationOp::SmoothSubtraction { .. } => 5,
        CombinationOp::ChamferUnion { .. } => 6,
        CombinationOp::ChamferIntersection { .. } => 7,
    }
}

/// Blend radius of the operation; zero for the sharp ones.
pub open spec fn combo_k(c: CombinationOp) -> u32 {
    match c {
        CombinationOp::SmoothUnion { k } => k,
        CombinationOp::SmoothIntersection { k } => k,
        CombinationOp::SmoothSubtraction { k } => k,
        CombinationOp::ChamferUnion { k } => k,
        CombinationOp::ChamferIntersection { k } => k,
        _ => ZERO,
    }
}

/// The operation at position `i` of the list, with blend radius `k` where it has one;
/// `Union` for a position past the end.
pub open spec fn combo_at(i: nat, k: u32) -> CombinationOp {
    if i == 0 {
        CombinationOp::Union
    } else if i == 1 {
        CombinationOp::Intersection
    } else if i == 2 {
        CombinationOp::Subtraction
    } else if i == 3 {
        CombinationOp::SmoothUnion { k }
    } else if i == 4 {
        CombinationOp::SmoothIntersection { k }
    } else if i == 5 {
        CombinationOp::SmoothSubtraction { k }
    } else if i == 6 {
        CombinationOp::ChamferUnion { k }
    } else if i == 7 {
        CombinationOp::ChamferIntersection { k }
    } else {
        CombinationOp::Union
    }
}

/// Shader code and blend radius of a combination operation.
pub fn combo_op_encode(op: &CombinationOp) -> (r: (u32, u32))
    ensures
        r == (combo_index(*op) as u32, combo_k(*op)),
{
    match op {
        CombinationOp::Union => (0, ZERO),
        CombinationOp::Intersection => (1, ZERO),
        CombinationOp::Subtraction => (2, ZERO),
        CombinationOp::SmoothUnion { k } => (3, *k),
        CombinationOp::SmoothIntersection { k } => (4, *k),
        CombinationOp::SmoothSubtraction { k } => (5, *k),
        CombinationOp::ChamferUnion { k } => (6, *k),
        CombinationOp::ChamferIntersection { k } => (7, *k),
    }
}

/// Index of the operation in the editor's list of operations.
pub fn combo_to_index(c: &CombinationOp) -> (r: usize)
    ensures
        r == combo_index(*c),
{
    let (code, _) = combo_op_encode(c);
    code as usize
}

/// Blend radius of the operation; zero for the sharp ones.
pub fn combo_smooth_k(c: &CombinationOp) -> (r: u32)
    ensures
        r == combo_k(*c),
{
    let (_, k) = combo_op_encode(c);
    k
}

/// The operation at position `i` of the editor's list, with blend radius `k`.
pub fn index_to_combo(i: usize, k: u32) -> (r: CombinationOp)
    ensures
        r == combo_at(i as nat, k),
{
    match i {
        0 => CombinationOp::Union,
        1 => CombinationOp::Intersection,
        2 => CombinationOp::Subtraction,
        3 => CombinationOp::SmoothUnion { k },
        4 => CombinationOp::SmoothIntersection { k },
        5 => CombinationOp::SmoothSubtraction { k },
        6 => CombinationOp::ChamferUnion { k },
        7 => CombinationOp::ChamferIntersection { k },
        _ => CombinationOp::Union,
    }
}

/// Picking an operation from the list gives back its position and, for the blended
/// operations, the radius it was picked with.
pub proof fn law_combo_index_round_trip(i: nat, k: u32)
    requires
        i < 8,
    ensures
        combo_index(combo_at(i, k)) == i,
        i >= 3 ==> combo_k(combo_at(i, k)) == k,
        i < 3 ==> combo_k(combo_at(i, k)) == ZERO,
{
}

/// An operation is rebuilt from its position and its radius.
pub proof fn law_combo_rebuilt(c: CombinationOp)
    ensures
        combo_at(combo_index(c), combo_k(c)) == c,
{
}

/// Kind number of a modifier: its bit in the shader's flag word is `1 << kind`.
pub open spec fn modifier_kind(m: ShapeModifier) -> nat {
    match m {
        ShapeModifier::Rounding(_) => 0,
        ShapeModifier::Onion(_) => 1,
        ShapeModifier::Twist(_) => 2,
        ShapeModifier::Bend(_) => 3,
        ShapeModifier::Elongation(_) => 4,
        ShapeModifier::Repetition { .. } => 5,
    }
}

/// The flag bit of a modifier's kind.
pub open spec fn modifier_bit(m: ShapeModifier) -> u32 {
    match m {
        ShapeModifier::Rounding(_) => 1,
        ShapeModifier::Onion(_) => 2,
        ShapeModifier::Twist(_) => 4,
        ShapeModifier::Bend(_) => 8,
        ShapeModifier::Elongation(_) => 16,
        ShapeModifier::Repetition { .. } => 32,
    }
}

/// Flag word of a modifier list: the union of the bits of its modifiers.
pub open spec fn modifier_flags(s: Seq<ShapeModifier>) -> u32
    decreases s.len(),
{
    if s.len() == 0 {
        0
    } else {
        modifier_flags(s.drop_last()) | modifier_bit(s.last())
    }
}

/// Shader flag word of a modifier list.
pub fn encode_modifier_flags(mods: &[ShapeModifier]) -> (r: u32)
    ensures
        r == modifier_flags(mods@),
{
    let mut flags: u32 = 0;
    let mut i: usize = 0;
    while i < mods.len()
        invariant
            i <= mods@.len(),
            flags == modifier_flags(mods@.take(i as int)),
        decreases mods@.len() - i,
    {
        let bit: u32 = match &mods[i] {
            ShapeModifier::Rounding(_) => 1,
            ShapeModifier::Onion(_) => 2,
            ShapeModifier::Twist(_) => 4,
            ShapeModifier::Bend(_) => 8,
            ShapeModifier::Elongation(_) => 16,
            ShapeModifier::Repetition { .. } => 32,
        };
        assert(mods@.take(i + 1).drop_last() =~= mods@.take(i as int));
        flags = flags | bit;
        i += 1;
    }
    assert(mods@.take(mods@.len() as int) =~= mods@);
    flags
}

/// The bits of the six modifier kinds.
proof fn lemma_kind_bits()
    ensures
        1u32 << 0u32 == 1,
        1u32 << 1u32 == 2,
        1u32 << 2u32 == 4,
        1u32 << 3u32 == 8,
        1u32 << 4u32 == 16,
        1u32 << 5u32 == 32,
{
    assert(1u32 << 0u32 == 1) by (bit_vector);
    assert(1u32 << 1u32 == 2) by (bit_vector);
    assert(1u32 << 2u32 == 4) by (bit_vector);
    assert(1u32 << 3u32 == 8) by (bit_vector);
    assert(1u32 << 4u32 == 16) by (bit_vector);
    assert(1u32 << 5u32 == 32) by (bit_vector);
}

/// The flag word has exactly the bits of the kinds that occur in the list.
pub proof fn law_modifier_flags(s: Seq<ShapeModifier>, kind: nat)
    requires
        kind < 6,
    ensures
        (modifier_flags(s) & (1u32 << kind)) != 0 <==> exists|i: int| 0 <= i < s.len() && modifier_kind(#[trigger] s[i]) == kind,
        modifier_flags(s) < 64,
    decreases s.len(),
{
    if s.len() > 0 {
        let p = s.drop_last();
        law_modifier_flags(p, kind);
        let f = modifier_flags(p);
        let b = modifier_bit(s.last());
        let k = kind as u32;
        assert(modifier_flags(s) == f | b);
        let j = modifier_kind(s.last()) as u32;
        lemma_kind_bits();
        assert(b == 1u32 << j);
        assert(((f | b) & (1u32 << k)) != 0 <==> ((f & (1u32 << k)) != 0 || j == k)) by (bit_vector)
            requires
                b == 1u32 << j,
                j < 6,
                k < 6;
        assert((f | b) < 64) by (bit_vector)
            requires
                f < 64,
                b == 1u32 << j,
                j < 6;
        if exists|i: int| 0 <= i < p.len() && modifier_kind(#[trigger] p[i]) == kind {
            let i = choose|i: int| 0 <= i < p.len() && modifier_kind(#[trigger] p[i]) == kind;
            assert(s[i] == p[i]);
        }
        if exists|i: int| 0 <= i < s.len() && modifier_kind(#[trigger] s[i]) == kind {
            let i = choose|i: int| 0 <= i < s.len() && modifier_kind(#[trigger] s[i]) == kind;
            if i < p.len() {
                assert(p[i] == s[i]);
            }
        }
        assert(s[s.len() - 1] == s.last());
    } else {
        assert((0u32 & (1u32 << kind as u32)) == 0) by (bit_vector);
    }
}

/// The scalar a modifier carries for kind code `kind` (0 rounding, 1 onion,
/// 2 twist, 3 bend), if it is of that kind.
pub open spec fn scalar_for(kind: u32, m: ShapeModifier) -> Option<u32> {
    match m {
        ShapeModifier::Rounding(v) => if kind == 0 { Some(v) } else { None },
        ShapeModifier::Onion(v) => if kind == 1 { Some(v) } else { None },
        ShapeModifier::Twist(v) => if kind == 2 { Some(v) } else { None },
        ShapeModifier::Bend(v) => if kind == 3 { Some(v) } else { None },
        _ => None,
    }
}

/// The vector a modifier carries for kind code `kind` (4 elongation, 5 repetition
/// period), if it is of that kind.
pub open spec fn vector_for(kind: u32, m: ShapeModifier) -> Option<[u32; 3]> {
    match m {
        ShapeModifier::Elongation(v) => if kind == 4 { Some(v) } else { None },
        ShapeModifier::Repetition { period, .. } => if kind == 5 { Some(period) } else { None },
        _ => None,
    }
}

/// The modifier carries a scalar for `kind`.
pub open spec fn has_scalar(kind: u32) -> spec_fn(ShapeModifier) -> bool {
    |m: ShapeModifier| scalar_for(kind, m) is Some
}

/// The modifier carries a vector for `kind`.
pub open spec fn has_vector(kind: u32) -> spec_fn(ShapeModifier) -> bool {
    |m: ShapeModifier| vector_for(kind, m) is Some
}

/// Value of the first modifier of the given scalar kind; zero if there is none.
pub open spec fn modifier_scalar(s: Seq<ShapeModifier>, kind: u32) -> u32 {
    let i = first_index(s, has_scalar(kind));
    if i < s.len() { scalar_for(kind, s[i])->Some_0 } else { ZERO }
}

/// Value of the first modifier of the given vector kind; zeros if there is none.
pub open spec fn modifier_vector(s: Seq<ShapeModifier>, kind: u32) -> [u32; 3] {
    let i = first_index(s, has_vector(kind));
    if i < s.len() { vector_for(kind, s[i])->Some_0 } else { [ZERO, ZERO, ZERO] }
}

/// Value of the first modifier of scalar kind `kind`; zero if there is none.
pub fn get_modifier_f32(mods: &[ShapeModifier], kind: u32) -> (r: u32)
    ensures
        r == modifier_scalar(mods@, kind),
{
    let mut i: usize = 0;
    while i < mods.len()
        invariant
            i <= mods@.len(),
            forall|j: int| 0 <= j < i ==> !has_scalar(kind)(#[trigger] mods@[j]),
        decreases mods@.len() - i,
    {
        let found: Option<u32> = match &mods[i] {
            ShapeModifier::Rounding(v) => if kind == 0 { Some(*v) } else { None },
            ShapeModifier::Onion(v) => if kind == 1 { Some(*v) } else { None },
            ShapeModifier::Twist(v) => if kind == 2 { Some(*v) } else { None },
            ShapeModifier::Bend(v) => if kind == 3 { Some(*v) } else { None },
            _ => None,
        };
        if let Some(v) = found {
            proof { lemma_first_index(mods@, has_scalar(kind), i as int); }
            return v;
        }
        i += 1;
    }
    proof { lemma_first_index(mods@, has_scalar(kind), i as int); }
    ZERO
}

/// Value of the first modifier of vector kind `kind`; zeros if there is none.
pub fn get_modifier_vec3(mods: &[ShapeModifier], kind: u32) -> (r: [u32; 3])
    ensures
        r == modifier_vector(mods@, kind),
{
    let mut i: usize = 0;
    while i < mods.len()
        invariant
            i <= mods@.len(),
            forall|j: int| 0 <= j < i ==> !has_vector(kind)(#[trigger] mods@[j]),
        decreases mods@.len() - i,
    {
        let found: Option<[u32; 3]> = match &mods[i] {
            ShapeModifier::Elongation(v) => if kind == 4 { Some(*v) } else { None },
            ShapeModifier::Repetition { period, .. } => if kind == 5 { Some(*period) } else { None },
            _ => None,
        };
        if let Some(v) = found {
            proof { lemma_first_index(mods@, has_vector(kind), i as int); }
            return v;
        }
        i += 1;
    }
    proof { lemma_first_index(mods@, has_vector(kind), i as int); }
    [ZERO, ZERO, ZERO]
}

/// Kind code of a scalar modifier's editor name (`"rounding"`, `"onion"`, `"twist"`,
/// `"bend"`); a code no modifier has for any other name.
pub open spec fn scalar_kind_named(kind: Seq<char>) -> u32 {
    if kind == "rounding"@ { 0 } else if kind == "onion"@ { 1 } else if kind == "twist"@ { 2 }
    else if kind == "bend"@ { 3 } else { 6 }
}

/// Kind code of a vector modifier's editor name (`"elongation"`, `"repetition"`);
/// a code no modifier has for any other name.
pub open spec fn vector_kind_named(kind: Seq<char>) -> u32 {
    if kind == "elongation"@ { 4 } else if kind == "repetition"@ { 5 } else { 6 }
}

/// Value of the first modifier of the scalar kind named `kind`; zero if there is none.
pub fn get_mod_f32(mods: &[ShapeModifier], kind: &str) -> (r: u32)
    ensures
        r == modifier_scalar(mods@, scalar_kind_named(kind@)),
{
    let code: u32 = if str_eq(kind, "rounding") { 0 } else if str_eq(kind, "onion") { 1 }
        else if str_eq(kind, "twist") { 2 } else if str_eq(kind, "bend") { 3 } else { 6 };
    get_modifier_f32(mods, code)
}

/// Value of the first modifier of the vector kind named `kind`; zeros if there is none.
pub fn get_mod_vec3(mods: &[ShapeModifier], kind: &str) -> (r: [u32; 3])
    ensures
        r == modifier_vector(mods@, vector_kind_named(kind@)),
{
    let code: u32 = if str_eq(kind, "elongation") { 4 } else if str_eq(kind, "repetition") { 5 } else { 6 };
    get_modifier_vec3(mods, code)
}

/// Replace every modifier of the kind of `new` by `new`, placed last.
pub open spec fn with_modifier(s: Seq<ShapeModifier>, new: ShapeModifier) -> Seq<ShapeModifier> {
    s.filter(|m: ShapeModifier| modifier_kind(m) != modifier_kind(new)).push(new)
}

/// Set a modifier on a list: modifiers of the same kind are removed and `new` is
/// appended.
pub fn set_modifier(modifiers: &mut Vec<ShapeModifier>, new: ShapeModifier)
    ensures
        final(modifiers)@ == with_modifier(old(modifiers)@, new),
{
    let ghost keep = |m: ShapeModifier| modifier_kind(m) != modifier_kind(new);
    let mut out: Vec<ShapeModifier> = Vec::new();
    let mut i: usize = 0;
    let kind = modifier_kind_of(&new);
    while i < modifiers.len()
        invariant
            i <= modifiers@.len(),
            modifiers@ == old(modifiers)@,
            kind == modifier_kind(new),
            keep == (|m: ShapeModifier| modifier_kind(m) != modifier_kind(new)),
            out@ == modifiers@.take(i as int).filter(keep),
        decreases modifiers@.len() - i,
    {
        let m = modifiers[i];
        proof {
            reveal_with_fuel(Seq::<_>::filter, 1);
            assert(modifiers@.take(i + 1).drop_last() =~= modifiers@.take(i as int));
        }
        if modifier_kind_of(&m) != kind {
            out.push(m);
        }
        i += 1;
    }
    assert(modifiers@.take(modifiers@.len() as int) =~= modifiers@);
    out.push(new);
    *modifiers = out;
}

/// Kind number of a modifier.
pub fn modifier_kind_of(m: &ShapeModifier) -> (r: u32)
    ensures
        r == modifier_kind(*m),
{
    match m {
        ShapeModifier::Rounding(_) => 0,
        ShapeModifier::Onion(_) => 1,
        ShapeModifier::Twist(_) => 2,
        ShapeModifier::Bend(_) => 3,
        ShapeModifier::Elongation(_) => 4,
        ShapeModifier::Repetition { .. } => 5,
    }
}

/// After setting a modifier, the list holds exactly one modifier of its kind, and it is
/// the new one; the modifiers of other kinds keep their order.
pub proof fn law_set_modifier_single(s: Seq<ShapeModifier>, new: ShapeModifier)
    ensures
        with_modifier(s, new).last() == new,
        forall|i: int| 0 <= i < with_modifier(s, new).len() - 1
            ==> modifier_kind(#[trigger] with_modifier(s, new)[i]) != modifier_kind(new),
        scalar_for(modifier_kind(new) as u32, new) matches Some(v)
            ==> modifier_scalar(with_modifier(s, new), modifier_kind(new) as u32) == v,
{
    let keep = |m: ShapeModifier| modifier_kind(m) != modifier_kind(new);
    let f = s.filter(keep);
    let w = with_modifier(s, new);
    assert forall|i: int| 0 <= i < w.len() - 1 implies modifier_kind(#[trigger] w[i]) != modifier_kind(new) by {
        assert(w[i] == f[i]);
        s.lemma_filter_pred(keep, i);
    }
    let kind = modifier_kind(new) as u32;
    if scalar_for(kind, new) is Some {
        assert forall|j: int| 0 <= j < w.len() - 1 implies !has_scalar(kind)(#[trigger] w[j]) by {
            assert(modifier_kind(w[j]) != modifier_kind(new));
        }
        lemma_first_index(w, has_scalar(kind), w.len() - 1);
    }
}

/// Editor name of a modifier's kind.
pub open spec fn modifier_name_spec(m: ShapeModifier) -> Seq<char> {
    match m {
        ShapeModifier::Rounding(_) => "Rounding"@,
        ShapeModifier::Onion(_) => "Shell"@,
        ShapeModifier::Twist(_) => "Twist"@,
        ShapeModifier::Bend(_) => "Bend"@,
        ShapeModifier::Elongation(_) => "Elongation"@,
        ShapeModifier::Repetition { .. } => "Repetition"@,
    }
}

/// Editor name of a modifier's kind.
pub fn modifier_name(m: &ShapeModifier) -> (r: &'static str)
    ensures
        r@ == modifier_name_spec(*m),
{
    match m {
        ShapeModifier::Rounding(_) => "Rounding",
        ShapeModifier::Onion(_) => "Shell",
        ShapeModifier::Twist(_) => "Twist",
        ShapeModifier::Bend(_) => "Bend",
        ShapeModifier::Elongation(_) => "Elongation",
        ShapeModifier::Repetition { .. } => "Repetition",
    }
}

/// The modifier the editor adds for a kind name; a small rounding for an unknown name.
pub open spec fn default_modifier_spec(name: Seq<char>) -> ShapeModifier {
    if name == "Rounding"@ {
        ShapeModifier::Rounding(F_0_1)
    } else if name == "Shell"@ {
        ShapeModifier::Onion(F_0_05)
    } else if name == "Twist"@ {
        ShapeModifier::Twist(ONE)
    } else if name == "Bend"@ {
        ShapeModifier::Bend(ONE)
    } else if name == "Elongation"@ {
        ShapeModifier::Elongation([HALF, ZERO, ZERO])
    } else if name == "Repetition"@ {
        ShapeModifier::Repetition { period: [F_2, F_2, F_2], count: [3, 3, 3] }
    } else {
        ShapeModifier::Rounding(F_0_1)
    }
}

/// The modifier the editor adds for a kind name.
pub fn default_modifier(name: &str) -> (r: ShapeModifier)
    ensures
        r == default_modifier_spec(name@),
{
    if str_eq(name, "Rounding") {
        ShapeModifier::Rounding(F_0_1)
    } else if str_eq(name, "Shell") {
        ShapeModifier::Onion(F_0_05)
    } else if str_eq(name, "Twist") {
        ShapeModifier::Twist(ONE)
    } else if str_eq(name, "Bend") {
        ShapeModifier::Bend(ONE)
    } else if str_eq(name, "Elongation") {
        ShapeModifier::Elongation([HALF, ZERO, ZERO])
    } else if str_eq(name, "Repetition") {
        ShapeModifier::Repetition { period: [F_2, F_2, F_2], count: [3, 3, 3] }
    } else {
        ShapeModifier::Rounding(F_0_1)
    }
}

/// The editor's default modifier for a kind's name is of that kind.
pub proof fn law_default_modifier_named(m: ShapeModifier)
    ensures
        modifier_name_spec(default_modifier_spec(modifier_name_spec(m))) == modifier_name_spec(m),
{
    reveal_strlit("Rounding");
    reveal_strlit("Shell");
    reveal_strlit("Twist");
    reveal_strlit("Bend");
    reveal_strlit("Elongation");
    reveal_strlit("Repetition");
}

} // verus!
