//! Exact comparison of scenes: two scenes are the same when every identifier, name,
//! flag and number (bit for bit) agrees.  The editor records an undo snapshot only
//! when an action left the scene different from what it was.
use vstd::prelude::*;
use crate::bone::{SdfBone, BonePhysicsProps, RotationLimits, lemma_bones_view, shapes_view};
use crate::scene::{SdfScene, SceneSettings};
use crate::shape::{CombinationOp, SdfPrimitive, SdfShape, ShapeMaterial, ShapeModifier, ShapeTransform};
use crate::text::str_eq;

verus! {

/// `a == b` on two triples.
fn arr3_eq(a: [u32; 3], b: [u32; 3]) -> (r: bool)
    ensures
        r == (a == b),
{
    let r = a[0] == b[0] && a[1] == b[1] && a[2] == b[2];
    if r {
        assert(a =~= b);
    }
    r
}

/// `a == b` on two optional pairs.
fn limit_eq(a: Option<[u32; 2]>, b: Option<[u32; 2]>) -> (r: bool)
    ensures
        r == (a == b),
{
    match (a, b) {
        (None, None) => true,
        (Some(x), Some(y)) => {
            let r = x[0] == y[0] && x[1] == y[1];
            if r {
                assert(x =~= y);
            }
            r
        },
        _ => false,
    }
}

/// `a == b` on two transforms.
fn transform_eq(a: &ShapeTransform, b: &ShapeTransform) -> (r: bool)
    ensures
        r == (*a == *b),
{
    arr3_eq(a.translation, b.translation) && arr3_eq(a.rotation, b.rotation) && a.scale == b.scale
}

/// `a == b` on two sets of physical properties.
fn physics_eq(a: &BonePhysicsProps, b: &BonePhysicsProps) -> (r: bool)
    ensures
        r == (*a == *b),
{
    let la: RotationLimits = a.rotation_limits;
    let lb: RotationLimits = b.rotation_limits;
    a.mass == b.mass && a.damping == b.damping && a.ik_chain_length == b.ik_chain_length
        && limit_eq(la.pitch, lb.pitch) && limit_eq(la.yaw, lb.yaw) && limit_eq(la.roll, lb.roll)
}

/// `a == b` on two primitives.
fn prim_eq(a: &SdfPrimitive, b: &SdfPrimitive) -> (r: bool)
    ensures
        r == (*a == *b),
{
    match (a, b) {
        (SdfPrimitive::Sphere { radius: x }, SdfPrimitive::Sphere { radius: y }) => *x == *y,
        (SdfPrimitive::Box { half_extents: x }, SdfPrimitive::Box { half_extents: y }) => arr3_eq(*x, *y),
        (SdfPrimitive::RoundBox { half_extents: x, rounding: r1 }, SdfPrimitive::RoundBox { half_extents: y, rounding: r2 }) =>
            arr3_eq(*x, *y) && *r1 == *r2,
        (SdfPrimitive::Cylinder { height: h1, radius: r1 }, SdfPrimitive::Cylinder { height: h2, radius: r2 }) =>
            *h1 == *h2 && *r1 == *r2,
        (SdfPrimitive::CappedCone { height: h1, r1: a1, r2: b1 }, SdfPrimitive::CappedCone { height: h2, r1: a2, r2: b2 }) =>
            *h1 == *h2 && *a1 == *a2 && *b1 == *b2,
        (SdfPrimitive::Torus { major_radius: a1, minor_radius: b1 }, SdfPrimitive::Torus { major_radius: a2, minor_radius: b2 }) =>
            *a1 == *a2 && *b1 == *b2,
        (SdfPrimitive::Capsule { radius: a1, half_height: b1 }, SdfPrimitive::Capsule { radius: a2, half_height: b2 }) =>
            *a1 == *a2 && *b1 == *b2,
        (SdfPrimitive::Plane { normal: x, offset: o1 }, SdfPrimitive::Plane { normal: y, offset: o2 }) =>
            arr3_eq(*x, *y) && *o1 == *o2,
        (SdfPrimitive::Ellipsoid { radii: x }, SdfPrimitive::Ellipsoid { radii: y }) => arr3_eq(*x, *y),
        (SdfPrimitive::Octahedron { size: x }, SdfPrimitive::Octahedron { size: y }) => *x == *y,
        (SdfPrimitive::Pyramid { height: h1, base: b1 }, SdfPrimitive::Pyramid { height: h2, base: b2 }) =>
            *h1 == *h2 && *b1 == *b2,
        (SdfPrimitive::HexPrism { height: h1, radius: r1 }, SdfPrimitive::HexPrism { height: h2, radius: r2 }) =>
            *h1 == *h2 && *r1 == *r2,
        (SdfPrimitive::RoundCone { r1: a1, r2: b1, height: h1 }, SdfPrimitive::RoundCone { r1: a2, r2: b2, height: h2 }) =>
            *a1 == *a2 && *b1 == *b2 && *h1 == *h2,
        _ => false,
    }
}

/// `a == b` on two materials.
fn material_eq(a: &ShapeMaterial, b: &ShapeMaterial) -> (r: bool)
    ensures
        r == (*a == *b),
{
    arr3_eq(a.color, b.color) && a.roughness == b.roughness && a.metallic == b.metallic
        && a.fresnel_power == b.fresnel_power && a.color_mode == b.color_mode
        && arr3_eq(a.palette_a, b.palette_a) && arr3_eq(a.palette_b, b.palette_b)
        && arr3_eq(a.palette_c, b.palette_c) && arr3_eq(a.palette_d, b.palette_d)
        && a.noise_amplitude == b.noise_amplitude && a.noise_frequency == b.noise_frequency
        && a.noise_octaves == b.noise_octaves && a.smooth_symmetry == b.smooth_symmetry
}

/// `a == b` on two modifiers.
fn modifier_same(a: &ShapeModifier, b: &ShapeModifier) -> (r: bool)
    ensures
        r == (*a == *b),
{
    match (a, b) {
        (ShapeModifier::Rounding(x), ShapeModifier::Rounding(y)) => *x == *y,
        (ShapeModifier::Onion(x), ShapeModifier::Onion(y)) => *x == *y,
        (ShapeModifier::Twist(x), ShapeModifier::Twist(y)) => *x == *y,
        (ShapeModifier::Bend(x), ShapeModifier::Bend(y)) => *x == *y,
        (ShapeModifier::Elongation(x), ShapeModifier::Elongation(y)) => arr3_eq(*x, *y),
        (
            ShapeModifier::Repetition { period: p, count: c },
            ShapeModifier::Repetition { period: q, count: d },
        ) => arr3_eq(*p, *q) && arr3_eq(*c, *d),
        _ => false,
    }
}

/// `a == b` on two combination operations.
fn combo_same(a: &CombinationOp, b: &CombinationOp) -> (r: bool)
    ensures
        r == (*a == *b),
{
    match (a, b) {
        (CombinationOp::Union, CombinationOp::Union) => true,
        (CombinationOp::Intersection, CombinationOp::Intersection) => true,
        (CombinationOp::Subtraction, CombinationOp::Subtraction) => true,
        (CombinationOp::SmoothUnion { k: x }, CombinationOp::SmoothUnion { k: y }) => *x == *y,
        (CombinationOp::SmoothIntersection { k: x }, CombinationOp::SmoothIntersection { k: y }) => *x == *y,
        (CombinationOp::SmoothSubtraction { k: x }, CombinationOp::SmoothSubtraction { k: y }) => *x == *y,
        (CombinationOp::ChamferUnion { k: x }, CombinationOp::ChamferUnion { k: y }) => *x == *y,
        (CombinationOp::ChamferIntersection { k: x }, CombinationOp::ChamferIntersection { k: y }) => *x == *y,
        _ => false,
    }
}

/// `a@ == b@` on two shapes.
pub fn shape_same(a: &SdfShape, b: &SdfShape) -> (r: bool)
    ensures
        r == (a@ == b@),
{
    if !(a.id.0 == b.id.0 && str_eq(a.name.as_str(), b.name.as_str()) && prim_eq(&a.primitive, &b.primitive)
        && a.visible == b.visible && transform_eq(&a.transform, &b.transform)
        && material_eq(&a.material, &b.material) && combo_same(&a.combination, &b.combination)
        && a.modifiers.len() == b.modifiers.len()) {
        return false;
    }
    let mut i: usize = 0;
    while i < a.modifiers.len()
        invariant
            i <= a.modifiers@.len(),
            a.modifiers@.len() == b.modifiers@.len(),
            forall|j: int| 0 <= j < i ==> a.modifiers@[j] == b.modifiers@[j],
        decreases a.modifiers@.len() - i,
    {
        if !modifier_same(&a.modifiers[i], &b.modifiers[i]) {
            return false;
        }
        i += 1;
    }
    assert(a.modifiers@ =~= b.modifiers@);
    true
}

/// `a@ == b@` on two bone subtrees.
pub fn bone_same(a: &SdfBone, b: &SdfBone) -> (r: bool)
    ensures
        r == (a@ == b@),
    decreases a,
{
    proof {
        lemma_bones_view(a.children@);
        lemma_bones_view(b.children@);
        crate::bone::lemma_bone_view_fields();
    }
    assert(a@.id == a.id && a@.name == a.name@ && a@.transform == a.transform && a@.visible == a.visible
        && a@.physics == a.physics && a@.children.len() == a.children@.len() && a@.shapes.len() == a.shapes@.len());
    assert(b@.id == b.id && b@.name == b.name@ && b@.transform == b.transform && b@.visible == b.visible
        && b@.physics == b.physics && b@.children.len() == b.children@.len() && b@.shapes.len() == b.shapes@.len());
    if !(a.id.0 == b.id.0 && str_eq(a.name.as_str(), b.name.as_str()) && transform_eq(&a.transform, &b.transform)
        && a.visible == b.visible && physics_eq(&a.physics, &b.physics)
        && a.children.len() == b.children.len() && a.shapes.len() == b.shapes.len()) {
        return false;
    }
    let mut i: usize = 0;
    while i < a.children.len()
        invariant
            i <= a.children@.len(),
            a.children@.len() == b.children@.len(),
            a@.children.len() == a.children@.len(),
            b@.children.len() == b.children@.len(),
            forall|k: int| 0 <= k < a.children@.len() ==> #[trigger] a@.children[k] == a.children@[k]@,
            forall|k: int| 0 <= k < b.children@.len() ==> #[trigger] b@.children[k] == b.children@[k]@,
            forall|j: int| 0 <= j < i ==> a@.children[j] == b@.children[j],
        decreases a.children@.len() - i,
    {
        if !bone_same(&a.children[i], &b.children[i]) {
            assert(a@.children[i as int] != b@.children[i as int]);
            return false;
        }
        i += 1;
    }
    assert(a@.children =~= b@.children);
    let mut j: usize = 0;
    while j < a.shapes.len()
        invariant
            j <= a.shapes@.len(),
            a.shapes@.len() == b.shapes@.len(),
            a@.shapes == shapes_view(a.shapes@),
            b@.shapes == shapes_view(b.shapes@),
            forall|k: int| 0 <= k < j ==> a@.shapes[k] == b@.shapes[k],
        decreases a.shapes@.len() - j,
    {
        if !shape_same(&a.shapes[j], &b.shapes[j]) {
            assert(a@.shapes[j as int] != b@.shapes[j as int]);
            return false;
        }
        j += 1;
    }
    assert(a@.shapes =~= b@.shapes);
    true
}

/// `a == b` on two sets of scene settings.
fn settings_eq(a: &SceneSettings, b: &SceneSettings) -> (r: bool)
    ensures
        r == (*a == *b),
{
    arr3_eq(a.fill_color, b.fill_color) && a.fill_intensity == b.fill_intensity
        && arr3_eq(a.back_color, b.back_color) && a.back_intensity == b.back_intensity
        && arr3_eq(a.sss_color, b.sss_color) && a.sss_intensity == b.sss_intensity
        && a.ao_intensity == b.ao_intensity && a.shadow_softness == b.shadow_softness
        && a.vignette_intensity == b.vignette_intensity
}

/// `a@ == b@` on two scenes.
pub fn scene_same(a: &SdfScene, b: &SdfScene) -> (r: bool)
    ensures
        r == (a@ == b@),
{
    str_eq(a.name.as_str(), b.name.as_str()) && bone_same(&a.root_bone, &b.root_bone)
        && combo_same(&a.combination, &b.combination) && arr3_eq(a.light_dir, b.light_dir)
        && settings_eq(&a.settings, &b.settings)
}

} // verus!
