//! The built-in demo scenes: every number is the bit pattern of the `f32` the demo
//! uses, every bone and shape gets a fresh identifier.  The primitive gallery places
//! its shapes on a circle; those positions (sine and cosine) are computed by the
//! program and passed in.  Some demos come with animation graphs for their bones and
//! shapes.
use vstd::prelude::*;
use crate::bits::{ZERO, HALF};
use crate::bone::{SdfBone, BoneView, BonePhysicsProps, lemma_bones_view};
use crate::ids::is_random_uuid;
use crate::encode::prim_index;
use crate::demos::DemoScene;
use crate::scene::{SdfScene, SceneSettings, SceneView, default_light_dir};
use crate::shape::{CombinationOp, SdfPrimitive, SdfShape, ShapeMaterial, ShapeModifier, ShapeTransform, ShapeView};
use crate::ids::{BoneId, ShapeId};
use crate::nodes::SdfNode;
use crate::presets::{
    bob_nodes, bob_wires, bob_with, bone_bob_preset, bone_spin_preset, color_cycle_nodes, color_cycle_preset,
    color_cycle_wires, spin_nodes, spin_wires, NodeGraph, PlacedNode,
};
use crate::wiring::Wire;

verus! {

/// Bit pattern of `0.02`.
pub const F_0_02: u32 = 0x3ca3d70a;
/// Bit pattern of `0.03`.
pub const F_0_03: u32 = 0x3cf5c28f;
/// Bit pattern of `0.04`.
pub const F_0_04: u32 = 0x3d23d70a;
/// Bit pattern of `0.05`.
pub const F_0_05: u32 = 0x3d4ccccd;
/// Bit pattern of `0.08`.
pub const F_0_08: u32 = 0x3da3d70a;
/// Bit pattern of `0.1`.
pub const F_0_1: u32 = 0x3dcccccd;
/// Bit pattern of `0.12`.
pub const F_0_12: u32 = 0x3df5c28f;
/// Bit pattern of `0.15`.
pub const F_0_15: u32 = 0x3e19999a;
/// Bit pattern of `0.2`.
pub const F_0_2: u32 = 0x3e4ccccd;
/// Bit pattern of `0.25`.
pub const F_0_25: u32 = 0x3e800000;
/// Bit pattern of `0.28`.
pub const F_0_28: u32 = 0x3e8f5c29;
/// Bit pattern of `0.3`.
pub const F_0_3: u32 = 0x3e99999a;
/// Bit pattern of `0.35`.
pub const F_0_35: u32 = 0x3eb33333;
/// Bit pattern of `0.4`.
pub const F_0_4: u32 = 0x3ecccccd;
/// Bit pattern of `0.45`.
pub const F_0_45: u32 = 0x3ee66666;
/// Bit pattern of `0.5`.
pub const F_0_5: u32 = 0x3f000000;
/// Bit pattern of `0.55`.
pub const F_0_55: u32 = 0x3f0ccccd;
/// Bit pattern of `0.6`.
pub const F_0_6: u32 = 0x3f19999a;
/// Bit pattern of `0.65`.
pub const F_0_65: u32 = 0x3f266666;
/// Bit pattern of `0.7`.
pub const F_0_7: u32 = 0x3f333333;
/// Bit pattern of `0.75`.
pub const F_0_75: u32 = 0x3f400000;
/// Bit pattern of `0.8`.
pub const F_0_8: u32 = 0x3f4ccccd;
/// Bit pattern of `0.85`.
pub const F_0_85: u32 = 0x3f59999a;
/// Bit pattern of `0.9`.
pub const F_0_9: u32 = 0x3f666666;
/// Bit pattern of `1`.
pub const F_1: u32 = 0x3f800000;
/// Bit pattern of `12`.
pub const F_12: u32 = 0x41400000;
/// Bit pattern of `1.1`.
pub const F_1_1: u32 = 0x3f8ccccd;
/// Bit pattern of `1.2`.
pub const F_1_2: u32 = 0x3f99999a;
/// Bit pattern of `1.5`.
pub const F_1_5: u32 = 0x3fc00000;
/// Bit pattern of `2`.
pub const F_2: u32 = 0x40000000;
/// Bit pattern of `2.5`.
pub const F_2_5: u32 = 0x40200000;
/// Bit pattern of `3`.
pub const F_3: u32 = 0x40400000;
/// Bit pattern of `4`.
pub const F_4: u32 = 0x40800000;
/// Bit pattern of `5`.
pub const F_5: u32 = 0x40a00000;
/// Bit pattern of `6`.
pub const F_6: u32 = 0x40c00000;
/// Bit pattern of `-0.12`.
pub const F_NEG_0_12: u32 = 0xbdf5c28f;
/// Bit pattern of `-0.2`.
pub const F_NEG_0_2: u32 = 0xbe4ccccd;
/// Bit pattern of `-0.3`.
pub const F_NEG_0_3: u32 = 0xbe99999a;
/// Bit pattern of `-0.5`.
pub const F_NEG_0_5: u32 = 0xbf000000;
/// Bit pattern of `-0.7`.
pub const F_NEG_0_7: u32 = 0xbf333333;
/// Bit pattern of `-1`.
pub const F_NEG_1: u32 = 0xbf800000;
/// Bit pattern of `-2`.
pub const F_NEG_2: u32 = 0xc0000000;
/// Bit pattern of `-3`.
pub const F_NEG_3: u32 = 0xc0400000;
/// Bit pattern of `-5`.
pub const F_NEG_5: u32 = 0xc0a00000;

/// What a demo shape holds: everything but its identifier, which is fresh.
pub struct ShapeSpec {
    pub name: Seq<char>,
    pub primitive: SdfPrimitive,
    pub translation: [u32; 3],
    pub material: ShapeMaterial,
    pub modifiers: Seq<ShapeModifier>,
    pub combination: CombinationOp,
}

/// What a demo bone below the root holds: its name, its translation and its shapes.
pub struct BoneSpec {
    pub name: Seq<char>,
    pub translation: [u32; 3],
    pub shapes: Seq<ShapeSpec>,
}

/// Shape `v` is the shape `s` describes, visible, under a fresh identifier, with no
/// rotation and scale one.
pub open spec fn shape_built(v: ShapeView, s: ShapeSpec) -> bool {
    &&& is_random_uuid(v.id.0)
    &&& v == (ShapeView {
        id: v.id,
        name: s.name,
        primitive: s.primitive,
        visible: true,
        transform: ShapeTransform { translation: s.translation, ..ShapeTransform::default_spec() },
        material: s.material,
        modifiers: s.modifiers,
        combination: s.combination,
    })
}

/// The shapes `vs` are those `ss` describe, in order.
pub open spec fn shapes_built(vs: Seq<ShapeView>, ss: Seq<ShapeSpec>) -> bool {
    vs.len() == ss.len() && forall|i: int| 0 <= i < vs.len() ==> #[trigger] shape_built(vs[i], ss[i])
}

/// Bone `b` is a visible, plain bone named `name` at translation `t`.
pub open spec fn plain_bone_at(b: BoneView, name: Seq<char>, t: [u32; 3]) -> bool {
    &&& b.name == name
    &&& b.transform == (ShapeTransform { translation: t, ..ShapeTransform::default_spec() })
    &&& b.visible
    &&& b.physics == BonePhysicsProps::default_spec()
}

/// Bone `b` is the bone `s` describes, without children, under a fresh identifier.
pub open spec fn child_built(b: BoneView, s: BoneSpec) -> bool {
    &&& is_random_uuid(b.id.0)
    &&& plain_bone_at(b, s.name, s.translation)
    &&& shapes_built(b.shapes, s.shapes)
    &&& b.children.len() == 0
}

/// The tree is a root bone holding the shapes `shapes` and the bones `bones`.
pub open spec fn tree_built(root: BoneView, shapes: Seq<ShapeSpec>, bones: Seq<BoneSpec>) -> bool {
    &&& root.id.0 == 0
    &&& plain_bone_at(root, "Root"@, [ZERO, ZERO, ZERO])
    &&& shapes_built(root.shapes, shapes)
    &&& root.children.len() == bones.len()
    &&& forall|i: int| 0 <= i < bones.len() ==> #[trigger] child_built(root.children[i], bones[i])
}

/// The modifiers of a demo shape: none or one.
pub open spec fn opt_modifier(m: Option<ShapeModifier>) -> Seq<ShapeModifier> {
    match m {
        Some(x) => seq![x],
        None => Seq::empty(),
    }
}

/// A demo shape: a fresh shape with the given content.
fn demo_shape(
    name: &str,
    primitive: SdfPrimitive,
    translation: [u32; 3],
    material: ShapeMaterial,
    modifier: Option<ShapeModifier>,
    combination: CombinationOp,
) -> (r: SdfShape)
    ensures
        shape_built(r@, ShapeSpec { name: name@, primitive, translation, material, modifiers: opt_modifier(modifier), combination }),
{
    let mut s = SdfShape::new(name, primitive);
    s.transform.translation = translation;
    s.material = material;
    match modifier {
        Some(m) => s.modifiers.push(m),
        None => {},
    }
    assert(s@.modifiers =~= opt_modifier(modifier));
    s.combination = combination;
    s
}

/// Shapes of the root bone of the Boolean Sampler demo.
pub open spec fn boolean_sampler_shapes() -> Seq<ShapeSpec> {
    Seq::empty()
}

/// Bones under the root of the Boolean Sampler demo.
pub open spec fn boolean_sampler_bones() -> Seq<BoneSpec> {
    seq![
        BoneSpec {
            name: "Subtracted"@,
            translation: [F_NEG_3, ZERO, ZERO],
            shapes: seq![
                ShapeSpec {
                    name: "Base"@,
                    primitive: SdfPrimitive::Sphere { radius: F_0_8 },
                    translation: [ZERO, ZERO, ZERO],
                    material: ShapeMaterial { color: [F_0_8, F_0_3, F_0_3], ..ShapeMaterial::default_spec() },
                    modifiers: Seq::empty(),
                    combination: CombinationOp::Union,
                },
                ShapeSpec {
                    name: "Carve"@,
                    primitive: SdfPrimitive::Box { half_extents: [F_0_5, F_0_5, F_1_2] },
                    translation: [ZERO, ZERO, ZERO],
                    material: ShapeMaterial { color: [F_0_8, F_0_3, F_0_3], ..ShapeMaterial::default_spec() },
                    modifiers: Seq::empty(),
                    combination: CombinationOp::Subtraction,
                },
            ],
        },
        BoneSpec {
            name: "Smooth Intersection"@,
            translation: [F_NEG_1, ZERO, ZERO],
            shapes: seq![
                ShapeSpec {
                    name: "Sphere"@,
                    primitive: SdfPrimitive::Sphere { radius: F_0_7 },
                    translation: [ZERO, ZERO, ZERO],
                    material: ShapeMaterial { color: [F_0_3, F_0_7, F_0_3], ..ShapeMaterial::default_spec() },
                    modifiers: Seq::empty(),
                    combination: CombinationOp::Union,
                },
                ShapeSpec {
                    name: "Box"@,
                    primitive: SdfPrimitive::Box { half_extents: [F_0_5, F_0_5, F_0_5] },
                    translation: [ZERO, ZERO, ZERO],
                    material: ShapeMaterial { color: [F_0_3, F_0_9, F_0_5], ..ShapeMaterial::default_spec() },
                    modifiers: Seq::empty(),
                    combination: CombinationOp::SmoothIntersection { k: F_0_2 },
                },
            ],
        },
        BoneSpec {
            name: "Chamfer Union"@,
            translation: [F_1, ZERO, ZERO],
            shapes: seq![
                ShapeSpec {
                    name: "Block"@,
                    primitive: SdfPrimitive::RoundBox { half_extents: [F_0_4, F_0_4, F_0_4], rounding: F_0_02 },
                    translation: [ZERO, ZERO, ZERO],
                    material: ShapeMaterial { color: [F_0_3, F_0_4, F_0_8], metallic: F_0_5, ..ShapeMaterial::default_spec() },
                    modifiers: Seq::empty(),
                    combination: CombinationOp::Union,
                },
                ShapeSpec {
                    name: "Sphere"@,
                    primitive: SdfPrimitive::Sphere { radius: F_0_5 },
                    translation: [F_0_3, F_0_3, ZERO],
                    material: ShapeMaterial { color: [F_0_4, F_0_5, F_0_9], metallic: F_0_5, ..ShapeMaterial::default_spec() },
                    modifiers: Seq::empty(),
                    combination: CombinationOp::ChamferUnion { k: F_0_15 },
                },
            ],
        },
        BoneSpec {
            name: "Bowl"@,
            translation: [F_3, ZERO, ZERO],
            shapes: seq![
                ShapeSpec {
                    name: "Outer"@,
                    primitive: SdfPrimitive::Ellipsoid { radii: [F_0_7, F_0_5, F_0_7] },
                    translation: [ZERO, ZERO, ZERO],
                    material: ShapeMaterial { color: [F_0_7, F_0_5, F_0_3], roughness: F_0_8, ..ShapeMaterial::default_spec() },
                    modifiers: Seq::empty(),
                    combination: CombinationOp::Union,
                },
                ShapeSpec {
                    name: "Inner"@,
                    primitive: SdfPrimitive::Ellipsoid { radii: [F_0_6, F_0_5, F_0_6] },
                    translation: [ZERO, F_0_15, ZERO],
                    material: ShapeMaterial { color: [F_0_7, F_0_5, F_0_3], ..ShapeMaterial::default_spec() },
                    modifiers: Seq::empty(),
                    combination: CombinationOp::SmoothSubtraction { k: F_0_05 },
                },
            ],
        },
    ]
}

/// The Boolean Sampler demo scene.
pub fn boolean_sampler() -> (r: SdfScene)
    ensures
        r@.name == "Boolean Sampler"@,
        r@.combination == CombinationOp::Union,
        r@.light_dir == [F_0_6, F_0_8, F_0_4],
        r@.settings == SceneSettings::default_spec(),
        tree_built(r@.root_bone, boolean_sampler_shapes(), boolean_sampler_bones()),
{
    let mut root = SdfBone::root();
    let mut b0 = SdfBone::new("Subtracted");
    b0.transform.translation = [F_NEG_3, ZERO, ZERO];
    let c0_0 = demo_shape(
        "Base",
        SdfPrimitive::Sphere { radius: F_0_8 },
        [ZERO, ZERO, ZERO],
        ShapeMaterial { color: [F_0_8, F_0_3, F_0_3], ..ShapeMaterial::default() },
        None,
        CombinationOp::Union,
    );
    let ghost h0_0 = c0_0@;
    b0.push_shape(c0_0);
    let c0_1 = demo_shape(
        "Carve",
        SdfPrimitive::Box { half_extents: [F_0_5, F_0_5, F_1_2] },
        [ZERO, ZERO, ZERO],
        ShapeMaterial { color: [F_0_8, F_0_3, F_0_3], ..ShapeMaterial::default() },
        None,
        CombinationOp::Subtraction,
    );
    let ghost h0_1 = c0_1@;
    b0.push_shape(c0_1);
    let ghost v0 = b0@;
    root.push_child(b0);
    let mut b1 = SdfBone::new("Smooth Intersection");
    b1.transform.translation = [F_NEG_1, ZERO, ZERO];
    let c1_0 = demo_shape(
        "Sphere",
        SdfPrimitive::Sphere { radius: F_0_7 },
        [ZERO, ZERO, ZERO],
        ShapeMaterial { color: [F_0_3, F_0_7, F_0_3], ..ShapeMaterial::default() },
        None,
        CombinationOp::Union,
    );
    let ghost h1_0 = c1_0@;
    b1.push_shape(c1_0);
    let c1_1 = demo_shape(
        "Box",
        SdfPrimitive::Box { half_extents: [F_0_5, F_0_5, F_0_5] },
        [ZERO, ZERO, ZERO],
        ShapeMaterial { color: [F_0_3, F_0_9, F_0_5], ..ShapeMaterial::default() },
        None,
        CombinationOp::SmoothIntersection { k: F_0_2 },
    );
    let ghost h1_1 = c1_1@;
    b1.push_shape(c1_1);
    let ghost v1 = b1@;
    root.push_child(b1);
    let mut b2 = SdfBone::new("Chamfer Union");
    b2.transform.translation = [F_1, ZERO, ZERO];
    let c2_0 = demo_shape(
        "Block",
        SdfPrimitive::RoundBox { half_extents: [F_0_4, F_0_4, F_0_4], rounding: F_0_02 },
        [ZERO, ZERO, ZERO],
        ShapeMaterial { color: [F_0_3, F_0_4, F_0_8], metallic: F_0_5, ..ShapeMaterial::default() },
        None,
        CombinationOp::Union,
    );
    let ghost h2_0 = c2_0@;
    b2.push_shape(c2_0);
    let c2_1 = demo_shape(
        "Sphere",
        SdfPrimitive::Sphere { radius: F_0_5 },
        [F_0_3, F_0_3, ZERO],
        ShapeMaterial { color: [F_0_4, F_0_5, F_0_9], metallic: F_0_5, ..ShapeMaterial::default() },
        None,
        CombinationOp::ChamferUnion { k: F_0_15 },
    );
    let ghost h2_1 = c2_1@;
    b2.push_shape(c2_1);
    let ghost v2 = b2@;
    root.push_child(b2);
    let mut b3 = SdfBone::new("Bowl");
    b3.transform.translation = [F_3, ZERO, ZERO];
    let c3_0 = demo_shape(
        "Outer",
        SdfPrimitive::Ellipsoid { radii: [F_0_7, F_0_5, F_0_7] },
        [ZERO, ZERO, ZERO],
        ShapeMaterial { color: [F_0_7, F_0_5, F_0_3], roughness: F_0_8, ..ShapeMaterial::default() },
        None,
        CombinationOp::Union,
    );
    let ghost h3_0 = c3_0@;
    b3.push_shape(c3_0);
    let c3_1 = demo_shape(
        "Inner",
        SdfPrimitive::Ellipsoid { radii: [F_0_6, F_0_5, F_0_6] },
        [ZERO, F_0_15, ZERO],
        ShapeMaterial { color: [F_0_7, F_0_5, F_0_3], ..ShapeMaterial::default() },
        None,
        CombinationOp::SmoothSubtraction { k: F_0_05 },
    );
    let ghost h3_1 = c3_1@;
    b3.push_shape(c3_1);
    let ghost v3 = b3@;
    root.push_child(b3);
    let ghost rv = root@;
    proof {
        assert(rv.shapes =~= Seq::<ShapeView>::empty());
        assert(rv.children =~= seq![v0, v1, v2, v3]);
        assert(v0.shapes =~= seq![h0_0, h0_1]);
        assert(v1.shapes =~= seq![h1_0, h1_1]);
        assert(v2.shapes =~= seq![h2_0, h2_1]);
        assert(v3.shapes =~= seq![h3_0, h3_1]);
        assert(shape_built(v0.shapes[0], boolean_sampler_bones()[0].shapes[0]));
        assert(shape_built(v0.shapes[1], boolean_sampler_bones()[0].shapes[1]));
        assert(child_built(v0, boolean_sampler_bones()[0]));
        assert(shape_built(v1.shapes[0], boolean_sampler_bones()[1].shapes[0]));
        assert(shape_built(v1.shapes[1], boolean_sampler_bones()[1].shapes[1]));
        assert(child_built(v1, boolean_sampler_bones()[1]));
        assert(shape_built(v2.shapes[0], boolean_sampler_bones()[2].shapes[0]));
        assert(shape_built(v2.shapes[1], boolean_sampler_bones()[2].shapes[1]));
        assert(child_built(v2, boolean_sampler_bones()[2]));
        assert(shape_built(v3.shapes[0], boolean_sampler_bones()[3].shapes[0]));
        assert(shape_built(v3.shapes[1], boolean_sampler_bones()[3].shapes[1]));
        assert(child_built(v3, boolean_sampler_bones()[3]));
    }
    SdfScene {
        name: String::from_str("Boolean Sampler"),
        root_bone: root,
        combination: CombinationOp::Union,
        light_dir: [F_0_6, F_0_8, F_0_4],
        settings: SceneSettings::default(),
    }
}

/// Shapes of the root bone of the Modifier Parade demo.
pub open spec fn modifier_parade_shapes() -> Seq<ShapeSpec> {
    seq![
        ShapeSpec {
            name: "Plain"@,
            primitive: SdfPrimitive::HexPrism { height: F_0_6, radius: F_0_3 },
            translation: [F_NEG_5, ZERO, ZERO],
            material: ShapeMaterial { color: [F_0_5, F_0_6, F_0_8], ..ShapeMaterial::default_spec() },
            modifiers: Seq::empty(),
            combination: CombinationOp::Union,
        },
        ShapeSpec {
            name: "Rounded"@,
            primitive: SdfPrimitive::HexPrism { height: F_0_6, radius: F_0_3 },
            translation: [F_NEG_3, ZERO, ZERO],
            material: ShapeMaterial { color: [F_0_6, F_0_8, F_0_5], ..ShapeMaterial::default_spec() },
            modifiers: seq![ShapeModifier::Rounding(F_0_1)],
            combination: CombinationOp::Union,
        },
        ShapeSpec {
            name: "Hollow"@,
            primitive: SdfPrimitive::Sphere { radius: F_0_5 },
            translation: [F_NEG_1, ZERO, ZERO],
            material: ShapeMaterial { color: [F_0_8, F_0_6, F_0_5], ..ShapeMaterial::default_spec() },
            modifiers: seq![ShapeModifier::Onion(F_0_05)],
            combination: CombinationOp::Union,
        },
        ShapeSpec {
            name: "Twisted"@,
            primitive: SdfPrimitive::HexPrism { height: F_0_8, radius: F_0_25 },
            translation: [F_1, ZERO, ZERO],
            material: ShapeMaterial { color: [F_0_8, F_0_5, F_0_8], ..ShapeMaterial::default_spec() },
            modifiers: seq![ShapeModifier::Twist(F_3)],
            combination: CombinationOp::Union,
        },
        ShapeSpec {
            name: "Bent"@,
            primitive: SdfPrimitive::HexPrism { height: F_0_8, radius: F_0_25 },
            translation: [F_3, ZERO, ZERO],
            material: ShapeMaterial { color: [F_0_5, F_0_8, F_0_8], ..ShapeMaterial::default_spec() },
            modifiers: seq![ShapeModifier::Bend(F_2)],
            combination: CombinationOp::Union,
        },
        ShapeSpec {
            name: "Elongated"@,
            primitive: SdfPrimitive::Sphere { radius: F_0_3 },
            translation: [F_5, ZERO, ZERO],
            material: ShapeMaterial { color: [F_0_8, F_0_8, F_0_5], ..ShapeMaterial::default_spec() },
            modifiers: seq![ShapeModifier::Elongation([F_0_5, ZERO, ZERO])],
            combination: CombinationOp::Union,
        },
        ShapeSpec {
            name: "Repeated"@,
            primitive: SdfPrimitive::Sphere { radius: F_0_2 },
            translation: [ZERO, ZERO, F_3],
            material: ShapeMaterial { color: [F_0_7, F_0_5, F_0_5], ..ShapeMaterial::default_spec() },
            modifiers: seq![ShapeModifier::Repetition { period: [F_1_5, F_1_5, F_1_5], count: [3, 3, 3] }],
            combination: CombinationOp::Union,
        },
    ]
}

/// Bones under the root of the Modifier Parade demo.
pub open spec fn modifier_parade_bones() -> Seq<BoneSpec> {
    Seq::empty()
}

/// The Modifier Parade demo scene.
pub fn modifier_parade() -> (r: SdfScene)
    ensures
        r@.name == "Modifier Parade"@,
        r@.combination == CombinationOp::Union,
        r@.light_dir == [F_0_6, F_0_8, F_0_4],
        r@.settings == SceneSettings::default_spec(),
        tree_built(r@.root_bone, modifier_parade_shapes(), modifier_parade_bones()),
{
    let mut root = SdfBone::root();
    let s0 = demo_shape(
        "Plain",
        SdfPrimitive::HexPrism { height: F_0_6, radius: F_0_3 },
        [F_NEG_5, ZERO, ZERO],
        ShapeMaterial { color: [F_0_5, F_0_6, F_0_8], ..ShapeMaterial::default() },
        None,
        CombinationOp::Union,
    );
    let ghost g0 = s0@;
    root.push_shape(s0);
    let s1 = demo_shape(
        "Rounded",
        SdfPrimitive::HexPrism { height: F_0_6, radius: F_0_3 },
        [F_NEG_3, ZERO, ZERO],
        ShapeMaterial { color: [F_0_6, F_0_8, F_0_5], ..ShapeMaterial::default() },
        Some(ShapeModifier::Rounding(F_0_1)),
        CombinationOp::Union,
    );
    let ghost g1 = s1@;
    root.push_shape(s1);
    let s2 = demo_shape(
        "Hollow",
        SdfPrimitive::Sphere { radius: F_0_5 },
        [F_NEG_1, ZERO, ZERO],
        ShapeMaterial { color: [F_0_8, F_0_6, F_0_5], ..ShapeMaterial::default() },
        Some(ShapeModifier::Onion(F_0_05)),
        CombinationOp::Union,
    );
    let ghost g2 = s2@;
    root.push_shape(s2);
    let s3 = demo_shape(
        "Twisted",
        SdfPrimitive::HexPrism { height: F_0_8, radius: F_0_25 },
        [F_1, ZERO, ZERO],
        ShapeMaterial { color: [F_0_8, F_0_5, F_0_8], ..ShapeMaterial::default() },
        Some(ShapeModifier::Twist(F_3)),
        CombinationOp::Union,
    );
    let ghost g3 = s3@;
    root.push_shape(s3);
    let s4 = demo_shape(
        "Bent",
        SdfPrimitive::HexPrism { height: F_0_8, radius: F_0_25 },
        [F_3, ZERO, ZERO],
        ShapeMaterial { color: [F_0_5, F_0_8, F_0_8], ..ShapeMaterial::default() },
        Some(ShapeModifier::Bend(F_2)),
        CombinationOp::Union,
    );
    let ghost g4 = s4@;
    root.push_shape(s4);
    let s5 = demo_shape(
        "Elongated",
        SdfPrimitive::Sphere { radius: F_0_3 },
        [F_5, ZERO, ZERO],
        ShapeMaterial { color: [F_0_8, F_0_8, F_0_5], ..ShapeMaterial::default() },
        Some(ShapeModifier::Elongation([F_0_5, ZERO, ZERO])),
        CombinationOp::Union,
    );
    let ghost g5 = s5@;
    root.push_shape(s5);
    let s6 = demo_shape(
        "Repeated",
        SdfPrimitive::Sphere { radius: F_0_2 },
        [ZERO, ZERO, F_3],
        ShapeMaterial { color: [F_0_7, F_0_5, F_0_5], ..ShapeMaterial::default() },
        Some(ShapeModifier::Repetition { period: [F_1_5, F_1_5, F_1_5], count: [3, 3, 3] }),
        CombinationOp::Union,
    );
    let ghost g6 = s6@;
    root.push_shape(s6);
    let ghost rv = root@;
    proof {
        assert(rv.shapes =~= seq![g0, g1, g2, g3, g4, g5, g6]);
        assert(rv.children =~= Seq::<BoneView>::empty());
        assert(shape_built(rv.shapes[0], modifier_parade_shapes()[0]));
        assert(shape_built(rv.shapes[1], modifier_parade_shapes()[1]));
        assert(shape_built(rv.shapes[2], modifier_parade_shapes()[2]));
        assert(shape_built(rv.shapes[3], modifier_parade_shapes()[3]));
        assert(shape_built(rv.shapes[4], modifier_parade_shapes()[4]));
        assert(shape_built(rv.shapes[5], modifier_parade_shapes()[5]));
        assert(shape_built(rv.shapes[6], modifier_parade_shapes()[6]));
    }
    SdfScene {
        name: String::from_str("Modifier Parade"),
        root_bone: root,
        combination: CombinationOp::Union,
        light_dir: [F_0_6, F_0_8, F_0_4],
        settings: SceneSettings::default(),
    }
}

/// Shapes of the root bone of the Mushroom Garden demo.
pub open spec fn mushroom_garden_shapes() -> Seq<ShapeSpec> {
    seq![
        ShapeSpec {
            name: "Ground"@,
            primitive: SdfPrimitive::RoundBox { half_extents: [F_3, F_0_3, F_2_5], rounding: F_0_2 },
            translation: [ZERO, F_NEG_0_5, ZERO],
            material: ShapeMaterial { color: [F_0_35, F_0_45, F_0_25], roughness: F_0_85, noise_amplitude: F_0_04, noise_frequency: F_3, noise_octaves: 2, color_mode: 5, ..ShapeMaterial::default_spec() },
            modifiers: Seq::empty(),
            combination: CombinationOp::Union,
        },
        ShapeSpec {
            name: "Stone"@,
            primitive: SdfPrimitive::RoundBox { half_extents: [F_0_3, F_0_25, F_0_35], rounding: F_0_15 },
            translation: [F_2, F_NEG_0_2, F_NEG_0_5],
            material: ShapeMaterial { color: [F_0_5, F_0_45, F_0_4], roughness: F_0_9, color_mode: 4, noise_frequency: F_4, noise_octaves: 3, noise_amplitude: F_0_03, ..ShapeMaterial::default_spec() },
            modifiers: Seq::empty(),
            combination: CombinationOp::Union,
        },
        ShapeSpec {
            name: "Moss"@,
            primitive: SdfPrimitive::Ellipsoid { radii: [F_0_25, F_0_15, F_0_2] },
            translation: [F_NEG_2, F_NEG_0_3, F_0_8],
            material: ShapeMaterial { color: [F_0_2, F_0_5, F_0_15], roughness: F_0_8, smooth_symmetry: F_0_02, noise_amplitude: F_0_02, noise_frequency: F_5, noise_octaves: 2, ..ShapeMaterial::default_spec() },
            modifiers: Seq::empty(),
            combination: CombinationOp::Union,
        },
    ]
}

/// Bones under the root of the Mushroom Garden demo.
pub open spec fn mushroom_garden_bones() -> Seq<BoneSpec> {
    seq![
        BoneSpec {
            name: "Mushroom 1"@,
            translation: [F_NEG_1, ZERO, ZERO],
            shapes: seq![
                ShapeSpec {
                    name: "Stem"@,
                    primitive: SdfPrimitive::Cylinder { height: F_0_4, radius: F_0_12 },
                    translation: [ZERO, ZERO, ZERO],
                    material: ShapeMaterial { color: [F_0_85, F_0_8, F_0_7], roughness: F_0_7, color_mode: 2, noise_frequency: F_6, ..ShapeMaterial::default_spec() },
                    modifiers: Seq::empty(),
                    combination: CombinationOp::Union,
                },
                ShapeSpec {
                    name: "Cap"@,
                    primitive: SdfPrimitive::Ellipsoid { radii: [F_0_45, F_0_25, F_0_45] },
                    translation: [ZERO, F_0_5, ZERO],
                    material: ShapeMaterial { color_mode: 1, palette_a: [F_0_5, F_0_3, F_0_2], palette_b: [F_0_5, F_0_3, F_0_3], palette_c: [F_1, F_1, F_1], palette_d: [ZERO, F_0_1, F_0_2], roughness: F_0_4, ..ShapeMaterial::default_spec() },
                    modifiers: Seq::empty(),
                    combination: CombinationOp::SmoothUnion { k: F_0_15 },
                },
            ],
        },
        BoneSpec {
            name: "Mushroom 2"@,
            translation: [F_1, ZERO, F_0_5],
            shapes: seq![
                ShapeSpec {
                    name: "Stem"@,
                    primitive: SdfPrimitive::Cylinder { height: F_0_3, radius: F_0_1 },
                    translation: [ZERO, ZERO, ZERO],
                    material: ShapeMaterial { color: [F_0_8, F_0_75, F_0_65], roughness: F_0_7, ..ShapeMaterial::default_spec() },
                    modifiers: Seq::empty(),
                    combination: CombinationOp::Union,
                },
                ShapeSpec {
                    name: "Cap"@,
                    primitive: SdfPrimitive::Ellipsoid { radii: [F_0_35, F_0_2, F_0_35] },
                    translation: [ZERO, F_0_4, ZERO],
                    material: ShapeMaterial { color: [F_0_9, F_0_4, F_0_3], color_mode: 3, noise_frequency: F_5, roughness: F_0_5, ..ShapeMaterial::default_spec() },
                    modifiers: Seq::empty(),
                    combination: CombinationOp::SmoothUnion { k: F_0_12 },
                },
            ],
        },
    ]
}

/// The Mushroom Garden demo scene.
pub fn mushroom_garden() -> (r: SdfScene)
    ensures
        r@.name == "Mushroom Garden"@,
        r@.combination == CombinationOp::Union,
        r@.light_dir == [F_0_5, F_0_9, F_0_3],
        r@.settings == SceneSettings::default_spec(),
        tree_built(r@.root_bone, mushroom_garden_shapes(), mushroom_garden_bones()),
{
    let mut root = SdfBone::root();
    let s0 = demo_shape(
        "Ground",
        SdfPrimitive::RoundBox { half_extents: [F_3, F_0_3, F_2_5], rounding: F_0_2 },
        [ZERO, F_NEG_0_5, ZERO],
        ShapeMaterial { color: [F_0_35, F_0_45, F_0_25], roughness: F_0_85, noise_amplitude: F_0_04, noise_frequency: F_3, noise_octaves: 2, color_mode: 5, ..ShapeMaterial::default() },
        None,
        CombinationOp::Union,
    );
    let ghost g0 = s0@;
    root.push_shape(s0);
    let s1 = demo_shape(
        "Stone",
        SdfPrimitive::RoundBox { half_extents: [F_0_3, F_0_25, F_0_35], rounding: F_0_15 },
        [F_2, F_NEG_0_2, F_NEG_0_5],
        ShapeMaterial { color: [F_0_5, F_0_45, F_0_4], roughness: F_0_9, color_mode: 4, noise_frequency: F_4, noise_octaves: 3, noise_amplitude: F_0_03, ..ShapeMaterial::default() },
        None,
        CombinationOp::Union,
    );
    let ghost g1 = s1@;
    root.push_shape(s1);
    let s2 = demo_shape(
        "Moss",
        SdfPrimitive::Ellipsoid { radii: [F_0_25, F_0_15, F_0_2] },
        [F_NEG_2, F_NEG_0_3, F_0_8],
        ShapeMaterial { color: [F_0_2, F_0_5, F_0_15], roughness: F_0_8, smooth_symmetry: F_0_02, noise_amplitude: F_0_02, noise_frequency: F_5, noise_octaves: 2, ..ShapeMaterial::default() },
        None,
        CombinationOp::Union,
    );
    let ghost g2 = s2@;
    root.push_shape(s2);
    let mut b0 = SdfBone::new("Mushroom 1");
    b0.transform.translation = [F_NEG_1, ZERO, ZERO];
    let c0_0 = demo_shape(
        "Stem",
        SdfPrimitive::Cylinder { height: F_0_4, radius: F_0_12 },
        [ZERO, ZERO, ZERO],
        ShapeMaterial { color: [F_0_85, F_0_8, F_0_7], roughness: F_0_7, color_mode: 2, noise_frequency: F_6, ..ShapeMaterial::default() },
        None,
        CombinationOp::Union,
    );
    let ghost h0_0 = c0_0@;
    b0.push_shape(c0_0);
    let c0_1 = demo_shape(
        "Cap",
        SdfPrimitive::Ellipsoid { radii: [F_0_45, F_0_25, F_0_45] },
        [ZERO, F_0_5, ZERO],
        ShapeMaterial { color_mode: 1, palette_a: [F_0_5, F_0_3, F_0_2], palette_b: [F_0_5, F_0_3, F_0_3], palette_c: [F_1, F_1, F_1], palette_d: [ZERO, F_0_1, F_0_2], roughness: F_0_4, ..ShapeMaterial::default() },
        None,
        CombinationOp::SmoothUnion { k: F_0_15 },
    );
    let ghost h0_1 = c0_1@;
    b0.push_shape(c0_1);
    let ghost v0 = b0@;
    root.push_child(b0);
    let mut b1 = SdfBone::new("Mushroom 2");
    b1.transform.translation = [F_1, ZERO, F_0_5];
    let c1_0 = demo_shape(
        "Stem",
        SdfPrimitive::Cylinder { height: F_0_3, radius: F_0_1 },
        [ZERO, ZERO, ZERO],
        ShapeMaterial { color: [F_0_8, F_0_75, F_0_65], roughness: F_0_7, ..ShapeMaterial::default() },
        None,
        CombinationOp::Union,
    );
    let ghost h1_0 = c1_0@;
    b1.push_shape(c1_0);
    let c1_1 = demo_shape(
        "Cap",
        SdfPrimitive::Ellipsoid { radii: [F_0_35, F_0_2, F_0_35] },
        [ZERO, F_0_4, ZERO],
        ShapeMaterial { color: [F_0_9, F_0_4, F_0_3], color_mode: 3, noise_frequency: F_5, roughness: F_0_5, ..ShapeMaterial::default() },
        None,
        CombinationOp::SmoothUnion { k: F_0_12 },
    );
    let ghost h1_1 = c1_1@;
    b1.push_shape(c1_1);
    let ghost v1 = b1@;
    root.push_child(b1);
    let ghost rv = root@;
    proof {
        assert(rv.shapes =~= seq![g0, g1, g2]);
        assert(rv.children =~= seq![v0, v1]);
        assert(v0.shapes =~= seq![h0_0, h0_1]);
        assert(v1.shapes =~= seq![h1_0, h1_1]);
        assert(shape_built(rv.shapes[0], mushroom_garden_shapes()[0]));
        assert(shape_built(rv.shapes[1], mushroom_garden_shapes()[1]));
        assert(shape_built(rv.shapes[2], mushroom_garden_shapes()[2]));
        assert(shape_built(v0.shapes[0], mushroom_garden_bones()[0].shapes[0]));
        assert(shape_built(v0.shapes[1], mushroom_garden_bones()[0].shapes[1]));
        assert(child_built(v0, mushroom_garden_bones()[0]));
        assert(shape_built(v1.shapes[0], mushroom_garden_bones()[1].shapes[0]));
        assert(shape_built(v1.shapes[1], mushroom_garden_bones()[1].shapes[1]));
        assert(child_built(v1, mushroom_garden_bones()[1]));
    }
    SdfScene {
        name: String::from_str("Mushroom Garden"),
        root_bone: root,
        combination: CombinationOp::Union,
        light_dir: [F_0_5, F_0_9, F_0_3],
        settings: SceneSettings::default(),
    }
}

/// Shapes of the root bone of the Robot Friend demo.
pub open spec fn robot_friend_shapes() -> Seq<ShapeSpec> {
    seq![
        ShapeSpec {
            name: "Body"@,
            primitive: SdfPrimitive::RoundBox { half_extents: [F_0_5, F_0_6, F_0_35], rounding: F_0_08 },
            translation: [ZERO, ZERO, ZERO],
            material: ShapeMaterial { color: [F_0_6, F_0_6, F_0_65], roughness: F_0_4, metallic: F_0_6, ..ShapeMaterial::default_spec() },
            modifiers: Seq::empty(),
            combination: CombinationOp::Union,
        },
        ShapeSpec {
            name: "Neck"@,
            primitive: SdfPrimitive::Cylinder { height: F_0_1, radius: F_0_12 },
            translation: [ZERO, F_0_7, ZERO],
            material: ShapeMaterial { color: [F_0_5, F_0_5, F_0_55], metallic: F_0_7, ..ShapeMaterial::default_spec() },
            modifiers: Seq::empty(),
            combination: CombinationOp::ChamferUnion { k: F_0_08 },
        },
    ]
}

/// Bones under the root of the Robot Friend demo.
pub open spec fn robot_friend_bones() -> Seq<BoneSpec> {
    seq![
        BoneSpec {
            name: "Head"@,
            translation: [ZERO, F_1_1, ZERO],
            shapes: seq![
                ShapeSpec {
                    name: "Skull"@,
                    primitive: SdfPrimitive::RoundBox { half_extents: [F_0_35, F_0_3, F_0_3], rounding: F_0_1 },
                    translation: [ZERO, ZERO, ZERO],
                    material: ShapeMaterial { color: [F_0_65, F_0_65, F_0_7], metallic: F_0_5, roughness: F_0_35, ..ShapeMaterial::default_spec() },
                    modifiers: Seq::empty(),
                    combination: CombinationOp::ChamferUnion { k: F_0_15 },
                },
                ShapeSpec {
                    name: "Left Eye"@,
                    primitive: SdfPrimitive::Sphere { radius: F_0_08 },
                    translation: [F_0_12, F_0_05, F_0_28],
                    material: ShapeMaterial { color: [F_0_2, F_0_8, F_0_9], fresnel_power: F_3, roughness: F_0_1, ..ShapeMaterial::default_spec() },
                    modifiers: Seq::empty(),
                    combination: CombinationOp::SmoothUnion { k: F_0_05 },
                },
                ShapeSpec {
                    name: "Right Eye"@,
                    primitive: SdfPrimitive::Sphere { radius: F_0_08 },
                    translation: [F_NEG_0_12, F_0_05, F_0_28],
                    material: ShapeMaterial { color: [F_0_2, F_0_8, F_0_9], fresnel_power: F_3, roughness: F_0_1, ..ShapeMaterial::default_spec() },
                    modifiers: Seq::empty(),
                    combination: CombinationOp::SmoothUnion { k: F_0_05 },
                },
                ShapeSpec {
                    name: "Gem"@,
                    primitive: SdfPrimitive::Octahedron { size: F_0_12 },
                    translation: [ZERO, F_0_3, ZERO],
                    material: ShapeMaterial { color: [F_0_9, F_0_2, F_0_2], metallic: F_1, roughness: F_0_05, ..ShapeMaterial::default_spec() },
                    modifiers: Seq::empty(),
                    combination: CombinationOp::SmoothUnion { k: F_0_02 },
                },
            ],
        },
        BoneSpec {
            name: "Left Arm"@,
            translation: [F_0_7, F_0_3, ZERO],
            shapes: seq![
                ShapeSpec {
                    name: "Arm"@,
                    primitive: SdfPrimitive::Capsule { radius: F_0_1, half_height: F_0_4 },
                    translation: [ZERO, ZERO, ZERO],
                    material: ShapeMaterial { color: [F_0_55, F_0_55, F_0_6], metallic: F_0_5, roughness: F_0_4, ..ShapeMaterial::default_spec() },
                    modifiers: Seq::empty(),
                    combination: CombinationOp::Union,
                },
            ],
        },
        BoneSpec {
            name: "Right Arm"@,
            translation: [F_NEG_0_7, F_0_3, ZERO],
            shapes: seq![
                ShapeSpec {
                    name: "Arm"@,
                    primitive: SdfPrimitive::Capsule { radius: F_0_1, half_height: F_0_4 },
                    translation: [ZERO, ZERO, ZERO],
                    material: ShapeMaterial { color: [F_0_55, F_0_55, F_0_6], metallic: F_0_5, roughness: F_0_4, ..ShapeMaterial::default_spec() },
                    modifiers: Seq::empty(),
                    combination: CombinationOp::Union,
                },
            ],
        },
    ]
}

/// The Robot Friend demo scene.
pub fn robot_friend() -> (r: SdfScene)
    ensures
        r@.name == "Robot Friend"@,
        r@.combination == CombinationOp::Union,
        r@.light_dir == [F_0_5, F_0_8, F_0_5],
        r@.settings == SceneSettings::default_spec(),
        tree_built(r@.root_bone, robot_friend_shapes(), robot_friend_bones()),
{
    let mut root = SdfBone::root();
    let s0 = demo_shape(
        "Body",
        SdfPrimitive::RoundBox { half_extents: [F_0_5, F_0_6, F_0_35], rounding: F_0_08 },
        [ZERO, ZERO, ZERO],
        ShapeMaterial { color: [F_0_6, F_0_6, F_0_65], roughness: F_0_4, metallic: F_0_6, ..ShapeMaterial::default() },
        None,
        CombinationOp::Union,
    );
    let ghost g0 = s0@;
    root.push_shape(s0);
    let s1 = demo_shape(
        "Neck",
        SdfPrimitive::Cylinder { height: F_0_1, radius: F_0_12 },
        [ZERO, F_0_7, ZERO],
        ShapeMaterial { color: [F_0_5, F_0_5, F_0_55], metallic: F_0_7, ..ShapeMaterial::default() },
        None,
        CombinationOp::ChamferUnion { k: F_0_08 },
    );
    let ghost g1 = s1@;
    root.push_shape(s1);
    let mut b0 = SdfBone::new("Head");
    b0.transform.translation = [ZERO, F_1_1, ZERO];
    let c0_0 = demo_shape(
        "Skull",
        SdfPrimitive::RoundBox { half_extents: [F_0_35, F_0_3, F_0_3], rounding: F_0_1 },
        [ZERO, ZERO, ZERO],
        ShapeMaterial { color: [F_0_65, F_0_65, F_0_7], metallic: F_0_5, roughness: F_0_35, ..ShapeMaterial::default() },
        None,
        CombinationOp::ChamferUnion { k: F_0_15 },
    );
    let ghost h0_0 = c0_0@;
    b0.push_shape(c0_0);
    let c0_1 = demo_shape(
        "Left Eye",
        SdfPrimitive::Sphere { radius: F_0_08 },
        [F_0_12, F_0_05, F_0_28],
        ShapeMaterial { color: [F_0_2, F_0_8, F_0_9], fresnel_power: F_3, roughness: F_0_1, ..ShapeMaterial::default() },
        None,
        CombinationOp::SmoothUnion { k: F_0_05 },
    );
    let ghost h0_1 = c0_1@;
    b0.push_shape(c0_1);
    let c0_2 = demo_shape(
        "Right Eye",
        SdfPrimitive::Sphere { radius: F_0_08 },
        [F_NEG_0_12, F_0_05, F_0_28],
        ShapeMaterial { color: [F_0_2, F_0_8, F_0_9], fresnel_power: F_3, roughness: F_0_1, ..ShapeMaterial::default() },
        None,
        CombinationOp::SmoothUnion { k: F_0_05 },
    );
    let ghost h0_2 = c0_2@;
    b0.push_shape(c0_2);
    let c0_3 = demo_shape(
        "Gem",
        SdfPrimitive::Octahedron { size: F_0_12 },
        [ZERO, F_0_3, ZERO],
        ShapeMaterial { color: [F_0_9, F_0_2, F_0_2], metallic: F_1, roughness: F_0_05, ..ShapeMaterial::default() },
        None,
        CombinationOp::SmoothUnion { k: F_0_02 },
    );
    let ghost h0_3 = c0_3@;
    b0.push_shape(c0_3);
    let ghost v0 = b0@;
    root.push_child(b0);
    let mut b1 = SdfBone::new("Left Arm");
    b1.transform.translation = [F_0_7, F_0_3, ZERO];
    let c1_0 = demo_shape(
        "Arm",
        SdfPrimitive::Capsule { radius: F_0_1, half_height: F_0_4 },
        [ZERO, ZERO, ZERO],
        ShapeMaterial { color: [F_0_55, F_0_55, F_0_6], metallic: F_0_5, roughness: F_0_4, ..ShapeMaterial::default() },
        None,
        CombinationOp::Union,
    );
    let ghost h1_0 = c1_0@;
    b1.push_shape(c1_0);
    let ghost v1 = b1@;
    root.push_child(b1);
    let mut b2 = SdfBone::new("Right Arm");
    b2.transform.translation = [F_NEG_0_7, F_0_3, ZERO];
    let c2_0 = demo_shape(
        "Arm",
        SdfPrimitive::Capsule { radius: F_0_1, half_height: F_0_4 },
        [ZERO, ZERO, ZERO],
        ShapeMaterial { color: [F_0_55, F_0_55, F_0_6], metallic: F_0_5, roughness: F_0_4, ..ShapeMaterial::default() },
        None,
        CombinationOp::Union,
    );
    let ghost h2_0 = c2_0@;
    b2.push_shape(c2_0);
    let ghost v2 = b2@;
    root.push_child(b2);
    let ghost rv = root@;
    proof {
        assert(rv.shapes =~= seq![g0, g1]);
        assert(rv.children =~= seq![v0, v1, v2]);
        assert(v0.shapes =~= seq![h0_0, h0_1, h0_2, h0_3]);
        assert(v1.shapes =~= seq![h1_0]);
        assert(v2.shapes =~= seq![h2_0]);
        assert(shape_built(rv.shapes[0], robot_friend_shapes()[0]));
        assert(shape_built(rv.shapes[1], robot_friend_shapes()[1]));
        assert(shape_built(v0.shapes[0], robot_friend_bones()[0].shapes[0]));
        assert(shape_built(v0.shapes[1], robot_friend_bones()[0].shapes[1]));
        assert(shape_built(v0.shapes[2], robot_friend_bones()[0].shapes[2]));
        assert(shape_built(v0.shapes[3], robot_friend_bones()[0].shapes[3]));
        assert(child_built(v0, robot_friend_bones()[0]));
        assert(shape_built(v1.shapes[0], robot_friend_bones()[1].shapes[0]));
        assert(child_built(v1, robot_friend_bones()[1]));
        assert(shape_built(v2.shapes[0], robot_friend_bones()[2].shapes[0]));
        assert(child_built(v2, robot_friend_bones()[2]));
    }
    SdfScene {
        name: String::from_str("Robot Friend"),
        root_bone: root,
        combination: CombinationOp::Union,
        light_dir: [F_0_5, F_0_8, F_0_5],
        settings: SceneSettings::default(),
    }
}

/// Shapes of the root bone of the Abstract Sculpture demo.
pub open spec fn abstract_sculpture_shapes() -> Seq<ShapeSpec> {
    Seq::empty()
}

/// Bones under the root of the Abstract Sculpture demo.
pub open spec fn abstract_sculpture_bones() -> Seq<BoneSpec> {
    seq![
        BoneSpec {
            name: "Form"@,
            translation: [ZERO, ZERO, ZERO],
            shapes: seq![
                ShapeSpec {
                    name: "Ring"@,
                    primitive: SdfPrimitive::Torus { major_radius: F_0_8, minor_radius: F_0_15 },
                    translation: [ZERO, ZERO, ZERO],
                    material: ShapeMaterial { color: [F_0_7, F_0_4, F_0_2], roughness: F_0_3, metallic: F_0_4, ..ShapeMaterial::default_spec() },
                    modifiers: Seq::empty(),
                    combination: CombinationOp::Union,
                },
                ShapeSpec {
                    name: "Crystal"@,
                    primitive: SdfPrimitive::Octahedron { size: F_0_6 },
                    translation: [ZERO, ZERO, ZERO],
                    material: ShapeMaterial { color: [F_0_3, F_0_5, F_0_8], roughness: F_0_15, metallic: F_0_7, fresnel_power: F_2, ..ShapeMaterial::default_spec() },
                    modifiers: Seq::empty(),
                    combination: CombinationOp::SmoothIntersection { k: F_0_15 },
                },
                ShapeSpec {
                    name: "Spire"@,
                    primitive: SdfPrimitive::Pyramid { height: F_1_2, base: F_0_4 },
                    translation: [ZERO, ZERO, ZERO],
                    material: ShapeMaterial { color: [F_0_5, F_0_3, F_0_6], roughness: F_0_5, ..ShapeMaterial::default_spec() },
                    modifiers: seq![ShapeModifier::Twist(F_2_5)],
                    combination: CombinationOp::SmoothUnion { k: F_0_2 },
                },
            ],
        },
    ]
}

/// The Abstract Sculpture demo's dramatic lighting.
pub open spec fn sculpture_settings() -> SceneSettings {
    SceneSettings {
        fill_color: [F_0_5, F_0_4, F_0_6],
        fill_intensity: F_0_3,
        back_color: [F_0_4, F_0_2, F_0_1],
        back_intensity: F_0_25,
        sss_color: [F_0_8, F_0_3, F_0_2],
        sss_intensity: F_0_2,
        ao_intensity: F_4,
        shadow_softness: F_12,
        vignette_intensity: F_0_4,
    }
}

/// The Abstract Sculpture demo scene.
pub fn abstract_sculpture() -> (r: SdfScene)
    ensures
        r@.name == "Abstract Sculpture"@,
        r@.combination == CombinationOp::Union,
        r@.light_dir == [F_0_4, F_0_7, F_0_6],
        r@.settings == sculpture_settings(),
        tree_built(r@.root_bone, abstract_sculpture_shapes(), abstract_sculpture_bones()),
{
    let mut root = SdfBone::root();
    let mut b0 = SdfBone::new("Form");
    let c0_0 = demo_shape(
        "Ring",
        SdfPrimitive::Torus { major_radius: F_0_8, minor_radius: F_0_15 },
        [ZERO, ZERO, ZERO],
        ShapeMaterial { color: [F_0_7, F_0_4, F_0_2], roughness: F_0_3, metallic: F_0_4, ..ShapeMaterial::default() },
        None,
        CombinationOp::Union,
    );
    let ghost h0_0 = c0_0@;
    b0.push_shape(c0_0);
    let c0_1 = demo_shape(
        "Crystal",
        SdfPrimitive::Octahedron { size: F_0_6 },
        [ZERO, ZERO, ZERO],
        ShapeMaterial { color: [F_0_3, F_0_5, F_0_8], roughness: F_0_15, metallic: F_0_7, fresnel_power: F_2, ..ShapeMaterial::default() },
        None,
        CombinationOp::SmoothIntersection { k: F_0_15 },
    );
    let ghost h0_1 = c0_1@;
    b0.push_shape(c0_1);
    let c0_2 = demo_shape(
        "Spire",
        SdfPrimitive::Pyramid { height: F_1_2, base: F_0_4 },
        [ZERO, ZERO, ZERO],
        ShapeMaterial { color: [F_0_5, F_0_3, F_0_6], roughness: F_0_5, ..ShapeMaterial::default() },
        Some(ShapeModifier::Twist(F_2_5)),
        CombinationOp::SmoothUnion { k: F_0_2 },
    );
    let ghost h0_2 = c0_2@;
    b0.push_shape(c0_2);
    let ghost v0 = b0@;
    root.push_child(b0);
    let ghost rv = root@;
    proof {
        assert(rv.shapes =~= Seq::<ShapeView>::empty());
        assert(rv.children =~= seq![v0]);
        assert(v0.shapes =~= seq![h0_0, h0_1, h0_2]);
        assert(shape_built(v0.shapes[0], abstract_sculpture_bones()[0].shapes[0]));
        assert(shape_built(v0.shapes[1], abstract_sculpture_bones()[0].shapes[1]));
        assert(shape_built(v0.shapes[2], abstract_sculpture_bones()[0].shapes[2]));
        assert(child_built(v0, abstract_sculpture_bones()[0]));
    }
    SdfScene {
        name: String::from_str("Abstract Sculpture"),
        root_bone: root,
        combination: CombinationOp::Union,
        light_dir: [F_0_4, F_0_7, F_0_6],
        settings: SceneSettings {
            fill_color: [F_0_5, F_0_4, F_0_6],
            fill_intensity: F_0_3,
            back_color: [F_0_4, F_0_2, F_0_1],
            back_intensity: F_0_25,
            sss_color: [F_0_8, F_0_3, F_0_2],
            sss_intensity: F_0_2,
            ao_intensity: F_4,
            shadow_softness: F_12,
            vignette_intensity: F_0_4,
        },
    }
}

/// Shapes of the Primitive Gallery demo: one of each primitive kind, in the editor's
/// order of kinds, each with its own size and colour, half rough, shape `i` at
/// `positions[i]`.
pub open spec fn gallery_shapes(positions: [[u32; 3]; 13]) -> Seq<ShapeSpec> {
    seq![
        ShapeSpec {
            name: "Sphere"@,
            primitive: SdfPrimitive::Sphere { radius: F_0_4 },
            translation: positions[0],
            material: ShapeMaterial { color: [F_0_9, F_0_3, F_0_3], roughness: HALF, ..ShapeMaterial::default_spec() },
            modifiers: Seq::empty(),
            combination: CombinationOp::Union,
        },
        ShapeSpec {
            name: "Box"@,
            primitive: SdfPrimitive::Box { half_extents: [F_0_35, F_0_35, F_0_35] },
            translation: positions[1],
            material: ShapeMaterial { color: [F_0_3, F_0_9, F_0_3], roughness: HALF, ..ShapeMaterial::default_spec() },
            modifiers: Seq::empty(),
            combination: CombinationOp::Union,
        },
        ShapeSpec {
            name: "RoundBox"@,
            primitive: SdfPrimitive::RoundBox { half_extents: [F_0_3, F_0_3, F_0_3], rounding: F_0_08 },
            translation: positions[2],
            material: ShapeMaterial { color: [F_0_3, F_0_3, F_0_9], roughness: HALF, ..ShapeMaterial::default_spec() },
            modifiers: Seq::empty(),
            combination: CombinationOp::Union,
        },
        ShapeSpec {
            name: "Cylinder"@,
            primitive: SdfPrimitive::Cylinder { height: F_0_4, radius: F_0_25 },
            translation: positions[3],
            material: ShapeMaterial { color: [F_0_9, F_0_9, F_0_3], roughness: HALF, ..ShapeMaterial::default_spec() },
            modifiers: Seq::empty(),
            combination: CombinationOp::Union,
        },
        ShapeSpec {
            name: "CappedCone"@,
            primitive: SdfPrimitive::CappedCone { height: F_0_5, r1: F_0_35, r2: F_0_1 },
            translation: positions[4],
            material: ShapeMaterial { color: [F_0_9, F_0_5, F_0_2], roughness: HALF, ..ShapeMaterial::default_spec() },
            modifiers: Seq::empty(),
            combination: CombinationOp::Union,
        },
        ShapeSpec {
            name: "Torus"@,
            primitive: SdfPrimitive::Torus { major_radius: F_0_35, minor_radius: F_0_1 },
            translation: positions[5],
            material: ShapeMaterial { color: [F_0_5, F_0_9, F_0_9], roughness: HALF, ..ShapeMaterial::default_spec() },
            modifiers: Seq::empty(),
            combination: CombinationOp::Union,
        },
        ShapeSpec {
            name: "Capsule"@,
            primitive: SdfPrimitive::Capsule { radius: F_0_15, half_height: F_0_3 },
            translation: positions[6],
            material: ShapeMaterial { color: [F_0_9, F_0_3, F_0_9], roughness: HALF, ..ShapeMaterial::default_spec() },
            modifiers: Seq::empty(),
            combination: CombinationOp::Union,
        },
        ShapeSpec {
            name: "Plane"@,
            primitive: SdfPrimitive::Plane { normal: [ZERO, F_1, ZERO], offset: ZERO },
            translation: positions[7],
            material: ShapeMaterial { color: [F_0_6, F_0_6, F_0_6], roughness: HALF, ..ShapeMaterial::default_spec() },
            modifiers: Seq::empty(),
            combination: CombinationOp::Union,
        },
        ShapeSpec {
            name: "Ellipsoid"@,
            primitive: SdfPrimitive::Ellipsoid { radii: [F_0_45, F_0_3, F_0_25] },
            translation: positions[8],
            material: ShapeMaterial { color: [F_0_4, F_0_7, F_0_4], roughness: HALF, ..ShapeMaterial::default_spec() },
            modifiers: Seq::empty(),
            combination: CombinationOp::Union,
        },
        ShapeSpec {
            name: "Octahedron"@,
            primitive: SdfPrimitive::Octahedron { size: F_0_4 },
            translation: positions[9],
            material: ShapeMaterial { color: [F_0_7, F_0_4, F_0_7], roughness: HALF, ..ShapeMaterial::default_spec() },
            modifiers: Seq::empty(),
            combination: CombinationOp::Union,
        },
        ShapeSpec {
            name: "Pyramid"@,
            primitive: SdfPrimitive::Pyramid { height: F_0_5, base: F_0_6 },
            translation: positions[10],
            material: ShapeMaterial { color: [F_0_8, F_0_6, F_0_3], roughness: HALF, ..ShapeMaterial::default_spec() },
            modifiers: Seq::empty(),
            combination: CombinationOp::Union,
        },
        ShapeSpec {
            name: "HexPrism"@,
            primitive: SdfPrimitive::HexPrism { height: F_0_35, radius: F_0_3 },
            translation: positions[11],
            material: ShapeMaterial { color: [F_0_3, F_0_6, F_0_8], roughness: HALF, ..ShapeMaterial::default_spec() },
            modifiers: Seq::empty(),
            combination: CombinationOp::Union,
        },
        ShapeSpec {
            name: "RoundCone"@,
            primitive: SdfPrimitive::RoundCone { r1: F_0_3, r2: F_0_1, height: F_0_5 },
            translation: positions[12],
            material: ShapeMaterial { color: [F_0_6, F_0_8, F_0_5], roughness: HALF, ..ShapeMaterial::default_spec() },
            modifiers: Seq::empty(),
            combination: CombinationOp::Union,
        },
    ]
}

/// The Primitive Gallery demo scene, its shapes at the given positions (the program
/// places them on a circle).
pub fn primitive_gallery(positions: [[u32; 3]; 13]) -> (r: SdfScene)
    ensures
        r@.name == "Primitive Gallery"@,
        r@.combination == CombinationOp::Union,
        r@.light_dir == default_light_dir(),
        r@.settings == SceneSettings::default_spec(),
        tree_built(r@.root_bone, gallery_shapes(positions), Seq::empty()),
        r@.root_bone.shapes.len() == 13,
        forall|i: int| 0 <= i < 13 ==> prim_index(#[trigger] r@.root_bone.shapes[i].primitive) == i,
{
    let mut root = SdfBone::root();
    let s0 = demo_shape(
        "Sphere",
        SdfPrimitive::Sphere { radius: F_0_4 },
        positions[0],
        ShapeMaterial { color: [F_0_9, F_0_3, F_0_3], roughness: HALF, ..ShapeMaterial::default() },
        None,
        CombinationOp::Union,
    );
    let ghost g0 = s0@;
    root.push_shape(s0);
    let s1 = demo_shape(
        "Box",
        SdfPrimitive::Box { half_extents: [F_0_35, F_0_35, F_0_35] },
        positions[1],
        ShapeMaterial { color: [F_0_3, F_0_9, F_0_3], roughness: HALF, ..ShapeMaterial::default() },
        None,
        CombinationOp::Union,
    );
    let ghost g1 = s1@;
    root.push_shape(s1);
    let s2 = demo_shape(
        "RoundBox",
        SdfPrimitive::RoundBox { half_extents: [F_0_3, F_0_3, F_0_3], rounding: F_0_08 },
        positions[2],
        ShapeMaterial { color: [F_0_3, F_0_3, F_0_9], roughness: HALF, ..ShapeMaterial::default() },
        None,
        CombinationOp::Union,
    );
    let ghost g2 = s2@;
    root.push_shape(s2);
    let s3 = demo_shape(
        "Cylinder",
        SdfPrimitive::Cylinder { height: F_0_4, radius: F_0_25 },
        positions[3],
        ShapeMaterial { color: [F_0_9, F_0_9, F_0_3], roughness: HALF, ..ShapeMaterial::default() },
        None,
        CombinationOp::Union,
    );
    let ghost g3 = s3@;
    root.push_shape(s3);
    let s4 = demo_shape(
        "CappedCone",
        SdfPrimitive::CappedCone { height: F_0_5, r1: F_0_35, r2: F_0_1 },
        positions[4],
        ShapeMaterial { color: [F_0_9, F_0_5, F_0_2], roughness: HALF, ..ShapeMaterial::default() },
        None,
        CombinationOp::Union,
    );
    let ghost g4 = s4@;
    root.push_shape(s4);
    let s5 = demo_shape(
        "Torus",
        SdfPrimitive::Torus { major_radius: F_0_35, minor_radius: F_0_1 },
        positions[5],
        ShapeMaterial { color: [F_0_5, F_0_9, F_0_9], roughness: HALF, ..ShapeMaterial::default() },
        None,
        CombinationOp::Union,
    );
    let ghost g5 = s5@;
    root.push_shape(s5);
    let s6 = demo_shape(
        "Capsule",
        SdfPrimitive::Capsule { radius: F_0_15, half_height: F_0_3 },
        positions[6],
        ShapeMaterial { color: [F_0_9, F_0_3, F_0_9], roughness: HALF, ..ShapeMaterial::default() },
        None,
        CombinationOp::Union,
    );
    let ghost g6 = s6@;
    root.push_shape(s6);
    let s7 = demo_shape(
        "Plane",
        SdfPrimitive::Plane { normal: [ZERO, F_1, ZERO], offset: ZERO },
        positions[7],
        ShapeMaterial { color: [F_0_6, F_0_6, F_0_6], roughness: HALF, ..ShapeMaterial::default() },
        None,
        CombinationOp::Union,
    );
    let ghost g7 = s7@;
    root.push_shape(s7);
    let s8 = demo_shape(
        "Ellipsoid",
        SdfPrimitive::Ellipsoid { radii: [F_0_45, F_0_3, F_0_25] },
        positions[8],
        ShapeMaterial { color: [F_0_4, F_0_7, F_0_4], roughness: HALF, ..ShapeMaterial::default() },
        None,
        CombinationOp::Union,
    );
    let ghost g8 = s8@;
    root.push_shape(s8);
    let s9 = demo_shape(
        "Octahedron",
        SdfPrimitive::Octahedron { size: F_0_4 },
        positions[9],
        ShapeMaterial { color: [F_0_7, F_0_4, F_0_7], roughness: HALF, ..ShapeMaterial::default() },
        None,
        CombinationOp::Union,
    );
    let ghost g9 = s9@;
    root.push_shape(s9);
    let s10 = demo_shape(
        "Pyramid",
        SdfPrimitive::Pyramid { height: F_0_5, base: F_0_6 },
        positions[10],
        ShapeMaterial { color: [F_0_8, F_0_6, F_0_3], roughness: HALF, ..ShapeMaterial::default() },
        None,
        CombinationOp::Union,
    );
    let ghost g10 = s10@;
    root.push_shape(s10);
    let s11 = demo_shape(
        "HexPrism",
        SdfPrimitive::HexPrism { height: F_0_35, radius: F_0_3 },
        positions[11],
        ShapeMaterial { color: [F_0_3, F_0_6, F_0_8], roughness: HALF, ..ShapeMaterial::default() },
        None,
        CombinationOp::Union,
    );
    let ghost g11 = s11@;
    root.push_shape(s11);
    let s12 = demo_shape(
        "RoundCone",
        SdfPrimitive::RoundCone { r1: F_0_3, r2: F_0_1, height: F_0_5 },
        positions[12],
        ShapeMaterial { color: [F_0_6, F_0_8, F_0_5], roughness: HALF, ..ShapeMaterial::default() },
        None,
        CombinationOp::Union,
    );
    let ghost g12 = s12@;
    root.push_shape(s12);
    let ghost rv = root@;
    proof {
        assert(rv.shapes =~= seq![g0, g1, g2, g3, g4, g5, g6, g7, g8, g9, g10, g11, g12]);
        assert(rv.children =~= Seq::<BoneView>::empty());
        assert(shape_built(rv.shapes[0], gallery_shapes(positions)[0]));
        assert(shape_built(rv.shapes[1], gallery_shapes(positions)[1]));
        assert(shape_built(rv.shapes[2], gallery_shapes(positions)[2]));
        assert(shape_built(rv.shapes[3], gallery_shapes(positions)[3]));
        assert(shape_built(rv.shapes[4], gallery_shapes(positions)[4]));
        assert(shape_built(rv.shapes[5], gallery_shapes(positions)[5]));
        assert(shape_built(rv.shapes[6], gallery_shapes(positions)[6]));
        assert(shape_built(rv.shapes[7], gallery_shapes(positions)[7]));
        assert(shape_built(rv.shapes[8], gallery_shapes(positions)[8]));
        assert(shape_built(rv.shapes[9], gallery_shapes(positions)[9]));
        assert(shape_built(rv.shapes[10], gallery_shapes(positions)[10]));
        assert(shape_built(rv.shapes[11], gallery_shapes(positions)[11]));
        assert(shape_built(rv.shapes[12], gallery_shapes(positions)[12]));
    }
    SdfScene {
        name: String::from_str("Primitive Gallery"),
        root_bone: root,
        combination: CombinationOp::Union,
        light_dir: [F_0_6, F_0_8, F_0_4],
        settings: SceneSettings::default(),
    }
}

/// Scene `s` is demo `d` (the gallery's shapes at `positions`): its name is the demo's
/// label, it is lit from `light` with `settings`, and its tree holds the demo's content.
pub open spec fn demo_built(d: DemoScene, positions: [[u32; 3]; 13], s: SceneView) -> bool {
    let (light, settings, shapes, bones) = match d {
        DemoScene::PrimitiveGallery => (default_light_dir(), SceneSettings::default_spec(), gallery_shapes(positions), Seq::empty()),
        DemoScene::BooleanSampler => ([F_0_6, F_0_8, F_0_4], SceneSettings::default_spec(), boolean_sampler_shapes(), boolean_sampler_bones()),
        DemoScene::ModifierParade => ([F_0_6, F_0_8, F_0_4], SceneSettings::default_spec(), modifier_parade_shapes(), modifier_parade_bones()),
        DemoScene::MushroomGarden => ([F_0_5, F_0_9, F_0_3], SceneSettings::default_spec(), mushroom_garden_shapes(), mushroom_garden_bones()),
        DemoScene::RobotFriend => ([F_0_5, F_0_8, F_0_5], SceneSettings::default_spec(), robot_friend_shapes(), robot_friend_bones()),
        DemoScene::AbstractSculpture => ([F_0_4, F_0_7, F_0_6], sculpture_settings(), abstract_sculpture_shapes(), abstract_sculpture_bones()),
    };
    &&& s.name == d.label_spec()
    &&& s.combination == CombinationOp::Union
    &&& s.light_dir == light
    &&& s.settings == settings
    &&& tree_built(s.root_bone, shapes, bones)
}

/// Bit pattern of `8.0`.
pub const F_8: u32 = 0x41000000;
/// Bit pattern of π.
pub const F_PI: u32 = 0x40490fdb;

/// A demo: its scene, and the animation graphs attached to its shapes and to its bones.
#[derive(Debug)]
pub struct DemoResult {
    pub scene: SdfScene,
    pub shape_graphs: Vec<(ShapeId, NodeGraph)>,
    pub bone_graphs: Vec<(BoneId, NodeGraph)>,
}

/// Graph `g` has the nodes `nodes` and the wires `wires`.
pub open spec fn graph_is(g: NodeGraph, nodes: Seq<PlacedNode>, wires: Seq<Wire>) -> bool {
    g.nodes@ == nodes && g.wires@ == wires
}

/// The graphs demo `d` attaches to the shapes and bones of its scene `s`: Robot Friend's
/// arms bob (the right arm half a turn after the left), Abstract Sculpture's form spins
/// and its ring cycles through colours; the other demos have none.
pub open spec fn demo_graphs(
    d: DemoScene,
    s: SceneView,
    shape_graphs: Seq<(ShapeId, NodeGraph)>,
    bone_graphs: Seq<(BoneId, NodeGraph)>,
) -> bool {
    match d {
        DemoScene::RobotFriend => {
            &&& shape_graphs.len() == 0
            &&& bone_graphs.len() == 2
            &&& bone_graphs[0].0 == s.root_bone.children[1].id
            &&& graph_is(bone_graphs[0].1, bob_nodes(F_0_15, F_0_8, ZERO, SdfNode::BoneOutput), bob_wires())
            &&& bone_graphs[1].0 == s.root_bone.children[2].id
            &&& graph_is(bone_graphs[1].1, bob_nodes(F_0_15, F_0_8, F_PI, SdfNode::BoneOutput), bob_wires())
        },
        DemoScene::AbstractSculpture => {
            &&& shape_graphs.len() == 1
            &&& shape_graphs[0].0 == s.root_bone.children[0].shapes[0].id
            &&& graph_is(shape_graphs[0].1, color_cycle_nodes(F_0_2), color_cycle_wires())
            &&& bone_graphs.len() == 1
            &&& bone_graphs[0].0 == s.root_bone.children[0].id
            &&& graph_is(bone_graphs[0].1, spin_nodes(F_8, SdfNode::BoneOutput), spin_wires())
        },
        _ => shape_graphs.len() == 0 && bone_graphs.len() == 0,
    }
}

/// A demo without animation graphs.
fn still(scene: SdfScene) -> (r: DemoResult)
    ensures
        r.scene == scene,
        r.shape_graphs@.len() == 0,
        r.bone_graphs@.len() == 0,
{
    DemoResult { scene, shape_graphs: Vec::new(), bone_graphs: Vec::new() }
}

/// A demo: its scene, with the gallery's shapes placed at `positions`, and the animation
/// graphs it attaches to its bones and shapes.
pub fn load_demo(demo: DemoScene, positions: [[u32; 3]; 13]) -> (r: DemoResult)
    ensures
        demo_built(demo, positions, r.scene@),
        demo_graphs(demo, r.scene@, r.shape_graphs@, r.bone_graphs@),
{
    match demo {
        DemoScene::PrimitiveGallery => still(primitive_gallery(positions)),
        DemoScene::BooleanSampler => still(boolean_sampler()),
        DemoScene::ModifierParade => still(modifier_parade()),
        DemoScene::MushroomGarden => still(mushroom_garden()),
        DemoScene::RobotFriend => {
            let scene = robot_friend();
            proof {
                lemma_bones_view(scene.root_bone.children@);
            }
            let left = scene.root_bone.children[1].id;
            let right = scene.root_bone.children[2].id;
            let bone_graphs = vec![
                (left, bone_bob_preset(F_0_15, F_0_8)),
                (right, bob_with(F_0_15, F_0_8, F_PI, SdfNode::BoneOutput)),
            ];
            DemoResult { scene, shape_graphs: Vec::new(), bone_graphs }
        },
        DemoScene::AbstractSculpture => {
            let scene = abstract_sculpture();
            proof {
                lemma_bones_view(scene.root_bone.children@);
                assert(child_built(scene@.root_bone.children[0], abstract_sculpture_bones()[0]));
            }
            let form = scene.root_bone.children[0].id;
            let ring = scene.root_bone.children[0].shapes[0].id;
            let shape_graphs = vec![(ring, color_cycle_preset(F_0_2))];
            let bone_graphs = vec![(form, bone_spin_preset(F_8))];
            DemoResult { scene, shape_graphs, bone_graphs }
        },
    }
}

} // verus!
