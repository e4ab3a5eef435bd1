//! Scenes: a named bone hierarchy with lighting and rendering settings.
use vstd::prelude::*;
use crate::bits::{float_eq, float3_eq, float_eq_spec, float3_eq_spec, ONE, HALF, ZERO, F_0_1, F_0_2, F_0_3, F_0_6, F_0_8};
use crate::bone::{SdfBone, BoneView, saturate, bone_view, lemma_bones_view};
use crate::shape::{CombinationOp, SdfPrimitive, SdfShape, ShapeView, ShapeTransform, ShapeMaterial};
use crate::bone::BonePhysicsProps;
use crate::ids::is_random_uuid;
use crate::text::{push_decimal, decimal};

verus! {

/// Bit pattern of `0.4`.
pub const F_0_4: u32 = 0x3ecc_cccd;
/// Bit pattern of `0.7`.
pub const F_0_7: u32 = 0x3f33_3333;
/// Bit pattern of `0.25`.
pub const F_0_25: u32 = 0x3e80_0000;
/// Bit pattern of `0.15`.
pub const F_0_15: u32 = 0x3e19_999a;
/// Bit pattern of `3.0`.
pub const F_3: u32 = 0x4040_0000;
/// Bit pattern of `8.0`.
pub const F_8: u32 = 0x4100_0000;

/// Lighting and post-processing parameters of a scene.
#[derive(Debug, Clone, Copy, PartialEq, Eq)]
pub struct SceneSettings {
    pub fill_color: [u32; 3],
    pub fill_intensity: u32,
    pub back_color: [u32; 3],
    pub back_intensity: u32,
    pub sss_color: [u32; 3],
    pub sss_intensity: u32,
    pub ao_intensity: u32,
    pub shadow_softness: u32,
    pub vignette_intensity: u32,
}

impl SceneSettings {
    /// Cool fill light, warm back light, reddish subsurface scattering.
    pub open spec fn default_spec() -> Self {
        SceneSettings {
            fill_color: [F_0_4, HALF, F_0_7],
            fill_intensity: F_0_25,
            back_color: [F_0_3, F_0_2, F_0_1],
            back_intensity: F_0_2,
            sss_color: [ONE, F_0_2, F_0_1],
            sss_intensity: F_0_15,
            ao_intensity: F_3,
            shadow_softness: F_8,
            vignette_intensity: F_0_3,
        }
    }

    /// The settings equal the defaults under `f32` equality.
    pub open spec fn is_default_spec(self) -> bool {
        let d = Self::default_spec();
        &&& float3_eq_spec(self.fill_color, d.fill_color)
        &&& float_eq_spec(self.fill_intensity, d.fill_intensity)
        &&& float3_eq_spec(self.back_color, d.back_color)
        &&& float_eq_spec(self.back_intensity, d.back_intensity)
        &&& float3_eq_spec(self.sss_color, d.sss_color)
        &&& float_eq_spec(self.sss_intensity, d.sss_intensity)
        &&& float_eq_spec(self.ao_intensity, d.ao_intensity)
        &&& float_eq_spec(self.shadow_softness, d.shadow_softness)
        &&& float_eq_spec(self.vignette_intensity, d.vignette_intensity)
    }

    /// Whether the settings equal the defaults.
    pub fn is_default(&self) -> (r: bool)
        ensures
            r == self.is_default_spec(),
    {
        float3_eq(self.fill_color, [F_0_4, HALF, F_0_7]) && float_eq(self.fill_intensity, F_0_25)
            && float3_eq(self.back_color, [F_0_3, F_0_2, F_0_1]) && float_eq(self.back_intensity, F_0_2)
            && float3_eq(self.sss_color, [ONE, F_0_2, F_0_1]) && float_eq(self.sss_intensity, F_0_15)
            && float_eq(self.ao_intensity, F_3) && float_eq(self.shadow_softness, F_8)
            && float_eq(self.vignette_intensity, F_0_3)
    }
}

impl Default for SceneSettings {
    fn default() -> (r: Self)
        ensures
            r == Self::default_spec(),
    {
        SceneSettings {
            fill_color: [F_0_4, HALF, F_0_7],
            fill_intensity: F_0_25,
            back_color: [F_0_3, F_0_2, F_0_1],
            back_intensity: F_0_2,
            sss_color: [ONE, F_0_2, F_0_1],
            sss_intensity: F_0_15,
            ao_intensity: F_3,
            shadow_softness: F_8,
            vignette_intensity: F_0_3,
        }
    }
}

/// Default light direction `[0.6, 0.8, 0.4]`.
pub open spec fn default_light_dir() -> [u32; 3] {
    [F_0_6, F_0_8, F_0_4]
}

/// Abstract value of a scene.
pub struct SceneView {
    pub name: Seq<char>,
    pub root_bone: BoneView,
    pub combination: CombinationOp,
    pub light_dir: [u32; 3],
    pub settings: SceneSettings,
}

/// A scene: a root bone with its hierarchy, the scene-level combination, light and settings.
#[derive(Debug)]
pub struct SdfScene {
    pub name: String,
    pub root_bone: SdfBone,
    pub combination: CombinationOp,
    pub light_dir: [u32; 3],
    pub settings: SceneSettings,
}

impl View for SdfScene {
    type V = SceneView;

    open spec fn view(&self) -> SceneView {
        SceneView {
            name: self.name@,
            root_bone: self.root_bone@,
            combination: self.combination,
            light_dir: self.light_dir,
            settings: self.settings,
        }
    }
}

/// Summary of a scene: its name and how many bones (below the root) and shapes it holds.
#[derive(Debug, Clone)]
pub struct SceneInfo {
    pub name: String,
    pub bone_count: usize,
    pub shape_count: usize,
}

impl SceneInfo {
    /// `"<name>: <n> bones, <m> shapes"`.
    pub open spec fn text(name: Seq<char>, bones: nat, shapes: nat) -> Seq<char> {
        name + ": "@ + decimal(bones) + " bones, "@ + decimal(shapes) + " shapes"@
    }

    /// The summary as one line of text.
    pub fn to_string(&self) -> (r: String)
        ensures
            r@ == Self::text(self.name@, self.bone_count as nat, self.shape_count as nat),
    {
        let mut out = self.name.clone();
        out.append(": ");
        push_decimal(&mut out, self.bone_count as u64);
        out.append(" bones, ");
        push_decimal(&mut out, self.shape_count as u64);
        out.append(" shapes");
        out
    }
}

impl SdfScene {
    /// An empty scene: a root bone only, union combination, default light and settings.
    pub fn new(name: &str) -> (r: Self)
        ensures
            r@.name == name@,
            r@.root_bone.id.0 == 0,
            r@.root_bone.name == "Root"@,
            r@.root_bone.children.len() == 0,
            r@.root_bone.shapes.len() == 0,
            r@.root_bone.visible,
            r@.root_bone.transform == crate::shape::ShapeTransform::default_spec(),
            r@.root_bone.physics == crate::bone::BonePhysicsProps::default_spec(),
            r@.combination == CombinationOp::Union,
            r@.light_dir == default_light_dir(),
            r@.settings == SceneSettings::default_spec(),
    {
        SdfScene {
            name: String::from_str(name),
            root_bone: SdfBone::root(),
            combination: CombinationOp::Union,
            light_dir: [F_0_6, F_0_8, F_0_4],
            settings: SceneSettings::default(),
        }
    }

    /// An exact copy of the scene.
    pub fn copy(&self) -> (r: Self)
        ensures
            r@ == self@,
    {
        SdfScene {
            name: self.name.clone(),
            root_bone: self.root_bone.copy(),
            combination: self.combination,
            light_dir: self.light_dir,
            settings: self.settings,
        }
    }

    /// Name, number of bones below the root and number of shapes.
    pub fn info(&self) -> (r: SceneInfo)
        ensures
            r.name@ == self@.name,
            r.bone_count == saturate(self@.root_bone.size() - 1),
            r.shape_count == saturate(self@.root_bone.shape_total() as int),
    {
        SceneInfo {
            name: self.name.clone(),
            bone_count: self.root_bone.bone_count(),
            shape_count: self.root_bone.shape_count(),
        }
    }
}


/// Branch drawn before an entry of the tree: a corner for the last entry, a tee otherwise.
pub open spec fn branch(last: bool) -> Seq<char> {
    if last {
        "\u{2514}\u{2500}\u{2500} "@
    } else {
        "\u{251c}\u{2500}\u{2500} "@
    }
}

/// Prefix of the entries below a bone line.
pub open spec fn child_prefix(prefix: Seq<char>, is_last: bool, is_root: bool) -> Seq<char> {
    if is_root {
        Seq::empty()
    } else if is_last {
        prefix + "    "@
    } else {
        prefix + "\u{2502}   "@
    }
}

/// One line for a shape: `(<kind>) <name>`.
pub open spec fn shape_line(prefix: Seq<char>, s: ShapeView, last: bool) -> Seq<char> {
    prefix + branch(last) + "("@ + s.primitive.label_spec() + ") "@ + s.name + "\n"@
}

/// Lines for the shapes `s`; `more` tells whether further entries follow them.
pub open spec fn render_shapes(s: Seq<ShapeView>, prefix: Seq<char>, more: bool) -> Seq<char>
    decreases s.len(),
{
    if s.len() == 0 {
        Seq::empty()
    } else {
        render_shapes(s.drop_last(), prefix, true) + shape_line(prefix, s.last(), !more)
    }
}

/// Lines for a bone: `[Bone] <name>`, then its shapes, then its children's subtrees.
pub open spec fn render_bone(b: BoneView, prefix: Seq<char>, is_last: bool, is_root: bool) -> Seq<char>
    decreases b, 1int,
{
    let head = if is_root {
        "[Bone] "@ + b.name + "\n"@
    } else {
        prefix + branch(is_last) + "[Bone] "@ + b.name + "\n"@
    };
    let cp = child_prefix(prefix, is_last, is_root);
    head + render_shapes(b.shapes, cp, b.children.len() > 0) + render_children(b.children, cp, false)
}

/// Lines for the subtrees `cs`; `more` tells whether further entries follow them.
pub open spec fn render_children(cs: Seq<BoneView>, prefix: Seq<char>, more: bool) -> Seq<char>
    decreases cs, 0int,
{
    if cs.len() == 0 {
        Seq::empty()
    } else {
        render_children(cs.drop_last(), prefix, true) + render_bone(cs.last(), prefix, !more, false)
    }
}

/// Text of the scene's hierarchy: a title line, then the root bone and everything below it.
pub open spec fn tree_text(s: SceneView) -> Seq<char> {
    "Scene: "@ + s.name + "\n"@ + render_bone(s.root_bone, Seq::empty(), true, true)
}

fn branch_str(last: bool) -> (r: &'static str)
    ensures
        r@ == branch(last),
{
    if last {
        "\u{2514}\u{2500}\u{2500} "
    } else {
        "\u{251c}\u{2500}\u{2500} "
    }
}

fn push_shape_line(out: &mut String, prefix: &str, shape: &SdfShape, last: bool)
    ensures
        final(out)@ == old(out)@ + shape_line(prefix@, shape@, last),
{
    out.append(prefix);
    out.append(branch_str(last));
    out.append("(");
    out.append(shape.primitive.label());
    out.append(") ");
    out.append(shape.name.as_str());
    out.append("\n");
    assert(out@ =~= old(out)@ + shape_line(prefix@, shape@, last));
}

fn push_head(out: &mut String, prefix: &str, name: &String, is_last: bool, is_root: bool)
    ensures
        final(out)@ == old(out)@ + (if is_root {
            "[Bone] "@ + name@ + "\n"@
        } else {
            prefix@ + branch(is_last) + "[Bone] "@ + name@ + "\n"@
        }),
{
    if !is_root {
        out.append(prefix);
        out.append(branch_str(is_last));
    }
    out.append("[Bone] ");
    out.append(name.as_str());
    out.append("\n");
    if is_root {
        assert(out@ =~= old(out)@ + ("[Bone] "@ + name@ + "\n"@));
    } else {
        assert(out@ =~= old(out)@ + (prefix@ + branch(is_last) + "[Bone] "@ + name@ + "\n"@));
    }
}

fn make_child_prefix(prefix: &str, is_last: bool, is_root: bool) -> (r: String)
    ensures
        r@ == child_prefix(prefix@, is_last, is_root),
{
    let mut cp = String::new();
    if !is_root {
        cp.append(prefix);
        if is_last {
            cp.append("    ");
        } else {
            cp.append("\u{2502}   ");
        }
    }
    assert(cp@ =~= child_prefix(prefix@, is_last, is_root));
    cp
}

fn tree_bone(bone: &SdfBone, out: &mut String, prefix: &str, is_last: bool, is_root: bool)
    ensures
        final(out)@ == old(out)@ + render_bone(bone@, prefix@, is_last, is_root),
    decreases bone,
{
    let ghost start = out@;
    push_head(out, prefix, &bone.name, is_last, is_root);
    let ghost after_head = out@;
    let cp = make_child_prefix(prefix, is_last, is_root);
    proof { lemma_bones_view(bone.children@); }
    let ns = bone.shapes.len();
    let nc = bone.children.len();
    let mut i: usize = 0;
    while i < ns
        invariant
            ns == bone.shapes@.len(),
            nc == bone.children@.len(),
            bone@.shapes.len() == ns,
            bone@.children.len() == nc,
            i <= ns,
            out@ == after_head + render_shapes(bone@.shapes.take(i as int), cp@, i < ns || nc > 0),
        decreases ns - i,
    {
        let last = i + 1 == ns && nc == 0;
        let ghost before = out@;
        push_shape_line(out, cp.as_str(), &bone.shapes[i], last);
        proof {
            let t = bone@.shapes.take(i + 1);
            assert(t.drop_last() =~= bone@.shapes.take(i as int));
            assert(t.last() == bone@.shapes[i as int]);
            assert(render_shapes(t, cp@, i + 1 < ns || nc > 0)
                == render_shapes(bone@.shapes.take(i as int), cp@, true) + shape_line(cp@, bone@.shapes[i as int], last));
            assert(out@ =~= after_head + render_shapes(t, cp@, i + 1 < ns || nc > 0));
        }
        i += 1;
    }
    assert(bone@.shapes.take(ns as int) =~= bone@.shapes);
    let ghost after_shapes = out@;
    let mut k: usize = 0;
    while k < nc
        invariant
            nc == bone.children@.len(),
            bone@.children.len() == nc,
            k <= nc,
            forall|j: int| 0 <= j < nc ==> #[trigger] bone@.children[j] == bone_view(bone.children@[j]),
            out@ == after_shapes + render_children(bone@.children.take(k as int), cp@, k < nc),
        decreases nc - k,
    {
        let last = k + 1 == nc;
        tree_bone(&bone.children[k], out, cp.as_str(), last, false);
        proof {
            let t = bone@.children.take(k + 1);
            assert(t.drop_last() =~= bone@.children.take(k as int));
            assert(t.last() == bone@.children[k as int]);
            assert(render_children(t, cp@, k + 1 < nc)
                == render_children(bone@.children.take(k as int), cp@, true) + render_bone(bone@.children[k as int], cp@, last, false));
            assert(out@ =~= after_shapes + render_children(t, cp@, k + 1 < nc));
        }
        k += 1;
    }
    assert(bone@.children.take(nc as int) =~= bone@.children);
    assert(out@ =~= start + render_bone(bone@, prefix@, is_last, is_root));
}

impl SdfScene {
    /// Text rendering of the hierarchy, one line per bone and shape.
    pub fn tree_string(&self) -> (r: String)
        ensures
            r@ == tree_text(self@),
    {
        let mut out = String::new();
        out.append("Scene: ");
        out.append(self.name.as_str());
        out.append("\n");
        tree_bone(&self.root_bone, &mut out, "", true, true);
        proof { reveal_strlit(""); }
        out
    }
}


/// Bit pattern of `1.2`.
pub const F_1_2: u32 = 0x3f99_999a;
/// Bit pattern of `0.85`.
pub const F_0_85: u32 = 0x3f59_999a;
/// Bit pattern of `0.05`.
pub const F_0_05: u32 = 0x3d4c_cccd;
/// Bit pattern of `1.1`.
pub const F_1_1: u32 = 0x3f8c_cccd;
/// Bit pattern of `0.35`.
pub const F_0_35: u32 = 0x3eb3_3333;
/// Bit pattern of `0.9`.
pub const F_0_9: u32 = 0x3f66_6666;
/// Bit pattern of `0.55`.
pub const F_0_55: u32 = 0x3f0c_cccd;
/// Bit pattern of `0.02`.
pub const F_0_02: u32 = 0x3ca3_d70a;
/// Bit pattern of `0.04`.
pub const F_0_04: u32 = 0x3d23_d70a;
/// Bit pattern of `0.08`.
pub const F_0_08: u32 = 0x3da3_d70a;
/// Bit pattern of `0.28`.
pub const F_0_28: u32 = 0x3e8f_5c29;
/// Bit pattern of `0.07`.
pub const F_0_07: u32 = 0x3d8f_5c29;
/// Bit pattern of `1.8`.
pub const F_1_8: u32 = 0x3fe6_6666;
/// Bit pattern of `2.5`.
pub const F_2_5: u32 = 0x4020_0000;
/// Bit pattern of `2.0`.
pub const F_2: u32 = 0x4000_0000;
/// Bit pattern of `4.0`.
pub const F_4: u32 = 0x4080_0000;
/// Bit pattern of `5.0`.
pub const F_5: u32 = 0x40a0_0000;
/// Bit pattern of `-0.1`.
pub const F_NEG_0_1: u32 = 0xbdcc_cccd;

/// `b` is a visible bone named `name` with translation `t` and otherwise default
/// transform and physics, whatever its identifier, shapes and children.
pub open spec fn plain_bone(b: BoneView, name: Seq<char>, t: [u32; 3]) -> bool {
    b == (BoneView {
        id: b.id,
        name,
        transform: ShapeTransform { translation: t, ..ShapeTransform::default_spec() },
        visible: true,
        physics: BonePhysicsProps::default_spec(),
        children: b.children,
        shapes: b.shapes,
    })
}

/// A visible shape with a fresh identifier, no modifiers, the given name, primitive,
/// translation, material and combination.
pub open spec fn placed_shape(
    s: ShapeView,
    name: Seq<char>,
    primitive: SdfPrimitive,
    t: [u32; 3],
    material: ShapeMaterial,
    combination: CombinationOp,
) -> bool {
    &&& is_random_uuid(s.id.0)
    &&& s == (ShapeView {
        id: s.id,
        name,
        primitive,
        visible: true,
        transform: ShapeTransform { translation: t, ..ShapeTransform::default_spec() },
        material,
        modifiers: Seq::empty(),
        combination,
    })
}

/// The island of the start-up scene: a noisy rock with a grass mound, carrying a tree
/// (trunk and canopy) and an orbiting ring.
pub open spec fn island_view(b: BoneView) -> bool {
    let d = ShapeMaterial::default_spec();
    let z = [ZERO, ZERO, ZERO];
    &&& plain_bone(b, "Island"@, z)
    &&& is_random_uuid(b.id.0)
    &&& b.shapes.len() == 2
    &&& placed_shape(b.shapes[0], "Rock"@, SdfPrimitive::RoundBox { half_extents: [F_1_2, HALF, ONE], rounding: F_0_2 }, z,
        ShapeMaterial { color: [HALF, F_0_4, F_0_3], roughness: F_0_85, noise_amplitude: F_0_05, noise_frequency: F_3,
            noise_octaves: 2, color_mode: 2, ..d }, CombinationOp::Union)
    &&& placed_shape(b.shapes[1], "Grass"@, SdfPrimitive::Ellipsoid { radii: [F_1_1, F_0_35, F_0_9] }, [ZERO, F_0_35, ZERO],
        ShapeMaterial { color: [F_0_25, F_0_55, F_0_2], roughness: F_0_7, noise_amplitude: F_0_02, noise_frequency: F_5,
            noise_octaves: 2, ..d }, CombinationOp::SmoothUnion { k: F_0_35 })
    &&& b.children.len() == 2
    &&& plain_bone(b.children[0], "Tree"@, [F_0_3, F_0_7, F_NEG_0_1])
    &&& is_random_uuid(b.children[0].id.0)
    &&& b.children[0].children.len() == 0
    &&& b.children[0].shapes.len() == 2
    &&& placed_shape(b.children[0].shapes[0], "Trunk"@, SdfPrimitive::Capsule { radius: F_0_08, half_height: HALF }, z,
        ShapeMaterial { color: [F_0_4, F_0_28, F_0_15], roughness: F_0_9, color_mode: 2, noise_frequency: F_8, ..d },
        CombinationOp::Union)
    &&& placed_shape(b.children[0].shapes[1], "Canopy"@, SdfPrimitive::Sphere { radius: HALF }, [ZERO, F_0_7, ZERO],
        ShapeMaterial { color: [F_0_2, HALF, F_0_15], roughness: F_0_6, noise_amplitude: F_0_04, noise_frequency: F_4,
            noise_octaves: 2, ..d }, CombinationOp::SmoothUnion { k: F_0_15 })
    &&& plain_bone(b.children[1], "Orbiter"@, [F_1_8, F_0_8, ZERO])
    &&& is_random_uuid(b.children[1].id.0)
    &&& b.children[1].children.len() == 0
    &&& b.children[1].shapes.len() == 1
    &&& placed_shape(b.children[1].shapes[0], "Ring"@, SdfPrimitive::Torus { major_radius: F_0_3, minor_radius: F_0_07 }, z,
        ShapeMaterial { color: [F_0_3, HALF, F_0_9], roughness: F_0_15, metallic: F_0_8, fresnel_power: F_2_5, ..d },
        CombinationOp::Union)
}

impl SdfScene {
    /// The start-up scene "Floating Islands": an island bone (rock and grass) carrying a
    /// tree bone (trunk and canopy) and an orbiter bone (ring).
    pub fn default_scene() -> (r: Self)
        ensures
            r@.name == "Floating Islands"@,
            r@.combination == CombinationOp::Union,
            r@.light_dir == default_light_dir(),
            r@.settings == SceneSettings::default_spec(),
            plain_bone(r@.root_bone, "Root"@, [ZERO, ZERO, ZERO]),
            r@.root_bone.id.0 == 0,
            r@.root_bone.shapes.len() == 0,
            r@.root_bone.children.len() == 1,
            island_view(r@.root_bone.children[0]),
    {
        let mut root = SdfBone::root();
        let mut island = SdfBone::new("Island");

        let mut rock = SdfShape::new("Rock", SdfPrimitive::RoundBox { half_extents: [F_1_2, HALF, ONE], rounding: F_0_2 });
        rock.material.color = [HALF, F_0_4, F_0_3];
        rock.material.roughness = F_0_85;
        rock.material.noise_amplitude = F_0_05;
        rock.material.noise_frequency = F_3;
        rock.material.noise_octaves = 2;
        rock.material.color_mode = 2;
        let ghost rock_v = rock@;
        island.push_shape(rock);

        let mut grass = SdfShape::new("Grass", SdfPrimitive::Ellipsoid { radii: [F_1_1, F_0_35, F_0_9] });
        grass.transform.translation = [ZERO, F_0_35, ZERO];
        grass.material.color = [F_0_25, F_0_55, F_0_2];
        grass.material.roughness = F_0_7;
        grass.material.noise_amplitude = F_0_02;
        grass.material.noise_frequency = F_5;
        grass.material.noise_octaves = 2;
        grass.combination = CombinationOp::SmoothUnion { k: F_0_35 };
        let ghost grass_v = grass@;
        island.push_shape(grass);

        let mut tree = SdfBone::new("Tree");
        tree.transform.translation = [F_0_3, F_0_7, F_NEG_0_1];
        let mut trunk = SdfShape::new("Trunk", SdfPrimitive::Capsule { radius: F_0_08, half_height: HALF });
        trunk.material.color = [F_0_4, F_0_28, F_0_15];
        trunk.material.roughness = F_0_9;
        trunk.material.color_mode = 2;
        trunk.material.noise_frequency = F_8;
        let ghost trunk_v = trunk@;
        tree.push_shape(trunk);
        let mut canopy = SdfShape::new("Canopy", SdfPrimitive::Sphere { radius: HALF });
        canopy.transform.translation = [ZERO, F_0_7, ZERO];
        canopy.material.color = [F_0_2, HALF, F_0_15];
        canopy.material.roughness = F_0_6;
        canopy.material.noise_amplitude = F_0_04;
        canopy.material.noise_frequency = F_4;
        canopy.material.noise_octaves = 2;
        canopy.combination = CombinationOp::SmoothUnion { k: F_0_15 };
        let ghost canopy_v = canopy@;
        tree.push_shape(canopy);
        let ghost tree_v = tree@;
        island.push_child(tree);

        let mut orbiter = SdfBone::new("Orbiter");
        orbiter.transform.translation = [F_1_8, F_0_8, ZERO];
        let mut ring = SdfShape::new("Ring", SdfPrimitive::Torus { major_radius: F_0_3, minor_radius: F_0_07 });
        ring.material.color = [F_0_3, HALF, F_0_9];
        ring.material.roughness = F_0_15;
        ring.material.metallic = F_0_8;
        ring.material.fresnel_power = F_2_5;
        let ghost ring_v = ring@;
        orbiter.push_shape(ring);
        let ghost orbiter_v = orbiter@;
        island.push_child(orbiter);
        let ghost island_v = island@;
        proof {
            let d = ShapeMaterial::default_spec();
            let z = [ZERO, ZERO, ZERO];
            assert(island_v.shapes =~= seq![rock_v, grass_v]);
            assert(island_v.children =~= seq![tree_v, orbiter_v]);
            assert(tree_v.shapes =~= seq![trunk_v, canopy_v]);
            assert(orbiter_v.shapes =~= seq![ring_v]);
            assert(placed_shape(rock_v, "Rock"@, SdfPrimitive::RoundBox { half_extents: [F_1_2, HALF, ONE], rounding: F_0_2 }, z,
                ShapeMaterial { color: [HALF, F_0_4, F_0_3], roughness: F_0_85, noise_amplitude: F_0_05, noise_frequency: F_3,
                    noise_octaves: 2, color_mode: 2, ..d }, CombinationOp::Union));
            assert(plain_bone(tree_v, "Tree"@, [F_0_3, F_0_7, F_NEG_0_1]));
            assert(plain_bone(island_v, "Island"@, z));
            assert(island_view(island_v));
        }
        root.push_child(island);

        SdfScene {
            name: String::from_str("Floating Islands"),
            root_bone: root,
            combination: CombinationOp::Union,
            light_dir: [F_0_6, F_0_8, F_0_4],
            settings: SceneSettings::default(),
        }
    }
}

} // verus!
