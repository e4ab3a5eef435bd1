//! Flattening the bone tree into the ordered list of shapes the shader evaluates, and
//! the topology fingerprint used to notice when the shader must be rebuilt.
use vstd::prelude::*;
use std::collections::hash_map::DefaultHasher;
use std::hash::Hasher;
use vstd::std_specs::hash::DefaultHasherAdditionalSpecFns;
use crate::bits::ZERO;
use crate::bone::{SdfBone, BoneView, lemma_bones_view};
use crate::encode::{
    prim_index, prim_params_spec, combo_index, combo_k, modifier_flags, modifier_scalar, modifier_vector,
    prim_type_encode, prim_params_encode, combo_op_encode, encode_modifier_flags, get_modifier_f32,
    get_modifier_vec3,
};
use crate::ids::BoneId;
use crate::scene::{SdfScene, SceneView};
use crate::shape::{SdfShape, ShapeTransform, ShapeView};

verus! {

/// A visible shape ready for the shader, with every number encoded.  Its placement in
/// the world is the world transform of bone `bone` composed with `local`.
#[derive(Debug, Clone, Copy, PartialEq, Eq)]
pub struct FlatShape {
    pub bone: BoneId,
    pub local: ShapeTransform,
    pub primitive_type: u32,
    pub params: [u32; 4],
    pub combination_op: u32,
    pub smooth_k: u32,
    pub color: [u32; 3],
    pub roughness: u32,
    pub metallic: u32,
    pub fresnel_power: u32,
    pub color_mode: u32,
    pub palette_a: [u32; 3],
    pub palette_b: [u32; 3],
    pub palette_c: [u32; 3],
    pub palette_d: [u32; 3],
    pub modifier_flags: u32,
    pub rounding: u32,
    pub onion_thickness: u32,
    pub twist_amount: u32,
    pub bend_amount: u32,
    pub elongation: [u32; 3],
    pub rep_period: [u32; 3],
    pub noise_amplitude: u32,
    pub noise_frequency: u32,
    pub noise_octaves: u32,
    pub smooth_symmetry: u32,
}

/// Encoding of shape `s` held by bone `bone`.  The first shape of the list is never
/// combined with anything, so it gets operation 0 and radius 0.
pub open spec fn flat_code(s: ShapeView, bone: BoneId, first: bool) -> FlatShape {
    FlatShape {
        bone,
        local: s.transform,
        primitive_type: prim_index(s.primitive) as u32,
        params: prim_params_spec(s.primitive),
        combination_op: if first { 0 } else { combo_index(s.combination) as u32 },
        smooth_k: if first { ZERO } else { combo_k(s.combination) },
        color: s.material.color,
        roughness: s.material.roughness,
        metallic: s.material.metallic,
        fresnel_power: s.material.fresnel_power,
        color_mode: s.material.color_mode,
        palette_a: s.material.palette_a,
        palette_b: s.material.palette_b,
        palette_c: s.material.palette_c,
        palette_d: s.material.palette_d,
        modifier_flags: modifier_flags(s.modifiers),
        rounding: modifier_scalar(s.modifiers, 0),
        onion_thickness: modifier_scalar(s.modifiers, 1),
        twist_amount: modifier_scalar(s.modifiers, 2),
        bend_amount: modifier_scalar(s.modifiers, 3),
        elongation: modifier_vector(s.modifiers, 4),
        rep_period: modifier_vector(s.modifiers, 5),
        noise_amplitude: s.material.noise_amplitude,
        noise_frequency: s.material.noise_frequency,
        noise_octaves: s.material.noise_octaves,
        smooth_symmetry: s.material.smooth_symmetry,
    }
}

/// The visible shapes among `ss`, in order, each paired with `bone`.
pub open spec fn visible_own(ss: Seq<ShapeView>, bone: BoneId) -> Seq<(ShapeView, BoneId)>
    decreases ss.len(),
{
    if ss.len() == 0 {
        Seq::empty()
    } else if ss.last().visible {
        visible_own(ss.drop_last(), bone).push((ss.last(), bone))
    } else {
        visible_own(ss.drop_last(), bone)
    }
}

/// The shapes the shader draws for a subtree: nothing below a hidden bone; otherwise
/// the bone's visible shapes in order, then those of its children's subtrees in order.
pub open spec fn visible_shapes(b: BoneView) -> Seq<(ShapeView, BoneId)>
    decreases b, 1int,
{
    if !b.visible {
        Seq::empty()
    } else {
        visible_own(b.shapes, b.id) + visible_shapes_in(b.children)
    }
}

/// `visible_shapes` of the subtrees `cs`, concatenated.
pub open spec fn visible_shapes_in(cs: Seq<BoneView>) -> Seq<(ShapeView, BoneId)>
    decreases cs, 0int,
{
    if cs.len() == 0 {
        Seq::empty()
    } else {
        visible_shapes_in(cs.drop_last()) + visible_shapes(cs.last())
    }
}

/// Encodings of the listed shapes when `start` shapes precede them in the output.
pub open spec fn codes(l: Seq<(ShapeView, BoneId)>, start: nat) -> Seq<FlatShape> {
    Seq::new(l.len(), |i: int| flat_code(l[i].0, l[i].1, start + i == 0))
}

/// Encoding of one shape.
pub fn flat_shape_of(s: &SdfShape, bone: BoneId, first: bool) -> (r: FlatShape)
    ensures
        r == flat_code(s@, bone, first),
{
    let (op, k) = combo_op_encode(&s.combination);
    let mods = s.modifiers.as_slice();
    FlatShape {
        bone,
        local: s.transform,
        primitive_type: prim_type_encode(&s.primitive),
        params: prim_params_encode(&s.primitive),
        combination_op: if first { 0 } else { op },
        smooth_k: if first { ZERO } else { k },
        color: s.material.color,
        roughness: s.material.roughness,
        metallic: s.material.metallic,
        fresnel_power: s.material.fresnel_power,
        color_mode: s.material.color_mode,
        palette_a: s.material.palette_a,
        palette_b: s.material.palette_b,
        palette_c: s.material.palette_c,
        palette_d: s.material.palette_d,
        modifier_flags: encode_modifier_flags(mods),
        rounding: get_modifier_f32(mods, 0),
        onion_thickness: get_modifier_f32(mods, 1),
        twist_amount: get_modifier_f32(mods, 2),
        bend_amount: get_modifier_f32(mods, 3),
        elongation: get_modifier_vec3(mods, 4),
        rep_period: get_modifier_vec3(mods, 5),
        noise_amplitude: s.material.noise_amplitude,
        noise_frequency: s.material.noise_frequency,
        noise_octaves: s.material.noise_octaves,
        smooth_symmetry: s.material.smooth_symmetry,
    }
}

/// Append the encodings of the shapes the shader draws for this subtree.
pub fn flatten_bone_tree(bone: &SdfBone, output: &mut Vec<FlatShape>)
    ensures
        final(output)@ == old(output)@ + codes(visible_shapes(bone@), old(output)@.len()),
    decreases bone,
{
    let ghost start = old(output)@.len();
    let ghost base = old(output)@;
    if !bone.visible {
        assert(codes(visible_shapes(bone@), start) =~= Seq::<FlatShape>::empty());
        assert(output@ =~= base + codes(visible_shapes(bone@), start));
        return;
    }
    let ns = bone.shapes.len();
    let mut i: usize = 0;
    while i < ns
        invariant
            ns == bone.shapes@.len(),
            bone@.shapes.len() == ns,
            i <= ns,
            start == base.len(),
            output@ == base + codes(visible_own(bone@.shapes.take(i as int), bone@.id), start),
        decreases ns - i,
    {
        let s = &bone.shapes[i];
        let ghost l = visible_own(bone@.shapes.take(i as int), bone@.id);
        proof {
            assert(bone@.shapes.take(i + 1).drop_last() =~= bone@.shapes.take(i as int));
            assert(bone@.shapes.take(i + 1).last() == bone@.shapes[i as int]);
        }
        if s.visible {
            let first = output.len() == 0;
            let f = flat_shape_of(s, bone.id, first);
            output.push(f);
            proof {
                let l2 = visible_own(bone@.shapes.take(i + 1), bone@.id);
                assert(l2 == l.push((bone@.shapes[i as int], bone@.id)));
                assert(codes(l2, start) =~= codes(l, start).push(f));
                assert(output@ =~= base + codes(l2, start));
            }
        }
        i += 1;
    }
    assert(bone@.shapes.take(ns as int) =~= bone@.shapes);
    let ghost own = visible_own(bone@.shapes, bone@.id);
    proof { lemma_bones_view(bone.children@); }
    let nc = bone.children.len();
    let mut k: usize = 0;
    while k < nc
        invariant
            nc == bone.children@.len(),
            bone@.children.len() == nc,
            k <= nc,
            forall|j: int| 0 <= j < nc ==> #[trigger] bone@.children[j] == bone.children@[j]@,
            start == base.len(),
            own == visible_own(bone@.shapes, bone@.id),
            output@ == base + codes(own + visible_shapes_in(bone@.children.take(k as int)), start),
        decreases nc - k,
    {
        let ghost before = output@;
        let ghost l = own + visible_shapes_in(bone@.children.take(k as int));
        proof { assert(before.len() == start + l.len()); }
        flatten_bone_tree(&bone.children[k], output);
        proof {
            let t = bone@.children.take(k + 1);
            assert(t.drop_last() =~= bone@.children.take(k as int));
            assert(t.last() == bone@.children[k as int]);
            let l2 = own + visible_shapes_in(t);
            assert(l2 =~= l + visible_shapes(bone@.children[k as int]));
            assert(codes(l2, start) =~= codes(l, start) + codes(visible_shapes(bone@.children[k as int]), start + l.len()));
            assert(output@ =~= base + codes(l2, start));
        }
        k += 1;
    }
    assert(bone@.children.take(nc as int) =~= bone@.children);
}

/// The shader list of a whole scene.
pub fn flatten_scene(scene: &SdfScene) -> (r: Vec<FlatShape>)
    ensures
        r@ == codes(visible_shapes(scene@.root_bone), 0),
{
    let mut out: Vec<FlatShape> = Vec::new();
    flatten_bone_tree(&scene.root_bone, &mut out);
    assert(out@ =~= codes(visible_shapes(scene@.root_bone), 0));
    out
}

/// Number of shapes the generated shader evaluates; a scene with none cannot be turned
/// into a shader.
pub fn shader_shape_count(scene: &SdfScene) -> (r: Result<usize, String>)
    ensures
        visible_shapes(scene@.root_bone).len() == 0 ==> r is Err && r->Err_0@ == "empty scene — no shapes to render"@,
        visible_shapes(scene@.root_bone).len() > 0 ==> r is Ok && r->Ok_0 == visible_shapes(scene@.root_bone).len(),
{
    let flat = flatten_scene(scene);
    if flat.len() == 0 {
        Err(String::from_str("empty scene — no shapes to render"))
    } else {
        Ok(flat.len())
    }
}

/// Most shapes the shader's uniform buffer holds.
pub const MAX_SHAPES: usize = 32;

/// The shapes written into the shader's uniform buffer: the drawn shapes, in order, the
/// first `MAX_SHAPES` of them when there are more.
pub fn shader_shapes(scene: &SdfScene) -> (r: Vec<FlatShape>)
    ensures
        r@ == codes(visible_shapes(scene@.root_bone), 0).take(
            if visible_shapes(scene@.root_bone).len() < MAX_SHAPES { visible_shapes(scene@.root_bone).len() as int } else { MAX_SHAPES as int },
        ),
        r@.len() <= MAX_SHAPES,
{
    let mut flat = flatten_scene(scene);
    let ghost all = flat@;
    if flat.len() > MAX_SHAPES {
        flat.truncate(MAX_SHAPES);
    }
    assert(flat@ =~= all.take(if all.len() < MAX_SHAPES { all.len() as int } else { MAX_SHAPES as int }));
    flat
}

/// Little-endian bytes of a 32-bit value.
pub open spec fn le_bytes32(x: u32) -> Seq<u8> {
    seq![(x % 256) as u8, ((x / 256) % 256) as u8, ((x / 65536) % 256) as u8, (x / 16777216) as u8]
}

/// Little-endian bytes of a 64-bit value.
pub open spec fn le_bytes64(x: u64) -> Seq<u8> {
    le_bytes32((x % 4294967296) as u32) + le_bytes32((x / 4294967296) as u32)
}

/// Little-endian bytes of a `usize`: as many bytes as a `usize` has on this target.
pub open spec fn le_bytes_usize(x: usize) -> Seq<u8> {
    if usize::BITS == 64 { le_bytes64(x as u64) } else { le_bytes32(x as u32) }
}

/// Little-endian bytes `le` put in a byte order: as they are when `little`, reversed
/// (big-endian) otherwise.
pub open spec fn in_order(le: Seq<u8>, little: bool) -> Seq<u8> {
    if little { le } else { le.reverse() }
}

fn bytes32(x: u32) -> (r: Vec<u8>)
    ensures
        r@ == le_bytes32(x),
{
    let v: Vec<u8> = vec![(x % 256) as u8, ((x / 256) % 256) as u8, ((x / 65536) % 256) as u8, (x / 16777216) as u8];
    assert(v@ =~= le_bytes32(x));
    v
}

fn bytes64(x: u64) -> (r: Vec<u8>)
    ensures
        r@ == le_bytes64(x),
{
    let mut v = bytes32((x % 4294967296) as u32);
    let mut hi = bytes32((x / 4294967296) as u32);
    v.append(&mut hi);
    v
}

fn bytes_usize(x: usize) -> (r: Vec<u8>)
    ensures
        r@ == le_bytes_usize(x),
{
    if usize::BITS == 64 {
        bytes64(x as u64)
    } else {
        bytes32(x as u32)
    }
}

/// The little-endian bytes `le` in the byte order `little` chooses.
fn ordered(le: Vec<u8>, little: bool) -> (r: Vec<u8>)
    ensures
        r@ == in_order(le@, little),
{
    if little {
        return le;
    }
    let mut r: Vec<u8> = Vec::new();
    let n = le.len();
    let mut i: usize = 0;
    while i < n
        invariant
            i <= n,
            n == le@.len(),
            r@.len() == i,
            forall|j: int| 0 <= j < i ==> r@[j] == le@[n - 1 - j],
        decreases n - i,
    {
        r.push(le[n - 1 - i]);
        i += 1;
    }
    assert(r@ =~= le@.reverse());
    r
}

/// `u32::to_ne_bytes`: the value's bytes in the machine's byte order, which is either
/// little-endian or big-endian.  Which of the two it is, is left unsaid: it is a property
/// of the machine the code runs on.
#[verifier::external_body]
fn ne_bytes32(x: u32) -> (r: [u8; 4])
    ensures
        r@ == le_bytes32(x) || r@ == le_bytes32(x).reverse(),
{
    x.to_ne_bytes()
}

/// Whether the machine stores numbers little-endian, read from the native bytes of one.
fn machine_is_little_endian() -> (little: bool) {
    let probe = ne_bytes32(1);
    probe[0] == 1
}

/// The writes the fingerprint makes for the shapes `l`, each value's bytes in the byte
/// order `little` chooses: the shape count (a `usize`), then for each shape its
/// primitive code, combination code and modifier flags (each a `u32`).
pub open spec fn topology_writes(l: Seq<FlatShape>, little: bool) -> Seq<Seq<u8>> {
    seq![in_order(le_bytes_usize(l.len() as usize), little)] + topology_items(l, little)
}

/// The writes for each shape's codes, in order.
pub open spec fn topology_items(l: Seq<FlatShape>, little: bool) -> Seq<Seq<u8>>
    decreases l.len(),
{
    if l.len() == 0 {
        Seq::empty()
    } else {
        topology_items(l.drop_last(), little) + seq![
            in_order(le_bytes32(l.last().primitive_type), little),
            in_order(le_bytes32(l.last().combination_op), little),
            in_order(le_bytes32(l.last().modifier_flags), little),
        ]
    }
}

/// The fingerprint of a scene on a machine of byte order `little`.
pub open spec fn topology_hash_spec(s: SceneView, little: bool) -> u64 {
    DefaultHasher::spec_finish(topology_writes(codes(visible_shapes(s.root_bone), 0), little))
}

/// The two trees draw shapes of the same topology: as many shapes, and at each position
/// shapes of the same primitive kind, combination kind and modifier kinds.
pub open spec fn same_topology(a: BoneView, b: BoneView) -> bool {
    let x = visible_shapes(a);
    let y = visible_shapes(b);
    &&& x.len() == y.len()
    &&& forall|i: int| 0 <= i < x.len() ==> {
        &&& prim_index((#[trigger] x[i]).0.primitive) == prim_index(y[i].0.primitive)
        &&& combo_index(x[i].0.combination) == combo_index(y[i].0.combination)
        &&& modifier_flags(x[i].0.modifiers) == modifier_flags(y[i].0.modifiers)
    }
}

/// Scenes that draw shapes of the same topology get the same fingerprint, whatever
/// else differs: transforms, parameters, materials, names, blend radii, identifiers,
/// hidden shapes, the light and the settings.  (That a different topology changes the
/// fingerprint is not stated: the hasher's result is known only by name.)
pub proof fn law_scene_topology_hash(a: SceneView, b: SceneView, little: bool)
    requires
        same_topology(a.root_bone, b.root_bone),
    ensures
        topology_hash_spec(a, little) == topology_hash_spec(b, little),
{
    let x = codes(visible_shapes(a.root_bone), 0);
    let y = codes(visible_shapes(b.root_bone), 0);
    assert forall|i: int| 0 <= i < x.len() implies (#[trigger] x[i]).primitive_type == y[i].primitive_type
        && x[i].combination_op == y[i].combination_op && x[i].modifier_flags == y[i].modifier_flags by {
        assert(visible_shapes(a.root_bone)[i] == visible_shapes(a.root_bone)[i]);
    }
    law_topology_hash_ignores_values(x, y, little);
}

/// The fingerprint of a scene with every hashed value's bytes in the byte order
/// `little` chooses.
pub fn topology_hash_in_order(scene: &SdfScene, little: bool) -> (r: u64)
    ensures
        r == topology_hash_spec(scene@, little),
{
    let flat = flatten_scene(scene);
    let mut hasher = DefaultHasher::new();
    let n = ordered(bytes_usize(flat.len()), little);
    hasher.write(n.as_slice());
    let mut i: usize = 0;
    while i < flat.len()
        invariant
            i <= flat@.len(),
            hasher@ == seq![in_order(le_bytes_usize(flat@.len() as usize), little)] + topology_items(flat@.take(i as int), little),
        decreases flat@.len() - i,
    {
        let a = ordered(bytes32(flat[i].primitive_type), little);
        hasher.write(a.as_slice());
        let b = ordered(bytes32(flat[i].combination_op), little);
        hasher.write(b.as_slice());
        let c = ordered(bytes32(flat[i].modifier_flags), little);
        hasher.write(c.as_slice());
        proof {
            let t = flat@.take(i + 1);
            assert(t.drop_last() =~= flat@.take(i as int));
            assert(t.last() == flat@[i as int]);
        }
        assert(hasher@ =~= seq![in_order(le_bytes_usize(flat@.len() as usize), little)] + topology_items(flat@.take(i + 1), little));
        i += 1;
    }
    assert(flat@.take(flat@.len() as int) =~= flat@);
    hasher.finish()
}

/// Fingerprint of the scene's shader topology: the standard library's default hasher
/// over the number of drawn shapes and, for each, its primitive code, combination code
/// and modifier flags, hashed as `Hash` hashes a `usize` and `u32` values: their bytes
/// in the machine's byte order.  Which order that is, the contract leaves open: the
/// fingerprint is the one for little-endian or for big-endian bytes.  Scenes of the same
/// topology get the same fingerprint (see `law_scene_topology_hash`).
pub fn topology_hash(scene: &SdfScene) -> (r: u64)
    ensures
        r == topology_hash_spec(scene@, true) || r == topology_hash_spec(scene@, false),
{
    let little = machine_is_little_endian();
    topology_hash_in_order(scene, little)
}

/// Two scenes whose drawn shapes have the same count, primitive codes, combination codes
/// and modifier flags get the same fingerprint, however else they differ.
pub proof fn law_topology_hash_ignores_values(a: Seq<FlatShape>, b: Seq<FlatShape>, little: bool)
    requires
        a.len() == b.len(),
        forall|i: int| 0 <= i < a.len() ==> (#[trigger] a[i]).primitive_type == b[i].primitive_type
            && a[i].combination_op == b[i].combination_op && a[i].modifier_flags == b[i].modifier_flags,
    ensures
        DefaultHasher::spec_finish(topology_writes(a, little)) == DefaultHasher::spec_finish(topology_writes(b, little)),
{
    lemma_topology_items_same(a, b, little);
}

proof fn lemma_topology_items_same(a: Seq<FlatShape>, b: Seq<FlatShape>, little: bool)
    requires
        a.len() == b.len(),
        forall|i: int| 0 <= i < a.len() ==> (#[trigger] a[i]).primitive_type == b[i].primitive_type
            && a[i].combination_op == b[i].combination_op && a[i].modifier_flags == b[i].modifier_flags,
    ensures
        topology_items(a, little) == topology_items(b, little),
    decreases a.len(),
{
    if a.len() > 0 {
        let a2 = a.drop_last();
        let b2 = b.drop_last();
        assert forall|i: int| 0 <= i < a2.len() implies (#[trigger] a2[i]).primitive_type == b2[i].primitive_type
            && a2[i].combination_op == b2[i].combination_op && a2[i].modifier_flags == b2[i].modifier_flags by {
            assert(a2[i] == a[i] && b2[i] == b[i]);
        }
        lemma_topology_items_same(a2, b2, little);
        assert(a.last() == a[a.len() - 1]);
    }
}

/// Only visible shapes are drawn, and never more shapes than the subtree holds.
pub proof fn law_drawn_shapes_visible(b: BoneView)
    ensures
        visible_shapes(b).len() <= b.shape_total(),
        forall|i: int| 0 <= i < visible_shapes(b).len() ==> (#[trigger] visible_shapes(b)[i]).0.visible,
    decreases b, 1int,
{
    if b.visible {
        lemma_visible_own(b.shapes, b.id);
        lemma_visible_in(b.children);
        let o = visible_own(b.shapes, b.id);
        let c = visible_shapes_in(b.children);
        assert forall|i: int| 0 <= i < (o + c).len() implies (#[trigger] (o + c)[i]).0.visible by {
            if i >= o.len() {
                assert((o + c)[i] == c[i - o.len()]);
            }
        }
    }
}

proof fn lemma_visible_own(ss: Seq<ShapeView>, bone: BoneId)
    ensures
        visible_own(ss, bone).len() <= ss.len(),
        forall|i: int| 0 <= i < visible_own(ss, bone).len() ==> (#[trigger] visible_own(ss, bone)[i]).0.visible,
    decreases ss.len(),
{
    if ss.len() > 0 {
        lemma_visible_own(ss.drop_last(), bone);
    }
}

proof fn lemma_visible_in(cs: Seq<BoneView>)
    ensures
        visible_shapes_in(cs).len() <= BoneView::shape_totals(cs),
        forall|i: int| 0 <= i < visible_shapes_in(cs).len() ==> (#[trigger] visible_shapes_in(cs)[i]).0.visible,
    decreases cs, 0int,
{
    if cs.len() > 0 {
        lemma_visible_in(cs.drop_last());
        law_drawn_shapes_visible(cs.last());
        let a = visible_shapes_in(cs.drop_last());
        let c = visible_shapes(cs.last());
        assert forall|i: int| 0 <= i < (a + c).len() implies (#[trigger] (a + c)[i]).0.visible by {
            if i >= a.len() {
                assert((a + c)[i] == c[i - a.len()]);
            }
        }
    }
}

} // verus!
