//! Writing the property panels back into the scene: the panel's values for the
//! selected shape or bone replace those of the scene where they differ.
use vstd::prelude::*;
use crate::bits::{
    float_eq, float3_eq, float_pos, float_abs_gt, float_eq_spec, float3_eq_spec, float_pos_spec,
    float_abs_gt_spec, is_nan_bits, ZERO, F_0_001, widen, widen_spec, float64_eq, float64_eq_spec,
};
use crate::bone::{SdfBone, BoneView, has_id};
use crate::commands::{put_shape, edit_bone};
use crate::editor::{prim_name, prim_names};
use crate::encode::{
    prim_index, prim_params_spec, with_params, combo_index, combo_k, combo_at, index_to_combo, prim_to_index, prim_params,
    set_prim_params, modifier_scalar, modifier_vector, get_modifier_f32, get_modifier_vec3, combo_to_index, combo_smooth_k,
};
use crate::ids::{BoneId, ShapeId};
use crate::shape::{CombinationOp, SdfPrimitive, SdfShape, ShapeMaterial, ShapeModifier, ShapeTransform, ShapeView};
use crate::text::str_eq;

verus! {

/// Values of the shape panel, each number by its `f32` bit pattern.
#[derive(Debug, Clone, Copy, PartialEq, Eq)]
pub struct ShapeForm {
    /// Position of the primitive kind in the editor's list.
    pub prim_type: usize,
    pub translation: [u32; 3],
    pub rotation: [u32; 3],
    pub scale: u32,
    pub params: [u32; 4],
    pub color: [u32; 3],
    pub roughness: u32,
    pub metallic: u32,
    pub fresnel_power: u32,
    pub color_mode: u32,
    pub palette_a: [u32; 3],
    pub palette_b: [u32; 3],
    pub palette_c: [u32; 3],
    pub palette_d: [u32; 3],
    pub noise_amplitude: u32,
    pub noise_frequency: u32,
    pub noise_octaves: u32,
    pub smooth_symmetry: u32,
    pub rounding: u32,
    pub onion: u32,
    pub twist: u32,
    pub bend: u32,
    pub elongation: [u32; 3],
    pub repetition: [u32; 3],
    /// Position of the combination operation in the editor's list.
    pub combo_op: usize,
    pub smooth_k: u32,
}

/// What writing the shape panel back did.
#[derive(Debug, Clone, Copy, PartialEq, Eq)]
pub enum ShapeSync {
    /// No shape is selected, or the selection is not in the scene.
    Untouched,
    /// The panel named another primitive kind: the shape became that kind's default
    /// primitive and took its name; `params` are the new primitive's parameters, for
    /// the panel to show.
    Retyped { params: [u32; 4] },
    /// The panel's values were written; `changed` tells whether any of them differed.
    Synced { changed: bool },
}

/// Modifier list the panel's sliders describe, in this order: rounding and onion when
/// positive, twist and bend when larger than 0.001 in magnitude, elongation and
/// repetition (with counts 3) when not all zero.
pub open spec fn modifiers_from(f: ShapeForm) -> Seq<ShapeModifier> {
    let z = [ZERO, ZERO, ZERO];
    let s0 = Seq::<ShapeModifier>::empty();
    let s1 = if float_pos_spec(f.rounding) { s0.push(ShapeModifier::Rounding(f.rounding)) } else { s0 };
    let s2 = if float_pos_spec(f.onion) { s1.push(ShapeModifier::Onion(f.onion)) } else { s1 };
    let s3 = if float_abs_gt_spec(f.twist, F_0_001) { s2.push(ShapeModifier::Twist(f.twist)) } else { s2 };
    let s4 = if float_abs_gt_spec(f.bend, F_0_001) { s3.push(ShapeModifier::Bend(f.bend)) } else { s3 };
    let s5 = if !float3_eq_spec(f.elongation, z) { s4.push(ShapeModifier::Elongation(f.elongation)) } else { s4 };
    if !float3_eq_spec(f.repetition, z) {
        s5.push(ShapeModifier::Repetition { period: f.repetition, count: [3, 3, 3] })
    } else {
        s5
    }
}

/// Build the modifier list the panel's sliders describe.
pub fn build_modifiers(f: &ShapeForm) -> (r: Vec<ShapeModifier>)
    ensures
        r@ == modifiers_from(*f),
{
    let z = [ZERO, ZERO, ZERO];
    let mut mods: Vec<ShapeModifier> = Vec::new();
    if float_pos(f.rounding) {
        mods.push(ShapeModifier::Rounding(f.rounding));
    }
    if float_pos(f.onion) {
        mods.push(ShapeModifier::Onion(f.onion));
    }
    if float_abs_gt(f.twist, F_0_001) {
        mods.push(ShapeModifier::Twist(f.twist));
    }
    if float_abs_gt(f.bend, F_0_001) {
        mods.push(ShapeModifier::Bend(f.bend));
    }
    if !float3_eq(f.elongation, z) {
        mods.push(ShapeModifier::Elongation(f.elongation));
    }
    if !float3_eq(f.repetition, z) {
        mods.push(ShapeModifier::Repetition { period: f.repetition, count: [3, 3, 3] });
    }
    mods
}

/// `==` on two modifiers as `f32` values compare.
pub open spec fn modifier_float_eq(a: ShapeModifier, b: ShapeModifier) -> bool {
    match (a, b) {
        (ShapeModifier::Rounding(x), ShapeModifier::Rounding(y)) => float_eq_spec(x, y),
        (ShapeModifier::Onion(x), ShapeModifier::Onion(y)) => float_eq_spec(x, y),
        (ShapeModifier::Twist(x), ShapeModifier::Twist(y)) => float_eq_spec(x, y),
        (ShapeModifier::Bend(x), ShapeModifier::Bend(y)) => float_eq_spec(x, y),
        (ShapeModifier::Elongation(x), ShapeModifier::Elongation(y)) => float3_eq_spec(x, y),
        (
            ShapeModifier::Repetition { period: p, count: c },
            ShapeModifier::Repetition { period: q, count: d },
        ) => float3_eq_spec(p, q) && c[0] == d[0] && c[1] == d[1] && c[2] == d[2],
        _ => false,
    }
}

/// `==` on two modifier lists: same length and pairwise equal modifiers.
pub open spec fn modifiers_float_eq(a: Seq<ShapeModifier>, b: Seq<ShapeModifier>) -> bool {
    a.len() == b.len() && forall|i: int| 0 <= i < a.len() ==> modifier_float_eq(#[trigger] a[i], b[i])
}

/// `==` on two modifiers.
fn modifier_eq(a: &ShapeModifier, b: &ShapeModifier) -> (r: bool)
    ensures
        r == modifier_float_eq(*a, *b),
{
    match (a, b) {
        (ShapeModifier::Rounding(x), ShapeModifier::Rounding(y)) => float_eq(*x, *y),
        (ShapeModifier::Onion(x), ShapeModifier::Onion(y)) => float_eq(*x, *y),
        (ShapeModifier::Twist(x), ShapeModifier::Twist(y)) => float_eq(*x, *y),
        (ShapeModifier::Bend(x), ShapeModifier::Bend(y)) => float_eq(*x, *y),
        (ShapeModifier::Elongation(x), ShapeModifier::Elongation(y)) => float3_eq(*x, *y),
        (
            ShapeModifier::Repetition { period: p, count: c },
            ShapeModifier::Repetition { period: q, count: d },
        ) => float3_eq(*p, *q) && c[0] == d[0] && c[1] == d[1] && c[2] == d[2],
        _ => false,
    }
}

/// `==` on two modifier lists.
fn modifiers_eq(a: &[ShapeModifier], b: &[ShapeModifier]) -> (r: bool)
    ensures
        r == modifiers_float_eq(a@, b@),
{
    if a.len() != b.len() {
        return false;
    }
    let mut i: usize = 0;
    while i < a.len()
        invariant
            i <= a@.len(),
            a@.len() == b@.len(),
            forall|j: int| 0 <= j < i ==> modifier_float_eq(#[trigger] a@[j], b@[j]),
        decreases a@.len() - i,
    {
        if !modifier_eq(&a[i], &b[i]) {
            return false;
        }
        i += 1;
    }
    true
}

/// `==` on two combination operations: the same operation, with equal blend radii
/// where it has one.
pub open spec fn combo_float_eq(a: CombinationOp, b: CombinationOp) -> bool {
    combo_index(a) == combo_index(b) && (combo_index(a) >= 3 ==> float_eq_spec(combo_k(a), combo_k(b)))
}

/// `==` on two combination operations.
fn combo_eq(a: &CombinationOp, b: &CombinationOp) -> (r: bool)
    ensures
        r == combo_float_eq(*a, *b),
{
    let (ia, ka) = crate::encode::combo_op_encode(a);
    let (ib, kb) = crate::encode::combo_op_encode(b);
    ia == ib && (ia < 3 || float_eq(ka, kb))
}

/// The panel's transform differs from the shape's.
pub open spec fn transform_differs(t: ShapeTransform, f: ShapeForm) -> bool {
    !float3_eq_spec(t.translation, f.translation) || !float3_eq_spec(t.rotation, f.rotation)
        || !float_eq_spec(t.scale, f.scale)
}

/// The panel's colour and surface values differ from the material's.
pub open spec fn look_differs(m: ShapeMaterial, f: ShapeForm) -> bool {
    ||| !float3_eq_spec(m.color, f.color)
    ||| !float_eq_spec(m.roughness, f.roughness)
    ||| !float_eq_spec(m.metallic, f.metallic)
    ||| !float_eq_spec(m.fresnel_power, f.fresnel_power)
    ||| m.color_mode != f.color_mode
    ||| !float3_eq_spec(m.palette_a, f.palette_a)
    ||| !float3_eq_spec(m.palette_b, f.palette_b)
    ||| !float3_eq_spec(m.palette_c, f.palette_c)
    ||| !float3_eq_spec(m.palette_d, f.palette_d)
}

/// The panel's noise values differ from the material's.
pub open spec fn noise_differs(m: ShapeMaterial, f: ShapeForm) -> bool {
    !float_eq_spec(m.noise_amplitude, f.noise_amplitude) || !float_eq_spec(m.noise_frequency, f.noise_frequency)
        || m.noise_octaves != f.noise_octaves
}

/// The material after writing the panel's values: each group (colour and surface,
/// noise, symmetry) is replaced when it differs.
pub open spec fn material_synced(m: ShapeMaterial, f: ShapeForm) -> ShapeMaterial {
    let m1 = if look_differs(m, f) {
        ShapeMaterial {
            color: f.color,
            roughness: f.roughness,
            metallic: f.metallic,
            fresnel_power: f.fresnel_power,
            color_mode: f.color_mode,
            palette_a: f.palette_a,
            palette_b: f.palette_b,
            palette_c: f.palette_c,
            palette_d: f.palette_d,
            ..m
        }
    } else {
        m
    };
    let m2 = if noise_differs(m, f) {
        ShapeMaterial {
            noise_amplitude: f.noise_amplitude,
            noise_frequency: f.noise_frequency,
            noise_octaves: f.noise_octaves,
            ..m1
        }
    } else {
        m1
    };
    if !float_eq_spec(m.smooth_symmetry, f.smooth_symmetry) {
        ShapeMaterial { smooth_symmetry: f.smooth_symmetry, ..m2 }
    } else {
        m2
    }
}

/// The shape after writing the panel's values when the panel names its primitive
/// kind: each group of values is replaced when it differs from the panel's.  Whether
/// the primitive's parameters differ is given as `params_differ`.
pub open spec fn shape_synced(s: ShapeView, f: ShapeForm, params_differ: bool) -> ShapeView {
    let c = combo_at(f.combo_op as nat, f.smooth_k);
    ShapeView {
        transform: if transform_differs(s.transform, f) {
            ShapeTransform { translation: f.translation, rotation: f.rotation, scale: f.scale }
        } else {
            s.transform
        },
        primitive: if params_differ {
            with_params(s.primitive, f.params[0], f.params[1], f.params[2], f.params[3])
        } else {
            s.primitive
        },
        material: material_synced(s.material, f),
        modifiers: if !modifiers_float_eq(s.modifiers, modifiers_from(f)) { modifiers_from(f) } else { s.modifiers },
        combination: if !combo_float_eq(s.combination, c) { c } else { s.combination },
        ..s
    }
}

/// Some value of the panel differed from the shape's.
pub open spec fn shape_sync_changed(s: ShapeView, f: ShapeForm, params_differ: bool) -> bool {
    ||| transform_differs(s.transform, f)
    ||| params_differ
    ||| look_differs(s.material, f)
    ||| noise_differs(s.material, f)
    ||| !float_eq_spec(s.material.smooth_symmetry, f.smooth_symmetry)
    ||| !modifiers_float_eq(s.modifiers, modifiers_from(f))
    ||| !combo_float_eq(s.combination, combo_at(f.combo_op as nat, f.smooth_k))
}

/// The panel's parameter fields, held as `f64` values, differ from the primitive's
/// parameters (each widened from `f32`).
pub open spec fn params_differ_spec(p: SdfPrimitive, panel: [u64; 4]) -> bool {
    let q = prim_params_spec(p);
    ||| !float64_eq_spec(widen_spec(q[0]), panel[0])
    ||| !float64_eq_spec(widen_spec(q[1]), panel[1])
    ||| !float64_eq_spec(widen_spec(q[2]), panel[2])
    ||| !float64_eq_spec(widen_spec(q[3]), panel[3])
}

/// Whether the panel's parameter fields differ from the primitive's parameters.
pub fn params_differ(p: &SdfPrimitive, panel: [u64; 4]) -> (r: bool)
    ensures
        r == params_differ_spec(*p, panel),
{
    let q = prim_params(p);
    !float64_eq(widen(q[0]), panel[0]) || !float64_eq(widen(q[1]), panel[1])
        || !float64_eq(widen(q[2]), panel[2]) || !float64_eq(widen(q[3]), panel[3])
}

/// The shape turned into the default primitive of the `kind`-th kind, named after it.
pub open spec fn shape_retyped(s: ShapeView, kind: nat) -> ShapeView {
    ShapeView {
        primitive: SdfPrimitive::default_for_spec(prim_names()[kind as int]),
        name: prim_names()[kind as int],
        ..s
    }
}

/// Write the shape panel back into the selected shape.  When the panel names another
/// primitive kind than the shape's, the shape only changes kind (see `ShapeSync`);
/// otherwise every group of values that differs from the panel's is replaced.  The
/// panel holds its parameter fields as `f64` values (`panel_params`, bit patterns);
/// they are compared in that precision with the primitive's, and when they differ the
/// primitive takes `form.params`, the same fields as `f32` values.
pub fn sync_shape_properties(root: &mut SdfBone, selected: Option<ShapeId>, form: &ShapeForm, panel_params: [u64; 4]) -> (r: ShapeSync)
    requires
        form.prim_type < 13 || !(selected matches Some(id) && old(root)@.found_shape(id) is Some),
    ensures
        match selected {
            Some(id) => match old(root)@.found_shape(id) {
                Some((s, _)) => if form.prim_type != prim_index(s.primitive) {
                    &&& r == (ShapeSync::Retyped { params: prim_params_spec(shape_retyped(s, form.prim_type as nat).primitive) })
                    &&& final(root)@ == put_shape(old(root)@, id, shape_retyped(s, form.prim_type as nat))
                } else {
                    &&& r == (ShapeSync::Synced { changed: shape_sync_changed(s, *form, params_differ_spec(s.primitive, panel_params)) })
                    &&& final(root)@ == put_shape(old(root)@, id, shape_synced(s, *form, params_differ_spec(s.primitive, panel_params)))
                },
                None => r == ShapeSync::Untouched && final(root)@ == old(root)@,
            },
            None => r == ShapeSync::Untouched && final(root)@ == old(root)@,
        },
{
    let id = match selected {
        Some(id) => id,
        None => return ShapeSync::Untouched,
    };
    let shape = match root.find_shape_mut(id) {
        Some((s, _)) => s,
        None => return ShapeSync::Untouched,
    };
    if form.prim_type != prim_to_index(&shape.primitive) {
        let name = prim_name(form.prim_type);
        shape.primitive = SdfPrimitive::default_for(name);
        shape.name = String::from_str(name);
        return ShapeSync::Retyped { params: prim_params(&shape.primitive) };
    }
    let params_differ = params_differ(&shape.primitive, panel_params);
    let mut changed = false;
    if !float3_eq(shape.transform.translation, form.translation) || !float3_eq(shape.transform.rotation, form.rotation)
        || !float_eq(shape.transform.scale, form.scale) {
        shape.transform = ShapeTransform { translation: form.translation, rotation: form.rotation, scale: form.scale };
        changed = true;
    }
    if params_differ {
        set_prim_params(&mut shape.primitive, form.params[0], form.params[1], form.params[2], form.params[3]);
        changed = true;
    }
    let m = shape.material;
    let mut nm = m;
    if !float3_eq(m.color, form.color) || !float_eq(m.roughness, form.roughness) || !float_eq(m.metallic, form.metallic)
        || !float_eq(m.fresnel_power, form.fresnel_power) || m.color_mode != form.color_mode
        || !float3_eq(m.palette_a, form.palette_a) || !float3_eq(m.palette_b, form.palette_b)
        || !float3_eq(m.palette_c, form.palette_c) || !float3_eq(m.palette_d, form.palette_d) {
        nm.color = form.color;
        nm.roughness = form.roughness;
        nm.metallic = form.metallic;
        nm.fresnel_power = form.fresnel_power;
        nm.color_mode = form.color_mode;
        nm.palette_a = form.palette_a;
        nm.palette_b = form.palette_b;
        nm.palette_c = form.palette_c;
        nm.palette_d = form.palette_d;
        changed = true;
    }
    if !float_eq(m.noise_amplitude, form.noise_amplitude) || !float_eq(m.noise_frequency, form.noise_frequency)
        || m.noise_octaves != form.noise_octaves {
        nm.noise_amplitude = form.noise_amplitude;
        nm.noise_frequency = form.noise_frequency;
        nm.noise_octaves = form.noise_octaves;
        changed = true;
    }
    if !float_eq(m.smooth_symmetry, form.smooth_symmetry) {
        nm.smooth_symmetry = form.smooth_symmetry;
        changed = true;
    }
    shape.material = nm;
    let new_mods = build_modifiers(form);
    if !modifiers_eq(shape.modifiers.as_slice(), new_mods.as_slice()) {
        shape.modifiers = new_mods;
        changed = true;
    }
    let combo = index_to_combo(form.combo_op, form.smooth_k);
    if !combo_eq(&shape.combination, &combo) {
        shape.combination = combo;
        changed = true;
    }
    ShapeSync::Synced { changed }
}

/// The panel as it shows shape `s`: its kind, transform, parameters and material, the
/// value of its first modifier of each kind (zero when it has none), and its
/// combination operation.
pub open spec fn shape_form_spec(s: ShapeView) -> ShapeForm {
    let m = s.material;
    ShapeForm {
        prim_type: prim_index(s.primitive) as usize,
        translation: s.transform.translation,
        rotation: s.transform.rotation,
        scale: s.transform.scale,
        params: prim_params_spec(s.primitive),
        color: m.color,
        roughness: m.roughness,
        metallic: m.metallic,
        fresnel_power: m.fresnel_power,
        color_mode: m.color_mode,
        palette_a: m.palette_a,
        palette_b: m.palette_b,
        palette_c: m.palette_c,
        palette_d: m.palette_d,
        noise_amplitude: m.noise_amplitude,
        noise_frequency: m.noise_frequency,
        noise_octaves: m.noise_octaves,
        smooth_symmetry: m.smooth_symmetry,
        rounding: modifier_scalar(s.modifiers, 0),
        onion: modifier_scalar(s.modifiers, 1),
        twist: modifier_scalar(s.modifiers, 2),
        bend: modifier_scalar(s.modifiers, 3),
        elongation: modifier_vector(s.modifiers, 4),
        repetition: modifier_vector(s.modifiers, 5),
        combo_op: combo_index(s.combination) as usize,
        smooth_k: combo_k(s.combination),
    }
}

/// Fill the shape panel from shape `s`.
pub fn shape_form(s: &SdfShape) -> (r: ShapeForm)
    ensures
        r == shape_form_spec(s@),
{
    let m = s.material;
    let mods = s.modifiers.as_slice();
    ShapeForm {
        prim_type: prim_to_index(&s.primitive),
        translation: s.transform.translation,
        rotation: s.transform.rotation,
        scale: s.transform.scale,
        params: prim_params(&s.primitive),
        color: m.color,
        roughness: m.roughness,
        metallic: m.metallic,
        fresnel_power: m.fresnel_power,
        color_mode: m.color_mode,
        palette_a: m.palette_a,
        palette_b: m.palette_b,
        palette_c: m.palette_c,
        palette_d: m.palette_d,
        noise_amplitude: m.noise_amplitude,
        noise_frequency: m.noise_frequency,
        noise_octaves: m.noise_octaves,
        smooth_symmetry: m.smooth_symmetry,
        rounding: get_modifier_f32(mods, 0),
        onion: get_modifier_f32(mods, 1),
        twist: get_modifier_f32(mods, 2),
        bend: get_modifier_f32(mods, 3),
        elongation: get_modifier_vec3(mods, 4),
        repetition: get_modifier_vec3(mods, 5),
        combo_op: combo_to_index(&s.combination),
        smooth_k: combo_smooth_k(&s.combination),
    }
}

/// Row of the bone's shape list for shape `s`: its name, marked with `"> "` when it is
/// the selected shape.
pub open spec fn shape_row(s: ShapeView, selected: Option<ShapeId>) -> Seq<char> {
    if selected == Some(s.id) { "> "@ + s.name } else { s.name }
}

/// The shape list of the selected bone: one row per shape, in order, with the shapes'
/// identifiers; empty when no bone is selected or the selection is not in the tree.
pub fn bone_shape_rows(root: &SdfBone, selected_bone: Option<BoneId>, selected_shape: Option<ShapeId>) -> (r: (Vec<String>, Vec<ShapeId>))
    ensures
        match selected_bone {
            Some(b) => match root@.find_path(has_id(b)) {
                Some(p) => {
                    let n = root@.node_at(p);
                    &&& r.0@.len() == n.shapes.len()
                    &&& r.1@.len() == n.shapes.len()
                    &&& forall|i: int| 0 <= i < n.shapes.len()
                        ==> (#[trigger] r.0@[i])@ == shape_row(n.shapes[i], selected_shape) && r.1@[i] == n.shapes[i].id
                },
                None => r.0@.len() == 0 && r.1@.len() == 0,
            },
            None => r.0@.len() == 0 && r.1@.len() == 0,
        },
{
    let mut rows: Vec<String> = Vec::new();
    let mut order: Vec<ShapeId> = Vec::new();
    let id = match selected_bone {
        Some(id) => id,
        None => return (rows, order),
    };
    let bone = match root.find_bone(id) {
        Some(b) => b,
        None => return (rows, order),
    };
    proof { crate::bone::lemma_bone_view_fields(); }
    let ghost shapes = bone@.shapes;
    assert(shapes == crate::bone::shapes_view(bone.shapes@));
    let mut i: usize = 0;
    while i < bone.shapes.len()
        invariant
            i <= bone.shapes@.len(),
            shapes == crate::bone::shapes_view(bone.shapes@),
            rows@.len() == i,
            order@.len() == i,
            forall|j: int| 0 <= j < i
                ==> (#[trigger] rows@[j])@ == shape_row(shapes[j], selected_shape) && order@[j] == shapes[j].id,
        decreases bone.shapes@.len() - i,
    {
        let s = &bone.shapes[i];
        let selected = match selected_shape {
            Some(sel) => sel.0 == s.id.0,
            None => false,
        };
        let row = if selected {
            let mut row = String::from_str("> ");
            row.append(s.name.as_str());
            row
        } else {
            s.name.clone()
        };
        rows.push(row);
        order.push(s.id);
        i += 1;
    }
    (rows, order)
}

/// No component of the vector is a NaN.
pub open spec fn no_nan3(a: [u32; 3]) -> bool {
    !is_nan_bits(a[0]) && !is_nan_bits(a[1]) && !is_nan_bits(a[2])
}

/// No number of the panel that is compared with the shape is a NaN.
pub open spec fn form_has_no_nan(f: ShapeForm) -> bool {
    &&& no_nan3(f.translation) && no_nan3(f.rotation) && !is_nan_bits(f.scale)
    &&& no_nan3(f.color) && !is_nan_bits(f.roughness) && !is_nan_bits(f.metallic) && !is_nan_bits(f.fresnel_power)
    &&& no_nan3(f.palette_a) && no_nan3(f.palette_b) && no_nan3(f.palette_c) && no_nan3(f.palette_d)
    &&& !is_nan_bits(f.noise_amplitude) && !is_nan_bits(f.noise_frequency) && !is_nan_bits(f.smooth_symmetry)
    &&& !is_nan_bits(f.rounding) && !is_nan_bits(f.onion) && !is_nan_bits(f.twist) && !is_nan_bits(f.bend)
    &&& no_nan3(f.elongation) && no_nan3(f.repetition) && !is_nan_bits(f.smooth_k)
}

/// Writing the panel settles: once its values are written, writing the same values
/// again (with the parameters now equal) changes nothing, provided no compared number
/// is a NaN (a NaN differs from itself, so such a value is written every time).
pub proof fn law_shape_sync_settles(s: ShapeView, f: ShapeForm, params_differ: bool)
    requires
        form_has_no_nan(f),
    ensures
        !shape_sync_changed(shape_synced(s, f, params_differ), f, false),
{
    let mf = modifiers_from(f);
    assert forall|i: int| 0 <= i < mf.len() implies modifier_float_eq(#[trigger] mf[i], mf[i]) by {
        lemma_modifiers_from_elements(f, i);
    }
    let c = combo_at(f.combo_op as nat, f.smooth_k);
    assert(combo_float_eq(c, c));
}

/// Each modifier the panel describes carries one of the panel's values.
proof fn lemma_modifiers_from_elements(f: ShapeForm, i: int)
    requires
        0 <= i < modifiers_from(f).len(),
    ensures
        ({
            let m = modifiers_from(f)[i];
            ||| m == ShapeModifier::Rounding(f.rounding)
            ||| m == ShapeModifier::Onion(f.onion)
            ||| m == ShapeModifier::Twist(f.twist)
            ||| m == ShapeModifier::Bend(f.bend)
            ||| m == ShapeModifier::Elongation(f.elongation)
            ||| m == (ShapeModifier::Repetition { period: f.repetition, count: [3, 3, 3] })
        }),
{
    let z = [ZERO, ZERO, ZERO];
    let s0 = Seq::<ShapeModifier>::empty();
    let s1 = if float_pos_spec(f.rounding) { s0.push(ShapeModifier::Rounding(f.rounding)) } else { s0 };
    let s2 = if float_pos_spec(f.onion) { s1.push(ShapeModifier::Onion(f.onion)) } else { s1 };
    let s3 = if float_abs_gt_spec(f.twist, F_0_001) { s2.push(ShapeModifier::Twist(f.twist)) } else { s2 };
    let s4 = if float_abs_gt_spec(f.bend, F_0_001) { s3.push(ShapeModifier::Bend(f.bend)) } else { s3 };
    let s5 = if !float3_eq_spec(f.elongation, z) { s4.push(ShapeModifier::Elongation(f.elongation)) } else { s4 };
    assert(s1.len() <= 1 && (i < s1.len() ==> s1[i] == ShapeModifier::Rounding(f.rounding)));
    assert(i < s2.len() ==> (s2[i] == ShapeModifier::Rounding(f.rounding) || s2[i] == ShapeModifier::Onion(f.onion)));
    assert(i < s3.len() ==> (s3[i] == ShapeModifier::Rounding(f.rounding) || s3[i] == ShapeModifier::Onion(f.onion)
        || s3[i] == ShapeModifier::Twist(f.twist)));
    assert(i < s4.len() ==> (s4[i] == ShapeModifier::Rounding(f.rounding) || s4[i] == ShapeModifier::Onion(f.onion)
        || s4[i] == ShapeModifier::Twist(f.twist) || s4[i] == ShapeModifier::Bend(f.bend)));
    assert(i < s5.len() ==> (s5[i] == ShapeModifier::Rounding(f.rounding) || s5[i] == ShapeModifier::Onion(f.onion)
        || s5[i] == ShapeModifier::Twist(f.twist) || s5[i] == ShapeModifier::Bend(f.bend)
        || s5[i] == ShapeModifier::Elongation(f.elongation)));
}

/// The bone's transform differs from the panel's translation `t` and rotation `r`.
pub open spec fn bone_moved(b: BoneView, t: [u32; 3], r: [u32; 3]) -> bool {
    !float3_eq_spec(b.transform.translation, t) || !float3_eq_spec(b.transform.rotation, r)
}

/// The bone after writing the bone panel back: translation and rotation when they
/// differ, the name when it differs and is not empty.
pub open spec fn bone_synced(b: BoneView, t: [u32; 3], r: [u32; 3], name: Seq<char>) -> BoneView {
    let b1 = if bone_moved(b, t, r) {
        BoneView { transform: ShapeTransform { translation: t, rotation: r, ..b.transform }, ..b }
    } else {
        b
    };
    if b1.name != name && name.len() > 0 { BoneView { name, ..b1 } } else { b1 }
}

/// Write the bone panel back into the selected bone; the root bone is never edited.
/// Returns whether the transform changed, which marks the scene for redrawing (a new
/// name alone does not).
pub fn sync_bone_properties(root: &mut SdfBone, selected: Option<BoneId>, translation: [u32; 3], rotation: [u32; 3], name: &str) -> (dirty: bool)
    ensures
        match selected {
            Some(id) => if id.0 != 0 && old(root)@.find_path(has_id(id)) is Some {
                &&& final(root)@ == edit_bone(old(root)@, id, (|b: BoneView| bone_synced(b, translation, rotation, name@)))
                &&& dirty == bone_moved(old(root)@.node_at(old(root)@.find_path(has_id(id))->0), translation, rotation)
            } else {
                final(root)@ == old(root)@ && !dirty
            },
            None => final(root)@ == old(root)@ && !dirty,
        },
{
    let id = match selected {
        Some(id) => id,
        None => return false,
    };
    if id.is_root() {
        return false;
    }
    let bone = match root.find_bone_mut(id) {
        Some(b) => b,
        None => return false,
    };
    let mut dirty = false;
    if !float3_eq(bone.transform.translation, translation) || !float3_eq(bone.transform.rotation, rotation) {
        bone.transform.translation = translation;
        bone.transform.rotation = rotation;
        dirty = true;
    }
    if !str_eq(bone.name.as_str(), name) && !name.is_empty() {
        bone.name = String::from_str(name);
    }
    dirty
}

} // verus!
