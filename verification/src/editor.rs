//! Scene edits the editor's panels make: adding a shape where the selection is, replacing
//! or resetting the selected shape, and the file name a scene is saved under.
use vstd::prelude::*;
use crate::bits::{float_pos, float_pos_spec, ZERO};
use crate::bone::{
    SdfBone, BoneView, holds_shape, first_index, lemma_first_index, lemma_first_index_range, lemma_first_index_found,
    shape_has_id, lemma_find_path, lemma_find_path_replace, lemma_node_at_replace, local_pred,
};
use crate::commands::{put_shape, shape_by_id, fresh_shape};
use crate::encode::{prim_index, modifier_vector, has_vector, vector_for};
use crate::ids::{BoneId, ShapeId};
use crate::shape::{SdfPrimitive, SdfShape, ShapeModifier, ShapeTransform, ShapeView};

verus! {

/// Names of the primitive kinds in the order the editor lists them.
pub open spec fn prim_names() -> Seq<Seq<char>> {
    seq![
        "Sphere"@, "Box"@, "RoundBox"@, "Cylinder"@, "CappedCone"@, "Torus"@, "Capsule"@, "Plane"@,
        "Ellipsoid"@, "Octahedron"@, "Pyramid"@, "HexPrism"@, "RoundCone"@,
    ]
}

/// Name of the `i`-th primitive kind in the editor's list.
pub fn prim_name(i: usize) -> (r: &'static str)
    requires
        i < 13,
    ensures
        r@ == prim_names()[i as int],
{
    if i == 0 { "Sphere" } else if i == 1 { "Box" } else if i == 2 { "RoundBox" } else if i == 3 { "Cylinder" }
    else if i == 4 { "CappedCone" } else if i == 5 { "Torus" } else if i == 6 { "Capsule" } else if i == 7 { "Plane" }
    else if i == 8 { "Ellipsoid" } else if i == 9 { "Octahedron" } else if i == 10 { "Pyramid" }
    else if i == 11 { "HexPrism" } else { "RoundCone" }
}

/// The editor's list of kinds, the primitive defaults and the kind codes agree: the
/// default primitive for the `i`-th name is of kind `i` and is labelled with that name.
pub proof fn law_prim_names_agree(i: int)
    requires
        0 <= i < 13,
    ensures
        prim_index(SdfPrimitive::default_for_spec(prim_names()[i])) == i,
        SdfPrimitive::default_for_spec(prim_names()[i]).label_spec() == prim_names()[i],
{
    let n = prim_names()[i];
    if i == 0 {
        assert(n == "Sphere"@);
        reveal_strlit("Sphere");
        assert(prim_index(SdfPrimitive::default_for_spec(n)) == 0);
    } else if i == 1 {
        assert(n == "Box"@);
        reveal_strlit("Sphere");
        reveal_strlit("Box");
        assert(n.len() != "Sphere"@.len());
        assert(prim_index(SdfPrimitive::default_for_spec(n)) == 1);
    } else if i == 2 {
        assert(n == "RoundBox"@);
        reveal_strlit("Sphere");
        reveal_strlit("Box");
        reveal_strlit("RoundBox");
        assert(n.len() != "Sphere"@.len());
        assert(n.len() != "Box"@.len());
        assert(prim_index(SdfPrimitive::default_for_spec(n)) == 2);
    } else if i == 3 {
        assert(n == "Cylinder"@);
        reveal_strlit("Sphere");
        reveal_strlit("Box");
        reveal_strlit("RoundBox");
        reveal_strlit("Cylinder");
        assert(n.len() != "Sphere"@.len());
        assert(n.len() != "Box"@.len());
        assert(n[0] != "RoundBox"@[0]);
        assert(prim_index(SdfPrimitive::default_for_spec(n)) == 3);
    } else if i == 4 {
        assert(n == "CappedCone"@);
        reveal_strlit("Sphere");
        reveal_strlit("Box");
        reveal_strlit("RoundBox");
        reveal_strlit("Cylinder");
        reveal_strlit("CappedCone");
        assert(n.len() != "Sphere"@.len());
        assert(n.len() != "Box"@.len());
        assert(n.len() != "RoundBox"@.len());
        assert(n.len() != "Cylinder"@.len());
        assert(prim_index(SdfPrimitive::default_for_spec(n)) == 4);
    } else if i == 5 {
        assert(n == "Torus"@);
        reveal_strlit("Sphere");
        reveal_strlit("Box");
        reveal_strlit("RoundBox");
        reveal_strlit("Cylinder");
        reveal_strlit("CappedCone");
        reveal_strlit("Torus");
        assert(n.len() != "Sphere"@.len());
        assert(n.len() != "Box"@.len());
        assert(n.len() != "RoundBox"@.len());
        assert(n.len() != "Cylinder"@.len());
        assert(n.len() != "CappedCone"@.len());
        assert(prim_index(SdfPrimitive::default_for_spec(n)) == 5);
    } else if i == 6 {
        assert(n == "Capsule"@);
        reveal_strlit("Sphere");
        reveal_strlit("Box");
        reveal_strlit("RoundBox");
        reveal_strlit("Cylinder");
        reveal_strlit("CappedCone");
        reveal_strlit("Torus");
        reveal_strlit("Capsule");
        assert(n.len() != "Sphere"@.len());
        assert(n.len() != "Box"@.len());
        assert(n.len() != "RoundBox"@.len());
        assert(n.len() != "Cylinder"@.len());
        assert(n.len() != "CappedCone"@.len());
        assert(n.len() != "Torus"@.len());
        assert(prim_index(SdfPrimitive::default_for_spec(n)) == 6);
    } else if i == 7 {
        assert(n == "Plane"@);
        reveal_strlit("Sphere");
        reveal_strlit("Box");
        reveal_strlit("RoundBox");
        reveal_strlit("Cylinder");
        reveal_strlit("CappedCone");
        reveal_strlit("Torus");
        reveal_strlit("Capsule");
        reveal_strlit("Plane");
        assert(n.len() != "Sphere"@.len());
        assert(n.len() != "Box"@.len());
        assert(n.len() != "RoundBox"@.len());
        assert(n.len() != "Cylinder"@.len());
        assert(n.len() != "CappedCone"@.len());
        assert(n[0] != "Torus"@[0]);
        assert(n.len() != "Capsule"@.len());
        assert(prim_index(SdfPrimitive::default_for_spec(n)) == 7);
    } else if i == 8 {
        assert(n == "Ellipsoid"@);
        reveal_strlit("Sphere");
        reveal_strlit("Box");
        reveal_strlit("RoundBox");
        reveal_strlit("Cylinder");
        reveal_strlit("CappedCone");
        reveal_strlit("Torus");
        reveal_strlit("Capsule");
        reveal_strlit("Plane");
        reveal_strlit("Ellipsoid");
        assert(n.len() != "Sphere"@.len());
        assert(n.len() != "Box"@.len());
        assert(n.len() != "RoundBox"@.len());
        assert(n.len() != "Cylinder"@.len());
        assert(n.len() != "CappedCone"@.len());
        assert(n.len() != "Torus"@.len());
        assert(n.len() != "Capsule"@.len());
        assert(n.len() != "Plane"@.len());
        assert(prim_index(SdfPrimitive::default_for_spec(n)) == 8);
    } else if i == 9 {
        assert(n == "Octahedron"@);
        reveal_strlit("Sphere");
        reveal_strlit("Box");
        reveal_strlit("RoundBox");
        reveal_strlit("Cylinder");
        reveal_strlit("CappedCone");
        reveal_strlit("Torus");
        reveal_strlit("Capsule");
        reveal_strlit("Plane");
        reveal_strlit("Ellipsoid");
        reveal_strlit("Octahedron");
        assert(n.len() != "Sphere"@.len());
        assert(n.len() != "Box"@.len());
        assert(n.len() != "RoundBox"@.len());
        assert(n.len() != "Cylinder"@.len());
        assert(n[0] != "CappedCone"@[0]);
        assert(n.len() != "Torus"@.len());
        assert(n.len() != "Capsule"@.len());
        assert(n.len() != "Plane"@.len());
        assert(n.len() != "Ellipsoid"@.len());
        assert(prim_index(SdfPrimitive::default_for_spec(n)) == 9);
    } else if i == 10 {
        assert(n == "Pyramid"@);
        reveal_strlit("Sphere");
        reveal_strlit("Box");
        reveal_strlit("RoundBox");
        reveal_strlit("Cylinder");
        reveal_strlit("CappedCone");
        reveal_strlit("Torus");
        reveal_strlit("Capsule");
        reveal_strlit("Plane");
        reveal_strlit("Ellipsoid");
        reveal_strlit("Octahedron");
        reveal_strlit("Pyramid");
        assert(n.len() != "Sphere"@.len());
        assert(n.len() != "Box"@.len());
        assert(n.len() != "RoundBox"@.len());
        assert(n.len() != "Cylinder"@.len());
        assert(n.len() != "CappedCone"@.len());
        assert(n.len() != "Torus"@.len());
        assert(n[0] != "Capsule"@[0]);
        assert(n.len() != "Plane"@.len());
        assert(n.len() != "Ellipsoid"@.len());
        assert(n.len() != "Octahedron"@.len());
        assert(prim_index(SdfPrimitive::default_for_spec(n)) == 10);
    } else if i == 11 {
        assert(n == "HexPrism"@);
        reveal_strlit("Sphere");
        reveal_strlit("Box");
        reveal_strlit("RoundBox");
        reveal_strlit("Cylinder");
        reveal_strlit("CappedCone");
        reveal_strlit("Torus");
        reveal_strlit("Capsule");
        reveal_strlit("Plane");
        reveal_strlit("Ellipsoid");
        reveal_strlit("Octahedron");
        reveal_strlit("Pyramid");
        reveal_strlit("HexPrism");
        assert(n.len() != "Sphere"@.len());
        assert(n.len() != "Box"@.len());
        assert(n[0] != "RoundBox"@[0]);
        assert(n[0] != "Cylinder"@[0]);
        assert(n.len() != "CappedCone"@.len());
        assert(n.len() != "Torus"@.len());
        assert(n.len() != "Capsule"@.len());
        assert(n.len() != "Plane"@.len());
        assert(n.len() != "Ellipsoid"@.len());
        assert(n.len() != "Octahedron"@.len());
        assert(n.len() != "Pyramid"@.len());
        assert(prim_index(SdfPrimitive::default_for_spec(n)) == 11);
    } else if i == 12 {
        assert(n == "RoundCone"@);
        reveal_strlit("Sphere");
        reveal_strlit("Box");
        reveal_strlit("RoundBox");
        reveal_strlit("Cylinder");
        reveal_strlit("CappedCone");
        reveal_strlit("Torus");
        reveal_strlit("Capsule");
        reveal_strlit("Plane");
        reveal_strlit("Ellipsoid");
        reveal_strlit("Octahedron");
        reveal_strlit("Pyramid");
        reveal_strlit("HexPrism");
        reveal_strlit("RoundCone");
        assert(n.len() != "Sphere"@.len());
        assert(n.len() != "Box"@.len());
        assert(n.len() != "RoundBox"@.len());
        assert(n.len() != "Cylinder"@.len());
        assert(n.len() != "CappedCone"@.len());
        assert(n.len() != "Torus"@.len());
        assert(n.len() != "Capsule"@.len());
        assert(n.len() != "Plane"@.len());
        assert(n[0] != "Ellipsoid"@[0]);
        assert(n.len() != "Octahedron"@.len());
        assert(n.len() != "Pyramid"@.len());
        assert(n.len() != "HexPrism"@.len());
        assert(prim_index(SdfPrimitive::default_for_spec(n)) == 12);
    }
}

/// Add a default shape of the `kind`-th kind, named after it, to the selected bone (the
/// root when nothing is selected); nothing is added when that bone does not exist.
/// Returns the new shape's identifier, to become the selection.
pub fn add_shape_at_selection(root: &mut SdfBone, kind: usize, selected_bone: Option<BoneId>) -> (r: ShapeId)
    requires
        kind < 13,
    ensures
        exists|s: ShapeView| #[trigger] fresh_shape(s, prim_names()[kind as int], SdfPrimitive::default_for_spec(prim_names()[kind as int]))
            && s.id == r
            && final(root)@ == match old(root)@.with_shape(
                match selected_bone {
                    Some(b) => b,
                    None => BoneId(0),
                },
                s,
            ) {
                Some(t) => t,
                None => old(root)@,
            },
{
    let name = prim_name(kind);
    let prim = SdfPrimitive::default_for(name);
    let shape = SdfShape::new(name, prim);
    let ghost sv = shape@;
    let id = shape.id;
    let target = match selected_bone {
        Some(b) => b,
        None => BoneId::root(),
    };
    match root.find_bone_mut(target) {
        Some(bone) => bone.push_shape(shape),
        None => {},
    }
    assert(fresh_shape(sv, prim_names()[kind as int], SdfPrimitive::default_for_spec(prim_names()[kind as int])));
    id
}

/// Replace the shape with identifier `selected` by `new_shape`, which takes over that
/// identifier; whether the shape was found.
pub fn replace_selected_shape(root: &mut SdfBone, selected: ShapeId, new_shape: SdfShape) -> (r: bool)
    ensures
        r == old(root)@.find_path(holds_shape(selected)) is Some,
        final(root)@ == put_shape(old(root)@, selected, ShapeView { id: selected, ..new_shape@ }),
{
    let mut new_shape = new_shape;
    new_shape.id = selected;
    match root.find_shape_mut(selected) {
        Some((s, _)) => {
            *s = new_shape;
            true
        },
        None => false,
    }
}

/// Reset the transform of the shape with identifier `selected`; whether it was found.
pub fn reset_selected_transform(root: &mut SdfBone, selected: ShapeId) -> (r: bool)
    ensures
        r == old(root)@.find_path(holds_shape(selected)) is Some,
        final(root)@ == put_shape(old(root)@, selected,
            ShapeView { transform: ShapeTransform::default_spec(), ..shape_by_id(old(root)@, selected) }),
{
    match root.find_shape_mut(selected) {
        Some((s, _)) => {
            s.reset_transform();
            true
        },
        None => false,
    }
}

/// Quantity of the selected shape that the viewport's drag handles edit.
#[derive(Debug, Clone, Copy, PartialEq, Eq)]
pub enum GizmoMode {
    Translate,
    Rotate,
    Elongation,
    Repetition,
}

impl Default for GizmoMode {
    fn default() -> (r: Self)
        ensures
            r == GizmoMode::Translate,
    {
        GizmoMode::Translate
    }
}

impl GizmoMode {
    /// Menu label of the mode, with its keyboard shortcut.
    pub open spec fn label_spec(self) -> Seq<char> {
        match self {
            GizmoMode::Translate => "Translate (G)"@,
            GizmoMode::Rotate => "Rotate (R)"@,
            GizmoMode::Elongation => "Elongation (E)"@,
            GizmoMode::Repetition => "Repetition (P)"@,
        }
    }

    /// Menu label of the mode, with its keyboard shortcut.
    pub fn label(&self) -> (r: &'static str)
        ensures
            r@ == self.label_spec(),
    {
        match self {
            GizmoMode::Translate => "Translate (G)",
            GizmoMode::Rotate => "Rotate (R)",
            GizmoMode::Elongation => "Elongation (E)",
            GizmoMode::Repetition => "Repetition (P)",
        }
    }
}

/// The vector the handles of `mode` edit on shape `s`: its translation, its rotation, or
/// the vector of its first elongation or repetition modifier (zeros when it has none).
pub open spec fn mode_value_spec(s: ShapeView, mode: GizmoMode) -> [u32; 3] {
    match mode {
        GizmoMode::Translate => s.transform.translation,
        GizmoMode::Rotate => s.transform.rotation,
        GizmoMode::Elongation => modifier_vector(s.modifiers, 4),
        GizmoMode::Repetition => modifier_vector(s.modifiers, 5),
    }
}

/// Some component of `v` is greater than zero.
pub open spec fn any_pos(v: [u32; 3]) -> bool {
    float_pos_spec(v[0]) || float_pos_spec(v[1]) || float_pos_spec(v[2])
}

/// The modifier list with the vector of its first modifier of vector kind `kind`
/// (4 elongation, 5 repetition period) set to `v`, the repetition keeping its counts.
/// Without such a modifier, one is appended (a repetition with counts 3) when some
/// component of `v` is positive; otherwise the list is unchanged.
pub open spec fn with_vector(s: Seq<ShapeModifier>, kind: u32, v: [u32; 3]) -> Seq<ShapeModifier> {
    let i = first_index(s, has_vector(kind));
    if i < s.len() {
        s.update(i, match s[i] {
            ShapeModifier::Repetition { count, .. } => ShapeModifier::Repetition { period: v, count },
            _ => ShapeModifier::Elongation(v),
        })
    } else if any_pos(v) {
        s.push(if kind == 4 { ShapeModifier::Elongation(v) } else { ShapeModifier::Repetition { period: v, count: [3, 3, 3] } })
    } else {
        s
    }
}

/// Shape `s` with the vector that the handles of `mode` edit set to `v`.
pub open spec fn with_mode_value(s: ShapeView, mode: GizmoMode, v: [u32; 3]) -> ShapeView {
    match mode {
        GizmoMode::Translate => ShapeView { transform: ShapeTransform { translation: v, ..s.transform }, ..s },
        GizmoMode::Rotate => ShapeView { transform: ShapeTransform { rotation: v, ..s.transform }, ..s },
        GizmoMode::Elongation => ShapeView { modifiers: with_vector(s.modifiers, 4, v), ..s },
        GizmoMode::Repetition => ShapeView { modifiers: with_vector(s.modifiers, 5, v), ..s },
    }
}

/// The tree after writing `v` through the handles of `mode` into the selected shape;
/// unchanged when nothing is selected or the selection is not in the tree.
pub open spec fn after_mode_write(t: BoneView, selected: Option<ShapeId>, mode: GizmoMode, v: [u32; 3]) -> BoneView {
    match selected {
        Some(id) => put_shape(t, id, with_mode_value(shape_by_id(t, id), mode, v)),
        None => t,
    }
}

/// The vector the handles of `mode` start from: that of the selected shape, zeros when
/// nothing is selected or the selection is not in the tree.
pub fn get_mode_value(root: &SdfBone, selected: Option<ShapeId>, mode: GizmoMode) -> (r: [u32; 3])
    ensures
        r == match selected {
            Some(id) => match root@.found_shape(id) {
                Some((s, _)) => mode_value_spec(s, mode),
                None => [ZERO, ZERO, ZERO],
            },
            None => [ZERO, ZERO, ZERO],
        },
{
    let id = match selected {
        Some(id) => id,
        None => return [ZERO, ZERO, ZERO],
    };
    match root.find_shape(id) {
        Some((s, _)) => match mode {
            GizmoMode::Translate => s.transform.translation,
            GizmoMode::Rotate => s.transform.rotation,
            GizmoMode::Elongation => crate::encode::get_modifier_vec3(s.modifiers.as_slice(), 4),
            GizmoMode::Repetition => crate::encode::get_modifier_vec3(s.modifiers.as_slice(), 5),
        },
        None => [ZERO, ZERO, ZERO],
    }
}

/// Set the vector of the first modifier of vector kind `kind`, or append one (see
/// `with_vector`).
fn write_vector_modifier(mods: &mut Vec<ShapeModifier>, kind: u32, v: [u32; 3])
    requires
        kind == 4 || kind == 5,
    ensures
        final(mods)@ == with_vector(old(mods)@, kind, v),
{
    let mut i: usize = 0;
    while i < mods.len()
        invariant
            i <= mods@.len(),
            mods@ == old(mods)@,
            forall|j: int| 0 <= j < i ==> !has_vector(kind)(#[trigger] mods@[j]),
        decreases mods@.len() - i,
    {
        let m = mods[i];
        let replaced: Option<ShapeModifier> = match m {
            ShapeModifier::Elongation(_) => if kind == 4 { Some(ShapeModifier::Elongation(v)) } else { None },
            ShapeModifier::Repetition { count, .. } => if kind == 5 {
                Some(ShapeModifier::Repetition { period: v, count })
            } else {
                None
            },
            _ => None,
        };
        if let Some(n) = replaced {
            proof { lemma_first_index(mods@, has_vector(kind), i as int); }
            mods.set(i, n);
            return;
        }
        i += 1;
    }
    proof { lemma_first_index(mods@, has_vector(kind), i as int); }
    if float_pos(v[0]) || float_pos(v[1]) || float_pos(v[2]) {
        if kind == 4 {
            mods.push(ShapeModifier::Elongation(v));
        } else {
            mods.push(ShapeModifier::Repetition { period: v, count: [3, 3, 3] });
        }
    }
}

/// Set the translation of the selected shape.
pub fn set_selected_translation(root: &mut SdfBone, selected: Option<ShapeId>, v: [u32; 3])
    ensures
        final(root)@ == after_mode_write(old(root)@, selected, GizmoMode::Translate, v),
{
    if let Some(id) = selected {
        match root.find_shape_mut(id) {
            Some((s, _)) => { s.transform.translation = v; },
            None => {},
        }
    }
}

/// Set the rotation of the selected shape.
pub fn set_selected_rotation(root: &mut SdfBone, selected: Option<ShapeId>, v: [u32; 3])
    ensures
        final(root)@ == after_mode_write(old(root)@, selected, GizmoMode::Rotate, v),
{
    if let Some(id) = selected {
        match root.find_shape_mut(id) {
            Some((s, _)) => { s.transform.rotation = v; },
            None => {},
        }
    }
}

/// Set the elongation of the selected shape: its first elongation modifier takes `v`,
/// or, with none, one is added when some component of `v` is positive.
pub fn set_selected_elongation(root: &mut SdfBone, selected: Option<ShapeId>, v: [u32; 3])
    ensures
        final(root)@ == after_mode_write(old(root)@, selected, GizmoMode::Elongation, v),
{
    if let Some(id) = selected {
        match root.find_shape_mut(id) {
            Some((s, _)) => { write_vector_modifier(&mut s.modifiers, 4, v); },
            None => {},
        }
    }
}

/// Set the repetition period of the selected shape: its first repetition modifier takes
/// `v` and keeps its counts, or, with none, one with counts 3 is added when some
/// component of `v` is positive.
pub fn set_selected_repetition(root: &mut SdfBone, selected: Option<ShapeId>, v: [u32; 3])
    ensures
        final(root)@ == after_mode_write(old(root)@, selected, GizmoMode::Repetition, v),
{
    if let Some(id) = selected {
        match root.find_shape_mut(id) {
            Some((s, _)) => { write_vector_modifier(&mut s.modifiers, 5, v); },
            None => {},
        }
    }
}

/// What a handle writes into a shape is what the handles of that mode read back from
/// it, for translation and rotation always, and for elongation and repetition whenever
/// the shape already has such a modifier or some component of the value is positive.
pub proof fn law_mode_value_round_trip(s: ShapeView, mode: GizmoMode, v: [u32; 3])
    requires
        mode is Elongation ==> (any_pos(v) || modifier_vector_present(s.modifiers, 4)),
        mode is Repetition ==> (any_pos(v) || modifier_vector_present(s.modifiers, 5)),
    ensures
        mode_value_spec(with_mode_value(s, mode, v), mode) == v,
{
    match mode {
        GizmoMode::Elongation => lemma_with_vector_reads_back(s.modifiers, 4, v),
        GizmoMode::Repetition => lemma_with_vector_reads_back(s.modifiers, 5, v),
        _ => {},
    }
}

/// A shape written into the tree under its identifier is what a read of that
/// identifier gives back, from the same bone.
pub proof fn law_put_shape_read_back(t: BoneView, id: ShapeId, v: ShapeView)
    requires
        t.found_shape(id) is Some,
        v.id == id,
    ensures
        put_shape(t, id, v).found_shape(id) == Some((v, (t.found_shape(id)->0).1)),
{
    let pred = holds_shape(id);
    let p = t.find_path(pred)->0;
    lemma_find_path(t, pred);
    let n = t.node_at(p);
    let same_id = shape_has_id(id);
    let k = choose|k: int| 0 <= k < n.shapes.len() && #[trigger] n.shapes[k].id == id;
    lemma_first_index_found(n.shapes, same_id, k);
    lemma_first_index_before(n.shapes, same_id);
    let j = first_index(n.shapes, same_id);
    let n2 = BoneView { shapes: n.shapes.update(j, v), ..n };
    assert(n2.shapes[j].id == id);
    assert(pred(n2));
    assert(local_pred(pred));
    lemma_find_path_replace(t, pred, n2);
    lemma_node_at_replace(t, p, n2);
    assert forall|i: int| 0 <= i < j implies !same_id(#[trigger] n2.shapes[i]) by {
        assert(n2.shapes[i] == n.shapes[i]);
    }
    lemma_first_index(n2.shapes, same_id, j);
}

/// The shape found for identifier `id` carries that identifier.
proof fn lemma_found_shape_id(t: BoneView, id: ShapeId)
    requires
        t.found_shape(id) is Some,
    ensures
        shape_by_id(t, id).id == id,
{
    let p = t.find_path(holds_shape(id))->0;
    lemma_find_path(t, holds_shape(id));
    let n = t.node_at(p);
    let k = choose|k: int| 0 <= k < n.shapes.len() && #[trigger] n.shapes[k].id == id;
    lemma_first_index_found(n.shapes, shape_has_id(id), k);
}

/// What a handle writes into the selected shape of a tree is what the handles of that
/// mode read back from it (under the conditions of `law_mode_value_round_trip`).
pub proof fn law_gizmo_read_back(t: BoneView, id: ShapeId, mode: GizmoMode, v: [u32; 3])
    requires
        t.found_shape(id) is Some,
        mode is Elongation ==> (any_pos(v) || modifier_vector_present(shape_by_id(t, id).modifiers, 4)),
        mode is Repetition ==> (any_pos(v) || modifier_vector_present(shape_by_id(t, id).modifiers, 5)),
    ensures
        after_mode_write(t, Some(id), mode, v).found_shape(id) is Some,
        mode_value_spec(shape_by_id(after_mode_write(t, Some(id), mode, v), id), mode) == v,
{
    let s = shape_by_id(t, id);
    lemma_found_shape_id(t, id);
    law_mode_value_round_trip(s, mode, v);
    law_put_shape_read_back(t, id, with_mode_value(s, mode, v));
}

/// The list holds a modifier of vector kind `kind`.
pub open spec fn modifier_vector_present(s: Seq<ShapeModifier>, kind: u32) -> bool {
    exists|j: int| 0 <= j < s.len() && has_vector(kind)(#[trigger] s[j])
}

/// Reading the vector of kind `kind` after writing `v` gives `v` (see the law above).
proof fn lemma_with_vector_reads_back(s: Seq<ShapeModifier>, kind: u32, v: [u32; 3])
    requires
        kind == 4 || kind == 5,
        any_pos(v) || modifier_vector_present(s, kind),
    ensures
        modifier_vector(with_vector(s, kind, v), kind) == v,
{
    let p = has_vector(kind);
    let i = first_index(s, p);
    lemma_first_index_range(s, p);
    lemma_first_index_before(s, p);
    let w = with_vector(s, kind, v);
    if i < s.len() {
        assert forall|k: int| 0 <= k < i implies !p(#[trigger] w[k]) by {
            assert(w[k] == s[k]);
        }
        assert(p(s[i]));
        assert(vector_for(kind, w[i]) == Some(v)) by {
            match s[i] {
                ShapeModifier::Repetition { .. } => {},
                _ => {},
            }
        }
        lemma_first_index(w, p, i);
    } else {
        if modifier_vector_present(s, kind) {
            let j = choose|j: int| 0 <= j < s.len() && has_vector(kind)(#[trigger] s[j]);
            crate::bone::lemma_first_index_found(s, p, j);
        }
        assert forall|k: int| 0 <= k < s.len() implies !p(#[trigger] w[k]) by {
            assert(w[k] == s[k]);
        }
        assert(vector_for(kind, w[s.len() as int]) == Some(v));
        lemma_first_index(w, p, s.len() as int);
    }
}

/// No element before the first position satisfies `p`.
proof fn lemma_first_index_before<A>(s: Seq<A>, p: spec_fn(A) -> bool)
    ensures
        forall|k: int| 0 <= k < first_index(s, p) && k < s.len() ==> !p(#[trigger] s[k]),
        first_index(s, p) < s.len() ==> p(s[first_index(s, p)]),
    decreases s.len(),
{
    if s.len() > 0 && !p(s[0]) {
        lemma_first_index_before(s.drop_first(), p);
        if first_index(s, p) < s.len() {
            let j = first_index(s.drop_first(), p);
            lemma_first_index_range(s.drop_first(), p);
            assert(first_index(s, p) == j + 1);
            assert(s.drop_first()[j] == s[j + 1]);
        }
        assert forall|k: int| 0 <= k < first_index(s, p) && k < s.len() implies !p(#[trigger] s[k]) by {
            if k > 0 {
                assert(s[k] == s.drop_first()[k - 1]);
            }
        }
    }
}

/// `name` ends with `.yaml`.
pub open spec fn has_yaml_suffix(name: Seq<char>) -> bool {
    name.len() >= 5 && name.subrange(name.len() - 5, name.len() as int) == ".yaml"@
}

/// File name a scene is saved under: `untitled.yaml` for an empty name, the name itself
/// when it ends with `.yaml`, else the name with `.yaml` appended.
pub open spec fn save_file_name_spec(name: Seq<char>) -> Seq<char> {
    if name.len() == 0 {
        "untitled.yaml"@
    } else if has_yaml_suffix(name) {
        name
    } else {
        name + ".yaml"@
    }
}

/// File name a scene is saved under.
pub fn save_file_name(name: &str) -> (r: String)
    ensures
        r@ == save_file_name_spec(name@),
{
    let cs = crate::text::chars_of(name);
    let n = cs.len();
    if n == 0 {
        return String::from_str("untitled.yaml");
    }
    proof { reveal_strlit(".yaml"); }
    let mut suffix = true;
    if n < 5 {
        suffix = false;
    } else {
        let tail = ['.', 'y', 'a', 'm', 'l'];
        let mut k: usize = 0;
        while k < 5
            invariant
                cs@ == name@,
                n == cs@.len(),
                n >= 5,
                k <= 5,
                tail@ == ".yaml"@,
                suffix == (forall|j: int| 0 <= j < k ==> cs@[n - 5 + j] == tail@[j]),
            decreases 5 - k,
        {
            suffix = suffix && cs[n - 5 + k] == tail[k];
            k += 1;
        }
        assert(suffix == (name@.subrange(n - 5, n as int) =~= ".yaml"@));
    }
    let mut out = String::from_str(name);
    if !suffix {
        out.append(".yaml");
    }
    out
}

} // verus!
