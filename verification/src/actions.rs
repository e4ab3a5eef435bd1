//! The editor's actions on the scene: the keyboard shortcuts and menu entries (undo,
//! redo, new scene, duplicate, delete, deselect, hide, show all, add bone or shape),
//! the bone tree's context-menu actions and selection clicks, and the property panel's
//! buttons.  One action is applied at a time; when it leaves the scene different from
//! what it was, the scene as it was is recorded for undo.
use vstd::prelude::*;
use crate::bone::{
    SdfBone, BoneView, has_id, lemma_bones_view, bone_view, bones_view, shapes_view,
};
use crate::commands::{put_shape, shape_by_id, edit_bone, fresh_bone, fresh_shape, duplicate_of, parent_path};
use crate::editor::{prim_name, prim_names};
use crate::ids::{BoneId, ShapeId, is_random_uuid};
use crate::same::scene_same;
use crate::scene::{SdfScene, SceneView, SceneSettings, default_light_dir};
use crate::shape::{
    CombinationOp, SdfPrimitive, SdfShape, ShapeTransform, ShapeView, copy_name,
};
use crate::undo::{UndoHistory, UndoView};

verus! {

/// The edited scene with the selection and whether it must be redrawn.
pub struct EditorState {
    pub scene: SdfScene,
    pub selected_bone: Option<BoneId>,
    pub selected_shape: Option<ShapeId>,
    pub dirty: bool,
}

/// Abstract value of the editor's state.
pub struct EditorView {
    pub scene: SceneView,
    pub selected_bone: Option<BoneId>,
    pub selected_shape: Option<ShapeId>,
    pub dirty: bool,
}

impl View for EditorState {
    type V = EditorView;

    open spec fn view(&self) -> EditorView {
        EditorView {
            scene: self.scene@,
            selected_bone: self.selected_bone,
            selected_shape: self.selected_shape,
            dirty: self.dirty,
        }
    }
}

/// An action of the editor on its scene.  Kinds of primitive are positions in the
/// editor's list of kinds.
pub enum EditorAction {
    /// Undo (Cmd+Z).
    Undo,
    /// Redo (Cmd+Shift+Z).
    Redo,
    /// New scene (Cmd+N).
    NewScene,
    /// Duplicate the selected shape in its bone, or the selected bone beside itself (Cmd+D).
    Duplicate,
    /// Delete the selected shape, or the selected bone, whose content moves to its parent
    /// (Delete; also the bone tree's delete button).
    Delete,
    /// Clear the selection (Escape).
    Deselect,
    /// Toggle the visibility of the selected shape, or of the selected bone (H).
    HideSelected,
    /// Make every bone and shape visible (Alt+H).
    ShowAll,
    /// Add a bone under the selected bone, or under the root (menu and bone tree).
    AddBone,
    /// Add a shape of the given kind to the selected bone, or to the root (menu).
    AddShape(usize),
    /// Add a bone under the given bone (context menu).
    AddChildBone(BoneId),
    /// Add a shape of the given kind to the given bone (context menu).
    AddShapeToBone(BoneId, usize),
    /// Duplicate the given bone beside itself (context menu).
    DuplicateBone(BoneId),
    /// Duplicate the given shape in its bone (context menu).
    DuplicateShape(ShapeId),
    /// Delete the given bone; its content moves to its parent (context menu).
    DeleteBone(BoneId),
    /// Delete the given shape (context menu).
    DeleteShape(ShapeId),
    /// Delete the given bone with everything below it (context menu).
    DeleteBoneRecursive(BoneId),
    /// Move a bone under another bone (drag in the bone tree).
    ReparentBone { bone: BoneId, new_parent: BoneId },
    /// Move a shape to another bone (drag in the bone tree).
    ReparentShape { shape: ShapeId, bone: BoneId },
    /// Toggle the visibility of the given bone (eye in the bone tree).
    ToggleBoneVisibility(BoneId),
    /// Toggle the visibility of the given shape (eye in the bone tree).
    ToggleShapeVisibility(ShapeId),
    /// Rename the given bone; an empty name is ignored (bone tree).
    RenameBone(BoneId, String),
    /// Rename the given shape; an empty name is ignored (bone tree).
    RenameShape(ShapeId, String),
    /// Click on a bone in the bone tree.
    SelectBone(BoneId),
    /// Click on a shape, listed under the given bone, in the bone tree.
    SelectShape(ShapeId, BoneId),
    /// The add-shape dialog's confirm button: add a shape of the given kind to the
    /// selected bone, or to the root.
    ConfirmAddShape(usize),
    /// The property panel's delete button: delete the selected shape.
    PanelDeleteShape,
    /// The property panel's reset button: reset the selected shape's transform.
    ResetTransform,
}

/// Abstract value of an action: names as characters.
pub enum ActionView {
    Undo,
    Redo,
    NewScene,
    Duplicate,
    Delete,
    Deselect,
    HideSelected,
    ShowAll,
    AddBone,
    AddShape(nat),
    AddChildBone(BoneId),
    AddShapeToBone(BoneId, nat),
    DuplicateBone(BoneId),
    DuplicateShape(ShapeId),
    DeleteBone(BoneId),
    DeleteShape(ShapeId),
    DeleteBoneRecursive(BoneId),
    ReparentBone(BoneId, BoneId),
    ReparentShape(ShapeId, BoneId),
    ToggleBoneVisibility(BoneId),
    ToggleShapeVisibility(ShapeId),
    RenameBone(BoneId, Seq<char>),
    RenameShape(ShapeId, Seq<char>),
    SelectBone(BoneId),
    SelectShape(ShapeId, BoneId),
    ConfirmAddShape(nat),
    PanelDeleteShape,
    ResetTransform,
}

impl View for EditorAction {
    type V = ActionView;

    open spec fn view(&self) -> ActionView {
        match self {
            EditorAction::Undo => ActionView::Undo,
            EditorAction::Redo => ActionView::Redo,
            EditorAction::NewScene => ActionView::NewScene,
            EditorAction::Duplicate => ActionView::Duplicate,
            EditorAction::Delete => ActionView::Delete,
            EditorAction::Deselect => ActionView::Deselect,
            EditorAction::HideSelected => ActionView::HideSelected,
            EditorAction::ShowAll => ActionView::ShowAll,
            EditorAction::AddBone => ActionView::AddBone,
            EditorAction::AddShape(k) => ActionView::AddShape(*k as nat),
            EditorAction::AddChildBone(b) => ActionView::AddChildBone(*b),
            EditorAction::AddShapeToBone(b, k) => ActionView::AddShapeToBone(*b, *k as nat),
            EditorAction::DuplicateBone(b) => ActionView::DuplicateBone(*b),
            EditorAction::DuplicateShape(s) => ActionView::DuplicateShape(*s),
            EditorAction::DeleteBone(b) => ActionView::DeleteBone(*b),
            EditorAction::DeleteShape(s) => ActionView::DeleteShape(*s),
            EditorAction::DeleteBoneRecursive(b) => ActionView::DeleteBoneRecursive(*b),
            EditorAction::ReparentBone { bone, new_parent } => ActionView::ReparentBone(*bone, *new_parent),
            EditorAction::ReparentShape { shape, bone } => ActionView::ReparentShape(*shape, *bone),
            EditorAction::ToggleBoneVisibility(b) => ActionView::ToggleBoneVisibility(*b),
            EditorAction::ToggleShapeVisibility(s) => ActionView::ToggleShapeVisibility(*s),
            EditorAction::RenameBone(b, n) => ActionView::RenameBone(*b, n@),
            EditorAction::RenameShape(s, n) => ActionView::RenameShape(*s, n@),
            EditorAction::SelectBone(b) => ActionView::SelectBone(*b),
            EditorAction::SelectShape(s, b) => ActionView::SelectShape(*s, *b),
            EditorAction::ConfirmAddShape(k) => ActionView::ConfirmAddShape(*k as nat),
            EditorAction::PanelDeleteShape => ActionView::PanelDeleteShape,
            EditorAction::ResetTransform => ActionView::ResetTransform,
        }
    }
}

/// The action names a primitive kind inside the editor's list.
pub open spec fn kinds_in_range(a: ActionView) -> bool {
    match a {
        ActionView::AddShape(k) => k < 13,
        ActionView::AddShapeToBone(_, k) => k < 13,
        ActionView::ConfirmAddShape(k) => k < 13,
        _ => true,
    }
}

/// The root bone's identifier.
pub open spec fn root_id() -> BoneId {
    BoneId(0)
}

/// The scene `"Untitled"` that the new-scene action starts: a root bone only.
pub open spec fn untitled_scene() -> SceneView {
    SceneView {
        name: "Untitled"@,
        root_bone: BoneView {
            id: root_id(),
            name: "Root"@,
            transform: ShapeTransform::default_spec(),
            visible: true,
            physics: crate::bone::BonePhysicsProps::default_spec(),
            children: Seq::empty(),
            shapes: Seq::empty(),
        },
        combination: CombinationOp::Union,
        light_dir: default_light_dir(),
        settings: SceneSettings::default_spec(),
    }
}

/// `c` is a copy of shape `s` under a fresh identifier, named with `" Copy"` appended.
pub open spec fn shape_copy_of(s: ShapeView, c: ShapeView) -> bool {
    is_random_uuid(c.id.0) && c == (ShapeView { id: c.id, name: copy_name(s.name), ..s })
}

/// A tree edit that may not apply: its result, or the tree unchanged.
pub open spec fn or_same(o: Option<BoneView>, t: BoneView) -> BoneView {
    match o {
        Some(u) => u,
        None => t,
    }
}

/// The subtree with every bone and every shape visible.
pub open spec fn shown(b: BoneView) -> BoneView
    decreases b, 1int,
{
    BoneView {
        visible: true,
        shapes: b.shapes.map_values(|s: ShapeView| ShapeView { visible: true, ..s }),
        children: shown_list(b.children),
        ..b
    }
}

/// `shown` of each subtree.
pub open spec fn shown_list(cs: Seq<BoneView>) -> Seq<BoneView>
    decreases cs, 0int,
{
    if cs.len() == 0 {
        Seq::empty()
    } else {
        shown_list(cs.drop_last()).push(shown(cs.last()))
    }
}

/// The state with its scene's bone tree replaced.
pub open spec fn with_tree(s: EditorView, t: BoneView) -> EditorView {
    EditorView { scene: SceneView { root_bone: t, ..s.scene }, ..s }
}

/// The bone the duplicate of bone `id` is added under: its parent, as `parent_path`
/// finds it; the tree with the copy `c` added there, or unchanged without a parent.
pub open spec fn with_bone_copy(t: BoneView, id: BoneId, c: BoneView) -> BoneView {
    match parent_path(t, id) {
        Some(q) => or_same(t.with_child(t.node_at(q).id, c), t),
        None => t,
    }
}

/// The identifiers given to the action's new items are fresh, and the duplicates copy
/// what they duplicate: `nb` for a new or duplicated bone, `ns` for a new or duplicated shape.
pub open spec fn fresh_ok(s: EditorView, a: ActionView, nb: BoneView, ns: ShapeView) -> bool {
    let t = s.scene.root_bone;
    match a {
        ActionView::AddBone | ActionView::AddChildBone(_) => fresh_bone(nb, "Bone"@, None),
        ActionView::AddShape(k) | ActionView::AddShapeToBone(_, k) | ActionView::ConfirmAddShape(k) =>
            fresh_shape(ns, prim_names()[k as int], SdfPrimitive::default_for_spec(prim_names()[k as int])),
        ActionView::Duplicate => match s.selected_shape {
            Some(id) => t.found_shape(id) is Some ==> shape_copy_of(shape_by_id(t, id), ns),
            None => match s.selected_bone {
                Some(b) => b == root_id() || (t.find_path(has_id(b)) matches Some(p) ==> duplicate_of(t.node_at(p), nb, None)),
                None => true,
            },
        },
        ActionView::DuplicateBone(b) => t.find_path(has_id(b)) matches Some(p) ==> duplicate_of(t.node_at(p), nb, None),
        ActionView::DuplicateShape(id) => t.found_shape(id) is Some ==> shape_copy_of(shape_by_id(t, id), ns),
        _ => true,
    }
}

/// Adding bone `nb` under `parent`: it becomes the selected bone, no shape is selected.
pub open spec fn add_bone_step(s: EditorView, parent: BoneId, nb: BoneView) -> (EditorView, bool) {
    let t = s.scene.root_bone;
    (EditorView {
        selected_bone: Some(nb.id),
        selected_shape: None,
        dirty: true,
        ..with_tree(s, or_same(t.with_child(parent, nb), t))
    }, true)
}

/// Adding shape `ns` to `bone`: it becomes the selected shape.
pub open spec fn add_shape_step(s: EditorView, bone: BoneId, ns: ShapeView) -> EditorView {
    let t = s.scene.root_bone;
    EditorView { selected_shape: Some(ns.id), dirty: true, ..with_tree(s, or_same(t.with_shape(bone, ns), t)) }
}

/// Duplicating shape `id` as `ns` beside it; nothing when the shape is not in the tree.
pub open spec fn dup_shape_step(s: EditorView, id: ShapeId, ns: ShapeView) -> (EditorView, bool) {
    let t = s.scene.root_bone;
    match t.found_shape(id) {
        Some((_, b)) => (add_shape_step(s, b, ns), true),
        None => (s, false),
    }
}

/// Duplicating bone `id` as `nb` beside it; nothing when the bone is not in the tree.
pub open spec fn dup_bone_step(s: EditorView, id: BoneId, nb: BoneView) -> (EditorView, bool) {
    let t = s.scene.root_bone;
    match t.find_path(has_id(id)) {
        Some(_) => (EditorView {
            selected_bone: Some(nb.id),
            selected_shape: None,
            dirty: true,
            ..with_tree(s, with_bone_copy(t, id, nb))
        }, true),
        None => (s, false),
    }
}

/// Toggling the visibility of shape `id`; nothing when it is not in the tree.
pub open spec fn toggle_shape_step(s: EditorView, id: ShapeId) -> EditorView {
    let t = s.scene.root_bone;
    match t.found_shape(id) {
        Some((sh, _)) => EditorView { dirty: true, ..with_tree(s, put_shape(t, id, ShapeView { visible: !sh.visible, ..sh })) },
        None => s,
    }
}

/// Toggling the visibility of bone `id`; nothing when it is not in the tree.
pub open spec fn toggle_bone_step(s: EditorView, id: BoneId) -> EditorView {
    let t = s.scene.root_bone;
    match t.find_path(has_id(id)) {
        Some(_) => EditorView {
            dirty: true,
            ..with_tree(s, edit_bone(t, id, (|b: BoneView| BoneView { visible: !b.visible, ..b })))
        },
        None => s,
    }
}

/// Deleting bone `id` (not the root), its content moving to its parent, or with its whole
/// subtree when `recursive`; the selection is cleared when it was that bone.
pub open spec fn delete_bone_step(s: EditorView, id: BoneId, recursive: bool) -> (EditorView, bool) {
    let t = s.scene.root_bone;
    if id == root_id() {
        (s, false)
    } else {
        let u = if recursive { t.take_bone(id).0 } else { t.dissolve_bone(id).0 };
        let was = s.selected_bone == Some(id);
        (EditorView {
            selected_bone: if was { None } else { s.selected_bone },
            selected_shape: if was { None } else { s.selected_shape },
            dirty: true,
            ..with_tree(s, u)
        }, true)
    }
}

/// The next state and history (before any undo snapshot is recorded) after action `a`,
/// and whether the bone tree or the selection changed in a way that the property panels
/// must show afresh.  `nb` and `ns` are the action's new bone and shape.
pub open spec fn step_spec(s: EditorView, h: UndoView, a: ActionView, nb: BoneView, ns: ShapeView) -> (EditorView, UndoView, bool) {
    let t = s.scene.root_bone;
    let cleared = EditorView { selected_bone: None, selected_shape: None, ..s };
    match a {
        ActionView::Undo => match h.undo_spec(s.scene) {
            (h1, Some(prev)) => (EditorView { scene: prev, selected_bone: None, selected_shape: None, dirty: true }, h1, true),
            (h1, None) => (s, h1, false),
        },
        ActionView::Redo => match h.redo_spec(s.scene) {
            (h1, Some(next)) => (EditorView { scene: next, selected_bone: None, selected_shape: None, dirty: true }, h1, true),
            (h1, None) => (s, h1, false),
        },
        ActionView::NewScene =>
            (EditorView { scene: untitled_scene(), selected_bone: None, selected_shape: None, dirty: true }, h, true),
        ActionView::Duplicate => match s.selected_shape {
            Some(id) => { let r = dup_shape_step(s, id, ns); (r.0, h, r.1) },
            None => match s.selected_bone {
                Some(b) => if b == root_id() { (s, h, false) } else { let r = dup_bone_step(s, b, nb); (r.0, h, r.1) },
                None => (s, h, false),
            },
        },
        ActionView::Delete => match s.selected_shape {
            Some(id) => (EditorView { selected_shape: None, dirty: true, ..with_tree(s, t.drop_shapes(id).0) }, h, true),
            None => match s.selected_bone {
                Some(b) => if b == root_id() {
                    (s, h, false)
                } else {
                    (EditorView { selected_bone: None, selected_shape: None, dirty: true, ..with_tree(s, t.dissolve_bone(b).0) }, h, true)
                },
                None => (s, h, false),
            },
        },
        ActionView::Deselect => (cleared, h, true),
        ActionView::HideSelected => match s.selected_shape {
            Some(id) => (toggle_shape_step(s, id), h, false),
            None => match s.selected_bone {
                Some(b) => (toggle_bone_step(s, b), h, false),
                None => (s, h, false),
            },
        },
        ActionView::ShowAll => (EditorView { dirty: true, ..with_tree(s, shown(t)) }, h, false),
        ActionView::AddBone => {
            let r = add_bone_step(s, match s.selected_bone { Some(b) => b, None => root_id() }, nb);
            (r.0, h, r.1)
        },
        ActionView::AddShape(_) =>
            (add_shape_step(s, match s.selected_bone { Some(b) => b, None => root_id() }, ns), h, true),
        ActionView::AddChildBone(p) => { let r = add_bone_step(s, p, nb); (r.0, h, r.1) },
        ActionView::AddShapeToBone(b, _) => (add_shape_step(s, b, ns), h, true),
        ActionView::DuplicateBone(b) => { let r = dup_bone_step(s, b, nb); (r.0, h, r.1) },
        ActionView::DuplicateShape(id) => { let r = dup_shape_step(s, id, ns); (r.0, h, r.1) },
        ActionView::DeleteBone(b) => { let r = delete_bone_step(s, b, false); (r.0, h, r.1) },
        ActionView::DeleteShape(id) => (EditorView {
            selected_shape: if s.selected_shape == Some(id) { None } else { s.selected_shape },
            dirty: true,
            ..with_tree(s, t.drop_shapes(id).0)
        }, h, true),
        ActionView::DeleteBoneRecursive(b) => { let r = delete_bone_step(s, b, true); (r.0, h, r.1) },
        ActionView::ReparentBone(b, p) => {
            let (u, ok) = t.moved_bone(b, p);
            (EditorView { dirty: s.dirty || ok, ..with_tree(s, u) }, h, ok)
        },
        ActionView::ReparentShape(id, b) => {
            let (u, ok) = t.moved_shape(id, b);
            (EditorView { dirty: s.dirty || ok, ..with_tree(s, u) }, h, ok)
        },
        ActionView::ToggleBoneVisibility(b) => (toggle_bone_step(s, b), h, false),
        ActionView::ToggleShapeVisibility(id) => (toggle_shape_step(s, id), h, false),
        ActionView::RenameBone(b, n) => if n.len() > 0 && t.find_path(has_id(b)) is Some {
            (with_tree(s, edit_bone(t, b, (|x: BoneView| BoneView { name: n, ..x }))), h, false)
        } else {
            (s, h, false)
        },
        ActionView::RenameShape(id, n) => match t.found_shape(id) {
            Some((sh, _)) => if n.len() > 0 {
                (with_tree(s, put_shape(t, id, ShapeView { name: n, ..sh })), h, false)
            } else {
                (s, h, false)
            },
            None => (s, h, false),
        },
        ActionView::SelectBone(b) => if s.selected_bone != Some(b) {
            (EditorView { selected_bone: Some(b), selected_shape: None, ..s }, h, true)
        } else {
            (s, h, false)
        },
        ActionView::SelectShape(id, b) => {
            let s1 = EditorView { selected_bone: Some(b), ..s };
            let s2 = EditorView { selected_shape: Some(id), ..s1 };
            (s2, h, s.selected_bone != Some(b) || s.selected_shape != Some(id))
        },
        ActionView::ConfirmAddShape(_) =>
            (add_shape_step(s, match s.selected_bone { Some(b) => b, None => root_id() }, ns), h, false),
        ActionView::PanelDeleteShape => match s.selected_shape {
            Some(id) => (EditorView { selected_shape: None, dirty: true, ..with_tree(s, t.drop_shapes(id).0) }, h, false),
            None => (s, h, false),
        },
        ActionView::ResetTransform => match s.selected_shape {
            Some(id) => match t.found_shape(id) {
                Some((sh, _)) => (EditorView {
                    dirty: true,
                    ..with_tree(s, put_shape(t, id, ShapeView { transform: ShapeTransform::default_spec(), ..sh }))
                }, h, false),
                None => (s, h, false),
            },
            None => (s, h, false),
        },
    }
}

/// One editor step with the action's new bone `nb` and shape `ns`: the state `t`, the
/// history `h2` and the flag `changed` are those of `step_spec`, except that the scene as
/// it was is recorded for undo when the action left the scene different.
pub open spec fn editor_step_with(
    s: EditorView, h: UndoView, a: ActionView, nb: BoneView, ns: ShapeView, t: EditorView, h2: UndoView, changed: bool,
) -> bool {
    let r = step_spec(s, h, a, nb, ns);
    &&& fresh_ok(s, a, nb, ns)
    &&& t == r.0
    &&& changed == r.2
    &&& h2 == if r.0.scene == s.scene { r.1 } else { r.1.push_spec(s.scene) }
}

/// One editor step: `editor_step_with` for some fresh new bone and shape.
pub open spec fn editor_step(s: EditorView, h: UndoView, a: ActionView, t: EditorView, h2: UndoView, changed: bool) -> bool {
    exists|nb: BoneView, ns: ShapeView| #[trigger] editor_step_with(s, h, a, nb, ns, t, h2, changed)
}


impl SdfBone {
    /// A copy of the subtree with every bone and every shape visible.
    pub fn shown_copy(&self) -> (r: SdfBone)
        ensures
            r@ == shown(self@),
        decreases self,
    {
        proof {
            lemma_bones_view(self.children@);
            crate::bone::lemma_bone_view_fields();
        }
        let mut children: Vec<SdfBone> = Vec::new();
        let mut i: usize = 0;
        while i < self.children.len()
            invariant
                i <= self.children@.len(),
                self@.children.len() == self.children@.len(),
                forall|k: int| 0 <= k < self.children@.len() ==> #[trigger] self@.children[k] == bone_view(self.children@[k]),
                bones_view(children@) == shown_list(self@.children.take(i as int)),
            decreases self.children@.len() - i,
        {
            let c = self.children[i].shown_copy();
            proof {
                crate::bone::lemma_bones_view_push(children@, c);
                assert(self@.children.take(i + 1).drop_last() =~= self@.children.take(i as int));
            }
            children.push(c);
            i += 1;
        }
        assert(self@.children.take(i as int) =~= self@.children);
        let mut shapes: Vec<SdfShape> = Vec::new();
        let mut j: usize = 0;
        while j < self.shapes.len()
            invariant
                j <= self.shapes@.len(),
                self@.shapes == shapes_view(self.shapes@),
                shapes_view(shapes@) =~= self@.shapes.take(j as int).map_values(|x: ShapeView| ShapeView { visible: true, ..x }),
            decreases self.shapes@.len() - j,
        {
            let mut sh = self.shapes[j].copy();
            sh.visible = true;
            let ghost before = shapes@;
            shapes.push(sh);
            assert(shapes_view(shapes@) =~= shapes_view(before).push(sh@));
            assert(self@.shapes.take(j + 1) =~= self@.shapes.take(j as int).push(self@.shapes[j as int]));
            j += 1;
        }
        assert(self@.shapes.take(j as int) =~= self@.shapes);
        SdfBone {
            id: self.id,
            name: self.name.clone(),
            transform: self.transform,
            visible: true,
            physics: self.physics,
            children,
            shapes,
        }
    }
}

/// Append bone `c` to the children of the bone with identifier `parent`, if there is one.
fn add_child_to(root: &mut SdfBone, parent: BoneId, c: SdfBone)
    ensures
        final(root)@ == or_same(old(root)@.with_child(parent, c@), old(root)@),
{
    match root.find_bone_mut(parent) {
        Some(b) => b.push_child(c),
        None => {},
    }
}

/// Append shape `sh` to the shapes of the bone with identifier `bone`, if there is one.
fn add_shape_to(root: &mut SdfBone, bone: BoneId, sh: SdfShape)
    ensures
        final(root)@ == or_same(old(root)@.with_shape(bone, sh@), old(root)@),
{
    match root.find_bone_mut(bone) {
        Some(b) => b.push_shape(sh),
        None => {},
    }
}

/// Add a new bone named `"Bone"` under `parent` and select it.
fn do_add_bone(st: &mut EditorState, parent: BoneId) -> (r: (bool, Ghost<BoneView>))
    ensures
        fresh_bone(r.1@, "Bone"@, None),
        (final(st)@, r.0) == add_bone_step(old(st)@, parent, r.1@),
{
    let nb = SdfBone::new("Bone");
    let ghost g = nb@;
    assert(g.children =~= Seq::<BoneView>::empty());
    assert(g.shapes =~= Seq::<ShapeView>::empty());
    let id = nb.id;
    add_child_to(&mut st.scene.root_bone, parent, nb);
    st.selected_bone = Some(id);
    st.selected_shape = None;
    st.dirty = true;
    (true, Ghost(g))
}

/// Add a new shape of the `kind`-th kind to `bone` and select it.
fn do_add_shape(st: &mut EditorState, bone: BoneId, kind: usize) -> (r: Ghost<ShapeView>)
    requires
        kind < 13,
    ensures
        fresh_shape(r@, prim_names()[kind as int], SdfPrimitive::default_for_spec(prim_names()[kind as int])),
        final(st)@ == add_shape_step(old(st)@, bone, r@),
{
    let name = prim_name(kind);
    let sh = SdfShape::new(name, SdfPrimitive::default_for(name));
    let ghost g = sh@;
    let id = sh.id;
    add_shape_to(&mut st.scene.root_bone, bone, sh);
    st.selected_shape = Some(id);
    st.dirty = true;
    Ghost(g)
}

/// Duplicate shape `id` beside it and select the copy.
fn do_dup_shape(st: &mut EditorState, id: ShapeId) -> (r: (bool, Ghost<ShapeView>))
    ensures
        old(st)@.scene.root_bone.found_shape(id) is Some ==> shape_copy_of(shape_by_id(old(st)@.scene.root_bone, id), r.1@),
        (final(st)@, r.0) == dup_shape_step(old(st)@, id, r.1@),
{
    let (dup, b) = match st.scene.root_bone.find_shape(id) {
        Some((sh, b)) => (sh.duplicate(), b),
        None => return (false, Ghost(arbitrary())),
    };
    let ghost g = dup@;
    let dup_id = dup.id;
    add_shape_to(&mut st.scene.root_bone, b, dup);
    st.selected_shape = Some(dup_id);
    st.dirty = true;
    (true, Ghost(g))
}

/// Duplicate bone `id` (with its subtree) beside itself and select the copy.
fn do_dup_bone(st: &mut EditorState, id: BoneId) -> (r: (bool, Ghost<BoneView>))
    ensures
        old(st)@.scene.root_bone.find_path(has_id(id)) matches Some(p)
            ==> duplicate_of(old(st)@.scene.root_bone.node_at(p), r.1@, None),
        (final(st)@, r.0) == dup_bone_step(old(st)@, id, r.1@),
{
    let dup = match st.scene.root_bone.find_bone(id) {
        Some(b) => b.duplicate_deep(),
        None => return (false, Ghost(arbitrary())),
    };
    let ghost g = dup@;
    let dup_id = dup.id;
    match st.scene.root_bone.find_parent_of_bone(id) {
        Some(pid) => add_child_to(&mut st.scene.root_bone, pid, dup),
        None => {},
    }
    st.selected_bone = Some(dup_id);
    st.selected_shape = None;
    st.dirty = true;
    (true, Ghost(g))
}

/// Toggle the visibility of shape `id`.
fn do_toggle_shape(st: &mut EditorState, id: ShapeId)
    ensures
        final(st)@ == toggle_shape_step(old(st)@, id),
{
    match st.scene.root_bone.find_shape_mut(id) {
        Some((sh, _)) => {
            sh.visible = !sh.visible;
            st.dirty = true;
        },
        None => {},
    }
}

/// Toggle the visibility of bone `id`.
fn do_toggle_bone(st: &mut EditorState, id: BoneId)
    ensures
        final(st)@ == toggle_bone_step(old(st)@, id),
{
    match st.scene.root_bone.find_bone_mut(id) {
        Some(b) => {
            b.visible = !b.visible;
            st.dirty = true;
        },
        None => {},
    }
}

/// Delete bone `id` (never the root), dissolving it or with its subtree.
fn do_delete_bone(st: &mut EditorState, id: BoneId, recursive: bool) -> (r: bool)
    ensures
        (final(st)@, r) == delete_bone_step(old(st)@, id, recursive),
{
    if id.is_root() {
        return false;
    }
    if recursive {
        let _ = st.scene.root_bone.extract_bone(id);
    } else {
        let _ = st.scene.root_bone.remove_bone(id);
    }
    if st.selected_bone == Some(id) {
        st.selected_bone = None;
        st.selected_shape = None;
    }
    st.dirty = true;
    true
}


/// The root bone's identifier when no bone is selected.
fn selected_or_root(b: Option<BoneId>) -> (r: BoneId)
    ensures
        r == match b {
            Some(x) => x,
            None => root_id(),
        },
{
    match b {
        Some(x) => x,
        None => BoneId::root(),
    }
}

/// The group of actions that `apply_group` handles with number `g`.
pub open spec fn action_group(a: ActionView) -> nat {
    match a {
        ActionView::Undo | ActionView::Redo | ActionView::NewScene => 0,
        ActionView::Duplicate | ActionView::Delete | ActionView::Deselect | ActionView::HideSelected | ActionView::ShowAll => 1,
        ActionView::AddBone | ActionView::AddShape(..) | ActionView::AddChildBone(..) | ActionView::AddShapeToBone(..) | ActionView::ConfirmAddShape(..) => 2,
        ActionView::DuplicateBone(..) | ActionView::DuplicateShape(..) | ActionView::DeleteBone(..) | ActionView::DeleteShape(..) | ActionView::DeleteBoneRecursive(..) | ActionView::ReparentBone(..) | ActionView::ReparentShape(..) => 3,
        ActionView::ToggleBoneVisibility(..) | ActionView::ToggleShapeVisibility(..) | ActionView::RenameBone(..) | ActionView::RenameShape(..) | ActionView::SelectBone(..) | ActionView::SelectShape(..) | ActionView::PanelDeleteShape | ActionView::ResetTransform => 4,
    }
}

/// Apply an action of group 0 (see `action_group`).
fn apply_group0(st: &mut EditorState, history: &mut UndoHistory, action: EditorAction) -> (r: (bool, Ghost<BoneView>, Ghost<ShapeView>))
    requires
        kinds_in_range(action@),
        action_group(action@) == 0,
    ensures
        fresh_ok(old(st)@, action@, r.1@, r.2@),
        (final(st)@, final(history)@, r.0) == step_spec(old(st)@, old(history)@, action@, r.1@, r.2@),
{
    let nb: Ghost<BoneView> = Ghost(arbitrary());
    let ns: Ghost<ShapeView> = Ghost(arbitrary());
    match action {
        EditorAction::Undo => {
            match history.undo(&st.scene) {
                Some(prev) => {
                    st.scene = prev;
                    st.selected_bone = None;
                    st.selected_shape = None;
                    st.dirty = true;
                    (true, nb, ns)
                },
                None => (false, nb, ns),
            }
        },
        EditorAction::Redo => {
            match history.redo(&st.scene) {
                Some(next) => {
                    st.scene = next;
                    st.selected_bone = None;
                    st.selected_shape = None;
                    st.dirty = true;
                    (true, nb, ns)
                },
                None => (false, nb, ns),
            }
        },
        EditorAction::NewScene => {
            st.scene = SdfScene::new("Untitled");
            assert(st.scene@.root_bone.children =~= Seq::<BoneView>::empty());
            assert(st.scene@.root_bone.shapes =~= Seq::<ShapeView>::empty());
            assert(st.scene@ == untitled_scene());
            st.selected_bone = None;
            st.selected_shape = None;
            st.dirty = true;
            (true, nb, ns)
        },
        _ => {
            assert(false);
            (false, nb, ns)
        },
    }
}

/// Apply an action of group 1 (see `action_group`).
fn apply_group1(st: &mut EditorState, history: &mut UndoHistory, action: EditorAction) -> (r: (bool, Ghost<BoneView>, Ghost<ShapeView>))
    requires
        kinds_in_range(action@),
        action_group(action@) == 1,
    ensures
        fresh_ok(old(st)@, action@, r.1@, r.2@),
        (final(st)@, final(history)@, r.0) == step_spec(old(st)@, old(history)@, action@, r.1@, r.2@),
{
    let nb: Ghost<BoneView> = Ghost(arbitrary());
    let ns: Ghost<ShapeView> = Ghost(arbitrary());
    match action {
        EditorAction::Duplicate => {
            match st.selected_shape {
                Some(id) => {
                    let (c, g) = do_dup_shape(st, id);
                    (c, nb, g)
                },
                None => match st.selected_bone {
                    Some(b) => if b.is_root() {
                        (false, nb, ns)
                    } else {
                        let (c, g) = do_dup_bone(st, b);
                        (c, g, ns)
                    },
                    None => (false, nb, ns),
                },
            }
        },
        EditorAction::Delete => {
            match st.selected_shape {
                Some(id) => {
                    let _ = st.scene.root_bone.remove_shape(id);
                    st.selected_shape = None;
                    st.dirty = true;
                    (true, nb, ns)
                },
                None => match st.selected_bone {
                    Some(b) => if b.is_root() {
                        (false, nb, ns)
                    } else {
                        let _ = st.scene.root_bone.remove_bone(b);
                        st.selected_bone = None;
                        st.selected_shape = None;
                        st.dirty = true;
                        (true, nb, ns)
                    },
                    None => (false, nb, ns),
                },
            }
        },
        EditorAction::Deselect => {
            st.selected_bone = None;
            st.selected_shape = None;
            (true, nb, ns)
        },
        EditorAction::HideSelected => {
            match st.selected_shape {
                Some(id) => do_toggle_shape(st, id),
                None => match st.selected_bone {
                    Some(b) => do_toggle_bone(st, b),
                    None => {},
                },
            }
            (false, nb, ns)
        },
        EditorAction::ShowAll => {
            st.scene.root_bone = st.scene.root_bone.shown_copy();
            st.dirty = true;
            (false, nb, ns)
        },
        _ => {
            assert(false);
            (false, nb, ns)
        },
    }
}

/// Apply an action of group 2 (see `action_group`).
fn apply_group2(st: &mut EditorState, history: &mut UndoHistory, action: EditorAction) -> (r: (bool, Ghost<BoneView>, Ghost<ShapeView>))
    requires
        kinds_in_range(action@),
        action_group(action@) == 2,
    ensures
        fresh_ok(old(st)@, action@, r.1@, r.2@),
        (final(st)@, final(history)@, r.0) == step_spec(old(st)@, old(history)@, action@, r.1@, r.2@),
{
    let nb: Ghost<BoneView> = Ghost(arbitrary());
    let ns: Ghost<ShapeView> = Ghost(arbitrary());
    match action {
        EditorAction::AddBone => {
            let parent = selected_or_root(st.selected_bone);
            let (c, g) = do_add_bone(st, parent);
            (c, g, ns)
        },
        EditorAction::AddShape(k) => {
            let bone = selected_or_root(st.selected_bone);
            let g = do_add_shape(st, bone, k);
            (true, nb, g)
        },
        EditorAction::AddChildBone(p) => {
            let (c, g) = do_add_bone(st, p);
            (c, g, ns)
        },
        EditorAction::AddShapeToBone(b, k) => {
            let g = do_add_shape(st, b, k);
            (true, nb, g)
        },
        EditorAction::ConfirmAddShape(k) => {
            let bone = selected_or_root(st.selected_bone);
            let g = do_add_shape(st, bone, k);
            (false, nb, g)
        },
        _ => {
            assert(false);
            (false, nb, ns)
        },
    }
}

/// Apply an action of group 3 (see `action_group`).
fn apply_group3(st: &mut EditorState, history: &mut UndoHistory, action: EditorAction) -> (r: (bool, Ghost<BoneView>, Ghost<ShapeView>))
    requires
        kinds_in_range(action@),
        action_group(action@) == 3,
    ensures
        fresh_ok(old(st)@, action@, r.1@, r.2@),
        (final(st)@, final(history)@, r.0) == step_spec(old(st)@, old(history)@, action@, r.1@, r.2@),
{
    let nb: Ghost<BoneView> = Ghost(arbitrary());
    let ns: Ghost<ShapeView> = Ghost(arbitrary());
    match action {
        EditorAction::DuplicateBone(b) => {
            let (c, g) = do_dup_bone(st, b);
            (c, g, ns)
        },
        EditorAction::DuplicateShape(id) => {
            let (c, g) = do_dup_shape(st, id);
            (c, nb, g)
        },
        EditorAction::DeleteBone(b) => (do_delete_bone(st, b, false), nb, ns),
        EditorAction::DeleteShape(id) => {
            let _ = st.scene.root_bone.remove_shape(id);
            if st.selected_shape == Some(id) {
                st.selected_shape = None;
            }
            st.dirty = true;
            (true, nb, ns)
        },
        EditorAction::DeleteBoneRecursive(b) => (do_delete_bone(st, b, true), nb, ns),
        EditorAction::ReparentBone { bone, new_parent } => {
            let ok = st.scene.root_bone.reparent_bone(bone, new_parent);
            if ok {
                st.dirty = true;
            }
            (ok, nb, ns)
        },
        EditorAction::ReparentShape { shape, bone } => {
            let ok = st.scene.root_bone.reparent_shape(shape, bone);
            if ok {
                st.dirty = true;
            }
            (ok, nb, ns)
        },
        _ => {
            assert(false);
            (false, nb, ns)
        },
    }
}

/// Apply an action of group 4 (see `action_group`).
fn apply_group4(st: &mut EditorState, history: &mut UndoHistory, action: EditorAction) -> (r: (bool, Ghost<BoneView>, Ghost<ShapeView>))
    requires
        kinds_in_range(action@),
        action_group(action@) == 4,
    ensures
        fresh_ok(old(st)@, action@, r.1@, r.2@),
        (final(st)@, final(history)@, r.0) == step_spec(old(st)@, old(history)@, action@, r.1@, r.2@),
{
    let nb: Ghost<BoneView> = Ghost(arbitrary());
    let ns: Ghost<ShapeView> = Ghost(arbitrary());
    match action {
        EditorAction::ToggleBoneVisibility(b) => {
            do_toggle_bone(st, b);
            (false, nb, ns)
        },
        EditorAction::ToggleShapeVisibility(id) => {
            do_toggle_shape(st, id);
            (false, nb, ns)
        },
        EditorAction::RenameBone(b, n) => {
            if !n.as_str().is_empty() {
                match st.scene.root_bone.find_bone_mut(b) {
                    Some(x) => x.name = n,
                    None => {},
                }
            }
            (false, nb, ns)
        },
        EditorAction::RenameShape(id, n) => {
            if !n.as_str().is_empty() {
                match st.scene.root_bone.find_shape_mut(id) {
                    Some((x, _)) => x.name = n,
                    None => {},
                }
            }
            (false, nb, ns)
        },
        EditorAction::SelectBone(b) => {
            if st.selected_bone != Some(b) {
                st.selected_bone = Some(b);
                st.selected_shape = None;
                (true, nb, ns)
            } else {
                (false, nb, ns)
            }
        },
        EditorAction::SelectShape(id, b) => {
            let changed = st.selected_bone != Some(b) || st.selected_shape != Some(id);
            st.selected_bone = Some(b);
            st.selected_shape = Some(id);
            (changed, nb, ns)
        },
        EditorAction::PanelDeleteShape => {
            match st.selected_shape {
                Some(id) => {
                    let _ = st.scene.root_bone.remove_shape(id);
                    st.selected_shape = None;
                    st.dirty = true;
                },
                None => {},
            }
            (false, nb, ns)
        },
        EditorAction::ResetTransform => {
            match st.selected_shape {
                Some(id) => match st.scene.root_bone.find_shape_mut(id) {
                    Some((x, _)) => {
                        x.reset_transform();
                        st.dirty = true;
                    },
                    None => {},
                },
                None => {},
            }
            (false, nb, ns)
        },

        _ => {
            assert(false);
            (false, nb, ns)
        },
    }
}

/// Apply one action, without recording an undo snapshot; its new bone and shape.
fn apply_action(st: &mut EditorState, history: &mut UndoHistory, action: EditorAction) -> (r: (bool, Ghost<BoneView>, Ghost<ShapeView>))
    requires
        kinds_in_range(action@),
    ensures
        fresh_ok(old(st)@, action@, r.1@, r.2@),
        (final(st)@, final(history)@, r.0) == step_spec(old(st)@, old(history)@, action@, r.1@, r.2@),
{
    let g: u8 = match &action {
        EditorAction::Undo | EditorAction::Redo | EditorAction::NewScene => 0,
        EditorAction::Duplicate | EditorAction::Delete | EditorAction::Deselect | EditorAction::HideSelected | EditorAction::ShowAll => 1,
        EditorAction::AddBone | EditorAction::AddShape(..) | EditorAction::AddChildBone(..) | EditorAction::AddShapeToBone(..) | EditorAction::ConfirmAddShape(..) => 2,
        EditorAction::DuplicateBone(..) | EditorAction::DuplicateShape(..) | EditorAction::DeleteBone(..) | EditorAction::DeleteShape(..) | EditorAction::DeleteBoneRecursive(..) | EditorAction::ReparentBone { .. } | EditorAction::ReparentShape { .. } => 3,
        EditorAction::ToggleBoneVisibility(..) | EditorAction::ToggleShapeVisibility(..) | EditorAction::RenameBone(..) | EditorAction::RenameShape(..) | EditorAction::SelectBone(..) | EditorAction::SelectShape(..) | EditorAction::PanelDeleteShape | EditorAction::ResetTransform => 4,
    };
    if g == 0 {
        apply_group0(st, history, action)
    } else if g == 1 {
        apply_group1(st, history, action)
    } else if g == 2 {
        apply_group2(st, history, action)
    } else if g == 3 {
        apply_group3(st, history, action)
    } else {
        apply_group4(st, history, action)
    }
}

/// Apply one editor action and record the scene as it was for undo when the action left
/// the scene different.  Returns whether the bone tree or the selection changed so that
/// the property panels must be filled afresh.
pub fn apply_editor_action(st: &mut EditorState, history: &mut UndoHistory, action: EditorAction) -> (bone_changed: bool)
    requires
        kinds_in_range(action@),
    ensures
        editor_step(old(st)@, old(history)@, action@, final(st)@, final(history)@, bone_changed),
{
    let ghost s0 = st@;
    let ghost h0 = history@;
    let ghost a = action@;
    let before = st.scene.copy();
    let (changed, Ghost(nb), Ghost(ns)) = apply_action(st, history, action);
    let ghost h1 = history@;
    if !scene_same(&st.scene, &before) {
        history.push(before);
    }
    assert(editor_step_with(s0, h0, a, nb, ns, st@, history@, changed));
    changed
}

/// An action that changed the scene is undone by the next undo: the scene comes back as
/// it was before the action, with nothing selected.
pub proof fn law_undo_reverts_edit(
    s: EditorView, h: UndoView, a: ActionView, t: EditorView, h2: UndoView, changed: bool, nb: BoneView, ns: ShapeView,
)
    requires
        editor_step(s, h, a, t, h2, changed),
        t.scene != s.scene,
    ensures
        step_spec(t, h2, ActionView::Undo, nb, ns).0
            == (EditorView { scene: s.scene, selected_bone: None, selected_shape: None, dirty: true }),
{
    let (b, c) = choose|b: BoneView, c: ShapeView| #[trigger] editor_step_with(s, h, a, b, c, t, h2, changed);
    let r = step_spec(s, h, a, b, c);
    crate::undo::law_undo_returns_pushed(r.1, s.scene, t.scene);
}


/// Deleting a bone from its context menu removes that bone alone: its child bones and
/// its shapes stay in the scene (they move to its parent), so the scene has one bone
/// fewer and every shape it had.  The step reports a change.
pub proof fn law_delete_bone_keeps_content(s: EditorView, h: UndoView, b: BoneId, t: EditorView, h2: UndoView, changed: bool)
    requires
        editor_step(s, h, ActionView::DeleteBone(b), t, h2, changed),
        b != root_id(),
        s.scene.root_bone.find_path(crate::bone::parent_of(b)) is Some,
    ensures
        t.scene.root_bone.size() + 1 == s.scene.root_bone.size(),
        t.scene.root_bone.shape_total() == s.scene.root_bone.shape_total(),
        changed,
{
    crate::bone_laws::law_remove_bone_counts(s.scene.root_bone, b);
}

/// The Delete key on a selected bone (and no selected shape) does the same: one bone
/// fewer, every shape kept, and nothing selected after.
pub proof fn law_delete_selected_bone_keeps_content(s: EditorView, h: UndoView, t: EditorView, h2: UndoView, changed: bool)
    requires
        editor_step(s, h, ActionView::Delete, t, h2, changed),
        s.selected_shape is None,
        s.selected_bone matches Some(b) && b != root_id() && s.scene.root_bone.find_path(crate::bone::parent_of(b)) is Some,
    ensures
        t.scene.root_bone.size() + 1 == s.scene.root_bone.size(),
        t.scene.root_bone.shape_total() == s.scene.root_bone.shape_total(),
        t.selected_bone is None && t.selected_shape is None,
        changed,
{
    crate::bone_laws::law_remove_bone_counts(s.scene.root_bone, s.selected_bone->0);
}

/// Deleting a bone with its contents removes its whole subtree: the scene loses the
/// subtree's bones and shapes, and nothing else.
pub proof fn law_delete_bone_recursive_counts(s: EditorView, h: UndoView, b: BoneId, t: EditorView, h2: UndoView, changed: bool)
    requires
        editor_step(s, h, ActionView::DeleteBoneRecursive(b), t, h2, changed),
        b != root_id(),
        s.scene.root_bone.find_path(crate::bone::parent_of(b)) is Some,
    ensures
        s.scene.root_bone.take_bone(b).1 matches Some(c)
            && t.scene.root_bone.size() + c.size() == s.scene.root_bone.size()
            && t.scene.root_bone.shape_total() + c.shape_total() == s.scene.root_bone.shape_total(),
        changed,
{
    crate::bone_laws::law_take_bone_counts(s.scene.root_bone, b);
}

} // verus!
