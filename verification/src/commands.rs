//! Edits that the command-line tool makes to a scene, with the message it reports for
//! each.  Every edit either succeeds with its message or fails with an error message;
//! a failed edit leaves the scene as it was unless its contract says otherwise.
use vstd::prelude::*;
use crate::bits::ZERO;
use crate::bone::{
    SdfBone, BoneView, BonePhysicsProps, has_id, has_name, holds_shape, holds_shape_named, parent_of,
    first_index, shape_has_id, shape_has_name, lemma_find_path, lemma_first_index_found,
    same_but_ids, all_ids_random, saturate, lemma_bones_view, local_pred, lemma_find_path_replace,
    lemma_node_at_replace,
};
use crate::ids::{BoneId, ShapeId, is_random_uuid, uuid_text, uuid_text_spec};
use crate::scene::{SdfScene, SceneView};
use crate::shape::{ShapeTransform, ShapeMaterial, ShapeView, SdfPrimitive, SdfShape, CombinationOp, ShapeModifier, copy_name};
use crate::encode::{with_params, with_modifier, set_prim_params, set_modifier, combo_index, combo_k, combo_at};
use crate::bits::F_0_3;
use crate::text::{push_char, push_decimal, decimal};

verus! {

/// `s` between double quotes.
pub open spec fn quoted(s: Seq<char>) -> Seq<char> {
    seq!['"'] + s + seq!['"']
}

/// `<kind> "<name>" not found`.
pub open spec fn not_found(kind: Seq<char>, name: Seq<char>) -> Seq<char> {
    kind + " "@ + quoted(name) + " not found"@
}

/// Append `s` between double quotes.
fn push_quoted(out: &mut String, s: &str)
    ensures
        final(out)@ == old(out)@ + quoted(s@),
{
    push_char(out, '"');
    out.append(s);
    push_char(out, '"');
    assert(final(out)@ =~= old(out)@ + quoted(s@));
}

/// `a` followed by `s` quoted, then `b`.
fn quoted_between(a: &str, s: &str, b: &str) -> (r: String)
    ensures
        r@ == a@ + quoted(s@) + b@,
{
    let mut out = String::from_str(a);
    push_quoted(&mut out, s);
    out.append(b);
    out
}

/// `a` followed by `s` quoted.
fn prefixed_quote(a: &str, s: &str) -> (r: String)
    ensures
        r@ == a@ + quoted(s@),
{
    let mut out = String::from_str(a);
    push_quoted(&mut out, s);
    out
}

/// The error for a missing bone or shape.
fn not_found_msg(kind: &str, name: &str) -> (r: String)
    ensures
        r@ == not_found(kind@, name@),
{
    let mut out = String::from_str(kind);
    out.append(" ");
    push_quoted(&mut out, name);
    out.append(" not found");
    assert(out@ =~= not_found(kind@, name@));
    out
}

/// A search succeeds when some bone of the tree satisfies its condition.
pub proof fn lemma_reach(t: BoneView, pred: spec_fn(BoneView) -> bool, p: Seq<int>)
    requires
        t.valid_path(p),
        pred(t.node_at(p)),
    ensures
        t.find_path(pred) is Some,
{
    lemma_find_path(t, pred);
}

/// A bone found by name can be found again by its identifier.
proof fn lemma_named_bone_has_id(t: BoneView, name: Seq<char>)
    requires
        t.find_path(has_name(name)) is Some,
    ensures
        t.find_path(has_id(t.node_at(t.find_path(has_name(name))->0).id)) is Some,
{
    let p = t.find_path(has_name(name))->0;
    lemma_find_path(t, has_name(name));
    lemma_reach(t, has_id(t.node_at(p).id), p);
}

/// Identifier of the first bone in pre-order named `name`.
pub fn find_bone_id(root: &SdfBone, name: &str) -> (r: Result<BoneId, String>)
    ensures
        match root@.find_path(has_name(name@)) {
            Some(p) => r is Ok && r->Ok_0 == root@.node_at(p).id,
            None => r is Err && r->Err_0@ == not_found("bone"@, name@),
        },
{
    match root.find_bone_by_name(name) {
        Some(b) => Ok(b.id),
        None => Err(not_found_msg("bone", name)),
    }
}

/// Path to the parent of the bone `target`: children are tried in order, and each
/// child is compared with the target before its own subtree is searched.
pub open spec fn parent_path(b: BoneView, target: BoneId) -> Option<Seq<int>>
    decreases b, 1int, 0int,
{
    parent_path_in(b.children, 0, target)
}

/// `parent_path` over the children `cs[i..]` of one bone; an empty path names that bone.
pub open spec fn parent_path_in(cs: Seq<BoneView>, i: nat, target: BoneId) -> Option<Seq<int>>
    decreases cs, 0int, cs.len() - i,
{
    if i >= cs.len() {
        None
    } else if cs[i as int].id == target {
        Some(Seq::empty())
    } else {
        match parent_path(cs[i as int], target) {
            Some(q) => Some(seq![i as int] + q),
            None => parent_path_in(cs, i + 1, target),
        }
    }
}

/// A parent path leads to a bone of the tree that has the target among its children.
pub proof fn lemma_parent_path(b: BoneView, target: BoneId)
    ensures
        parent_path(b, target) matches Some(q) ==> b.valid_path(q) && parent_of(target)(b.node_at(q)),
    decreases b, 1int,
{
    lemma_parent_path_in(b, 0, target);
}

/// `lemma_parent_path` for the search over the children of `b` from position `i`.
proof fn lemma_parent_path_in(b: BoneView, i: nat, target: BoneId)
    ensures
        parent_path_in(b.children, i, target) matches Some(q) ==> b.valid_path(q) && parent_of(target)(b.node_at(q)),
    decreases b, 0int, b.children.len() - i,
{
    let cs = b.children;
    if i < cs.len() {
        if cs[i as int].id == target {
            assert(parent_of(target)(b));
        } else {
            lemma_parent_path(cs[i as int], target);
            match parent_path(cs[i as int], target) {
                Some(q) => {
                    let p = seq![i as int] + q;
                    assert(p.drop_first() =~= q);
                },
                None => {
                    lemma_parent_path_in(b, i + 1, target);
                },
            }
        }
    }
}

impl SdfBone {
    /// Identifier of the parent of bone `target`, searched as `parent_path` searches.
    pub fn find_parent_of_bone(&self, target: BoneId) -> (r: Option<BoneId>)
        ensures
            match parent_path(self@, target) {
                Some(q) => r == Some(self@.node_at(q).id),
                None => r is None,
            },
        decreases self,
    {
        proof { lemma_bones_view(self.children@); }
        let mut i: usize = 0;
        while i < self.children.len()
            invariant
                i <= self.children@.len(),
                self@.children.len() == self.children@.len(),
                forall|j: int| 0 <= j < self.children@.len() ==> #[trigger] self@.children[j] == self.children@[j]@,
                parent_path_in(self@.children, 0, target) == parent_path_in(self@.children, i as nat, target),
            decreases self.children@.len() - i,
        {
            let child = &self.children[i];
            if child.id == target {
                return Some(self.id);
            }
            match child.find_parent_of_bone(target) {
                Some(id) => {
                    proof {
                        let q = parent_path(self@.children[i as int], target)->0;
                        assert((seq![i as int] + q).drop_first() =~= q);
                    }
                    return Some(id);
                },
                None => {},
            }
            i += 1;
        }
        None
    }
}

/// A new bone as the tool adds it: a fresh identifier, the given name, the given
/// translation (zero when none), everything else at its default, empty.
pub open spec fn fresh_bone(c: BoneView, name: Seq<char>, translate: Option<[u32; 3]>) -> bool {
    &&& is_random_uuid(c.id.0)
    &&& c.name == name
    &&& c.transform == (ShapeTransform {
        translation: match translate {
            Some(t) => t,
            None => [ZERO, ZERO, ZERO],
        },
        ..ShapeTransform::default_spec()
    })
    &&& c.visible
    &&& c.physics == BonePhysicsProps::default_spec()
    &&& c.children.len() == 0
    &&& c.shapes.len() == 0
}

/// The scene with its root bone replaced.
pub open spec fn with_root(s: SceneView, root: BoneView) -> SceneView {
    SceneView { root_bone: root, ..s }
}

/// Add a bone named `name` under the first bone named `parent`.
pub fn bone_add(scene: &mut SdfScene, parent: &str, name: &str, translate: Option<[u32; 3]>) -> (r: Result<String, String>)
    ensures
        match old(scene)@.root_bone.find_path(has_name(parent@)) {
            None => r is Err && r->Err_0@ == not_found("bone"@, parent@) && final(scene)@ == old(scene)@,
            Some(p) => r is Ok && exists|c: BoneView| #[trigger] fresh_bone(c, name@, translate)
                && final(scene)@ == with_root(
                    old(scene)@,
                    old(scene)@.root_bone.with_child(old(scene)@.root_bone.node_at(p).id, c)->Some_0,
                )
                && r->Ok_0@ == "Added bone "@ + quoted(name@) + " ("@ + uuid_text_spec(c.id.0) + ")"@,
        },
{
    let parent_id = match find_bone_id(&scene.root_bone, parent) {
        Ok(id) => id,
        Err(e) => return Err(e),
    };
    proof { lemma_named_bone_has_id(scene.root_bone@, parent@); }
    let mut bone = SdfBone::new(name);
    if let Some(t) = translate {
        bone.transform.translation = t;
    }
    let ghost c = bone@;
    let bone_id = bone.id;
    let target = scene.root_bone.find_bone_mut(parent_id).unwrap();
    target.push_child(bone);
    let mut msg = quoted_between("Added bone ", name, " (");
    msg.append(uuid_text(bone_id.0).as_str());
    msg.append(")");
    assert(fresh_bone(c, name@, translate));
    Ok(msg)
}

/// The tree with the first bone carrying `id` replaced by `f` of it.
pub open spec fn edit_bone(t: BoneView, id: BoneId, f: spec_fn(BoneView) -> BoneView) -> BoneView {
    match t.find_path(has_id(id)) {
        Some(q) => t.replace_at(q, f(t.node_at(q))),
        None => t,
    }
}

/// An edit of the bone with identifier `id` that keeps its identifier is what a read
/// of that identifier gives back, at the same place in the tree.
pub proof fn law_edit_bone_read_back(t: BoneView, id: BoneId, f: spec_fn(BoneView) -> BoneView)
    requires
        t.find_path(has_id(id)) is Some,
        f(t.node_at(t.find_path(has_id(id))->0)).id == id,
    ensures
        edit_bone(t, id, f).find_path(has_id(id)) == t.find_path(has_id(id)),
        edit_bone(t, id, f).node_at(t.find_path(has_id(id))->0) == f(t.node_at(t.find_path(has_id(id))->0)),
{
    let p = t.find_path(has_id(id))->0;
    lemma_find_path(t, has_id(id));
    assert(local_pred(has_id(id)));
    lemma_find_path_replace(t, has_id(id), f(t.node_at(p)));
    lemma_node_at_replace(t, p, f(t.node_at(p)));
}

/// Give a bone the name `name`.
pub open spec fn renamed(name: Seq<char>) -> spec_fn(BoneView) -> BoneView {
    |b: BoneView| BoneView { name, ..b }
}

/// Give a bone the translation `t`.
pub open spec fn translated(t: [u32; 3]) -> spec_fn(BoneView) -> BoneView {
    |b: BoneView| BoneView { transform: ShapeTransform { translation: t, ..b.transform }, ..b }
}

/// Give a bone the rotation `r`.
pub open spec fn rotated(r: [u32; 3]) -> spec_fn(BoneView) -> BoneView {
    |b: BoneView| BoneView { transform: ShapeTransform { rotation: r, ..b.transform }, ..b }
}

/// Outcome of an edit of the first bone named `name` by `f`: an error when there is no
/// such bone, else the tree with the bone of that bone's identifier edited.
pub open spec fn edit_named_bone(t: BoneView, name: Seq<char>, f: spec_fn(BoneView) -> BoneView) -> Option<BoneView> {
    match t.find_path(has_name(name)) {
        Some(p) => Some(edit_bone(t, t.node_at(p).id, f)),
        None => None,
    }
}

/// Rename the first bone named `name` to `to`.
pub fn bone_rename(scene: &mut SdfScene, name: &str, to: &str) -> (r: Result<String, String>)
    ensures
        match edit_named_bone(old(scene)@.root_bone, name@, renamed(to@)) {
            Some(t) => r is Ok && final(scene)@ == with_root(old(scene)@, t)
                && r->Ok_0@ == "Renamed bone "@ + quoted(name@) + " → "@ + quoted(to@),
            None => r is Err && r->Err_0@ == not_found("bone"@, name@) && final(scene)@ == old(scene)@,
        },
{
    let id = match find_bone_id(&scene.root_bone, name) {
        Ok(id) => id,
        Err(e) => return Err(e),
    };
    proof { lemma_named_bone_has_id(scene.root_bone@, name@); }
    let bone = scene.root_bone.find_bone_mut(id).unwrap();
    bone.name = String::from_str(to);
    let mut msg = quoted_between("Renamed bone ", name, " → ");
    push_quoted(&mut msg, to);
    Ok(msg)
}

/// Set the translation of the first bone named `name`.  The message, which shows the
/// numbers, is the caller's to write.
pub fn bone_move(scene: &mut SdfScene, name: &str, translate: [u32; 3]) -> (r: Result<(), String>)
    ensures
        match edit_named_bone(old(scene)@.root_bone, name@, translated(translate)) {
            Some(t) => r is Ok && final(scene)@ == with_root(old(scene)@, t),
            None => r is Err && r->Err_0@ == not_found("bone"@, name@) && final(scene)@ == old(scene)@,
        },
{
    let id = match find_bone_id(&scene.root_bone, name) {
        Ok(id) => id,
        Err(e) => return Err(e),
    };
    proof { lemma_named_bone_has_id(scene.root_bone@, name@); }
    let bone = scene.root_bone.find_bone_mut(id).unwrap();
    bone.transform.translation = translate;
    Ok(())
}

/// Set the rotation (degrees) of the first bone named `name`.  The message, which shows
/// the numbers, is the caller's to write.
pub fn bone_rotate(scene: &mut SdfScene, name: &str, rotation: [u32; 3]) -> (r: Result<(), String>)
    ensures
        match edit_named_bone(old(scene)@.root_bone, name@, rotated(rotation)) {
            Some(t) => r is Ok && final(scene)@ == with_root(old(scene)@, t),
            None => r is Err && r->Err_0@ == not_found("bone"@, name@) && final(scene)@ == old(scene)@,
        },
{
    let id = match find_bone_id(&scene.root_bone, name) {
        Ok(id) => id,
        Err(e) => return Err(e),
    };
    proof { lemma_named_bone_has_id(scene.root_bone@, name@); }
    let bone = scene.root_bone.find_bone_mut(id).unwrap();
    bone.transform.rotation = rotation;
    Ok(())
}

/// `Removed bone "<name>" and <n> children, <m> shapes`.
pub open spec fn removed_subtree_msg(name: Seq<char>, b: BoneView) -> Seq<char> {
    "Removed bone "@ + quoted(name) + " and "@ + decimal(saturate(b.size() - 1) as nat) + " children, "@
        + decimal(saturate(b.shape_total() as int) as nat) + " shapes"@
}

/// Remove the first bone named `name`.  The root cannot be removed.  With `recursive`
/// the bone's whole subtree goes; without, its shapes and children move to its parent.
pub fn bone_remove(scene: &mut SdfScene, name: &str, recursive: bool) -> (r: Result<String, String>)
    ensures
        match old(scene)@.root_bone.find_path(has_name(name@)) {
            None => r is Err && r->Err_0@ == not_found("bone"@, name@) && final(scene)@ == old(scene)@,
            Some(p) => {
                let t = old(scene)@.root_bone;
                let id = t.node_at(p).id;
                if id.0 == 0 {
                    r is Err && r->Err_0@ == "cannot remove root bone"@ && final(scene)@ == old(scene)@
                } else if recursive {
                    final(scene)@ == with_root(old(scene)@, t.take_bone(id).0) && match t.take_bone(id).1 {
                        Some(b) => r is Ok && r->Ok_0@ == removed_subtree_msg(name@, b),
                        None => r is Err && r->Err_0@ == not_found("bone"@, name@),
                    }
                } else {
                    final(scene)@ == with_root(old(scene)@, t.dissolve_bone(id).0)
                        && r is Ok && r->Ok_0@ == "Removed bone "@ + quoted(name@) + " (children and shapes reparented)"@
                }
            },
        },
{
    let id = match find_bone_id(&scene.root_bone, name) {
        Ok(id) => id,
        Err(e) => return Err(e),
    };
    if id.is_root() {
        return Err(String::from_str("cannot remove root bone"));
    }
    if recursive {
        match scene.root_bone.extract_bone(id) {
            None => Err(not_found_msg("bone", name)),
            Some(removed) => {
                let count = removed.bone_count();
                let shapes = removed.shape_count();
                let mut msg = quoted_between("Removed bone ", name, " and ");
                push_decimal(&mut msg, count as u64);
                msg.append(" children, ");
                push_decimal(&mut msg, shapes as u64);
                msg.append(" shapes");
                Ok(msg)
            },
        }
    } else {
        scene.root_bone.remove_bone(id);
        Ok(quoted_between("Removed bone ", name, " (children and shapes reparented)"))
    }
}

/// `c` is a deep duplicate of `b`: fresh identifiers throughout, the same content, and
/// the top bone named `rename` when given, else `b`'s name with `" Copy"` appended.
pub open spec fn duplicate_of(b: BoneView, c: BoneView, rename: Option<Seq<char>>) -> bool {
    &&& same_but_ids(b, BoneView { name: b.name, ..c })
    &&& all_ids_random(c)
    &&& c.name == match rename {
        Some(n) => n,
        None => copy_name(b.name),
    }
}

/// Text of an optional string.
pub open spec fn opt_view(s: Option<&str>) -> Option<Seq<char>> {
    match s {
        Some(x) => Some(x@),
        None => None,
    }
}

/// Duplicate the first bone named `name` (with its subtree, under fresh identifiers) and
/// add the copy to the bone's parent, named `rename` when given.
pub fn bone_duplicate(scene: &mut SdfScene, name: &str, rename: Option<&str>) -> (r: Result<String, String>)
    ensures
        match old(scene)@.root_bone.find_path(has_name(name@)) {
            None => r is Err && r->Err_0@ == not_found("bone"@, name@) && final(scene)@ == old(scene)@,
            Some(p) => {
                let t = old(scene)@.root_bone;
                let id = t.node_at(p).id;
                let b = t.node_at(t.find_path(has_id(id))->0);
                match parent_path(t, id) {
                    None => r is Err && r->Err_0@ == "could not find parent of bone "@ + quoted(name@)
                        && final(scene)@ == old(scene)@,
                    Some(q) => r is Ok && exists|c: BoneView| #[trigger] duplicate_of(b, c, opt_view(rename))
                        && final(scene)@ == with_root(old(scene)@, t.with_child(t.node_at(q).id, c)->Some_0)
                        && r->Ok_0@ == "Duplicated bone "@ + quoted(name@) + " as "@
                            + quoted(match opt_view(rename) {
                                Some(n) => n,
                                None => copy_name(name@),
                            }) + " ("@ + uuid_text_spec(c.id.0) + ")"@,
                }
            },
        },
{
    let id = match find_bone_id(&scene.root_bone, name) {
        Ok(id) => id,
        Err(e) => return Err(e),
    };
    proof { lemma_named_bone_has_id(scene.root_bone@, name@); }
    let bone = scene.root_bone.find_bone(id).unwrap();
    let mut dup = bone.duplicate_deep();
    if let Some(n) = rename {
        dup.name = String::from_str(n);
    }
    let ghost c = dup@;
    let dup_id = dup.id;
    let parent_id = match scene.root_bone.find_parent_of_bone(id) {
        Some(pid) => pid,
        None => {
            let mut msg = String::from_str("could not find parent of bone ");
            push_quoted(&mut msg, name);
            return Err(msg);
        },
    };
    proof {
        let t = scene.root_bone@;
        lemma_parent_path(t, id);
        let q = parent_path(t, id)->0;
        lemma_reach(t, has_id(t.node_at(q).id), q);
    }
    let parent = scene.root_bone.find_bone_mut(parent_id).unwrap();
    parent.push_child(dup);
    let mut msg = quoted_between("Duplicated bone ", name, " as ");
    match rename {
        Some(n) => push_quoted(&mut msg, n),
        None => {
            let mut shown = String::from_str(name);
            shown.append(" Copy");
            push_quoted(&mut msg, shown.as_str());
        },
    }
    msg.append(" (");
    msg.append(uuid_text(dup_id.0).as_str());
    msg.append(")");
    assert(duplicate_of(bone@, c, opt_view(rename)));
    Ok(msg)
}

/// Move the first bone named `name` under the first bone named `parent`; refused when
/// that would put the bone inside its own subtree.
pub fn bone_reparent(scene: &mut SdfScene, name: &str, parent: &str) -> (r: Result<String, String>)
    ensures
        match old(scene)@.root_bone.find_path(has_name(name@)) {
            None => r is Err && r->Err_0@ == not_found("bone"@, name@) && final(scene)@ == old(scene)@,
            Some(p) => match old(scene)@.root_bone.find_path(has_name(parent@)) {
                None => r is Err && r->Err_0@ == not_found("bone"@, parent@) && final(scene)@ == old(scene)@,
                Some(q) => {
                    let t = old(scene)@.root_bone;
                    let moved = t.moved_bone(t.node_at(p).id, t.node_at(q).id);
                    &&& final(scene)@ == with_root(old(scene)@, moved.0)
                    &&& if moved.1 {
                        r is Ok && r->Ok_0@ == "Reparented bone "@ + quoted(name@) + " under "@ + quoted(parent@)
                    } else {
                        r is Err && r->Err_0@ == "cannot reparent "@ + quoted(name@) + " under "@ + quoted(parent@)
                            + " (would create cycle)"@
                    }
                },
            },
        },
{
    let id = match find_bone_id(&scene.root_bone, name) {
        Ok(id) => id,
        Err(e) => return Err(e),
    };
    let target = match find_bone_id(&scene.root_bone, parent) {
        Ok(id) => id,
        Err(e) => return Err(e),
    };
    if scene.root_bone.reparent_bone(id, target) {
        let mut msg = quoted_between("Reparented bone ", name, " under ");
        push_quoted(&mut msg, parent);
        Ok(msg)
    } else {
        let mut msg = quoted_between("cannot reparent ", name, " under ");
        push_quoted(&mut msg, parent);
        msg.append(" (would create cycle)");
        Err(msg)
    }
}

/// The tree with the shape that the search for shape `id` finds replaced by `v`.
pub open spec fn put_shape(t: BoneView, id: ShapeId, v: ShapeView) -> BoneView {
    match t.find_path(holds_shape(id)) {
        Some(p) => {
            let n = t.node_at(p);
            t.replace_at(p, BoneView { shapes: n.shapes.update(first_index(n.shapes, shape_has_id(id)), v), ..n })
        },
        None => t,
    }
}

/// The shape that the search for shape `id` finds.
pub open spec fn shape_by_id(t: BoneView, id: ShapeId) -> ShapeView {
    t.found_shape(id)->Some_0.0
}

/// A shape found by name can be found again by its identifier, in the same bone.
proof fn lemma_named_shape_has_id(t: BoneView, name: Seq<char>)
    requires
        t.found_shape_named(name) is Some,
    ensures
        t.find_path(holds_shape(t.found_shape_named(name)->Some_0.0.id)) is Some,
        t.find_path(has_id(t.found_shape_named(name)->Some_0.1)) is Some,
{
    let p = t.find_path(holds_shape_named(name))->0;
    lemma_find_path(t, holds_shape_named(name));
    let n = t.node_at(p);
    let j = choose|j: int| 0 <= j < n.shapes.len() && #[trigger] n.shapes[j].name == name;
    lemma_first_index_found(n.shapes, shape_has_name(name), j);
    let k = first_index(n.shapes, shape_has_name(name));
    assert(holds_shape(n.shapes[k].id)(n));
    lemma_reach(t, holds_shape(n.shapes[k].id), p);
    lemma_reach(t, has_id(n.id), p);
}

/// Mutable access to the shape found by the search for the identifier of the first
/// shape named `name`.
fn named_shape_mut<'a>(root: &'a mut SdfBone, name: &str) -> (r: Option<&'a mut SdfShape>)
    ensures
        match old(root)@.found_shape_named(name@) {
            Some((s, _)) => r is Some && (*r.unwrap())@ == shape_by_id(old(root)@, s.id)
                && final(root)@ == put_shape(old(root)@, s.id, (*final(r.unwrap()))@),
            None => r is None && final(root)@ == old(root)@,
        },
{
    let id = match root.find_shape_by_name(name) {
        None => return None,
        Some((s, _)) => s.id,
    };
    proof { lemma_named_shape_has_id(root@, name@); }
    match root.find_shape_mut(id) {
        Some((s, _)) => Some(s),
        None => None,
    }
}

/// `o`'s value, or `v` when there is none.
pub open spec fn or_keep<T>(o: Option<T>, v: T) -> T {
    match o {
        Some(x) => x,
        None => v,
    }
}

/// The combination operation named `name`, with blend radius `k` (0.3 when not given)
/// for the blended ones.
pub open spec fn parse_combo_spec(name: Seq<char>, k: Option<u32>) -> Result<CombinationOp, Seq<char>> {
    let kk = or_keep(k, F_0_3);
    if name == "Union"@ {
        Ok(CombinationOp::Union)
    } else if name == "Intersection"@ {
        Ok(CombinationOp::Intersection)
    } else if name == "Subtraction"@ {
        Ok(CombinationOp::Subtraction)
    } else if name == "SmoothUnion"@ {
        Ok(CombinationOp::SmoothUnion { k: kk })
    } else if name == "SmoothIntersection"@ {
        Ok(CombinationOp::SmoothIntersection { k: kk })
    } else if name == "SmoothSubtraction"@ {
        Ok(CombinationOp::SmoothSubtraction { k: kk })
    } else if name == "ChamferUnion"@ {
        Ok(CombinationOp::ChamferUnion { k: kk })
    } else if name == "ChamferIntersection"@ {
        Ok(CombinationOp::ChamferIntersection { k: kk })
    } else {
        Err("unknown combination op "@ + quoted(name))
    }
}

/// The combination operation named `name`, with blend radius `k` (0.3 when not given).
pub fn parse_combo(name: &str, k: Option<u32>) -> (r: Result<CombinationOp, String>)
    ensures
        match parse_combo_spec(name@, k) {
            Ok(c) => r is Ok && r->Ok_0 == c,
            Err(m) => r is Err && r->Err_0@ == m,
        },
{
    let kk = match k {
        Some(x) => x,
        None => F_0_3,
    };
    if crate::text::str_eq(name, "Union") {
        Ok(CombinationOp::Union)
    } else if crate::text::str_eq(name, "Intersection") {
        Ok(CombinationOp::Intersection)
    } else if crate::text::str_eq(name, "Subtraction") {
        Ok(CombinationOp::Subtraction)
    } else if crate::text::str_eq(name, "SmoothUnion") {
        Ok(CombinationOp::SmoothUnion { k: kk })
    } else if crate::text::str_eq(name, "SmoothIntersection") {
        Ok(CombinationOp::SmoothIntersection { k: kk })
    } else if crate::text::str_eq(name, "SmoothSubtraction") {
        Ok(CombinationOp::SmoothSubtraction { k: kk })
    } else if crate::text::str_eq(name, "ChamferUnion") {
        Ok(CombinationOp::ChamferUnion { k: kk })
    } else if crate::text::str_eq(name, "ChamferIntersection") {
        Ok(CombinationOp::ChamferIntersection { k: kk })
    } else {
        Err(prefixed_quote("unknown combination op ", name))
    }
}

/// Colour mode number of a mode name: `solid` 0, `palette` 1, `noise` 2.
pub open spec fn color_mode_spec(s: Seq<char>) -> Result<u32, Seq<char>> {
    if s == "solid"@ {
        Ok(0)
    } else if s == "palette"@ {
        Ok(1)
    } else if s == "noise"@ {
        Ok(2)
    } else {
        Err("unknown color mode "@ + quoted(s) + ", expected: solid, palette, noise"@)
    }
}

/// Colour mode number of a mode name.
pub fn color_mode_from_str(s: &str) -> (r: Result<u32, String>)
    ensures
        match color_mode_spec(s@) {
            Ok(m) => r is Ok && r->Ok_0 == m,
            Err(m) => r is Err && r->Err_0@ == m,
        },
{
    if crate::text::str_eq(s, "solid") {
        Ok(0)
    } else if crate::text::str_eq(s, "palette") {
        Ok(1)
    } else if crate::text::str_eq(s, "noise") {
        Ok(2)
    } else {
        Err(quoted_between("unknown color mode ", s, ", expected: solid, palette, noise"))
    }
}

/// The operation after `--combine` and `--blend-k`: a named operation replaces the
/// current one; a radius alone changes the current blended operation's radius and is
/// refused for a sharp one.
pub open spec fn combo_update(cur: CombinationOp, combine: Option<Seq<char>>, k: Option<u32>) -> Result<CombinationOp, Seq<char>> {
    match combine {
        Some(c) => parse_combo_spec(c, k),
        None => match k {
            None => Ok(cur),
            Some(kk) => match cur {
                CombinationOp::SmoothUnion { .. } => Ok(CombinationOp::SmoothUnion { k: kk }),
                CombinationOp::SmoothIntersection { .. } => Ok(CombinationOp::SmoothIntersection { k: kk }),
                CombinationOp::SmoothSubtraction { .. } => Ok(CombinationOp::SmoothSubtraction { k: kk }),
                CombinationOp::ChamferUnion { .. } => Ok(CombinationOp::ChamferUnion { k: kk }),
                CombinationOp::ChamferIntersection { .. } => Ok(CombinationOp::ChamferIntersection { k: kk }),
                _ => Err("blend-k requires a smooth/chamfer combination op"@),
            },
        },
    }
}

fn combo_update_exec(cur: CombinationOp, combine: Option<&str>, k: Option<u32>) -> (r: Result<CombinationOp, String>)
    ensures
        match combo_update(cur, opt_view(combine), k) {
            Ok(c) => r is Ok && r->Ok_0 == c,
            Err(m) => r is Err && r->Err_0@ == m,
        },
{
    match combine {
        Some(c) => parse_combo(c, k),
        None => match k {
            None => Ok(cur),
            Some(kk) => match cur {
                CombinationOp::SmoothUnion { .. } => Ok(CombinationOp::SmoothUnion { k: kk }),
                CombinationOp::SmoothIntersection { .. } => Ok(CombinationOp::SmoothIntersection { k: kk }),
                CombinationOp::SmoothSubtraction { .. } => Ok(CombinationOp::SmoothSubtraction { k: kk }),
                CombinationOp::ChamferUnion { .. } => Ok(CombinationOp::ChamferUnion { k: kk }),
                CombinationOp::ChamferIntersection { .. } => Ok(CombinationOp::ChamferIntersection { k: kk }),
                _ => Err(String::from_str("blend-k requires a smooth/chamfer combination op")),
            },
        },
    }
}

/// A blend radius given alone keeps the kind of operation: on a blended operation it
/// sets the radius and nothing else (the result is the operation of the same position in
/// the list, with the new radius); a sharp operation refuses it; with neither option
/// the operation stays.
pub proof fn law_blend_k_keeps_kind(cur: CombinationOp, kk: u32)
    ensures
        combo_update(cur, None, None) == Ok::<CombinationOp, Seq<char>>(cur),
        combo_index(cur) >= 3 ==> (combo_update(cur, None, Some(kk)) matches Ok(r)
            && combo_index(r) == combo_index(cur) && combo_k(r) == kk && r == combo_at(combo_index(cur), kk)),
        combo_index(cur) < 3 ==> combo_update(cur, None, Some(kk)) is Err,
{
}

/// The transform and material fields of `shape set`, each kept when not given.
pub struct ShapeSettings {
    pub translate: Option<[u32; 3]>,
    pub rotate: Option<[u32; 3]>,
    pub scale: Option<u32>,
    pub color: Option<[u32; 3]>,
    pub roughness: Option<u32>,
    pub metallic: Option<u32>,
    pub fresnel: Option<u32>,
}

/// The shape with the given settings applied and the combination `c`.
pub open spec fn with_settings(s: ShapeView, e: ShapeSettings, c: CombinationOp) -> ShapeView {
    ShapeView {
        transform: ShapeTransform {
            translation: or_keep(e.translate, s.transform.translation),
            rotation: or_keep(e.rotate, s.transform.rotation),
            scale: or_keep(e.scale, s.transform.scale),
        },
        material: ShapeMaterial {
            color: or_keep(e.color, s.material.color),
            roughness: or_keep(e.roughness, s.material.roughness),
            metallic: or_keep(e.metallic, s.material.metallic),
            fresnel_power: or_keep(e.fresnel, s.material.fresnel_power),
            ..s.material
        },
        combination: c,
        ..s
    }
}

/// Set transform, material and combination fields of the first shape named `name`.
/// The combination is worked out first (`combo_update`); on any error nothing changes.
pub fn shape_set(scene: &mut SdfScene, name: &str, e: ShapeSettings, combine: Option<&str>, blend_k: Option<u32>) -> (r: Result<String, String>)
    ensures
        match old(scene)@.root_bone.found_shape_named(name@) {
            None => r is Err && r->Err_0@ == not_found("shape"@, name@) && final(scene)@ == old(scene)@,
            Some((s, _)) => {
                let t = old(scene)@.root_bone;
                let cur = shape_by_id(t, s.id);
                match combo_update(cur.combination, opt_view(combine), blend_k) {
                    Err(m) => r is Err && r->Err_0@ == m && final(scene)@ == old(scene)@,
                    Ok(c) => r is Ok && r->Ok_0@ == "Updated shape "@ + quoted(name@)
                        && final(scene)@ == with_root(old(scene)@, put_shape(t, s.id, with_settings(cur, e, c))),
                }
            },
        },
{
    let id = match scene.root_bone.find_shape_by_name(name) {
        None => return Err(not_found_msg("shape", name)),
        Some((s, _)) => s.id,
    };
    proof { lemma_named_shape_has_id(scene.root_bone@, name@); }
    let cur = scene.root_bone.find_shape(id).unwrap().0.combination;
    let c = match combo_update_exec(cur, combine, blend_k) {
        Ok(c) => c,
        Err(m) => return Err(m),
    };
    let s = named_shape_mut(&mut scene.root_bone, name).unwrap();
    if let Some(t) = e.translate {
        s.transform.translation = t;
    }
    if let Some(v) = e.rotate {
        s.transform.rotation = v;
    }
    if let Some(v) = e.scale {
        s.transform.scale = v;
    }
    if let Some(v) = e.color {
        s.material.color = v;
    }
    if let Some(v) = e.roughness {
        s.material.roughness = v;
    }
    if let Some(v) = e.metallic {
        s.material.metallic = v;
    }
    if let Some(v) = e.fresnel {
        s.material.fresnel_power = v;
    }
    s.combination = c;
    Ok(prefixed_quote("Updated shape ", name))
}

/// A new shape as the tool adds it: a fresh identifier, the given name and primitive,
/// everything else at its default.
pub open spec fn fresh_shape(s: ShapeView, name: Seq<char>, prim: SdfPrimitive) -> bool {
    &&& is_random_uuid(s.id.0)
    &&& s == (ShapeView {
        id: s.id,
        name,
        primitive: prim,
        visible: true,
        transform: ShapeTransform::default_spec(),
        material: ShapeMaterial::default_spec(),
        modifiers: Seq::empty(),
        combination: CombinationOp::Union,
    })
}

/// The primitive of kind `kind` with its defaults, or with the given parameters.
pub open spec fn primitive_for(kind: Seq<char>, params: Option<[u32; 4]>) -> SdfPrimitive {
    match params {
        Some(v) => with_params(SdfPrimitive::default_for_spec(kind), v[0], v[1], v[2], v[3]),
        None => SdfPrimitive::default_for_spec(kind),
    }
}

/// Build the primitive of kind `kind`, with the given parameters if any.
fn make_primitive(kind: &str, params: Option<[u32; 4]>) -> (r: SdfPrimitive)
    ensures
        r == primitive_for(kind@, params),
{
    let mut prim = SdfPrimitive::default_for(kind);
    if let Some(v) = params {
        set_prim_params(&mut prim, v[0], v[1], v[2], v[3]);
    }
    prim
}

/// Add a shape of kind `prim_type` to the first bone named `bone`; it is named `name`,
/// or after its kind.
pub fn shape_add(scene: &mut SdfScene, bone: &str, prim_type: &str, name: Option<&str>, params: Option<[u32; 4]>) -> (r: Result<String, String>)
    ensures
        match old(scene)@.root_bone.find_path(has_name(bone@)) {
            None => r is Err && r->Err_0@ == not_found("bone"@, bone@) && final(scene)@ == old(scene)@,
            Some(p) => {
                let t = old(scene)@.root_bone;
                let shown = or_keep(opt_view(name), prim_type@);
                r is Ok && exists|s: ShapeView| #[trigger] fresh_shape(s, shown, primitive_for(prim_type@, params))
                    && final(scene)@ == with_root(old(scene)@, t.with_shape(t.node_at(p).id, s)->Some_0)
                    && r->Ok_0@ == "Added shape "@ + quoted(shown) + " ("@ + uuid_text_spec(s.id.0) + ") to bone "@
                        + quoted(bone@)
            },
        },
{
    let bone_id = match find_bone_id(&scene.root_bone, bone) {
        Ok(id) => id,
        Err(e) => return Err(e),
    };
    proof { lemma_named_bone_has_id(scene.root_bone@, bone@); }
    let prim = make_primitive(prim_type, params);
    let shown: &str = match name {
        Some(n) => n,
        None => prim_type,
    };
    assert(shown@ == or_keep(opt_view(name), prim_type@));
    let shape = SdfShape::new(shown, prim);
    let ghost sv = shape@;
    assert(sv.modifiers =~= Seq::<ShapeModifier>::empty());
    assert(fresh_shape(sv, shown@, prim));
    let shape_id = shape.id;
    let target = scene.root_bone.find_bone_mut(bone_id).unwrap();
    target.push_shape(shape);
    let mut msg = quoted_between("Added shape ", shown, " (");
    msg.append(uuid_text(shape_id.0).as_str());
    msg.append(") to bone ");
    push_quoted(&mut msg, bone);
    assert(fresh_shape(sv, or_keep(opt_view(name), prim_type@), primitive_for(prim_type@, params)));
    Ok(msg)
}

/// Remove the shape found by the identifier of the first shape named `name`.
pub fn shape_remove(scene: &mut SdfScene, name: &str) -> (r: Result<String, String>)
    ensures
        match old(scene)@.root_bone.found_shape_named(name@) {
            None => r is Err && r->Err_0@ == not_found("shape"@, name@) && final(scene)@ == old(scene)@,
            Some((s, _)) => r is Ok && r->Ok_0@ == "Removed shape "@ + quoted(name@)
                && final(scene)@ == with_root(old(scene)@, old(scene)@.root_bone.drop_shapes(s.id).0),
        },
{
    let id = match scene.root_bone.find_shape_by_name(name) {
        None => return Err(not_found_msg("shape", name)),
        Some((s, _)) => s.id,
    };
    scene.root_bone.remove_shape(id);
    Ok(prefixed_quote("Removed shape ", name))
}

/// Give the first shape named `name` a new primitive of kind `prim_type`.
pub fn shape_set_type(scene: &mut SdfScene, name: &str, prim_type: &str, params: Option<[u32; 4]>) -> (r: Result<String, String>)
    ensures
        match old(scene)@.root_bone.found_shape_named(name@) {
            None => r is Err && r->Err_0@ == not_found("shape"@, name@) && final(scene)@ == old(scene)@,
            Some((s, _)) => {
                let t = old(scene)@.root_bone;
                r is Ok && r->Ok_0@ == "Changed shape "@ + quoted(name@) + " to "@ + prim_type@
                    && final(scene)@ == with_root(old(scene)@, put_shape(t, s.id,
                        ShapeView { primitive: primitive_for(prim_type@, params), ..shape_by_id(t, s.id) }))
            },
        },
{
    let prim = make_primitive(prim_type, params);
    match named_shape_mut(&mut scene.root_bone, name) {
        None => Err(not_found_msg("shape", name)),
        Some(s) => {
            s.primitive = prim;
            let mut msg = quoted_between("Changed shape ", name, " to ");
            msg.append(prim_type);
            Ok(msg)
        },
    }
}

/// The shape with its colour mode set and the given palette vectors replaced.
pub open spec fn with_palette(s: ShapeView, mode: u32, a: Option<[u32; 3]>, b: Option<[u32; 3]>, c: Option<[u32; 3]>, d: Option<[u32; 3]>) -> ShapeView {
    ShapeView {
        material: ShapeMaterial {
            color_mode: mode,
            palette_a: or_keep(a, s.material.palette_a),
            palette_b: or_keep(b, s.material.palette_b),
            palette_c: or_keep(c, s.material.palette_c),
            palette_d: or_keep(d, s.material.palette_d),
            ..s.material
        },
        ..s
    }
}

/// Set the colour mode (by name) and palette of the first shape named `name`.
pub fn shape_color_mode(
    scene: &mut SdfScene,
    name: &str,
    mode: &str,
    palette_a: Option<[u32; 3]>,
    palette_b: Option<[u32; 3]>,
    palette_c: Option<[u32; 3]>,
    palette_d: Option<[u32; 3]>,
) -> (r: Result<String, String>)
    ensures
        match old(scene)@.root_bone.found_shape_named(name@) {
            None => r is Err && r->Err_0@ == not_found("shape"@, name@) && final(scene)@ == old(scene)@,
            Some((s, _)) => match color_mode_spec(mode@) {
                Err(m) => r is Err && r->Err_0@ == m && final(scene)@ == old(scene)@,
                Ok(k) => {
                    let t = old(scene)@.root_bone;
                    r is Ok && r->Ok_0@ == "Set color mode to "@ + quoted(mode@) + " on shape "@ + quoted(name@)
                        && final(scene)@ == with_root(old(scene)@, put_shape(t, s.id,
                            with_palette(shape_by_id(t, s.id), k, palette_a, palette_b, palette_c, palette_d)))
                },
            },
        },
{
    if scene.root_bone.find_shape_by_name(name).is_none() {
        return Err(not_found_msg("shape", name));
    }
    let k = match color_mode_from_str(mode) {
        Ok(k) => k,
        Err(m) => return Err(m),
    };
    let s = named_shape_mut(&mut scene.root_bone, name).unwrap();
    s.material.color_mode = k;
    if let Some(v) = palette_a {
        s.material.palette_a = v;
    }
    if let Some(v) = palette_b {
        s.material.palette_b = v;
    }
    if let Some(v) = palette_c {
        s.material.palette_c = v;
    }
    if let Some(v) = palette_d {
        s.material.palette_d = v;
    }
    let mut msg = quoted_between("Set color mode to ", mode, " on shape ");
    push_quoted(&mut msg, name);
    Ok(msg)
}

/// The shape with the given noise settings replaced.
pub open spec fn with_noise(s: ShapeView, amp: Option<u32>, freq: Option<u32>, oct: Option<u32>) -> ShapeView {
    ShapeView {
        material: ShapeMaterial {
            noise_amplitude: or_keep(amp, s.material.noise_amplitude),
            noise_frequency: or_keep(freq, s.material.noise_frequency),
            noise_octaves: or_keep(oct, s.material.noise_octaves),
            ..s.material
        },
        ..s
    }
}

/// Set the noise amplitude, frequency and octaves of the first shape named `name`.
pub fn shape_noise(scene: &mut SdfScene, name: &str, amp: Option<u32>, freq: Option<u32>, oct: Option<u32>) -> (r: Result<String, String>)
    ensures
        match old(scene)@.root_bone.found_shape_named(name@) {
            None => r is Err && r->Err_0@ == not_found("shape"@, name@) && final(scene)@ == old(scene)@,
            Some((s, _)) => {
                let t = old(scene)@.root_bone;
                r is Ok && r->Ok_0@ == "Updated noise on shape "@ + quoted(name@)
                    && final(scene)@ == with_root(old(scene)@, put_shape(t, s.id, with_noise(shape_by_id(t, s.id), amp, freq, oct)))
            },
        },
{
    match named_shape_mut(&mut scene.root_bone, name) {
        None => Err(not_found_msg("shape", name)),
        Some(s) => {
            if let Some(v) = amp {
                s.material.noise_amplitude = v;
            }
            if let Some(v) = freq {
                s.material.noise_frequency = v;
            }
            if let Some(v) = oct {
                s.material.noise_octaves = v;
            }
            Ok(prefixed_quote("Updated noise on shape ", name))
        },
    }
}

/// Duplicate the first shape named `name` into the same bone, named `rename` when given.
pub fn shape_duplicate(scene: &mut SdfScene, name: &str, rename: Option<&str>) -> (r: Result<String, String>)
    ensures
        match old(scene)@.root_bone.found_shape_named(name@) {
            None => r is Err && r->Err_0@ == not_found("shape"@, name@) && final(scene)@ == old(scene)@,
            Some((s, b)) => {
                let t = old(scene)@.root_bone;
                let dup_name = or_keep(opt_view(rename), copy_name(s.name));
                r is Ok && exists|d: ShapeView| #[trigger] is_random_uuid(d.id.0)
                    && d == (ShapeView { id: d.id, name: dup_name, ..s })
                    && final(scene)@ == with_root(old(scene)@, t.with_shape(b, d)->Some_0)
                    && r->Ok_0@ == "Duplicated shape "@ + quoted(name@) + " as "@ + quoted(dup_name) + " ("@
                        + uuid_text_spec(d.id.0) + ")"@
            },
        },
{
    let (mut dup, bone_id) = match scene.root_bone.find_shape_by_name(name) {
        None => return Err(not_found_msg("shape", name)),
        Some((s, b)) => (s.duplicate(), b),
    };
    proof { lemma_named_shape_has_id(scene.root_bone@, name@); }
    if let Some(n) = rename {
        dup.name = String::from_str(n);
    }
    let ghost d = dup@;
    let dup_id = dup.id;
    let mut msg = quoted_between("Duplicated shape ", name, " as ");
    push_quoted(&mut msg, dup.name.as_str());
    msg.append(" (");
    msg.append(uuid_text(dup_id.0).as_str());
    msg.append(")");
    let target = scene.root_bone.find_bone_mut(bone_id).unwrap();
    target.push_shape(dup);
    assert(is_random_uuid(d.id.0));
    Ok(msg)
}

/// Move the first shape named `name` to the first bone named `bone`.
pub fn shape_reparent(scene: &mut SdfScene, name: &str, bone: &str) -> (r: Result<String, String>)
    ensures
        match old(scene)@.root_bone.found_shape_named(name@) {
            None => r is Err && r->Err_0@ == not_found("shape"@, name@) && final(scene)@ == old(scene)@,
            Some((s, _)) => match old(scene)@.root_bone.find_path(has_name(bone@)) {
                None => r is Err && r->Err_0@ == not_found("bone"@, bone@) && final(scene)@ == old(scene)@,
                Some(q) => {
                    let t = old(scene)@.root_bone;
                    let moved = t.moved_shape(s.id, t.node_at(q).id);
                    &&& final(scene)@ == with_root(old(scene)@, moved.0)
                    &&& if moved.1 {
                        r is Ok && r->Ok_0@ == "Moved shape "@ + quoted(name@) + " to bone "@ + quoted(bone@)
                    } else {
                        r is Err && r->Err_0@ == "failed to reparent shape "@ + quoted(name@)
                    }
                },
            },
        },
{
    let id = match scene.root_bone.find_shape_by_name(name) {
        None => return Err(not_found_msg("shape", name)),
        Some((s, _)) => s.id,
    };
    let target = match find_bone_id(&scene.root_bone, bone) {
        Ok(t) => t,
        Err(e) => return Err(e),
    };
    if scene.root_bone.reparent_shape(id, target) {
        let mut msg = quoted_between("Moved shape ", name, " to bone ");
        push_quoted(&mut msg, bone);
        Ok(msg)
    } else {
        Err(prefixed_quote("failed to reparent shape ", name))
    }
}

/// The modifier list after `modifier set`: the given modifiers are set in the order
/// rounding, onion, twist, bend, elongation, repetition (the last with count 3 on each axis).
pub open spec fn modifiers_after(
    s: Seq<ShapeModifier>,
    rounding: Option<u32>,
    onion: Option<u32>,
    twist: Option<u32>,
    bend: Option<u32>,
    elongate: Option<[u32; 3]>,
    repeat: Option<[u32; 3]>,
) -> Seq<ShapeModifier> {
    let s1 = match rounding { Some(v) => with_modifier(s, ShapeModifier::Rounding(v)), None => s };
    let s2 = match onion { Some(v) => with_modifier(s1, ShapeModifier::Onion(v)), None => s1 };
    let s3 = match twist { Some(v) => with_modifier(s2, ShapeModifier::Twist(v)), None => s2 };
    let s4 = match bend { Some(v) => with_modifier(s3, ShapeModifier::Bend(v)), None => s3 };
    let s5 = match elongate { Some(v) => with_modifier(s4, ShapeModifier::Elongation(v)), None => s4 };
    match repeat {
        Some(v) => with_modifier(s5, ShapeModifier::Repetition { period: v, count: [3, 3, 3] }),
        None => s5,
    }
}

/// Set the given modifiers on the first shape named `shape`, each replacing any
/// modifier of its kind.
pub fn modifier_set(
    scene: &mut SdfScene,
    shape: &str,
    rounding: Option<u32>,
    onion: Option<u32>,
    twist: Option<u32>,
    bend: Option<u32>,
    elongate: Option<[u32; 3]>,
    repeat: Option<[u32; 3]>,
) -> (r: Result<String, String>)
    ensures
        match old(scene)@.root_bone.found_shape_named(shape@) {
            None => r is Err && r->Err_0@ == not_found("shape"@, shape@) && final(scene)@ == old(scene)@,
            Some((s, _)) => {
                let t = old(scene)@.root_bone;
                let cur = shape_by_id(t, s.id);
                r is Ok && r->Ok_0@ == "Updated modifiers on shape "@ + quoted(shape@)
                    && final(scene)@ == with_root(old(scene)@, put_shape(t, s.id, ShapeView {
                        modifiers: modifiers_after(cur.modifiers, rounding, onion, twist, bend, elongate, repeat),
                        ..cur
                    }))
            },
        },
{
    match named_shape_mut(&mut scene.root_bone, shape) {
        None => Err(not_found_msg("shape", shape)),
        Some(s) => {
            if let Some(v) = rounding {
                set_modifier(&mut s.modifiers, ShapeModifier::Rounding(v));
            }
            if let Some(v) = onion {
                set_modifier(&mut s.modifiers, ShapeModifier::Onion(v));
            }
            if let Some(v) = twist {
                set_modifier(&mut s.modifiers, ShapeModifier::Twist(v));
            }
            if let Some(v) = bend {
                set_modifier(&mut s.modifiers, ShapeModifier::Bend(v));
            }
            if let Some(v) = elongate {
                set_modifier(&mut s.modifiers, ShapeModifier::Elongation(v));
            }
            if let Some(v) = repeat {
                set_modifier(&mut s.modifiers, ShapeModifier::Repetition { period: v, count: [3, 3, 3] });
            }
            Ok(prefixed_quote("Updated modifiers on shape ", shape))
        },
    }
}

/// Remove every modifier of the first shape named `shape`.
pub fn modifier_clear(scene: &mut SdfScene, shape: &str) -> (r: Result<String, String>)
    ensures
        match old(scene)@.root_bone.found_shape_named(shape@) {
            None => r is Err && r->Err_0@ == not_found("shape"@, shape@) && final(scene)@ == old(scene)@,
            Some((s, _)) => {
                let t = old(scene)@.root_bone;
                r is Ok && r->Ok_0@ == "Cleared all modifiers on shape "@ + quoted(shape@)
                    && final(scene)@ == with_root(old(scene)@, put_shape(t, s.id,
                        ShapeView { modifiers: Seq::empty(), ..shape_by_id(t, s.id) }))
            },
        },
{
    match named_shape_mut(&mut scene.root_bone, shape) {
        None => Err(not_found_msg("shape", shape)),
        Some(s) => {
            s.clear_modifiers();
            Ok(prefixed_quote("Cleared all modifiers on shape ", shape))
        },
    }
}

/// Rename the scene.
pub fn scene_rename(scene: &mut SdfScene, name: &str) -> (r: String)
    ensures
        final(scene)@ == (SceneView { name: name@, ..old(scene)@ }),
        r@ == "Renamed scene to "@ + quoted(name@),
{
    scene.name = String::from_str(name);
    prefixed_quote("Renamed scene to ", name)
}

/// Set the scene's light direction.  The confirmation names the three numbers, which
/// only the caller can print.
pub fn scene_light(scene: &mut SdfScene, dir: [u32; 3])
    ensures
        final(scene)@ == (SceneView { light_dir: dir, ..old(scene)@ }),
{
    scene.light_dir = dir;
}

/// Line of the bone listing: `<indent><name> (<uuid>)`.
pub open spec fn bone_entry(b: BoneView, indent: Seq<char>) -> Seq<char> {
    indent + b.name + " ("@ + uuid_text_spec(b.id.0) + ")\n"@
}

/// Bone listing of a subtree: the bone's line, then its children's listings indented
/// by two more spaces.
pub open spec fn bone_listing(b: BoneView, indent: Seq<char>) -> Seq<char>
    decreases b, 1int,
{
    bone_entry(b, indent) + bone_listings(b.children, indent + "  "@)
}

/// Bone listings of the subtrees `cs`, in order.
pub open spec fn bone_listings(cs: Seq<BoneView>, indent: Seq<char>) -> Seq<char>
    decreases cs, 0int,
{
    if cs.len() == 0 {
        Seq::empty()
    } else {
        bone_listings(cs.drop_last(), indent) + bone_listing(cs.last(), indent)
    }
}

fn push_bone_listing(bone: &SdfBone, indent: &str, out: &mut String)
    ensures
        final(out)@ == old(out)@ + bone_listing(bone@, indent@),
    decreases bone,
{
    let ghost start = out@;
    out.append(indent);
    out.append(bone.name.as_str());
    out.append(" (");
    out.append(uuid_text(bone.id.0).as_str());
    out.append(")\n");
    assert(out@ =~= start + bone_entry(bone@, indent@));
    let ghost after = out@;
    let mut inner = String::from_str(indent);
    inner.append("  ");
    proof { lemma_bones_view(bone.children@); }
    let n = bone.children.len();
    let mut k: usize = 0;
    while k < n
        invariant
            n == bone.children@.len(),
            bone@.children.len() == n,
            k <= n,
            forall|j: int| 0 <= j < n ==> #[trigger] bone@.children[j] == bone.children@[j]@,
            inner@ == indent@ + "  "@,
            out@ == after + bone_listings(bone@.children.take(k as int), inner@),
        decreases n - k,
    {
        push_bone_listing(&bone.children[k], inner.as_str(), out);
        proof {
            let t = bone@.children.take(k + 1);
            assert(t.drop_last() =~= bone@.children.take(k as int));
            assert(out@ =~= after + bone_listings(t, inner@));
        }
        k += 1;
    }
    assert(bone@.children.take(n as int) =~= bone@.children);
    assert(out@ =~= start + bone_listing(bone@, indent@));
}

/// `depth` times two spaces.
pub open spec fn indent_of(depth: nat) -> Seq<char>
    decreases depth,
{
    if depth == 0 {
        Seq::empty()
    } else {
        indent_of((depth - 1) as nat) + "  "@
    }
}

fn make_indent(depth: usize) -> (r: String)
    ensures
        r@ == indent_of(depth as nat),
{
    let mut out = String::new();
    let mut i: usize = 0;
    while i < depth
        invariant
            i <= depth,
            out@ == indent_of(i as nat),
        decreases depth - i,
    {
        out.append("  ");
        i += 1;
    }
    out
}

/// The bone listing of the tool's `bone list`: one line per bone, indented two spaces
/// per level below `depth`.
pub fn list_bones(bone: &SdfBone, depth: usize) -> (r: String)
    ensures
        r@ == bone_listing(bone@, indent_of(depth as nat)),
{
    let indent = make_indent(depth);
    let mut out = String::new();
    push_bone_listing(bone, indent.as_str(), &mut out);
    assert(out@ =~= bone_listing(bone@, indent_of(depth as nat)));
    out
}

/// Line of the shape listing: `<indent>[<kind>] <name> (<uuid>)`.
pub open spec fn shape_entry(s: ShapeView, indent: Seq<char>) -> Seq<char> {
    indent + "["@ + s.primitive.label_spec() + "] "@ + s.name + " ("@ + uuid_text_spec(s.id.0) + ")\n"@
}

/// Lines of the shapes `ss`, in order.
pub open spec fn shape_entries(ss: Seq<ShapeView>, indent: Seq<char>) -> Seq<char>
    decreases ss.len(),
{
    if ss.len() == 0 {
        Seq::empty()
    } else {
        shape_entries(ss.drop_last(), indent) + shape_entry(ss.last(), indent)
    }
}

/// Shape listing of a bone: its shapes' lines, then for each child a line
/// `<indent><child name>:` followed by the child's listing indented by two more spaces.
pub open spec fn shape_listing(b: BoneView, indent: Seq<char>) -> Seq<char>
    decreases b, 1int,
{
    shape_entries(b.shapes, indent) + child_shape_listings(b.children, indent)
}

/// The child blocks of a shape listing for the children `cs`.
pub open spec fn child_shape_listings(cs: Seq<BoneView>, indent: Seq<char>) -> Seq<char>
    decreases cs, 0int,
{
    if cs.len() == 0 {
        Seq::empty()
    } else {
        child_shape_listings(cs.drop_last(), indent) + indent + cs.last().name + ":\n"@
            + shape_listing(cs.last(), indent + "  "@)
    }
}

fn push_shape_listing(bone: &SdfBone, indent: &str, out: &mut String)
    ensures
        final(out)@ == old(out)@ + shape_listing(bone@, indent@),
    decreases bone,
{
    let ghost start = out@;
    let ns = bone.shapes.len();
    let mut i: usize = 0;
    while i < ns
        invariant
            ns == bone.shapes@.len(),
            bone@.shapes.len() == ns,
            i <= ns,
            out@ == start + shape_entries(bone@.shapes.take(i as int), indent@),
        decreases ns - i,
    {
        let s = &bone.shapes[i];
        let ghost before = out@;
        out.append(indent);
        out.append("[");
        out.append(s.primitive.label());
        out.append("] ");
        out.append(s.name.as_str());
        out.append(" (");
        out.append(uuid_text(s.id.0).as_str());
        out.append(")\n");
        proof {
            let t = bone@.shapes.take(i + 1);
            assert(t.drop_last() =~= bone@.shapes.take(i as int));
            assert(t.last() == bone@.shapes[i as int]);
            assert(out@ =~= start + shape_entries(t, indent@));
        }
        i += 1;
    }
    assert(bone@.shapes.take(ns as int) =~= bone@.shapes);
    let ghost after = out@;
    let mut inner = String::from_str(indent);
    inner.append("  ");
    proof { lemma_bones_view(bone.children@); }
    let n = bone.children.len();
    let mut k: usize = 0;
    while k < n
        invariant
            n == bone.children@.len(),
            bone@.children.len() == n,
            k <= n,
            forall|j: int| 0 <= j < n ==> #[trigger] bone@.children[j] == bone.children@[j]@,
            inner@ == indent@ + "  "@,
            out@ == after + child_shape_listings(bone@.children.take(k as int), indent@),
        decreases n - k,
    {
        let child = &bone.children[k];
        let ghost before = out@;
        out.append(indent);
        out.append(child.name.as_str());
        out.append(":\n");
        push_shape_listing(child, inner.as_str(), out);
        proof {
            let t = bone@.children.take(k + 1);
            assert(t.drop_last() =~= bone@.children.take(k as int));
            assert(t.last() == bone@.children[k as int]);
            assert(out@ =~= after + child_shape_listings(t, indent@));
        }
        k += 1;
    }
    assert(bone@.children.take(n as int) =~= bone@.children);
    assert(out@ =~= start + shape_listing(bone@, indent@));
}

/// The shape listing of the tool's `shape list`, indented two spaces per level below `depth`.
pub fn list_shapes(bone: &SdfBone, depth: usize) -> (r: String)
    ensures
        r@ == shape_listing(bone@, indent_of(depth as nat)),
{
    let indent = make_indent(depth);
    let mut out = String::new();
    push_shape_listing(bone, indent.as_str(), &mut out);
    assert(out@ =~= shape_listing(bone@, indent_of(depth as nat)));
    out
}

/// Identifiers and names of the bones of a subtree in pre-order.
pub open spec fn bone_list(b: BoneView) -> Seq<(BoneId, Seq<char>)>
    decreases b, 1int,
{
    seq![(b.id, b.name)] + bone_lists(b.children)
}

/// `bone_list` of the subtrees `cs`, concatenated.
pub open spec fn bone_lists(cs: Seq<BoneView>) -> Seq<(BoneId, Seq<char>)>
    decreases cs, 0int,
{
    if cs.len() == 0 {
        Seq::empty()
    } else {
        bone_lists(cs.drop_last()) + bone_list(cs.last())
    }
}

/// Names paired with identifiers, as values.
pub open spec fn named_ids_view(s: Seq<(BoneId, String)>) -> Seq<(BoneId, Seq<char>)> {
    s.map_values(|x: (BoneId, String)| (x.0, x.1@))
}

/// Append the identifier and name of every bone of the subtree, in pre-order.
pub fn collect_bone_list(bone: &SdfBone, out: &mut Vec<(BoneId, String)>)
    ensures
        named_ids_view(final(out)@) == named_ids_view(old(out)@) + bone_list(bone@),
    decreases bone,
{
    let ghost start = named_ids_view(out@);
    out.push((bone.id, bone.name.clone()));
    assert(named_ids_view(out@) =~= start + seq![(bone@.id, bone@.name)]);
    let ghost after = named_ids_view(out@);
    proof { lemma_bones_view(bone.children@); }
    let n = bone.children.len();
    let mut k: usize = 0;
    while k < n
        invariant
            n == bone.children@.len(),
            bone@.children.len() == n,
            k <= n,
            forall|j: int| 0 <= j < n ==> #[trigger] bone@.children[j] == bone.children@[j]@,
            named_ids_view(out@) == after + bone_lists(bone@.children.take(k as int)),
        decreases n - k,
    {
        collect_bone_list(&bone.children[k], out);
        proof {
            let t = bone@.children.take(k + 1);
            assert(t.drop_last() =~= bone@.children.take(k as int));
            assert(named_ids_view(out@) =~= after + bone_lists(t));
        }
        k += 1;
    }
    assert(bone@.children.take(n as int) =~= bone@.children);
    assert(named_ids_view(out@) =~= start + bone_list(bone@));
}

/// The bone list names every bone of the subtree once: it is as long as the subtree's
/// bone count.
pub proof fn law_bone_list_count(b: BoneView)
    ensures
        bone_list(b).len() == b.size(),
    decreases b, 1int,
{
    lemma_bone_lists_len(b.children);
}

proof fn lemma_bone_lists_len(cs: Seq<BoneView>)
    ensures
        bone_lists(cs).len() == BoneView::sizes(cs),
    decreases cs, 0int,
{
    if cs.len() > 0 {
        lemma_bone_lists_len(cs.drop_last());
        law_bone_list_count(cs.last());
    }
}

} // verus!
