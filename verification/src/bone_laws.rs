//! Counting laws of the bone-tree operations.
use vstd::prelude::*;
use crate::bone::{BoneView, has_id, parent_of, holds_shape, first_index, bone_has_id, shape_has_id, same_but_ids};
use crate::ids::{BoneId, ShapeId};

verus! {

/// Sum of `f` over the subtrees `s`.
pub open spec fn sum_of(s: Seq<BoneView>, f: spec_fn(BoneView) -> nat) -> nat
    decreases s.len(),
{
    if s.len() == 0 {
        0
    } else {
        sum_of(s.drop_last(), f) + f(s.last())
    }
}

/// Bone count of a subtree.
pub open spec fn size_of() -> spec_fn(BoneView) -> nat {
    |b: BoneView| b.size()
}

/// Shape count of a subtree.
pub open spec fn shapes_of() -> spec_fn(BoneView) -> nat {
    |b: BoneView| b.shape_total()
}

proof fn lemma_sum_add(s: Seq<BoneView>, t: Seq<BoneView>, f: spec_fn(BoneView) -> nat)
    ensures
        sum_of(s + t, f) == sum_of(s, f) + sum_of(t, f),
    decreases t.len(),
{
    if t.len() == 0 {
        assert(s + t =~= s);
    } else {
        assert((s + t).drop_last() =~= s + t.drop_last());
        lemma_sum_add(s, t.drop_last(), f);
    }
}

proof fn lemma_sum_split(s: Seq<BoneView>, i: int, f: spec_fn(BoneView) -> nat)
    requires
        0 <= i < s.len(),
    ensures
        sum_of(s, f) == sum_of(s.take(i), f) + f(s[i]) + sum_of(s.skip(i + 1), f),
{
    assert(s =~= s.take(i) + seq![s[i]] + s.skip(i + 1));
    lemma_sum_add(s.take(i) + seq![s[i]], s.skip(i + 1), f);
    lemma_sum_add(s.take(i), seq![s[i]], f);
    assert(seq![s[i]].drop_last() =~= Seq::<BoneView>::empty());
    assert(sum_of(Seq::<BoneView>::empty(), f) == 0);
    assert(seq![s[i]].last() == s[i]);
    assert(sum_of(seq![s[i]], f) == f(s[i]));
}

proof fn lemma_sum_update(s: Seq<BoneView>, i: int, x: BoneView, f: spec_fn(BoneView) -> nat)
    requires
        0 <= i < s.len(),
    ensures
        sum_of(s.update(i, x), f) + f(s[i]) == sum_of(s, f) + f(x),
{
    lemma_sum_split(s, i, f);
    lemma_sum_split(s.update(i, x), i, f);
    assert(s.update(i, x).take(i) =~= s.take(i));
    assert(s.update(i, x).skip(i + 1) =~= s.skip(i + 1));
}

proof fn lemma_sum_remove(s: Seq<BoneView>, i: int, f: spec_fn(BoneView) -> nat)
    requires
        0 <= i < s.len(),
    ensures
        sum_of(s.remove(i), f) + f(s[i]) == sum_of(s, f),
{
    lemma_sum_split(s, i, f);
    assert(s.remove(i) =~= s.take(i) + s.skip(i + 1));
    lemma_sum_add(s.take(i), s.skip(i + 1), f);
}

proof fn lemma_sum_push(s: Seq<BoneView>, x: BoneView, f: spec_fn(BoneView) -> nat)
    ensures
        sum_of(s.push(x), f) == sum_of(s, f) + f(x),
{
    assert(s.push(x).drop_last() =~= s);
}

proof fn lemma_sizes_sum(cs: Seq<BoneView>)
    ensures
        BoneView::sizes(cs) == sum_of(cs, size_of()),
        BoneView::shape_totals(cs) == sum_of(cs, shapes_of()),
    decreases cs.len(),
{
    if cs.len() > 0 {
        lemma_sizes_sum(cs.drop_last());
    }
}

/// Replacing the bone at a valid path changes the counts by the difference of the two subtrees.
proof fn lemma_replace_counts(t: BoneView, p: Seq<int>, n: BoneView)
    requires
        t.valid_path(p),
    ensures
        t.replace_at(p, n).size() + t.node_at(p).size() == t.size() + n.size(),
        t.replace_at(p, n).shape_total() + t.node_at(p).shape_total() == t.shape_total() + n.shape_total(),
    decreases p.len(),
{
    if p.len() > 0 {
        let i = p[0];
        let c = t.children[i];
        lemma_replace_counts(c, p.drop_first(), n);
        let c2 = c.replace_at(p.drop_first(), n);
        lemma_sizes_sum(t.children);
        lemma_sizes_sum(t.children.update(i, c2));
        lemma_sum_update(t.children, i, c2, size_of());
        lemma_sum_update(t.children, i, c2, shapes_of());
    }
}

/// Counts of a bone whose children and shapes lists were rebuilt.
proof fn lemma_local_counts(n: BoneView, m: BoneView)
    ensures
        n.size() == 1 + sum_of(n.children, size_of()),
        m.size() == 1 + sum_of(m.children, size_of()),
        n.shape_total() == n.shapes.len() + sum_of(n.children, shapes_of()),
        m.shape_total() == m.shapes.len() + sum_of(m.children, shapes_of()),
{
    lemma_sizes_sum(n.children);
    lemma_sizes_sum(m.children);
}

/// Detaching a bone splits the counts between the remaining tree and the detached subtree.
pub proof fn law_take_bone_counts(t: BoneView, id: BoneId)
    ensures
        match t.take_bone(id) {
            (rest, Some(b)) => rest.size() + b.size() == t.size()
                && rest.shape_total() + b.shape_total() == t.shape_total(),
            (rest, None) => rest == t,
        },
{
    crate::bone::lemma_find_path(t, parent_of(id));
    if let Some(p) = t.find_path(parent_of(id)) {
        let n = t.node_at(p);
        let j = first_index(n.children, bone_has_id(id));
        lemma_first_index_in_range_bone(n.children, id);
        let m = BoneView { children: n.children.remove(j), ..n };
        lemma_replace_counts(t, p, m);
        lemma_local_counts(n, m);
        lemma_sum_remove(n.children, j, size_of());
        lemma_sum_remove(n.children, j, shapes_of());
    }
}

/// Removing a bone lowers the bone count by one and keeps every shape.
pub proof fn law_remove_bone_counts(t: BoneView, id: BoneId)
    ensures
        match t.dissolve_bone(id) {
            (rest, true) => rest.size() + 1 == t.size() && rest.shape_total() == t.shape_total(),
            (rest, false) => rest == t,
        },
{
    crate::bone::lemma_find_path(t, parent_of(id));
    if let Some(p) = t.find_path(parent_of(id)) {
        let n = t.node_at(p);
        let j = first_index(n.children, bone_has_id(id));
        lemma_first_index_in_range_bone(n.children, id);
        let c = n.children[j];
        let m = BoneView { children: n.children.remove(j) + c.children, shapes: n.shapes + c.shapes, ..n };
        lemma_replace_counts(t, p, m);
        lemma_local_counts(n, m);
        lemma_local_counts(c, c);
        lemma_sum_remove(n.children, j, size_of());
        lemma_sum_remove(n.children, j, shapes_of());
        lemma_sum_add(n.children.remove(j), c.children, size_of());
        lemma_sum_add(n.children.remove(j), c.children, shapes_of());
    }
}

/// Taking a shape out lowers the shape count by one and keeps every bone.
pub proof fn law_take_shape_counts(t: BoneView, id: ShapeId)
    ensures
        match t.take_shape(id) {
            (rest, Some(s)) => rest.size() == t.size() && rest.shape_total() + 1 == t.shape_total(),
            (rest, None) => rest == t,
        },
{
    crate::bone::lemma_find_path(t, holds_shape(id));
    if let Some(p) = t.find_path(holds_shape(id)) {
        let n = t.node_at(p);
        let j = first_index(n.shapes, shape_has_id(id));
        lemma_first_index_in_range_shape(n.shapes, id);
        let m = BoneView { shapes: n.shapes.remove(j), ..n };
        lemma_replace_counts(t, p, m);
        lemma_local_counts(n, m);
    }
}

/// Adding a child bone adds its counts.
proof fn lemma_with_child_counts(t: BoneView, bone: BoneId, c: BoneView)
    ensures
        match t.with_child(bone, c) {
            Some(u) => u.size() == t.size() + c.size() && u.shape_total() == t.shape_total() + c.shape_total(),
            None => true,
        },
{
    crate::bone::lemma_find_path(t, has_id(bone));
    if let Some(p) = t.find_path(has_id(bone)) {
        let n = t.node_at(p);
        let m = BoneView { children: n.children.push(c), ..n };
        lemma_replace_counts(t, p, m);
        lemma_local_counts(n, m);
        lemma_sum_push(n.children, c, size_of());
        lemma_sum_push(n.children, c, shapes_of());
    }
}

/// Adding a shape adds one to the shape count.
proof fn lemma_with_shape_counts(t: BoneView, bone: BoneId, s: crate::shape::ShapeView)
    ensures
        match t.with_shape(bone, s) {
            Some(u) => u.size() == t.size() && u.shape_total() == t.shape_total() + 1,
            None => true,
        },
{
    crate::bone::lemma_find_path(t, has_id(bone));
    if let Some(p) = t.find_path(has_id(bone)) {
        let n = t.node_at(p);
        let m = BoneView { shapes: n.shapes.push(s), ..n };
        lemma_replace_counts(t, p, m);
        lemma_local_counts(n, m);
    }
}

/// A successful bone move keeps every bone and every shape.
pub proof fn law_reparent_bone_counts(t: BoneView, bone: BoneId, target: BoneId)
    ensures
        t.moved_bone(bone, target).1 ==> t.moved_bone(bone, target).0.size() == t.size()
            && t.moved_bone(bone, target).0.shape_total() == t.shape_total(),
{
    law_take_bone_counts(t, bone);
    if let (rest, Some(b)) = t.take_bone(bone) {
        lemma_with_child_counts(rest, target, b);
    }
}

/// A successful shape move keeps every bone and every shape.
pub proof fn law_reparent_shape_counts(t: BoneView, shape: ShapeId, target: BoneId)
    ensures
        t.moved_shape(shape, target).1 ==> t.moved_shape(shape, target).0.size() == t.size()
            && t.moved_shape(shape, target).0.shape_total() == t.shape_total(),
{
    law_take_shape_counts(t, shape);
    if let (rest, Some(s)) = t.take_shape(shape) {
        lemma_with_shape_counts(rest, target, s);
    }
}

/// A copy with fresh identifiers has as many bones and shapes as the original.
pub proof fn law_copy_counts(b: BoneView, c: BoneView)
    requires
        same_but_ids(b, c),
    ensures
        c.size() == b.size(),
        c.shape_total() == b.shape_total(),
    decreases b, 1int,
{
    lemma_sizes_sum(b.children);
    lemma_sizes_sum(c.children);
    lemma_sums_pairwise(b.children, c.children);
}

proof fn lemma_sums_pairwise(bs: Seq<BoneView>, cs: Seq<BoneView>)
    requires
        bs.len() == cs.len(),
        forall|i: int| 0 <= i < bs.len() ==> same_but_ids(#[trigger] bs[i], cs[i]),
    ensures
        sum_of(bs, size_of()) == sum_of(cs, size_of()),
        sum_of(bs, shapes_of()) == sum_of(cs, shapes_of()),
    decreases bs, 0int,
{
    if bs.len() > 0 {
        let k = bs.len() - 1;
        assert(same_but_ids(bs[k], cs[k]));
        law_copy_counts(bs[k], cs[k]);
        lemma_sums_pairwise(bs.drop_last(), cs.drop_last());
    }
}

proof fn lemma_first_index_in_range_bone(s: Seq<BoneView>, id: BoneId)
    requires
        exists|j: int| 0 <= j < s.len() && #[trigger] s[j].id == id,
    ensures
        0 <= first_index(s, bone_has_id(id)) < s.len(),
        s[first_index(s, bone_has_id(id))].id == id,
    decreases s.len(),
{
    if s.len() > 0 && s[0].id != id {
        let j = choose|j: int| 0 <= j < s.len() && #[trigger] s[j].id == id;
        assert(s.drop_first()[j - 1].id == id);
        lemma_first_index_in_range_bone(s.drop_first(), id);
    }
}

proof fn lemma_first_index_in_range_shape(s: Seq<crate::shape::ShapeView>, id: ShapeId)
    requires
        exists|j: int| 0 <= j < s.len() && #[trigger] s[j].id == id,
    ensures
        0 <= first_index(s, shape_has_id(id)) < s.len(),
        s[first_index(s, shape_has_id(id))].id == id,
    decreases s.len(),
{
    if s.len() > 0 && s[0].id != id {
        let j = choose|j: int| 0 <= j < s.len() && #[trigger] s[j].id == id;
        assert(s.drop_first()[j - 1].id == id);
        lemma_first_index_in_range_shape(s.drop_first(), id);
    }
}

/// Every shape of a subtree is listed once by `all_shapes`: the list is as long as the
/// subtree's shape count.
pub proof fn law_all_shapes_count(b: BoneView)
    ensures
        b.shape_list().len() == b.shape_total(),
    decreases b, 1int,
{
    lemma_shape_lists_len(b.children);
}

proof fn lemma_shape_lists_len(cs: Seq<BoneView>)
    ensures
        BoneView::shape_lists(cs).len() == BoneView::shape_totals(cs),
    decreases cs, 0int,
{
    if cs.len() > 0 {
        lemma_shape_lists_len(cs.drop_last());
        law_all_shapes_count(cs.last());
    }
}

} // verus!
