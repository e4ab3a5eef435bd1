//! The bone hierarchy: every bone carries shapes and child bones.
use vstd::prelude::*;
use crate::bits::{ZERO, ONE};
use crate::ids::{BoneId, ShapeId};
use crate::shape::{SdfShape, ShapeTransform, ShapeView};

verus! {

/// Per-axis rotation limits in degrees, each a `[min, max]` pair.
#[derive(Debug, Clone, Copy, PartialEq, Eq)]
pub struct RotationLimits {
    pub pitch: Option<[u32; 2]>,
    pub yaw: Option<[u32; 2]>,
    pub roll: Option<[u32; 2]>,
}

/// Physical properties of a bone.  A bone with zero mass is kinematic.
#[derive(Debug, Clone, Copy, PartialEq, Eq)]
pub struct BonePhysicsProps {
    pub mass: u32,
    /// Multiplicative per-step velocity damping (1.0 keeps the velocity).
    pub damping: u32,
    /// Bones above this one in its IK chain; 0 walks to the first kinematic bone.
    pub ik_chain_length: u32,
    pub rotation_limits: RotationLimits,
}

impl BonePhysicsProps {
    /// Kinematic, undamped, automatic chain length, no limits.
    pub open spec fn default_spec() -> Self {
        BonePhysicsProps {
            mass: ZERO,
            damping: ONE,
            ik_chain_length: 0,
            rotation_limits: RotationLimits { pitch: None, yaw: None, roll: None },
        }
    }
}

impl Default for BonePhysicsProps {
    fn default() -> (r: Self)
        ensures
            r == Self::default_spec(),
    {
        BonePhysicsProps {
            mass: ZERO,
            damping: ONE,
            ik_chain_length: 0,
            rotation_limits: RotationLimits { pitch: None, yaw: None, roll: None },
        }
    }
}

/// Abstract value of a bone subtree.
pub struct BoneView {
    pub id: BoneId,
    pub name: Seq<char>,
    pub transform: ShapeTransform,
    pub visible: bool,
    pub physics: BonePhysicsProps,
    pub children: Seq<BoneView>,
    pub shapes: Seq<ShapeView>,
}

/// A bone: a transform node that owns shapes and child bones.
#[derive(Debug)]
pub struct SdfBone {
    pub id: BoneId,
    pub name: String,
    pub transform: ShapeTransform,
    pub visible: bool,
    pub physics: BonePhysicsProps,
    pub children: Vec<SdfBone>,
    pub shapes: Vec<SdfShape>,
}

/// Abstract values of a sequence of shapes.
pub open spec fn shapes_view(s: Seq<SdfShape>) -> Seq<ShapeView> {
    s.map_values(|x: SdfShape| x@)
}

/// Abstract value of a bone subtree.
pub open spec fn bone_view(b: SdfBone) -> BoneView
    decreases b, 1int,
{
    BoneView {
        id: b.id,
        name: b.name@,
        transform: b.transform,
        visible: b.visible,
        physics: b.physics,
        children: bones_view(b.children@),
        shapes: shapes_view(b.shapes@),
    }
}

/// Abstract values of a sequence of bone subtrees.
pub open spec fn bones_view(s: Seq<SdfBone>) -> Seq<BoneView>
    decreases s, 0int,
{
    if s.len() == 0 {
        Seq::empty()
    } else {
        bones_view(s.drop_last()).push(bone_view(s.last()))
    }
}

impl View for SdfBone {
    type V = BoneView;

    open spec fn view(&self) -> BoneView {
        bone_view(*self)
    }
}


/// The length of `bones_view(s)` is that of `s`, and each element is the view of
/// the bone at the same position.
pub proof fn lemma_bones_view(s: Seq<SdfBone>)
    ensures
        bones_view(s).len() == s.len(),
        forall|i: int| 0 <= i < s.len() ==> #[trigger] bones_view(s)[i] == bone_view(s[i]),
    decreases s.len(),
{
    if s.len() > 0 {
        lemma_bones_view(s.drop_last());
    }
}

/// Views commute with replacing one element.
pub proof fn lemma_bones_view_update(s: Seq<SdfBone>, i: int, b: SdfBone)
    requires
        0 <= i < s.len(),
    ensures
        bones_view(s.update(i, b)) == bones_view(s).update(i, bone_view(b)),
{
    lemma_bones_view(s);
    lemma_bones_view(s.update(i, b));
    assert(bones_view(s.update(i, b)) =~= bones_view(s).update(i, bone_view(b)));
}

/// Views commute with replacing the element at `i` by any bone.
pub proof fn lemma_bones_view_update_all(s: Seq<SdfBone>, i: int)
    requires
        0 <= i < s.len(),
    ensures
        forall|b: SdfBone| #[trigger] bones_view(s.update(i, b)) == bones_view(s).update(i, bone_view(b)),
{
    assert forall|b: SdfBone| #[trigger] bones_view(s.update(i, b)) == bones_view(s).update(i, bone_view(b)) by {
        lemma_bones_view_update(s, i, b);
    }
}

/// The view of a bone, field by field.
pub proof fn lemma_bone_view_fields()
    ensures
        forall|b: SdfBone| #[trigger] bone_view(b).children == bones_view(b.children@),
        forall|b: SdfBone| #[trigger] bone_view(b).shapes == shapes_view(b.shapes@),
{
}

/// Views commute with appending one element.
pub proof fn lemma_bones_view_push(s: Seq<SdfBone>, b: SdfBone)
    ensures
        bones_view(s.push(b)) == bones_view(s).push(bone_view(b)),
{
    assert(s.push(b).drop_last() =~= s);
}

/// Views commute with removing one element.
pub proof fn lemma_bones_view_remove(s: Seq<SdfBone>, i: int)
    requires
        0 <= i < s.len(),
    ensures
        bones_view(s.remove(i)) == bones_view(s).remove(i),
{
    lemma_bones_view(s);
    lemma_bones_view(s.remove(i));
    assert(bones_view(s.remove(i)) =~= bones_view(s).remove(i));
}

/// Views commute with concatenation.
pub proof fn lemma_bones_view_add(s: Seq<SdfBone>, t: Seq<SdfBone>)
    ensures
        bones_view(s + t) == bones_view(s) + bones_view(t),
{
    lemma_bones_view(s);
    lemma_bones_view(t);
    lemma_bones_view(s + t);
    assert(bones_view(s + t) =~= bones_view(s) + bones_view(t));
}

/// Condition on a bone subtree's root, used to locate bones.
pub type BonePred = spec_fn(BoneView) -> bool;

impl BoneView {
    /// `p` lists child positions that lead from this bone to a bone of its subtree.
    pub open spec fn valid_path(self, p: Seq<int>) -> bool
        decreases p.len(),
    {
        p.len() == 0 || (0 <= p[0] < self.children.len() && self.children[p[0]].valid_path(p.drop_first()))
    }

    /// The bone that `p` leads to.
    pub open spec fn node_at(self, p: Seq<int>) -> BoneView
        decreases p.len(),
    {
        if p.len() == 0 {
            self
        } else {
            self.children[p[0]].node_at(p.drop_first())
        }
    }

    /// This subtree with the bone that `p` leads to replaced by `n`.
    pub open spec fn replace_at(self, p: Seq<int>, n: BoneView) -> BoneView
        decreases p.len(),
    {
        if p.len() == 0 {
            n
        } else {
            BoneView {
                children: self.children.update(p[0], self.children[p[0]].replace_at(p.drop_first(), n)),
                ..self
            }
        }
    }

    /// Path to the first bone, in pre-order (a bone before its children, children in
    /// order), that satisfies `pred`.
    pub open spec fn find_path(self, pred: BonePred) -> Option<Seq<int>>
        decreases self, 1int, 0int,
    {
        if pred(self) {
            Some(Seq::empty())
        } else {
            Self::find_path_in(self.children, 0, pred)
        }
    }

    /// Path, starting with a position `>= i` in `cs`, to the first bone in pre-order of
    /// the subtrees `cs[i..]` that satisfies `pred`.
    pub open spec fn find_path_in(cs: Seq<BoneView>, i: nat, pred: BonePred) -> Option<Seq<int>>
        decreases cs, 0int, cs.len() - i,
    {
        if i >= cs.len() {
            None
        } else {
            match cs[i as int].find_path(pred) {
                Some(q) => Some(seq![i as int] + q),
                None => Self::find_path_in(cs, i + 1, pred),
            }
        }
    }

    /// Number of bones in this subtree, this bone included.
    pub open spec fn size(self) -> nat
        decreases self, 1int,
    {
        1 + Self::sizes(self.children)
    }

    /// Number of bones in the subtrees `cs`.
    pub open spec fn sizes(cs: Seq<BoneView>) -> nat
        decreases cs, 0int,
    {
        if cs.len() == 0 {
            0
        } else {
            Self::sizes(cs.drop_last()) + cs.last().size()
        }
    }

    /// Number of shapes in this subtree.
    pub open spec fn shape_total(self) -> nat
        decreases self, 1int,
    {
        self.shapes.len() + Self::shape_totals(self.children)
    }

    /// Number of shapes in the subtrees `cs`.
    pub open spec fn shape_totals(cs: Seq<BoneView>) -> nat
        decreases cs, 0int,
    {
        if cs.len() == 0 {
            0
        } else {
            Self::shape_totals(cs.drop_last()) + cs.last().shape_total()
        }
    }
}

/// The bone carries the identifier `id`.
pub open spec fn has_id(id: BoneId) -> BonePred {
    |b: BoneView| b.id == id
}

/// The bone carries the name `name`.
pub open spec fn has_name(name: Seq<char>) -> BonePred {
    |b: BoneView| b.name == name
}

/// The bone holds a shape with identifier `id`.
pub open spec fn holds_shape(id: ShapeId) -> BonePred {
    |b: BoneView| exists|j: int| 0 <= j < b.shapes.len() && #[trigger] b.shapes[j].id == id
}

/// The bone holds a shape named `name`.
pub open spec fn holds_shape_named(name: Seq<char>) -> BonePred {
    |b: BoneView| exists|j: int| 0 <= j < b.shapes.len() && #[trigger] b.shapes[j].name == name
}

/// The bone has a child with identifier `id`.
pub open spec fn parent_of(id: BoneId) -> BonePred {
    |b: BoneView| exists|j: int| 0 <= j < b.children.len() && #[trigger] b.children[j].id == id
}

/// Position of the first element of `s` satisfying `p`; `s.len()` when none does.
pub open spec fn first_index<A>(s: Seq<A>, p: spec_fn(A) -> bool) -> int
    decreases s.len(),
{
    if s.len() == 0 {
        0
    } else if p(s[0]) {
        0
    } else {
        1 + first_index(s.drop_first(), p)
    }
}

/// `i` is the position of the first element satisfying `p` (or the length).
pub proof fn lemma_first_index<A>(s: Seq<A>, p: spec_fn(A) -> bool, i: int)
    requires
        0 <= i <= s.len(),
        forall|k: int| 0 <= k < i ==> !p(#[trigger] s[k]),
        i < s.len() ==> p(s[i]),
    ensures
        first_index(s, p) == i,
    decreases s.len(),
{
    if s.len() > 0 && i > 0 {
        assert(!p(s[0]));
        assert forall|k: int| 0 <= k < i - 1 implies !p(#[trigger] s.drop_first()[k]) by {
            assert(s.drop_first()[k] == s[k + 1]);
        }
        lemma_first_index(s.drop_first(), p, i - 1);
    }
}

/// The first position lies between 0 and the length.
pub proof fn lemma_first_index_range<A>(s: Seq<A>, p: spec_fn(A) -> bool)
    ensures
        0 <= first_index(s, p) <= s.len(),
    decreases s.len(),
{
    if s.len() > 0 && !p(s[0]) {
        lemma_first_index_range(s.drop_first(), p);
    }
}

/// When some element satisfies `p`, the first such element is found at or before it.
pub proof fn lemma_first_index_found<A>(s: Seq<A>, p: spec_fn(A) -> bool, k: int)
    requires
        0 <= k < s.len(),
        p(s[k]),
    ensures
        0 <= first_index(s, p) <= k,
        p(s[first_index(s, p)]),
    decreases s.len(),
{
    if k > 0 && !p(s[0]) {
        assert(s.drop_first()[k - 1] == s[k]);
        lemma_first_index_found(s.drop_first(), p, k - 1);
        assert(s.drop_first()[first_index(s.drop_first(), p)] == s[first_index(s, p)]);
    }
}

/// The shape carries identifier `id`.
pub open spec fn shape_has_id(id: ShapeId) -> spec_fn(ShapeView) -> bool {
    |s: ShapeView| s.id == id
}

/// The shape does not carry identifier `id`.
pub open spec fn shape_lacks_id(id: ShapeId) -> spec_fn(ShapeView) -> bool {
    |s: ShapeView| s.id != id
}

/// The shape carries the name `name`.
pub open spec fn shape_has_name(name: Seq<char>) -> spec_fn(ShapeView) -> bool {
    |s: ShapeView| s.name == name
}

/// The bone carries identifier `id`.
pub open spec fn bone_has_id(id: BoneId) -> spec_fn(BoneView) -> bool {
    |b: BoneView| b.id == id
}

/// What a search in the bone tree looks for.
pub enum BoneQuery {
    /// A bone with this identifier.
    Id(BoneId),
    /// A bone with this name.
    Name(String),
    /// A bone holding a shape with this identifier.
    HoldsShape(ShapeId),
    /// A bone holding a shape with this name.
    HoldsShapeNamed(String),
    /// A bone with a child with this identifier.
    ParentOf(BoneId),
}

impl BoneQuery {
    /// The condition on bones that the query stands for.
    pub open spec fn pred(&self) -> BonePred {
        match self {
            BoneQuery::Id(id) => has_id(*id),
            BoneQuery::Name(n) => has_name(n@),
            BoneQuery::HoldsShape(id) => holds_shape(*id),
            BoneQuery::HoldsShapeNamed(n) => holds_shape_named(n@),
            BoneQuery::ParentOf(id) => parent_of(*id),
        }
    }

    /// Whether the bone itself (not its subtree) satisfies the query.
    pub fn test(&self, b: &SdfBone) -> (r: bool)
        ensures
            r == self.pred()(b@),
    {
        match self {
            BoneQuery::Id(id) => b.id == *id,
            BoneQuery::Name(n) => b.name == *n,
            BoneQuery::HoldsShape(id) => b.shape_position(*id) < b.shapes.len(),
            BoneQuery::HoldsShapeNamed(n) => b.shape_position_named(n) < b.shapes.len(),
            BoneQuery::ParentOf(id) => b.child_position(*id) < b.children.len(),
        }
    }
}

impl SdfBone {
    /// Position of the first own shape with identifier `id` (the number of own shapes when none).
    pub fn shape_position(&self, id: ShapeId) -> (r: usize)
        ensures
            r as int == first_index(self@.shapes, shape_has_id(id)),
            r <= self.shapes@.len(),
            r < self.shapes@.len() <==> holds_shape(id)(self@),
    {
        let mut i: usize = 0;
        while i < self.shapes.len()
            invariant
                i <= self.shapes@.len(),
                self@.shapes.len() == self.shapes@.len(),
                forall|k: int| 0 <= k < i ==> #[trigger] self@.shapes[k].id != id,
            decreases self.shapes@.len() - i,
        {
            if self.shapes[i].id == id {
                assert(self@.shapes[i as int].id == id);
                proof { lemma_first_index(self@.shapes, shape_has_id(id), i as int); }
                return i;
            }
            i += 1;
        }
        proof { lemma_first_index(self@.shapes, shape_has_id(id), i as int); }
        i
    }

    /// Position of the first own shape named `name` (the number of own shapes when none).
    pub fn shape_position_named(&self, name: &String) -> (r: usize)
        ensures
            r as int == first_index(self@.shapes, shape_has_name(name@)),
            r <= self.shapes@.len(),
            r < self.shapes@.len() <==> holds_shape_named(name@)(self@),
    {
        let mut i: usize = 0;
        while i < self.shapes.len()
            invariant
                i <= self.shapes@.len(),
                self@.shapes.len() == self.shapes@.len(),
                forall|k: int| 0 <= k < i ==> #[trigger] self@.shapes[k].name != name@,
            decreases self.shapes@.len() - i,
        {
            if self.shapes[i].name == *name {
                assert(self@.shapes[i as int].name == name@);
                proof { lemma_first_index(self@.shapes, shape_has_name(name@), i as int); }
                return i;
            }
            i += 1;
        }
        proof { lemma_first_index(self@.shapes, shape_has_name(name@), i as int); }
        i
    }

    /// Position of the first child with identifier `id` (the number of children when none).
    pub fn child_position(&self, id: BoneId) -> (r: usize)
        ensures
            r as int == first_index(self@.children, bone_has_id(id)),
            r <= self.children@.len(),
            r < self.children@.len() <==> parent_of(id)(self@),
    {
        proof { lemma_bones_view(self.children@); }
        let mut i: usize = 0;
        while i < self.children.len()
            invariant
                i <= self.children@.len(),
                self@.children.len() == self.children@.len(),
                forall|j: int| 0 <= j < self.children@.len() ==> #[trigger] self@.children[j] == bone_view(self.children@[j]),
                forall|k: int| 0 <= k < i ==> #[trigger] self@.children[k].id != id,
            decreases self.children@.len() - i,
        {
            if self.children[i].id == id {
                assert(self@.children[i as int].id == id);
                proof { lemma_first_index(self@.children, bone_has_id(id), i as int); }
                return i;
            }
            i += 1;
        }
        proof { lemma_first_index(self@.children, bone_has_id(id), i as int); }
        i
    }

    /// Whether some bone of this subtree satisfies the query.
    pub fn contains(&self, q: &BoneQuery) -> (r: bool)
        ensures
            r == self@.find_path(q.pred()) is Some,
        decreases self,
    {
        if q.test(self) {
            return true;
        }
        proof { lemma_bones_view(self.children@); }
        let mut i: usize = 0;
        while i < self.children.len()
            invariant
                i <= self.children@.len(),
                self@.children.len() == self.children@.len(),
                forall|j: int| 0 <= j < self.children@.len() ==> #[trigger] self@.children[j] == bone_view(self.children@[j]),
                !q.pred()(self@),
                BoneView::find_path_in(self@.children, 0, q.pred()) == BoneView::find_path_in(self@.children, i as nat, q.pred()),
            decreases self.children@.len() - i,
        {
            if self.children[i].contains(q) {
                return true;
            }
            i += 1;
        }
        false
    }

    /// Position of the first child whose subtree holds a bone satisfying the query,
    /// when this bone itself does not.
    fn child_holding(&self, q: &BoneQuery) -> (r: Option<usize>)
        requires
            !q.pred()(self@),
        ensures
            match BoneView::find_path_in(self@.children, 0, q.pred()) {
                Some(p) => r is Some && p.len() > 0 && p[0] == r->0 as int && r->0 < self.children@.len()
                    && self@.children[p[0]].find_path(q.pred()) == Some(p.drop_first()),
                None => r is None,
            },
    {
        proof { lemma_bones_view(self.children@); }
        let mut i: usize = 0;
        while i < self.children.len()
            invariant
                i <= self.children@.len(),
                self@.children.len() == self.children@.len(),
                forall|j: int| 0 <= j < self.children@.len() ==> #[trigger] self@.children[j] == bone_view(self.children@[j]),
                BoneView::find_path_in(self@.children, 0, q.pred()) == BoneView::find_path_in(self@.children, i as nat, q.pred()),
            decreases self.children@.len() - i,
        {
            if self.children[i].contains(q) {
                proof {
                    let qq = self.children@[i as int]@.find_path(q.pred())->0;
                    assert((seq![i as int] + qq).drop_first() =~= qq);
                }
                return Some(i);
            }
            i += 1;
        }
        None
    }

    /// The first bone in pre-order that satisfies the query.
    pub fn locate(&self, q: &BoneQuery) -> (r: Option<&SdfBone>)
        ensures
            match self@.find_path(q.pred()) {
                Some(p) => r is Some && r->0@ == self@.node_at(p),
                None => r is None,
            },
        decreases self,
    {
        if q.test(self) {
            return Some(self);
        }
        match self.child_holding(q) {
            None => None,
            Some(i) => {
                proof {
                    lemma_bones_view(self.children@);
                    let p = self@.find_path(q.pred())->0;
                    assert(seq![i as int] + p.drop_first() =~= p);
                }
                self.children[i].locate(q)
            }
        }
    }

    /// Mutable access to the child at position `i`.
    fn child_mut(&mut self, i: usize) -> (r: &mut SdfBone)
        requires
            i < old(self).children@.len(),
        ensures
            (*r)@ == old(self)@.children[i as int],
            *r == old(self).children@[i as int],
            final(self).children@ == old(self).children@.update(i as int, *final(r)),
            bones_view(final(self).children@) == bones_view(old(self).children@).update(i as int, (*final(r))@),
            final(self)@.children =~= old(self)@.children.update(i as int, (*final(r))@),
            final(self)@ == (BoneView { children: final(self)@.children, ..old(self)@ }),
    {
        proof {
            lemma_bones_view(self.children@);
            lemma_bones_view_update_all(self.children@, i as int);
            lemma_bone_view_fields();
        }
        &mut self.children[i]
    }

    /// Mutable access to the first bone in pre-order that satisfies the query.
    pub fn locate_mut(&mut self, q: &BoneQuery) -> (r: Option<&mut SdfBone>)
        ensures
            match old(self)@.find_path(q.pred()) {
                Some(p) => r is Some && (*r.unwrap())@ == old(self)@.node_at(p)
                    && final(self)@ == old(self)@.replace_at(p, (*final(r.unwrap()))@),
                None => r is None && final(self)@ == old(self)@,
            },
        decreases *old(self),
    {
        if q.test(self) {
            return Some(self);
        }
        match self.child_holding(q) {
            None => None,
            Some(i) => {
                proof {
                    let p = old(self)@.find_path(q.pred())->0;
                    assert(seq![i as int] + p.drop_first() =~= p);
                }
                let child = self.child_mut(i);
                child.locate_mut(q)
            }
        }
    }

    /// The first bone in pre-order with identifier `id`.
    pub fn find_bone(&self, id: BoneId) -> (r: Option<&SdfBone>)
        ensures
            match self@.find_path(has_id(id)) {
                Some(p) => r is Some && r->0@ == self@.node_at(p),
                None => r is None,
            },
    {
        self.locate(&BoneQuery::Id(id))
    }

    /// Mutable access to the first bone in pre-order with identifier `id`.
    pub fn find_bone_mut(&mut self, id: BoneId) -> (r: Option<&mut SdfBone>)
        ensures
            match old(self)@.find_path(has_id(id)) {
                Some(p) => r is Some && (*r.unwrap())@ == old(self)@.node_at(p)
                    && final(self)@ == old(self)@.replace_at(p, (*final(r.unwrap()))@),
                None => r is None && final(self)@ == old(self)@,
            },
    {
        self.locate_mut(&BoneQuery::Id(id))
    }

    /// The first bone in pre-order named `name`.
    pub fn find_bone_by_name(&self, name: &str) -> (r: Option<&SdfBone>)
        ensures
            match self@.find_path(has_name(name@)) {
                Some(p) => r is Some && r->0@ == self@.node_at(p),
                None => r is None,
            },
    {
        self.locate(&BoneQuery::Name(String::from_str(name)))
    }

    /// Mutable access to the first bone in pre-order named `name`.
    pub fn find_bone_by_name_mut(&mut self, name: &str) -> (r: Option<&mut SdfBone>)
        ensures
            match old(self)@.find_path(has_name(name@)) {
                Some(p) => r is Some && (*r.unwrap())@ == old(self)@.node_at(p)
                    && final(self)@ == old(self)@.replace_at(p, (*final(r.unwrap()))@),
                None => r is None && final(self)@ == old(self)@,
            },
    {
        self.locate_mut(&BoneQuery::Name(String::from_str(name)))
    }
}


/// What `find_path_in` finds: a path into one of the subtrees `cs[i..]`, or nothing in any of them.
pub proof fn lemma_find_path_in(cs: Seq<BoneView>, i: nat, pred: BonePred)
    ensures
        match BoneView::find_path_in(cs, i, pred) {
            Some(q) => q.len() > 0 && i <= q[0] < cs.len() && cs[q[0]].find_path(pred) == Some(q.drop_first()),
            None => forall|k: int| i <= k < cs.len() ==> (#[trigger] cs[k].find_path(pred)) is None,
        },
    decreases cs.len() - i,
{
    if i < cs.len() {
        match cs[i as int].find_path(pred) {
            Some(q) => {
                assert((seq![i as int] + q).drop_first() =~= q);
            },
            None => {
                lemma_find_path_in(cs, i + 1, pred);
            },
        }
    }
}

/// A found path leads to a bone satisfying the condition; when nothing is found, no
/// bone of the subtree satisfies it.
pub proof fn lemma_find_path(t: BoneView, pred: BonePred)
    ensures
        match t.find_path(pred) {
            Some(p) => t.valid_path(p) && pred(t.node_at(p)),
            None => forall|p: Seq<int>| t.valid_path(p) ==> !pred(#[trigger] t.node_at(p)),
        },
    decreases t,
{
    if !pred(t) {
        lemma_find_path_in(t.children, 0, pred);
        match BoneView::find_path_in(t.children, 0, pred) {
            Some(q) => {
                lemma_find_path(t.children[q[0]], pred);
            },
            None => {
                assert forall|p: Seq<int>| t.valid_path(p) implies !pred(#[trigger] t.node_at(p)) by {
                    if p.len() > 0 {
                        assert(t.children[p[0]].find_path(pred) is None);
                        lemma_find_path(t.children[p[0]], pred);
                        assert(t.children[p[0]].valid_path(p.drop_first()));
                        assert(t.node_at(p) == t.children[p[0]].node_at(p.drop_first()));
                    }
                }
            },
        }
    }
}

/// The subtrees before the one `find_path_in` enters hold no bone satisfying `pred`.
pub proof fn lemma_find_path_in_first(cs: Seq<BoneView>, i: nat, pred: BonePred)
    requires
        BoneView::find_path_in(cs, i, pred) is Some,
    ensures
        forall|k: int| i <= k < BoneView::find_path_in(cs, i, pred)->0[0]
            ==> (#[trigger] cs[k].find_path(pred)) is None,
    decreases cs.len() - i,
{
    if i < cs.len() && cs[i as int].find_path(pred) is None {
        lemma_find_path_in_first(cs, i + 1, pred);
    }
}

/// The bone at a valid path of a tree in which that bone was replaced by `n` is `n`.
pub proof fn lemma_node_at_replace(t: BoneView, p: Seq<int>, n: BoneView)
    requires
        t.valid_path(p),
    ensures
        t.replace_at(p, n).node_at(p) == n,
        t.replace_at(p, n).valid_path(p),
    decreases p.len(),
{
    if p.len() > 0 {
        lemma_node_at_replace(t.children[p[0]], p.drop_first(), n);
    }
}

/// The condition looks at a bone's own data only, not at its children.
pub open spec fn local_pred(pred: BonePred) -> bool {
    forall|b: BoneView, cs: Seq<BoneView>| #[trigger] pred(BoneView { children: cs, ..b }) == pred(b)
}

/// Replacing the bone that the search for a condition on a bone's own data finds by a
/// bone that still satisfies it leaves the search's result where it was.
pub proof fn lemma_find_path_replace(t: BoneView, pred: BonePred, n: BoneView)
    requires
        local_pred(pred),
        t.find_path(pred) is Some,
        pred(n),
    ensures
        t.replace_at(t.find_path(pred)->0, n).find_path(pred) == t.find_path(pred),
    decreases t,
{
    if !pred(t) {
        let cs = t.children;
        lemma_find_path_in(cs, 0, pred);
        lemma_find_path_in_first(cs, 0, pred);
        let q = BoneView::find_path_in(cs, 0, pred)->0;
        let i = q[0];
        let r = q.drop_first();
        assert(q =~= seq![i] + r);
        lemma_find_path_replace(cs[i], pred, n);
        let t2 = t.replace_at(q, n);
        let ds = t2.children;
        assert(ds == cs.update(i, cs[i].replace_at(r, n)));
        assert(t2.shapes == t.shapes);
        assert(!pred(t2));
        // Up to `i` both lists hold the same subtrees, and at `i` the search finds `r` again.
        lemma_find_path_in_upto(cs, ds, 0, i as nat, pred);
        assert(BoneView::find_path_in(ds, i as nat, pred) == Some(seq![i] + r));
    }
}

/// When the subtrees before position `i` match and none of them holds a bone
/// satisfying `pred`, searching from `j <= i` is searching from `i`.
proof fn lemma_find_path_in_upto(cs: Seq<BoneView>, ds: Seq<BoneView>, j: nat, i: nat, pred: BonePred)
    requires
        j <= i < ds.len(),
        cs.len() == ds.len(),
        forall|k: int| j <= k < i ==> (#[trigger] ds[k]) == cs[k] && cs[k].find_path(pred) is None,
    ensures
        BoneView::find_path_in(ds, j, pred) == BoneView::find_path_in(ds, i, pred),
    decreases i - j,
{
    if j < i {
        assert(ds[j as int] == cs[j as int]);
        lemma_find_path_in_upto(cs, ds, j + 1, i, pred);
    }
}

impl BoneView {
    /// Remove the first shape with identifier `id` from the first bone in pre-order that
    /// holds one; the tree afterwards and the shape taken.
    pub open spec fn take_shape(self, id: ShapeId) -> (BoneView, Option<ShapeView>) {
        match self.find_path(holds_shape(id)) {
            Some(p) => {
                let n = self.node_at(p);
                let j = first_index(n.shapes, shape_has_id(id));
                (self.replace_at(p, BoneView { shapes: n.shapes.remove(j), ..n }), Some(n.shapes[j]))
            },
            None => (self, None),
        }
    }

    /// Remove every shape with identifier `id` from the first bone in pre-order that holds
    /// one; the tree afterwards and whether such a bone was found.
    pub open spec fn drop_shapes(self, id: ShapeId) -> (BoneView, bool) {
        match self.find_path(holds_shape(id)) {
            Some(p) => {
                let n = self.node_at(p);
                (self.replace_at(p, BoneView { shapes: n.shapes.filter(shape_lacks_id(id)), ..n }), true)
            },
            None => (self, false),
        }
    }

    /// Detach the first child with identifier `id` of the first bone in pre-order that has
    /// one; the tree afterwards and the detached subtree.
    pub open spec fn take_bone(self, id: BoneId) -> (BoneView, Option<BoneView>) {
        match self.find_path(parent_of(id)) {
            Some(p) => {
                let n = self.node_at(p);
                let j = first_index(n.children, bone_has_id(id));
                (self.replace_at(p, BoneView { children: n.children.remove(j), ..n }), Some(n.children[j]))
            },
            None => (self, None),
        }
    }

    /// Remove the child with identifier `id` found as `take_bone` finds it, handing its
    /// shapes and its children to its parent; the tree afterwards and whether it was found.
    pub open spec fn dissolve_bone(self, id: BoneId) -> (BoneView, bool) {
        match self.find_path(parent_of(id)) {
            Some(p) => {
                let n = self.node_at(p);
                let j = first_index(n.children, bone_has_id(id));
                let c = n.children[j];
                (
                    self.replace_at(
                        p,
                        BoneView { children: n.children.remove(j) + c.children, shapes: n.shapes + c.shapes, ..n },
                    ),
                    true,
                )
            },
            None => (self, false),
        }
    }

    /// The tree with `s` appended to the shapes of the first bone with identifier `bone`,
    /// if there is one.
    pub open spec fn with_shape(self, bone: BoneId, s: ShapeView) -> Option<BoneView> {
        match self.find_path(has_id(bone)) {
            Some(p) => {
                let n = self.node_at(p);
                Some(self.replace_at(p, BoneView { shapes: n.shapes.push(s), ..n }))
            },
            None => None,
        }
    }

    /// The tree with `c` appended to the children of the first bone with identifier
    /// `bone`, if there is one.
    pub open spec fn with_child(self, bone: BoneId, c: BoneView) -> Option<BoneView> {
        match self.find_path(has_id(bone)) {
            Some(p) => {
                let n = self.node_at(p);
                Some(self.replace_at(p, BoneView { children: n.children.push(c), ..n }))
            },
            None => None,
        }
    }

    /// Move a shape to a bone: the shape is taken as `take_shape` takes it, then appended
    /// to the target bone.  When the target is missing the taken shape is lost.
    pub open spec fn moved_shape(self, shape: ShapeId, target: BoneId) -> (BoneView, bool) {
        match self.take_shape(shape) {
            (t, Some(s)) => match t.with_shape(target, s) {
                Some(u) => (u, true),
                None => (t, false),
            },
            (t, None) => (t, false),
        }
    }

    /// The target lies in the subtree of the first bone with identifier `bone`.
    pub open spec fn target_below(self, bone: BoneId, target: BoneId) -> bool {
        match self.find_path(has_id(bone)) {
            Some(p) => self.node_at(p).find_path(has_id(target)) is Some,
            None => false,
        }
    }

    /// Move a bone under a new parent.  Refused (tree unchanged) when the bone is its own
    /// target or the target lies in its subtree; otherwise the bone is detached as
    /// `take_bone` detaches it and appended to the target's children.  When the target is
    /// missing the detached subtree is lost.
    pub open spec fn moved_bone(self, bone: BoneId, target: BoneId) -> (BoneView, bool) {
        if bone == target || self.target_below(bone, target) {
            (self, false)
        } else {
            match self.take_bone(bone) {
                (t, Some(b)) => match t.with_child(target, b) {
                    Some(u) => (u, true),
                    None => (t, false),
                },
                (t, None) => (t, false),
            }
        }
    }
}


impl SdfBone {
    /// Remove and return the own shape at position `j`.
    fn take_shape_at(&mut self, j: usize) -> (r: SdfShape)
        requires
            j < old(self).shapes@.len(),
        ensures
            r@ == old(self)@.shapes[j as int],
            final(self)@ == (BoneView { shapes: old(self)@.shapes.remove(j as int), ..old(self)@ }),
    {
        let s = self.shapes.remove(j);
        assert(shapes_view(self.shapes@) =~= shapes_view(old(self).shapes@).remove(j as int));
        s
    }

    /// Append a shape to the own shapes.
    pub fn push_shape(&mut self, s: SdfShape)
        ensures
            final(self)@ == (BoneView { shapes: old(self)@.shapes.push(s@), ..old(self)@ }),
    {
        self.shapes.push(s);
        assert(shapes_view(self.shapes@) =~= shapes_view(old(self).shapes@).push(s@));
    }

    /// Append a child bone.
    pub fn push_child(&mut self, c: SdfBone)
        ensures
            final(self)@ == (BoneView { children: old(self)@.children.push(c@), ..old(self)@ }),
    {
        proof { lemma_bones_view_push(self.children@, c); }
        self.children.push(c);
    }

    /// Remove and return the child at position `j`.
    fn take_child_at(&mut self, j: usize) -> (r: SdfBone)
        requires
            j < old(self).children@.len(),
        ensures
            r@ == old(self)@.children[j as int],
            final(self)@ == (BoneView { children: old(self)@.children.remove(j as int), ..old(self)@ }),
    {
        proof {
            lemma_bones_view(self.children@);
            lemma_bones_view_remove(self.children@, j as int);
        }
        self.children.remove(j)
    }

    /// Remove every own shape with identifier `id`, keeping the others in order.
    fn drop_own_shapes(&mut self, id: ShapeId)
        ensures
            final(self)@ == (BoneView { shapes: old(self)@.shapes.filter(shape_lacks_id(id)), ..old(self)@ }),
    {
        let ghost orig = self@.shapes;
        let mut kept: Vec<SdfShape> = Vec::new();
        let mut rest: Vec<SdfShape> = Vec::new();
        std::mem::swap(&mut rest, &mut self.shapes);
        let n = rest.len();
        let mut i: usize = 0;
        while i < n
            invariant
                n == rest@.len(),
                i <= n,
                shapes_view(rest@) == orig,
                shapes_view(kept@) == orig.take(i as int).filter(shape_lacks_id(id)),
            decreases n - i,
        {
            proof {
                reveal_with_fuel(Seq::<_>::filter, 1);
                assert(orig.take(i + 1).drop_last() =~= orig.take(i as int));
                assert(orig.take(i + 1).last() == orig[i as int]);
                assert(orig[i as int] == rest@[i as int]@);
            }
            if rest[i].id != id {
                let s = rest[i].copy();
                let ghost before = kept@;
                kept.push(s);
                proof {
                    assert(shapes_view(kept@) =~= shapes_view(before).push(s@));
                    reveal_with_fuel(Seq::<_>::filter, 1);
                    assert(shape_lacks_id(id)(orig[i as int]));
                    assert(orig.take(i + 1).filter(shape_lacks_id(id)) == orig.take(i as int).filter(shape_lacks_id(id)).push(orig[i as int]));
                }
            } else {
                proof {
                    reveal_with_fuel(Seq::<_>::filter, 1);
                    assert(!shape_lacks_id(id)(orig[i as int]));
                    assert(orig.take(i + 1).filter(shape_lacks_id(id)) == orig.take(i as int).filter(shape_lacks_id(id)));
                }
            }
            i += 1;
        }
        assert(orig.take(n as int) =~= orig);
        self.shapes = kept;
    }
}


impl SdfBone {
    /// Take out the first shape with identifier `id` of the first bone in pre-order that
    /// holds one.
    pub fn extract_shape(&mut self, id: ShapeId) -> (r: Option<SdfShape>)
        ensures
            final(self)@ == old(self)@.take_shape(id).0,
            match old(self)@.take_shape(id).1 {
                Some(s) => r is Some && r->0@ == s,
                None => r is None,
            },
    {
        proof { lemma_find_path(self@, holds_shape(id)); }
        match self.locate_mut(&BoneQuery::HoldsShape(id)) {
            None => None,
            Some(node) => {
                let j = node.shape_position(id);
                Some(node.take_shape_at(j))
            },
        }
    }

    /// Remove the shapes with identifier `id` from the first bone in pre-order that holds
    /// one; whether there was such a bone.
    pub fn remove_shape(&mut self, id: ShapeId) -> (r: bool)
        ensures
            final(self)@ == old(self)@.drop_shapes(id).0,
            r == old(self)@.drop_shapes(id).1,
    {
        match self.locate_mut(&BoneQuery::HoldsShape(id)) {
            None => false,
            Some(node) => {
                node.drop_own_shapes(id);
                true
            },
        }
    }

    /// Detach the first child with identifier `id` of the first bone in pre-order that has one.
    pub fn extract_bone(&mut self, id: BoneId) -> (r: Option<SdfBone>)
        ensures
            final(self)@ == old(self)@.take_bone(id).0,
            match old(self)@.take_bone(id).1 {
                Some(b) => r is Some && r->0@ == b,
                None => r is None,
            },
    {
        proof { lemma_find_path(self@, parent_of(id)); }
        match self.locate_mut(&BoneQuery::ParentOf(id)) {
            None => None,
            Some(node) => {
                let j = node.child_position(id);
                Some(node.take_child_at(j))
            },
        }
    }

    /// Remove the bone with identifier `id` (found as `extract_bone` finds it); its shapes
    /// and children move to its parent.  Whether the bone was found.
    pub fn remove_bone(&mut self, id: BoneId) -> (r: bool)
        ensures
            final(self)@ == old(self)@.dissolve_bone(id).0,
            r == old(self)@.dissolve_bone(id).1,
    {
        proof { lemma_find_path(self@, parent_of(id)); }
        match self.locate_mut(&BoneQuery::ParentOf(id)) {
            None => false,
            Some(node) => {
                let j = node.child_position(id);
                let mut removed = node.take_child_at(j);
                node.adopt(&mut removed);
                true
            },
        }
    }

    /// Append another bone's shapes and children to this bone's, leaving that bone's empty.
    fn adopt(&mut self, other: &mut SdfBone)
        ensures
            final(self)@ == (BoneView {
                children: old(self)@.children + old(other)@.children,
                shapes: old(self)@.shapes + old(other)@.shapes,
                ..old(self)@
            }),
    {
        proof {
            lemma_bones_view_add(self.children@, other.children@);
        }
        let ghost s1 = self.shapes@;
        let ghost s2 = other.shapes@;
        self.shapes.append(&mut other.shapes);
        self.children.append(&mut other.children);
        assert(shapes_view(self.shapes@) =~= shapes_view(s1) + shapes_view(s2));
    }

    /// Move a shape to the bone with identifier `target_bone_id`.  The shape is taken out
    /// first; if the target then cannot be found the shape is gone and the result is false.
    pub fn reparent_shape(&mut self, shape_id: ShapeId, target_bone_id: BoneId) -> (r: bool)
        ensures
            final(self)@ == old(self)@.moved_shape(shape_id, target_bone_id).0,
            r == old(self)@.moved_shape(shape_id, target_bone_id).1,
    {
        let shape = self.extract_shape(shape_id);
        match shape {
            None => false,
            Some(shape) => {
                proof { lemma_find_path(self@, has_id(target_bone_id)); }
                match self.find_bone_mut(target_bone_id) {
                    None => false,
                    Some(target) => {
                        target.push_shape(shape);
                        true
                    },
                }
            },
        }
    }

    /// Move a bone under the bone with identifier `target_bone_id`.  Refused when the two
    /// are the same or the target lies below the bone.  The bone is detached first; if the
    /// target then cannot be found the subtree is gone and the result is false.
    pub fn reparent_bone(&mut self, bone_id: BoneId, target_bone_id: BoneId) -> (r: bool)
        ensures
            final(self)@ == old(self)@.moved_bone(bone_id, target_bone_id).0,
            r == old(self)@.moved_bone(bone_id, target_bone_id).1,
    {
        if bone_id == target_bone_id {
            return false;
        }
        if let Some(bone) = self.find_bone(bone_id) {
            if bone.find_bone(target_bone_id).is_some() {
                return false;
            }
        }
        let bone = self.extract_bone(bone_id);
        match bone {
            None => false,
            Some(bone) => {
                match self.find_bone_mut(target_bone_id) {
                    None => false,
                    Some(target) => {
                        target.push_child(bone);
                        true
                    },
                }
            },
        }
    }
}


/// Values of the shape references paired with bone identifiers.
pub open spec fn pairs_view(s: Seq<(&SdfShape, BoneId)>) -> Seq<(ShapeView, BoneId)> {
    s.map_values(|x: (&SdfShape, BoneId)| (x.0@, x.1))
}

/// `x` clamped to what a `usize` can hold.
pub open spec fn saturate(x: int) -> int {
    if x > usize::MAX {
        usize::MAX as int
    } else {
        x
    }
}

/// Saturating addition of saturated non-negative counts.
pub proof fn lemma_saturate_add(a: int, b: int)
    requires
        a >= 0,
        b >= 0,
    ensures
        saturate(saturate(a) + saturate(b)) == saturate(a + b),
{
}

impl BoneView {
    /// All shapes of this subtree with the identifiers of the bones holding them: a bone's
    /// own shapes in order, then those of its children's subtrees in order.
    pub open spec fn shape_list(self) -> Seq<(ShapeView, BoneId)>
        decreases self, 1int,
    {
        self.shapes.map_values(|s: ShapeView| (s, self.id)) + Self::shape_lists(self.children)
    }

    /// `shape_list` of the subtrees `cs`, concatenated.
    pub open spec fn shape_lists(cs: Seq<BoneView>) -> Seq<(ShapeView, BoneId)>
        decreases cs, 0int,
    {
        if cs.len() == 0 {
            Seq::empty()
        } else {
            Self::shape_lists(cs.drop_last()) + cs.last().shape_list()
        }
    }

    /// The shape that the search for shape `id` finds, with its bone's identifier.
    pub open spec fn found_shape(self, id: ShapeId) -> Option<(ShapeView, BoneId)> {
        match self.find_path(holds_shape(id)) {
            Some(p) => {
                let n = self.node_at(p);
                Some((n.shapes[first_index(n.shapes, shape_has_id(id))], n.id))
            },
            None => None,
        }
    }

    /// The shape that the search for a shape named `name` finds, with its bone's identifier.
    pub open spec fn found_shape_named(self, name: Seq<char>) -> Option<(ShapeView, BoneId)> {
        match self.find_path(holds_shape_named(name)) {
            Some(p) => {
                let n = self.node_at(p);
                Some((n.shapes[first_index(n.shapes, shape_has_name(name))], n.id))
            },
            None => None,
        }
    }
}

impl SdfBone {
    /// Mutable access to the own shape at position `j`.
    fn shape_mut(&mut self, j: usize) -> (r: &mut SdfShape)
        requires
            j < old(self).shapes@.len(),
        ensures
            (*r)@ == old(self)@.shapes[j as int],
            final(self).shapes@ == old(self).shapes@.update(j as int, *final(r)),
            shapes_view(final(self).shapes@) == shapes_view(old(self).shapes@).update(j as int, (*final(r))@),
            final(self)@.shapes =~= old(self)@.shapes.update(j as int, (*final(r))@),
            final(self)@ == (BoneView { shapes: final(self)@.shapes, ..old(self)@ }),
    {
        proof {
            lemma_bone_view_fields();
            lemma_shapes_view_update_all(self.shapes@, j as int);
        }
        &mut self.shapes[j]
    }

    /// The first shape with identifier `id` in the first bone in pre-order holding one,
    /// with that bone's identifier.
    pub fn find_shape(&self, id: ShapeId) -> (r: Option<(&SdfShape, BoneId)>)
        ensures
            match self@.found_shape(id) {
                Some((s, b)) => r is Some && r.unwrap().0@ == s && r.unwrap().1 == b,
                None => r is None,
            },
    {
        proof { lemma_find_path(self@, holds_shape(id)); }
        match self.locate(&BoneQuery::HoldsShape(id)) {
            None => None,
            Some(node) => {
                let j = node.shape_position(id);
                Some((&node.shapes[j], node.id))
            },
        }
    }

    /// Mutable access to the shape that `find_shape` finds, with its bone's identifier.
    pub fn find_shape_mut(&mut self, id: ShapeId) -> (r: Option<(&mut SdfShape, BoneId)>)
        ensures
            match old(self)@.find_path(holds_shape(id)) {
                Some(p) => {
                    let n = old(self)@.node_at(p);
                    let j = first_index(n.shapes, shape_has_id(id));
                    &&& r is Some
                    &&& (*r.unwrap().0)@ == n.shapes[j]
                    &&& r.unwrap().1 == n.id
                    &&& final(self)@ == old(self)@.replace_at(
                        p,
                        BoneView { shapes: n.shapes.update(j, (*final(r.unwrap().0))@), ..n },
                    )
                },
                None => r is None && final(self)@ == old(self)@,
            },
    {
        proof { lemma_find_path(self@, holds_shape(id)); }
        match self.locate_mut(&BoneQuery::HoldsShape(id)) {
            None => None,
            Some(node) => {
                let j = node.shape_position(id);
                let bid = node.id;
                let s = node.shape_mut(j);
                Some((s, bid))
            },
        }
    }

    /// The first shape named `name` in the first bone in pre-order holding one, with that
    /// bone's identifier.
    pub fn find_shape_by_name(&self, name: &str) -> (r: Option<(&SdfShape, BoneId)>)
        ensures
            match self@.found_shape_named(name@) {
                Some((s, b)) => r is Some && r.unwrap().0@ == s && r.unwrap().1 == b,
                None => r is None,
            },
    {
        let name = String::from_str(name);
        proof { lemma_find_path(self@, holds_shape_named(name@)); }
        match self.locate(&BoneQuery::HoldsShapeNamed(name.clone())) {
            None => None,
            Some(node) => {
                let j = node.shape_position_named(&name);
                Some((&node.shapes[j], node.id))
            },
        }
    }

    /// The first bone in pre-order that has a child with identifier `id`.
    pub fn find_parent(&self, id: BoneId) -> (r: Option<&SdfBone>)
        ensures
            match self@.find_path(parent_of(id)) {
                Some(p) => r is Some && r->0@ == self@.node_at(p),
                None => r is None,
            },
    {
        self.locate(&BoneQuery::ParentOf(id))
    }
}

/// Views commute with replacing the shape at `j` by any shape.
pub proof fn lemma_shapes_view_update_all(s: Seq<SdfShape>, j: int)
    requires
        0 <= j < s.len(),
    ensures
        forall|x: SdfShape| #[trigger] shapes_view(s.update(j, x)) == shapes_view(s).update(j, x@),
{
    assert forall|x: SdfShape| #[trigger] shapes_view(s.update(j, x)) == shapes_view(s).update(j, x@) by {
        assert(shapes_view(s.update(j, x)) =~= shapes_view(s).update(j, x@));
    }
}


/// `sizes` of a prefix grows by the size of the next subtree.
pub proof fn lemma_sizes_take(cs: Seq<BoneView>, i: int)
    requires
        0 <= i < cs.len(),
    ensures
        BoneView::sizes(cs.take(i + 1)) == BoneView::sizes(cs.take(i)) + cs[i].size(),
        BoneView::shape_totals(cs.take(i + 1)) == BoneView::shape_totals(cs.take(i)) + cs[i].shape_total(),
        BoneView::shape_lists(cs.take(i + 1)) == BoneView::shape_lists(cs.take(i)) + cs[i].shape_list(),
{
    assert(cs.take(i + 1).drop_last() =~= cs.take(i));
}

/// The identifiers of every bone and shape of the subtree are random UUIDs.
pub open spec fn all_ids_random(b: BoneView) -> bool
    decreases b,
{
    &&& crate::ids::is_random_uuid(b.id.0)
    &&& forall|j: int| 0 <= j < b.shapes.len() ==> crate::ids::is_random_uuid(#[trigger] b.shapes[j].id.0)
    &&& forall|i: int| 0 <= i < b.children.len() ==> all_ids_random(#[trigger] b.children[i])
}

/// `c` is `b` with every bone and shape identifier replaced: same names, transforms,
/// flags, physics, shapes (but for identifiers) and structure.
pub open spec fn same_but_ids(b: BoneView, c: BoneView) -> bool
    decreases b,
{
    &&& c == (BoneView { id: c.id, children: c.children, shapes: c.shapes, ..b })
    &&& c.shapes.len() == b.shapes.len()
    &&& forall|j: int| 0 <= j < b.shapes.len() ==> #[trigger] c.shapes[j] == (ShapeView { id: c.shapes[j].id, ..b.shapes[j] })
    &&& c.children.len() == b.children.len()
    &&& forall|i: int| 0 <= i < b.children.len() ==> same_but_ids(#[trigger] b.children[i], c.children[i])
}

impl SdfBone {
    /// Every shape of the subtree with the identifier of the bone holding it.
    pub fn all_shapes(&self) -> (r: Vec<(&SdfShape, BoneId)>)
        ensures
            pairs_view(r@) == self@.shape_list(),
    {
        let mut result = Vec::new();
        self.collect_shapes(&mut result);
        assert(pairs_view(result@) =~= self@.shape_list());
        result
    }

    /// Append every shape of the subtree, with its bone's identifier, to `out`.
    fn collect_shapes<'a>(&'a self, out: &mut Vec<(&'a SdfShape, BoneId)>)
        ensures
            pairs_view(final(out)@) =~= pairs_view(old(out)@) + self@.shape_list(),
        decreases self,
    {
        let ghost start = pairs_view(out@);
        let mut j: usize = 0;
        while j < self.shapes.len()
            invariant
                j <= self.shapes@.len(),
                pairs_view(out@) =~= start + self@.shapes.take(j as int).map_values(|s: ShapeView| (s, self@.id)),
            decreases self.shapes@.len() - j,
        {
            let ghost before = out@;
            out.push((&self.shapes[j], self.id));
            assert(pairs_view(out@) =~= pairs_view(before).push((self.shapes@[j as int]@, self.id)));
            assert(self@.shapes.take(j + 1).map_values(|s: ShapeView| (s, self@.id))
                =~= self@.shapes.take(j as int).map_values(|s: ShapeView| (s, self@.id)).push((self@.shapes[j as int], self@.id)));
            j += 1;
        }
        assert(self@.shapes.take(j as int) =~= self@.shapes);
        proof { lemma_bones_view(self.children@); }
        let mut i: usize = 0;
        while i < self.children.len()
            invariant
                i <= self.children@.len(),
                self@.children.len() == self.children@.len(),
                forall|k: int| 0 <= k < self.children@.len() ==> #[trigger] self@.children[k] == bone_view(self.children@[k]),
                pairs_view(out@) =~= start + self@.shapes.map_values(|s: ShapeView| (s, self@.id))
                    + BoneView::shape_lists(self@.children.take(i as int)),
            decreases self.children@.len() - i,
        {
            proof { lemma_sizes_take(self@.children, i as int); }
            self.children[i].collect_shapes(out);
            i += 1;
        }
        assert(self@.children.take(i as int) =~= self@.children);
    }

    /// Number of bones below this one (saturated at `usize::MAX`).
    pub fn bone_count(&self) -> (r: usize)
        ensures
            r == saturate(self@.size() - 1),
        decreases self,
    {
        proof { lemma_bones_view(self.children@); }
        let mut total: usize = 0;
        let mut i: usize = 0;
        while i < self.children.len()
            invariant
                i <= self.children@.len(),
                self@.children.len() == self.children@.len(),
                forall|k: int| 0 <= k < self.children@.len() ==> #[trigger] self@.children[k] == bone_view(self.children@[k]),
                total == saturate(BoneView::sizes(self@.children.take(i as int)) as int),
            decreases self.children@.len() - i,
        {
            proof { lemma_sizes_take(self@.children, i as int); }
            let c = self.children[i].bone_count();
            proof {
                lemma_saturate_add(1, self@.children[i as int].size() - 1);
                lemma_saturate_add(BoneView::sizes(self@.children.take(i as int)) as int, self@.children[i as int].size() as int);
            }
            total = total.saturating_add(1usize.saturating_add(c));
            i += 1;
        }
        assert(self@.children.take(i as int) =~= self@.children);
        total
    }

    /// Number of shapes in this bone and all bones below it (saturated at `usize::MAX`).
    pub fn shape_count(&self) -> (r: usize)
        ensures
            r == saturate(self@.shape_total() as int),
        decreases self,
    {
        proof { lemma_bones_view(self.children@); }
        let mut total: usize = self.shapes.len();
        let mut i: usize = 0;
        while i < self.children.len()
            invariant
                i <= self.children@.len(),
                self@.children.len() == self.children@.len(),
                self@.shapes.len() == self.shapes@.len(),
                forall|k: int| 0 <= k < self.children@.len() ==> #[trigger] self@.children[k] == bone_view(self.children@[k]),
                total == saturate((self@.shapes.len() + BoneView::shape_totals(self@.children.take(i as int))) as int),
            decreases self.children@.len() - i,
        {
            proof {
                lemma_sizes_take(self@.children, i as int);
                lemma_saturate_add(
                    (self@.shapes.len() + BoneView::shape_totals(self@.children.take(i as int))) as int,
                    self@.children[i as int].shape_total() as int,
                );
            }
            let c = self.children[i].shape_count();
            total = total.saturating_add(c);
            i += 1;
        }
        assert(self@.children.take(i as int) =~= self@.children);
        total
    }

    /// Reset the bone's transform to the identity.
    pub fn reset_transform(&mut self)
        ensures
            final(self)@ == (BoneView { transform: ShapeTransform::default_spec(), ..old(self)@ }),
    {
        self.transform = ShapeTransform::default();
    }

    /// The root bone: nil identifier, named `"Root"`, no shapes or children.
    pub fn root() -> (r: Self)
        ensures
            r@.id.0 == 0,
            r@.name == "Root"@,
            r@.transform == ShapeTransform::default_spec(),
            r@.visible,
            r@.physics == BonePhysicsProps::default_spec(),
            r@.children.len() == 0,
            r@.shapes.len() == 0,
    {
        SdfBone {
            id: BoneId::root(),
            name: String::from_str("Root"),
            transform: ShapeTransform::default(),
            visible: true,
            physics: BonePhysicsProps::default(),
            children: Vec::new(),
            shapes: Vec::new(),
        }
    }

    /// A new empty bone with a fresh identifier.
    pub fn new(name: &str) -> (r: Self)
        ensures
            crate::ids::is_random_uuid(r@.id.0),
            r@.id.0 != 0,
            r@.name == name@,
            r@.transform == ShapeTransform::default_spec(),
            r@.visible,
            r@.physics == BonePhysicsProps::default_spec(),
            r@.children.len() == 0,
            r@.shapes.len() == 0,
    {
        SdfBone {
            id: BoneId::fresh(),
            name: String::from_str(name),
            transform: ShapeTransform::default(),
            visible: true,
            physics: BonePhysicsProps::default(),
            children: Vec::new(),
            shapes: Vec::new(),
        }
    }

    /// An exact copy of the subtree, identifiers included.
    pub fn copy(&self) -> (r: Self)
        ensures
            r@ == self@,
        decreases self,
    {
        proof { lemma_bones_view(self.children@); }
        let mut children: Vec<SdfBone> = Vec::new();
        let mut i: usize = 0;
        while i < self.children.len()
            invariant
                i <= self.children@.len(),
                self@.children.len() == self.children@.len(),
                forall|k: int| 0 <= k < self.children@.len() ==> #[trigger] self@.children[k] == bone_view(self.children@[k]),
                bones_view(children@) == self@.children.take(i as int),
            decreases self.children@.len() - i,
        {
            let c = self.children[i].copy();
            proof { lemma_bones_view_push(children@, c); }
            children.push(c);
            assert(self@.children.take(i + 1) =~= self@.children.take(i as int).push(self@.children[i as int]));
            i += 1;
        }
        let mut shapes: Vec<SdfShape> = Vec::new();
        let mut j: usize = 0;
        while j < self.shapes.len()
            invariant
                j <= self.shapes@.len(),
                self@.shapes.len() == self.shapes@.len(),
                shapes_view(shapes@) == self@.shapes.take(j as int),
            decreases self.shapes@.len() - j,
        {
            let s = self.shapes[j].copy();
            let ghost before = shapes@;
            shapes.push(s);
            assert(shapes_view(shapes@) =~= shapes_view(before).push(s@));
            assert(self@.shapes.take(j + 1) =~= self@.shapes.take(j as int).push(self@.shapes[j as int]));
            j += 1;
        }
        assert(self@.children.take(i as int) =~= self@.children);
        assert(self@.shapes.take(j as int) =~= self@.shapes);
        SdfBone {
            id: self.id,
            name: self.name.clone(),
            transform: self.transform,
            visible: self.visible,
            physics: self.physics,
            children,
            shapes,
        }
    }

    /// A copy of the subtree in which every bone and shape has a fresh identifier.
    fn fresh_copy(&self) -> (r: Self)
        ensures
            same_but_ids(self@, r@),
            all_ids_random(r@),
        decreases self,
    {
        proof { lemma_bones_view(self.children@); }
        let mut children: Vec<SdfBone> = Vec::new();
        let mut i: usize = 0;
        while i < self.children.len()
            invariant
                i <= self.children@.len(),
                self@.children.len() == self.children@.len(),
                forall|k: int| 0 <= k < self.children@.len() ==> #[trigger] self@.children[k] == bone_view(self.children@[k]),
                bones_view(children@).len() == i,
                forall|k: int| 0 <= k < i ==> same_but_ids(#[trigger] self@.children[k], bones_view(children@)[k]),
                forall|k: int| 0 <= k < i ==> all_ids_random(#[trigger] bones_view(children@)[k]),
            decreases self.children@.len() - i,
        {
            let c = self.children[i].fresh_copy();
            proof { lemma_bones_view_push(children@, c); }
            children.push(c);
            i += 1;
        }
        let mut shapes: Vec<SdfShape> = Vec::new();
        let mut j: usize = 0;
        while j < self.shapes.len()
            invariant
                j <= self.shapes@.len(),
                self@.shapes.len() == self.shapes@.len(),
                shapes_view(shapes@).len() == j,
                forall|k: int| 0 <= k < j ==> #[trigger] shapes_view(shapes@)[k] == (ShapeView { id: shapes_view(shapes@)[k].id, ..self@.shapes[k] }),
                forall|k: int| 0 <= k < j ==> crate::ids::is_random_uuid(#[trigger] shapes_view(shapes@)[k].id.0),
            decreases self.shapes@.len() - j,
        {
            let mut s = self.shapes[j].copy();
            s.id = crate::ids::ShapeId::fresh();
            let ghost before = shapes@;
            shapes.push(s);
            assert(shapes_view(shapes@) =~= shapes_view(before).push(s@));
            j += 1;
        }
        let r = SdfBone {
            id: BoneId::fresh(),
            name: self.name.clone(),
            transform: self.transform,
            visible: self.visible,
            physics: self.physics,
            children,
            shapes,
        };
        assert(same_but_ids(self@, r@));
        r
    }

    /// Deep copy with fresh identifiers for this bone, every bone below it and every
    /// shape; the copy's top bone is named with `" Copy"` appended, all other names are kept.
    pub fn duplicate_deep(&self) -> (r: Self)
        ensures
            r@.name == crate::shape::copy_name(self@.name),
            same_but_ids(self@, BoneView { name: self@.name, ..r@ }),
            all_ids_random(r@),
    {
        let mut r = self.fresh_copy();
        r.name.append(" Copy");
        r
    }
}

} // verus!
