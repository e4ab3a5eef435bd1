//! Inverse-kinematics chains: which bones, from an ancestor down to an end effector,
//! an IK solve moves.
use vstd::prelude::*;
use std::collections::HashMap;
use crate::bits::{ZERO, float_eq, float_eq_spec};
use crate::bone::{SdfBone, BoneView, has_id, lemma_bones_view};
use crate::ids::BoneId;

verus! {

/// The child→parent pairs of a subtree, in the order a walk records them: for each child
/// in order, its own pair, then the pairs of its subtree.  Keys are identifier values.
pub open spec fn parent_pairs(b: BoneView) -> Seq<(u128, BoneId)>
    decreases b, 1int,
{
    pairs_in(b.id, b.children)
}

/// `parent_pairs` of the children `cs` of the bone with identifier `pid`.
pub open spec fn pairs_in(pid: BoneId, cs: Seq<BoneView>) -> Seq<(u128, BoneId)>
    decreases cs, 0int,
{
    if cs.len() == 0 {
        Seq::empty()
    } else {
        pairs_in(pid, cs.drop_last()) + seq![(cs.last().id.0, pid)] + parent_pairs(cs.last())
    }
}

/// `m` with the pairs inserted in order; a later pair for a key replaces an earlier one.
pub open spec fn insert_all(m: Map<u128, BoneId>, s: Seq<(u128, BoneId)>) -> Map<u128, BoneId>
    decreases s.len(),
{
    if s.len() == 0 {
        m
    } else {
        insert_all(m, s.drop_last()).insert(s.last().0, s.last().1)
    }
}

/// Inserting two runs of pairs is inserting their concatenation.
pub proof fn lemma_insert_all_add(m: Map<u128, BoneId>, a: Seq<(u128, BoneId)>, b: Seq<(u128, BoneId)>)
    ensures
        insert_all(insert_all(m, a), b) == insert_all(m, a + b),
    decreases b.len(),
{
    if b.len() > 0 {
        lemma_insert_all_add(m, a, b.drop_last());
        assert((a + b).drop_last() =~= a + b.drop_last());
        assert((a + b).last() == b.last());
    }
}

/// The parent of every bone of the tree, keyed by the child's identifier value.
pub open spec fn parent_map_spec(b: BoneView) -> Map<u128, BoneId> {
    insert_all(Map::empty(), parent_pairs(b))
}

fn walk(bone: &SdfBone, map: &mut HashMap<u128, BoneId>)
    ensures
        final(map)@ == insert_all(old(map)@, parent_pairs(bone@)),
    decreases bone,
{
    proof { lemma_bones_view(bone.children@); }
    let ghost start = map@;
    let n = bone.children.len();
    let mut k: usize = 0;
    while k < n
        invariant
            n == bone.children@.len(),
            bone@.children.len() == n,
            k <= n,
            forall|j: int| 0 <= j < n ==> #[trigger] bone@.children[j] == bone.children@[j]@,
            map@ == insert_all(start, pairs_in(bone@.id, bone@.children.take(k as int))),
        decreases n - k,
    {
        let child = &bone.children[k];
        let ghost before = map@;
        map.insert(child.id.0, bone.id);
        walk(child, map);
        proof {
            let t = bone@.children.take(k + 1);
            assert(t.drop_last() =~= bone@.children.take(k as int));
            assert(t.last() == bone@.children[k as int]);
            let a = pairs_in(bone@.id, bone@.children.take(k as int));
            let one = seq![(child@.id.0, bone@.id)];
            assert(insert_all(before, one) == before.insert(child@.id.0, bone@.id)) by {
                assert(one.drop_last() =~= Seq::<(u128, BoneId)>::empty());
                assert(insert_all(before, one.drop_last()) == before);
                assert(one.last() == (child@.id.0, bone@.id));
            }
            lemma_insert_all_add(start, a, one);
            lemma_insert_all_add(start, a + one, parent_pairs(child@));
        }
        k += 1;
    }
    assert(bone@.children.take(n as int) =~= bone@.children);
}

/// Map from each bone's identifier value to its parent's identifier.
pub fn build_parent_map(bone: &SdfBone) -> (r: HashMap<u128, BoneId>)
    ensures
        r@ == parent_map_spec(bone@),
{
    let mut map: HashMap<u128, BoneId> = HashMap::new();
    walk(bone, &mut map);
    map
}

/// The recorded parent of `id`, if any.
pub open spec fn parent_in(m: Map<u128, BoneId>, id: BoneId) -> Option<BoneId> {
    if m.contains_key(id.0) {
        Some(m[id.0])
    } else {
        None
    }
}

/// Whether an automatic chain stops at bone `p`: at the root, or at a kinematic bone
/// (zero mass).
pub open spec fn stops_at(t: BoneView, p: BoneId) -> bool {
    ||| p.0 == 0
    ||| match t.find_path(has_id(p)) {
        Some(q) => float_eq_spec(t.node_at(q).physics.mass, ZERO),
        None => false,
    }
}

/// Ancestors of `cur`, nearest first, up to and including the first bone where an
/// automatic chain stops, taking at most `n` steps.
pub open spec fn auto_ancestors(t: BoneView, m: Map<u128, BoneId>, cur: BoneId, n: nat) -> Seq<BoneId>
    decreases n,
{
    if n == 0 {
        Seq::empty()
    } else {
        match parent_in(m, cur) {
            None => Seq::empty(),
            Some(p) => if stops_at(t, p) {
                seq![p]
            } else {
                seq![p] + auto_ancestors(t, m, p, (n - 1) as nat)
            },
        }
    }
}

/// The first `k` ancestors of `cur`, nearest first (fewer when the root is reached).
pub open spec fn fixed_ancestors(m: Map<u128, BoneId>, cur: BoneId, k: nat) -> Seq<BoneId>
    decreases k,
{
    if k == 0 {
        Seq::empty()
    } else {
        match parent_in(m, cur) {
            None => Seq::empty(),
            Some(p) => seq![p] + fixed_ancestors(m, p, (k - 1) as nat),
        }
    }
}

/// The IK chain of `effector`, root first, effector last.  With `chain_length` 0 it runs
/// up to the first kinematic bone or the root (at most as many steps as there are
/// recorded parents, which a chain of distinct bones never exceeds); otherwise it spans
/// `chain_length` bones above the effector, or up to the root.
pub open spec fn ik_chain_spec(t: BoneView, effector: BoneId, chain_length: nat) -> Seq<BoneId> {
    let m = parent_map_spec(t);
    (seq![effector] + if chain_length == 0 {
        auto_ancestors(t, m, effector, m.dom().len())
    } else {
        fixed_ancestors(m, effector, chain_length)
    }).reverse()
}

fn parent_of_id(map: &HashMap<u128, BoneId>, id: BoneId) -> (r: Option<BoneId>)
    ensures
        r == parent_in(map@, id),
{
    match map.get(&id.0) {
        Some(p) => Some(*p),
        None => None,
    }
}

fn walk_auto(root: &SdfBone, map: &HashMap<u128, BoneId>, cur: BoneId, n: usize, chain: &mut Vec<BoneId>)
    ensures
        final(chain)@ == old(chain)@ + auto_ancestors(root@, map@, cur, n as nat),
    decreases n,
{
    if n == 0 {
        assert(final(chain)@ =~= old(chain)@ + auto_ancestors(root@, map@, cur, n as nat));
        return;
    }
    match parent_of_id(map, cur) {
        None => {
            assert(chain@ =~= old(chain)@ + auto_ancestors(root@, map@, cur, n as nat));
        },
        Some(p) => {
            chain.push(p);
            let kinematic = match root.find_bone(p) {
                Some(b) => float_eq(b.physics.mass, ZERO),
                None => false,
            };
            if kinematic || p.is_root() {
                assert(chain@ =~= old(chain)@ + auto_ancestors(root@, map@, cur, n as nat));
            } else {
                let ghost mid = chain@;
                walk_auto(root, map, p, n - 1, chain);
                assert(chain@ =~= old(chain)@ + auto_ancestors(root@, map@, cur, n as nat));
            }
        },
    }
}

fn walk_fixed(map: &HashMap<u128, BoneId>, cur: BoneId, k: u32, chain: &mut Vec<BoneId>)
    ensures
        final(chain)@ == old(chain)@ + fixed_ancestors(map@, cur, k as nat),
    decreases k,
{
    if k == 0 {
        assert(chain@ =~= old(chain)@ + fixed_ancestors(map@, cur, k as nat));
        return;
    }
    match parent_of_id(map, cur) {
        None => {
            assert(chain@ =~= old(chain)@ + fixed_ancestors(map@, cur, k as nat));
        },
        Some(p) => {
            chain.push(p);
            walk_fixed(map, p, k - 1, chain);
            assert(chain@ =~= old(chain)@ + fixed_ancestors(map@, cur, k as nat));
        },
    }
}

/// The elements of `v` in reverse order.
fn reversed(v: &Vec<BoneId>) -> (r: Vec<BoneId>)
    ensures
        r@ == v@.reverse(),
{
    let n = v.len();
    let mut out: Vec<BoneId> = Vec::new();
    let mut i: usize = 0;
    while i < n
        invariant
            n == v@.len(),
            i <= n,
            out@.len() == i,
            forall|j: int| 0 <= j < i ==> #[trigger] out@[j] == v@[n - 1 - j],
        decreases n - i,
    {
        out.push(v[n - 1 - i]);
        i += 1;
    }
    assert(out@ =~= v@.reverse());
    out
}

/// Build the IK chain of `effector`, root first.
pub fn build_ik_chain(root_bone: &SdfBone, effector_id: BoneId, chain_length: u32) -> (r: Vec<BoneId>)
    ensures
        r@ == ik_chain_spec(root_bone@, effector_id, chain_length as nat),
{
    let map = build_parent_map(root_bone);
    let mut chain: Vec<BoneId> = vec![effector_id];
    if chain_length == 0 {
        let limit = map.len();
        walk_auto(root_bone, &map, effector_id, limit, &mut chain);
    } else {
        walk_fixed(&map, effector_id, chain_length, &mut chain);
    }
    reversed(&chain)
}

/// Each ancestor in a fixed-length walk is the recorded parent of the one before it.
proof fn lemma_fixed_links(m: Map<u128, BoneId>, cur: BoneId, k: nat)
    ensures
        ({
            let s = seq![cur] + fixed_ancestors(m, cur, k);
            &&& s.len() <= k + 1
            &&& forall|i: int| 0 <= i < s.len() - 1 ==> parent_in(m, #[trigger] s[i]) == Some(s[i + 1])
        }),
    decreases k,
{
    if k > 0 {
        if let Some(p) = parent_in(m, cur) {
            lemma_fixed_links(m, p, (k - 1) as nat);
            let s = seq![cur] + fixed_ancestors(m, cur, k);
            let s2 = seq![p] + fixed_ancestors(m, p, (k - 1) as nat);
            assert(s =~= seq![cur] + s2);
            assert forall|i: int| 0 <= i < s.len() - 1 implies parent_in(m, #[trigger] s[i]) == Some(s[i + 1]) by {
                if i > 0 {
                    assert(s[i] == s2[i - 1] && s[i + 1] == s2[i]);
                }
            }
        }
    }
}

/// Each ancestor in an automatic walk is the recorded parent of the one before it.
proof fn lemma_auto_links(t: BoneView, m: Map<u128, BoneId>, cur: BoneId, n: nat)
    ensures
        ({
            let s = seq![cur] + auto_ancestors(t, m, cur, n);
            forall|i: int| 0 <= i < s.len() - 1 ==> parent_in(m, #[trigger] s[i]) == Some(s[i + 1])
        }),
    decreases n,
{
    if n > 0 {
        if let Some(p) = parent_in(m, cur) {
            if !stops_at(t, p) {
                lemma_auto_links(t, m, p, (n - 1) as nat);
                let s = seq![cur] + auto_ancestors(t, m, cur, n);
                let s2 = seq![p] + auto_ancestors(t, m, p, (n - 1) as nat);
                assert(s =~= seq![cur] + s2);
                assert forall|i: int| 0 <= i < s.len() - 1 implies parent_in(m, #[trigger] s[i]) == Some(s[i + 1]) by {
                    if i > 0 {
                        assert(s[i] == s2[i - 1] && s[i + 1] == s2[i]);
                    }
                }
            }
        }
    }
}

/// An IK chain ends at the effector, and each bone of it is the recorded parent of the
/// bone after it; a chain of fixed length `k` holds at most `k + 1` bones.
pub proof fn law_ik_chain_links(t: BoneView, effector: BoneId, chain_length: nat)
    ensures
        ({
            let c = ik_chain_spec(t, effector, chain_length);
            &&& c.len() >= 1
            &&& c.last() == effector
            &&& forall|i: int| 0 <= i < c.len() - 1 ==> parent_in(parent_map_spec(t), #[trigger] c[i + 1]) == Some(c[i])
            &&& chain_length > 0 ==> c.len() <= chain_length + 1
        }),
{
    let m = parent_map_spec(t);
    let s = seq![effector] + if chain_length == 0 {
        auto_ancestors(t, m, effector, m.dom().len())
    } else {
        fixed_ancestors(m, effector, chain_length)
    };
    if chain_length == 0 {
        lemma_auto_links(t, m, effector, m.dom().len());
    } else {
        lemma_fixed_links(m, effector, chain_length);
    }
    let c = s.reverse();
    assert(c.len() == s.len());
    assert(c.last() == s[0]);
    assert forall|i: int| 0 <= i < c.len() - 1 implies parent_in(m, #[trigger] c[i + 1]) == Some(c[i]) by {
        let j = s.len() - 2 - i;
        assert(c[i + 1] == s[j] && c[i] == s[j + 1]);
    }
}

} // verus!
