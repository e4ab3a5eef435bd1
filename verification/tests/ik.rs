use litsdf::bone::SdfBone;
use litsdf::ik::{build_ik_chain, build_parent_map};

fn b(x: f32) -> u32 {
    x.to_bits()
}

fn make_chain_bones() -> SdfBone {
    let mut root = SdfBone::root();
    let mut a = SdfBone::new("A");
    a.transform.translation = [b(0.0), b(1.0), b(0.0)];
    let mut bb = SdfBone::new("B");
    bb.transform.translation = [b(0.0), b(1.0), b(0.0)];
    let mut c = SdfBone::new("C");
    c.transform.translation = [b(0.0), b(1.0), b(0.0)];
    bb.children.push(c);
    a.children.push(bb);
    root.children.push(a);
    root
}

#[test]
fn build_chain_simple() {
    let root = make_chain_bones();
    let tip_id = root.children[0].children[0].children[0].id;
    let chain = build_ik_chain(&root, tip_id, 3);
    assert_eq!(chain.len(), 4);
}

#[test]
fn build_chain_auto_stops_at_kinematic() {
    let root = make_chain_bones();
    let tip_id = root.children[0].children[0].children[0].id;
    let chain = build_ik_chain(&root, tip_id, 0);
    assert!(chain.len() >= 2, "chain should have at least 2 joints, got {}", chain.len());
}

#[test]
fn auto_chain_runs_through_dynamic_bones() {
    let mut root = make_chain_bones();
    root.children[0].children[0].physics.mass = b(1.0);
    let a_id = root.children[0].id;
    let b_id = root.children[0].children[0].id;
    let tip_id = root.children[0].children[0].children[0].id;
    let chain = build_ik_chain(&root, tip_id, 0);
    assert_eq!(chain, vec![a_id, b_id, tip_id]);
}

#[test]
fn chain_is_root_first_and_capped() {
    let root = make_chain_bones();
    let b_id = root.children[0].children[0].id;
    let tip_id = root.children[0].children[0].children[0].id;
    assert_eq!(build_ik_chain(&root, tip_id, 1), vec![b_id, tip_id]);
    assert_eq!(build_ik_chain(&root, tip_id, 10).len(), 4);
    assert_eq!(build_ik_chain(&root, root.id, 2), vec![root.id]);
}

#[test]
fn parent_map_records_every_child() {
    let root = make_chain_bones();
    let map = build_parent_map(&root);
    assert_eq!(map.len(), 3);
    let a = &root.children[0];
    assert_eq!(map.get(&a.id.0), Some(&root.id));
    assert_eq!(map.get(&a.children[0].id.0), Some(&a.id));
    assert!(map.get(&root.id.0).is_none());
}
