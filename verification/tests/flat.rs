use litsdf::bone::SdfBone;
use litsdf::flat::{
    flatten_bone_tree, flatten_scene, shader_shape_count, shader_shapes, topology_hash, topology_hash_in_order, MAX_SHAPES,
};
use std::hash::{Hash, Hasher};
use litsdf::scene::SdfScene;
use litsdf::shape::{CombinationOp, SdfPrimitive, SdfShape, ShapeModifier};

fn b(x: f32) -> u32 {
    x.to_bits()
}

#[test]
fn topology_hash_changes_on_shape_add() {
    let mut scene = SdfScene::new("Test");
    scene.root_bone.shapes.push(SdfShape::default_sphere());
    let h1 = topology_hash(&scene);
    scene.root_bone.shapes.push(SdfShape::new("Box", SdfPrimitive::Box { half_extents: [b(0.5); 3] }));
    let h2 = topology_hash(&scene);
    assert_ne!(h1, h2);
}

#[test]
fn topology_hash_ignores_values() {
    let mut scene = SdfScene::new("Test");
    scene.root_bone.shapes.push(SdfShape::default_sphere());
    let h1 = topology_hash(&scene);
    scene.root_bone.shapes[0].material.color = [b(0.1), b(0.2), b(0.3)];
    scene.root_bone.shapes[0].transform.translation = [b(4.0), 0, 0];
    assert_eq!(topology_hash(&scene), h1);
}

#[test]
fn default_scene_flattens_all_shapes() {
    let scene = SdfScene::default_scene();
    let flat = flatten_scene(&scene);
    assert_eq!(flat.len(), 5);
    assert_eq!(flat[0].primitive_type, 2);
    assert_eq!(flat[0].combination_op, 0);
    assert_eq!(flat[1].combination_op, 3);
    assert_eq!(flat[1].smooth_k, b(0.35));
    assert_eq!(shader_shape_count(&scene), Ok(5));
}

#[test]
fn hidden_shapes_and_bones_are_skipped() {
    let mut root = SdfBone::root();
    let mut hidden = SdfShape::default_sphere();
    hidden.visible = false;
    root.shapes.push(hidden);
    let mut s = SdfShape::new("Cut", SdfPrimitive::Octahedron { size: b(1.0) });
    s.combination = CombinationOp::Subtraction;
    s.modifiers.push(ShapeModifier::Bend(b(0.5)));
    root.shapes.push(s);
    let mut arm = SdfBone::new("Arm");
    arm.visible = false;
    arm.shapes.push(SdfShape::default_sphere());
    root.children.push(arm);
    let mut out = Vec::new();
    flatten_bone_tree(&root, &mut out);
    assert_eq!(out.len(), 1);
    assert_eq!(out[0].primitive_type, 9);
    assert_eq!(out[0].combination_op, 0, "the first drawn shape is never combined");
    assert_eq!(out[0].modifier_flags, 8);
    assert_eq!(out[0].bend_amount, b(0.5));
    assert_eq!(out[0].bone, root.id);
}

#[test]
fn shader_shapes_capped_at_limit() {
    let mut scene = SdfScene::new("Many");
    for i in 0..40u32 {
        let mut s = SdfShape::default_sphere();
        s.transform.translation = [b(i as f32), 0, 0];
        scene.root_bone.shapes.push(s);
    }
    let all = flatten_scene(&scene);
    let sent = shader_shapes(&scene);
    assert_eq!(MAX_SHAPES, 32);
    assert_eq!(all.len(), 40);
    assert_eq!(sent.len(), 32);
    assert_eq!(sent[31].local.translation[0], b(31.0));
    assert_eq!(sent[0].local.translation[0], b(0.0));
}

#[test]
fn shader_shapes_keep_small_scenes_whole() {
    let scene = litsdf::scene::SdfScene::default_scene();
    let sent = shader_shapes(&scene);
    assert_eq!(sent.len(), 5);
    assert_eq!(sent.len(), flatten_scene(&scene).len());
}

#[test]
fn topology_hash_matches_std_hash_of_codes() {
    let scene = SdfScene::default_scene();
    let flat = flatten_scene(&scene);
    let mut h = std::collections::hash_map::DefaultHasher::new();
    flat.len().hash(&mut h);
    for fs in &flat {
        fs.primitive_type.hash(&mut h);
        fs.combination_op.hash(&mut h);
        fs.modifier_flags.hash(&mut h);
    }
    assert_eq!(topology_hash(&scene), h.finish());
}

#[test]
fn topology_hash_uses_machine_byte_order() {
    let mut scene = SdfScene::new("Test");
    scene.root_bone.shapes.push(SdfShape::new("Box", SdfPrimitive::Box { half_extents: [b(0.5); 3] }));
    let little = u32::from_ne_bytes([1, 0, 0, 0]) == 1;
    assert_eq!(topology_hash(&scene), topology_hash_in_order(&scene, little));
    assert_ne!(topology_hash_in_order(&scene, true), topology_hash_in_order(&scene, false));
}
