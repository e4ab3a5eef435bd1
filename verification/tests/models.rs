use litsdf::bone::SdfBone;
use litsdf::ids::BoneId;
use litsdf::scene::SdfScene;
use litsdf::shape::{SdfPrimitive, SdfShape, ShapeModifier, ShapeTransform};

fn b(x: f32) -> u32 {
    x.to_bits()
}

#[test]
fn shape_defaults() {
    let shape = SdfShape::default_sphere();
    assert_eq!(shape.name, "Sphere");
    assert!(matches!(shape.primitive, SdfPrimitive::Sphere { radius } if f32::from_bits(radius) == 1.0));
    assert_eq!(shape.transform.translation, [b(0.0), b(0.0), b(0.0)]);
    assert_eq!(f32::from_bits(shape.transform.scale), 1.0);
    assert_eq!(shape.material.color, [b(1.0), b(1.0), b(1.0)]);
}

#[test]
fn bone_find_shape() {
    let mut root = SdfBone::root();
    let shape = SdfShape::default_sphere();
    let shape_id = shape.id;
    root.shapes.push(shape);
    let mut child = SdfBone::new("Arm");
    let child_id = child.id;
    let shape2 = SdfShape::new("Box", SdfPrimitive::Box { half_extents: [b(1.0), b(1.0), b(1.0)] });
    let shape2_id = shape2.id;
    child.shapes.push(shape2);
    root.children.push(child);
    let (found, bone_id) = root.find_shape(shape_id).unwrap();
    assert_eq!(found.id, shape_id);
    assert!(bone_id.is_root());
    let (found, bone_id) = root.find_shape(shape2_id).unwrap();
    assert_eq!(found.id, shape2_id);
    assert_eq!(bone_id, child_id);
}

#[test]
fn models_bone_remove_reparents() {
    let mut root = SdfBone::root();
    let mut child = SdfBone::new("Arm");
    let child_id = child.id;
    child.shapes.push(SdfShape::default_sphere());
    let mut grandchild = SdfBone::new("Hand");
    grandchild.shapes.push(SdfShape::new("Box", SdfPrimitive::Box { half_extents: [b(0.5), b(0.5), b(0.5)] }));
    child.children.push(grandchild);
    root.children.push(child);
    assert_eq!(root.all_shapes().len(), 2);
    root.remove_bone(child_id);
    assert_eq!(root.children.len(), 1);
    assert_eq!(root.shapes.len(), 1);
    assert_eq!(root.all_shapes().len(), 2);
}

#[test]
fn shape_duplicate() {
    let mut shape = SdfShape::default_sphere();
    shape.transform.translation = [b(1.0), b(2.0), b(3.0)];
    shape.material.color = [b(0.5), b(0.5), b(0.5)];
    shape.modifiers.push(ShapeModifier::Rounding(b(0.1)));
    let dup = shape.duplicate();
    assert_ne!(dup.id, shape.id);
    assert_eq!(dup.name, "Sphere Copy");
    assert_eq!(dup.transform.translation, [b(1.0), b(2.0), b(3.0)]);
    assert_eq!(dup.material.color, [b(0.5), b(0.5), b(0.5)]);
    assert_eq!(dup.modifiers.len(), 1);
}

#[test]
fn shape_reset_transform() {
    let mut shape = SdfShape::default_sphere();
    shape.transform.translation = [b(5.0), b(5.0), b(5.0)];
    shape.transform.rotation = [b(45.0), b(0.0), b(0.0)];
    shape.transform.scale = b(2.0);
    shape.reset_transform();
    assert_eq!(shape.transform, ShapeTransform::default());
}

#[test]
fn shape_clear_modifiers() {
    let mut shape = SdfShape::default_sphere();
    shape.modifiers.push(ShapeModifier::Rounding(b(0.1)));
    shape.modifiers.push(ShapeModifier::Twist(b(2.0)));
    shape.clear_modifiers();
    assert!(shape.modifiers.is_empty());
}

#[test]
fn bone_duplicate_deep() {
    let mut bone = SdfBone::new("Arm");
    bone.shapes.push(SdfShape::default_sphere());
    let mut child = SdfBone::new("Hand");
    child.shapes.push(SdfShape::new("Finger", SdfPrimitive::Capsule { radius: b(0.1), half_height: b(0.3) }));
    bone.children.push(child);
    let dup = bone.duplicate_deep();
    assert_ne!(dup.id, bone.id);
    assert_eq!(dup.name, "Arm Copy");
    assert_eq!(dup.children[0].name, "Hand");
    assert_eq!(dup.children[0].shapes[0].name, "Finger");
    assert_ne!(dup.children[0].id, bone.children[0].id);
    assert_ne!(dup.shapes[0].id, bone.shapes[0].id);
    assert_ne!(dup.children[0].shapes[0].id, bone.children[0].shapes[0].id);
}

#[test]
fn bone_find_by_name() {
    let mut root = SdfBone::root();
    let mut arm = SdfBone::new("Arm");
    arm.children.push(SdfBone::new("Hand"));
    root.children.push(arm);
    assert!(root.find_bone_by_name("Arm").is_some());
    assert!(root.find_bone_by_name("Hand").is_some());
    assert!(root.find_bone_by_name("Leg").is_none());
    assert_eq!(root.find_bone_by_name("Root").unwrap().id, BoneId::root());
}

#[test]
fn bone_reparent_shape() {
    let mut root = SdfBone::root();
    let shape = SdfShape::default_sphere();
    let shape_id = shape.id;
    root.shapes.push(shape);
    let child = SdfBone::new("Arm");
    let child_id = child.id;
    root.children.push(child);
    assert!(root.reparent_shape(shape_id, child_id));
    assert!(root.shapes.is_empty());
    assert_eq!(root.children[0].shapes.len(), 1);
    assert_eq!(root.children[0].shapes[0].id, shape_id);
}

#[test]
fn bone_reparent_bone() {
    let mut root = SdfBone::root();
    let arm = SdfBone::new("Arm");
    let arm_id = arm.id;
    let body = SdfBone::new("Body");
    let body_id = body.id;
    root.children.push(arm);
    root.children.push(body);
    assert!(root.reparent_bone(arm_id, body_id));
    assert_eq!(root.children.len(), 1);
    assert_eq!(root.children[0].name, "Body");
    assert_eq!(root.children[0].children.len(), 1);
    assert_eq!(root.children[0].children[0].name, "Arm");
}

#[test]
fn bone_reparent_bone_prevents_cycle() {
    let mut root = SdfBone::root();
    let mut arm = SdfBone::new("Arm");
    let arm_id = arm.id;
    let hand = SdfBone::new("Hand");
    let hand_id = hand.id;
    arm.children.push(hand);
    root.children.push(arm);
    assert!(!root.reparent_bone(arm_id, hand_id));
    assert!(!root.reparent_bone(arm_id, arm_id));
}

#[test]
fn bone_counts() {
    let mut root = SdfBone::root();
    root.shapes.push(SdfShape::default_sphere());
    let mut arm = SdfBone::new("Arm");
    arm.shapes.push(SdfShape::default_sphere());
    arm.shapes.push(SdfShape::default_sphere());
    let mut hand = SdfBone::new("Hand");
    hand.shapes.push(SdfShape::default_sphere());
    arm.children.push(hand);
    root.children.push(arm);
    assert_eq!(root.bone_count(), 2);
    assert_eq!(root.shape_count(), 4);
}

#[test]
fn bone_reset_transform() {
    let mut bone = SdfBone::new("Test");
    bone.transform.translation = [b(1.0), b(2.0), b(3.0)];
    bone.reset_transform();
    assert_eq!(bone.transform, ShapeTransform::default());
}

#[test]
fn scene_new() {
    let scene = SdfScene::new("Test Scene");
    assert_eq!(scene.name, "Test Scene");
    assert!(scene.root_bone.id.is_root());
    assert!(scene.root_bone.children.is_empty());
    assert!(scene.root_bone.shapes.is_empty());
    assert_eq!(scene.light_dir, [b(0.6), b(0.8), b(0.4)]);
}

#[test]
fn scene_info() {
    let scene = SdfScene::default_scene();
    let info = scene.info();
    assert_eq!(info.name, "Floating Islands");
    assert!(info.bone_count > 0);
    assert!(info.shape_count > 0);
    let s = info.to_string();
    assert!(s.contains("Floating Islands"));
}

#[test]
fn scene_tree_string() {
    let mut scene = SdfScene::new("Test");
    let mut arm = SdfBone::new("Arm");
    arm.shapes.push(SdfShape::default_sphere());
    scene.root_bone.children.push(arm);
    let tree = scene.tree_string();
    assert!(tree.contains("Scene: Test"));
    assert!(tree.contains("[Bone] Root"));
    assert!(tree.contains("[Bone] Arm"));
    assert!(tree.contains("(Sphere) Sphere"));
}
