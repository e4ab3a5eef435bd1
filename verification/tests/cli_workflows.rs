use litsdf::commands::{
    bone_add, bone_duplicate, bone_move, bone_remove, bone_rename, bone_reparent, bone_rotate, list_bones,
    modifier_clear, modifier_set, shape_add, shape_duplicate, shape_remove, shape_reparent, shape_set,
    ShapeSettings,
};
use litsdf::scene::SdfScene;
use litsdf::shape::{CombinationOp, SdfPrimitive, ShapeModifier};

fn b(x: f32) -> u32 {
    x.to_bits()
}

fn no_settings() -> ShapeSettings {
    ShapeSettings { translate: None, rotate: None, scale: None, color: None, roughness: None, metallic: None, fresnel: None }
}

#[test]
fn scene_new_and_info() {
    let scene = SdfScene::new("Test Scene");
    let info = scene.info().to_string();
    assert!(info.contains("Test Scene"));
    assert!(info.contains("0 bones"));
    assert!(info.contains("0 shapes"));
}

#[test]
fn scene_rename() {
    let mut scene = SdfScene::new("Old");
    let msg = litsdf::commands::scene_rename(&mut scene, "New Name");
    assert_eq!(msg, "Renamed scene to \"New Name\"");
    let info = scene.info().to_string();
    assert!(info.contains("New Name"));
}

#[test]
fn scene_light() {
    let mut scene = SdfScene::new("Test");
    litsdf::commands::scene_light(&mut scene, [1.0f32.to_bits(), 0.0f32.to_bits(), 0.0f32.to_bits()]);
    assert_eq!(scene.light_dir, [1.0f32.to_bits(), 0, 0]);
}

#[test]
fn scene_tree() {
    let mut scene = SdfScene::new("TreeTest");
    bone_add(&mut scene, "Root", "Arm", None).unwrap();
    shape_add(&mut scene, "Arm", "Sphere", Some("Ball"), None).unwrap();
    let tree = scene.tree_string();
    assert!(tree.contains("Scene: TreeTest"));
    assert!(tree.contains("[Bone] Root"));
    assert!(tree.contains("[Bone] Arm"));
    assert!(tree.contains("(Sphere) Ball"));
}

#[test]
fn bone_add_rename_move_rotate() {
    let mut scene = SdfScene::new("Test");
    let msg = bone_add(&mut scene, "Root", "Arm", Some([b(1.0), b(0.0), b(0.0)])).unwrap();
    assert!(msg.starts_with("Added bone \"Arm\" ("));
    bone_rename(&mut scene, "Arm", "LeftArm").unwrap();
    bone_move(&mut scene, "LeftArm", [b(2.0), b(0.0), b(0.0)]).unwrap();
    bone_rotate(&mut scene, "LeftArm", [b(0.0), b(45.0), b(0.0)]).unwrap();
    let arm = scene.root_bone.find_bone_by_name("LeftArm").unwrap();
    assert_eq!(arm.transform.translation, [b(2.0), b(0.0), b(0.0)]);
    assert_eq!(arm.transform.rotation, [b(0.0), b(45.0), b(0.0)]);
}

#[test]
fn bone_duplicate_and_reparent() {
    let mut scene = SdfScene::new("Test");
    bone_add(&mut scene, "Root", "Body", None).unwrap();
    bone_add(&mut scene, "Root", "Arm", None).unwrap();
    shape_add(&mut scene, "Arm", "Sphere", Some("Ball"), None).unwrap();
    let msg = bone_duplicate(&mut scene, "Arm", Some("RightArm")).unwrap();
    assert!(msg.starts_with("Duplicated bone \"Arm\" as \"RightArm\" ("));
    bone_reparent(&mut scene, "RightArm", "Body").unwrap();
    let body = scene.root_bone.find_bone_by_name("Body").unwrap();
    assert_eq!(body.children.len(), 1);
    assert_eq!(body.children[0].name, "RightArm");
    assert_eq!(body.children[0].shapes.len(), 1);
}

#[test]
fn cli_workflows_bone_remove_reparents() {
    let mut scene = SdfScene::new("Test");
    bone_add(&mut scene, "Root", "Arm", None).unwrap();
    bone_add(&mut scene, "Arm", "Hand", None).unwrap();
    shape_add(&mut scene, "Arm", "Sphere", None, None).unwrap();
    bone_remove(&mut scene, "Arm", false).unwrap();
    assert!(scene.root_bone.find_bone_by_name("Hand").is_some());
    assert_eq!(scene.root_bone.shape_count(), 1);
}

#[test]
fn bone_remove_recursive() {
    let mut scene = SdfScene::new("Test");
    bone_add(&mut scene, "Root", "Arm", None).unwrap();
    bone_add(&mut scene, "Arm", "Hand", None).unwrap();
    shape_add(&mut scene, "Hand", "Sphere", None, None).unwrap();
    let msg = bone_remove(&mut scene, "Arm", true).unwrap();
    assert_eq!(msg, "Removed bone \"Arm\" and 1 children, 1 shapes");
    assert!(scene.root_bone.find_bone_by_name("Arm").is_none());
    assert!(scene.root_bone.find_bone_by_name("Hand").is_none());
    assert_eq!(scene.root_bone.shape_count(), 0);
}

#[test]
fn bone_list() {
    let mut scene = SdfScene::new("Test");
    bone_add(&mut scene, "Root", "Arm", None).unwrap();
    let out = list_bones(&scene.root_bone, 0);
    assert!(out.contains("Root"));
    assert!(out.contains("Arm"));
}

#[test]
fn shape_add_set_and_remove() {
    let mut scene = SdfScene::new("Test");
    bone_add(&mut scene, "Root", "Body", None).unwrap();
    shape_add(&mut scene, "Body", "Sphere", Some("Ball"), None).unwrap();
    let settings = ShapeSettings {
        translate: Some([b(1.0), b(2.0), b(0.0)]),
        color: Some([b(0.8), b(0.2), b(0.2)]),
        roughness: Some(b(0.7)),
        metallic: Some(b(0.9)),
        ..no_settings()
    };
    shape_set(&mut scene, "Ball", settings, Some("SmoothUnion"), Some(b(0.5))).unwrap();
    let (shape, _) = scene.root_bone.find_shape_by_name("Ball").unwrap();
    assert_eq!(shape.transform.translation, [b(1.0), b(2.0), b(0.0)]);
    assert_eq!(shape.material.color, [b(0.8), b(0.2), b(0.2)]);
    assert_eq!(shape.material.roughness, b(0.7));
    assert_eq!(shape.material.metallic, b(0.9));
    assert!(matches!(shape.combination, CombinationOp::SmoothUnion { k } if (f32::from_bits(k) - 0.5).abs() < 0.001));
    shape_remove(&mut scene, "Ball").unwrap();
    assert!(scene.root_bone.find_shape_by_name("Ball").is_none());
}

#[test]
fn shape_set_type() {
    let mut scene = SdfScene::new("Test");
    bone_add(&mut scene, "Root", "Body", None).unwrap();
    shape_add(&mut scene, "Body", "Sphere", Some("S"), None).unwrap();
    litsdf::commands::shape_set_type(&mut scene, "S", "Box", Some([b(0.5), b(0.5), b(0.5), b(0.0)])).unwrap();
    let (shape, _) = scene.root_bone.find_shape_by_name("S").unwrap();
    assert!(matches!(shape.primitive, SdfPrimitive::Box { .. }));
}

#[test]
fn shape_duplicate_and_reparent() {
    let mut scene = SdfScene::new("Test");
    bone_add(&mut scene, "Root", "A", None).unwrap();
    bone_add(&mut scene, "Root", "B", None).unwrap();
    shape_add(&mut scene, "A", "Sphere", Some("Ball"), None).unwrap();
    shape_duplicate(&mut scene, "Ball", Some("Ball2")).unwrap();
    assert!(scene.root_bone.find_shape_by_name("Ball2").is_some());
    shape_reparent(&mut scene, "Ball2", "B").unwrap();
    let (_, bone_id) = scene.root_bone.find_shape_by_name("Ball2").unwrap();
    let bone = scene.root_bone.find_bone(bone_id).unwrap();
    assert_eq!(bone.name, "B");
}

#[test]
fn shape_color_mode() {
    let mut scene = SdfScene::new("Test");
    bone_add(&mut scene, "Root", "A", None).unwrap();
    shape_add(&mut scene, "A", "Sphere", Some("S"), None).unwrap();
    let half = [b(0.5), b(0.5), b(0.5)];
    litsdf::commands::shape_color_mode(&mut scene, "S", "palette", Some(half), Some(half), None, None).unwrap();
    let (shape, _) = scene.root_bone.find_shape_by_name("S").unwrap();
    assert_eq!(shape.material.color_mode, 1);
    assert_eq!(shape.material.palette_a, half);
}

#[test]
fn shape_noise() {
    let mut scene = SdfScene::new("Test");
    bone_add(&mut scene, "Root", "A", None).unwrap();
    shape_add(&mut scene, "A", "Sphere", Some("S"), None).unwrap();
    litsdf::commands::shape_noise(&mut scene, "S", Some(b(0.05)), Some(b(4.0)), Some(3)).unwrap();
    let (shape, _) = scene.root_bone.find_shape_by_name("S").unwrap();
    assert_eq!(shape.material.noise_amplitude, b(0.05));
    assert_eq!(shape.material.noise_frequency, b(4.0));
    assert_eq!(shape.material.noise_octaves, 3);
}

#[test]
fn modifier_set_list_clear() {
    let mut scene = SdfScene::new("Test");
    bone_add(&mut scene, "Root", "A", None).unwrap();
    shape_add(&mut scene, "A", "Sphere", Some("S"), None).unwrap();
    modifier_set(&mut scene, "S", Some(b(0.1)), None, Some(b(2.0)), None, None, None).unwrap();
    let (shape, _) = scene.root_bone.find_shape_by_name("S").unwrap();
    assert_eq!(shape.modifiers.len(), 2);
    // What `modifier list` shows: a rounding of 0.1 and a twist of 2.
    assert!(shape.modifiers.contains(&ShapeModifier::Rounding(b(0.1))));
    assert!(shape.modifiers.contains(&ShapeModifier::Twist(b(2.0))));
    modifier_set(&mut scene, "S", Some(b(0.2)), None, None, None, None, None).unwrap();
    let (shape, _) = scene.root_bone.find_shape_by_name("S").unwrap();
    assert_eq!(shape.modifiers.len(), 2);
    modifier_clear(&mut scene, "S").unwrap();
    let (shape, _) = scene.root_bone.find_shape_by_name("S").unwrap();
    assert!(shape.modifiers.is_empty());
}

#[test]
fn full_scene_construction() {
    let mut scene = SdfScene::new("Character");
    bone_add(&mut scene, "Root", "Body", None).unwrap();
    bone_add(&mut scene, "Body", "Head", Some([b(0.0), b(1.5), b(0.0)])).unwrap();
    shape_add(&mut scene, "Body", "Ellipsoid", Some("Torso"), Some([b(0.3), b(0.4), b(0.2), b(0.0)])).unwrap();
    shape_add(&mut scene, "Head", "Sphere", Some("Cranium"), None).unwrap();
    let settings = ShapeSettings { color: Some([b(0.85), b(0.65), b(0.55)]), ..no_settings() };
    shape_set(&mut scene, "Cranium", settings, None, None).unwrap();
    let info = scene.info();
    assert_eq!(info.name, "Character");
    assert_eq!(info.bone_count, 2);
    assert_eq!(info.shape_count, 2);
    let head = scene.root_bone.find_bone_by_name("Head").unwrap();
    assert_eq!(head.transform.translation, [b(0.0), b(1.5), b(0.0)]);
    let (cranium, _) = scene.root_bone.find_shape_by_name("Cranium").unwrap();
    assert_eq!(cranium.material.color, [b(0.85), b(0.65), b(0.55)]);
}

#[test]
fn unknown_bone_is_reported() {
    let mut scene = SdfScene::new("Test");
    assert_eq!(bone_add(&mut scene, "Nowhere", "Arm", None), Err("bone \"Nowhere\" not found".to_string()));
    assert_eq!(shape_remove(&mut scene, "Ghost"), Err("shape \"Ghost\" not found".to_string()));
}

#[test]
fn removing_root_is_refused() {
    let mut scene = SdfScene::new("Test");
    assert_eq!(bone_remove(&mut scene, "Root", false), Err("cannot remove root bone".to_string()));
}

#[test]
fn reparent_into_own_subtree_is_refused() {
    let mut scene = SdfScene::new("Test");
    bone_add(&mut scene, "Root", "Arm", None).unwrap();
    bone_add(&mut scene, "Arm", "Hand", None).unwrap();
    assert_eq!(
        bone_reparent(&mut scene, "Arm", "Hand"),
        Err("cannot reparent \"Arm\" under \"Hand\" (would create cycle)".to_string())
    );
    assert!(scene.root_bone.find_bone_by_name("Arm").is_some());
}

#[test]
fn duplicating_root_has_no_parent() {
    let mut scene = SdfScene::new("Test");
    assert_eq!(bone_duplicate(&mut scene, "Root", None), Err("could not find parent of bone \"Root\"".to_string()));
}

#[test]
fn blend_k_needs_blended_operation() {
    let mut scene = SdfScene::new("Test");
    bone_add(&mut scene, "Root", "A", None).unwrap();
    shape_add(&mut scene, "A", "Sphere", Some("S"), None).unwrap();
    assert_eq!(
        shape_set(&mut scene, "S", no_settings(), None, Some(b(0.4))),
        Err("blend-k requires a smooth/chamfer combination op".to_string())
    );
    assert_eq!(
        shape_set(&mut scene, "S", no_settings(), Some("Blend"), None),
        Err("unknown combination op \"Blend\"".to_string())
    );
    shape_set(&mut scene, "S", no_settings(), Some("ChamferUnion"), None).unwrap();
    let (shape, _) = scene.root_bone.find_shape_by_name("S").unwrap();
    assert_eq!(shape.combination, CombinationOp::ChamferUnion { k: b(0.3) });
    shape_set(&mut scene, "S", no_settings(), None, Some(b(0.4))).unwrap();
    let (shape, _) = scene.root_bone.find_shape_by_name("S").unwrap();
    assert_eq!(shape.combination, CombinationOp::ChamferUnion { k: b(0.4) });
}

#[test]
fn unknown_color_mode_is_reported() {
    let mut scene = SdfScene::new("Test");
    bone_add(&mut scene, "Root", "A", None).unwrap();
    shape_add(&mut scene, "A", "Sphere", Some("S"), None).unwrap();
    assert_eq!(
        litsdf::commands::shape_color_mode(&mut scene, "S", "rainbow", None, None, None, None),
        Err("unknown color mode \"rainbow\", expected: solid, palette, noise".to_string())
    );
    assert_eq!(litsdf::commands::color_mode_from_str("noise"), Ok(2));
}

#[test]
fn shape_listing_shows_kinds_and_bones() {
    let mut scene = SdfScene::new("Test");
    bone_add(&mut scene, "Root", "Arm", None).unwrap();
    shape_add(&mut scene, "Arm", "Torus", Some("Ring"), None).unwrap();
    let out = litsdf::commands::list_shapes(&scene.root_bone, 0);
    assert!(out.starts_with("Arm:\n  [Torus] Ring ("));
    let bones = list_bones(&scene.root_bone, 1);
    assert!(bones.starts_with("  Root (00000000-0000-0000-0000-000000000000)\n    Arm ("));
}

#[test]
fn shape_add_message_names_bone() {
    let mut scene = SdfScene::new("Test");
    let msg = shape_add(&mut scene, "Root", "Capsule", None, None).unwrap();
    assert!(msg.starts_with("Added shape \"Capsule\" ("));
    assert!(msg.ends_with(") to bone \"Root\""));
    let renamed = litsdf::commands::scene_rename(&mut scene, "X");
    assert_eq!(renamed, "Renamed scene to \"X\"");
}
