use litsdf::demo_scenes::{abstract_sculpture, boolean_sampler, load_demo, modifier_parade, mushroom_garden, primitive_gallery, robot_friend};
use litsdf::demos::DemoScene;
use litsdf::nodes::SdfNode;
use litsdf::encode::prim_to_index;
use litsdf::shape::{CombinationOp, SdfPrimitive, ShapeModifier};

#[test]
fn robot_friend_content() {
    let s = robot_friend();
    assert_eq!(s.name, "Robot Friend");
    assert_eq!(s.root_bone.shape_count(), 8);
    assert_eq!(s.root_bone.children.len(), 3);
    let head = &s.root_bone.children[0];
    assert_eq!(head.name, "Head");
    assert_eq!(head.transform.translation, [0.0f32.to_bits(), 1.1f32.to_bits(), 0.0f32.to_bits()]);
    assert_eq!(head.shapes[3].primitive, SdfPrimitive::Octahedron { size: 0.12f32.to_bits() });
    assert_eq!(head.shapes[3].material.metallic, 1.0f32.to_bits());
    assert_eq!(s.root_bone.shapes[1].combination, CombinationOp::ChamferUnion { k: 0.08f32.to_bits() });
}

#[test]
fn modifier_parade_shows_every_modifier() {
    let s = modifier_parade();
    let kinds: Vec<usize> = s.root_bone.shapes.iter().filter_map(|sh| sh.modifiers.first()).map(|m| match m {
        ShapeModifier::Rounding(_) => 0,
        ShapeModifier::Onion(_) => 1,
        ShapeModifier::Twist(_) => 2,
        ShapeModifier::Bend(_) => 3,
        ShapeModifier::Elongation(_) => 4,
        ShapeModifier::Repetition { .. } => 5,
    }).collect();
    assert_eq!(kinds, vec![0, 1, 2, 3, 4, 5]);
    assert_eq!(s.root_bone.shapes[1].transform.translation[0], (-3.0f32).to_bits());
}

#[test]
fn sculpture_and_garden_settings() {
    let s = abstract_sculpture();
    assert_eq!(s.settings.shadow_softness, 12.0f32.to_bits());
    assert_eq!(s.light_dir, [0.4f32.to_bits(), 0.7f32.to_bits(), 0.6f32.to_bits()]);
    let g = mushroom_garden();
    assert_eq!(g.root_bone.shapes[0].material.color_mode, 5);
    assert_eq!(g.root_bone.children[0].shapes[1].material.palette_c, [1.0f32.to_bits(); 3]);
    let b = boolean_sampler();
    assert_eq!(b.root_bone.children.len(), 4);
    assert_eq!(b.root_bone.children[3].shapes[1].combination, CombinationOp::SmoothSubtraction { k: 0.05f32.to_bits() });
}

fn gallery_positions() -> [[u32; 3]; 13] {
    std::array::from_fn(|i| {
        let angle = (i as f32 / 13.0) * std::f32::consts::TAU;
        [(angle.sin() * 3.0).to_bits(), 0.0f32.to_bits(), (angle.cos() * 3.0).to_bits()]
    })
}

#[test]
fn all_demos_construct() {
    for demo in DemoScene::all().iter() {
        let result = load_demo(*demo, gallery_positions());
        assert!(!result.scene.name.is_empty(), "{:?} has empty name", demo);
        assert!(result.scene.root_bone.shape_count() > 0, "{:?} has no shapes", demo);
    }
}

#[test]
fn primitive_gallery_has_all_primitives() {
    let result = load_demo(DemoScene::PrimitiveGallery, gallery_positions());
    assert_eq!(result.scene.root_bone.shape_count(), 13);
}

#[test]
fn gallery_places_each_kind_once() {
    let p = gallery_positions();
    let s = primitive_gallery(p);
    for (i, sh) in s.root_bone.shapes.iter().enumerate() {
        assert_eq!(prim_to_index(&sh.primitive), i);
        assert_eq!(sh.transform.translation, p[i]);
        assert_eq!(sh.material.roughness, 0.5f32.to_bits());
    }
    assert_eq!(s.root_bone.shapes[7].primitive, SdfPrimitive::Plane { normal: [0, 1.0f32.to_bits(), 0], offset: 0 });
    assert_eq!(s.name, "Primitive Gallery");
}

#[test]
fn animated_demos_attach_graphs() {
    let robot = load_demo(DemoScene::RobotFriend, gallery_positions());
    assert!(robot.shape_graphs.is_empty());
    assert_eq!(robot.bone_graphs.len(), 2);
    assert_eq!(robot.bone_graphs[0].0, robot.scene.root_bone.children[1].id);
    assert_eq!(robot.bone_graphs[1].0, robot.scene.root_bone.children[2].id);
    assert_eq!(robot.scene.root_bone.children[1].name, "Left Arm");
    let left = &robot.bone_graphs[0].1;
    let right = &robot.bone_graphs[1].1;
    assert_eq!(left.nodes[1].node, SdfNode::SinOscillator { amplitude: 0.15f32.to_bits(), frequency: 0.8f32.to_bits(), phase: 0 });
    assert_eq!(
        right.nodes[1].node,
        SdfNode::SinOscillator { amplitude: 0.15f32.to_bits(), frequency: 0.8f32.to_bits(), phase: std::f32::consts::PI.to_bits() }
    );
    assert_eq!(left.nodes[2].node, SdfNode::BoneOutput);
    assert_eq!(left.wires, right.wires);

    let sculpture = load_demo(DemoScene::AbstractSculpture, gallery_positions());
    let form = &sculpture.scene.root_bone.children[0];
    assert_eq!(sculpture.bone_graphs.len(), 1);
    assert_eq!(sculpture.bone_graphs[0].0, form.id);
    assert_eq!(sculpture.bone_graphs[0].1.nodes[1].node, SdfNode::Constant { value: 8.0f32.to_bits() });
    assert_eq!(sculpture.shape_graphs.len(), 1);
    assert_eq!(sculpture.shape_graphs[0].0, form.shapes[0].id);
    assert_eq!(form.shapes[0].name, "Ring");
    assert_eq!(sculpture.shape_graphs[0].1.wires.len(), 12);

    for demo in [DemoScene::PrimitiveGallery, DemoScene::BooleanSampler, DemoScene::ModifierParade, DemoScene::MushroomGarden] {
        let r = load_demo(demo, gallery_positions());
        assert!(r.shape_graphs.is_empty() && r.bone_graphs.is_empty());
    }
}
