use litsdf::bone::SdfBone;
use litsdf::commands::collect_bone_list;
use litsdf::demos::DemoScene;
use litsdf::encode::{default_modifier, modifier_name};
use litsdf::fields::{default_true, is_true, is_zero_u32};
use litsdf::nodes::{PinType, SdfNode};
use litsdf::shape::SdfPrimitive;

#[test]
fn demos_listed_with_labels() {
    let all = DemoScene::all();
    assert_eq!(all.len(), 6);
    assert_eq!(all[0], DemoScene::PrimitiveGallery);
    assert_eq!(all[0].label(), "Primitive Gallery");
    assert_eq!(DemoScene::AbstractSculpture.label(), "Abstract Sculpture");
}

#[test]
fn pin_compatibility() {
    assert!(PinType::compatible(PinType::Float, PinType::Int));
    assert!(PinType::compatible(PinType::Vec3, PinType::Vec3));
    assert!(!PinType::compatible(PinType::Vec3, PinType::Float));
    assert!(!PinType::compatible(PinType::Bool, PinType::Vec3));
}

#[test]
fn node_catalog_text() {
    assert_eq!(SdfNode::Time.name(), "Time");
    assert_eq!(SdfNode::Time.input_count(), 0);
    assert_eq!(SdfNode::Add.input_count(), 2);
    assert_eq!(SdfNode::Add.output_count(), 1);
    assert!(!SdfNode::Time.is_physics_node());
}

#[test]
fn field_defaults() {
    assert!(is_zero_u32(&0));
    assert!(!is_zero_u32(&3));
    assert!(is_true(&true));
    assert!(!is_true(&false));
    assert!(default_true());
}

#[test]
fn primitive_defaults_by_name() {
    let r = SdfPrimitive::default_for("Torus");
    assert_eq!(r, SdfPrimitive::Torus { major_radius: 1.0f32.to_bits(), minor_radius: 0.3f32.to_bits() });
    assert_eq!(r.label(), "Torus");
    assert_eq!(SdfPrimitive::default_for("Blob"), SdfPrimitive::Sphere { radius: 1.0f32.to_bits() });
}

#[test]
fn bone_list_names_every_bone_in_order() {
    let mut root = SdfBone::root();
    let mut arm = SdfBone::new("Arm");
    arm.children.push(SdfBone::new("Hand"));
    root.children.push(arm);
    root.children.push(SdfBone::new("Leg"));
    let mut out = Vec::new();
    collect_bone_list(&root, &mut out);
    let names: Vec<&str> = out.iter().map(|(_, n)| n.as_str()).collect();
    assert_eq!(names, vec!["Root", "Arm", "Hand", "Leg"]);
    assert_eq!(out.len(), root.bone_count() + 1);
    assert_eq!(out[0].0, root.id);
}

#[test]
fn default_modifier_matches_its_name() {
    for name in ["Rounding", "Shell", "Twist", "Bend", "Elongation", "Repetition"] {
        assert_eq!(modifier_name(&default_modifier(name)), name);
    }
}
