use litsdf::bone::SdfBone;
use litsdf::editor::{
    add_shape_at_selection, get_mode_value, prim_name, replace_selected_shape, reset_selected_transform, save_file_name,
    set_selected_elongation, set_selected_repetition, set_selected_rotation, set_selected_translation, GizmoMode,
};
use litsdf::ids::ShapeId;
use litsdf::shape::{SdfPrimitive, SdfShape, ShapeModifier, ShapeTransform};

#[test]
fn save_names_get_yaml_extension() {
    assert_eq!(save_file_name(""), "untitled.yaml");
    assert_eq!(save_file_name("garden"), "garden.yaml");
    assert_eq!(save_file_name("garden.yaml"), "garden.yaml");
    assert_eq!(save_file_name("garden.yml"), "garden.yml.yaml");
    assert_eq!(save_file_name("yaml"), "yaml.yaml");
}

#[test]
fn new_shape_goes_to_selected_bone() {
    let mut root = SdfBone::root();
    let arm = SdfBone::new("Arm");
    let arm_id = arm.id;
    root.children.push(arm);
    let id = add_shape_at_selection(&mut root, 5, Some(arm_id));
    assert_eq!(prim_name(5), "Torus");
    assert_eq!(root.children[0].shapes.len(), 1);
    assert_eq!(root.children[0].shapes[0].id, id);
    assert_eq!(root.children[0].shapes[0].name, "Torus");
    let id2 = add_shape_at_selection(&mut root, 0, None);
    assert_eq!(root.shapes[0].id, id2);
    assert!(matches!(root.shapes[0].primitive, SdfPrimitive::Sphere { .. }));
}

#[test]
fn replacing_keeps_the_identifier() {
    let mut root = SdfBone::root();
    let s = SdfShape::default_sphere();
    let id = s.id;
    root.shapes.push(s);
    let other = SdfShape::new("Cube", SdfPrimitive::Box { half_extents: [0.5f32.to_bits(); 3] });
    assert!(replace_selected_shape(&mut root, id, other));
    assert_eq!(root.shapes[0].id, id);
    assert_eq!(root.shapes[0].name, "Cube");
    assert!(!replace_selected_shape(&mut root, ShapeId(7), SdfShape::default_sphere()));
    assert_eq!(root.shapes.len(), 1);
}

#[test]
fn resetting_the_selected_transform() {
    let mut root = SdfBone::root();
    let mut s = SdfShape::default_sphere();
    s.transform.scale = 2.0f32.to_bits();
    let id = s.id;
    root.shapes.push(s);
    assert!(reset_selected_transform(&mut root, id));
    assert_eq!(root.shapes[0].transform, ShapeTransform::default());
}

fn bits3(v: [f32; 3]) -> [u32; 3] {
    [v[0].to_bits(), v[1].to_bits(), v[2].to_bits()]
}

#[test]
fn gizmo_mode_labels() {
    assert_eq!(GizmoMode::default(), GizmoMode::Translate);
    assert_eq!(GizmoMode::Translate.label(), "Translate (G)");
    assert_eq!(GizmoMode::Rotate.label(), "Rotate (R)");
    assert_eq!(GizmoMode::Elongation.label(), "Elongation (E)");
    assert_eq!(GizmoMode::Repetition.label(), "Repetition (P)");
}

#[test]
fn gizmo_reads_and_writes_the_selected_shape() {
    let mut root = SdfBone::root();
    let s = SdfShape::default_sphere();
    let id = s.id;
    root.shapes.push(s);
    let zero = bits3([0.0; 3]);
    assert_eq!(get_mode_value(&root, None, GizmoMode::Translate), zero);
    assert_eq!(get_mode_value(&root, Some(ShapeId(9)), GizmoMode::Rotate), zero);

    set_selected_translation(&mut root, Some(id), bits3([1.0, 2.0, 3.0]));
    assert_eq!(get_mode_value(&root, Some(id), GizmoMode::Translate), bits3([1.0, 2.0, 3.0]));
    set_selected_rotation(&mut root, Some(id), bits3([0.0, 90.0, 0.0]));
    assert_eq!(root.shapes[0].transform.rotation, bits3([0.0, 90.0, 0.0]));
    set_selected_translation(&mut root, None, bits3([5.0; 3]));
    assert_eq!(root.shapes[0].transform.translation, bits3([1.0, 2.0, 3.0]));
}

#[test]
fn gizmo_elongation_added_only_when_positive() {
    let mut root = SdfBone::root();
    let s = SdfShape::default_sphere();
    let id = s.id;
    root.shapes.push(s);
    set_selected_elongation(&mut root, Some(id), bits3([0.0, -1.0, 0.0]));
    assert!(root.shapes[0].modifiers.is_empty());
    set_selected_elongation(&mut root, Some(id), bits3([f32::NAN, -0.0, 0.0]));
    assert!(root.shapes[0].modifiers.is_empty());
    set_selected_elongation(&mut root, Some(id), bits3([0.0, 0.5, 0.0]));
    assert_eq!(root.shapes[0].modifiers, vec![ShapeModifier::Elongation(bits3([0.0, 0.5, 0.0]))]);
    set_selected_elongation(&mut root, Some(id), bits3([0.0, 0.0, 0.0]));
    assert_eq!(root.shapes[0].modifiers, vec![ShapeModifier::Elongation(bits3([0.0, 0.0, 0.0]))]);
    assert_eq!(get_mode_value(&root, Some(id), GizmoMode::Elongation), bits3([0.0; 3]));
}

#[test]
fn gizmo_repetition_keeps_counts() {
    let mut root = SdfBone::root();
    let mut s = SdfShape::default_sphere();
    s.modifiers.push(ShapeModifier::Rounding(0.1f32.to_bits()));
    let id = s.id;
    root.shapes.push(s);
    set_selected_repetition(&mut root, Some(id), bits3([2.0, 2.0, 2.0]));
    assert_eq!(
        root.shapes[0].modifiers[1],
        ShapeModifier::Repetition { period: bits3([2.0, 2.0, 2.0]), count: [3, 3, 3] }
    );
    root.shapes[0].modifiers[1] = ShapeModifier::Repetition { period: bits3([2.0; 3]), count: [1, 2, 5] };
    set_selected_repetition(&mut root, Some(id), bits3([4.0, 1.0, 1.0]));
    assert_eq!(root.shapes[0].modifiers.len(), 2);
    assert_eq!(
        root.shapes[0].modifiers[1],
        ShapeModifier::Repetition { period: bits3([4.0, 1.0, 1.0]), count: [1, 2, 5] }
    );
    assert_eq!(get_mode_value(&root, Some(id), GizmoMode::Repetition), bits3([4.0, 1.0, 1.0]));
}

#[test]
fn written_shape_reads_back_from_its_bone() {
    let mut root = SdfBone::root();
    let mut arm = SdfBone::new("Arm");
    let s = SdfShape::default_sphere();
    let id = s.id;
    arm.shapes.push(SdfShape::default_sphere());
    arm.shapes.push(s);
    let arm_id = arm.id;
    root.children.push(arm);
    let cube = SdfShape::new("Cube", SdfPrimitive::Box { half_extents: [0.5f32.to_bits(); 3] });
    assert!(replace_selected_shape(&mut root, id, cube));
    let (found, bone) = root.find_shape(id).unwrap();
    assert_eq!(found.name, "Cube");
    assert_eq!(bone, arm_id);
    set_selected_elongation(&mut root, Some(id), bits3([0.0, 0.25, 0.0]));
    assert_eq!(get_mode_value(&root, Some(id), GizmoMode::Elongation), bits3([0.0, 0.25, 0.0]));
}
