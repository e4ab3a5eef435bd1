use litsdf::bone::SdfBone;
use litsdf::ids::{BoneId, ShapeId};
use litsdf::panel::{params_differ, bone_shape_rows, build_modifiers, shape_form, sync_bone_properties, sync_shape_properties, ShapeSync};
use litsdf::shape::{CombinationOp, SdfPrimitive, SdfShape, ShapeModifier};

fn b(x: f32) -> u32 {
    x.to_bits()
}

/// The panel's parameter fields as `f64` bit patterns, holding the form's `f32` values.
fn panel(f: &litsdf::panel::ShapeForm) -> [u64; 4] {
    [
        (f32::from_bits(f.params[0]) as f64).to_bits(),
        (f32::from_bits(f.params[1]) as f64).to_bits(),
        (f32::from_bits(f.params[2]) as f64).to_bits(),
        (f32::from_bits(f.params[3]) as f64).to_bits(),
    ]
}

fn b3(v: [f32; 3]) -> [u32; 3] {
    [b(v[0]), b(v[1]), b(v[2])]
}

#[test]
fn sliders_build_modifiers() {
    let mut f = shape_form(&SdfShape::default_sphere());
    assert!(build_modifiers(&f).is_empty());
    f.rounding = b(0.2);
    f.onion = b(-0.1);
    f.twist = b(0.0005);
    f.bend = b(-0.5);
    f.elongation = b3([0.0, -0.0, 0.0]);
    f.repetition = b3([1.0, 0.0, 0.0]);
    assert_eq!(
        build_modifiers(&f),
        vec![
            ShapeModifier::Rounding(b(0.2)),
            ShapeModifier::Bend(b(-0.5)),
            ShapeModifier::Repetition { period: b3([1.0, 0.0, 0.0]), count: [3, 3, 3] },
        ]
    );
    f.twist = b(f32::NAN);
    f.elongation = b3([0.0, 2.0, 0.0]);
    assert_eq!(build_modifiers(&f)[2], ShapeModifier::Elongation(b3([0.0, 2.0, 0.0])));
}

#[test]
fn panel_writes_the_selected_shape_once() {
    let mut root = SdfBone::root();
    let s = SdfShape::default_sphere();
    let id = s.id;
    let mut f = shape_form(&s);
    root.shapes.push(s);

    assert_eq!(sync_shape_properties(&mut root, None, &f, panel(&f)), ShapeSync::Untouched);
    assert_eq!(sync_shape_properties(&mut root, Some(ShapeId(3)), &f, panel(&f)), ShapeSync::Untouched);
    assert_eq!(sync_shape_properties(&mut root, Some(id), &f, panel(&f)), ShapeSync::Synced { changed: false });

    f.translation = b3([1.0, 0.0, 0.0]);
    f.roughness = b(0.9);
    f.rounding = b(0.1);
    f.combo_op = 3;
    f.smooth_k = b(0.25);
    f.params = [b(2.0), 0, 0, 0];
    assert_eq!(sync_shape_properties(&mut root, Some(id), &f, panel(&f)), ShapeSync::Synced { changed: true });
    let shape = &root.shapes[0];
    assert_eq!(shape.transform.translation, b3([1.0, 0.0, 0.0]));
    assert_eq!(shape.material.roughness, b(0.9));
    assert_eq!(shape.modifiers, vec![ShapeModifier::Rounding(b(0.1))]);
    assert_eq!(shape.combination, CombinationOp::SmoothUnion { k: b(0.25) });
    assert_eq!(shape.primitive, SdfPrimitive::Sphere { radius: b(2.0) });
    assert_eq!(sync_shape_properties(&mut root, Some(id), &f, panel(&f)), ShapeSync::Synced { changed: false });

    // -0.0 equals 0.0: the stored value is kept and nothing is reported.
    f.translation = b3([1.0, -0.0, 0.0]);
    assert_eq!(sync_shape_properties(&mut root, Some(id), &f, panel(&f)), ShapeSync::Synced { changed: false });
    assert_eq!(root.shapes[0].transform.translation, b3([1.0, 0.0, 0.0]));
}

#[test]
fn panel_changing_the_kind_retypes_the_shape() {
    let mut root = SdfBone::root();
    let s = SdfShape::default_sphere();
    let id = s.id;
    let mut f = shape_form(&s);
    root.shapes.push(s);
    f.prim_type = 1;
    f.roughness = b(0.9);
    assert_eq!(
        sync_shape_properties(&mut root, Some(id), &f, panel(&f)),
        ShapeSync::Retyped { params: [b(0.5), b(0.5), b(0.5), 0] }
    );
    assert_eq!(root.shapes[0].name, "Box");
    assert_eq!(root.shapes[0].primitive, SdfPrimitive::Box { half_extents: b3([0.5, 0.5, 0.5]) });
    assert_eq!(root.shapes[0].material.roughness, b(0.5));
}

#[test]
fn panel_writes_the_selected_bone() {
    let mut root = SdfBone::root();
    let arm = SdfBone::new("Arm");
    let arm_id = arm.id;
    root.children.push(arm);
    let zero = b3([0.0; 3]);

    assert!(!sync_bone_properties(&mut root, Some(BoneId(0)), b3([1.0; 3]), zero, "Other"));
    assert_eq!(root.name, "Root");
    assert!(!sync_bone_properties(&mut root, Some(arm_id), zero, zero, "Forearm"));
    assert_eq!(root.children[0].name, "Forearm");
    assert!(!sync_bone_properties(&mut root, Some(arm_id), zero, zero, ""));
    assert_eq!(root.children[0].name, "Forearm");
    assert!(sync_bone_properties(&mut root, Some(arm_id), zero, b3([0.0, 45.0, 0.0]), "Forearm"));
    assert_eq!(root.children[0].transform.rotation, b3([0.0, 45.0, 0.0]));
    assert_eq!(root.find_bone(arm_id).unwrap().transform.rotation, b3([0.0, 45.0, 0.0]));
    assert!(!sync_bone_properties(&mut root, None, b3([9.0; 3]), zero, "X"));
}

#[test]
fn panel_shows_the_shape() {
    let mut s = SdfShape::new("Ring", SdfPrimitive::Torus { major_radius: b(1.0), minor_radius: b(0.3) });
    s.modifiers.push(ShapeModifier::Twist(b(0.5)));
    s.modifiers.push(ShapeModifier::Twist(b(0.7)));
    s.modifiers.push(ShapeModifier::Repetition { period: b3([2.0, 2.0, 2.0]), count: [1, 1, 1] });
    s.combination = CombinationOp::ChamferUnion { k: b(0.1) };
    let f = shape_form(&s);
    assert_eq!(f.prim_type, 5);
    assert_eq!(f.params, [b(1.0), b(0.3), 0, 0]);
    assert_eq!(f.twist, b(0.5));
    assert_eq!(f.rounding, 0);
    assert_eq!(f.repetition, b3([2.0, 2.0, 2.0]));
    assert_eq!(f.elongation, [0; 3]);
    assert_eq!(f.combo_op, 6);
    assert_eq!(f.smooth_k, b(0.1));
    assert_eq!(f.color, s.material.color);
}

#[test]
fn bone_shape_list_marks_the_selection() {
    let mut root = SdfBone::root();
    let mut arm = SdfBone::new("Arm");
    let a = SdfShape::new("Upper", SdfPrimitive::Sphere { radius: b(1.0) });
    let c = SdfShape::new("Lower", SdfPrimitive::Sphere { radius: b(1.0) });
    let (a_id, c_id) = (a.id, c.id);
    arm.shapes.push(a);
    arm.shapes.push(c);
    let arm_id = arm.id;
    root.children.push(arm);
    let (rows, order) = bone_shape_rows(&root, Some(arm_id), Some(c_id));
    assert_eq!(rows, vec!["Upper".to_string(), "> Lower".to_string()]);
    assert_eq!(order, vec![a_id, c_id]);
    let (rows, order) = bone_shape_rows(&root, None, Some(c_id));
    assert!(rows.is_empty() && order.is_empty());
    let (rows, _) = bone_shape_rows(&root, Some(BoneId(0)), None);
    assert!(rows.is_empty());
}

fn make_test_root() -> SdfBone {
    let mut root = SdfBone::root();
    root.shapes.push(SdfShape::default_sphere());
    let mut arm = SdfBone::new("Arm");
    arm.shapes.push(SdfShape::new("Box", SdfPrimitive::Box { half_extents: b3([0.5, 0.5, 0.5]) }));
    let mut hand = SdfBone::new("Hand");
    hand.shapes.push(SdfShape::new("Capsule", SdfPrimitive::Capsule { radius: b(0.2), half_height: b(0.3) }));
    arm.children.push(hand);
    root.children.push(arm);
    root
}

#[test]
fn click_through_bone_to_shape_edit() {
    let mut root = make_test_root();
    let arm_id = root.children[0].id;
    let box_id = root.children[0].shapes[0].id;

    let (rows, order) = bone_shape_rows(&root, Some(arm_id), None);
    assert_eq!(rows.len(), 1);
    assert!(rows[0].contains("Box"));
    assert_eq!(order[0], box_id);

    let (rows, _) = bone_shape_rows(&root, Some(arm_id), Some(box_id));
    assert!(rows[0].contains("Box"));
    let mut form = shape_form(&root.children[0].shapes[0]);
    assert_eq!(form.prim_type, 1);
    assert_eq!(form.params[0], b(0.5));

    form.params[0] = b(2.0);
    form.params[2] = b(0.3);
    assert_eq!(sync_shape_properties(&mut root, Some(box_id), &form, panel(&form)), ShapeSync::Synced { changed: true });
    let (shape, _) = root.find_shape(box_id).unwrap();
    match &shape.primitive {
        SdfPrimitive::Box { half_extents } => {
            assert_eq!(half_extents[0], b(2.0));
            assert_eq!(half_extents[1], b(0.5));
            assert_eq!(half_extents[2], b(0.3));
        }
        other => panic!("Expected Box, got {:?}", other),
    }
}

#[test]
fn no_dirty_when_no_change() {
    let mut root = make_test_root();
    let box_id = root.children[0].shapes[0].id;
    let form = shape_form(&root.children[0].shapes[0]);
    assert_eq!(sync_shape_properties(&mut root, Some(box_id), &form, panel(&form)), ShapeSync::Synced { changed: false });
}

#[test]
fn nested_bone_shape_selection() {
    let mut root = SdfBone::root();
    root.shapes.push(SdfShape::default_sphere());
    let mut arm = SdfBone::new("Arm");
    arm.transform.translation = b3([1.2, 0.0, 0.0]);
    arm.shapes.push(SdfShape::new("Box", SdfPrimitive::Box { half_extents: b3([0.6, 0.6, 0.6]) }));
    let mut arm1 = SdfBone::new("Arm 1");
    arm1.transform.translation = b3([1.2, 0.0, 0.0]);
    let mut torus = SdfShape::new("Torus", SdfPrimitive::Torus { major_radius: b(2.95), minor_radius: b(1.15) });
    torus.transform.scale = b(0.1);
    arm1.shapes.push(torus);
    arm.children.push(arm1);
    root.children.push(arm);
    let arm1_id = root.children[0].children[0].id;

    let (rows, order) = bone_shape_rows(&root, Some(arm1_id), None);
    assert_eq!(rows.len(), 1);
    assert!(rows[0].contains("Torus"));

    let torus_id = order[0];
    let (shape, _) = root.find_shape(torus_id).unwrap();
    let mut form = shape_form(shape);
    assert_eq!(form.prim_type, 5);
    assert!((f32::from_bits(form.params[0]) - 2.95).abs() < 0.01);

    form.params[0] = b(1.0);
    form.params[1] = b(0.3);
    assert_eq!(sync_shape_properties(&mut root, Some(torus_id), &form, panel(&form)), ShapeSync::Synced { changed: true });
    let (t, _) = root.find_shape(torus_id).unwrap();
    match &t.primitive {
        SdfPrimitive::Torus { major_radius, minor_radius } => {
            assert!((f32::from_bits(*major_radius) - 1.0).abs() < 0.01);
            assert!((f32::from_bits(*minor_radius) - 0.3).abs() < 0.01);
        }
        other => panic!("Expected Torus, got {:?}", other),
    }
}

#[test]
fn parameters_compared_in_double_precision() {
    let p = SdfPrimitive::Capsule { radius: b(0.3), half_height: b(0.5) };
    let same = [0.3f32 as f64, 0.5, 0.0, -0.0].map(f64::to_bits);
    assert!(!params_differ(&p, same));
    let finer = [0.3f64, 0.5, 0.0, 0.0].map(f64::to_bits);
    assert!(params_differ(&p, finer));
    let tiny = SdfPrimitive::Sphere { radius: 1 };
    assert!(!params_differ(&tiny, [(f32::from_bits(1) as f64).to_bits(), 0, 0, 0]));
    let nan = SdfPrimitive::Sphere { radius: f32::NAN.to_bits() };
    assert!(params_differ(&nan, [f64::NAN.to_bits(), 0, 0, 0]));
}

#[test]
fn widening_matches_the_hardware() {
    for x in [0u32, 1, 2, 3, 0x7f_ffff, 0x40_0000, 0x12345, 0x80_0000, 0x3f80_0000, 0x8000_0001, 0x7f80_0000, 0xff80_0000, 0x7f7f_ffff, 0xbeef_1234] {
        assert_eq!(litsdf::bits::widen(x), (f32::from_bits(x) as f64).to_bits(), "pattern {x:#x}");
    }
}
