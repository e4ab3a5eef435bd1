use litsdf::codegen::{generate_shader, write_sdf_scene};
use litsdf::scene::SdfScene;
use litsdf::shape::{SdfPrimitive, SdfShape};

#[test]
fn generate_default_scene() {
    let scene = SdfScene::default_scene();
    let wgsl = generate_shader(&scene, "// preamble", "// postamble").unwrap();
    assert!(wgsl.contains("fn sdf_scene("));
    assert!(wgsl.contains("fn sdf_scene_material("));
    assert!(wgsl.contains("params.shapes[0]"));
    // Scene has 5 shapes
    assert!(wgsl.contains("params.shapes[4u]"));
}

#[test]
fn empty_scene_errors() {
    let scene = SdfScene::new("Empty");
    let result = generate_shader(&scene, "", "");
    assert!(result.is_err());
    assert_eq!(result.err().unwrap(), "empty scene — no shapes to render");
}

#[test]
fn shader_unrolls_each_shape_once() {
    let mut scene = SdfScene::new("Two");
    scene.root_bone.shapes.push(SdfShape::default_sphere());
    scene.root_bone.shapes.push(SdfShape::new("Cube", SdfPrimitive::Box { half_extents: [0.5f32.to_bits(); 3] }));
    let wgsl = generate_shader(&scene, "PRE", "POST").unwrap();
    assert!(wgsl.starts_with("PRE\n// --- Generated: distance-only scene evaluation ---\n"));
    assert!(wgsl.ends_with("    return result;\n}\nPOST"));
    assert_eq!(wgsl.matches("params.shapes[1u]").count(), 2);
    assert!(!wgsl.contains("params.shapes[2u]"));
    assert_eq!(wgsl.matches("if t > 0.5 { result.color_mode = s.color_mode; }").count(), 1);
}

#[test]
fn single_shape_scene_function() {
    let mut out = String::new();
    assert!(write_sdf_scene(&mut out, 1).is_ok());
    assert_eq!(
        out,
        "// --- Generated: distance-only scene evaluation ---\n\
         fn sdf_scene(p: vec3<f32>) -> f32 {\n    var d = eval_shape(p, params.shapes[0]);\n    return d;\n}\n"
    );
    let mut out = String::new();
    write_sdf_scene(&mut out, 12).unwrap();
    assert!(out.contains("        let s = params.shapes[11u];\n"));
}
