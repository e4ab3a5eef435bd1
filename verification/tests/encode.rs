use litsdf::encode::{
    combo_op_encode, combo_smooth_k, combo_to_index, default_modifier, encode_modifier_flags, get_mod_f32,
    get_mod_vec3, get_modifier_f32, get_modifier_vec3, index_to_combo, modifier_name, prim_params,
    prim_to_index, prim_type_encode, set_modifier, set_prim_params,
};
use litsdf::shape::{CombinationOp, SdfPrimitive, ShapeModifier};

fn b(x: f32) -> u32 {
    x.to_bits()
}

#[test]
fn modifier_flags_encode() {
    let mods = vec![ShapeModifier::Rounding(b(0.1)), ShapeModifier::Twist(b(2.0))];
    let flags = encode_modifier_flags(&mods);
    assert_eq!(flags & 1, 1);
    assert_eq!(flags & 4, 4);
    assert_eq!(flags & 2, 0);
    assert_eq!(f32::from_bits(get_modifier_f32(&mods, 0)), 0.1);
    assert_eq!(f32::from_bits(get_modifier_f32(&mods, 2)), 2.0);
}

#[test]
fn flags_of_every_kind() {
    let mods = vec![
        ShapeModifier::Rounding(b(0.1)),
        ShapeModifier::Onion(b(0.1)),
        ShapeModifier::Twist(b(0.1)),
        ShapeModifier::Bend(b(0.1)),
        ShapeModifier::Elongation([b(1.0), b(0.0), b(0.0)]),
        ShapeModifier::Repetition { period: [b(2.0); 3], count: [3, 3, 3] },
    ];
    assert_eq!(encode_modifier_flags(&mods), 63);
    assert_eq!(encode_modifier_flags(&[]), 0);
    assert_eq!(get_modifier_vec3(&mods, 5), [b(2.0); 3]);
    assert_eq!(get_modifier_vec3(&mods[..4], 4), [0, 0, 0]);
    assert_eq!(get_modifier_f32(&mods[4..], 0), 0);
}

#[test]
fn first_modifier_of_a_kind_wins() {
    let mods = vec![ShapeModifier::Bend(b(1.0)), ShapeModifier::Bend(b(3.0))];
    assert_eq!(get_modifier_f32(&mods, 3), b(1.0));
    assert_eq!(get_mod_f32(&mods, "bend"), b(1.0));
    assert_eq!(get_mod_f32(&mods, "twist"), 0);
    assert_eq!(get_mod_vec3(&mods, "elongation"), [0, 0, 0]);
}

#[test]
fn primitive_codes_and_params() {
    let p = SdfPrimitive::RoundCone { r1: b(0.5), r2: b(0.2), height: b(1.0) };
    assert_eq!(prim_type_encode(&p), 12);
    assert_eq!(prim_to_index(&p), 12);
    assert_eq!(prim_params(&p), [b(0.5), b(0.2), b(1.0), 0]);
    let mut q = SdfPrimitive::Plane { normal: [0, b(1.0), 0], offset: 0 };
    set_prim_params(&mut q, b(1.0), b(2.0), b(3.0), b(4.0));
    assert_eq!(q, SdfPrimitive::Plane { normal: [b(1.0), b(2.0), b(3.0)], offset: b(4.0) });
    assert_eq!(prim_type_encode(&SdfPrimitive::Sphere { radius: b(1.0) }), 0);
}

#[test]
fn combination_codes_round_trip() {
    let c = CombinationOp::SmoothSubtraction { k: b(0.25) };
    assert_eq!(combo_op_encode(&c), (5, b(0.25)));
    assert_eq!(combo_to_index(&c), 5);
    assert_eq!(combo_smooth_k(&c), b(0.25));
    assert_eq!(index_to_combo(5, b(0.25)), c);
    assert_eq!(combo_op_encode(&CombinationOp::Intersection), (1, 0));
    assert_eq!(index_to_combo(99, b(1.0)), CombinationOp::Union);
    assert_eq!(index_to_combo(2, b(1.0)), CombinationOp::Subtraction);
}

#[test]
fn setting_a_modifier_replaces_its_kind() {
    let mut mods = vec![ShapeModifier::Rounding(b(0.1)), ShapeModifier::Twist(b(2.0)), ShapeModifier::Rounding(b(0.3))];
    set_modifier(&mut mods, ShapeModifier::Rounding(b(0.2)));
    assert_eq!(mods, vec![ShapeModifier::Twist(b(2.0)), ShapeModifier::Rounding(b(0.2))]);
}

#[test]
fn editor_modifier_names() {
    assert_eq!(modifier_name(&ShapeModifier::Onion(0)), "Shell");
    assert_eq!(default_modifier("Shell"), ShapeModifier::Onion(b(0.05)));
    assert_eq!(default_modifier("Repetition"), ShapeModifier::Repetition { period: [b(2.0); 3], count: [3, 3, 3] });
    assert_eq!(default_modifier("Nonsense"), ShapeModifier::Rounding(b(0.1)));
}
