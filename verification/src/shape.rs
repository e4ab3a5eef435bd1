//! Shapes: a primitive with its transform, material, modifiers and the way it
//! combines with the shapes before it.
use vstd::prelude::*;
use crate::bits::{float_eq, float3_eq, float_eq_spec, float3_eq_spec, ONE, HALF, ZERO, F_0_1, F_0_2, F_0_3, F_0_6, F_0_8};
use crate::text::str_eq;
use crate::ids::ShapeId;

verus! {

/// Geometric primitive and its size parameters (each an encoded `f32`).
#[derive(Debug, Clone, Copy, PartialEq, Eq)]
pub enum SdfPrimitive {
    Sphere { radius: u32 },
    Box { half_extents: [u32; 3] },
    RoundBox { half_extents: [u32; 3], rounding: u32 },
    Cylinder { height: u32, radius: u32 },
    CappedCone { height: u32, r1: u32, r2: u32 },
    Torus { major_radius: u32, minor_radius: u32 },
    Capsule { radius: u32, half_height: u32 },
    Plane { normal: [u32; 3], offset: u32 },
    Ellipsoid { radii: [u32; 3] },
    Octahedron { size: u32 },
    Pyramid { height: u32, base: u32 },
    HexPrism { height: u32, radius: u32 },
    RoundCone { r1: u32, r2: u32, height: u32 },
}

impl SdfPrimitive {
    /// Name of the primitive's kind.
    pub open spec fn label_spec(self) -> Seq<char> {
        match self {
            SdfPrimitive::Sphere { .. } => "Sphere"@,
            SdfPrimitive::Box { .. } => "Box"@,
            SdfPrimitive::RoundBox { .. } => "RoundBox"@,
            SdfPrimitive::Cylinder { .. } => "Cylinder"@,
            SdfPrimitive::CappedCone { .. } => "CappedCone"@,
            SdfPrimitive::Torus { .. } => "Torus"@,
            SdfPrimitive::Capsule { .. } => "Capsule"@,
            SdfPrimitive::Plane { .. } => "Plane"@,
            SdfPrimitive::Ellipsoid { .. } => "Ellipsoid"@,
            SdfPrimitive::Octahedron { .. } => "Octahedron"@,
            SdfPrimitive::Pyramid { .. } => "Pyramid"@,
            SdfPrimitive::HexPrism { .. } => "HexPrism"@,
            SdfPrimitive::RoundCone { .. } => "RoundCone"@,
        }
    }

    /// Name of the primitive's kind.
    pub fn label(&self) -> (r: &'static str)
        ensures
            r@ == self.label_spec(),
    {
        match self {
            SdfPrimitive::Sphere { .. } => "Sphere",
            SdfPrimitive::Box { .. } => "Box",
            SdfPrimitive::RoundBox { .. } => "RoundBox",
            SdfPrimitive::Cylinder { .. } => "Cylinder",
            SdfPrimitive::CappedCone { .. } => "CappedCone",
            SdfPrimitive::Torus { .. } => "Torus",
            SdfPrimitive::Capsule { .. } => "Capsule",
            SdfPrimitive::Plane { .. } => "Plane",
            SdfPrimitive::Ellipsoid { .. } => "Ellipsoid",
            SdfPrimitive::Octahedron { .. } => "Octahedron",
            SdfPrimitive::Pyramid { .. } => "Pyramid",
            SdfPrimitive::HexPrism { .. } => "HexPrism",
            SdfPrimitive::RoundCone { .. } => "RoundCone",
        }
    }

    /// Default primitive of the kind named `name`; a unit sphere for an unknown name.
    pub open spec fn default_for_spec(name: Seq<char>) -> SdfPrimitive {
        if name == "Sphere"@ {
            SdfPrimitive::Sphere { radius: ONE }
        } else if name == "Box"@ {
            SdfPrimitive::Box { half_extents: [HALF, HALF, HALF] }
        } else if name == "RoundBox"@ {
            SdfPrimitive::RoundBox { half_extents: [HALF, HALF, HALF], rounding: F_0_1 }
        } else if name == "Cylinder"@ {
            SdfPrimitive::Cylinder { height: ONE, radius: HALF }
        } else if name == "CappedCone"@ {
            SdfPrimitive::CappedCone { height: ONE, r1: HALF, r2: F_0_2 }
        } else if name == "Torus"@ {
            SdfPrimitive::Torus { major_radius: ONE, minor_radius: F_0_3 }
        } else if name == "Capsule"@ {
            SdfPrimitive::Capsule { radius: F_0_3, half_height: HALF }
        } else if name == "Plane"@ {
            SdfPrimitive::Plane { normal: [ZERO, ONE, ZERO], offset: ZERO }
        } else if name == "Ellipsoid"@ {
            SdfPrimitive::Ellipsoid { radii: [ONE, F_0_8, F_0_6] }
        } else if name == "Octahedron"@ {
            SdfPrimitive::Octahedron { size: ONE }
        } else if name == "Pyramid"@ {
            SdfPrimitive::Pyramid { height: ONE, base: ONE }
        } else if name == "HexPrism"@ {
            SdfPrimitive::HexPrism { height: ONE, radius: HALF }
        } else if name == "RoundCone"@ {
            SdfPrimitive::RoundCone { r1: HALF, r2: F_0_2, height: ONE }
        } else {
            SdfPrimitive::Sphere { radius: ONE }
        }
    }

    /// Default primitive of the kind named `name`; a unit sphere for an unknown name.
    pub fn default_for(name: &str) -> (r: Self)
        ensures
            r == Self::default_for_spec(name@),
    {
        if str_eq(name, "Sphere") {
            SdfPrimitive::Sphere { radius: ONE }
        } else if str_eq(name, "Box") {
            SdfPrimitive::Box { half_extents: [HALF, HALF, HALF] }
        } else if str_eq(name, "RoundBox") {
            SdfPrimitive::RoundBox { half_extents: [HALF, HALF, HALF], rounding: F_0_1 }
        } else if str_eq(name, "Cylinder") {
            SdfPrimitive::Cylinder { height: ONE, radius: HALF }
        } else if str_eq(name, "CappedCone") {
            SdfPrimitive::CappedCone { height: ONE, r1: HALF, r2: F_0_2 }
        } else if str_eq(name, "Torus") {
            SdfPrimitive::Torus { major_radius: ONE, minor_radius: F_0_3 }
        } else if str_eq(name, "Capsule") {
            SdfPrimitive::Capsule { radius: F_0_3, half_height: HALF }
        } else if str_eq(name, "Plane") {
            SdfPrimitive::Plane { normal: [ZERO, ONE, ZERO], offset: ZERO }
        } else if str_eq(name, "Ellipsoid") {
            SdfPrimitive::Ellipsoid { radii: [ONE, F_0_8, F_0_6] }
        } else if str_eq(name, "Octahedron") {
            SdfPrimitive::Octahedron { size: ONE }
        } else if str_eq(name, "Pyramid") {
            SdfPrimitive::Pyramid { height: ONE, base: ONE }
        } else if str_eq(name, "HexPrism") {
            SdfPrimitive::HexPrism { height: ONE, radius: HALF }
        } else if str_eq(name, "RoundCone") {
            SdfPrimitive::RoundCone { r1: HALF, r2: F_0_2, height: ONE }
        } else {
            SdfPrimitive::Sphere { radius: ONE }
        }
    }
}

/// Local transform: translation, Euler rotation in degrees, uniform scale.
#[derive(Debug, Clone, Copy, PartialEq, Eq)]
pub struct ShapeTransform {
    pub translation: [u32; 3],
    pub rotation: [u32; 3],
    pub scale: u32,
}


impl ShapeTransform {
    /// Identity transform: no translation, no rotation, scale one.
    pub open spec fn default_spec() -> Self {
        ShapeTransform { translation: [ZERO, ZERO, ZERO], rotation: [ZERO, ZERO, ZERO], scale: ONE }
    }

    /// The transform equals the identity transform under `f32` equality.
    pub open spec fn is_default_spec(self) -> bool {
        &&& float3_eq_spec(self.translation, [ZERO, ZERO, ZERO])
        &&& float3_eq_spec(self.rotation, [ZERO, ZERO, ZERO])
        &&& float_eq_spec(self.scale, ONE)
    }

    /// Whether the transform equals the identity transform.
    pub fn is_default(&self) -> (r: bool)
        ensures
            r == self.is_default_spec(),
    {
        float3_eq(self.translation, [ZERO, ZERO, ZERO]) && float3_eq(self.rotation, [ZERO, ZERO, ZERO])
            && float_eq(self.scale, ONE)
    }
}

impl Default for ShapeTransform {
    fn default() -> (r: Self)
        ensures
            r == Self::default_spec(),
    {
        ShapeTransform { translation: [ZERO, ZERO, ZERO], rotation: [ZERO, ZERO, ZERO], scale: ONE }
    }
}

/// Surface material and procedural colouring of a shape.
#[derive(Debug, Clone, Copy, PartialEq, Eq)]
pub struct ShapeMaterial {
    pub color: [u32; 3],
    pub roughness: u32,
    pub metallic: u32,
    pub fresnel_power: u32,
    /// 0 solid, 1 cosine palette, 2 noise tint, further modes by number.
    pub color_mode: u32,
    pub palette_a: [u32; 3],
    pub palette_b: [u32; 3],
    pub palette_c: [u32; 3],
    pub palette_d: [u32; 3],
    pub noise_amplitude: u32,
    pub noise_frequency: u32,
    pub noise_octaves: u32,
    pub smooth_symmetry: u32,
}

impl ShapeMaterial {
    /// White, half rough, no metal, solid colour, no noise.
    pub open spec fn default_spec() -> Self {
        ShapeMaterial {
            color: [ONE, ONE, ONE],
            roughness: HALF,
            metallic: ZERO,
            fresnel_power: ZERO,
            color_mode: 0,
            palette_a: [ZERO, ZERO, ZERO],
            palette_b: [ZERO, ZERO, ZERO],
            palette_c: [ZERO, ZERO, ZERO],
            palette_d: [ZERO, ZERO, ZERO],
            noise_amplitude: ZERO,
            noise_frequency: ONE,
            noise_octaves: 0,
            smooth_symmetry: ZERO,
        }
    }

    /// The material equals the default material under `f32` equality.
    pub open spec fn is_default_spec(self) -> bool {
        let d = Self::default_spec();
        &&& float3_eq_spec(self.color, d.color)
        &&& float_eq_spec(self.roughness, d.roughness)
        &&& float_eq_spec(self.metallic, d.metallic)
        &&& float_eq_spec(self.fresnel_power, d.fresnel_power)
        &&& self.color_mode == d.color_mode
        &&& float3_eq_spec(self.palette_a, d.palette_a)
        &&& float3_eq_spec(self.palette_b, d.palette_b)
        &&& float3_eq_spec(self.palette_c, d.palette_c)
        &&& float3_eq_spec(self.palette_d, d.palette_d)
        &&& float_eq_spec(self.noise_amplitude, d.noise_amplitude)
        &&& float_eq_spec(self.noise_frequency, d.noise_frequency)
        &&& self.noise_octaves == d.noise_octaves
        &&& float_eq_spec(self.smooth_symmetry, d.smooth_symmetry)
    }

    /// Whether the material equals the default material.
    pub fn is_default(&self) -> (r: bool)
        ensures
            r == self.is_default_spec(),
    {
        let z = [ZERO, ZERO, ZERO];
        float3_eq(self.color, [ONE, ONE, ONE]) && float_eq(self.roughness, HALF)
            && float_eq(self.metallic, ZERO) && float_eq(self.fresnel_power, ZERO)
            && self.color_mode == 0 && float3_eq(self.palette_a, z) && float3_eq(self.palette_b, z)
            && float3_eq(self.palette_c, z) && float3_eq(self.palette_d, z)
            && float_eq(self.noise_amplitude, ZERO) && float_eq(self.noise_frequency, ONE)
            && self.noise_octaves == 0 && float_eq(self.smooth_symmetry, ZERO)
    }
}

impl Default for ShapeMaterial {
    fn default() -> (r: Self)
        ensures
            r == Self::default_spec(),
    {
        let z = [ZERO, ZERO, ZERO];
        ShapeMaterial {
            color: [ONE, ONE, ONE],
            roughness: HALF,
            metallic: ZERO,
            fresnel_power: ZERO,
            color_mode: 0,
            palette_a: z,
            palette_b: z,
            palette_c: z,
            palette_d: z,
            noise_amplitude: ZERO,
            noise_frequency: ONE,
            noise_octaves: 0,
            smooth_symmetry: ZERO,
        }
    }
}

/// How a shape is combined with the shapes evaluated before it.
#[derive(Debug, Clone, Copy, PartialEq, Eq)]
pub enum CombinationOp {
    Union,
    Intersection,
    Subtraction,
    SmoothUnion { k: u32 },
    SmoothIntersection { k: u32 },
    SmoothSubtraction { k: u32 },
    ChamferUnion { k: u32 },
    ChamferIntersection { k: u32 },
}

impl Default for CombinationOp {
    fn default() -> (r: Self)
        ensures
            r == CombinationOp::Union,
    {
        CombinationOp::Union
    }
}

impl CombinationOp {
    /// Whether this is the default operation, `Union`.
    pub fn is_default(&self) -> (r: bool)
        ensures
            r == (*self is Union),
    {
        match self {
            CombinationOp::Union => true,
            _ => false,
        }
    }
}

/// Domain modifier applied to a shape before evaluation.
#[derive(Debug, Clone, Copy, PartialEq, Eq)]
pub enum ShapeModifier {
    Rounding(u32),
    Onion(u32),
    Twist(u32),
    Bend(u32),
    Elongation([u32; 3]),
    Repetition { period: [u32; 3], count: [u32; 3] },
}

/// Abstract value of a shape: its name as characters and its modifiers as a sequence.
pub struct ShapeView {
    pub id: ShapeId,
    pub name: Seq<char>,
    pub primitive: SdfPrimitive,
    pub visible: bool,
    pub transform: ShapeTransform,
    pub material: ShapeMaterial,
    pub modifiers: Seq<ShapeModifier>,
    pub combination: CombinationOp,
}

/// A primitive placed in its bone's space, with material and modifiers.
#[derive(Debug, Clone)]
pub struct SdfShape {
    pub id: ShapeId,
    pub name: String,
    pub primitive: SdfPrimitive,
    pub visible: bool,
    pub transform: ShapeTransform,
    pub material: ShapeMaterial,
    pub modifiers: Vec<ShapeModifier>,
    pub combination: CombinationOp,
}

impl View for SdfShape {
    type V = ShapeView;

    open spec fn view(&self) -> ShapeView {
        ShapeView {
            id: self.id,
            name: self.name@,
            primitive: self.primitive,
            visible: self.visible,
            transform: self.transform,
            material: self.material,
            modifiers: self.modifiers@,
            combination: self.combination,
        }
    }
}

/// The name that a copy receives: the original name followed by `" Copy"`.
pub open spec fn copy_name(name: Seq<char>) -> Seq<char> {
    name + " Copy"@
}

impl SdfShape {
    /// A shape with a fresh identifier, default transform, material and
    /// combination, no modifiers, visible.
    pub fn new(name: &str, primitive: SdfPrimitive) -> (r: Self)
        ensures
            r@.name == name@,
            r@.primitive == primitive,
            r@.visible,
            r@.transform == ShapeTransform::default_spec(),
            r@.material == ShapeMaterial::default_spec(),
            r@.modifiers == Seq::<ShapeModifier>::empty(),
            r@.combination == CombinationOp::Union,
            crate::ids::is_random_uuid(r@.id.0),
    {
        let modifiers: Vec<ShapeModifier> = Vec::new();
        assert(modifiers@ =~= Seq::<ShapeModifier>::empty());
        SdfShape {
            id: ShapeId::fresh(),
            name: String::from_str(name),
            primitive,
            visible: true,
            transform: ShapeTransform::default(),
            material: ShapeMaterial::default(),
            modifiers,
            combination: CombinationOp::Union,
        }
    }

    /// A unit sphere named `"Sphere"` with all defaults.
    pub fn default_sphere() -> (r: Self)
        ensures
            r@.name == "Sphere"@,
            r@.primitive == (SdfPrimitive::Sphere { radius: ONE }),
            r@.visible,
            r@.transform == ShapeTransform::default_spec(),
            r@.material == ShapeMaterial::default_spec(),
            r@.modifiers == Seq::<ShapeModifier>::empty(),
            r@.combination == CombinationOp::Union,
            crate::ids::is_random_uuid(r@.id.0),
    {
        Self::new("Sphere", SdfPrimitive::Sphere { radius: ONE })
    }

    /// An exact copy, identifier included.
    pub fn copy(&self) -> (r: Self)
        ensures
            r@ == self@,
    {
        let modifiers = self.modifiers.clone();
        assert(modifiers@ =~= self.modifiers@);
        SdfShape {
            id: self.id,
            name: self.name.clone(),
            primitive: self.primitive,
            visible: self.visible,
            transform: self.transform,
            material: self.material,
            modifiers,
            combination: self.combination,
        }
    }

    /// A copy with a fresh identifier and `" Copy"` appended to the name.
    pub fn duplicate(&self) -> (r: Self)
        ensures
            r@ == (ShapeView { id: r@.id, name: copy_name(self@.name), ..self@ }),
            crate::ids::is_random_uuid(r@.id.0),
    {
        let mut r = self.copy();
        r.id = ShapeId::fresh();
        r.name.append(" Copy");
        r
    }

    /// Reset the transform to the identity.
    pub fn reset_transform(&mut self)
        ensures
            final(self)@ == (ShapeView { transform: ShapeTransform::default_spec(), ..old(self)@ }),
    {
        self.transform = ShapeTransform::default();
    }

    /// Remove every modifier.
    pub fn clear_modifiers(&mut self)
        ensures
            final(self)@ == (ShapeView { modifiers: Seq::empty(), ..old(self)@ }),
    {
        self.modifiers.clear();
    }
}

} // verus!
