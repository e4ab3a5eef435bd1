//! Node types of the animation graph and what their pins are.
use vstd::prelude::*;

verus! {

/// Node types of the animation graph.  Each variant's fields are the defaults (encoded
/// `f32` values, or integers) used for inputs that have no connection.
#[derive(Debug, Clone, Copy, PartialEq, Eq)]
pub enum SdfNode {
    /// Current time in seconds. No inputs.
    Time,
    /// Sine oscillator: amplitude * sin(time * frequency * TAU + phase).
    SinOscillator { amplitude: u32, frequency: u32, phase: u32 },
    /// Constant float value.
    Constant { value: u32 },
    /// Constant Vec3 value.
    ConstantVec3 { value: [u32; 3] },
    /// Add two floats.
    Add,
    /// Multiply two floats.
    Multiply,
    /// Linear interpolation: mix(a, b, factor).
    Mix { factor: u32 },
    /// Clamp a value to a range.
    Clamp { min: u32, max: u32 },
    /// Negate a float.
    Negate,
    /// Compose 3 floats into a Vec3.
    Vec3Compose,
    /// Decompose a Vec3 into 3 floats.
    Vec3Decompose,
    /// Square wave oscillator.
    SquareWave { amplitude: u32, frequency: u32, phase: u32 },
    /// Triangle wave oscillator.
    TriangleWave { amplitude: u32, frequency: u32, phase: u32 },
    /// Sawtooth wave oscillator.
    SawtoothWave { amplitude: u32, frequency: u32, phase: u32 },
    /// Ease in/out: x^exp for x<0.5, 1-(1-x)^exp for x>=0.5.
    EaseInOut { exponent: u32 },
    /// Remap value from [in_min, in_max] to [out_min, out_max].
    Remap { in_min: u32, in_max: u32, out_min: u32, out_max: u32 },
    /// Absolute value.
    Abs,
    /// Modulo (wrapping).
    Modulo { divisor: u32 },
    /// Cosine palette: a + b * cos(2 pi (c*t + d)). Inputs/outputs are Vec3.
    CosinePalette,
    /// Exponential impulse: k * x * exp(1 - k*x).
    ExpImpulse { k: u32 },
    /// Smoothstep: hermite interpolation from edge0 to edge1.
    SmoothStep { edge0: u32, edge1: u32 },
    /// 1D noise sampled at time * frequency.
    Noise1D { frequency: u32 },
    /// Compare two values. Mode: 0=GT, 1=LT, 2=EQ, 3=GTE, 4=LTE. Output 1.0 or 0.0.
    Compare { mode: u32 },
    /// Pass Value through when Control > 0.5, else output 0.0.
    Gate,
    /// Boolean math. Op: 0=AND, 1=OR, 2=NOT (ignores B).
    BoolMath { op: u32 },
    /// 1.0 if the bone is touching any collider, 0.0 otherwise.
    IsColliding,
    /// Contact surface normal X/Y/Z.
    ContactNormal,
    /// Downward raycast hit distance and normal.
    RaycastDown,
    /// Persistent per-bone float.
    StateVar { index: u32 },
    /// Bone linear velocity X/Y/Z.
    BoneVelocity,
    /// Bone angular velocity X/Y/Z.
    BoneAngularVelocity,
    /// Bone world position X/Y/Z.
    BoneWorldPosition,
    /// Scalar speed (length of velocity vector).
    BoneSpeed,
    /// Shape property output.
    ShapeOutput,
    /// Bone property output: transform and physics forces.
    BoneOutput,
}

impl SdfNode {
    /// Display name of the node type.
    pub open spec fn name_spec(self) -> Seq<char> {
        match self {
            SdfNode::Time => "Time"@,
            SdfNode::SinOscillator { .. } => "Sin Oscillator"@,
            SdfNode::Constant { .. } => "Constant"@,
            SdfNode::ConstantVec3 { .. } => "Constant Vec3"@,
            SdfNode::Add => "Add"@,
            SdfNode::Multiply => "Multiply"@,
            SdfNode::Mix { .. } => "Mix"@,
            SdfNode::Clamp { .. } => "Clamp"@,
            SdfNode::Negate => "Negate"@,
            SdfNode::Vec3Compose => "Vec3 Compose"@,
            SdfNode::Vec3Decompose => "Vec3 Decompose"@,
            SdfNode::SquareWave { .. } => "Square Wave"@,
            SdfNode::TriangleWave { .. } => "Triangle Wave"@,
            SdfNode::SawtoothWave { .. } => "Sawtooth Wave"@,
            SdfNode::EaseInOut { .. } => "Ease In/Out"@,
            SdfNode::Remap { .. } => "Remap"@,
            SdfNode::Abs => "Abs"@,
            SdfNode::Modulo { .. } => "Modulo"@,
            SdfNode::CosinePalette => "Cosine Palette"@,
            SdfNode::ExpImpulse { .. } => "Exp Impulse"@,
            SdfNode::SmoothStep { .. } => "Smooth Step"@,
            SdfNode::Noise1D { .. } => "Noise 1D"@,
            SdfNode::Compare { .. } => "Compare"@,
            SdfNode::Gate => "Gate"@,
            SdfNode::BoolMath { .. } => "Bool Math"@,
            SdfNode::IsColliding => "Is Colliding"@,
            SdfNode::ContactNormal => "Contact Normal"@,
            SdfNode::RaycastDown => "Raycast Down"@,
            SdfNode::StateVar { .. } => "State Var"@,
            SdfNode::BoneVelocity => "Bone Velocity"@,
            SdfNode::BoneAngularVelocity => "Bone Angular Vel"@,
            SdfNode::BoneWorldPosition => "Bone World Pos"@,
            SdfNode::BoneSpeed => "Bone Speed"@,
            SdfNode::ShapeOutput => "Shape Output"@,
            SdfNode::BoneOutput => "Bone Output"@,
        }
    }

    /// Display name of the node type.
    pub fn name(&self) -> (r: &'static str)
        ensures
            r@ == self.name_spec(),
    {
        match self {
            SdfNode::Time => "Time",
            SdfNode::SinOscillator { .. } => "Sin Oscillator",
            SdfNode::Constant { .. } => "Constant",
            SdfNode::ConstantVec3 { .. } => "Constant Vec3",
            SdfNode::Add => "Add",
            SdfNode::Multiply => "Multiply",
            SdfNode::Mix { .. } => "Mix",
            SdfNode::Clamp { .. } => "Clamp",
            SdfNode::Negate => "Negate",
            SdfNode::Vec3Compose => "Vec3 Compose",
            SdfNode::Vec3Decompose => "Vec3 Decompose",
            SdfNode::SquareWave { .. } => "Square Wave",
            SdfNode::TriangleWave { .. } => "Triangle Wave",
            SdfNode::SawtoothWave { .. } => "Sawtooth Wave",
            SdfNode::EaseInOut { .. } => "Ease In/Out",
            SdfNode::Remap { .. } => "Remap",
            SdfNode::Abs => "Abs",
            SdfNode::Modulo { .. } => "Modulo",
            SdfNode::CosinePalette => "Cosine Palette",
            SdfNode::ExpImpulse { .. } => "Exp Impulse",
            SdfNode::SmoothStep { .. } => "Smooth Step",
            SdfNode::Noise1D { .. } => "Noise 1D",
            SdfNode::Compare { .. } => "Compare",
            SdfNode::Gate => "Gate",
            SdfNode::BoolMath { .. } => "Bool Math",
            SdfNode::IsColliding => "Is Colliding",
            SdfNode::ContactNormal => "Contact Normal",
            SdfNode::RaycastDown => "Raycast Down",
            SdfNode::StateVar { .. } => "State Var",
            SdfNode::BoneVelocity => "Bone Velocity",
            SdfNode::BoneAngularVelocity => "Bone Angular Vel",
            SdfNode::BoneWorldPosition => "Bone World Pos",
            SdfNode::BoneSpeed => "Bone Speed",
            SdfNode::ShapeOutput => "Shape Output",
            SdfNode::BoneOutput => "Bone Output",
        }
    }

    /// Number of input pins.
    pub open spec fn input_count_spec(self) -> nat {
        match self {
            SdfNode::Time => 0,
            SdfNode::SinOscillator { .. } => 4,
            SdfNode::Constant { .. } => 0,
            SdfNode::ConstantVec3 { .. } => 0,
            SdfNode::Add => 2,
            SdfNode::Multiply => 2,
            SdfNode::Mix { .. } => 3,
            SdfNode::Clamp { .. } => 3,
            SdfNode::Negate => 1,
            SdfNode::Vec3Compose => 3,
            SdfNode::Vec3Decompose => 1,
            SdfNode::SquareWave { .. } => 4,
            SdfNode::TriangleWave { .. } => 4,
            SdfNode::SawtoothWave { .. } => 4,
            SdfNode::EaseInOut { .. } => 2,
            SdfNode::Remap { .. } => 5,
            SdfNode::Abs => 1,
            SdfNode::Modulo { .. } => 2,
            SdfNode::CosinePalette => 5,
            SdfNode::ExpImpulse { .. } => 2,
            SdfNode::SmoothStep { .. } => 3,
            SdfNode::Noise1D { .. } => 2,
            SdfNode::Compare { .. } => 2,
            SdfNode::Gate => 2,
            SdfNode::BoolMath { .. } => 2,
            SdfNode::IsColliding => 0,
            SdfNode::ContactNormal => 0,
            SdfNode::RaycastDown => 0,
            SdfNode::StateVar { .. } => 2,
            SdfNode::BoneVelocity => 0,
            SdfNode::BoneAngularVelocity => 0,
            SdfNode::BoneWorldPosition => 0,
            SdfNode::BoneSpeed => 0,
            SdfNode::ShapeOutput => 27,
            SdfNode::BoneOutput => 13,
        }
    }

    /// Number of input pins.
    pub fn input_count(&self) -> (r: usize)
        ensures
            r as nat == self.input_count_spec(),
    {
        match self {
            SdfNode::Time => 0,
            SdfNode::SinOscillator { .. } => 4,
            SdfNode::Constant { .. } => 0,
            SdfNode::ConstantVec3 { .. } => 0,
            SdfNode::Add => 2,
            SdfNode::Multiply => 2,
            SdfNode::Mix { .. } => 3,
            SdfNode::Clamp { .. } => 3,
            SdfNode::Negate => 1,
            SdfNode::Vec3Compose => 3,
            SdfNode::Vec3Decompose => 1,
            SdfNode::SquareWave { .. } => 4,
            SdfNode::TriangleWave { .. } => 4,
            SdfNode::SawtoothWave { .. } => 4,
            SdfNode::EaseInOut { .. } => 2,
            SdfNode::Remap { .. } => 5,
            SdfNode::Abs => 1,
            SdfNode::Modulo { .. } => 2,
            SdfNode::CosinePalette => 5,
            SdfNode::ExpImpulse { .. } => 2,
            SdfNode::SmoothStep { .. } => 3,
            SdfNode::Noise1D { .. } => 2,
            SdfNode::Compare { .. } => 2,
            SdfNode::Gate => 2,
            SdfNode::BoolMath { .. } => 2,
            SdfNode::IsColliding => 0,
            SdfNode::ContactNormal => 0,
            SdfNode::RaycastDown => 0,
            SdfNode::StateVar { .. } => 2,
            SdfNode::BoneVelocity => 0,
            SdfNode::BoneAngularVelocity => 0,
            SdfNode::BoneWorldPosition => 0,
            SdfNode::BoneSpeed => 0,
            SdfNode::ShapeOutput => 27,
            SdfNode::BoneOutput => 13,
        }
    }

    /// Number of output pins.
    pub open spec fn output_count_spec(self) -> nat {
        match self {
            SdfNode::Time => 1,
            SdfNode::SinOscillator { .. } => 1,
            SdfNode::Constant { .. } => 1,
            SdfNode::ConstantVec3 { .. } => 1,
            SdfNode::Add => 1,
            SdfNode::Multiply => 1,
            SdfNode::Mix { .. } => 1,
            SdfNode::Clamp { .. } => 1,
            SdfNode::Negate => 1,
            SdfNode::Vec3Compose => 1,
            SdfNode::Vec3Decompose => 3,
            SdfNode::SquareWave { .. } => 1,
            SdfNode::TriangleWave { .. } => 1,
            SdfNode::SawtoothWave { .. } => 1,
            SdfNode::EaseInOut { .. } => 1,
            SdfNode::Remap { .. } => 1,
            SdfNode::Abs => 1,
            SdfNode::Modulo { .. } => 1,
            SdfNode::CosinePalette => 1,
            SdfNode::ExpImpulse { .. } => 1,
            SdfNode::SmoothStep { .. } => 1,
            SdfNode::Noise1D { .. } => 1,
            SdfNode::Compare { .. } => 1,
            SdfNode::Gate => 1,
            SdfNode::BoolMath { .. } => 1,
            SdfNode::IsColliding => 1,
            SdfNode::ContactNormal => 3,
            SdfNode::RaycastDown => 4,
            SdfNode::StateVar { .. } => 1,
            SdfNode::BoneVelocity => 3,
            SdfNode::BoneAngularVelocity => 3,
            SdfNode::BoneWorldPosition => 3,
            SdfNode::BoneSpeed => 1,
            SdfNode::ShapeOutput => 0,
            SdfNode::BoneOutput => 0,
        }
    }

    /// Number of output pins.
    pub fn output_count(&self) -> (r: usize)
        ensures
            r as nat == self.output_count_spec(),
    {
        match self {
            SdfNode::Time => 1,
            SdfNode::SinOscillator { .. } => 1,
            SdfNode::Constant { .. } => 1,
            SdfNode::ConstantVec3 { .. } => 1,
            SdfNode::Add => 1,
            SdfNode::Multiply => 1,
            SdfNode::Mix { .. } => 1,
            SdfNode::Clamp { .. } => 1,
            SdfNode::Negate => 1,
            SdfNode::Vec3Compose => 1,
            SdfNode::Vec3Decompose => 3,
            SdfNode::SquareWave { .. } => 1,
            SdfNode::TriangleWave { .. } => 1,
            SdfNode::SawtoothWave { .. } => 1,
            SdfNode::EaseInOut { .. } => 1,
            SdfNode::Remap { .. } => 1,
            SdfNode::Abs => 1,
            SdfNode::Modulo { .. } => 1,
            SdfNode::CosinePalette => 1,
            SdfNode::ExpImpulse { .. } => 1,
            SdfNode::SmoothStep { .. } => 1,
            SdfNode::Noise1D { .. } => 1,
            SdfNode::Compare { .. } => 1,
            SdfNode::Gate => 1,
            SdfNode::BoolMath { .. } => 1,
            SdfNode::IsColliding => 1,
            SdfNode::ContactNormal => 3,
            SdfNode::RaycastDown => 4,
            SdfNode::StateVar { .. } => 1,
            SdfNode::BoneVelocity => 3,
            SdfNode::BoneAngularVelocity => 3,
            SdfNode::BoneWorldPosition => 3,
            SdfNode::BoneSpeed => 1,
            SdfNode::ShapeOutput => 0,
            SdfNode::BoneOutput => 0,
        }
    }

    /// Label of input pin `index`.
    pub open spec fn input_label_spec(self, index: int) -> Seq<char> {
        match self {
            SdfNode::SinOscillator { .. } => if index == 0 { "Amplitude"@ } else if index == 1 { "Frequency"@ } else if index == 2 { "Phase"@ } else if index == 3 { "Time"@ } else { "?"@ },
            SdfNode::Add => if index == 0 { "A"@ } else if index == 1 { "B"@ } else { "?"@ },
            SdfNode::Multiply => if index == 0 { "A"@ } else if index == 1 { "B"@ } else { "?"@ },
            SdfNode::Mix { .. } => if index == 0 { "A"@ } else if index == 1 { "B"@ } else if index == 2 { "Factor"@ } else { "?"@ },
            SdfNode::Clamp { .. } => if index == 0 { "Value"@ } else if index == 1 { "Min"@ } else if index == 2 { "Max"@ } else { "?"@ },
            SdfNode::Negate => "Value"@,
            SdfNode::Vec3Compose => if index == 0 { "X"@ } else if index == 1 { "Y"@ } else if index == 2 { "Z"@ } else { "?"@ },
            SdfNode::Vec3Decompose => "Vec3"@,
            SdfNode::SquareWave { .. } => if index == 0 { "Amplitude"@ } else if index == 1 { "Frequency"@ } else if index == 2 { "Phase"@ } else if index == 3 { "Time"@ } else { "?"@ },
            SdfNode::TriangleWave { .. } => if index == 0 { "Amplitude"@ } else if index == 1 { "Frequency"@ } else if index == 2 { "Phase"@ } else if index == 3 { "Time"@ } else { "?"@ },
            SdfNode::SawtoothWave { .. } => if index == 0 { "Amplitude"@ } else if index == 1 { "Frequency"@ } else if index == 2 { "Phase"@ } else if index == 3 { "Time"@ } else { "?"@ },
            SdfNode::EaseInOut { .. } => if index == 0 { "Value"@ } else if index == 1 { "Exponent"@ } else { "?"@ },
            SdfNode::Remap { .. } => if index == 0 { "Value"@ } else if index == 1 { "In Min"@ } else if index == 2 { "In Max"@ } else if index == 3 { "Out Min"@ } else if index == 4 { "Out Max"@ } else { "?"@ },
            SdfNode::Abs => "Value"@,
            SdfNode::Modulo { .. } => if index == 0 { "Value"@ } else if index == 1 { "Divisor"@ } else { "?"@ },
            SdfNode::CosinePalette => if index == 0 { "t"@ } else if index == 1 { "a (bias)"@ } else if index == 2 { "b (amp)"@ } else if index == 3 { "c (freq)"@ } else if index == 4 { "d (phase)"@ } else { "?"@ },
            SdfNode::ExpImpulse { .. } => if index == 0 { "Value"@ } else if index == 1 { "K (sharpness)"@ } else { "?"@ },
            SdfNode::SmoothStep { .. } => if index == 0 { "Value"@ } else if index == 1 { "Edge 0"@ } else if index == 2 { "Edge 1"@ } else { "?"@ },
            SdfNode::Noise1D { .. } => if index == 0 { "Time"@ } else if index == 1 { "Frequency"@ } else { "?"@ },
            SdfNode::Compare { .. } => if index == 0 { "A"@ } else if index == 1 { "B"@ } else { "?"@ },
            SdfNode::Gate => if index == 0 { "Value"@ } else if index == 1 { "Control"@ } else { "?"@ },
            SdfNode::BoolMath { .. } => if index == 0 { "A"@ } else if index == 1 { "B"@ } else { "?"@ },
            SdfNode::StateVar { .. } => if index == 0 { "Write"@ } else if index == 1 { "Value"@ } else { "?"@ },
            SdfNode::ShapeOutput => if index == 0 { "Pos X"@ } else if index == 1 { "Pos Y"@ } else if index == 2 { "Pos Z"@ } else if index == 3 { "Rot X"@ } else if index == 4 { "Rot Y"@ } else if index == 5 { "Rot Z"@ } else if index == 6 { "Scale"@ } else if index == 7 { "Red"@ } else if index == 8 { "Green"@ } else if index == 9 { "Blue"@ } else if index == 10 { "Roughness"@ } else if index == 11 { "Metallic"@ } else if index == 12 { "Fresnel"@ } else if index == 13 { "Noise Amp"@ } else if index == 14 { "Noise Freq"@ } else if index == 15 { "Noise Oct"@ } else if index == 16 { "Symmetry"@ } else if index == 17 { "Rounding"@ } else if index == 18 { "Onion"@ } else if index == 19 { "Twist"@ } else if index == 20 { "Bend"@ } else if index == 21 { "Elongate X"@ } else if index == 22 { "Elongate Y"@ } else if index == 23 { "Elongate Z"@ } else if index == 24 { "Repeat X"@ } else if index == 25 { "Repeat Y"@ } else if index == 26 { "Repeat Z"@ } else { "?"@ },
            SdfNode::BoneOutput => if index == 0 { "Pos X"@ } else if index == 1 { "Pos Y"@ } else if index == 2 { "Pos Z"@ } else if index == 3 { "Rot X"@ } else if index == 4 { "Rot Y"@ } else if index == 5 { "Rot Z"@ } else if index == 6 { "Scale"@ } else if index == 7 { "Force X"@ } else if index == 8 { "Force Y"@ } else if index == 9 { "Force Z"@ } else if index == 10 { "Torque X"@ } else if index == 11 { "Torque Y"@ } else if index == 12 { "Torque Z"@ } else { "?"@ },
            _ => "In"@,
        }
    }

    /// Label of input pin `index`.
    pub fn input_label(&self, index: usize) -> (r: &'static str)
        ensures
            r@ == self.input_label_spec(index as int),
    {
        match self {
            SdfNode::SinOscillator { .. } => if index == 0 { "Amplitude" } else if index == 1 { "Frequency" } else if index == 2 { "Phase" } else if index == 3 { "Time" } else { "?" },
            SdfNode::Add => if index == 0 { "A" } else if index == 1 { "B" } else { "?" },
            SdfNode::Multiply => if index == 0 { "A" } else if index == 1 { "B" } else { "?" },
            SdfNode::Mix { .. } => if index == 0 { "A" } else if index == 1 { "B" } else if index == 2 { "Factor" } else { "?" },
            SdfNode::Clamp { .. } => if index == 0 { "Value" } else if index == 1 { "Min" } else if index == 2 { "Max" } else { "?" },
            SdfNode::Negate => "Value",
            SdfNode::Vec3Compose => if index == 0 { "X" } else if index == 1 { "Y" } else if index == 2 { "Z" } else { "?" },
            SdfNode::Vec3Decompose => "Vec3",
            SdfNode::SquareWave { .. } => if index == 0 { "Amplitude" } else if index == 1 { "Frequency" } else if index == 2 { "Phase" } else if index == 3 { "Time" } else { "?" },
            SdfNode::TriangleWave { .. } => if index == 0 { "Amplitude" } else if index == 1 { "Frequency" } else if index == 2 { "Phase" } else if index == 3 { "Time" } else { "?" },
            SdfNode::SawtoothWave { .. } => if index == 0 { "Amplitude" } else if index == 1 { "Frequency" } else if index == 2 { "Phase" } else if index == 3 { "Time" } else { "?" },
            SdfNode::EaseInOut { .. } => if index == 0 { "Value" } else if index == 1 { "Exponent" } else { "?" },
            SdfNode::Remap { .. } => if index == 0 { "Value" } else if index == 1 { "In Min" } else if index == 2 { "In Max" } else if index == 3 { "Out Min" } else if index == 4 { "Out Max" } else { "?" },
            SdfNode::Abs => "Value",
            SdfNode::Modulo { .. } => if index == 0 { "Value" } else if index == 1 { "Divisor" } else { "?" },
            SdfNode::CosinePalette => if index == 0 { "t" } else if index == 1 { "a (bias)" } else if index == 2 { "b (amp)" } else if index == 3 { "c (freq)" } else if index == 4 { "d (phase)" } else { "?" },
            SdfNode::ExpImpulse { .. } => if index == 0 { "Value" } else if index == 1 { "K (sharpness)" } else { "?" },
            SdfNode::SmoothStep { .. } => if index == 0 { "Value" } else if index == 1 { "Edge 0" } else if index == 2 { "Edge 1" } else { "?" },
            SdfNode::Noise1D { .. } => if index == 0 { "Time" } else if index == 1 { "Frequency" } else { "?" },
            SdfNode::Compare { .. } => if index == 0 { "A" } else if index == 1 { "B" } else { "?" },
            SdfNode::Gate => if index == 0 { "Value" } else if index == 1 { "Control" } else { "?" },
            SdfNode::BoolMath { .. } => if index == 0 { "A" } else if index == 1 { "B" } else { "?" },
            SdfNode::StateVar { .. } => if index == 0 { "Write" } else if index == 1 { "Value" } else { "?" },
            SdfNode::ShapeOutput => if index == 0 { "Pos X" } else if index == 1 { "Pos Y" } else if index == 2 { "Pos Z" } else if index == 3 { "Rot X" } else if index == 4 { "Rot Y" } else if index == 5 { "Rot Z" } else if index == 6 { "Scale" } else if index == 7 { "Red" } else if index == 8 { "Green" } else if index == 9 { "Blue" } else if index == 10 { "Roughness" } else if index == 11 { "Metallic" } else if index == 12 { "Fresnel" } else if index == 13 { "Noise Amp" } else if index == 14 { "Noise Freq" } else if index == 15 { "Noise Oct" } else if index == 16 { "Symmetry" } else if index == 17 { "Rounding" } else if index == 18 { "Onion" } else if index == 19 { "Twist" } else if index == 20 { "Bend" } else if index == 21 { "Elongate X" } else if index == 22 { "Elongate Y" } else if index == 23 { "Elongate Z" } else if index == 24 { "Repeat X" } else if index == 25 { "Repeat Y" } else if index == 26 { "Repeat Z" } else { "?" },
            SdfNode::BoneOutput => if index == 0 { "Pos X" } else if index == 1 { "Pos Y" } else if index == 2 { "Pos Z" } else if index == 3 { "Rot X" } else if index == 4 { "Rot Y" } else if index == 5 { "Rot Z" } else if index == 6 { "Scale" } else if index == 7 { "Force X" } else if index == 8 { "Force Y" } else if index == 9 { "Force Z" } else if index == 10 { "Torque X" } else if index == 11 { "Torque Y" } else if index == 12 { "Torque Z" } else { "?" },
            _ => "In",
        }
    }

    /// Label of output pin `index`.
    pub open spec fn output_label_spec(self, index: int) -> Seq<char> {
        match self {
            SdfNode::Time => "Seconds"@,
            SdfNode::SinOscillator { .. } => "Value"@,
            SdfNode::Constant { .. } => "Value"@,
            SdfNode::ConstantVec3 { .. } => "Vec3"@,
            SdfNode::Add => "Result"@,
            SdfNode::Multiply => "Result"@,
            SdfNode::Mix { .. } => "Result"@,
            SdfNode::Clamp { .. } => "Result"@,
            SdfNode::Negate => "Result"@,
            SdfNode::Vec3Compose => "Vec3"@,
            SdfNode::Vec3Decompose => if index == 0 { "X"@ } else if index == 1 { "Y"@ } else if index == 2 { "Z"@ } else { "?"@ },
            SdfNode::SquareWave { .. } => "Result"@,
            SdfNode::TriangleWave { .. } => "Result"@,
            SdfNode::SawtoothWave { .. } => "Result"@,
            SdfNode::EaseInOut { .. } => "Result"@,
            SdfNode::Remap { .. } => "Result"@,
            SdfNode::Abs => "Result"@,
            SdfNode::Modulo { .. } => "Result"@,
            SdfNode::CosinePalette => "Color"@,
            SdfNode::ExpImpulse { .. } => "Result"@,
            SdfNode::SmoothStep { .. } => "Result"@,
            SdfNode::Noise1D { .. } => "Result"@,
            SdfNode::Compare { .. } => "Result"@,
            SdfNode::Gate => "Result"@,
            SdfNode::BoolMath { .. } => "Result"@,
            SdfNode::IsColliding => "Result"@,
            SdfNode::ContactNormal => if index == 0 { "X"@ } else if index == 1 { "Y"@ } else if index == 2 { "Z"@ } else { "?"@ },
            SdfNode::RaycastDown => if index == 0 { "Distance"@ } else if index == 1 { "Normal X"@ } else if index == 2 { "Normal Y"@ } else if index == 3 { "Normal Z"@ } else { "?"@ },
            SdfNode::StateVar { .. } => "Result"@,
            SdfNode::BoneVelocity => if index == 0 { "X"@ } else if index == 1 { "Y"@ } else if index == 2 { "Z"@ } else { "?"@ },
            SdfNode::BoneAngularVelocity => if index == 0 { "X"@ } else if index == 1 { "Y"@ } else if index == 2 { "Z"@ } else { "?"@ },
            SdfNode::BoneWorldPosition => if index == 0 { "X"@ } else if index == 1 { "Y"@ } else if index == 2 { "Z"@ } else { "?"@ },
            SdfNode::BoneSpeed => "Speed"@,
            SdfNode::ShapeOutput => "?"@,
            SdfNode::BoneOutput => "?"@,
        }
    }

    /// Label of output pin `index`.
    pub fn output_label(&self, index: usize) -> (r: &'static str)
        ensures
            r@ == self.output_label_spec(index as int),
    {
        match self {
            SdfNode::Time => "Seconds",
            SdfNode::SinOscillator { .. } => "Value",
            SdfNode::Constant { .. } => "Value",
            SdfNode::ConstantVec3 { .. } => "Vec3",
            SdfNode::Add => "Result",
            SdfNode::Multiply => "Result",
            SdfNode::Mix { .. } => "Result",
            SdfNode::Clamp { .. } => "Result",
            SdfNode::Negate => "Result",
            SdfNode::Vec3Compose => "Vec3",
            SdfNode::Vec3Decompose => if index == 0 { "X" } else if index == 1 { "Y" } else if index == 2 { "Z" } else { "?" },
            SdfNode::SquareWave { .. } => "Result",
            SdfNode::TriangleWave { .. } => "Result",
            SdfNode::SawtoothWave { .. } => "Result",
            SdfNode::EaseInOut { .. } => "Result",
            SdfNode::Remap { .. } => "Result",
            SdfNode::Abs => "Result",
            SdfNode::Modulo { .. } => "Result",
            SdfNode::CosinePalette => "Color",
            SdfNode::ExpImpulse { .. } => "Result",
            SdfNode::SmoothStep { .. } => "Result",
            SdfNode::Noise1D { .. } => "Result",
            SdfNode::Compare { .. } => "Result",
            SdfNode::Gate => "Result",
            SdfNode::BoolMath { .. } => "Result",
            SdfNode::IsColliding => "Result",
            SdfNode::ContactNormal => if index == 0 { "X" } else if index == 1 { "Y" } else if index == 2 { "Z" } else { "?" },
            SdfNode::RaycastDown => if index == 0 { "Distance" } else if index == 1 { "Normal X" } else if index == 2 { "Normal Y" } else if index == 3 { "Normal Z" } else { "?" },
            SdfNode::StateVar { .. } => "Result",
            SdfNode::BoneVelocity => if index == 0 { "X" } else if index == 1 { "Y" } else if index == 2 { "Z" } else { "?" },
            SdfNode::BoneAngularVelocity => if index == 0 { "X" } else if index == 1 { "Y" } else if index == 2 { "Z" } else { "?" },
            SdfNode::BoneWorldPosition => if index == 0 { "X" } else if index == 1 { "Y" } else if index == 2 { "Z" } else { "?" },
            SdfNode::BoneSpeed => "Speed",
            SdfNode::ShapeOutput => "?",
            SdfNode::BoneOutput => "?",
        }
    }

    /// Tooltip text of the node type.
    pub open spec fn description_spec(self) -> Seq<char> {
        match self {
            SdfNode::Time => "Outputs elapsed time in seconds."@,
            SdfNode::SinOscillator { .. } => "Sine wave: amplitude * sin(time * frequency * TAU + phase)."@,
            SdfNode::Constant { .. } => "Outputs a constant float value."@,
            SdfNode::ConstantVec3 { .. } => "Outputs a constant Vec3 value."@,
            SdfNode::Add => "Adds two float values (A + B)."@,
            SdfNode::Multiply => "Multiplies two float values (A * B)."@,
            SdfNode::Mix { .. } => "Linear interpolation: A*(1-f) + B*f."@,
            SdfNode::Clamp { .. } => "Clamps value to [min, max] range."@,
            SdfNode::Negate => "Negates a float value (-V)."@,
            SdfNode::Vec3Compose => "Composes three floats into a Vec3."@,
            SdfNode::Vec3Decompose => "Decomposes a Vec3 into X, Y, Z floats."@,
            SdfNode::SquareWave { .. } => "Square wave oscillator (\u{b1}amplitude)."@,
            SdfNode::TriangleWave { .. } => "Triangle wave oscillator."@,
            SdfNode::SawtoothWave { .. } => "Sawtooth wave oscillator."@,
            SdfNode::EaseInOut { .. } => "Cubic ease in/out curve."@,
            SdfNode::Remap { .. } => "Remaps value from [in_min,in_max] to [out_min,out_max]."@,
            SdfNode::Abs => "Absolute value of a float."@,
            SdfNode::Modulo { .. } => "Modulo (wrapping) operation."@,
            SdfNode::CosinePalette => "Cosine color palette: a + b*cos(2\u{3c0}(c*t + d))."@,
            SdfNode::ExpImpulse { .. } => "Exponential impulse: sharp attack, smooth decay."@,
            SdfNode::SmoothStep { .. } => "Hermite smoothstep interpolation."@,
            SdfNode::Noise1D { .. } => "1D hash-based noise sampled at time * frequency."@,
            SdfNode::Compare { .. } => "Compares A and B. Outputs true (1) or false (0)."@,
            SdfNode::Gate => "Passes Value when Control is true, else outputs 0."@,
            SdfNode::BoolMath { .. } => "Boolean logic: AND, OR, or NOT."@,
            SdfNode::IsColliding => "True if this bone is touching any surface."@,
            SdfNode::ContactNormal => "Surface contact normal direction (X, Y, Z)."@,
            SdfNode::RaycastDown => "Downward raycast: distance to ground and hit normal."@,
            SdfNode::StateVar { .. } => "Persistent per-bone float. Stores value across frames."@,
            SdfNode::BoneVelocity => "Bone linear velocity (X, Y, Z) from physics."@,
            SdfNode::BoneAngularVelocity => "Bone angular velocity (X, Y, Z) from physics."@,
            SdfNode::BoneWorldPosition => "Bone world position (X, Y, Z) from physics."@,
            SdfNode::BoneSpeed => "Scalar speed (length of velocity vector)."@,
            SdfNode::ShapeOutput => "Writes values to shape properties (color, material, etc)."@,
            SdfNode::BoneOutput => "Writes values to bone transform and physics forces."@,
        }
    }

    /// Tooltip text of the node type.
    pub fn description(&self) -> (r: &'static str)
        ensures
            r@ == self.description_spec(),
    {
        match self {
            SdfNode::Time => "Outputs elapsed time in seconds.",
            SdfNode::SinOscillator { .. } => "Sine wave: amplitude * sin(time * frequency * TAU + phase).",
            SdfNode::Constant { .. } => "Outputs a constant float value.",
            SdfNode::ConstantVec3 { .. } => "Outputs a constant Vec3 value.",
            SdfNode::Add => "Adds two float values (A + B).",
            SdfNode::Multiply => "Multiplies two float values (A * B).",
            SdfNode::Mix { .. } => "Linear interpolation: A*(1-f) + B*f.",
            SdfNode::Clamp { .. } => "Clamps value to [min, max] range.",
            SdfNode::Negate => "Negates a float value (-V).",
            SdfNode::Vec3Compose => "Composes three floats into a Vec3.",
            SdfNode::Vec3Decompose => "Decomposes a Vec3 into X, Y, Z floats.",
            SdfNode::SquareWave { .. } => "Square wave oscillator (\u{b1}amplitude).",
            SdfNode::TriangleWave { .. } => "Triangle wave oscillator.",
            SdfNode::SawtoothWave { .. } => "Sawtooth wave oscillator.",
            SdfNode::EaseInOut { .. } => "Cubic ease in/out curve.",
            SdfNode::Remap { .. } => "Remaps value from [in_min,in_max] to [out_min,out_max].",
            SdfNode::Abs => "Absolute value of a float.",
            SdfNode::Modulo { .. } => "Modulo (wrapping) operation.",
            SdfNode::CosinePalette => "Cosine color palette: a + b*cos(2\u{3c0}(c*t + d)).",
            SdfNode::ExpImpulse { .. } => "Exponential impulse: sharp attack, smooth decay.",
            SdfNode::SmoothStep { .. } => "Hermite smoothstep interpolation.",
            SdfNode::Noise1D { .. } => "1D hash-based noise sampled at time * frequency.",
            SdfNode::Compare { .. } => "Compares A and B. Outputs true (1) or false (0).",
            SdfNode::Gate => "Passes Value when Control is true, else outputs 0.",
            SdfNode::BoolMath { .. } => "Boolean logic: AND, OR, or NOT.",
            SdfNode::IsColliding => "True if this bone is touching any surface.",
            SdfNode::ContactNormal => "Surface contact normal direction (X, Y, Z).",
            SdfNode::RaycastDown => "Downward raycast: distance to ground and hit normal.",
            SdfNode::StateVar { .. } => "Persistent per-bone float. Stores value across frames.",
            SdfNode::BoneVelocity => "Bone linear velocity (X, Y, Z) from physics.",
            SdfNode::BoneAngularVelocity => "Bone angular velocity (X, Y, Z) from physics.",
            SdfNode::BoneWorldPosition => "Bone world position (X, Y, Z) from physics.",
            SdfNode::BoneSpeed => "Scalar speed (length of velocity vector).",
            SdfNode::ShapeOutput => "Writes values to shape properties (color, material, etc).",
            SdfNode::BoneOutput => "Writes values to bone transform and physics forces.",
        }
    }
}

/// Every declared input pin has a label of its own (not the `"?"` placeholder).
pub proof fn law_input_labels_defined(n: SdfNode, index: int)
    requires
        0 <= index < n.input_count_spec(),
    ensures
        n.input_label_spec(index) != "?"@,
{
    reveal_strlit("?");
    reveal_strlit("A");
    reveal_strlit("Amplitude");
    reveal_strlit("B");
    reveal_strlit("Bend");
    reveal_strlit("Blue");
    reveal_strlit("Control");
    reveal_strlit("Divisor");
    reveal_strlit("Edge 0");
    reveal_strlit("Edge 1");
    reveal_strlit("Elongate X");
    reveal_strlit("Elongate Y");
    reveal_strlit("Elongate Z");
    reveal_strlit("Exponent");
    reveal_strlit("Factor");
    reveal_strlit("Force X");
    reveal_strlit("Force Y");
    reveal_strlit("Force Z");
    reveal_strlit("Frequency");
    reveal_strlit("Fresnel");
    reveal_strlit("Green");
    reveal_strlit("In");
    reveal_strlit("In Max");
    reveal_strlit("In Min");
    reveal_strlit("K (sharpness)");
    reveal_strlit("Max");
    reveal_strlit("Metallic");
    reveal_strlit("Min");
    reveal_strlit("Noise Amp");
    reveal_strlit("Noise Freq");
    reveal_strlit("Noise Oct");
    reveal_strlit("Onion");
    reveal_strlit("Out Max");
    reveal_strlit("Out Min");
    reveal_strlit("Phase");
    reveal_strlit("Pos X");
    reveal_strlit("Pos Y");
    reveal_strlit("Pos Z");
    reveal_strlit("Red");
    reveal_strlit("Repeat X");
    reveal_strlit("Repeat Y");
    reveal_strlit("Repeat Z");
    reveal_strlit("Rot X");
    reveal_strlit("Rot Y");
    reveal_strlit("Rot Z");
    reveal_strlit("Roughness");
    reveal_strlit("Rounding");
    reveal_strlit("Scale");
    reveal_strlit("Symmetry");
    reveal_strlit("Time");
    reveal_strlit("Torque X");
    reveal_strlit("Torque Y");
    reveal_strlit("Torque Z");
    reveal_strlit("Twist");
    reveal_strlit("Value");
    reveal_strlit("Vec3");
    reveal_strlit("Write");
    reveal_strlit("X");
    reveal_strlit("Y");
    reveal_strlit("Z");
    reveal_strlit("a (bias)");
    reveal_strlit("b (amp)");
    reveal_strlit("c (freq)");
    reveal_strlit("d (phase)");
    reveal_strlit("t");
    assert(n.input_label_spec(index)[0] != "?"@[0]);
}

/// Every declared output pin has a label of its own (not the `"?"` placeholder).
pub proof fn law_output_labels_defined(n: SdfNode, index: int)
    requires
        0 <= index < n.output_count_spec(),
    ensures
        n.output_label_spec(index) != "?"@,
{
    reveal_strlit("?");
    reveal_strlit("Color");
    reveal_strlit("Distance");
    reveal_strlit("Normal X");
    reveal_strlit("Normal Y");
    reveal_strlit("Normal Z");
    reveal_strlit("Result");
    reveal_strlit("Seconds");
    reveal_strlit("Speed");
    reveal_strlit("Value");
    reveal_strlit("Vec3");
    reveal_strlit("X");
    reveal_strlit("Y");
    reveal_strlit("Z");
    assert(n.output_label_spec(index)[0] != "?"@[0]);
}


/// Kind of value a pin carries.  All are numbers underneath; `Bool` and `Int` mark intent.
#[derive(Debug, Clone, Copy, PartialEq, Eq)]
pub enum PinType {
    Float,
    Vec3,
    Bool,
    Int,
}

impl PinType {
    /// Two pin types can be connected: equal types, or any two scalar types (Float, Bool,
    /// Int), which convert into each other.
    pub open spec fn compatible_spec(from: PinType, to: PinType) -> bool {
        from == to || (from != PinType::Vec3 && to != PinType::Vec3)
    }

    /// Whether an output of type `from` can feed an input of type `to`.
    pub fn compatible(from: PinType, to: PinType) -> (r: bool)
        ensures
            r == Self::compatible_spec(from, to),
    {
        match (from, to) {
            (PinType::Float, PinType::Float) | (PinType::Vec3, PinType::Vec3) | (PinType::Bool, PinType::Bool)
            | (PinType::Int, PinType::Int) | (PinType::Bool, PinType::Float) | (PinType::Float, PinType::Bool)
            | (PinType::Int, PinType::Float) | (PinType::Float, PinType::Int) | (PinType::Bool, PinType::Int)
            | (PinType::Int, PinType::Bool) => true,
            _ => false,
        }
    }
}

/// Compatibility is reflexive and symmetric, and a Vec3 pin connects to Vec3 pins only.
pub proof fn law_compatible(a: PinType, b: PinType)
    ensures
        PinType::compatible_spec(a, a),
        PinType::compatible_spec(a, b) == PinType::compatible_spec(b, a),
        (a == PinType::Vec3 && PinType::compatible_spec(a, b)) ==> b == PinType::Vec3,
{
}

impl SdfNode {
    /// Type of input pin `index`.
    pub open spec fn input_type_spec(self, index: int) -> PinType {
        match self {
            SdfNode::Vec3Decompose => PinType::Vec3,
            SdfNode::CosinePalette => if index >= 1 { PinType::Vec3 } else { PinType::Float },
            SdfNode::Gate => if index == 1 { PinType::Bool } else { PinType::Float },
            SdfNode::BoolMath { .. } => PinType::Bool,
            _ => PinType::Float,
        }
    }

    /// Type of input pin `index`.
    pub fn input_type(&self, index: usize) -> (r: PinType)
        ensures
            r == self.input_type_spec(index as int),
    {
        match self {
            SdfNode::Vec3Decompose => PinType::Vec3,
            SdfNode::CosinePalette if index >= 1 => PinType::Vec3,
            SdfNode::Gate if index == 1 => PinType::Bool,
            SdfNode::BoolMath { .. } => PinType::Bool,
            SdfNode::ShapeOutput | SdfNode::BoneOutput => PinType::Float,
            _ => PinType::Float,
        }
    }

    /// Type of the node's output pins.
    pub open spec fn output_type_spec(self) -> PinType {
        match self {
            SdfNode::ConstantVec3 { .. } | SdfNode::Vec3Compose | SdfNode::CosinePalette => PinType::Vec3,
            SdfNode::Compare { .. } | SdfNode::BoolMath { .. } | SdfNode::IsColliding => PinType::Bool,
            _ => PinType::Float,
        }
    }

    /// Type of output pin `index` (the same for every output of a node).
    pub fn output_type(&self, index: usize) -> (r: PinType)
        ensures
            r == self.output_type_spec(),
    {
        match self {
            SdfNode::ConstantVec3 { .. } | SdfNode::Vec3Compose | SdfNode::CosinePalette => PinType::Vec3,
            SdfNode::Compare { .. } | SdfNode::BoolMath { .. } | SdfNode::IsColliding => PinType::Bool,
            _ => PinType::Float,
        }
    }

    /// Whether the node reads the bone's simulated motion (meaningful in bone graphs only).
    pub fn is_physics_node(&self) -> (r: bool)
        ensures
            r == (*self is BoneVelocity || *self is BoneAngularVelocity || *self is BoneWorldPosition
                || *self is BoneSpeed),
    {
        match self {
            SdfNode::BoneVelocity | SdfNode::BoneAngularVelocity | SdfNode::BoneWorldPosition | SdfNode::BoneSpeed => true,
            _ => false,
        }
    }
}

} // verus!
