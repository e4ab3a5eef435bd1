//! Starter animation graphs the node editor offers: which nodes, where the editor draws
//! them, and how they are wired.  Numbers are encoded `f32` values.
use vstd::prelude::*;
use crate::bits::{HALF, ONE, ZERO, F_0_3};
use crate::nodes::SdfNode;
use crate::wiring::{accepts, InPinId, OutPinId, Wire};

verus! {

/// A node of a graph and where the editor draws it, `[x, y]`.
#[derive(Debug, Clone, Copy, PartialEq, Eq)]
pub struct PlacedNode {
    pub pos: [u32; 2],
    pub node: SdfNode,
}

/// An animation graph: its nodes, numbered from 0 in order, and its wires.
#[derive(Debug, Clone)]
pub struct NodeGraph {
    pub nodes: Vec<PlacedNode>,
    pub wires: Vec<Wire>,
}

/// Editor coordinates used to place preset nodes.
pub const C50: u32 = 0x4248_0000;
pub const C100: u32 = 0x42c8_0000;
pub const C150: u32 = 0x4316_0000;
pub const C200: u32 = 0x4348_0000;
pub const C250: u32 = 0x437a_0000;
pub const C300: u32 = 0x4396_0000;
pub const C350: u32 = 0x43af_0000;
pub const C400: u32 = 0x43c8_0000;
pub const C450: u32 = 0x43e1_0000;
pub const C500: u32 = 0x43fa_0000;
pub const C650: u32 = 0x4422_8000;

/// π/2, the phase of the orbit's second oscillator.
pub const FRAC_PI_2: u32 = 0x3fc9_0fdb;
/// τ/3 and 2τ/3, the phases of the colour cycle's green and blue oscillators.
pub const TAU_THIRD: u32 = 0x4006_0a92;
pub const TWO_TAU_THIRDS: u32 = 0x4086_0a92;

/// The node types of a graph's nodes, in order.
pub open spec fn kinds(nodes: Seq<PlacedNode>) -> Seq<SdfNode> {
    nodes.map_values(|p: PlacedNode| p.node)
}

/// Every wire joins an existing output of an existing node to an existing input of an
/// existing node, is a connection the editor accepts, and no input has two sources.
pub open spec fn well_wired(nodes: Seq<SdfNode>, wires: Seq<Wire>) -> bool {
    &&& forall|i: int| 0 <= i < wires.len() ==> {
        let w = #[trigger] wires[i];
        &&& w.out_pin.node < nodes.len()
        &&& w.in_pin.node < nodes.len()
        &&& w.out_pin.output < nodes[w.out_pin.node as int].output_count_spec()
        &&& w.in_pin.input < nodes[w.in_pin.node as int].input_count_spec()
        &&& accepts(nodes, w.out_pin, w.in_pin)
    }
    &&& forall|i: int, j: int| 0 <= i < j < wires.len() ==> (#[trigger] wires[i]).in_pin != (#[trigger] wires[j]).in_pin
}

/// Node `node` drawn at `(x, y)`.
pub open spec fn at(x: u32, y: u32, node: SdfNode) -> PlacedNode {
    PlacedNode { pos: [x, y], node }
}

/// A wire from output `output` of node `from` to input `input` of node `to`.
pub open spec fn wire(from: usize, output: usize, to: usize, input: usize) -> Wire {
    Wire { out_pin: OutPinId { node: from, output }, in_pin: InPinId { node: to, input } }
}

fn place(x: u32, y: u32, node: SdfNode) -> (r: PlacedNode)
    ensures
        r == at(x, y, node),
{
    PlacedNode { pos: [x, y], node }
}

fn join(from: usize, output: usize, to: usize, input: usize) -> (r: Wire)
    ensures
        r == wire(from, output, to, input),
{
    Wire { out_pin: OutPinId { node: from, output }, in_pin: InPinId { node: to, input } }
}

/// A sine oscillator with the given amplitude, frequency and phase.
pub open spec fn osc(amplitude: u32, frequency: u32, phase: u32) -> SdfNode {
    SdfNode::SinOscillator { amplitude, frequency, phase }
}

/// The graph a new shape starts with: a gentle bob (amplitude 0.3, frequency 0.5).
pub fn create_starter_graph() -> (g: NodeGraph)
    ensures
        g.nodes@ == bob_nodes(F_0_3, HALF, ZERO, SdfNode::ShapeOutput),
        g.wires@ == bob_wires(),
        well_wired(kinds(g.nodes@), g.wires@),
{
    bob_preset(F_0_3, HALF)
}

/// Nodes of the bob graphs: time, an oscillator of phase `phase`, and the output `out`.
pub open spec fn bob_nodes(amplitude: u32, frequency: u32, phase: u32, out: SdfNode) -> Seq<PlacedNode> {
    seq![at(C50, C150, SdfNode::Time), at(C250, C100, osc(amplitude, frequency, phase)), at(C500, C200, out)]
}

/// Wires of the bob graphs: time into the oscillator, the oscillator into position Y.
pub open spec fn bob_wires() -> Seq<Wire> {
    seq![wire(0, 0, 1, 3), wire(1, 0, 2, 1)]
}

/// Vertical bobbing of a shape: a sine of time drives position Y.
pub fn bob_preset(amplitude: u32, frequency: u32) -> (g: NodeGraph)
    ensures
        g.nodes@ == bob_nodes(amplitude, frequency, ZERO, SdfNode::ShapeOutput),
        g.wires@ == bob_wires(),
        well_wired(kinds(g.nodes@), g.wires@),
{
    bob_with(amplitude, frequency, ZERO, SdfNode::ShapeOutput)
}

/// Vertical bobbing of a bone: a sine of time drives position Y.
pub fn bone_bob_preset(amplitude: u32, frequency: u32) -> (g: NodeGraph)
    ensures
        g.nodes@ == bob_nodes(amplitude, frequency, ZERO, SdfNode::BoneOutput),
        g.wires@ == bob_wires(),
        well_wired(kinds(g.nodes@), g.wires@),
{
    bob_with(amplitude, frequency, ZERO, SdfNode::BoneOutput)
}

/// A bob graph whose oscillator has phase `phase`, driving the output `out`.
pub fn bob_with(amplitude: u32, frequency: u32, phase: u32, out: SdfNode) -> (g: NodeGraph)
    requires
        out is ShapeOutput || out is BoneOutput,
    ensures
        g.nodes@ == bob_nodes(amplitude, frequency, phase, out),
        g.wires@ == bob_wires(),
        well_wired(kinds(g.nodes@), g.wires@),
{
    let nodes = vec![
        place(C50, C150, SdfNode::Time),
        place(C250, C100, SdfNode::SinOscillator { amplitude, frequency, phase }),
        place(C500, C200, out),
    ];
    let wires = vec![join(0, 0, 1, 3), join(1, 0, 2, 1)];
    assert(nodes@ =~= bob_nodes(amplitude, frequency, phase, out));
    assert(wires@ =~= bob_wires());
    NodeGraph { nodes, wires }
}

/// Nodes of the spin graphs: time, the speed in degrees per second, their product, and
/// the output `out`.
pub open spec fn spin_nodes(degrees_per_second: u32, out: SdfNode) -> Seq<PlacedNode> {
    seq![
        at(C50, C150, SdfNode::Time),
        at(C50, C250, SdfNode::Constant { value: degrees_per_second }),
        at(C250, C200, SdfNode::Multiply),
        at(C500, C200, out),
    ]
}

/// Wires of the spin graphs: time times speed drives rotation Y.
pub open spec fn spin_wires() -> Seq<Wire> {
    seq![wire(0, 0, 2, 0), wire(1, 0, 2, 1), wire(2, 0, 3, 4)]
}

/// Rotation of a shape about Y at a steady speed.
pub fn spin_preset(degrees_per_second: u32) -> (g: NodeGraph)
    ensures
        g.nodes@ == spin_nodes(degrees_per_second, SdfNode::ShapeOutput),
        g.wires@ == spin_wires(),
        well_wired(kinds(g.nodes@), g.wires@),
{
    spin_with(degrees_per_second, SdfNode::ShapeOutput)
}

/// Rotation of a bone about Y at a steady speed.
pub fn bone_spin_preset(degrees_per_second: u32) -> (g: NodeGraph)
    ensures
        g.nodes@ == spin_nodes(degrees_per_second, SdfNode::BoneOutput),
        g.wires@ == spin_wires(),
        well_wired(kinds(g.nodes@), g.wires@),
{
    spin_with(degrees_per_second, SdfNode::BoneOutput)
}

fn spin_with(degrees_per_second: u32, out: SdfNode) -> (g: NodeGraph)
    requires
        out is ShapeOutput || out is BoneOutput,
    ensures
        g.nodes@ == spin_nodes(degrees_per_second, out),
        g.wires@ == spin_wires(),
        well_wired(kinds(g.nodes@), g.wires@),
{
    let nodes = vec![
        place(C50, C150, SdfNode::Time),
        place(C50, C250, SdfNode::Constant { value: degrees_per_second }),
        place(C250, C200, SdfNode::Multiply),
        place(C500, C200, out),
    ];
    let wires = vec![join(0, 0, 2, 0), join(1, 0, 2, 1), join(2, 0, 3, 4)];
    assert(nodes@ =~= spin_nodes(degrees_per_second, out));
    assert(wires@ =~= spin_wires());
    NodeGraph { nodes, wires }
}

/// Nodes of the pulse graph: time, an oscillator, the base scale one, their sum, and the
/// shape output.
pub open spec fn pulse_nodes(amplitude: u32, frequency: u32) -> Seq<PlacedNode> {
    seq![
        at(C50, C150, SdfNode::Time),
        at(C250, C100, osc(amplitude, frequency, ZERO)),
        at(C250, C250, SdfNode::Constant { value: ONE }),
        at(C450, C150, SdfNode::Add),
        at(C650, C200, SdfNode::ShapeOutput),
    ]
}

/// Wires of the pulse graph: one plus a sine of time drives the scale.
pub open spec fn pulse_wires() -> Seq<Wire> {
    seq![wire(0, 0, 1, 3), wire(1, 0, 3, 0), wire(2, 0, 3, 1), wire(3, 0, 4, 6)]
}

/// Breathing scale: the scale oscillates around one.
pub fn pulse_preset(amplitude: u32, frequency: u32) -> (g: NodeGraph)
    ensures
        g.nodes@ == pulse_nodes(amplitude, frequency),
        g.wires@ == pulse_wires(),
        well_wired(kinds(g.nodes@), g.wires@),
{
    let nodes = vec![
        place(C50, C150, SdfNode::Time),
        place(C250, C100, SdfNode::SinOscillator { amplitude, frequency, phase: ZERO }),
        place(C250, C250, SdfNode::Constant { value: ONE }),
        place(C450, C150, SdfNode::Add),
        place(C650, C200, SdfNode::ShapeOutput),
    ];
    let wires = vec![join(0, 0, 1, 3), join(1, 0, 3, 0), join(2, 0, 3, 1), join(3, 0, 4, 6)];
    assert(nodes@ =~= pulse_nodes(amplitude, frequency));
    assert(wires@ =~= pulse_wires());
    NodeGraph { nodes, wires }
}

/// Nodes of the orbit graph: time, two oscillators a quarter turn apart, and the shape
/// output.
pub open spec fn orbit_nodes(radius: u32, speed: u32) -> Seq<PlacedNode> {
    seq![
        at(C50, C200, SdfNode::Time),
        at(C250, C100, osc(radius, speed, ZERO)),
        at(C250, C300, osc(radius, speed, FRAC_PI_2)),
        at(C500, C200, SdfNode::ShapeOutput),
    ]
}

/// Wires of the orbit graph: the oscillators drive position X and position Z.
pub open spec fn orbit_wires() -> Seq<Wire> {
    seq![wire(0, 0, 1, 3), wire(0, 0, 2, 3), wire(1, 0, 3, 0), wire(2, 0, 3, 2)]
}

/// Circular orbit in the XZ plane.
pub fn orbit_preset(radius: u32, speed: u32) -> (g: NodeGraph)
    ensures
        g.nodes@ == orbit_nodes(radius, speed),
        g.wires@ == orbit_wires(),
        well_wired(kinds(g.nodes@), g.wires@),
{
    let nodes = vec![
        place(C50, C200, SdfNode::Time),
        place(C250, C100, SdfNode::SinOscillator { amplitude: radius, frequency: speed, phase: ZERO }),
        place(C250, C300, SdfNode::SinOscillator { amplitude: radius, frequency: speed, phase: FRAC_PI_2 }),
        place(C500, C200, SdfNode::ShapeOutput),
    ];
    let wires = vec![join(0, 0, 1, 3), join(0, 0, 2, 3), join(1, 0, 3, 0), join(2, 0, 3, 2)];
    assert(nodes@ =~= orbit_nodes(radius, speed));
    assert(wires@ =~= orbit_wires());
    NodeGraph { nodes, wires }
}

/// Nodes of the colour cycle: time, three oscillators a third of a turn apart, the
/// offset one half, three sums, and the shape output.
pub open spec fn color_cycle_nodes(speed: u32) -> Seq<PlacedNode> {
    seq![
        at(C50, C200, SdfNode::Time),
        at(C250, C50, osc(HALF, speed, ZERO)),
        at(C250, C200, osc(HALF, speed, TAU_THIRD)),
        at(C250, C350, osc(HALF, speed, TWO_TAU_THIRDS)),
        at(C450, C50, SdfNode::Constant { value: HALF }),
        at(C450, C100, SdfNode::Add),
        at(C450, C250, SdfNode::Add),
        at(C450, C400, SdfNode::Add),
        at(C650, C200, SdfNode::ShapeOutput),
    ]
}

/// Wires of the colour cycle: time into each oscillator, each oscillator plus one half
/// into the red, green and blue colour inputs.
pub open spec fn color_cycle_wires() -> Seq<Wire> {
    seq![
        wire(0, 0, 1, 3), wire(0, 0, 2, 3), wire(0, 0, 3, 3),
        wire(1, 0, 5, 0), wire(4, 0, 5, 1),
        wire(2, 0, 6, 0), wire(4, 0, 6, 1),
        wire(3, 0, 7, 0), wire(4, 0, 7, 1),
        wire(5, 0, 8, 7), wire(6, 0, 8, 8), wire(7, 0, 8, 9),
    ]
}

/// Colour cycling: red, green and blue follow sines a third of a turn apart, each
/// between zero and one.
pub fn color_cycle_preset(speed: u32) -> (g: NodeGraph)
    ensures
        g.nodes@ == color_cycle_nodes(speed),
        g.wires@ == color_cycle_wires(),
        well_wired(kinds(g.nodes@), g.wires@),
{
    let nodes = vec![
        place(C50, C200, SdfNode::Time),
        place(C250, C50, SdfNode::SinOscillator { amplitude: HALF, frequency: speed, phase: ZERO }),
        place(C250, C200, SdfNode::SinOscillator { amplitude: HALF, frequency: speed, phase: TAU_THIRD }),
        place(C250, C350, SdfNode::SinOscillator { amplitude: HALF, frequency: speed, phase: TWO_TAU_THIRDS }),
        place(C450, C50, SdfNode::Constant { value: HALF }),
        place(C450, C100, SdfNode::Add),
        place(C450, C250, SdfNode::Add),
        place(C450, C400, SdfNode::Add),
        place(C650, C200, SdfNode::ShapeOutput),
    ];
    let wires = vec![
        join(0, 0, 1, 3), join(0, 0, 2, 3), join(0, 0, 3, 3),
        join(1, 0, 5, 0), join(4, 0, 5, 1),
        join(2, 0, 6, 0), join(4, 0, 6, 1),
        join(3, 0, 7, 0), join(4, 0, 7, 1),
        join(5, 0, 8, 7), join(6, 0, 8, 8), join(7, 0, 8, 9),
    ];
    assert(nodes@ =~= color_cycle_nodes(speed));
    assert(wires@ =~= color_cycle_wires());
    NodeGraph { nodes, wires }
}

} // verus!
