use litsdf::nodes::SdfNode;
use litsdf::presets::{
    bob_preset, bone_bob_preset, bone_spin_preset, color_cycle_preset, create_starter_graph, orbit_preset,
    pulse_preset, spin_preset, NodeGraph, FRAC_PI_2, TAU_THIRD, TWO_TAU_THIRDS,
};
use litsdf::wiring::{connect, Wire};

fn b(x: f32) -> u32 {
    x.to_bits()
}

/// Rebuilding a graph wire by wire through the editor's `connect` accepts every wire and
/// gives the same wires.
fn rewire(g: &NodeGraph) -> Vec<Wire> {
    let kinds: Vec<SdfNode> = g.nodes.iter().map(|p| p.node).collect();
    let mut wires = Vec::new();
    for w in &g.wires {
        assert!(connect(&mut wires, &kinds, w.out_pin, w.in_pin));
    }
    wires
}

#[test]
fn preset_phase_constants() {
    assert_eq!(FRAC_PI_2, std::f32::consts::FRAC_PI_2.to_bits());
    let pi3 = std::f32::consts::TAU / 3.0;
    assert_eq!(TAU_THIRD, pi3.to_bits());
    assert_eq!(TWO_TAU_THIRDS, (pi3 * 2.0).to_bits());
}

#[test]
fn starter_graph_is_gentle_bob() {
    let g = create_starter_graph();
    assert_eq!(g.nodes.len(), 3);
    assert_eq!(g.nodes[0].node, SdfNode::Time);
    assert_eq!(g.nodes[1].node, SdfNode::SinOscillator { amplitude: b(0.3), frequency: b(0.5), phase: 0 });
    assert_eq!(g.nodes[2].node, SdfNode::ShapeOutput);
    assert_eq!(g.nodes[2].pos, [b(500.0), b(200.0)]);
    // The oscillator drives Pos Y.
    assert_eq!(g.wires[1].in_pin.node, 2);
    assert_eq!(g.nodes[2].node.input_label(g.wires[1].in_pin.input), "Pos Y");
}

#[test]
fn spin_drives_rotation_y() {
    let g = spin_preset(b(90.0));
    assert_eq!(g.nodes[1].node, SdfNode::Constant { value: b(90.0) });
    let last = g.wires[g.wires.len() - 1];
    assert_eq!(g.nodes[last.in_pin.node].node.input_label(last.in_pin.input), "Rot Y");
}

#[test]
fn pulse_drives_scale_around_one() {
    let g = pulse_preset(b(0.1), b(1.0));
    assert_eq!(g.nodes[2].node, SdfNode::Constant { value: b(1.0) });
    let last = g.wires[g.wires.len() - 1];
    assert_eq!(g.nodes[last.in_pin.node].node.input_label(last.in_pin.input), "Scale");
}

#[test]
fn orbit_oscillators_quarter_turn_apart() {
    let g = orbit_preset(b(2.0), b(0.25));
    assert_eq!(g.nodes[1].node, SdfNode::SinOscillator { amplitude: b(2.0), frequency: b(0.25), phase: 0 });
    assert_eq!(
        g.nodes[2].node,
        SdfNode::SinOscillator { amplitude: b(2.0), frequency: b(0.25), phase: std::f32::consts::FRAC_PI_2.to_bits() }
    );
    let labels: Vec<&str> = g.wires[2..].iter().map(|w| g.nodes[w.in_pin.node].node.input_label(w.in_pin.input)).collect();
    assert_eq!(labels, vec!["Pos X", "Pos Z"]);
}

#[test]
fn color_cycle_feeds_rgb() {
    let g = color_cycle_preset(b(0.5));
    assert_eq!(g.nodes.len(), 9);
    assert_eq!(g.wires.len(), 12);
    let labels: Vec<&str> = g.wires[9..].iter().map(|w| g.nodes[w.in_pin.node].node.input_label(w.in_pin.input)).collect();
    assert_eq!(labels, vec!["Red", "Green", "Blue"]);
}

#[test]
fn bone_presets_use_bone_output() {
    let bob = bone_bob_preset(b(0.3), b(0.5));
    assert_eq!(bob.nodes[2].node, SdfNode::BoneOutput);
    assert_eq!(bob.wires, bob_preset(b(0.3), b(0.5)).wires);
    let spin = bone_spin_preset(b(45.0));
    assert_eq!(spin.nodes[3].node, SdfNode::BoneOutput);
    assert_eq!(spin.wires, spin_preset(b(45.0)).wires);
}

#[test]
fn presets_rewire_through_connect() {
    let graphs = vec![
        create_starter_graph(),
        bob_preset(b(0.3), b(0.5)),
        spin_preset(b(90.0)),
        pulse_preset(b(0.1), b(1.0)),
        orbit_preset(b(1.0), b(1.0)),
        color_cycle_preset(b(0.5)),
        bone_bob_preset(b(0.3), b(0.5)),
        bone_spin_preset(b(90.0)),
    ];
    for g in &graphs {
        assert_eq!(rewire(g), g.wires);
    }
}
