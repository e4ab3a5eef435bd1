use litsdf::nodes::SdfNode;
use litsdf::wiring::{connect, InPinId, OutPinId, Wire};

fn out(node: usize) -> OutPinId {
    OutPinId { node, output: 0 }
}

fn inp(node: usize, input: usize) -> InPinId {
    InPinId { node, input }
}

fn graph() -> Vec<SdfNode> {
    vec![
        SdfNode::Constant { value: 1.0f32.to_bits() },
        SdfNode::ConstantVec3 { value: [0; 3] },
        SdfNode::Add,
        SdfNode::Vec3Decompose,
        SdfNode::Compare { mode: 0 },
        SdfNode::Gate,
    ]
}

#[test]
fn connect_float_to_float() {
    let nodes = graph();
    let mut wires = Vec::new();
    assert!(connect(&mut wires, &nodes, out(0), inp(2, 0)));
    assert_eq!(wires, vec![Wire { out_pin: out(0), in_pin: inp(2, 0) }]);
}

#[test]
fn connect_refuses_vec3_into_float() {
    let nodes = graph();
    let mut wires = vec![Wire { out_pin: out(0), in_pin: inp(2, 1) }];
    assert!(!connect(&mut wires, &nodes, out(1), inp(2, 0)));
    assert!(!connect(&mut wires, &nodes, out(0), inp(3, 0)));
    assert_eq!(wires, vec![Wire { out_pin: out(0), in_pin: inp(2, 1) }]);
}

#[test]
fn connect_vec3_into_vec3() {
    let nodes = graph();
    let mut wires = Vec::new();
    assert!(connect(&mut wires, &nodes, out(1), inp(3, 0)));
    assert_eq!(wires.len(), 1);
}

#[test]
fn connect_coerces_scalars() {
    let nodes = graph();
    let mut wires = Vec::new();
    // A Bool output feeds a Float input, and a Float output feeds a Bool input.
    assert!(connect(&mut wires, &nodes, out(4), inp(2, 0)));
    assert!(connect(&mut wires, &nodes, out(0), inp(5, 1)));
    assert_eq!(wires.len(), 2);
}

#[test]
fn connect_replaces_the_input_source() {
    let nodes = graph();
    let mut wires = vec![
        Wire { out_pin: out(0), in_pin: inp(2, 0) },
        Wire { out_pin: out(0), in_pin: inp(2, 1) },
    ];
    assert!(connect(&mut wires, &nodes, out(4), inp(2, 0)));
    assert_eq!(
        wires,
        vec![
            Wire { out_pin: out(0), in_pin: inp(2, 1) },
            Wire { out_pin: out(4), in_pin: inp(2, 0) },
        ]
    );
}
