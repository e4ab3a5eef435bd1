//! Wiring of an animation graph: which connections the node editor accepts, and what a
//! connection replaces.
use vstd::prelude::*;
use crate::nodes::{PinType, SdfNode};

verus! {

/// Output pin `output` of node `node`.
#[derive(Debug, Clone, Copy, PartialEq, Eq, Structural)]
pub struct OutPinId {
    pub node: usize,
    pub output: usize,
}

/// Input pin `input` of node `node`.
#[derive(Debug, Clone, Copy, PartialEq, Eq, Structural)]
pub struct InPinId {
    pub node: usize,
    pub input: usize,
}

/// A connection from an output pin to an input pin.
#[derive(Debug, Clone, Copy, PartialEq, Eq, Structural)]
pub struct Wire {
    pub out_pin: OutPinId,
    pub in_pin: InPinId,
}

/// Whether the output `from` may feed the input `to` of the graph whose nodes are
/// `nodes`: the output's type must be compatible with the input's.
pub open spec fn accepts(nodes: Seq<SdfNode>, from: OutPinId, to: InPinId) -> bool {
    PinType::compatible_spec(
        nodes[from.node as int].output_type_spec(),
        nodes[to.node as int].input_type_spec(to.input as int),
    )
}

/// The wires that do not end at `to`.
pub open spec fn wires_not_into(wires: Seq<Wire>, to: InPinId) -> Seq<Wire> {
    wires.filter(|w: Wire| w.in_pin != to)
}

/// The wires that end at `pin`, in their order.
pub open spec fn wires_into(wires: Seq<Wire>, pin: InPinId) -> Seq<Wire> {
    wires.filter(|w: Wire| w.in_pin == pin)
}

/// The wires after asking to connect `from` to `to`: an accepted connection replaces
/// every wire into `to` (an input has one source) and comes last; a refused one leaves
/// the wires as they were.
pub open spec fn connected(wires: Seq<Wire>, nodes: Seq<SdfNode>, from: OutPinId, to: InPinId) -> Seq<Wire> {
    if accepts(nodes, from, to) {
        wires_not_into(wires, to).push(Wire { out_pin: from, in_pin: to })
    } else {
        wires
    }
}

/// Connect output `from` to input `to`, as the node editor does when a wire is dropped
/// on an input.  Returns whether the connection was made.
pub fn connect(wires: &mut Vec<Wire>, nodes: &[SdfNode], from: OutPinId, to: InPinId) -> (made: bool)
    requires
        from.node < nodes@.len(),
        to.node < nodes@.len(),
    ensures
        made == accepts(nodes@, from, to),
        final(wires)@ == connected(old(wires)@, nodes@, from, to),
{
    let from_type = nodes[from.node].output_type(from.output);
    let to_type = nodes[to.node].input_type(to.input);
    if !PinType::compatible(from_type, to_type) {
        return false;
    }
    let ghost keep = |w: Wire| w.in_pin != to;
    let mut kept: Vec<Wire> = Vec::new();
    let mut i: usize = 0;
    while i < wires.len()
        invariant
            i <= wires@.len(),
            wires@ == old(wires)@,
            keep == (|w: Wire| w.in_pin != to),
            kept@ == wires@.take(i as int).filter(keep),
        decreases wires@.len() - i,
    {
        let w = wires[i];
        proof {
            reveal_with_fuel(Seq::<_>::filter, 1);
            assert(wires@.take(i + 1).drop_last() =~= wires@.take(i as int));
        }
        if w.in_pin != to {
            kept.push(w);
        }
        i += 1;
    }
    assert(wires@.take(wires@.len() as int) =~= wires@);
    kept.push(Wire { out_pin: from, in_pin: to });
    *wires = kept;
    true
}

/// After an accepted connection, exactly one wire ends at `to`, the new one, and the wires
/// into every other input are those there were, in their order.  A refused connection
/// changes nothing.
pub proof fn law_connect_one_source(wires: Seq<Wire>, nodes: Seq<SdfNode>, from: OutPinId, to: InPinId)
    ensures
        !accepts(nodes, from, to) ==> connected(wires, nodes, from, to) == wires,
        accepts(nodes, from, to) ==> {
            let r = connected(wires, nodes, from, to);
            &&& r.last() == (Wire { out_pin: from, in_pin: to })
            &&& forall|i: int| 0 <= i < r.len() - 1 ==> (#[trigger] r[i]).in_pin != to
            &&& forall|other: InPinId| other != to
                ==> #[trigger] wires_into(r, other) == wires_into(wires, other)
        },
{
    if accepts(nodes, from, to) {
        let keep = |w: Wire| w.in_pin != to;
        let f = wires.filter(keep);
        let r = connected(wires, nodes, from, to);
        assert forall|i: int| 0 <= i < r.len() - 1 implies (#[trigger] r[i]).in_pin != to by {
            assert(r[i] == f[i]);
            wires.lemma_filter_pred(keep, i);
        }
        assert forall|other: InPinId| other != to
            implies #[trigger] wires_into(r, other) == wires_into(wires, other) by {
            let into = |w: Wire| w.in_pin == other;
            lemma_filter_push_skip(f, Wire { out_pin: from, in_pin: to }, into);
            lemma_filter_filter(wires, keep, into);
        }
    }
}

/// Filtering a sequence with one more element that the predicate refuses gives the same
/// result.
proof fn lemma_filter_push_skip(s: Seq<Wire>, x: Wire, p: spec_fn(Wire) -> bool)
    requires
        !p(x),
    ensures
        s.push(x).filter(p) == s.filter(p),
{
    reveal_with_fuel(Seq::<_>::filter, 1);
    assert(s.push(x).drop_last() =~= s);
}

/// Filtering by `q` after keeping what `keep` accepts is filtering by `q` alone, when
/// everything `q` accepts `keep` accepts too.
proof fn lemma_filter_filter(s: Seq<Wire>, keep: spec_fn(Wire) -> bool, q: spec_fn(Wire) -> bool)
    requires
        forall|w: Wire| #[trigger] q(w) ==> keep(w),
    ensures
        s.filter(keep).filter(q) == s.filter(q),
    decreases s.len(),
{
    reveal_with_fuel(Seq::<_>::filter, 1);
    if s.len() > 0 {
        lemma_filter_filter(s.drop_last(), keep, q);
        let x = s.last();
        if keep(x) {
            assert(s.filter(keep).drop_last() =~= s.drop_last().filter(keep));
        }
    }
}

} // verus!
