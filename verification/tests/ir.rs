use vamp_ir::circuit::{Circuit, Definitions, Signature, Vampir};
use vamp_ir::node::{ArityError, Invocation, Node, Op};
use vamp_ir::wire::{Wire, WireList};

fn named(s: &str) -> Wire {
    Wire::Named(s.to_string())
}

fn wire_node(w: Wire) -> Node {
    Node::Wire(w)
}

fn add(l: Node, r: Node) -> Node {
    Node::Op(Op::Add(Box::new(l), Box::new(r)))
}

fn mul(l: Node, r: Node) -> Node {
    Node::Op(Op::Mul(Box::new(l), Box::new(r)))
}

/// The expression Add(Wire(Named("x")), Mul(Wire(Named("y")), Constant(2))).
fn sample_expression() -> Node {
    add(
        wire_node(named("x")),
        mul(wire_node(named("y")), wire_node(Wire::Constant(2))),
    )
}

fn empty_circuit() -> Circuit {
    Circuit {
        signature: Signature { inputs: vec![], outputs: vec![] },
        wires: WireList::new(),
        nodes: vec![],
        equalities: vec![],
    }
}

#[test]
fn wire_equality_is_structural() {
    assert_eq!(named("x"), named("x"));
    assert_ne!(named("x"), named("y"));
    assert_ne!(named("x"), Wire::Constant(2));
    assert_eq!(Wire::Constant(2), Wire::Constant(2));
    assert_ne!(Wire::Constant(2), Wire::Index(2));
    assert_eq!(Wire::Index(3), Wire::Index(3));
}

#[test]
fn wirelist_new_is_empty() {
    let wl = WireList::new();
    assert_eq!(wl.len(), 0);
    assert!(wl.is_empty());
}

#[test]
fn wirelist_push_keeps_duplicates() {
    let mut wl = WireList::new();
    wl.push(named("a"));
    wl.push(named("a"));
    assert_eq!(wl.len(), 2);
    assert!(!wl.is_empty());
}

#[test]
fn wirelist_insert_is_idempotent() {
    let mut wl = WireList::new();
    wl.insert(&named("a"));
    wl.insert(&named("b"));
    let before = wl.0.clone();
    wl.insert(&named("a"));
    wl.insert(&named("b"));
    assert_eq!(wl.len(), 2);
    assert_eq!(wl.0, before);
}

#[test]
fn wirelist_insert_keeps_first_seen_order() {
    let mut wl = WireList::new();
    wl.insert(&named("a"));
    wl.insert(&named("b"));
    wl.insert(&named("a"));
    wl.insert(&named("c"));
    assert_eq!(wl.0, vec![named("a"), named("b"), named("c")]);
}

#[test]
fn wirelist_concat_appends_verbatim() {
    let mut wl = WireList::new();
    wl.insert(&named("a"));
    let mut other = WireList::new();
    other.push(named("a"));
    other.push(named("b"));
    wl.concat(&other);
    assert_eq!(wl.0, vec![named("a"), named("a"), named("b")]);
}

#[test]
fn wirelist_concat_is_associative_on_content() {
    let make = |names: &[&str]| {
        let mut wl = WireList::new();
        for n in names {
            wl.push(named(n));
        }
        wl
    };
    let (a, b, c) = (make(&["a", "x"]), make(&["b"]), make(&["c", "x"]));

    let mut left = a.clone();
    left.concat(&b);
    left.concat(&c);

    let mut bc = b.clone();
    bc.concat(&c);
    let mut right = a.clone();
    right.concat(&bc);

    assert_eq!(left.0, right.0);
}

#[test]
fn wirelist_iter_walks_front_to_back() {
    let mut wl = WireList::new();
    wl.push(named("a"));
    wl.push(Wire::Constant(7));
    wl.push(Wire::Index(1));
    let seen: Vec<Wire> = wl.iter().cloned().collect();
    assert_eq!(seen, vec![named("a"), Wire::Constant(7), Wire::Index(1)]);
    // Restartable: a second pass sees the same elements.
    let again: Vec<Wire> = wl.iter().cloned().collect();
    assert_eq!(seen, again);
}

#[test]
fn op_inputs_returns_the_two_operands() {
    let left = wire_node(named("l"));
    let right = wire_node(named("r"));
    let op = Op::Sub(Box::new(left.clone()), Box::new(right.clone()));
    assert_eq!(op.inputs(), vec![left, right]);
}

#[test]
fn op_same_round_trips_replacements() {
    let op = Op::Pow(Box::new(wire_node(named("old1"))), Box::new(wire_node(named("old2"))));
    let a = wire_node(named("a"));
    let b = mul(wire_node(named("b")), wire_node(Wire::Constant(3)));
    let rebuilt = op.same(vec![a.clone(), b.clone()]).unwrap();
    assert!(matches!(rebuilt, Op::Pow(_, _)));
    assert_eq!(rebuilt.inputs(), vec![a, b]);
}

#[test]
fn op_same_rejects_wrong_arity() {
    let op = Op::Eq(Box::new(wire_node(named("l"))), Box::new(wire_node(named("r"))));
    assert_eq!(op.same(vec![]), Err(ArityError));
    assert_eq!(op.same(vec![wire_node(named("a"))]), Err(ArityError));
    assert_eq!(
        op.same(vec![
            wire_node(named("a")),
            wire_node(named("b")),
            wire_node(named("c")),
        ]),
        Err(ArityError)
    );
}

#[test]
fn node_inputs_collects_leaf_wires_left_to_right() {
    let expr = sample_expression();
    assert_eq!(
        expr.inputs(),
        vec![named("x"), named("y"), Wire::Constant(2)]
    );
}

#[test]
fn node_inputs_keeps_duplicates() {
    let expr = add(wire_node(named("x")), wire_node(named("x")));
    assert_eq!(expr.inputs(), vec![named("x"), named("x")]);
}

#[test]
fn node_inputs_is_pure() {
    let expr = sample_expression();
    assert_eq!(expr.inputs(), expr.inputs());
}

#[test]
fn node_inputs_flattens_invocation_arguments() {
    let inv = Node::Invocation(Invocation {
        name: "gadget".to_string(),
        inputs: vec![
            wire_node(named("p")),
            add(wire_node(named("q")), wire_node(Wire::Index(0))),
        ],
    });
    assert_eq!(inv.inputs(), vec![named("p"), named("q"), Wire::Index(0)]);
}

#[test]
fn preorder_visits_operators_in_order() {
    let expr = sample_expression();
    let walk = expr.preorder();
    let inner_mul = mul(wire_node(named("y")), wire_node(Wire::Constant(2)));
    assert_eq!(
        walk,
        vec![
            expr.clone(),
            wire_node(named("x")),
            inner_mul.clone(),
            wire_node(named("y")),
            wire_node(Wire::Constant(2)),
        ]
    );
    // The Add node comes first and the Mul node after it.
    assert_eq!(walk[0], expr);
    assert_eq!(walk[2], inner_mul);
}

#[test]
fn preorder_of_a_wire_leaf_is_the_leaf() {
    let leaf = wire_node(named("w"));
    assert_eq!(leaf.preorder(), vec![leaf.clone()]);
}

#[test]
fn preorder_does_not_expand_invocations() {
    let inv = Node::Invocation(Invocation {
        name: "gadget".to_string(),
        inputs: vec![add(wire_node(named("a")), wire_node(named("b")))],
    });
    assert_eq!(inv.preorder(), vec![inv.clone()]);
}

#[test]
fn definitions_insert_reports_shadowing() {
    let mut defs = Definitions::new();
    let first = empty_circuit();
    let mut second = empty_circuit();
    second.nodes.push(wire_node(named("b")));

    assert_eq!(defs.insert("c".to_string(), first.clone()), None);
    assert_eq!(defs.insert("c".to_string(), second.clone()), Some(first));
    assert_eq!(defs.get("c"), Some(&second));
}

#[test]
fn definitions_get_absent_name_is_none() {
    let mut defs = Definitions::new();
    assert_eq!(defs.get("missing"), None);
    defs.insert("present".to_string(), empty_circuit());
    assert_eq!(defs.get("missing"), None);
    assert!(defs.get("present").is_some());
}

#[test]
fn wirelist_from_matches_summed_node_inputs() {
    let mut wires = WireList::new();
    wires.insert(&named("a"));
    wires.insert(&named("b"));
    let nodes = vec![
        wire_node(named("b")),
        add(wire_node(named("a")), wire_node(named("b"))),
    ];
    let circuit = Circuit {
        signature: Signature { inputs: vec![named("a")], outputs: vec![named("b")] },
        wires,
        nodes: nodes.clone(),
        equalities: vec![(named("b"), named("a"))],
    };

    let from_nodes = WireList::from(circuit.nodes.clone());

    let mut summed: Vec<Wire> = Vec::new();
    for node in &nodes {
        summed.extend(node.inputs());
    }
    assert_eq!(from_nodes.0, summed);
    assert_eq!(from_nodes.0, vec![named("b"), named("a"), named("b")]);
}

#[test]
fn node_from_wire_is_a_leaf() {
    let w = Wire::Index(4);
    assert_eq!(Node::from(w.clone()), Node::Wire(w));
}

#[test]
fn vampir_holds_registry_and_circuit() {
    let mut definitions = Definitions::new();
    definitions.insert("main".to_string(), empty_circuit());
    let top = Vampir { definitions, circuit: empty_circuit() };
    assert_eq!(top.circuit, empty_circuit());
    assert_eq!(top.definitions.get("main"), Some(&empty_circuit()));
}

#[test]
fn circuit_clone_preserves_value() {
    let circuit = Circuit {
        signature: Signature { inputs: vec![named("a")], outputs: vec![named("b")] },
        wires: WireList(vec![named("a"), named("b"), Wire::Index(0)]),
        nodes: vec![sample_expression()],
        equalities: vec![(named("b"), named("a"))],
    };
    assert_eq!(circuit.clone(), circuit);
}
