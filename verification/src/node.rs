//! Expression nodes: operators, wire leaves, and sub-circuit invocations.

use crate::wire::{Wire, WireList, WireModel};
use vstd::prelude::*;

verus! {

/// The tag of a binary operator, independent of its operands.
#[derive(Debug, Clone, Copy, PartialEq, Eq, Structural)]
pub enum OpKind {
    Add,
    Sub,
    Mul,
    Pow,
    Eq,
}

/// Mathematical model of an expression node.
pub enum NodeModel {
    Op(OpKind, Box<NodeModel>, Box<NodeModel>),
    Wire(WireModel),
    Invocation(InvocationModel),
}

/// Mathematical model of an operator: its tag and its two operands.
pub struct OpModel {
    pub kind: OpKind,
    pub left: NodeModel,
    pub right: NodeModel,
}

/// Mathematical model of a sub-circuit invocation.
pub struct InvocationModel {
    pub name: Seq<char>,
    pub inputs: Seq<NodeModel>,
}

/// A binary operator applied to two operand sub-nodes.
#[derive(Debug, PartialEq, Eq, Hash)]
pub enum Op {
    Add(Box<Node>, Box<Node>),
    Sub(Box<Node>, Box<Node>),
    Mul(Box<Node>, Box<Node>),
    Pow(Box<Node>, Box<Node>),
    Eq(Box<Node>, Box<Node>),
}

/// One element of the recursive expression tree: a compound operator
/// expression, a raw wire leaf, or an invocation of a named sub-circuit.
/// Nodes are compared by full structural value.
#[derive(Debug, PartialEq, Eq, Hash)]
pub enum Node {
    Op(Op),
    Wire(Wire),
    Invocation(Invocation),
}

/// A call to a named sub-circuit: the callee name and one argument node
/// per declared input of the callee's signature. Arity matching is a
/// contract of the consuming compiler pass, not of this type.
#[derive(Debug, PartialEq, Eq, Hash)]
pub struct Invocation {
    pub name: String,
    pub inputs: Vec<Node>,
}

pub open spec fn op_view(op: Op) -> OpModel
    decreases op,
{
    match op {
        Op::Add(l, r) => OpModel { kind: OpKind::Add, left: node_view(*l), right: node_view(*r) },
        Op::Sub(l, r) => OpModel { kind: OpKind::Sub, left: node_view(*l), right: node_view(*r) },
        Op::Mul(l, r) => OpModel { kind: OpKind::Mul, left: node_view(*l), right: node_view(*r) },
        Op::Pow(l, r) => OpModel { kind: OpKind::Pow, left: node_view(*l), right: node_view(*r) },
        Op::Eq(l, r) => OpModel { kind: OpKind::Eq, left: node_view(*l), right: node_view(*r) },
    }
}

pub open spec fn node_view(n: Node) -> NodeModel
    decreases n,
{
    match n {
        Node::Op(op) => NodeModel::Op(
            op_view(op).kind,
            Box::new(op_view(op).left),
            Box::new(op_view(op).right),
        ),
        Node::Wire(w) => NodeModel::Wire(w@),
        Node::Invocation(inv) => NodeModel::Invocation(invocation_view(inv)),
    }
}

pub open spec fn invocation_view(inv: Invocation) -> InvocationModel
    decreases inv,
{
    InvocationModel { name: inv.name@, inputs: nodes_view(inv.inputs@) }
}

pub open spec fn nodes_view(ns: Seq<Node>) -> Seq<NodeModel>
    decreases ns,
{
    // The out-of-range branch is never reached; it only keeps the
    // recursion inside the closure well-founded.
    Seq::new(
        ns.len(),
        |i: int|
            if 0 <= i < ns.len() {
                node_view(ns[i])
            } else {
                NodeModel::Wire(WireModel::Constant(0))
            },
    )
}

impl View for Op {
    type V = OpModel;

    open spec fn view(&self) -> OpModel {
        op_view(*self)
    }
}

impl View for Node {
    type V = NodeModel;

    open spec fn view(&self) -> NodeModel {
        node_view(*self)
    }
}

impl View for Invocation {
    type V = InvocationModel;

    open spec fn view(&self) -> InvocationModel {
        invocation_view(*self)
    }
}

/// The full transitive, left-to-right, depth-first sequence of leaf wires
/// reachable from a node: operator operands and invocation arguments are
/// flattened in order, and a wire leaf contributes itself. Duplicates are
/// kept.
pub open spec fn node_wires(n: NodeModel) -> Seq<WireModel>
    decreases n,
{
    match n {
        NodeModel::Op(_, l, r) => node_wires(*l) + node_wires(*r),
        NodeModel::Wire(w) => seq![w],
        NodeModel::Invocation(inv) => nodes_wires(inv.inputs),
    }
}

/// The concatenation, in sequence order, of the leaf wires of each node.
pub open spec fn nodes_wires(ns: Seq<NodeModel>) -> Seq<WireModel>
    decreases ns,
{
    if ns.len() == 0 {
        Seq::empty()
    } else {
        nodes_wires(ns.subrange(0, ns.len() - 1)) + node_wires(ns[ns.len() - 1])
    }
}

/// The pre-order visit sequence of a node: the node itself, then the
/// traversal of each operand of an operator, recursively. Only operator
/// structure is expanded: invocation arguments and wire leaves are not
/// entered.
pub open spec fn node_preorder(n: NodeModel) -> Seq<NodeModel>
    decreases n,
{
    match n {
        NodeModel::Op(_, l, r) => seq![n] + node_preorder(*l) + node_preorder(*r),
        NodeModel::Wire(_) => seq![n],
        NodeModel::Invocation(_) => seq![n],
    }
}

/// The two immediate operands of an operator, left then right.
pub open spec fn op_inputs_model(m: OpModel) -> Seq<NodeModel> {
    seq![m.left, m.right]
}

/// An operator of the same tag as `m` rebuilt around two replacement
/// operands.
pub open spec fn op_same_model(m: OpModel, replacements: Seq<NodeModel>) -> OpModel
    recommends
        replacements.len() == 2,
{
    OpModel { kind: m.kind, left: replacements[0], right: replacements[1] }
}

/// Reconstruction of an operator was handed a replacement list whose
/// length is not two.
#[derive(Debug, Clone, Copy, PartialEq, Eq, Structural)]
pub struct ArityError;

impl Clone for Op {
    fn clone(&self) -> (res: Self)
        ensures
            res@ == self@,
        decreases *self,
    {
        match self {
            Op::Add(l, r) => Op::Add(Box::new((**l).clone()), Box::new((**r).clone())),
            Op::Sub(l, r) => Op::Sub(Box::new((**l).clone()), Box::new((**r).clone())),
            Op::Mul(l, r) => Op::Mul(Box::new((**l).clone()), Box::new((**r).clone())),
            Op::Pow(l, r) => Op::Pow(Box::new((**l).clone()), Box::new((**r).clone())),
            Op::Eq(l, r) => Op::Eq(Box::new((**l).clone()), Box::new((**r).clone())),
        }
    }
}

impl Clone for Node {
    fn clone(&self) -> (res: Self)
        ensures
            res@ == self@,
        decreases *self,
    {
        match self {
            Node::Op(op) => Node::Op(op.clone()),
            Node::Wire(w) => Node::Wire(w.clone()),
            Node::Invocation(inv) => Node::Invocation(inv.clone()),
        }
    }
}

impl Clone for Invocation {
    fn clone(&self) -> (res: Self)
        ensures
            res@ == self@,
        decreases *self,
    {
        let n = self.inputs.len();
        let mut inputs: Vec<Node> = Vec::new();
        let mut i: usize = 0;
        while i < n
            invariant
                n == self.inputs.len(),
                i <= n,
                inputs@.len() == i,
                forall|j: int| 0 <= j < i ==> node_view(#[trigger] inputs@[j]) == node_view(
                    self.inputs@[j],
                ),
            decreases n - i,
        {
            inputs.push(self.inputs[i].clone());
            i += 1;
        }
        let res = Invocation { name: self.name.clone(), inputs };
        proof {
            assert(nodes_view(res.inputs@) =~= nodes_view(self.inputs@));
        }
        res
    }
}

impl Op {
    /// The operator's two immediate operand sub-nodes, left then right,
    /// not recursively expanded.
    pub fn inputs(&self) -> (r: Vec<Node>)
        ensures
            nodes_view(r@) == op_inputs_model(self@),
    {
        match self {
            Op::Add(l, r2) | Op::Sub(l, r2) | Op::Mul(l, r2) | Op::Pow(l, r2) | Op::Eq(l, r2) => {
                let mut v: Vec<Node> = Vec::new();
                v.push((**l).clone());
                v.push((**r2).clone());
                proof {
                    assert(nodes_view(v@) =~= op_inputs_model(self@));
                }
                v
            },
        }
    }

    /// Rebuilds an operator of the identical tag around two replacement
    /// operand nodes, as substitution passes need; a replacement list
    /// whose length is not two is refused with an [`ArityError`].
    pub fn same(&self, nodes: Vec<Node>) -> (r: Result<Op, ArityError>)
        ensures
            nodes@.len() == 2 ==> (r matches Ok(op) && op@ == op_same_model(
                self@,
                nodes_view(nodes@),
            )),
            nodes@.len() != 2 ==> r == Err::<Op, ArityError>(ArityError),
    {
        if nodes.len() != 2 {
            return Err(ArityError);
        }
        let mut rest = nodes;
        let right = rest.pop().unwrap();
        let left = rest.pop().unwrap();
        let op = match self {
            Op::Add(_, _) => Op::Add(Box::new(left), Box::new(right)),
            Op::Sub(_, _) => Op::Sub(Box::new(left), Box::new(right)),
            Op::Mul(_, _) => Op::Mul(Box::new(left), Box::new(right)),
            Op::Pow(_, _) => Op::Pow(Box::new(left), Box::new(right)),
            Op::Eq(_, _) => Op::Eq(Box::new(left), Box::new(right)),
        };
        proof {
            assert(nodes_view(nodes@)[0] == node_view(nodes@[0]));
            assert(nodes_view(nodes@)[1] == node_view(nodes@[1]));
        }
        Ok(op)
    }
}

impl Node {
    /// The full transitive, left-to-right, depth-first sequence of leaf
    /// wires reachable from this node; a wire referenced twice appears
    /// twice. Callers needing a set must deduplicate, for instance
    /// through [`WireList::insert`].
    #[verifier::loop_isolation(false)]
    pub fn inputs(&self) -> (r: Vec<Wire>)
        ensures
            r.deep_view() == node_wires(self@),
        decreases *self,
    {
        match self {
            Node::Wire(w) => {
                let mut r: Vec<Wire> = Vec::new();
                r.push(w.clone());
                proof {
                    assert(r.deep_view() =~= node_wires(self@));
                }
                r
            },
            Node::Op(Op::Add(l, r2)) | Node::Op(Op::Sub(l, r2)) | Node::Op(Op::Mul(l, r2))
                | Node::Op(Op::Pow(l, r2)) | Node::Op(Op::Eq(l, r2)) => {
                let mut res = (**l).inputs();
                let mut rr = (**r2).inputs();
                res.append(&mut rr);
                proof {
                    assert(res.deep_view() =~= node_wires(self@));
                }
                res
            },
            Node::Invocation(inv) => {
                let n = inv.inputs.len();
                let mut res: Vec<Wire> = Vec::new();
                let mut i: usize = 0;
                while i < n
                    invariant
                        n == inv.inputs.len(),
                        i <= n,
                        res.deep_view() == nodes_wires(nodes_view(inv.inputs@.subrange(0, i as int))),
                    decreases n - i,
                {
                    proof {
                        assert(decreases_to!(*self => self->Invocation_0));
                        assert(self->Invocation_0 == *inv);
                        assert(decreases_to!(*inv => inv.inputs));
                        assert(decreases_to!(inv.inputs => inv.inputs@));
                        assert(decreases_to!(inv.inputs@ => inv.inputs@[i as int]));
                    }
                    let mut ws = inv.inputs[i].inputs();
                    res.append(&mut ws);
                    i += 1;
                    proof {
                        let pre = nodes_view(inv.inputs@.subrange(0, i - 1));
                        let cur = nodes_view(inv.inputs@.subrange(0, i as int));
                        assert(cur.subrange(0, i - 1) =~= pre);
                        assert(cur[i - 1] == node_view(inv.inputs@[i - 1]));
                        assert(res.deep_view() =~= nodes_wires(cur));
                    }
                }
                proof {
                    assert(inv.inputs@.subrange(0, n as int) =~= inv.inputs@);
                    assert(node_wires(self@) == nodes_wires(nodes_view(inv.inputs@)));
                }
                res
            },
        }
    }

    /// The pre-order traversal of this node as a vector: the node itself,
    /// then the traversal of each operand of an operator, recursively.
    /// Invocation arguments and wire leaves are not expanded, so local
    /// rewrites driven by this walk stay within one circuit body. The
    /// walk is a pure function of the node's structure and may be rerun.
    pub fn preorder(&self) -> (r: Vec<Node>)
        ensures
            nodes_view(r@) == node_preorder(self@),
        decreases *self,
    {
        let mut res: Vec<Node> = Vec::new();
        res.push(self.clone());
        match self {
            Node::Op(Op::Add(l, r2)) | Node::Op(Op::Sub(l, r2)) | Node::Op(Op::Mul(l, r2))
                | Node::Op(Op::Pow(l, r2)) | Node::Op(Op::Eq(l, r2)) => {
                let mut a = (**l).preorder();
                res.append(&mut a);
                let mut b = (**r2).preorder();
                res.append(&mut b);
            },
            _ => {},
        }
        proof {
            assert(nodes_view(res@) =~= node_preorder(self@));
        }
        res
    }
}

impl From<Wire> for Node {
    fn from(wire: Wire) -> (res: Node) {
        Node::Wire(wire)
    }
}

impl vstd::std_specs::convert::FromSpecImpl<Wire> for Node {
    open spec fn obeys_from_spec() -> bool {
        true
    }

    open spec fn from_spec(wire: Wire) -> Node {
        Node::Wire(wire)
    }
}

/// An element-by-element copy of a node vector.
pub(crate) fn clone_nodes(v: &Vec<Node>) -> (res: Vec<Node>)
    ensures
        nodes_view(res@) == nodes_view(v@),
{
    let n = v.len();
    let mut res: Vec<Node> = Vec::new();
    let mut i: usize = 0;
    while i < n
        invariant
            n == v.len(),
            i <= n,
            res@.len() == i,
            forall|j: int| 0 <= j < i ==> node_view(#[trigger] res@[j]) == node_view(v@[j]),
        decreases n - i,
    {
        res.push(v[i].clone());
        i += 1;
    }
    proof {
        assert(nodes_view(res@) =~= nodes_view(v@));
    }
    res
}

impl WireList {
    /// Builds a wire list by extracting, for every node in sequence
    /// order, its free wires and appending them verbatim: the result may
    /// contain duplicates and is ordered by first occurrence per node in
    /// sequence order.
    pub fn from(nodes: Vec<Node>) -> (r: WireList)
        ensures
            r@ == nodes_wires(nodes_view(nodes@)),
    {
        let mut res = WireList::new();
        let n = nodes.len();
        let mut i: usize = 0;
        while i < n
            invariant
                n == nodes@.len(),
                i <= n,
                res@ == nodes_wires(nodes_view(nodes@.subrange(0, i as int))),
            decreases n - i,
        {
            let batch = WireList(nodes[i].inputs());
            res.concat(&batch);
            i += 1;
            proof {
                let pre = nodes_view(nodes@.subrange(0, i - 1));
                let cur = nodes_view(nodes@.subrange(0, i as int));
                assert(cur.subrange(0, i - 1) =~= pre);
                assert(cur[i - 1] == node_view(nodes@[i - 1]));
                assert(res@ =~= nodes_wires(cur));
            }
        }
        proof {
            assert(nodes@.subrange(0, n as int) =~= nodes@);
        }
        res
    }
}

/// `Node::inputs` is a pure function of the node's structure: any two
/// results of calling it on the same node are the same wire sequence, in
/// the same deterministic left-to-right depth-first order.
pub proof fn lemma_inputs_deterministic(n: &Node, r1: Vec<Wire>, r2: Vec<Wire>)
    requires
        call_ensures(Node::inputs, (n,), r1),
        call_ensures(Node::inputs, (n,), r2),
    ensures
        r1.deep_view() == r2.deep_view(),
{
}

/// Structure-preserving substitution round-trips: rebuilding an operator
/// around the replacement operands `[a, b]` and reading its operands back
/// yields `[a, b]` again, whatever the operator's tag.
pub proof fn lemma_same_then_inputs(m: OpModel, a: NodeModel, b: NodeModel)
    ensures
        op_inputs_model(op_same_model(m, seq![a, b])) == seq![a, b],
{
    assert(op_inputs_model(op_same_model(m, seq![a, b])) =~= seq![a, b]);
}

} // verus!
