//! Circuits, their signatures, and the definition registry.

use crate::node::{clone_nodes, nodes_view, Node, NodeModel};
use crate::wire::{clone_wires, Wire, WireList, WireModel};
use vstd::hash_map::StringHashMap;
use vstd::prelude::*;

verus! {

/// Mathematical model of a [`Signature`].
pub struct SignatureModel {
    pub inputs: Seq<WireModel>,
    pub outputs: Seq<WireModel>,
}

/// The declared interface of a circuit definition: ordered input wires
/// and ordered output wires. Order is significant, since call sites bind
/// arguments positionally.
#[derive(Debug, PartialEq)]
pub struct Signature {
    pub inputs: Vec<Wire>,
    pub outputs: Vec<Wire>,
}

impl View for Signature {
    type V = SignatureModel;

    open spec fn view(&self) -> SignatureModel {
        SignatureModel { inputs: self.inputs.deep_view(), outputs: self.outputs.deep_view() }
    }
}

impl Clone for Signature {
    fn clone(&self) -> (res: Self)
        ensures
            res@ == self@,
    {
        Signature { inputs: clone_wires(&self.inputs), outputs: clone_wires(&self.outputs) }
    }
}

/// Mathematical model of a [`Circuit`].
pub struct CircuitModel {
    pub signature: SignatureModel,
    pub wires: Seq<WireModel>,
    pub nodes: Seq<NodeModel>,
    pub equalities: Seq<(WireModel, WireModel)>,
}

/// One complete circuit definition: its signature, its full wire list
/// (the signature wires plus any intermediates), the node expressions
/// that compute values, and the equality constraints between wire pairs.
/// Whether every referenced wire is reachable from `wires` or a constant
/// is a contract of the constructing parser and the consuming compiler
/// pass; this type does not validate it. Equality pairs are kept exactly
/// as given: `(a, b)` and `(b, a)` are distinct entries.
#[derive(Debug, PartialEq)]
pub struct Circuit {
    pub signature: Signature,
    pub wires: WireList,
    pub nodes: Vec<Node>,
    pub equalities: Vec<(Wire, Wire)>,
}

impl View for Circuit {
    type V = CircuitModel;

    open spec fn view(&self) -> CircuitModel {
        CircuitModel {
            signature: self.signature@,
            wires: self.wires@,
            nodes: nodes_view(self.nodes@),
            equalities: self.equalities.deep_view(),
        }
    }
}

impl Clone for Circuit {
    fn clone(&self) -> (res: Self)
        ensures
            res@ == self@,
    {
        let res = Circuit {
            signature: self.signature.clone(),
            wires: self.wires.clone(),
            nodes: clone_nodes(&self.nodes),
            equalities: clone_wire_pairs(&self.equalities),
        };
        res
    }
}

/// An element-by-element copy of a vector of wire pairs.
fn clone_wire_pairs(v: &Vec<(Wire, Wire)>) -> (res: Vec<(Wire, Wire)>)
    ensures
        res@ == v@,
{
    let n = v.len();
    let mut res: Vec<(Wire, Wire)> = Vec::new();
    let mut i: usize = 0;
    while i < n
        invariant
            n == v.len(),
            i <= n,
            res@ == v@.subrange(0, i as int),
        decreases n - i,
    {
        let pair = (v[i].0.clone(), v[i].1.clone());
        res.push(pair);
        i += 1;
        proof {
            assert(v@.subrange(0, i - 1).push(v@[i - 1]) =~= v@.subrange(0, i as int));
        }
    }
    proof {
        assert(v@.subrange(0, n as int) =~= v@);
    }
    res
}

/// A name-keyed registry of circuit definitions. Populated once while a
/// module loads, read-only thereafter; registering a name already present
/// shadows the earlier definition and hands it back.
pub struct Definitions(StringHashMap<Circuit>);

impl View for Definitions {
    type V = Map<Seq<char>, CircuitModel>;

    closed spec fn view(&self) -> Map<Seq<char>, CircuitModel> {
        self.0@.map_values(|c: Circuit| c@)
    }
}

impl Definitions {
    /// An empty registry.
    pub fn new() -> (res: Self)
        ensures
            res@ == Map::<Seq<char>, CircuitModel>::empty(),
    {
        let res = Definitions(StringHashMap::new());
        proof {
            assert(res@ =~= Map::<Seq<char>, CircuitModel>::empty());
        }
        res
    }

    /// Registers `circuit` under `name`. Returns `None` on the first
    /// registration of the name and the displaced definition on a
    /// redefinition, so callers can detect shadowing.
    pub fn insert(&mut self, name: String, circuit: Circuit) -> (r: Option<Circuit>)
        ensures
            final(self)@ == old(self)@.insert(name@, circuit@),
            (r matches Some(prev) ==> old(self)@.contains_key(name@) && prev@ == old(self)@[name@]),
            (r is None <==> !old(self)@.contains_key(name@)),
    {
        let prev = match self.0.get(name.as_str()) {
            Some(c) => Some(c.clone()),
            None => None,
        };
        self.0.insert(name, circuit);
        proof {
            assert(self@ =~= old(self)@.insert(name@, circuit@));
        }
        prev
    }

    /// Resolves a name to its registered circuit; an absent name yields
    /// `None`, which the consuming compiler pass surfaces as an
    /// unresolved-reference error.
    pub fn get(&self, name: &str) -> (r: Option<&Circuit>)
        ensures
            (r matches Some(c) ==> self@.contains_key(name@) && c@ == self@[name@]),
            (r is None <==> !self@.contains_key(name@)),
    {
        self.0.get(name)
    }
}

impl Default for Definitions {
    fn default() -> (res: Self)
        ensures
            res@ == Map::<Seq<char>, CircuitModel>::empty(),
    {
        Definitions::new()
    }
}

/// Mathematical model of a [`Vampir`] artifact.
pub struct VampirModel {
    pub definitions: Map<Seq<char>, CircuitModel>,
    pub circuit: CircuitModel,
}

/// The top-level artifact: the definition registry together with the one
/// designated circuit to compile. The registry is expected to contain
/// every circuit the designated one transitively invokes.
pub struct Vampir {
    pub definitions: Definitions,
    pub circuit: Circuit,
}

impl View for Vampir {
    type V = VampirModel;

    open spec fn view(&self) -> VampirModel {
        VampirModel { definitions: self.definitions@, circuit: self.circuit@ }
    }
}

/// Registering a circuit and then resolving the same name yields exactly
/// the circuit just registered, whatever that name was bound to before.
pub proof fn lemma_register_then_resolve(
    defs: Map<Seq<char>, CircuitModel>,
    name: Seq<char>,
    circuit: CircuitModel,
)
    ensures
        defs.insert(name, circuit).contains_key(name),
        defs.insert(name, circuit)[name] == circuit,
{
}

} // verus!
