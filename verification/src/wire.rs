//! Wires and ordered wire lists.

use vstd::prelude::*;
use vstd::std_specs::iter::IteratorSpec;

verus! {

/// Mathematical model of a [`Wire`]: a name is a sequence of characters,
/// a positional index a natural number.
pub enum WireModel {
    Named(Seq<char>),
    Constant(i64),
    Index(nat),
}

/// A literal field constant.
#[derive(Debug, Clone, Copy, PartialEq, Eq, Structural)]
pub struct Constant(pub i64);

/// An atomic identifier for a value flowing through a circuit: a name,
/// an integer literal, or a positional index. Wires are compared by
/// structural value: two `Named` wires with the same identifier denote
/// the same wire.
#[derive(Debug, Eq, Hash)]
pub enum Wire {
    Named(String),
    Constant(i64),
    Index(usize),
}

impl View for Wire {
    type V = WireModel;

    open spec fn view(&self) -> WireModel {
        match self {
            Wire::Named(s) => WireModel::Named(s@),
            Wire::Constant(c) => WireModel::Constant(*c),
            Wire::Index(i) => WireModel::Index(*i as nat),
        }
    }
}

impl DeepView for Wire {
    type V = WireModel;

    open spec fn deep_view(&self) -> WireModel {
        self@
    }
}

impl Clone for Wire {
    fn clone(&self) -> (res: Self)
        ensures
            res == *self,
    {
        match self {
            Wire::Named(s) => Wire::Named(s.clone()),
            Wire::Constant(c) => Wire::Constant(*c),
            Wire::Index(i) => Wire::Index(*i),
        }
    }
}

impl PartialEq for Wire {
    /// Structural value equality: names are compared character by character.
    fn eq(&self, other: &Wire) -> (r: bool) {
        match (self, other) {
            (Wire::Named(a), Wire::Named(b)) => *a == *b,
            (Wire::Constant(a), Wire::Constant(b)) => *a == *b,
            (Wire::Index(a), Wire::Index(b)) => *a == *b,
            _ => false,
        }
    }
}

impl vstd::std_specs::cmp::PartialEqSpecImpl for Wire {
    open spec fn obeys_eq_spec() -> bool {
        true
    }

    open spec fn eq_spec(&self, other: &Wire) -> bool {
        self@ == other@
    }
}

/// The result of inserting `w` into the ordered, deduplicated list `s`:
/// a no-op if a wire of the same value is already present, an append at
/// the back otherwise.
pub open spec fn insert_wire(s: Seq<WireModel>, w: WireModel) -> Seq<WireModel> {
    if s.contains(w) {
        s
    } else {
        s.push(w)
    }
}

/// No two positions of `s` hold the same wire value.
pub open spec fn unique_wires(s: Seq<WireModel>) -> bool {
    forall|i: int, j: int| 0 <= i < j < s.len() ==> s[i] != s[j]
}

/// An ordered sequence of wires. [`WireList::insert`] deduplicates,
/// preserving first-seen order; [`WireList::push`] and
/// [`WireList::concat`] append verbatim and may introduce duplicates.
#[derive(Debug, PartialEq, Eq, Hash)]
pub struct WireList(pub Vec<Wire>);

impl View for WireList {
    type V = Seq<WireModel>;

    open spec fn view(&self) -> Seq<WireModel> {
        self.0.deep_view()
    }
}

impl WireList {
    /// The empty wire list.
    pub fn new() -> (res: Self)
        ensures
            res@ == Seq::<WireModel>::empty(),
    {
        let res = WireList(Vec::new());
        proof {
            assert(res@ =~= Seq::<WireModel>::empty());
        }
        res
    }

    /// A forward, terminating, restartable iterator over the wires of the
    /// list, front to back.
    pub fn iter<'a>(&'a self) -> (r: std::slice::Iter<'a, Wire>)
        ensures
            IteratorSpec::remaining(&r).len() == self@.len(),
            forall|i: int|
                0 <= i < self@.len() ==> (#[trigger] IteratorSpec::remaining(&r)[i])@ == self@[i],
    {
        let r = self.0.as_slice().iter();
        proof {
            assert(IteratorSpec::remaining(&r) == self.0@.as_ref());
            assert(forall|i: int|
                0 <= i < self@.len() ==> (#[trigger] IteratorSpec::remaining(&r)[i])@ == self@[i]);
        }
        r
    }

    /// Appends `wire` at the back, whether or not it is already present.
    pub fn push(&mut self, wire: Wire)
        ensures
            final(self)@ == old(self)@.push(wire@),
    {
        self.0.push(wire);
        proof {
            assert(self@ =~= old(self)@.push(wire@));
        }
    }

    /// Whether a wire of the same value as `wire` is present.
    fn contains(&self, wire: &Wire) -> (r: bool)
        ensures
            r == self@.contains(wire@),
    {
        let n = self.0.len();
        let mut i: usize = 0;
        while i < n
            invariant
                n == self.0.len(),
                i <= n,
                forall|j: int| 0 <= j < i ==> self@[j] != wire@,
            decreases n - i,
        {
            if &self.0[i] == wire {
                proof {
                    assert(self@[i as int] == wire@);
                }
                return true;
            }
            i += 1;
        }
        proof {
            assert(forall|j: int| 0 <= j < self@.len() ==> self@[j] != wire@);
        }
        false
    }

    /// Appends `wire` unless a wire of the same value is already present,
    /// preserving first-seen order.
    pub fn insert(&mut self, wire: &Wire)
        ensures
            final(self)@ == insert_wire(old(self)@, wire@),
    {
        if !self.contains(wire) {
            self.push(wire.clone());
        }
    }

    /// Appends every element of `another` verbatim, duplicates included.
    pub fn concat(&mut self, another: &Self)
        ensures
            final(self)@ == old(self)@ + another@,
    {
        let n = another.0.len();
        let mut i: usize = 0;
        while i < n
            invariant
                n == another.0.len(),
                i <= n,
                self@ == old(self)@ + another@.subrange(0, i as int),
            decreases n - i,
        {
            self.push(another.0[i].clone());
            i += 1;
            proof {
                assert(another@.subrange(0, i - 1).push(another@[i - 1]) =~= another@.subrange(
                    0,
                    i as int,
                ));
            }
        }
        proof {
            assert(another@.subrange(0, n as int) =~= another@);
        }
    }

    /// The number of wires in the list.
    pub fn len(&self) -> (r: usize)
        ensures
            r == self@.len(),
    {
        self.0.len()
    }

    /// Whether the list holds no wires.
    pub fn is_empty(&self) -> (r: bool)
        ensures
            r == (self@.len() == 0),
    {
        self.0.is_empty()
    }
}

impl Clone for WireList {
    fn clone(&self) -> (res: Self)
        ensures
            res@ == self@,
    {
        let res = WireList(clone_wires(&self.0));
        res
    }
}

impl Default for WireList {
    fn default() -> (res: Self)
        ensures
            res@ == Seq::<WireModel>::empty(),
    {
        WireList::new()
    }
}

/// An element-by-element copy of a wire vector.
pub(crate) fn clone_wires(v: &Vec<Wire>) -> (res: Vec<Wire>)
    ensures
        res@ == v@,
{
    let n = v.len();
    let mut res: Vec<Wire> = Vec::new();
    let mut i: usize = 0;
    while i < n
        invariant
            n == v.len(),
            i <= n,
            res@ == v@.subrange(0, i as int),
        decreases n - i,
    {
        res.push(v[i].clone());
        i += 1;
        proof {
            assert(v@.subrange(0, i - 1).push(v@[i - 1]) =~= v@.subrange(0, i as int));
        }
    }
    proof {
        assert(v@.subrange(0, n as int) =~= v@);
    }
    res
}

/// Inserting the same wire twice leaves the list as one insertion leaves
/// it: the second insertion changes neither length nor order.
pub proof fn lemma_insert_idempotent(s: Seq<WireModel>, w: WireModel)
    ensures
        insert_wire(insert_wire(s, w), w) == insert_wire(s, w),
{
    if !s.contains(w) {
        assert(s.push(w)[s.len() as int] == w);
        assert(s.push(w).contains(w));
    }
}

/// A list built exclusively through [`WireList::insert`] holds no
/// duplicate wires: insertion preserves uniqueness.
pub proof fn lemma_insert_preserves_unique(s: Seq<WireModel>, w: WireModel)
    requires
        unique_wires(s),
    ensures
        unique_wires(insert_wire(s, w)),
{
    if !s.contains(w) {
        assert forall|i: int, j: int| 0 <= i < j < s.push(w).len() implies s.push(w)[i] != s.push(
            w,
        )[j] by {
            if j == s.len() {
                assert(s[i] == s.push(w)[i]);
                assert(!s.contains(w));
                assert(s[i] != w);
            }
        }
    }
}

/// Concatenation is associative in effect on ordered content: appending
/// `b` then `c` flattens to the same sequence as appending `b + c`.
pub proof fn lemma_concat_associative(a: Seq<WireModel>, b: Seq<WireModel>, c: Seq<WireModel>)
    ensures
        (a + b) + c == a + (b + c),
{
    assert((a + b) + c =~= a + (b + c));
}

} // verus!
