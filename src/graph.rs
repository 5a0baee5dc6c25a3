//! Render graph: labeled nodes with ordering edges, executed in an order
//! that puts every node after the nodes it depends on.
use vstd::prelude::*;
use vstd::set_lib::{lemma_int_range, lemma_len_subset, set_int_range};

verus! {

/// Label of a render graph node.
#[derive(Clone, Copy, Debug, PartialEq, Eq, Structural)]
pub enum NodeLabel {
    PathTracer,
    CameraDriver,
    Tonemap,
    Present,
    Other(u32),
}

#[derive(Clone, Copy, Debug, PartialEq, Eq, Structural)]
pub enum GraphError {
    DuplicateLabel(NodeLabel),
    UnknownLabel(NodeLabel),
    /// The edges form a cycle, so no order satisfies them.
    Cycle,
}

/// An edge `(from, to)`: node `from` runs before node `to`.
pub struct GraphModel {
    pub labels: Seq<NodeLabel>,
    pub edges: Seq<(usize, usize)>,
}

impl GraphModel {
    pub open spec fn wf(&self) -> bool {
        &&& forall|i: int, j: int|
            0 <= i < self.labels.len() && 0 <= j < self.labels.len() && i != j ==> self.labels[i]
                != self.labels[j]
        &&& forall|e: int|
            0 <= e < self.edges.len() ==> (#[trigger] self.edges[e]).0 < self.labels.len()
                && self.edges[e].1 < self.labels.len()
    }

    /// `order` lists every node exactly once, and each edge's source comes
    /// before its target.
    pub open spec fn is_execution_order(&self, order: Seq<usize>) -> bool {
        &&& order.len() == self.labels.len()
        &&& order.no_duplicates()
        &&& forall|k: int| 0 <= k < order.len() ==> order[k] < self.labels.len()
        &&& forall|v: usize| v < self.labels.len() ==> #[trigger] order.contains(v)
        &&& forall|e: int, i: int, j: int|
            #![trigger self.edges[e], order[i], order[j]]
            0 <= e < self.edges.len() && 0 <= i < order.len() && 0 <= j < order.len() && order[i]
                == self.edges[e].0 && order[j] == self.edges[e].1 ==> i < j
    }

    /// A nonempty set of nodes each of which has a predecessor inside the
    /// set: following predecessors never leaves it, so the graph has a
    /// cycle.
    pub open spec fn is_cyclic_core(&self, s: Set<int>) -> bool {
        &&& exists|v: int| s.contains(v)
        &&& forall|v: int|
            s.contains(v) ==> 0 <= v < self.labels.len() && exists|e: int|
                0 <= e < self.edges.len() && (#[trigger] self.edges[e]).1 == v && s.contains(
                    self.edges[e].0 as int,
                )
    }
}

pub struct RenderGraph {
    labels: Vec<NodeLabel>,
    edges: Vec<(usize, usize)>,
}

impl View for RenderGraph {
    type V = GraphModel;

    closed spec fn view(&self) -> GraphModel {
        GraphModel { labels: self.labels@, edges: self.edges@ }
    }
}

/// A duplicate-free sequence of nodes below `n` that leaves out `extra`
/// (also below `n`) is shorter than `n`.
proof fn lemma_room_for_another(s: Seq<usize>, n: nat, extra: usize)
    requires
        s.no_duplicates(),
        forall|k: int| 0 <= k < s.len() ==> s[k] < n,
        extra < n,
        !s.contains(extra),
    ensures
        s.len() < n,
{
    let t = s.push(extra).map_values(|x: usize| x as int);
    assert forall|i: int, j: int| 0 <= i < t.len() && 0 <= j < t.len() && i != j implies t[i]
        != t[j] by {
        if i < s.len() && j < s.len() {
        } else if i < s.len() {
            assert(s.push(extra)[j] == extra);
            assert(s[i] != extra);
        } else {
            assert(s.push(extra)[i] == extra);
            assert(s[j] != extra);
        }
    }
    assert(t.no_duplicates());
    t.unique_seq_to_set();
    lemma_int_range(0, n as int);
    assert forall|x: int| t.to_set().contains(x) implies set_int_range(0, n as int).contains(x) by {
        let i = choose|i: int| 0 <= i < t.len() && t[i] == x;
        if i < s.len() {
            assert(s.push(extra)[i] == s[i]);
        }
    }
    lemma_len_subset(t.to_set(), set_int_range(0, n as int));
}

impl RenderGraph {
    pub open spec fn wf(&self) -> bool {
        self@.wf()
    }

    pub fn new() -> (r: RenderGraph)
        ensures
            r.wf(),
            r@.labels.len() == 0,
            r@.edges.len() == 0,
    {
        RenderGraph { labels: Vec::new(), edges: Vec::new() }
    }

    /// Index of the node labeled `label`, if there is one.
    pub fn index_of(&self, label: NodeLabel) -> (r: Option<usize>)
        ensures
            match r {
                Some(i) => i < self@.labels.len() && self@.labels[i as int] == label,
                None => !self@.labels.contains(label),
            },
    {
        let mut i: usize = 0;
        while i < self.labels.len()
            invariant
                i <= self.labels.len(),
                forall|j: int| 0 <= j < i ==> self@.labels[j] != label,
            decreases self.labels.len() - i,
        {
            if self.labels[i] == label {
                return Some(i);
            }
            i = i + 1;
        }
        None
    }

    /// Adds a node; a label already present is refused.
    pub fn add_node(&mut self, label: NodeLabel) -> (r: Result<usize, GraphError>)
        requires
            old(self).wf(),
        ensures
            final(self).wf(),
            old(self)@.labels.contains(label) ==> r == Err::<usize, GraphError>(
                GraphError::DuplicateLabel(label),
            ) && final(self)@ == old(self)@,
            !old(self)@.labels.contains(label) ==> (match r {
                Ok(i) => i as nat == old(self)@.labels.len(),
                Err(_) => false,
            }) && final(self)@.labels == old(self)@.labels.push(label) && final(self)@.edges == old(
                self,
            )@.edges,
    {
        match self.index_of(label) {
            Some(_) => Err(GraphError::DuplicateLabel(label)),
            None => {
                let i = self.labels.len();
                self.labels.push(label);
                assert forall|a: int, b: int|
                    0 <= a < self@.labels.len() && 0 <= b < self@.labels.len() && a != b implies self@.labels[a]
                    != self@.labels[b] by {
                    if a < i && b < i {
                        assert(old(self)@.labels[a] != old(self)@.labels[b]);
                    } else if a < i {
                        assert(old(self)@.labels[a] != label);
                    } else if b < i {
                        assert(old(self)@.labels[b] != label);
                    }
                }
                assert forall|e: int| 0 <= e < self@.edges.len() implies (#[trigger] self@.edges[e]).0
                    < self@.labels.len() && self@.edges[e].1 < self@.labels.len() by {
                    assert(old(self)@.edges[e] == self@.edges[e]);
                }
                Ok(i)
            },
        }
    }

    /// Declares that the node labeled `from` runs before the node labeled
    /// `to`; refused if either label is unknown.
    pub fn add_node_edge(&mut self, from: NodeLabel, to: NodeLabel) -> (r: Result<(), GraphError>)
        requires
            old(self).wf(),
        ensures
            final(self).wf(),
            !old(self)@.labels.contains(from) ==> r == Err::<(), GraphError>(
                GraphError::UnknownLabel(from),
            ) && final(self)@ == old(self)@,
            old(self)@.labels.contains(from) && !old(self)@.labels.contains(to) ==> r == Err::<
                (),
                GraphError,
            >(GraphError::UnknownLabel(to)) && final(self)@ == old(self)@,
            old(self)@.labels.contains(from) && old(self)@.labels.contains(to) ==> r is Ok
                && final(self)@.labels == old(self)@.labels && exists|i: usize, j: usize|
                i < old(self)@.labels.len() && j < old(self)@.labels.len() && old(
                    self,
                )@.labels[i as int] == from && old(self)@.labels[j as int] == to
                    && final(self)@.edges == old(self)@.edges.push((i, j)),
    {
        let i = match self.index_of(from) {
            Some(i) => i,
            None => {
                return Err(GraphError::UnknownLabel(from));
            },
        };
        let j = match self.index_of(to) {
            Some(j) => j,
            None => {
                proof {
                    assert(old(self)@.labels[i as int] == from);
                }
                return Err(GraphError::UnknownLabel(to));
            },
        };
        self.edges.push((i, j));
        assert forall|e: int| 0 <= e < self@.edges.len() implies (#[trigger] self@.edges[e]).0
            < self@.labels.len() && self@.edges[e].1 < self@.labels.len() by {
            if e < old(self)@.edges.len() {
                assert(self@.edges[e] == old(self)@.edges[e]);
            }
        }
        Ok(())
    }

    /// Whether every predecessor of node `v` is placed.
    fn predecessors_placed(&self, v: usize, placed: &Vec<bool>) -> (r: bool)
        requires
            self.wf(),
            placed@.len() == self@.labels.len(),
        ensures
            r == forall|e: int|
                0 <= e < self@.edges.len() && (#[trigger] self@.edges[e]).1 == v ==> placed@[self@.edges[e].0 as int],
    {
        let mut e: usize = 0;
        while e < self.edges.len()
            invariant
                self.wf(),
                placed@.len() == self@.labels.len(),
                e <= self.edges.len(),
                forall|f: int|
                    0 <= f < e && (#[trigger] self@.edges[f]).1 == v ==> placed@[self@.edges[f].0 as int],
            decreases self.edges.len() - e,
        {
            let (from, to) = self.edges[e];
            assert(self@.edges[e as int] == (from, to));
            if to == v && !placed[from] {
                return false;
            }
            e = e + 1;
        }
        true
    }

    /// The first unplaced node whose predecessors are all placed; `None`
    /// when every unplaced node has an unplaced predecessor.
    fn next_ready(&self, placed: &Vec<bool>) -> (r: Option<usize>)
        requires
            self.wf(),
            placed@.len() == self@.labels.len(),
        ensures
            match r {
                Some(v) => v < self@.labels.len() && !placed@[v as int] && forall|e: int|
                    0 <= e < self@.edges.len() && (#[trigger] self@.edges[e]).1 == v
                        ==> placed@[self@.edges[e].0 as int],
                None => forall|w: int|
                    0 <= w < self@.labels.len() && !placed@[w] ==> exists|e: int|
                        0 <= e < self@.edges.len() && (#[trigger] self@.edges[e]).1 == w
                            && !placed@[self@.edges[e].0 as int],
            },
    {
        let n = self.labels.len();
        let mut v: usize = 0;
        while v < n
            invariant
                self.wf(),
                n == self@.labels.len(),
                placed@.len() == n,
                v <= n,
                forall|w: int|
                    0 <= w < v && !placed@[w] ==> exists|e: int|
                        0 <= e < self@.edges.len() && (#[trigger] self@.edges[e]).1 == w
                            && !placed@[self@.edges[e].0 as int],
            decreases n - v,
        {
            if !placed[v] && self.predecessors_placed(v, placed) {
                return Some(v);
            }
            v = v + 1;
        }
        None
    }

    fn any_unplaced(&self, placed: &Vec<bool>) -> (r: bool)
        ensures
            r == exists|w: int| 0 <= w < placed@.len() && !placed@[w],
    {
        let mut v: usize = 0;
        while v < placed.len()
            invariant
                v <= placed@.len(),
                forall|w: int| 0 <= w < v ==> placed@[w],
            decreases placed@.len() - v,
        {
            if !placed[v] {
                return true;
            }
            v = v + 1;
        }
        false
    }

    /// An order in which to run the nodes: each node after all nodes with an
    /// edge into it. Fails exactly when the edges contain a cycle.
    pub fn execution_order(&self) -> (r: Result<Vec<usize>, GraphError>)
        requires
            self.wf(),
        ensures
            match r {
                Ok(order) => self@.is_execution_order(order@),
                Err(e) => e == GraphError::Cycle && exists|s: Set<int>| self@.is_cyclic_core(s),
            },
    {
        let n = self.labels.len();
        let mut placed: Vec<bool> = Vec::new();
        while placed.len() < n
            invariant
                placed@.len() <= n,
                forall|v: int| 0 <= v < placed@.len() ==> !placed@[v],
            decreases n - placed@.len(),
        {
            placed.push(false);
        }
        let mut order: Vec<usize> = Vec::new();
        proof {
            lemma_placement_start(self@, placed@);
        }
        loop
            invariant
                self.wf(),
                n == self@.labels.len(),
                placed@.len() == n,
                placement_invariant(self@, order@, placed@),
            decreases n - order@.len(),
        {
            let v = match self.next_ready(&placed) {
                Some(v) => v,
                None => {
                    if self.any_unplaced(&placed) {
                        proof {
                            lemma_stuck_is_cyclic(self@, placed@);
                        }
                        return Err(GraphError::Cycle);
                    }
                    proof {
                        lemma_placement_complete(self@, order@, placed@);
                    }
                    return Ok(order);
                },
            };
            proof {
                lemma_placement_room(self@, order@, placed@, v);
            }
            let ghost before = order@;
            let ghost placed_before = placed@;
            order.push(v);
            placed.set(v, true);
            proof {
                lemma_place_ready(self@, before, placed_before, v);
            }
        }
    }
}

/// The unplaced nodes, when each has an unplaced predecessor and there is
/// one, form a cyclic core.
proof fn lemma_stuck_is_cyclic(g: GraphModel, placed: Seq<bool>)
    requires
        g.wf(),
        placed.len() == g.labels.len(),
        exists|w: int| 0 <= w < placed.len() && !placed[w],
        forall|w: int|
            0 <= w < g.labels.len() && !placed[w] ==> exists|e: int|
                0 <= e < g.edges.len() && (#[trigger] g.edges[e]).1 == w && !placed[g.edges[e].0 as int],
    ensures
        exists|s: Set<int>| g.is_cyclic_core(s),
{
    let n = g.labels.len();
    let core = Set::new(|w: int| 0 <= w < n && !placed[w]);
    let w0 = choose|w: int| 0 <= w < placed.len() && !placed[w];
    assert(core.contains(w0));
    assert forall|w: int| core.contains(w) implies 0 <= w < g.labels.len() && exists|e: int|
        0 <= e < g.edges.len() && (#[trigger] g.edges[e]).1 == w && core.contains(
            g.edges[e].0 as int,
        ) by {
        let e = choose|e: int|
            0 <= e < g.edges.len() && (#[trigger] g.edges[e]).1 == w && !placed[g.edges[e].0 as int];
        assert(core.contains(g.edges[e].0 as int));
    }
    assert(g.is_cyclic_core(core));
}

proof fn lemma_placement_start(g: GraphModel, placed: Seq<bool>)
    requires
        placed.len() == g.labels.len(),
        forall|v: int| 0 <= v < placed.len() ==> !placed[v],
    ensures
        placement_invariant(g, Seq::empty(), placed),
{
    reveal(placement_invariant);
}

proof fn lemma_placement_room(g: GraphModel, order: Seq<usize>, placed: Seq<bool>, v: usize)
    requires
        placement_invariant(g, order, placed),
        v < g.labels.len(),
        !placed[v as int],
    ensures
        order.len() < g.labels.len(),
        !order.contains(v),
{
    reveal(placement_invariant);
    lemma_room_for_another(order, g.labels.len(), v);
}

/// Once every node is placed, the order is a complete execution order.
proof fn lemma_placement_complete(g: GraphModel, order: Seq<usize>, placed: Seq<bool>)
    requires
        g.labels.len() <= usize::MAX,
        placement_invariant(g, order, placed),
        !(exists|w: int| 0 <= w < placed.len() && !placed[w]),
    ensures
        g.is_execution_order(order),
{
    reveal(placement_invariant);
    assert forall|w: usize| w < g.labels.len() implies #[trigger] order.contains(w) by {
        assert(placed[w as int]);
    }
    lemma_permutation_len(order, g.labels.len());
}

/// What holds of a partial execution order: it is duplicate-free, `placed`
/// marks exactly its nodes, each edge between two of its nodes points
/// forward, and each of its nodes has all its predecessors in it.
#[verifier::opaque]
pub open spec fn placement_invariant(g: GraphModel, order: Seq<usize>, placed: Seq<bool>) -> bool {
    &&& placed.len() == g.labels.len()
    &&& order.no_duplicates()
    &&& forall|k: int| 0 <= k < order.len() ==> order[k] < g.labels.len()
    &&& forall|v: int| 0 <= v < g.labels.len() ==> (placed[v] <==> order.contains(v as usize))
    &&& forall|e: int, i: int, j: int|
        #![trigger g.edges[e], order[i], order[j]]
        0 <= e < g.edges.len() && 0 <= i < order.len() && 0 <= j < order.len() && order[i]
            == g.edges[e].0 && order[j] == g.edges[e].1 ==> i < j
    &&& forall|e: int, j: int|
        #![trigger g.edges[e], order[j]]
        0 <= e < g.edges.len() && 0 <= j < order.len() && order[j] == g.edges[e].1
            ==> placed[g.edges[e].0 as int]
}

/// Appending an unplaced node whose predecessors are all placed keeps the
/// placement invariant.
proof fn lemma_place_ready(g: GraphModel, before: Seq<usize>, placed_before: Seq<bool>, v: usize)
    requires
        g.wf(),
        g.labels.len() <= usize::MAX,
        placement_invariant(g, before, placed_before),
        v < g.labels.len(),
        !placed_before[v as int],
        forall|e: int|
            0 <= e < g.edges.len() && (#[trigger] g.edges[e]).1 == v ==> placed_before[g.edges[e].0 as int],
    ensures
        placement_invariant(g, before.push(v), placed_before.update(v as int, true)),
{
    reveal(placement_invariant);
    let order = before.push(v);
    let placed = placed_before.update(v as int, true);
    assert(!before.contains(v));
    assert forall|k: int| 0 <= k < before.len() implies order[k] != v by {
        assert(before.contains(before[k]));
    }
    assert forall|i: int, j: int| 0 <= i < order.len() && 0 <= j < order.len() && i != j implies order[i]
        != order[j] by {
        if i < before.len() && j < before.len() {
            assert(order[i] == before[i] && order[j] == before[j]);
        }
    }
    assert forall|w: int| 0 <= w < g.labels.len() implies (placed[w] <==> order.contains(
        w as usize,
    )) by {
        if w != v {
            if order.contains(w as usize) {
                let k = choose|k: int| 0 <= k < order.len() && order[k] == w as usize;
                assert(k < before.len());
                assert(before[k] == w as usize);
            } else if placed[w] {
                let k = choose|k: int| 0 <= k < before.len() && before[k] == w as usize;
                assert(order[k] == w as usize);
            }
        } else {
            assert(order[before.len() as int] == v);
        }
    }
    assert forall|e: int, i: int, j: int|
        #![trigger g.edges[e], order[i], order[j]]
        0 <= e < g.edges.len() && 0 <= i < order.len() && 0 <= j < order.len() && order[i]
            == g.edges[e].0 && order[j] == g.edges[e].1 implies i < j by {
        if i == before.len() {
            if j < before.len() {
                assert(before[j] == g.edges[e].1);
                assert(placed_before[g.edges[e].0 as int]);
            } else {
                assert(placed_before[g.edges[e].0 as int]);
            }
        } else if j < before.len() {
            assert(before[i] == g.edges[e].0);
            assert(before[j] == g.edges[e].1);
        }
    }
    assert forall|e: int, j: int|
        #![trigger g.edges[e], order[j]]
        0 <= e < g.edges.len() && 0 <= j < order.len() && order[j] == g.edges[e].1 implies placed[g.edges[e].0 as int] by {
        if j < before.len() {
            assert(before[j] == g.edges[e].1);
            assert(placed_before[g.edges[e].0 as int]);
        } else {
            assert(placed_before[g.edges[e].0 as int]);
        }
    }
}

/// A duplicate-free sequence of nodes below `n` that holds every node
/// below `n` has length `n`.
proof fn lemma_permutation_len(order: Seq<usize>, n: nat)
    requires
        order.no_duplicates(),
        forall|k: int| 0 <= k < order.len() ==> order[k] < n,
        forall|w: usize| w < n ==> #[trigger] order.contains(w),
        n <= usize::MAX,
    ensures
        order.len() == n,
{
    let s = order.map_values(|x: usize| x as int);
    assert(s.no_duplicates());
    s.unique_seq_to_set();
    lemma_int_range(0, n as int);
    assert forall|x: int| s.to_set().contains(x) implies set_int_range(0, n as int).contains(x) by {
        let i = choose|i: int| 0 <= i < s.len() && s[i] == x;
    }
    assert forall|x: int| set_int_range(0, n as int).contains(x) implies s.to_set().contains(x) by {
        assert(order.contains(x as usize));
        let k = choose|k: int| 0 <= k < order.len() && order[k] == x as usize;
        assert(s[k] == x);
    }
    lemma_len_subset(s.to_set(), set_int_range(0, n as int));
    lemma_len_subset(set_int_range(0, n as int), s.to_set());
}

} // verus!
