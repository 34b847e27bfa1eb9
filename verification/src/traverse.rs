//! Walking a graph: its roots, and from a node to its children.
//!
//! Each walk is a cursor with a `next` method. A cursor borrows the graph and
//! can be made afresh at any time.

use vstd::prelude::*;
use std::collections::BTreeMap;
use crate::graph::{listed, Edge, EdgeId, EdgeView, Geom, GeomView, Graph, GraphView, NodeId};
use crate::order::keys_in_order;

verus! {

/// Whether `s` holds the roots among `nodes`, the nodes of rank 1, each once
/// with its number, in the ascending order of the numbers.
pub open spec fn lists_roots(s: Seq<(NodeId, GeomView)>, nodes: Map<NodeId, GeomView>) -> bool {
    &&& forall|i: int, j: int| 0 <= i < j < s.len() ==> (#[trigger] s[i]).0 < (#[trigger] s[j]).0
    &&& forall|i: int|
        0 <= i < s.len() ==> nodes.contains_key((#[trigger] s[i]).0) && nodes[s[i].0] == s[i].1
            && s[i].1.rank == 1
    &&& forall|n: NodeId|
        nodes.contains_key(n) && nodes[n].rank == 1 ==> exists|i: int|
            0 <= i < s.len() && (#[trigger] s[i]).0 == n
}

/// A list of roots without its last lists the roots among the other nodes.
proof fn lemma_fewer_roots(s: Seq<(NodeId, GeomView)>, nodes: Map<NodeId, GeomView>)
    requires
        lists_roots(s, nodes),
        s.len() > 0,
    ensures
        lists_roots(s.drop_last(), nodes.remove(s.last().0)),
{
    let front = s.drop_last();
    let rest = nodes.remove(s.last().0);
    assert forall|i: int| 0 <= i < front.len() implies rest.contains_key((#[trigger] front[i]).0)
        && rest[front[i].0] == front[i].1 && front[i].1.rank == 1 by {
        assert(s[i].0 < s[s.len() - 1].0);
    }
    assert forall|n: NodeId| rest.contains_key(n) && rest[n].rank == 1 implies exists|i: int|
        0 <= i < front.len() && (#[trigger] front[i]).0 == n by {
        let i = choose|i: int| 0 <= i < s.len() && (#[trigger] s[i]).0 == n;
        assert(front[i].0 == n);
    }
}

/// The nodes of a graph have one list of roots only.
pub proof fn lemma_one_list_of_roots(
    a: Seq<(NodeId, GeomView)>,
    b: Seq<(NodeId, GeomView)>,
    nodes: Map<NodeId, GeomView>,
)
    requires
        lists_roots(a, nodes),
        lists_roots(b, nodes),
    ensures
        a == b,
    decreases a.len(),
{
    if a.len() == 0 {
        if b.len() > 0 {
            assert(nodes.contains_key(b[0].0));
            let i = choose|i: int| 0 <= i < a.len() && (#[trigger] a[i]).0 == b[0].0;
        }
        assert(a =~= b);
    } else {
        let last = a[a.len() - 1];
        assert(nodes.contains_key(last.0));
        let j = choose|j: int| 0 <= j < b.len() && (#[trigger] b[j]).0 == last.0;
        let other = b[b.len() - 1];
        assert(nodes.contains_key(other.0));
        let i = choose|i: int| 0 <= i < a.len() && (#[trigger] a[i]).0 == other.0;
        if i < a.len() - 1 {
            assert(a[i].0 < a[a.len() - 1].0);
        }
        if j < b.len() - 1 {
            assert(b[j].0 < b[b.len() - 1].0);
        }
        assert(last == other);
        lemma_fewer_roots(a, nodes);
        lemma_fewer_roots(b, nodes);
        lemma_one_list_of_roots(a.drop_last(), b.drop_last(), nodes.remove(last.0));
        assert(a =~= a.drop_last().push(last));
        assert(b =~= b.drop_last().push(other));
    }
}

/// The children of `node`: for each of its in-edges, in the order of the
/// list, the key of the edge and the edge.
pub open spec fn child_edges(g: GraphView, node: NodeId) -> Seq<(EdgeId, EdgeView)> {
    listed(g.inedges, node).map_values(|e: EdgeId| (e, g.edges[e]))
}

/// The children of `node`: for each of its in-edges, in the order of the
/// list, the key of the edge, the edge and the geom that consumes.
pub open spec fn child_geoms(g: GraphView, node: NodeId) -> Seq<(EdgeId, EdgeView, GeomView)> {
    listed(g.inedges, node).map_values(
        |e: EdgeId| (e, g.edges[e], g.nodes[g.edges[e].consumer_geom]),
    )
}

/// The roots of a graph, one after the other.
#[derive(Debug)]
pub struct RootsIter<'a> {
    roots: Vec<(&'a NodeId, &'a Geom)>,
    pos: usize,
}

impl<'a> RootsIter<'a> {
    /// What is still to come.
    pub closed spec fn remaining(&self) -> Seq<(NodeId, GeomView)> {
        Seq::new(
            if self.pos <= self.roots.len() {
                (self.roots.len() - self.pos) as nat
            } else {
                0
            },
            |i: int| (*self.roots[self.pos + i].0, self.roots[self.pos + i].1@),
        )
    }

    /// The next root, if there is one.
    pub fn next(&mut self) -> (r: Option<(&'a NodeId, &'a Geom)>)
        ensures
            match r {
                Some((id, geom)) => old(self).remaining().len() > 0 && (*id, geom@) == old(
                    self,
                ).remaining()[0] && final(self).remaining() == old(self).remaining().drop_first(),
                None => old(self).remaining().len() == 0 && final(self).remaining().len() == 0,
            },
    {
        if self.pos < self.roots.len() {
            let found = self.roots[self.pos];
            self.pos += 1;
            assert(self.remaining() =~= old(self).remaining().drop_first());
            Some(found)
        } else {
            None
        }
    }
}

/// The keys of the in-edges of one node, one after the other.
#[derive(Debug)]
pub struct ChildEdgeIdsIter<'a> {
    list: Option<&'a Vec<EdgeId>>,
    pos: usize,
}

impl<'a> ChildEdgeIdsIter<'a> {
    /// What is still to come.
    pub closed spec fn remaining(&self) -> Seq<EdgeId> {
        match self.list {
            Some(list) => if self.pos <= list.len() {
                list@.skip(self.pos as int)
            } else {
                Seq::empty()
            },
            None => Seq::empty(),
        }
    }

    /// The key of the next in-edge, if there is one.
    pub fn next(&mut self) -> (r: Option<&'a EdgeId>)
        ensures
            match r {
                Some(id) => old(self).remaining().len() > 0 && *id == old(self).remaining()[0]
                    && final(self).remaining() == old(self).remaining().drop_first(),
                None => old(self).remaining().len() == 0 && final(self).remaining().len() == 0,
            },
    {
        match self.list {
            Some(list) => {
                if self.pos < list.len() {
                    let id = &list[self.pos];
                    self.pos += 1;
                    assert(self.remaining() =~= old(self).remaining().drop_first());
                    Some(id)
                } else {
                    None
                }
            },
            None => None,
        }
    }
}

/// The part of `list` from `pos` on.
pub open spec fn rest_of(list: Option<&Vec<EdgeId>>, pos: usize) -> Seq<EdgeId> {
    match list {
        Some(list) => if pos <= list.len() {
            list@.skip(pos as int)
        } else {
            Seq::empty()
        },
        None => Seq::empty(),
    }
}

/// The in-edges of one node, one after the other, each with its key.
#[derive(Debug)]
pub struct ChildEdgesIter<'a> {
    edges: &'a BTreeMap<EdgeId, Edge>,
    list: Option<&'a Vec<EdgeId>>,
    pos: usize,
}

impl<'a> ChildEdgesIter<'a> {
    /// Every key that is still to come is the key of an edge.
    #[verifier::type_invariant]
    spec fn all_known(self) -> bool {
        forall|i: int|
            0 <= i < rest_of(self.list, self.pos).len() ==> self.edges@.contains_key(
                #[trigger] rest_of(self.list, self.pos)[i],
            )
    }

    /// What is still to come.
    pub closed spec fn remaining(&self) -> Seq<(EdgeId, EdgeView)> {
        rest_of(self.list, self.pos).map_values(|e: EdgeId| (e, self.edges@[e]@))
    }

    /// The next in-edge, if there is one.
    pub fn next(&mut self) -> (r: Option<(&'a EdgeId, &'a Edge)>)
        ensures
            match r {
                Some((id, edge)) => old(self).remaining().len() > 0 && (*id, edge@) == old(
                    self,
                ).remaining()[0] && final(self).remaining() == old(self).remaining().drop_first(),
                None => old(self).remaining().len() == 0 && final(self).remaining().len() == 0,
            },
    {
        proof {
            use_type_invariant(&*self);
        }
        let list = match self.list {
            Some(list) => list,
            None => { return None; },
        };
        if self.pos >= list.len() {
            return None;
        }
        let ghost before = rest_of(self.list, self.pos);
        let id = &list[self.pos];
        assert(before[0] == *id);
        let edge = match self.edges.get(id) {
            Some(edge) => edge,
            None => vstd::pervasive::unreached(),
        };
        proof {
            assert forall|i: int|
                0 <= i < rest_of(self.list, (self.pos + 1) as usize).len() implies self.edges@.contains_key(
                #[trigger] rest_of(self.list, (self.pos + 1) as usize)[i],
            ) by {
                assert(rest_of(self.list, (self.pos + 1) as usize)[i] == before[i + 1]);
            }
        }
        self.pos += 1;
        assert(self.remaining() =~= old(self).remaining().drop_first());
        Some((id, edge))
    }
}

/// The in-edges of one node, one after the other, each with its key and with
/// the geom that consumes.
#[derive(Debug)]
pub struct ChildGeomsIter<'a> {
    nodes: &'a BTreeMap<NodeId, Geom>,
    edges: &'a BTreeMap<EdgeId, Edge>,
    list: Option<&'a Vec<EdgeId>>,
    pos: usize,
}

impl<'a> ChildGeomsIter<'a> {
    /// Every key that is still to come is the key of an edge, and the child
    /// of that edge is a node.
    #[verifier::type_invariant]
    spec fn all_known(self) -> bool {
        forall|i: int|
            0 <= i < rest_of(self.list, self.pos).len() ==> self.edges@.contains_key(
                #[trigger] rest_of(self.list, self.pos)[i],
            ) && self.nodes@.contains_key(
                self.edges@[rest_of(self.list, self.pos)[i]].consumer_geom,
            )
    }

    /// What is still to come.
    pub closed spec fn remaining(&self) -> Seq<(EdgeId, EdgeView, GeomView)> {
        rest_of(self.list, self.pos).map_values(
            |e: EdgeId| (e, self.edges@[e]@, self.nodes@[self.edges@[e].consumer_geom]@),
        )
    }

    /// The next in-edge with its child, if there is one.
    pub fn next(&mut self) -> (r: Option<(&'a EdgeId, &'a Edge, &'a Geom)>)
        ensures
            match r {
                Some((id, edge, geom)) => old(self).remaining().len() > 0 && (*id, edge@, geom@)
                    == old(self).remaining()[0] && final(self).remaining() == old(
                    self,
                ).remaining().drop_first(),
                None => old(self).remaining().len() == 0 && final(self).remaining().len() == 0,
            },
    {
        proof {
            use_type_invariant(&*self);
        }
        let list = match self.list {
            Some(list) => list,
            None => { return None; },
        };
        if self.pos >= list.len() {
            return None;
        }
        let ghost before = rest_of(self.list, self.pos);
        let id = &list[self.pos];
        assert(before[0] == *id);
        let edge = match self.edges.get(id) {
            Some(edge) => edge,
            None => vstd::pervasive::unreached(),
        };
        let geom = match self.nodes.get(&edge.consumer_geom) {
            Some(geom) => geom,
            None => vstd::pervasive::unreached(),
        };
        proof {
            assert forall|i: int|
                0 <= i < rest_of(self.list, (self.pos + 1) as usize).len() implies self.edges@.contains_key(
                #[trigger] rest_of(self.list, (self.pos + 1) as usize)[i],
            ) && self.nodes@.contains_key(
                self.edges@[rest_of(self.list, (self.pos + 1) as usize)[i]].consumer_geom,
            ) by {
                assert(rest_of(self.list, (self.pos + 1) as usize)[i] == before[i + 1]);
            }
        }
        self.pos += 1;
        assert(self.remaining() =~= old(self).remaining().drop_first());
        Some((id, edge, geom))
    }
}

impl Graph {
    /// The roots of the graph: the nodes of rank 1, in the ascending order of
    /// their numbers.
    pub fn roots_iter(&self) -> (roots: RootsIter<'_>)
        ensures
            lists_roots(roots.remaining(), self@.nodes),
    {
        let keys = keys_in_order(&self.nodes);
        let mut roots: Vec<(&NodeId, &Geom)> = Vec::new();
        let ghost mut picked: Seq<int> = Seq::empty();
        let mut i: usize = 0;
        while i < keys.len()
            invariant
                i <= keys.len(),
                crate::order::lists_ids(keys@.unref(), self.nodes@.dom()),
                picked.len() == roots.len(),
                forall|k: int| 0 <= k < picked.len() ==> 0 <= #[trigger] picked[k] < i,
                forall|k: int, l: int|
                    0 <= k < l < picked.len() ==> #[trigger] picked[k] < #[trigger] picked[l],
                forall|k: int|
                    0 <= k < roots.len() ==> *(#[trigger] roots[k]).0 == *keys[picked[k]]
                        && self.nodes@.contains_key(*roots[k].0) && self.nodes@[*roots[k].0]
                        == *roots[k].1 && roots[k].1.rank == 1,
                forall|j: int|
                    0 <= j < i && self.nodes@[*#[trigger] keys[j]].rank == 1 ==> exists|k: int|
                        0 <= k < picked.len() && #[trigger] picked[k] == j,
            decreases keys.len() - i,
        {
            let key = keys[i];
            assert(keys@.unref()[i as int] == *key);
            assert(keys@.unref().contains(*key));
            let geom = match self.nodes.get(key) {
                Some(geom) => geom,
                None => vstd::pervasive::unreached(),
            };
            let ghost earlier = picked;
            if geom.rank == 1 {
                roots.push((key, geom));
                proof {
                    picked = picked.push(i as int);
                    assert(picked[picked.len() - 1] == i);
                }
            }
            proof {
                assert forall|j: int|
                    0 <= j < i + 1 && self.nodes@[*#[trigger] keys[j]].rank == 1 implies exists|
                    k: int,
                | 0 <= k < picked.len() && #[trigger] picked[k] == j by {
                    if j < i {
                        let k = choose|k: int| 0 <= k < earlier.len() && #[trigger] earlier[k] == j;
                        assert(picked[k] == j);
                    } else {
                        assert(picked[picked.len() - 1] == j);
                    }
                }
            }
            i += 1;
        }
        let found = RootsIter { roots, pos: 0 };
        proof {
            let s = found.remaining();
            let ids = keys@.unref();
            assert(s.len() == roots.len());
            assert forall|a: int, b: int| 0 <= a < b < s.len() implies (#[trigger] s[a]).0 < (
            #[trigger] s[b]).0 by {
                assert(ids[picked[a]] < ids[picked[b]]);
            }
            assert forall|a: int| 0 <= a < s.len() implies self@.nodes.contains_key(
                (#[trigger] s[a]).0,
            ) && self@.nodes[s[a].0] == s[a].1 && s[a].1.rank == 1 by {
                assert(self.nodes@.contains_key(*roots[a].0));
            }
            assert forall|n: NodeId|
                self@.nodes.contains_key(n) && self@.nodes[n].rank == 1 implies exists|a: int|
                0 <= a < s.len() && (#[trigger] s[a]).0 == n by {
                assert(ids.contains(n));
                let j = choose|j: int| 0 <= j < ids.len() && ids[j] == n;
                assert(*keys[j] == n);
                let k = choose|k: int| 0 <= k < picked.len() && picked[k] == j;
                assert(s[k].0 == n);
            }
        }
        found
    }

    /// The keys of the in-edges of the node `id`, in the order of its list.
    /// There are none where the node has no list.
    pub fn child_edgeids_iter(&self, id: &NodeId) -> (children: ChildEdgeIdsIter<'_>)
        ensures
            children.remaining() == listed(self@.inedges, *id),
    {
        let list = self.inedges.get(id);
        let children = ChildEdgeIdsIter { list, pos: 0 };
        assert(children.remaining() =~= listed(self@.inedges, *id));
        children
    }

    /// The in-edges of the node `id`, each with its key.
    pub fn child_edges_iter(&self, id: &NodeId) -> (children: ChildEdgesIter<'_>)
        requires
            self@.consistent(),
        ensures
            children.remaining() == child_edges(self@, *id),
    {
        let list = self.inedges.get(id);
        proof {
            assert forall|i: int| 0 <= i < rest_of(list, 0).len() implies self.edges@.contains_key(
                #[trigger] rest_of(list, 0)[i],
            ) by {
                assert(self@.inedges.contains_key(*id));
                assert(self@.edges.contains_key(self@.inedges[*id][i]));
            }
        }
        let children = ChildEdgesIter { edges: &self.edges, list, pos: 0 };
        assert(children.remaining() =~= child_edges(self@, *id));
        children
    }

    /// The in-edges of the node `id`, each with its key and with the geom
    /// that consumes.
    pub fn child_geoms_iter(&self, id: &NodeId) -> (children: ChildGeomsIter<'_>)
        requires
            self@.consistent(),
        ensures
            children.remaining() == child_geoms(self@, *id),
    {
        let list = self.inedges.get(id);
        proof {
            assert forall|i: int| 0 <= i < rest_of(list, 0).len() implies self.edges@.contains_key(
                #[trigger] rest_of(list, 0)[i],
            ) && self.nodes@.contains_key(self.edges@[rest_of(list, 0)[i]].consumer_geom) by {
                assert(self@.inedges.contains_key(*id));
                let e = self@.inedges[*id][i];
                assert(self@.edges.contains_key(e));
                assert(self@.nodes.contains_key(self@.edges[e].consumer_geom));
            }
        }
        let children = ChildGeomsIter { nodes: &self.nodes, edges: &self.edges, list, pos: 0 };
        assert(children.remaining() =~= child_geoms(self@, *id));
        children
    }
}

} // verus!
