//! What holds of every graph that was decoded.

use vstd::prelude::*;
use crate::decode::{decode, Survey};
use crate::error::{outcome, Error, ErrorView};
use crate::graph::{
    carries, listed, EdgeId, EdgeView, GeomClass, GeomView, Graph, GraphView, NodeId,
};
use crate::order::{ascending_pairs, in_order, lemma_in_order, pair_lt};
use crate::structs as raw;

verus! {

/// Whether the geoms of class `PART`, and only they, say something of their
/// table.
pub open spec fn tables_with_parts(nodes: Map<NodeId, GeomView>) -> bool {
    forall|n: NodeId| #[trigger]
        nodes.contains_key(n) ==> (nodes[n].metadata is Some <==> nodes[n].class
            == GeomClass::PART)
}

proof fn lemma_consumers_keep_nodes(s: Survey, cs: Seq<raw::ConsumerView>, i: int)
    ensures
        s.consumers_from(cs, i) matches Ok(t) ==> t.nodes == s.nodes && (s.pairs.finite()
            ==> t.pairs.finite()),
    decreases cs.len() - i,
{
    if 0 <= i < cs.len() {
        if let Ok(next) = s.consumer(cs[i]) {
            lemma_consumers_keep_nodes(next, cs, i + 1);
        }
    }
}

proof fn lemma_providers_keep_nodes(s: Survey, ps: Seq<raw::ProviderView>, i: int)
    ensures
        s.providers_from(ps, i) matches Ok(t) ==> t.nodes == s.nodes && t.pairs == s.pairs,
    decreases ps.len() - i,
{
    if 0 <= i < ps.len() {
        if let Ok(next) = s.provider(ps[i]) {
            lemma_providers_keep_nodes(next, ps, i + 1);
        }
    }
}

proof fn lemma_geoms_keep_tables(s: Survey, class: GeomClass, gs: Seq<raw::GeomView>, i: int)
    requires
        tables_with_parts(s.nodes),
        s.pairs.finite(),
    ensures
        s.geoms_from(class, gs, i) matches Ok(t) ==> tables_with_parts(t.nodes)
            && t.pairs.finite(),
    decreases gs.len() - i,
{
    if 0 <= i < gs.len() {
        if let Ok(next) = s.geom(class, gs[i]) {
            let g = gs[i];
            let id = crate::scan::scan_hex(g.id).unwrap();
            let node = GeomView::of(class, g)->Ok_0;
            let with_node = Survey {
                nodes: s.nodes.insert(id, node),
                consumers: s.consumers,
                providers: s.providers,
                pairs: s.pairs,
            };
            lemma_consumers_keep_nodes(with_node, g.consumers, 0);
            let with_consumers = with_node.consumers_from(g.consumers, 0)->Ok_0;
            lemma_providers_keep_nodes(with_consumers, g.providers, 0);
            assert(next.nodes == s.nodes.insert(id, node));
            assert(tables_with_parts(next.nodes));
            lemma_geoms_keep_tables(next, class, gs, i + 1);
        }
    }
}

proof fn lemma_classes_keep_tables(s: Survey, cs: Seq<raw::ClassView>, i: int)
    requires
        tables_with_parts(s.nodes),
        s.pairs.finite(),
    ensures
        s.classes_from(cs, i) matches Ok(t) ==> tables_with_parts(t.nodes)
            && t.pairs.finite(),
    decreases cs.len() - i,
{
    if 0 <= i < cs.len() {
        if let Ok(next) = s.class(cs[i]) {
            lemma_geoms_keep_tables(s, GeomClass::named(cs[i].name).unwrap(), cs[i].geoms, 0);
            lemma_classes_keep_tables(next, cs, i + 1);
        }
    }
}

/// What holds of the graph while the second pass is at the `i`-th pair.
spec fn growing(g: GraphView, survey: Survey, order: Seq<EdgeId>, i: int) -> bool {
    &&& g.nodes == survey.nodes
    &&& g.consistent()
    &&& g.symmetric()
    &&& g.ordered()
    &&& forall|e: EdgeId| #[trigger]
        g.edges.contains_key(e) ==> carries(
            g.nodes[g.edges[e].provider_geom].class,
            g.edges[e].metadata,
        )
    &&& forall|e: EdgeId, k: int|
        #![trigger g.edges.contains_key(e), order[k]]
        g.edges.contains_key(e) && i <= k < order.len() ==> pair_lt(e, order[k])
}

proof fn lemma_link_keeps(g: GraphView, survey: Survey, order: Seq<EdgeId>, i: int)
    requires
        growing(g, survey, order, i),
        ascending_pairs(order),
        0 <= i < order.len(),
        survey.edge(order[i]) is Ok,
    ensures
        growing(g.link(order[i], survey.edge(order[i])->Ok_0), survey, order, i + 1),
{
    let id = order[i];
    let e = survey.edge(id)->Ok_0;
    let h = g.link(id, e);
    let parent = e.provider_geom;
    let child = e.consumer_geom;
    assert(!g.edges.contains_key(id)) by {
        if g.edges.contains_key(id) {
            assert(pair_lt(id, order[i]));
        }
    }
    assert forall|n: NodeId| !#[trigger] listed(g.inedges, n).contains(id) by {
        if listed(g.inedges, n).contains(id) {
            let k = choose|k: int| 0 <= k < listed(g.inedges, n).len() && listed(g.inedges, n)[k] == id;
            assert(g.edges.contains_key(g.inedges[n][k]));
        }
    }
    assert forall|n: NodeId| !#[trigger] listed(g.outedges, n).contains(id) by {
        if listed(g.outedges, n).contains(id) {
            let k = choose|k: int| 0 <= k < listed(g.outedges, n).len() && listed(g.outedges, n)[k] == id;
            assert(g.edges.contains_key(g.outedges[n][k]));
        }
    }
    lemma_list_grows(g.inedges, parent, id);
    lemma_list_grows(g.outedges, child, id);
    assert(h.consistent()) by {
        assert forall|n: NodeId, k: int|
            h.inedges.contains_key(n) && 0 <= k < h.inedges[n].len() implies h.edges.contains_key(
            #[trigger] h.inedges[n][k],
        ) by {
            if n == parent && k == listed(g.inedges, parent).len() {
            } else {
                assert(h.inedges[n][k] == g.inedges[n][k]);
            }
        }
        assert forall|n: NodeId, k: int|
            h.outedges.contains_key(n) && 0 <= k < h.outedges[n].len() implies h.edges.contains_key(
            #[trigger] h.outedges[n][k],
        ) by {
            if n == child && k == listed(g.outedges, child).len() {
            } else {
                assert(h.outedges[n][k] == g.outedges[n][k]);
            }
        }
    }
    assert(h.ordered()) by {
        assert forall|n: NodeId| #[trigger] h.inedges.contains_key(n) implies h.inedges[n].len() > 0
            && ascending_pairs(h.inedges[n]) by {
            if n == parent {
                lemma_longer_list(g, listed(g.inedges, parent), order, i);
            }
        }
        assert forall|n: NodeId| #[trigger] h.outedges.contains_key(n) implies h.outedges[n].len()
            > 0 && ascending_pairs(h.outedges[n]) by {
            if n == child {
                lemma_longer_list(g, listed(g.outedges, child), order, i);
            }
        }
    }
    assert(h.symmetric());
    assert forall|f: EdgeId, k: int|
        #![trigger h.edges.contains_key(f), order[k]]
        h.edges.contains_key(f) && i + 1 <= k < order.len() implies pair_lt(f, order[k]) by {
        if f == id {
            assert(pair_lt(order[i], order[k]));
        }
    }
}

/// After `id` was put at the end of the list of `node`, the list of `node`
/// names what it named and `id`, and every other list is as it was.
proof fn lemma_list_grows(index: Map<NodeId, Seq<EdgeId>>, node: NodeId, id: EdgeId)
    ensures
        ({
            let grown = index.insert(node, listed(index, node).push(id));
            &&& forall|n: NodeId| n != node ==> #[trigger] listed(grown, n) == listed(index, n)
            &&& listed(grown, node) == listed(index, node).push(id)
            &&& forall|f: EdgeId| #[trigger]
                listed(grown, node).contains(f) <==> f == id || listed(index, node).contains(f)
        }),
{
    let list = listed(index, node);
    let grown = list.push(id);
    assert forall|f: EdgeId| #[trigger] grown.contains(f) <==> f == id || list.contains(f) by {
        if grown.contains(f) {
            let k = choose|k: int| 0 <= k < grown.len() && grown[k] == f;
            if k < list.len() {
                assert(list[k] == f);
            }
        }
        if list.contains(f) {
            let k = choose|k: int| 0 <= k < list.len() && list[k] == f;
            assert(grown[k] == f);
        }
        if f == id {
            assert(grown[list.len() as int] == f);
        }
    }
}

/// A list of edges of the graph stays ascending when the pair that is next
/// in the order is put at its end.
proof fn lemma_longer_list(g: GraphView, list: Seq<EdgeId>, order: Seq<EdgeId>, i: int)
    requires
        0 <= i < order.len(),
        ascending_pairs(list),
        forall|k: int| 0 <= k < list.len() ==> g.edges.contains_key(#[trigger] list[k]),
        forall|e: EdgeId, k: int|
            #![trigger g.edges.contains_key(e), order[k]]
            g.edges.contains_key(e) && i <= k < order.len() ==> pair_lt(e, order[k]),
    ensures
        ascending_pairs(list.push(order[i])),
{
    let grown = list.push(order[i]);
    assert forall|a: int, b: int| 0 <= a < b < grown.len() implies pair_lt(
        #[trigger] grown[a],
        #[trigger] grown[b],
    ) by {
        if b < list.len() {
            assert(pair_lt(list[a], list[b]));
        } else {
            assert(g.edges.contains_key(list[a]));
            assert(pair_lt(list[a], order[i]));
        }
    }
}

/// The second pass keeps what holds of the graph, takes up every pair that
/// was still to come, and leaves alone what was there.
proof fn lemma_resolve_keeps(g: GraphView, survey: Survey, order: Seq<EdgeId>, i: int)
    requires
        growing(g, survey, order, i),
        ascending_pairs(order),
        0 <= i <= order.len(),
    ensures
        g.resolve_from(survey, order, i) matches Ok(done) ==> {
            &&& growing(done, survey, order, order.len() as int)
            &&& forall|k: int|
                i <= k < order.len() ==> done.edges.contains_key(#[trigger] order[k])
                    && survey.edge(order[k]) == Ok::<EdgeView, ErrorView>(done.edges[order[k]])
            &&& forall|e: EdgeId| #[trigger]
                done.edges.contains_key(e) ==> g.edges.contains_key(e) || exists|k: int|
                    i <= k < order.len() && order[k] == e
            &&& forall|e: EdgeId| #[trigger]
                g.edges.contains_key(e) ==> done.edges.contains_key(e) && done.edges[e]
                    == g.edges[e]
        },
    decreases order.len() - i,
{
    if i < order.len() {
        if let Ok(e) = survey.edge(order[i]) {
            let h = g.link(order[i], e);
            lemma_link_keeps(g, survey, order, i);
            lemma_resolve_keeps(h, survey, order, i + 1);
            if let Ok(done) = h.resolve_from(survey, order, i + 1) {
                assert(!g.edges.contains_key(order[i])) by {
                    if g.edges.contains_key(order[i]) {
                        assert(pair_lt(order[i], order[i]));
                    }
                }
                assert(h.edges.contains_key(order[i]));
                assert forall|f: EdgeId| #[trigger] g.edges.contains_key(f) implies done.edges.contains_key(
                    f,
                ) && done.edges[f] == g.edges[f] by {
                    assert(h.edges.contains_key(f));
                }
                assert forall|f: EdgeId| #[trigger] done.edges.contains_key(f) implies g.edges.contains_key(
                    f,
                ) || exists|k: int| i <= k < order.len() && order[k] == f by {
                    if !g.edges.contains_key(f) {
                        if h.edges.contains_key(f) {
                            assert(order[i] == f);
                        } else {
                            let k = choose|k: int| i + 1 <= k < order.len() && order[k] == f;
                            assert(i <= k < order.len() && order[k] == f);
                        }
                    }
                }
            }
        }
    }
}

/// What the second pass makes of a survey, taking the pairs in ascending
/// order, is well formed. Its nodes are those of the survey, and its edges are
/// the pairs, each as the survey resolves it.
pub proof fn lemma_resolved_is_wf(survey: Survey, order: Seq<EdgeId>)
    requires
        ascending_pairs(order),
        tables_with_parts(survey.nodes),
    ensures
        GraphView::of_nodes(survey.nodes).resolve_from(survey, order, 0) matches Ok(g) ==> {
            &&& g.wf()
            &&& g.nodes == survey.nodes
            &&& forall|e: EdgeId| #[trigger] g.edges.contains_key(e) <==> order.contains(e)
            &&& forall|e: EdgeId| #[trigger]
                g.edges.contains_key(e) ==> survey.edge(e) == Ok::<EdgeView, ErrorView>(
                    g.edges[e],
                )
        },
{
    let start = GraphView::of_nodes(survey.nodes);
    assert(growing(start, survey, order, 0));
    lemma_resolve_keeps(start, survey, order, 0);
    if let Ok(g) = start.resolve_from(survey, order, 0) {
        assert forall|e: EdgeId| #[trigger] g.edges.contains_key(e) <==> order.contains(e) by {
            if order.contains(e) {
                let k = choose|k: int| 0 <= k < order.len() && order[k] == e;
                assert(g.edges.contains_key(order[k]));
            }
        }
        assert forall|e: EdgeId| #[trigger] g.edges.contains_key(e) implies survey.edge(e) == Ok::<
            EdgeView,
            ErrorView,
        >(g.edges[e]) by {
            let k = choose|k: int| 0 <= k < order.len() && order[k] == e;
            assert(g.edges.contains_key(order[k]));
        }
    }
}

/// The first pass gives a table to the geoms of class `PART`, and to no
/// others, and gathers finitely many pairs.
pub proof fn lemma_survey_has_tables(mesh: raw::MeshView)
    ensures
        Survey::of(mesh) matches Ok(survey) ==> tables_with_parts(survey.nodes)
            && survey.pairs.finite(),
{
    lemma_classes_keep_tables(Survey::empty(), mesh.classes, 0);
}

/// The nodes of a decoded graph are those that the first pass gathers. Its
/// edges are the pairs that the first pass gathers, each as the survey
/// resolves it.
pub proof fn lemma_decoded_holds_survey(mesh: raw::MeshView)
    ensures
        decode(mesh) matches Ok(g) ==> Survey::of(mesh) matches Ok(survey) && {
            &&& g.nodes == survey.nodes
            &&& forall|e: EdgeId| #[trigger] g.edges.contains_key(e) <==> survey.pairs.contains(e)
            &&& forall|e: EdgeId| #[trigger]
                g.edges.contains_key(e) ==> survey.edge(e) == Ok::<EdgeView, ErrorView>(
                    g.edges[e],
                )
        },
{
    if let Ok(survey) = Survey::of(mesh) {
        lemma_survey_has_tables(mesh);
        lemma_in_order(survey.pairs);
        lemma_resolved_is_wf(survey, in_order(survey.pairs));
    }
}

/// Every graph that is decoded is well formed: its edges join nodes of the
/// graph, its adjacency lists name its edges in ascending order, each edge
/// with its parent and its child and nowhere else, and every edge carries
/// what belongs below its parent.
pub proof fn lemma_decoded_is_wf(mesh: raw::MeshView)
    ensures
        decode(mesh) matches Ok(g) ==> g.wf(),
{
    if let Ok(survey) = Survey::of(mesh) {
        lemma_survey_has_tables(mesh);
        lemma_in_order(survey.pairs);
        lemma_resolved_is_wf(survey, in_order(survey.pairs));
    }
}

/// In a decoded graph every edge stands in the in-edges of its parent and in
/// the out-edges of its child, and in no other adjacency list.
pub proof fn lemma_adjacency_is_symmetric(mesh: raw::MeshView, e: EdgeId, n: NodeId)
    requires
        decode(mesh) is Ok,
        decode(mesh)->Ok_0.edges.contains_key(e),
    ensures
        ({
            let g = decode(mesh)->Ok_0;
            &&& listed(g.inedges, n).contains(e) <==> n == g.edges[e].provider_geom
            &&& listed(g.outedges, n).contains(e) <==> n == g.edges[e].consumer_geom
        }),
{
    lemma_decoded_is_wf(mesh);
}

/// In a decoded graph an edge below a geom of class `DISK`, `PART`, `LABEL`
/// or `Flashmap` carries the metadata of that class, where `LABEL` and
/// `Flashmap` share one variant, and an edge below a geom of any other class
/// carries none.
pub proof fn lemma_metadata_fits_parent(mesh: raw::MeshView, e: EdgeId)
    requires
        decode(mesh) is Ok,
        decode(mesh)->Ok_0.edges.contains_key(e),
    ensures
        ({
            let g = decode(mesh)->Ok_0;
            &&& g.nodes.contains_key(g.edges[e].provider_geom)
            &&& carries(g.nodes[g.edges[e].provider_geom].class, g.edges[e].metadata)
        }),
{
    lemma_decoded_is_wf(mesh);
}

/// Decoding one mesh twice gives the same both times: the same nodes, edges
/// and adjacency lists, or the same failure.
pub proof fn lemma_decoding_repeats(
    mesh: raw::Mesh,
    first: Result<Graph, Error>,
    second: Result<Graph, Error>,
)
    requires
        outcome(first) == decode(mesh@),
        outcome(second) == decode(mesh@),
    ensures
        match (first, second) {
            (Ok(a), Ok(b)) => a@.nodes == b@.nodes && a@.edges == b@.edges && a@.outedges
                == b@.outedges && a@.inedges == b@.inedges,
            (Err(a), Err(b)) => a@ == b@,
            _ => false,
        },
{
}

} // verus!
