//! From the mesh to the graph.
//!
//! Decoding takes two passes. The first walks the document and gathers the
//! nodes, the consumers and the providers, each under its number, together
//! with the set of pairs of a consumer and the provider it names. The second
//! takes the pairs in ascending order and turns each into an edge.
//!
//! A consumer whose mode is `r0w0e0` goes with a provider of any mode; every
//! other consumer has to show the mode of its provider, letter for letter.

use vstd::prelude::*;
use std::collections::{BTreeMap, BTreeSet};
use crate::error::{outcome, Error, ErrorView};
use crate::graph::{
    Edge, EdgeId, EdgeMetadata, EdgeMetadataView, EdgeView, Geom, GeomClass, GeomView, Graph,
    GraphView, Mode, NodeId, listed, lists_of, same_text,
};
use crate::laws::lemma_decoded_is_wf;
use crate::order::{in_order, pairs_in_order};
use crate::scan::{scan_hex, scan_ptr};
use crate::structs as raw;

verus! {

/// What the first pass gathers from the mesh.
pub struct Survey {
    /// The nodes, by the number of the geom
    pub nodes: Map<NodeId, GeomView>,
    /// The consumers, by their own number
    pub consumers: Map<u64, raw::ConsumerView>,
    /// The providers, by their own number
    pub providers: Map<u64, raw::ProviderView>,
    /// For each consumer, its number and the number of the provider it names
    pub pairs: Set<EdgeId>,
}

impl Survey {
    /// Nothing gathered yet.
    pub open spec fn empty() -> Survey {
        Survey {
            nodes: Map::empty(),
            consumers: Map::empty(),
            providers: Map::empty(),
            pairs: Set::empty(),
        }
    }

    /// Takes up a consumer: under its number, replacing one that had the
    /// same, and with the pair it makes with its provider.
    pub open spec fn consumer(self, c: raw::ConsumerView) -> Result<Survey, ErrorView> {
        match scan_hex(c.id) {
            None => Err(ErrorView::Scan(c.id)),
            Some(id) => match scan_hex(c.provider_ref) {
                None => Err(ErrorView::Scan(c.provider_ref)),
                Some(provider) => Ok(
                    Survey {
                        nodes: self.nodes,
                        consumers: self.consumers.insert(id, c),
                        providers: self.providers,
                        pairs: self.pairs.insert((id, provider)),
                    },
                ),
            },
        }
    }

    /// Takes up the consumers from the `i`-th on, in their order, up to the
    /// first that fails.
    pub open spec fn consumers_from(self, cs: Seq<raw::ConsumerView>, i: int) -> Result<
        Survey,
        ErrorView,
    >
        decreases cs.len() - i,
    {
        if 0 <= i < cs.len() {
            match self.consumer(cs[i]) {
                Ok(next) => next.consumers_from(cs, i + 1),
                Err(e) => Err(e),
            }
        } else {
            Ok(self)
        }
    }

    /// Takes up a provider under its number, replacing one that had the same.
    pub open spec fn provider(self, p: raw::ProviderView) -> Result<Survey, ErrorView> {
        match scan_hex(p.id) {
            None => Err(ErrorView::Scan(p.id)),
            Some(id) => Ok(
                Survey {
                    nodes: self.nodes,
                    consumers: self.consumers,
                    providers: self.providers.insert(id, p),
                    pairs: self.pairs,
                },
            ),
        }
    }

    /// Takes up the providers from the `i`-th on, in their order, up to the
    /// first that fails.
    pub open spec fn providers_from(self, ps: Seq<raw::ProviderView>, i: int) -> Result<
        Survey,
        ErrorView,
    >
        decreases ps.len() - i,
    {
        if 0 <= i < ps.len() {
            match self.provider(ps[i]) {
                Ok(next) => next.providers_from(ps, i + 1),
                Err(e) => Err(e),
            }
        } else {
            Ok(self)
        }
    }

    /// Takes up a geom of class `class`: its node under its number, replacing
    /// one that had the same, then its consumers, then its providers.
    pub open spec fn geom(self, class: GeomClass, g: raw::GeomView) -> Result<Survey, ErrorView> {
        match scan_hex(g.id) {
            None => Err(ErrorView::Scan(g.id)),
            Some(id) => match GeomView::of(class, g) {
                Err(e) => Err(e),
                Ok(node) => match (Survey {
                    nodes: self.nodes.insert(id, node),
                    consumers: self.consumers,
                    providers: self.providers,
                    pairs: self.pairs,
                }).consumers_from(g.consumers, 0) {
                    Err(e) => Err(e),
                    Ok(next) => next.providers_from(g.providers, 0),
                },
            },
        }
    }

    /// Takes up the geoms from the `i`-th on, in their order, up to the first
    /// that fails.
    pub open spec fn geoms_from(self, class: GeomClass, gs: Seq<raw::GeomView>, i: int) -> Result<
        Survey,
        ErrorView,
    >
        decreases gs.len() - i,
    {
        if 0 <= i < gs.len() {
            match self.geom(class, gs[i]) {
                Ok(next) => next.geoms_from(class, gs, i + 1),
                Err(e) => Err(e),
            }
        } else {
            Ok(self)
        }
    }

    /// Takes up a class: its name has to be that of a [`GeomClass`], which is
    /// then the class of its geoms.
    pub open spec fn class(self, c: raw::ClassView) -> Result<Survey, ErrorView> {
        match GeomClass::named(c.name) {
            None => Err(ErrorView::Parse(c.name)),
            Some(class) => self.geoms_from(class, c.geoms, 0),
        }
    }

    /// Takes up the classes from the `i`-th on, in their order, up to the
    /// first that fails.
    pub open spec fn classes_from(self, cs: Seq<raw::ClassView>, i: int) -> Result<
        Survey,
        ErrorView,
    >
        decreases cs.len() - i,
    {
        if 0 <= i < cs.len() {
            match self.class(cs[i]) {
                Ok(next) => next.classes_from(cs, i + 1),
                Err(e) => Err(e),
            }
        } else {
            Ok(self)
        }
    }

    /// What the first pass gathers from `mesh`, or the first failure in the
    /// order of the document.
    pub open spec fn of(mesh: raw::MeshView) -> Result<Survey, ErrorView> {
        Survey::empty().classes_from(mesh.classes, 0)
    }

    /// The edge that a pair of a consumer and a provider stands for.
    ///
    /// Both have to be known. The consumer has to show the mode of the
    /// provider, unless its own is `r0w0e0`. Both have to name a geom that is
    /// a node. The provider's mode has to be readable, and its fields have to
    /// hold what belongs below its geom.
    pub open spec fn edge(self, pair: EdgeId) -> Result<EdgeView, ErrorView> {
        if !self.consumers.contains_key(pair.0) || !self.providers.contains_key(pair.1) {
            Err(ErrorView::GraphError)
        } else {
            let c = self.consumers[pair.0];
            let p = self.providers[pair.1];
            if c.mode != p.mode && c.mode != "r0w0e0"@ {
                Err(ErrorView::GraphError)
            } else if scan_hex(p.geom_ref) is None {
                Err(ErrorView::Scan(p.geom_ref))
            } else if !self.nodes.contains_key(scan_hex(p.geom_ref).unwrap()) {
                Err(ErrorView::GraphError)
            } else if scan_hex(c.geom_ref) is None {
                Err(ErrorView::Scan(c.geom_ref))
            } else if !self.nodes.contains_key(scan_hex(c.geom_ref).unwrap()) {
                Err(ErrorView::GraphError)
            } else if Mode::of(p.mode) is None {
                Err(ErrorView::Scan(p.mode))
            } else {
                let parent = scan_hex(p.geom_ref).unwrap();
                match EdgeMetadataView::below(self.nodes[parent].class, p.config) {
                    Err(e) => Err(e),
                    Ok(metadata) => Ok(
                        EdgeView {
                            name: p.name,
                            mode: Mode::of(p.mode).unwrap(),
                            mediasize: p.mediasize,
                            sectorsize: p.sectorsize,
                            stripesize: p.stripesize,
                            stripeoffset: p.stripeoffset,
                            metadata,
                            consumer_geom: scan_hex(c.geom_ref).unwrap(),
                            provider_geom: parent,
                        },
                    ),
                }
            }
        }
    }
}

impl GraphView {
    /// The graph with one more edge: the edge under its key, and the key at
    /// the end of the in-edges of the parent and of the out-edges of the
    /// child.
    pub open spec fn link(self, id: EdgeId, e: EdgeView) -> GraphView {
        GraphView {
            nodes: self.nodes,
            edges: self.edges.insert(id, e),
            outedges: self.outedges.insert(
                e.consumer_geom,
                listed(self.outedges, e.consumer_geom).push(id),
            ),
            inedges: self.inedges.insert(
                e.provider_geom,
                listed(self.inedges, e.provider_geom).push(id),
            ),
        }
    }

    /// The graph with the edges of the pairs from the `i`-th on, taken in
    /// their order up to the first that fails.
    pub open spec fn resolve_from(self, survey: Survey, order: Seq<EdgeId>, i: int) -> Result<
        GraphView,
        ErrorView,
    >
        decreases order.len() - i,
    {
        if 0 <= i < order.len() {
            match survey.edge(order[i]) {
                Ok(e) => self.link(order[i], e).resolve_from(survey, order, i + 1),
                Err(e) => Err(e),
            }
        } else {
            Ok(self)
        }
    }

    /// The nodes of a survey, without edges yet.
    pub open spec fn of_nodes(nodes: Map<NodeId, GeomView>) -> GraphView {
        GraphView { nodes, edges: Map::empty(), outedges: Map::empty(), inedges: Map::empty() }
    }
}

/// The graph that a mesh stands for, or the first failure met.
///
/// The failures of the first pass come in the order of the document, those of
/// the second in the ascending order of the pairs.
pub open spec fn decode(mesh: raw::MeshView) -> Result<GraphView, ErrorView> {
    match Survey::of(mesh) {
        Err(e) => Err(e),
        Ok(survey) => GraphView::of_nodes(survey.nodes).resolve_from(
            survey,
            in_order(survey.pairs),
            0,
        ),
    }
}

/// What the first pass has gathered so far. The consumers and providers
/// stay where they are in the mesh.
struct Gathered<'a> {
    nodes: BTreeMap<NodeId, Geom>,
    consumers: BTreeMap<u64, &'a raw::Consumer>,
    providers: BTreeMap<u64, &'a raw::Provider>,
    pairs: BTreeSet<EdgeId>,
}

impl<'a> View for Gathered<'a> {
    type V = Survey;

    closed spec fn view(&self) -> Survey {
        Survey {
            nodes: self.nodes@.map_values(|g: Geom| g@),
            consumers: self.consumers@.map_values(|c: &raw::Consumer| c@),
            providers: self.providers@.map_values(|p: &raw::Provider| p@),
            pairs: self.pairs@,
        }
    }
}

/// Takes up one consumer.
fn gather_consumer<'a>(st: Gathered<'a>, c: &'a raw::Consumer) -> (r: Result<Gathered<'a>, Error>)
    ensures
        outcome(r) == st@.consumer(c@),
{
    let id = scan_ptr(c.id.as_str())?;
    let provider = scan_ptr(c.provider_ref.ref_.as_str())?;
    let ghost before = st@;
    let mut st = st;
    st.consumers.insert(id, c);
    st.pairs.insert((id, provider));
    proof {
        assert(st@.nodes == before.nodes);
        assert(st@.providers == before.providers);
        assert(st@.consumers =~= before.consumers.insert(id, c@));
        assert(st@.pairs =~= before.pairs.insert((id, provider)));
    }
    Ok(st)
}

/// Takes up the consumers of a geom.
#[verifier::loop_isolation(false)]
fn gather_consumers<'a>(st: Gathered<'a>, cs: &'a Vec<raw::Consumer>) -> (r: Result<
    Gathered<'a>,
    Error,
>)
    ensures
        outcome(r) == st@.consumers_from(raw::views(cs@), 0),
{
    let ghost all = raw::views(cs@);
    let ghost goal = st@.consumers_from(all, 0);
    let mut st = st;
    let mut i: usize = 0;
    while i < cs.len()
        invariant
            i <= cs.len(),
            all == raw::views(cs@),
            goal == st@.consumers_from(all, i as int),
        decreases cs.len() - i,
    {
        assert(all[i as int] == cs@[i as int]@);
        st = gather_consumer(st, &cs[i])?;
        i += 1;
    }
    Ok(st)
}

/// Takes up one provider.
fn gather_provider<'a>(st: Gathered<'a>, p: &'a raw::Provider) -> (r: Result<Gathered<'a>, Error>)
    ensures
        outcome(r) == st@.provider(p@),
{
    let id = scan_ptr(p.id.as_str())?;
    let ghost before = st@;
    let mut st = st;
    st.providers.insert(id, p);
    proof {
        assert(st@.nodes == before.nodes);
        assert(st@.consumers == before.consumers);
        assert(st@.pairs == before.pairs);
        assert(st@.providers =~= before.providers.insert(id, p@));
    }
    Ok(st)
}

/// Takes up the providers of a geom.
#[verifier::loop_isolation(false)]
fn gather_providers<'a>(st: Gathered<'a>, ps: &'a Vec<raw::Provider>) -> (r: Result<
    Gathered<'a>,
    Error,
>)
    ensures
        outcome(r) == st@.providers_from(raw::views(ps@), 0),
{
    let ghost all = raw::views(ps@);
    let ghost goal = st@.providers_from(all, 0);
    let mut st = st;
    let mut i: usize = 0;
    while i < ps.len()
        invariant
            i <= ps.len(),
            all == raw::views(ps@),
            goal == st@.providers_from(all, i as int),
        decreases ps.len() - i,
    {
        assert(all[i as int] == ps@[i as int]@);
        st = gather_provider(st, &ps[i])?;
        i += 1;
    }
    Ok(st)
}

/// Takes up one geom with its consumers and providers.
fn gather_geom<'a>(st: Gathered<'a>, class: GeomClass, g: &'a raw::Geom) -> (r: Result<
    Gathered<'a>,
    Error,
>)
    ensures
        outcome(r) == st@.geom(class, g@),
{
    let id = scan_ptr(g.id.as_str())?;
    let node = Geom::from_raw(class, g)?;
    let ghost before = st@;
    let ghost node_view = node@;
    let mut st = st;
    st.nodes.insert(id, node);
    proof {
        assert(st@.consumers == before.consumers);
        assert(st@.providers == before.providers);
        assert(st@.pairs == before.pairs);
        assert(st@.nodes =~= before.nodes.insert(id, node_view));
    }
    let st = gather_consumers(st, &g.consumers)?;
    gather_providers(st, &g.providers)
}

/// Takes up one class with its geoms.
#[verifier::loop_isolation(false)]
fn gather_class<'a>(st: Gathered<'a>, c: &'a raw::Class) -> (r: Result<Gathered<'a>, Error>)
    ensures
        outcome(r) == st@.class(c@),
{
    let class = GeomClass::from_str(c.name.as_str())?;
    let ghost all = raw::views(c.geoms@);
    let ghost goal = st@.geoms_from(class, all, 0);
    let mut st = st;
    let mut i: usize = 0;
    while i < c.geoms.len()
        invariant
            i <= c.geoms.len(),
            all == raw::views(c.geoms@),
            goal == st@.geoms_from(class, all, i as int),
        decreases c.geoms.len() - i,
    {
        assert(all[i as int] == c.geoms@[i as int]@);
        st = gather_geom(st, class, &c.geoms[i])?;
        i += 1;
    }
    Ok(st)
}

/// The first pass: takes up the classes of the mesh.
#[verifier::loop_isolation(false)]
fn gather<'a>(mesh: &'a raw::Mesh) -> (r: Result<Gathered<'a>, Error>)
    ensures
        outcome(r) == Survey::of(mesh@),
{
    let mut st = Gathered {
        nodes: BTreeMap::new(),
        consumers: BTreeMap::new(),
        providers: BTreeMap::new(),
        pairs: BTreeSet::new(),
    };
    proof {
        assert(st@.nodes =~= Map::empty());
        assert(st@.consumers =~= Map::empty());
        assert(st@.providers =~= Map::empty());
    }
    let ghost all = raw::views(mesh.classes@);
    let ghost goal = st@.classes_from(all, 0);
    let mut i: usize = 0;
    while i < mesh.classes.len()
        invariant
            i <= mesh.classes.len(),
            all == raw::views(mesh.classes@),
            goal == st@.classes_from(all, i as int),
        decreases mesh.classes.len() - i,
    {
        assert(all[i as int] == mesh.classes@[i as int]@);
        st = gather_class(st, &mesh.classes[i])?;
        i += 1;
    }
    Ok(st)
}

/// Resolves one pair into its edge.
fn resolve_edge<'a>(
    nodes: &BTreeMap<NodeId, Geom>,
    consumers: &BTreeMap<u64, &'a raw::Consumer>,
    providers: &BTreeMap<u64, &'a raw::Provider>,
    pair: EdgeId,
    Ghost(survey): Ghost<Survey>,
) -> (r: Result<Edge, Error>)
    requires
        survey.nodes == nodes@.map_values(|g: Geom| g@),
        survey.consumers == consumers@.map_values(|c: &raw::Consumer| c@),
        survey.providers == providers@.map_values(|p: &raw::Provider| p@),
    ensures
        outcome(r) == survey.edge(pair),
{
    let c: &raw::Consumer = match consumers.get(&pair.0) {
        Some(c) => *c,
        None => { return Err(Error::GraphError); },
    };
    let p: &raw::Provider = match providers.get(&pair.1) {
        Some(p) => *p,
        None => { return Err(Error::GraphError); },
    };
    if !(c.mode == p.mode) && !same_text(c.mode.as_str(), "r0w0e0") {
        return Err(Error::GraphError);
    }
    let parent = scan_ptr(p.geom_ref.ref_.as_str())?;
    let class = match nodes.get(&parent) {
        Some(node) => node.class,
        None => { return Err(Error::GraphError); },
    };
    let child = scan_ptr(c.geom_ref.ref_.as_str())?;
    if !nodes.contains_key(&child) {
        return Err(Error::GraphError);
    }
    let mode = Mode::from_str(p.mode.as_str())?;
    let metadata = EdgeMetadata::from_raw(class, p)?;
    Ok(
        Edge {
            name: p.name.clone(),
            mode,
            mediasize: p.mediasize,
            sectorsize: p.sectorsize,
            stripesize: p.stripesize,
            stripeoffset: p.stripeoffset,
            metadata,
            consumer_geom: child,
            provider_geom: parent,
        },
    )
}

/// Puts `id` at the end of the list that `index` holds for `node`.
fn list_edge(index: &mut BTreeMap<NodeId, Vec<EdgeId>>, node: NodeId, id: EdgeId)
    ensures
        lists_of(final(index)@) == lists_of(old(index)@).insert(
            node,
            listed(lists_of(old(index)@), node).push(id),
        ),
{
    let mut list = match index.remove(&node) {
        Some(list) => list,
        None => Vec::new(),
    };
    list.push(id);
    index.insert(node, list);
    assert(lists_of(index@) =~= lists_of(old(index)@).insert(
        node,
        listed(lists_of(old(index)@), node).push(id),
    ));
}

impl Graph {
    /// Takes up one more edge.
    fn link(&mut self, id: EdgeId, edge: Edge)
        ensures
            final(self)@ == old(self)@.link(id, edge@),
    {
        let child = edge.consumer_geom;
        let parent = edge.provider_geom;
        let ghost e = edge@;
        self.edges.insert(id, edge);
        list_edge(&mut self.inedges, parent, id);
        list_edge(&mut self.outedges, child, id);
        assert(self@.edges =~= old(self)@.edges.insert(id, e));
    }
}

/// Decodes a mesh into the graph it stands for.
///
/// Nothing is handed out unless every geom and every pair of a consumer and
/// a provider was resolved.
#[verifier::loop_isolation(false)]
pub fn decode_graph(mesh: &raw::Mesh) -> (r: Result<Graph, Error>)
    ensures
        outcome(r) == decode(mesh@),
        r matches Ok(g) ==> g@.wf(),
{
    let st = gather(mesh)?;
    let ghost survey = st@;
    let order = pairs_in_order(&st.pairs);
    let Gathered { nodes, consumers, providers, pairs: _ } = st;
    let mut g = Graph {
        nodes,
        edges: BTreeMap::new(),
        outedges: BTreeMap::new(),
        inedges: BTreeMap::new(),
    };
    proof {
        assert(g@.edges =~= Map::empty());
        assert(g@.outedges =~= Map::empty());
        assert(g@.inedges =~= Map::empty());
        assert(g@ == GraphView::of_nodes(survey.nodes));
    }
    let mut i: usize = 0;
    while i < order.len()
        invariant
            i <= order.len(),
            g@.nodes == survey.nodes,
            decode(mesh@) == g@.resolve_from(survey, order@, i as int),
        decreases order.len() - i,
    {
        let edge = resolve_edge(&g.nodes, &consumers, &providers, order[i], Ghost(survey))?;
        g.link(order[i], edge);
        i += 1;
    }
    proof {
        lemma_decoded_is_wf(mesh@);
    }
    Ok(g)
}

} // verus!
