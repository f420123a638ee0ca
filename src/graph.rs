//! The concept graph: nodes keyed by a unique id, each with a type tag that
//! fixes its color and radius, and an ordered list of directed edges.
use vstd::prelude::*;

verus! {

/// A display color.
#[derive(Clone, Copy, Debug, PartialEq, Eq, Structural)]
pub struct Rgb {
    pub r: u8,
    pub g: u8,
    pub b: u8,
}

/// A concept of the graph. Its position and velocity are layout state, kept
/// by the renderer beside the node, at the node's index.
#[derive(Clone)]
pub struct Node {
    pub id: String,
    pub node_type: String,
    pub color: Rgb,
    pub radius: u32,
}

/// A directed relation between two node ids, with a unit weight.
#[derive(Clone)]
pub struct Edge {
    pub source: String,
    pub target: String,
    pub weight: u32,
}

pub struct GraphState {
    pub nodes: Vec<Node>,
    pub edges: Vec<Edge>,
}

pub struct NodeModel {
    pub id: Seq<char>,
    pub node_type: Seq<char>,
    pub color: Rgb,
    pub radius: u32,
}

pub struct EdgeModel {
    pub source: Seq<char>,
    pub target: Seq<char>,
    pub weight: u32,
}

/// The graph as values: nodes in order of creation, edges in order of insertion.
pub struct GraphModel {
    pub nodes: Seq<NodeModel>,
    pub edges: Seq<EdgeModel>,
}

/// The color that a type tag gives a node.
pub open spec fn color_of(t: Seq<char>) -> Rgb {
    if t == "ACTION"@ {
        Rgb { r: 255, g: 100, b: 50 }
    } else if t == "IDENTITY"@ {
        Rgb { r: 255, g: 255, b: 255 }
    } else if t == "EPISODIC"@ {
        Rgb { r: 200, g: 100, b: 255 }
    } else {
        Rgb { r: 0, g: 200, b: 255 }
    }
}

/// The radius that a type tag gives a node.
pub open spec fn radius_of(t: Seq<char>) -> u32 {
    if t == "IDENTITY"@ {
        8
    } else if t == "ACTION"@ {
        6
    } else {
        4
    }
}

/// The default type tag.
pub open spec fn concept() -> Seq<char> {
    "CONCEPT"@
}

impl NodeModel {
    /// A node just created with id `id` and type `t`.
    pub open spec fn fresh(id: Seq<char>, t: Seq<char>) -> NodeModel {
        NodeModel { id, node_type: t, color: color_of(t), radius: radius_of(t) }
    }
}

impl GraphModel {
    pub open spec fn empty() -> GraphModel {
        GraphModel { nodes: Seq::empty(), edges: Seq::empty() }
    }

    pub open spec fn has_node(self, id: Seq<char>) -> bool {
        exists|i: int| 0 <= i < self.nodes.len() && #[trigger] self.nodes[i].id == id
    }

    /// Ids are unique, each node's appearance is the one its type gives, and
    /// every edge joins two nodes of the graph with unit weight.
    pub open spec fn wf(self) -> bool {
        &&& forall|i: int, j: int|
            0 <= i < j < self.nodes.len() ==> #[trigger] self.nodes[i].id != #[trigger] self.nodes[j].id
        &&& forall|i: int|
            0 <= i < self.nodes.len() ==> #[trigger] self.nodes[i] == NodeModel::fresh(
                self.nodes[i].id,
                self.nodes[i].node_type,
            )
        &&& forall|k: int|
            0 <= k < self.edges.len() ==> {
                &&& self.has_node(#[trigger] self.edges[k].source)
                &&& self.has_node(self.edges[k].target)
                &&& self.edges[k].weight == 1
            }
    }

    /// `add_node`: nothing changes if the id is present; otherwise a node is
    /// created with the appearance its type gives.
    pub open spec fn with_node(self, id: Seq<char>, t: Seq<char>) -> GraphModel {
        if self.has_node(id) {
            self
        } else {
            GraphModel { nodes: self.nodes.push(NodeModel::fresh(id, t)), edges: self.edges }
        }
    }

    /// `add_edge`: both endpoints are ensured with the default type, then the
    /// edge is appended.
    pub open spec fn with_edge(self, source: Seq<char>, target: Seq<char>) -> GraphModel {
        let g = self.with_node(source, concept()).with_node(target, concept());
        GraphModel {
            nodes: g.nodes,
            edges: g.edges.push(EdgeModel { source, target, weight: 1 }),
        }
    }
}

/// After `with_node(id, t)` the graph holds `x` exactly when it held it
/// before or `x` is `id`.
pub proof fn lemma_with_node_has(g: GraphModel, id: Seq<char>, t: Seq<char>, x: Seq<char>)
    ensures
        g.with_node(id, t).has_node(x) == (g.has_node(x) || x == id),
{
    let h = g.with_node(id, t);
    if !g.has_node(id) {
        assert(h.nodes[g.nodes.len() as int].id == id);
        if g.has_node(x) {
            let i = choose|i: int| 0 <= i < g.nodes.len() && #[trigger] g.nodes[i].id == x;
            assert(h.nodes[i] == g.nodes[i]);
        }
        if h.has_node(x) {
            let i = choose|i: int| 0 <= i < h.nodes.len() && #[trigger] h.nodes[i].id == x;
            if i < g.nodes.len() {
                assert(h.nodes[i] == g.nodes[i]);
            }
        }
    }
}

/// Adding an id a second time, with any type, changes nothing: the node
/// keeps the type, color and radius of its first addition.
pub proof fn law_add_node_idempotent(g: GraphModel, id: Seq<char>, t1: Seq<char>, t2: Seq<char>)
    requires
        g.wf(),
        !g.has_node(id),
    ensures
        g.with_node(id, t1).with_node(id, t2) == g.with_node(id, t1),
        forall|i: int|
            0 <= i < g.with_node(id, t1).with_node(id, t2).nodes.len() && #[trigger] g.with_node(
                id,
                t1,
            ).with_node(id, t2).nodes[i].id == id ==> g.with_node(id, t1).with_node(id, t2).nodes[i]
                == NodeModel::fresh(id, t1),
{
    let h = g.with_node(id, t1);
    lemma_with_node_has(g, id, t1, id);
    assert forall|i: int| 0 <= i < h.nodes.len() && #[trigger] h.nodes[i].id == id implies h.nodes[i]
        == NodeModel::fresh(id, t1) by {
        if i < g.nodes.len() {
            assert(h.nodes[i] == g.nodes[i]);
        }
    }
}

/// An edge added to an empty graph creates exactly its two endpoints, both of
/// the default type, and is the only edge.
pub proof fn law_add_edge_on_empty(a: Seq<char>, b: Seq<char>)
    requires
        a != b,
    ensures
        GraphModel::empty().with_edge(a, b).nodes == seq![
            NodeModel::fresh(a, concept()),
            NodeModel::fresh(b, concept()),
        ],
        GraphModel::empty().with_edge(a, b).edges == seq![EdgeModel { source: a, target: b, weight: 1 }],
{
    let e = GraphModel::empty();
    let g1 = e.with_node(a, concept());
    assert(!e.has_node(a));
    assert(g1.nodes =~= seq![NodeModel::fresh(a, concept())]);
    assert(!g1.has_node(b)) by {
        if g1.has_node(b) {
            let i = choose|i: int| 0 <= i < g1.nodes.len() && #[trigger] g1.nodes[i].id == b;
            assert(g1.nodes[i].id == a);
        }
    }
    let g2 = g1.with_node(b, concept());
    assert(g2.nodes =~= seq![NodeModel::fresh(a, concept()), NodeModel::fresh(b, concept())]);
    assert(e.with_edge(a, b).edges =~= seq![EdgeModel { source: a, target: b, weight: 1 }]);
}

/// A node's color and radius depend on its type alone: whatever the graph it
/// is added to and whatever its id, a new node of type `t` gets the color and
/// radius of `t`.
pub proof fn law_appearance_by_type(
    g1: GraphModel,
    id1: Seq<char>,
    g2: GraphModel,
    id2: Seq<char>,
    t: Seq<char>,
)
    requires
        !g1.has_node(id1),
        !g2.has_node(id2),
    ensures
        g1.with_node(id1, t).nodes.last().color == g2.with_node(id2, t).nodes.last().color,
        g1.with_node(id1, t).nodes.last().radius == g2.with_node(id2, t).nodes.last().radius,
        g1.with_node(id1, t).nodes.last().color == color_of(t),
        g1.with_node(id1, t).nodes.last().radius == radius_of(t),
{
}

impl View for Node {
    type V = NodeModel;

    open spec fn view(&self) -> NodeModel {
        NodeModel { id: self.id@, node_type: self.node_type@, color: self.color, radius: self.radius }
    }
}

impl View for Edge {
    type V = EdgeModel;

    open spec fn view(&self) -> EdgeModel {
        EdgeModel { source: self.source@, target: self.target@, weight: self.weight }
    }
}

impl View for GraphState {
    type V = GraphModel;

    open spec fn view(&self) -> GraphModel {
        GraphModel {
            nodes: self.nodes@.map_values(|n: Node| n@),
            edges: self.edges@.map_values(|e: Edge| e@),
        }
    }
}

fn same_text(a: &String, b: &str) -> (r: bool)
    ensures
        r == (a@ == b@),
{
    let b = String::from_str(b);
    a.eq(&b)
}

/// The color for type tag `t`.
pub fn color_for(t: &String) -> (r: Rgb)
    ensures
        r == color_of(t@),
{
    if same_text(t, "ACTION") {
        Rgb { r: 255, g: 100, b: 50 }
    } else if same_text(t, "IDENTITY") {
        Rgb { r: 255, g: 255, b: 255 }
    } else if same_text(t, "EPISODIC") {
        Rgb { r: 200, g: 100, b: 255 }
    } else {
        Rgb { r: 0, g: 200, b: 255 }
    }
}

/// The radius for type tag `t`.
pub fn radius_for(t: &String) -> (r: u32)
    ensures
        r == radius_of(t@),
{
    if same_text(t, "IDENTITY") {
        8
    } else if same_text(t, "ACTION") {
        6
    } else {
        4
    }
}

impl GraphState {
    pub open spec fn wf(&self) -> bool {
        self@.wf()
    }

    pub fn new() -> (r: GraphState)
        ensures
            r@ == GraphModel::empty(),
            r.wf(),
    {
        let r = GraphState { nodes: Vec::new(), edges: Vec::new() };
        assert(r@.nodes =~= Seq::<NodeModel>::empty());
        assert(r@.edges =~= Seq::<EdgeModel>::empty());
        r
    }

    /// The index of the node with id `id`, if there is one.
    pub fn node_index(&self, id: &String) -> (r: Option<usize>)
        ensures
            r matches Some(i) ==> i < self.nodes@.len() && self@.nodes[i as int].id == id@,
            r is None ==> !self@.has_node(id@),
    {
        let mut i: usize = 0;
        while i < self.nodes.len()
            invariant
                i <= self.nodes@.len(),
                forall|j: int| 0 <= j < i ==> self@.nodes[j].id != id@,
            decreases self.nodes@.len() - i,
        {
            if self.nodes[i].id.eq(id) {
                return Some(i);
            }
            i = i + 1;
        }
        None
    }

    /// Adds a node with id `id` and type `node_type`, unless that id is
    /// already present, in which case nothing changes.
    pub fn add_node(&mut self, id: String, node_type: String)
        requires
            old(self).wf(),
        ensures
            final(self).wf(),
            final(self)@ == old(self)@.with_node(id@, node_type@),
    {
        match self.node_index(&id) {
            Some(_) => {},
            None => {
                let ghost before = self@;
                let color = color_for(&node_type);
                let radius = radius_for(&node_type);
                let node = Node { id, node_type, color, radius };
                self.nodes.push(node);
                assert(self@.nodes =~= before.nodes.push(node@));
                assert(self@.edges =~= before.edges);
                assert forall|k: int| 0 <= k < self@.edges.len() implies #[trigger] self@.has_node(
                    self@.edges[k].source,
                ) && self@.has_node(self@.edges[k].target) by {
                    let i = choose|i: int|
                        0 <= i < before.nodes.len() && #[trigger] before.nodes[i].id
                            == before.edges[k].source;
                    let j = choose|j: int|
                        0 <= j < before.nodes.len() && #[trigger] before.nodes[j].id
                            == before.edges[k].target;
                    assert(self@.nodes[i] == before.nodes[i]);
                    assert(self@.nodes[j] == before.nodes[j]);
                }
            },
        }
    }

    /// Adds the edge `source -> target`, first creating either endpoint that
    /// is missing with the default type.
    pub fn add_edge(&mut self, source: String, target: String)
        requires
            old(self).wf(),
        ensures
            final(self).wf(),
            final(self)@ == old(self)@.with_edge(source@, target@),
    {
        self.add_node(source.clone(), String::from_str("CONCEPT"));
        self.add_node(target.clone(), String::from_str("CONCEPT"));
        let ghost before = self@;
        proof {
            let c = concept();
            lemma_with_node_has(old(self)@, source@, c, source@);
            lemma_with_node_has(old(self)@.with_node(source@, c), target@, c, source@);
            lemma_with_node_has(old(self)@.with_node(source@, c), target@, c, target@);
        }
        self.edges.push(Edge { source, target, weight: 1 });
        assert(self@.nodes =~= before.nodes);
        assert(self@.edges =~= before.edges.push(EdgeModel { source: source@, target: target@, weight: 1 }));
        assert forall|k: int| 0 <= k < self@.edges.len() implies #[trigger] self@.has_node(
            self@.edges[k].source,
        ) && self@.has_node(self@.edges[k].target) && self@.edges[k].weight == 1 by {
            if k < before.edges.len() {
                assert(self@.edges[k] == before.edges[k]);
            }
        }
    }

    /// For each edge, in order, the indices of its source and target nodes.
    pub fn edge_endpoints(&self) -> (r: Vec<(usize, usize)>)
        requires
            self.wf(),
        ensures
            r@.len() == self.edges@.len(),
            forall|k: int|
                0 <= k < r@.len() ==> {
                    &&& (#[trigger] r@[k]).0 < self.nodes@.len()
                    &&& r@[k].1 < self.nodes@.len()
                    &&& self@.nodes[r@[k].0 as int].id == self@.edges[k].source
                    &&& self@.nodes[r@[k].1 as int].id == self@.edges[k].target
                },
    {
        let mut r: Vec<(usize, usize)> = Vec::new();
        let mut k: usize = 0;
        while k < self.edges.len()
            invariant
                self.wf(),
                k <= self.edges@.len(),
                r@.len() == k,
                forall|m: int|
                    0 <= m < k ==> {
                        &&& (#[trigger] r@[m]).0 < self.nodes@.len()
                        &&& r@[m].1 < self.nodes@.len()
                        &&& self@.nodes[r@[m].0 as int].id == self@.edges[m].source
                        &&& self@.nodes[r@[m].1 as int].id == self@.edges[m].target
                    },
            decreases self.edges@.len() - k,
        {
            assert(self@.edges[k as int] == self.edges@[k as int]@);
            assert(self@.has_node(self@.edges[k as int].source));
            let s = self.node_index(&self.edges[k].source);
            let t = self.node_index(&self.edges[k].target);
            match (s, t) {
                (Some(i), Some(j)) => {
                    r.push((i, j));
                },
                _ => {
                    assert(false);
                },
            }
            k = k + 1;
        }
        r
    }
}

} // verus!
