use command_center::graph::{color_for, radius_for, GraphState, Rgb};

fn find<'a>(g: &'a GraphState, id: &str) -> &'a command_center::graph::Node {
    g.nodes.iter().find(|n| n.id == id).expect("node present")
}

#[test]
fn new_graph_is_empty() {
    let g = GraphState::new();
    assert!(g.nodes.is_empty());
    assert!(g.edges.is_empty());
}

#[test]
fn add_node_twice_keeps_first_type() {
    let mut g = GraphState::new();
    g.add_node("Fire".to_string(), "IDENTITY".to_string());
    g.add_node("Fire".to_string(), "ACTION".to_string());
    assert_eq!(g.nodes.len(), 1);
    let n = find(&g, "Fire");
    assert_eq!(n.node_type, "IDENTITY");
    assert_eq!(n.color, Rgb { r: 255, g: 255, b: 255 });
    assert_eq!(n.radius, 8);
}

#[test]
fn add_edge_on_empty_graph_creates_both_endpoints() {
    let mut g = GraphState::new();
    g.add_edge("a".to_string(), "b".to_string());
    assert_eq!(g.nodes.len(), 2);
    assert_eq!(g.nodes[0].id, "a");
    assert_eq!(g.nodes[1].id, "b");
    for n in &g.nodes {
        assert_eq!(n.node_type, "CONCEPT");
        assert_eq!(n.color, Rgb { r: 0, g: 200, b: 255 });
        assert_eq!(n.radius, 4);
    }
    assert_eq!(g.edges.len(), 1);
    assert_eq!(g.edges[0].source, "a");
    assert_eq!(g.edges[0].target, "b");
    assert_eq!(g.edges[0].weight, 1);
}

#[test]
fn add_edge_keeps_existing_endpoint_type() {
    let mut g = GraphState::new();
    g.add_node("spark".to_string(), "ACTION".to_string());
    g.add_edge("spark".to_string(), "Ignite".to_string());
    assert_eq!(g.nodes.len(), 2);
    assert_eq!(find(&g, "spark").node_type, "ACTION");
    assert_eq!(find(&g, "Ignite").node_type, "CONCEPT");
}

#[test]
fn duplicate_edges_accumulate() {
    let mut g = GraphState::new();
    g.add_edge("a".to_string(), "b".to_string());
    g.add_edge("a".to_string(), "b".to_string());
    assert_eq!(g.nodes.len(), 2);
    assert_eq!(g.edges.len(), 2);
}

#[test]
fn self_edge_creates_one_node() {
    let mut g = GraphState::new();
    g.add_edge("loop".to_string(), "loop".to_string());
    assert_eq!(g.nodes.len(), 1);
    assert_eq!(g.edges.len(), 1);
    assert_eq!(g.edge_endpoints(), vec![(0, 0)]);
}

#[test]
fn appearance_table() {
    let cases = [
        ("ACTION", Rgb { r: 255, g: 100, b: 50 }, 6),
        ("IDENTITY", Rgb { r: 255, g: 255, b: 255 }, 8),
        ("EPISODIC", Rgb { r: 200, g: 100, b: 255 }, 4),
        ("CONCEPT", Rgb { r: 0, g: 200, b: 255 }, 4),
        ("whatever", Rgb { r: 0, g: 200, b: 255 }, 4),
    ];
    for (t, color, radius) in cases {
        assert_eq!(color_for(&t.to_string()), color);
        assert_eq!(radius_for(&t.to_string()), radius);
    }
}

#[test]
fn appearance_does_not_depend_on_order() {
    let mut g1 = GraphState::new();
    g1.add_node("x".to_string(), "ACTION".to_string());
    g1.add_node("y".to_string(), "EPISODIC".to_string());
    let mut g2 = GraphState::new();
    g2.add_node("z".to_string(), "CONCEPT".to_string());
    g2.add_node("y".to_string(), "EPISODIC".to_string());
    g2.add_node("x".to_string(), "ACTION".to_string());
    for id in ["x", "y"] {
        assert_eq!(find(&g1, id).color, find(&g2, id).color);
        assert_eq!(find(&g1, id).radius, find(&g2, id).radius);
    }
    assert_eq!(find(&g2, "x").color, Rgb { r: 255, g: 100, b: 50 });
    assert_eq!(find(&g2, "y").color, Rgb { r: 200, g: 100, b: 255 });
}

#[test]
fn node_index_finds_ids() {
    let mut g = GraphState::new();
    g.add_node("a".to_string(), "CONCEPT".to_string());
    g.add_node("b".to_string(), "CONCEPT".to_string());
    assert_eq!(g.node_index(&"b".to_string()), Some(1));
    assert_eq!(g.node_index(&"c".to_string()), None);
}

#[test]
fn edge_endpoints_resolve_to_indices() {
    let mut g = GraphState::new();
    g.add_edge("a".to_string(), "b".to_string());
    g.add_edge("c".to_string(), "a".to_string());
    assert_eq!(g.edge_endpoints(), vec![(0, 1), (2, 0)]);
}
