use chronos::ipc::graph::{demo_nodes, graph_get_nodes};
use chronos::ipc::insights::{insight_cards, insights_get_pending};

#[test]
fn graph_nodes_are_the_demonstration_graph() {
    let nodes = demo_nodes();
    assert_eq!(nodes.len(), 8);
    assert_eq!(nodes[0].id, "nexus-1");
    assert_eq!(nodes[0].label, "Nexus Core");
    assert_eq!(nodes[0].node_type, "Agent");
    assert_eq!(nodes[0].confidence_hundredths, Some(100));
    assert_eq!(nodes[0].tags, vec!["system".to_string()]);
    assert_eq!(nodes[7].id, "claim-1");
    assert_eq!(nodes[7].label, "Chronos is production-ready");
    assert_eq!(nodes[7].confidence_hundredths, Some(75));
    assert_eq!(nodes[4].tags, vec!["ai".to_string(), "provider".to_string()]);
    let g = graph_get_nodes().unwrap();
    assert_eq!(g.nodes.len(), 8);
    assert_eq!(g.edges.len(), 6);
    for e in &g.edges {
        assert!(g.nodes.iter().any(|n| n.id == e.source), "{}", e.source);
        assert!(g.nodes.iter().any(|n| n.id == e.target), "{}", e.target);
    }
}

#[test]
fn insight_cards_are_dated_before_now() {
    let now = 5_000_000;
    let cards = insight_cards(now);
    assert_eq!(cards.len(), 4);
    assert_eq!(cards[0].id, "insight-1");
    assert_eq!(cards[0].created_at, now - 300_000);
    assert_eq!(cards[3].created_at, now - 1_200_000);
    assert_eq!(cards[1].title, "Connection: KuzuDB \u{2194} Qdrant 2PC");
    assert_eq!(cards[2].insight_type, "prediction");
    assert_eq!(cards[2].confidence_hundredths, 71);
    assert_eq!(
        cards[3].tags,
        vec!["budget".to_string(), "raii".to_string(), "design".to_string()]
    );
    let pending = insights_get_pending().unwrap();
    assert_eq!(pending.len(), 4);
    assert!(pending[0].created_at > pending[3].created_at);
}
