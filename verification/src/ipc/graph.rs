//! The graph view and the timeline view. A node's confidence is held in
//! hundredths; the application shows it as a fraction.

use vstd::prelude::*;
use crate::clock::{ClockReading, read_clock};

verus! {

#[derive(Debug, Clone)]
pub struct GraphNodeResponse {
    pub id: String,
    pub label: String,
    pub node_type: String,
    /// The confidence in hundredths (95 stands for 0.95).
    pub confidence_hundredths: Option<u32>,
    pub tags: Vec<String>,
}

#[derive(Debug, Clone)]
pub struct GraphDataResponse {
    pub nodes: Vec<GraphNodeResponse>,
    pub edges: Vec<GraphEdgeResponse>,
}

#[derive(Debug, Clone)]
pub struct GraphEdgeResponse {
    pub source: String,
    pub target: String,
    pub label: Option<String>,
    pub edge_type: String,
}

#[derive(Debug, Clone)]
pub struct TimelineEntryResponse {
    pub id: String,
    pub event_type: String,
    pub description: String,
    pub timestamp: i64,
    pub entity_id: String,
    pub tags: Vec<String>,
}

/// Sources of the demonstration graph's edges.
pub open spec fn edge_sources() -> Seq<Seq<char>> {
    seq![
        "nexus-1"@,
        "nexus-1"@,
        "nexus-1"@,
        "minimax-1"@,
        "thought-1"@,
        "thought-2"@,
    ]
}

/// Targets of the demonstration graph's edges.
pub open spec fn edge_targets() -> Seq<Seq<char>> {
    seq![
        "kuzu-1"@,
        "qdrant-1"@,
        "minimax-1"@,
        "gemini-1"@,
        "claim-1"@,
        "kuzu-1"@,
    ]
}

/// Kinds of the demonstration graph's edges; each edge is labelled with its
/// kind.
pub open spec fn edge_kinds() -> Seq<Seq<char>> {
    seq![
        "USES"@,
        "USES"@,
        "CALLS"@,
        "FALLBACK"@,
        "SUPPORTS"@,
        "ABOUT"@,
    ]
}

/// `e` is the `i`-th edge of the demonstration graph.
pub open spec fn is_demo_edge(e: GraphEdgeResponse, i: int) -> bool {
    &&& e.source@ == edge_sources()[i]
    &&& e.target@ == edge_targets()[i]
    &&& e.label matches Some(l) && l@ == edge_kinds()[i]
    &&& e.edge_type@ == edge_kinds()[i]
}

fn edge(source: &str, target: &str, kind: &str) -> (e: GraphEdgeResponse)
    ensures
        e.source@ == source@,
        e.target@ == target@,
        e.label matches Some(l) && l@ == kind@,
        e.edge_type@ == kind@,
{
    GraphEdgeResponse {
        source: String::from_str(source),
        target: String::from_str(target),
        label: Some(String::from_str(kind)),
        edge_type: String::from_str(kind),
    }
}

/// The edges of the demonstration graph the graph view shows until the
/// graph store answers queries.
pub fn demo_edges() -> (r: Vec<GraphEdgeResponse>)
    ensures
        r@.len() == 6,
        forall|i: int| 0 <= i < 6 ==> is_demo_edge(#[trigger] r@[i], i),
{
    let mut v: Vec<GraphEdgeResponse> = Vec::new();
    v.push(edge("nexus-1", "kuzu-1", "USES"));
    v.push(edge("nexus-1", "qdrant-1", "USES"));
    v.push(edge("nexus-1", "minimax-1", "CALLS"));
    v.push(edge("minimax-1", "gemini-1", "FALLBACK"));
    v.push(edge("thought-1", "claim-1", "SUPPORTS"));
    v.push(edge("thought-2", "kuzu-1", "ABOUT"));
    v
}

/// Ids of the demonstration graph's nodes.
pub open spec fn node_ids() -> Seq<Seq<char>> {
    seq![
        "nexus-1"@,
        "kuzu-1"@,
        "qdrant-1"@,
        "minimax-1"@,
        "gemini-1"@,
        "thought-1"@,
        "thought-2"@,
        "claim-1"@,
    ]
}

/// Labels of the demonstration graph's nodes.
pub open spec fn node_labels() -> Seq<Seq<char>> {
    seq![
        "Nexus Core"@,
        "KuzuDB"@,
        "Qdrant"@,
        "MiniMax AI"@,
        "Gemini"@,
        "Bitemporal Versioning"@,
        "2PC Commit Protocol"@,
        "Chronos is production-ready"@,
    ]
}

/// Types of the demonstration graph's nodes.
pub open spec fn node_types() -> Seq<Seq<char>> {
    seq![
        "Agent"@,
        "Concept"@,
        "Concept"@,
        "Concept"@,
        "Concept"@,
        "Thought"@,
        "Thought"@,
        "Claim"@,
    ]
}

/// Confidences of the demonstration graph's nodes, in hundredths.
pub open spec fn node_confidences() -> Seq<u32> {
    seq![100u32, 95, 95, 90, 85, 80, 85, 75]
}

/// Tags of the demonstration graph's nodes.
pub open spec fn node_tags() -> Seq<Seq<Seq<char>>> {
    seq![
        seq!["system"@],
        seq!["database"@, "graph"@],
        seq!["database"@, "vector"@],
        seq!["ai"@, "provider"@],
        seq!["ai"@, "provider"@],
        seq!["design"@, "temporal"@],
        seq!["sync"@, "protocol"@],
        seq!["status"@],
    ]
}

/// `n` is the `i`-th node of the demonstration graph.
pub open spec fn is_demo_node(n: GraphNodeResponse, i: int) -> bool {
    &&& n.id@ == node_ids()[i]
    &&& n.label@ == node_labels()[i]
    &&& n.node_type@ == node_types()[i]
    &&& n.confidence_hundredths == Some(node_confidences()[i])
    &&& n.tags@.map_values(|t: String| t@) == node_tags()[i]
}

/// The strings `tags`, as owned strings.
fn tag_list(tags: &[&str]) -> (r: Vec<String>)
    ensures
        r@.map_values(|t: String| t@) == tags@.map_values(|t: &str| t@),
{
    let mut v: Vec<String> = Vec::new();
    let mut i: usize = 0;
    while i < tags.len()
        invariant
            i <= tags@.len(),
            v@.map_values(|t: String| t@) == tags@.take(i as int).map_values(|t: &str| t@),
        decreases tags@.len() - i,
    {
        let t: &str = tags[i];
        let owned = String::from_str(t);
        let ghost before = v@;
        v.push(owned);
        proof {
            let k = i as int;
            assert(v@ == before.push(owned));
            assert(tags@.take(k + 1) =~= tags@.take(k).push(t));
            assert(v@.map_values(|x: String| x@) =~= before.map_values(|x: String| x@).push(t@));
            assert(tags@.take(k + 1).map_values(|x: &str| x@) =~= tags@.take(k).map_values(
                |x: &str| x@,
            ).push(t@));
        }
        i = i + 1;
    }
    assert(tags@.take(tags@.len() as int) =~= tags@);
    v
}

fn graph_node(id: &str, label: &str, node_type: &str, confidence: u32, tags: &[&str]) -> (n:
    GraphNodeResponse)
    ensures
        n.id@ == id@,
        n.label@ == label@,
        n.node_type@ == node_type@,
        n.confidence_hundredths == Some(confidence),
        n.tags@.map_values(|t: String| t@) == tags@.map_values(|t: &str| t@),
{
    GraphNodeResponse {
        id: String::from_str(id),
        label: String::from_str(label),
        node_type: String::from_str(node_type),
        confidence_hundredths: Some(confidence),
        tags: tag_list(tags),
    }
}

/// The nodes of the demonstration graph the graph view shows until the
/// graph store answers queries.
pub fn demo_nodes() -> (r: Vec<GraphNodeResponse>)
    ensures
        r@.len() == 8,
        forall|i: int| 0 <= i < 8 ==> is_demo_node(#[trigger] r@[i], i),
{
    let mut v: Vec<GraphNodeResponse> = Vec::new();
    let n = graph_node("nexus-1", "Nexus Core", "Agent", 100, &["system"]);
    assert(n.tags@.map_values(|t: String| t@) =~= node_tags()[0]);
    v.push(n);
    let n = graph_node("kuzu-1", "KuzuDB", "Concept", 95, &["database", "graph"]);
    assert(n.tags@.map_values(|t: String| t@) =~= node_tags()[1]);
    v.push(n);
    let n = graph_node("qdrant-1", "Qdrant", "Concept", 95, &["database", "vector"]);
    assert(n.tags@.map_values(|t: String| t@) =~= node_tags()[2]);
    v.push(n);
    let n = graph_node("minimax-1", "MiniMax AI", "Concept", 90, &["ai", "provider"]);
    assert(n.tags@.map_values(|t: String| t@) =~= node_tags()[3]);
    v.push(n);
    let n = graph_node("gemini-1", "Gemini", "Concept", 85, &["ai", "provider"]);
    assert(n.tags@.map_values(|t: String| t@) =~= node_tags()[4]);
    v.push(n);
    let n = graph_node("thought-1", "Bitemporal Versioning", "Thought", 80, &["design", "temporal"]);
    assert(n.tags@.map_values(|t: String| t@) =~= node_tags()[5]);
    v.push(n);
    let n = graph_node("thought-2", "2PC Commit Protocol", "Thought", 85, &["sync", "protocol"]);
    assert(n.tags@.map_values(|t: String| t@) =~= node_tags()[6]);
    v.push(n);
    let n = graph_node("claim-1", "Chronos is production-ready", "Claim", 75, &["status"]);
    assert(n.tags@.map_values(|t: String| t@) =~= node_tags()[7]);
    v.push(n);
    v
}

/// The demonstration graph: its nodes and the edges between them.
pub fn graph_get_nodes() -> (r: Result<GraphDataResponse, String>)
    ensures
        r matches Ok(g) && g.nodes@.len() == 8 && g.edges@.len() == 6
            && (forall|i: int| 0 <= i < 8 ==> is_demo_node(#[trigger] g.nodes@[i], i))
            && (forall|i: int| 0 <= i < 6 ==> is_demo_edge(#[trigger] g.edges@[i], i)),
{
    Ok(GraphDataResponse { nodes: demo_nodes(), edges: demo_edges() })
}

/// Ids of the demonstration timeline's entries, newest first.
pub open spec fn timeline_ids() -> Seq<Seq<char>> {
    seq![
        "evt-1"@,
        "evt-2"@,
        "evt-3"@,
        "evt-4"@,
        "evt-5"@,
        "evt-6"@,
        "evt-7"@,
        "evt-8"@,
    ]
}

/// Event types of the demonstration timeline's entries.
pub open spec fn timeline_event_types() -> Seq<Seq<char>> {
    seq![
        "thought_added"@,
        "wiki_updated"@,
        "connection_found"@,
        "claim_added"@,
        "thought_added"@,
        "wiki_updated"@,
        "connection_found"@,
        "thought_added"@,
    ]
}

/// Descriptions of the demonstration timeline's entries.
pub open spec fn timeline_descriptions() -> Seq<Seq<char>> {
    seq![
        "Added: Bitemporal versioning enables time-travel queries across transaction and valid time dimensions"@,
        "Wiki updated: KuzuDB schema documentation \u{2014} 12 node tables, 12 relationship tables"@,
        "Connection: MiniMax and Gemini share the same T3 retry budget pool"@,
        "Claim added: 2PC commit prevents orphaned records \u{2014} KuzuDB and Qdrant always stay in sync"@,
        "CallGuard RAII reserves tokens BEFORE the network call, confirms after success, rolls back on Drop"@,
        "Wiki updated: Qdrant collection configs \u{2014} vector_size=2560, shard_number=3, on_disk=true"@,
        "Connection: BrainPulse dashboard connects to pipeline_budget_status every 15 seconds"@,
        "The force-directed graph uses 60fps Canvas rendering with requestAnimationFrame"@,
    ]
}

/// Entities of the demonstration timeline's entries.
pub open spec fn timeline_entities() -> Seq<Seq<char>> {
    seq![
        "thought-1"@,
        "kuzu-1"@,
        "minimax-1"@,
        "claim-1"@,
        "thought-2"@,
        "qdrant-1"@,
        "nexus-1"@,
        "thought-3"@,
    ]
}

/// Tags of the demonstration timeline's entries.
pub open spec fn timeline_tags() -> Seq<Seq<Seq<char>>> {
    seq![
        seq!["design"@, "temporal"@],
        seq!["docs"@, "schema"@],
        seq!["ai"@, "providers"@],
        seq!["sync"@, "2pc"@],
        seq!["budget"@, "raii"@],
        seq!["docs"@, "qdrant"@],
        seq!["ui"@, "dashboard"@],
        seq!["graph"@, "performance"@],
    ]
}

/// How long before now the demonstration timeline's entries happened, in
/// milliseconds.
pub open spec fn timeline_ages() -> Seq<int> {
    seq![300000, 600000, 900000, 1200000, 1800000, 2400000, 3000000, 3600000int]
}

/// The number of entries the timeline view asks for: `limit`, where 0
/// stands for 100.
pub open spec fn effective_limit(limit: usize) -> int {
    if limit == 0 {
        100
    } else {
        limit as int
    }
}

/// `e` is the `i`-th entry of the demonstration timeline, seen at `now`.
pub open spec fn is_timeline_entry(e: TimelineEntryResponse, i: int, now: i64) -> bool {
    &&& e.id@ == timeline_ids()[i]
    &&& e.event_type@ == timeline_event_types()[i]
    &&& e.description@ == timeline_descriptions()[i]
    &&& e.timestamp == now - timeline_ages()[i]
    &&& e.entity_id@ == timeline_entities()[i]
    &&& e.tags@.map_values(|t: String| t@) == timeline_tags()[i]
}

fn timeline_entry(
    id: &str,
    event_type: &str,
    description: &str,
    timestamp: i64,
    entity_id: &str,
    tag1: &str,
    tag2: &str,
) -> (e: TimelineEntryResponse)
    ensures
        e.id@ == id@,
        e.event_type@ == event_type@,
        e.description@ == description@,
        e.timestamp == timestamp,
        e.entity_id@ == entity_id@,
        e.tags@.map_values(|t: String| t@) == seq![tag1@, tag2@],
{
    let mut tags: Vec<String> = Vec::new();
    tags.push(String::from_str(tag1));
    tags.push(String::from_str(tag2));
    assert(tags@.map_values(|t: String| t@) =~= seq![tag1@, tag2@]);
    TimelineEntryResponse {
        id: String::from_str(id),
        event_type: String::from_str(event_type),
        description: String::from_str(description),
        timestamp,
        entity_id: String::from_str(entity_id),
        tags,
    }
}

/// The `i`-th entry of the demonstration timeline at time `now`.
fn demo_timeline_entry(i: usize, now: i64) -> (e: TimelineEntryResponse)
    requires
        i < 8,
        now >= i64::MIN + 3600000,
    ensures
        is_timeline_entry(e, i as int, now),
{
    match i {
        0 => timeline_entry(
            "evt-1",
            "thought_added",
            "Added: Bitemporal versioning enables time-travel queries across transaction and valid time dimensions",
            now - 300000,
            "thought-1",
            "design",
            "temporal",
        ),
        1 => timeline_entry(
            "evt-2",
            "wiki_updated",
            "Wiki updated: KuzuDB schema documentation \u{2014} 12 node tables, 12 relationship tables",
            now - 600000,
            "kuzu-1",
            "docs",
            "schema",
        ),
        2 => timeline_entry(
            "evt-3",
            "connection_found",
            "Connection: MiniMax and Gemini share the same T3 retry budget pool",
            now - 900000,
            "minimax-1",
            "ai",
            "providers",
        ),
        3 => timeline_entry(
            "evt-4",
            "claim_added",
            "Claim added: 2PC commit prevents orphaned records \u{2014} KuzuDB and Qdrant always stay in sync",
            now - 1200000,
            "claim-1",
            "sync",
            "2pc",
        ),
        4 => timeline_entry(
            "evt-5",
            "thought_added",
            "CallGuard RAII reserves tokens BEFORE the network call, confirms after success, rolls back on Drop",
            now - 1800000,
            "thought-2",
            "budget",
            "raii",
        ),
        5 => timeline_entry(
            "evt-6",
            "wiki_updated",
            "Wiki updated: Qdrant collection configs \u{2014} vector_size=2560, shard_number=3, on_disk=true",
            now - 2400000,
            "qdrant-1",
            "docs",
            "qdrant",
        ),
        6 => timeline_entry(
            "evt-7",
            "connection_found",
            "Connection: BrainPulse dashboard connects to pipeline_budget_status every 15 seconds",
            now - 3000000,
            "nexus-1",
            "ui",
            "dashboard",
        ),
        _ => timeline_entry(
            "evt-8",
            "thought_added",
            "The force-directed graph uses 60fps Canvas rendering with requestAnimationFrame",
            now - 3600000,
            "thought-3",
            "graph",
            "performance",
        ),
    }
}

/// The timeline at time `now`: the first `limit` entries of the
/// demonstration timeline (all 8 where `limit` is 0 or larger), newest first.
pub fn timeline_entries(now: i64, limit: usize) -> (r: Vec<TimelineEntryResponse>)
    requires
        now >= i64::MIN + 3600000,
    ensures
        r@.len() == if effective_limit(limit) < 8 { effective_limit(limit) } else { 8 },
        forall|i: int| 0 <= i < r@.len() ==> is_timeline_entry(#[trigger] r@[i], i, now),
{
    let limit = if limit == 0 { 100 } else { limit };
    let n: usize = if limit < 8 { limit } else { 8 };
    let mut v: Vec<TimelineEntryResponse> = Vec::new();
    let mut i: usize = 0;
    while i < n
        invariant
            n <= 8,
            i <= n,
            now >= i64::MIN + 3600000,
            v@.len() == i,
            forall|k: int| 0 <= k < i ==> is_timeline_entry(#[trigger] v@[k], k, now),
        decreases n - i,
    {
        v.push(demo_timeline_entry(i, now));
        i = i + 1;
    }
    v
}

/// `v` is the timeline for `limit` seen at time `now`.
pub open spec fn is_timeline_at(v: Seq<TimelineEntryResponse>, limit: usize, now: i64) -> bool {
    &&& v.len() == if effective_limit(limit) < 8 { effective_limit(limit) } else { 8 }
    &&& forall|i: int| 0 <= i < v.len() ==> is_timeline_entry(#[trigger] v[i], i, now)
}

/// The timeline view's entries, seen now: the timeline for `limit` at the
/// time of the call, read from the clock (never before the epoch).
pub fn graph_get_timeline(limit: usize) -> (r: Result<Vec<TimelineEntryResponse>, String>)
    ensures
        r is Ok,
        exists|now: i64| now >= 0 && #[trigger] is_timeline_at(r->Ok_0@, limit, now),
        exists|t: ClockReading| t.spec_millis() >= 0 && #[trigger] is_timeline_at(
            r->Ok_0@,
            limit,
            t.spec_millis(),
        ),
{
    let t = read_clock();
    let now = t.millis();
    let v = timeline_entries(now, limit);
    assert(is_timeline_at(v@, limit, now));
    assert(exists|n: i64| n >= 0 && #[trigger] is_timeline_at(v@, limit, n));
    assert(is_timeline_at(v@, limit, t.spec_millis()));
    let r = Ok(v);
    assert(r->Ok_0@ == v@);
    r
}

/// The timeline seen at a clock reading is dated from that reading: its
/// newest entry happened five minutes before it, and every entry within
/// the hour before it.
pub proof fn lemma_timeline_dated_from_reading(
    v: Seq<TimelineEntryResponse>,
    limit: usize,
    t: ClockReading,
)
    requires
        is_timeline_at(v, limit, t.spec_millis()),
    ensures
        v.len() > 0,
        v[0].timestamp == t.spec_millis() - 300000,
        forall|i: int|
            0 <= i < v.len() ==> t.spec_millis() - 3600000 <= #[trigger] v[i].timestamp
                < t.spec_millis(),
{
    assert(is_timeline_entry(v[0], 0, t.spec_millis()));
    assert forall|i: int| 0 <= i < v.len() implies t.spec_millis() - 3600000
        <= #[trigger] v[i].timestamp < t.spec_millis() by {
        assert(is_timeline_entry(v[i], i, t.spec_millis()));
    }
}

/// The timeline is newest first: each entry happened after the ones that
/// follow it.
pub proof fn lemma_timeline_newest_first(v: Seq<TimelineEntryResponse>, limit: usize, now: i64, i: int, j: int)
    requires
        is_timeline_at(v, limit, now),
        0 <= i < j < v.len(),
    ensures
        v[i].timestamp > v[j].timestamp,
{
    assert(is_timeline_entry(v[i], i, now));
    assert(is_timeline_entry(v[j], j, now));
}

} // verus!
