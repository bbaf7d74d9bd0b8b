//! The insight stream: syntheses, connections, predictions and
//! contradictions waiting for review. A card's confidence is held in
//! hundredths; the application shows it as a fraction.

use vstd::prelude::*;
use crate::clock::{ClockReading, read_clock};

verus! {

#[derive(Debug, Clone)]
pub struct InsightCardResponse {
    pub id: String,
    pub title: String,
    pub content: String,
    pub insight_type: String,
    /// The confidence in hundredths (92 stands for 0.92).
    pub confidence_hundredths: u32,
    pub created_at: i64,
    pub tags: Vec<String>,
}

/// Ids of the pending insight cards.
pub open spec fn insight_ids() -> Seq<Seq<char>> {
    seq!["insight-1"@, "insight-2"@, "insight-3"@, "insight-4"@]
}

/// Titles of the pending insight cards.
pub open spec fn insight_titles() -> Seq<Seq<char>> {
    seq![
        "Synthesis: Dual-Provider AI Routing"@,
        "Connection: KuzuDB \u{2194} Qdrant 2PC"@,
        "Prediction: Graph Growth Trajectory"@,
        "Contradiction: CallGuard Budget Model"@,
    ]
}

/// Contents of the pending insight cards.
pub open spec fn insight_contents() -> Seq<Seq<char>> {
    seq![
        "The MiniMax + Gemini fallback strategy provides resilience at the T3 tier. When MiniMax fails, the system automatically retries with Gemini without user intervention or additional budget burn."@,
        "The Two-Phase Commit ensures KuzuDB and Qdrant never drift. If Qdrant upsert fails, KuzuDB is rolled back to pre-write state. No orphaned records possible."@,
        "Based on current brain dump frequency of ~8 entries/day, the knowledge graph will reach 1000 nodes within 90 days. Consider enabling automated synthesis at 500 nodes."@,
        "Budget is reserved at call time (estimated tokens), then reconciled on confirm. If the call fails, Drop rolls back. This prevents the 'increment-before-call' bug but may slightly overestimate usage mid-flight."@,
    ]
}

/// Kinds of the pending insight cards.
pub open spec fn insight_types() -> Seq<Seq<char>> {
    seq!["synthesis"@, "connection"@, "prediction"@, "contradiction"@]
}

/// Confidences of the pending insight cards, in hundredths.
pub open spec fn insight_confidences() -> Seq<u32> {
    seq![92u32, 88, 71, 83]
}

/// How long before now the pending insight cards were made, in
/// milliseconds.
pub open spec fn insight_ages() -> Seq<int> {
    seq![300000, 600000, 900000, 1200000int]
}

/// Tags of the pending insight cards.
pub open spec fn insight_tags() -> Seq<Seq<Seq<char>>> {
    seq![
        seq!["ai"@, "routing"@, "synthesis"@],
        seq!["sync"@, "2pc"@, "database"@],
        seq!["prediction"@, "graph"@, "growth"@],
        seq!["budget"@, "raii"@, "design"@],
    ]
}

/// `c` is the `i`-th pending insight card, seen at `now`.
pub open spec fn is_insight_card(c: InsightCardResponse, i: int, now: i64) -> bool {
    &&& c.id@ == insight_ids()[i]
    &&& c.title@ == insight_titles()[i]
    &&& c.content@ == insight_contents()[i]
    &&& c.insight_type@ == insight_types()[i]
    &&& c.confidence_hundredths == insight_confidences()[i]
    &&& c.created_at == now - insight_ages()[i]
    &&& c.tags@.map_values(|t: String| t@) == insight_tags()[i]
}

fn insight_card(
    id: &str,
    title: &str,
    content: &str,
    insight_type: &str,
    confidence: u32,
    created_at: i64,
    tag1: &str,
    tag2: &str,
    tag3: &str,
) -> (c: InsightCardResponse)
    ensures
        c.id@ == id@,
        c.title@ == title@,
        c.content@ == content@,
        c.insight_type@ == insight_type@,
        c.confidence_hundredths == confidence,
        c.created_at == created_at,
        c.tags@.map_values(|t: String| t@) == seq![tag1@, tag2@, tag3@],
{
    let mut tags: Vec<String> = Vec::new();
    tags.push(String::from_str(tag1));
    tags.push(String::from_str(tag2));
    tags.push(String::from_str(tag3));
    assert(tags@.map_values(|t: String| t@) =~= seq![tag1@, tag2@, tag3@]);
    InsightCardResponse {
        id: String::from_str(id),
        title: String::from_str(title),
        content: String::from_str(content),
        insight_type: String::from_str(insight_type),
        confidence_hundredths: confidence,
        created_at,
        tags,
    }
}

/// The pending insight cards at time `now`, newest first.
pub fn insight_cards(now: i64) -> (r: Vec<InsightCardResponse>)
    requires
        now >= i64::MIN + 1200000,
    ensures
        r@.len() == 4,
        forall|i: int| 0 <= i < 4 ==> is_insight_card(#[trigger] r@[i], i, now),
{
    let mut v: Vec<InsightCardResponse> = Vec::new();
    v.push(
        insight_card(
            "insight-1",
            "Synthesis: Dual-Provider AI Routing",
            "The MiniMax + Gemini fallback strategy provides resilience at the T3 tier. When MiniMax fails, the system automatically retries with Gemini without user intervention or additional budget burn.",
            "synthesis",
            92,
            now - 300000,
            "ai",
            "routing",
            "synthesis",
        ),
    );
    v.push(
        insight_card(
            "insight-2",
            "Connection: KuzuDB \u{2194} Qdrant 2PC",
            "The Two-Phase Commit ensures KuzuDB and Qdrant never drift. If Qdrant upsert fails, KuzuDB is rolled back to pre-write state. No orphaned records possible.",
            "connection",
            88,
            now - 600000,
            "sync",
            "2pc",
            "database",
        ),
    );
    v.push(
        insight_card(
            "insight-3",
            "Prediction: Graph Growth Trajectory",
            "Based on current brain dump frequency of ~8 entries/day, the knowledge graph will reach 1000 nodes within 90 days. Consider enabling automated synthesis at 500 nodes.",
            "prediction",
            71,
            now - 900000,
            "prediction",
            "graph",
            "growth",
        ),
    );
    v.push(
        insight_card(
            "insight-4",
            "Contradiction: CallGuard Budget Model",
            "Budget is reserved at call time (estimated tokens), then reconciled on confirm. If the call fails, Drop rolls back. This prevents the 'increment-before-call' bug but may slightly overestimate usage mid-flight.",
            "contradiction",
            83,
            now - 1200000,
            "budget",
            "raii",
            "design",
        ),
    );
    v
}

/// `v` is the list of pending insight cards seen at time `now`.
pub open spec fn is_insight_list_at(v: Seq<InsightCardResponse>, now: i64) -> bool {
    &&& v.len() == 4
    &&& forall|i: int| 0 <= i < 4 ==> is_insight_card(#[trigger] v[i], i, now)
}

/// The pending insight cards, seen now: the cards at the time of the call,
/// read from the clock (never before the epoch).
pub fn insights_get_pending() -> (r: Result<Vec<InsightCardResponse>, String>)
    ensures
        r matches Ok(v) && exists|now: i64| now >= 0 && #[trigger] is_insight_list_at(v@, now),
        r matches Ok(v) && exists|t: ClockReading| t.spec_millis() >= 0 && #[trigger]
            is_insight_list_at(v@, t.spec_millis()),
{
    let t = read_clock();
    let now = t.millis();
    let v = insight_cards(now);
    assert(is_insight_list_at(v@, now));
    assert(exists|n: i64| n >= 0 && #[trigger] is_insight_list_at(v@, n));
    assert(is_insight_list_at(v@, t.spec_millis()));
    let r = Ok(v);
    assert(r->Ok_0@ == v@);
    r
}

/// The cards seen at a clock reading are dated from that reading, newest
/// first: each was made before the reading, within twenty minutes of it,
/// and before the cards ahead of it in the list.
pub proof fn lemma_insights_dated_from_reading(v: Seq<InsightCardResponse>, t: ClockReading)
    requires
        is_insight_list_at(v, t.spec_millis()),
    ensures
        forall|i: int|
            0 <= i < v.len() ==> t.spec_millis() - 1200000 <= #[trigger] v[i].created_at
                < t.spec_millis(),
        forall|i: int, j: int| 0 <= i < j < v.len() ==> v[i].created_at > v[j].created_at,
{
    assert forall|i: int| 0 <= i < v.len() implies t.spec_millis() - 1200000
        <= #[trigger] v[i].created_at < t.spec_millis() by {
        assert(is_insight_card(v[i], i, t.spec_millis()));
    }
    assert forall|i: int, j: int| 0 <= i < j < v.len() implies v[i].created_at
        > v[j].created_at by {
        assert(is_insight_card(v[i], i, t.spec_millis()));
        assert(is_insight_card(v[j], j, t.spec_millis()));
    }
}

} // verus!
