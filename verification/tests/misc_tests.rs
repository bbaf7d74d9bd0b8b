use chronos::budget::BudgetState;
use chronos::embed::{init_embedder, is_ready, stub_states, text_stub_states, EmbedError, EMBEDDING_DIM};
use chronos::encryption::{decrypt, encrypt, CryptoError};
use chronos::ipc::graph::{demo_edges, graph_get_timeline, timeline_entries};
use chronos::ipc::health::{health_check, health_response};
use chronos::ipc::pipeline as ipc_pipeline;
use chronos::ipc::vault::{vault_delete_note, vault_ingest_file, vault_ingest_response};
use chronos::lance::{has_embeddings_table, LanceError};
use chronos::pipeline::{
    pipeline_budget_status, pipeline_diary_write, pipeline_ingest, pipeline_status,
    pipeline_trigger_cron, DiaryWriteRequest, IngestRequest,
};
use chronos::qdrant::{indexed_payload_fields, QdrantVectorClient, SHARD_NUMBER, VECTOR_SIZE};
use chronos::sync::{delete_note_2pc, sync_outcome, SyncPhase};
use chronos::text::decimal_string;

fn is_v4(s: &str) -> bool {
    let b: Vec<char> = s.chars().collect();
    b.len() == 36
        && b.iter().enumerate().all(|(i, c)| {
            if [8, 13, 18, 23].contains(&i) {
                *c == '-'
            } else {
                c.is_ascii_hexdigit() && !c.is_ascii_uppercase()
            }
        })
        && b[14] == '4'
        && "89ab".contains(b[19])
}

#[test]
fn decimal_rendering() {
    assert_eq!(decimal_string(0), "0");
    assert_eq!(decimal_string(7), "7");
    assert_eq!(decimal_string(10), "10");
    assert_eq!(decimal_string(80000), "80000");
    assert_eq!(decimal_string(u64::MAX), u64::MAX.to_string());
}

#[test]
fn embedder_stub() {
    assert!(init_embedder().is_ok());
    assert!(is_ready());
    let s = stub_states(1);
    assert_eq!(s.len(), EMBEDDING_DIM);
    let mut x: u64 = 1;
    for v in s.iter() {
        x ^= x << 13;
        x ^= x >> 7;
        x ^= x << 17;
        assert_eq!(*v, x);
    }
    assert_eq!(s[0], 1082269761);
    assert_eq!(text_stub_states("same text"), text_stub_states("same text"));
    assert_ne!(text_stub_states("one"), text_stub_states("two"));
    assert_eq!(
        EmbedError::NotInitialized("x".to_string()).message(),
        "Embedder not initialized: x"
    );
}

#[test]
fn encryption_round_trip() {
    let data = b"secret note".to_vec();
    let key = [7u8; 32].to_vec();
    let c = encrypt(&data, &key).unwrap();
    assert_eq!(c.len(), data.len() + 12 + 16);
    assert_ne!(&c[12..12 + data.len()], &data[..]);
    assert_eq!(decrypt(&c, &key).unwrap(), data);
    let c2 = encrypt(&data, &key).unwrap();
    assert_ne!(c, c2);
    assert_eq!(decrypt(&c2, &key).unwrap(), data);
    assert_eq!(CryptoError::KeyNotFound.message(), "Key not found in keychain");
    assert_eq!(CryptoError::EncryptFailed("e".to_string()).message(), "Encryption failed: e");
}

#[test]
fn encryption_refusals() {
    let data = b"secret note".to_vec();
    let key = [7u8; 32].to_vec();
    let other = [8u8; 32].to_vec();
    let c = encrypt(&data, &key).unwrap();
    match decrypt(&c, &other) {
        Err(CryptoError::DecryptFailed(m)) => assert_eq!(m, "authentication failed"),
        r => panic!("unexpected {:?}", r),
    }
    let mut tampered = c.clone();
    tampered[14] ^= 1;
    assert!(matches!(decrypt(&tampered, &key), Err(CryptoError::DecryptFailed(_))));
    match encrypt(&data, b"short") {
        Err(CryptoError::EncryptFailed(m)) => assert_eq!(m, "key must be 32 bytes (AES-256)"),
        r => panic!("unexpected {:?}", r),
    }
    match decrypt(&c, b"short") {
        Err(CryptoError::DecryptFailed(m)) => assert_eq!(m, "key must be 32 bytes (AES-256)"),
        r => panic!("unexpected {:?}", r),
    }
    match decrypt(&c[..27], &key) {
        Err(CryptoError::DecryptFailed(m)) => assert_eq!(m, "message too short"),
        r => panic!("unexpected {:?}", r),
    }
    let empty = encrypt(&[], &key).unwrap();
    assert_eq!(empty.len(), 28);
    assert_eq!(decrypt(&empty, &key).unwrap(), Vec::<u8>::new());
}

#[test]
fn timeline_honours_the_limit() {
    let now = 10_000_000;
    let all = timeline_entries(now, 0);
    assert_eq!(all.len(), 8);
    assert_eq!(all[0].id, "evt-1");
    assert_eq!(all[0].timestamp, now - 300_000);
    assert_eq!(all[7].id, "evt-8");
    assert_eq!(all[7].timestamp, now - 3_600_000);
    assert_eq!(all[7].tags, vec!["graph".to_string(), "performance".to_string()]);
    assert_eq!(all[1].description, "Wiki updated: KuzuDB schema documentation \u{2014} 12 node tables, 12 relationship tables");
    assert_eq!(timeline_entries(now, 3).len(), 3);
    assert_eq!(timeline_entries(now, 8).len(), 8);
    assert_eq!(timeline_entries(now, 50).len(), 8);
    assert_eq!(graph_get_timeline(2).unwrap().len(), 2);
    let e = demo_edges();
    assert_eq!(e.len(), 6);
    assert_eq!(e[3].source, "minimax-1");
    assert_eq!(e[3].target, "gemini-1");
    assert_eq!(e[3].label.as_deref(), Some("FALLBACK"));
    assert_eq!(e[3].edge_type, "FALLBACK");
}

#[test]
fn health_and_vault() {
    let h = health_response(42);
    assert_eq!(h.status, "ok");
    assert!(!h.kuzu_connected && !h.qdrant_connected);
    assert_eq!(h.timestamp, 42);
    let h = health_check().unwrap();
    assert!(h.timestamp > 0);
    let v = vault_ingest_response("n1".to_string(), 5);
    assert_eq!((v.note_id.as_str(), v.status.as_str(), v.created_at), ("n1", "prepared", 5));
    let v = vault_ingest_file("p".to_string(), "t".to_string(), vec![]).unwrap();
    assert!(is_v4(&v.note_id));
    assert_eq!(v.status, "prepared");
    assert_eq!(vault_delete_note("n1".to_string()), Ok(true));
}

#[test]
fn pipeline_entry_points() {
    let r = pipeline_ingest(IngestRequest {
        content: "c".to_string(),
        source: "mind_dump".to_string(),
        tags: vec![],
    })
    .unwrap();
    assert!(is_v4(&r.note_id) && is_v4(&r.wiki_entry_id));
    assert_ne!(r.note_id, r.wiki_entry_id);
    assert_eq!((r.tier_used.as_str(), r.provider_used.as_str(), r.status.as_str()), ("t3", "minimax", "synthesized"));
    let d = pipeline_diary_write(DiaryWriteRequest { content: "c".to_string(), date: "2024-01-01".to_string() }).unwrap();
    assert!(is_v4(&d.note_id));
    assert_eq!(d.status, "saved");
    let st = pipeline_status(vec!["a".to_string(), "b".to_string()]).unwrap();
    assert_eq!(st.len(), 2);
    assert_eq!((st[1].id.as_str(), st[1].status.as_str(), st[1].tier_done.as_str()), ("b", "processing", "t3"));
    let mut b = BudgetState::new();
    b.record_minimax(5);
    assert_eq!(pipeline_budget_status(&b).unwrap().minimax_tokens, 5);
    let c = pipeline_trigger_cron(&mut b).unwrap();
    assert_eq!((c.entries_processed, c.synthesis_count, c.errors.len()), (0, 0, 0));
    assert_eq!(b.minimax_tokens_used, 0);
    assert_eq!(pipeline_budget_status(&b).unwrap().minimax_calls, 0);
}

#[test]
fn ipc_pipeline_commands() {
    let r = ipc_pipeline::pipeline_ingest(ipc_pipeline::PipelineIngestRequest {
        content: "x".to_string(),
        source: "file".to_string(),
        tags: vec!["t".to_string()],
    })
    .unwrap();
    assert_eq!(r.status, "synthesized");
    assert!(is_v4(&r.wiki_entry_id));
    let d = ipc_pipeline::pipeline_diary_write("c".to_string(), "d".to_string()).unwrap();
    assert_eq!(d.status, "saved");
    let s = ipc_pipeline::pipeline_status(vec!["z".to_string()]).unwrap();
    assert_eq!(s[0].id, "z");
    assert_eq!(s[0].tier_done, "t3");
    let mut b = BudgetState::new();
    b.record_gemini(3);
    assert_eq!(ipc_pipeline::pipeline_budget_status(&b).unwrap().gemini_tokens, 3);
    let c = ipc_pipeline::pipeline_trigger_cron(&mut b).unwrap();
    assert_eq!(c.entries_processed, 0);
    assert_eq!(b.gemini_tokens_used, 0);
}

#[test]
fn stores() {
    assert_eq!(VECTOR_SIZE, 2560);
    assert_eq!(SHARD_NUMBER, 3);
    assert_eq!(
        indexed_payload_fields(),
        vec!["entity_type", "tx_time_start", "valid_time_start", "created_by", "record_type", "sync_status"]
    );
    let q = QdrantVectorClient::new("http://localhost:6333").unwrap();
    assert_eq!(q.url(), "http://localhost:6333");
    assert!(q.init_collections().is_ok());
    assert!(q.health_check());
    assert_eq!(q.clone().url(), q.url());
    assert!(has_embeddings_table(&vec!["a".to_string(), "embeddings".to_string()]));
    assert!(!has_embeddings_table(&vec!["embedding".to_string()]));
    assert_eq!(LanceError::QueryFailed("q".to_string()).message(), "LanceDB query failed: q");
    assert_eq!(sync_outcome("p1".to_string()), Ok((SyncPhase::Committed, "p1".to_string())));
    assert!(delete_note_2pc("n", "WikiEntry").is_ok());
}

#[test]
fn timeline_is_newest_first() {
    let v = timeline_entries(5_000_000, 0);
    for w in v.windows(2) {
        assert!(w[0].timestamp > w[1].timestamp);
    }
}
