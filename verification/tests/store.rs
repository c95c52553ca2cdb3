use deepthought::DeepThoughtError;
use deepthought::object::DeepThoughtObject;
use deepthought::store::{DeepThoughtVecStore, RawHit};

fn hit(id: &str, score: f32) -> RawHit {
    RawHit {
        id: id.to_string(),
        score_bits: score.to_bits(),
        score_text: format!("{}", score),
    }
}

fn seeded_store() -> DeepThoughtVecStore {
    let mut store = DeepThoughtVecStore::new("/tmp/knowledge").unwrap();
    store.configure_chunking(20, 5);
    let plans = store.plan_document("doc1", "The sky is blue. Grass is green.");
    assert_eq!(plans.len(), 2);
    for plan in &plans {
        store.apply_chunk(plan);
    }
    store
}

#[test]
fn plan_document_derives_ids_and_embed_inputs() {
    let mut store = DeepThoughtVecStore::new("/tmp/knowledge").unwrap();
    store.configure_chunking(20, 5);
    store.set_embedding_prefix("passage:");
    let plans = store.plan_document("doc1", "The sky is blue. Grass is green.");
    assert_eq!(plans.len(), 2);
    assert_eq!(plans[0].id, "doc1-0");
    assert_eq!(plans[1].id, "doc1-1");
    assert_eq!(plans[0].seq_index, 0);
    assert_eq!(plans[1].seq_index, 1);
    assert_eq!(plans[0].text, "The sky is blue. Gra");
    assert_eq!(plans[0].embed_input, "passage: The sky is blue. Gra");
    assert_eq!(plans[1].embed_input, "passage: . Grass is green.");
}

#[test]
fn plan_document_many_chunks_decimal_ids() {
    let mut store = DeepThoughtVecStore::new("/tmp/knowledge").unwrap();
    store.configure_chunking(2, 1);
    let text: String = std::iter::repeat('x').take(13).collect();
    let plans = store.plan_document("d", &text);
    assert_eq!(plans.len(), 12);
    assert_eq!(plans[9].id, "d-9");
    assert_eq!(plans[10].id, "d-10");
    assert_eq!(plans[11].id, "d-11");
}

#[test]
fn score_ceiling_is_hard_filter() {
    let mut store = seeded_store();
    // Ceiling 0.5: the 0.9 hit is dropped whatever k says.
    store.configure_query(10, 0.7f32.to_bits(), 0.5f32.to_bits());
    let raw = vec![hit("doc1-0", 0.2), hit("doc1-1", 0.9)];
    let neighbors = store.query_neighbors(&raw);
    assert_eq!(neighbors.len(), 1);
    assert_eq!(neighbors[0].id, "doc1-0");
    assert!(f32::from_bits(neighbors[0].score_bits) <= 0.5);
    // A boundary score exactly at the ceiling is kept.
    let raw = vec![hit("doc1-1", 0.5)];
    let neighbors = store.query_neighbors(&raw);
    assert_eq!(neighbors.len(), 1);
}

#[test]
fn query_respects_k() {
    let mut store = seeded_store();
    store.configure_query(1, 0.7f32.to_bits(), 1.0f32.to_bits());
    let raw = vec![hit("doc1-0", 0.1), hit("doc1-1", 0.2)];
    let neighbors = store.query_neighbors(&raw);
    assert_eq!(neighbors.len(), 1);
    assert_eq!(neighbors[0].id, "doc1-0");
}

#[test]
fn tombstone_exclusion_after_delete() {
    let mut store = seeded_store();
    store.configure_query(10, 0.7f32.to_bits(), 1.0f32.to_bits());
    assert_eq!(store.len(), 2);
    assert!(store.get("doc1-0").is_ok());

    store.delete_record("doc1-0").unwrap();

    // The deleted id never comes back from a query, whatever the raw
    // results claim, and a direct lookup is not found.
    let raw = vec![hit("doc1-0", 0.01), hit("doc1-1", 0.2)];
    let neighbors = store.query_neighbors(&raw);
    assert_eq!(neighbors.len(), 1);
    assert_eq!(neighbors[0].id, "doc1-1");
    assert!(matches!(store.get("doc1-0"), Err(DeepThoughtError::NotFound(_))));
    assert_eq!(store.len(), 1);
}

#[test]
fn save_compacts_tombstoned_records() {
    let mut store = seeded_store();
    store.delete_record("doc1-0").unwrap();
    assert_eq!(store.len(), 1);
    store.save_vectorstore().unwrap();
    assert_eq!(store.len(), 1);
    assert!(store.get("doc1-0").is_err());
    assert!(store.get("doc1-1").is_ok());
    // Deleting an unknown id stays a no-op.
    store.delete_record("ghost").unwrap();
    assert_eq!(store.len(), 1);
}

#[test]
fn unknown_ids_in_raw_results_are_dropped() {
    let store = seeded_store();
    let raw = vec![hit("nosuch", 0.01)];
    let neighbors = store.query_neighbors(&raw);
    assert_eq!(neighbors.len(), 0);
}

#[test]
fn upsert_replaces_record_under_same_id() {
    let mut store = DeepThoughtVecStore::new("/tmp/knowledge").unwrap();
    let first = store.plan_string("a", "old text");
    store.apply_chunk(&first);
    let second = store.plan_string("a", "new text");
    store.apply_chunk(&second);
    assert_eq!(store.len(), 1);
    assert_eq!(store.get("a").unwrap(), "new text");
}

#[test]
fn plan_object_flattens_tags_with_reserved_prefix() {
    let store = DeepThoughtVecStore::new("/tmp/knowledge").unwrap();
    let mut obj = DeepThoughtObject::from_str("catalog entry text");
    assert_eq!(obj.id.len(), 21);
    obj.set_tag("url", "https://example.test");
    obj.set_tag("type", "url");
    let plan = store.plan_object(&obj);
    assert_eq!(plan.id, obj.id);
    assert_eq!(plan.text, "catalog entry text");
    assert!(plan.tags.contains(&("tag.url".to_string(), "https://example.test".to_string())));
    assert!(plan.tags.contains(&("tag.type".to_string(), "url".to_string())));
}

#[test]
fn output_renders_neighbor_through_template() {
    let mut store = seeded_store();
    store.configure_query(10, 0.7f32.to_bits(), 1.0f32.to_bits());
    store.register_template("ctx", "[{{ id }}|{{ score }}] {{ text }}").unwrap();
    let raw = vec![hit("doc1-0", 0.25)];
    let neighbors = store.query_neighbors(&raw);
    let rendered = store.output("ctx", &neighbors[0]).unwrap();
    assert_eq!(rendered, "[doc1-0|0.25] The sky is blue. Gra");
    assert!(matches!(
        store.output("missing", &neighbors[0]),
        Err(DeepThoughtError::NotFound(_))
    ));
}

#[test]
fn split_text_fallbackless_chunking() {
    let mut store = DeepThoughtVecStore::new("/tmp/knowledge").unwrap();
    store.configure_chunking(4, 1);
    let chunks = store.split_text("abcdefg");
    assert_eq!(chunks, vec!["abcd".to_string(), "defg".to_string()]);
}

#[test]
fn embedding_failure_keeps_earlier_chunks() {
    // Insertion is chunk-at-a-time, not transactional: when embedding fails
    // partway through a document, chunks already applied stay inserted.
    let mut store = DeepThoughtVecStore::new("/tmp/knowledge").unwrap();
    store.configure_chunking(20, 5);
    let plans = store.plan_document("doc1", "The sky is blue. Grass is green.");
    assert_eq!(plans.len(), 2);
    // The embedding collaborator answers for the first chunk and fails on
    // the second; the caller stops there.
    store.apply_chunk(&plans[0]);
    assert_eq!(store.len(), 1);
    assert!(store.get(&plans[0].id).is_ok());
    assert!(store.get(&plans[1].id).is_err());
}

#[test]
fn template_reregistration_overwrites() {
    let mut store = seeded_store();
    store.configure_query(10, 0.7f32.to_bits(), 1.0f32.to_bits());
    store.register_template("t", "old {{ id }}").unwrap();
    store.register_template("t", "new {{ id }}").unwrap();
    let raw = vec![hit("doc1-0", 0.1)];
    let neighbors = store.query_neighbors(&raw);
    assert_eq!(store.output("t", &neighbors[0]).unwrap(), "new doc1-0");
}
