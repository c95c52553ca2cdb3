//! Driving the verified store against the real hybrid index: the raw hits
//! come from an actual vecstore hybrid query over fabricated embedding
//! vectors, exactly as the embedding caller would produce them.
//!
//! The index's internal ranking has randomized tie-breaking, so the
//! assertions compare the verified filter's output against the filter
//! semantics applied to whatever raw hits the index actually returned,
//! rather than pinning which neighbor wins the hybrid scoring.

use deepthought::store::{DeepThoughtVecStore, RawHit};
use vecstore::{HybridQuery, Metadata, VecStore};

fn raw_hits(neighbors: &[vecstore::Neighbor]) -> Vec<RawHit> {
    neighbors
        .iter()
        .map(|n| RawHit {
            id: n.id.clone(),
            score_bits: n.score.to_bits(),
            score_text: format!("{}", n.score),
        })
        .collect()
}

/// The filter semantics the store promises: hits at most the ceiling whose
/// id is live, in incoming order, truncated at `k`.
fn expected_ids(raw: &[RawHit], live: &[String], ceiling: f32, k: usize) -> Vec<String> {
    raw.iter()
        .filter(|h| f32::from_bits(h.score_bits) <= ceiling && live.contains(&h.id))
        .map(|h| h.id.clone())
        .take(k)
        .collect()
}

#[test]
fn real_hybrid_query_through_verified_filter() {
    // A fresh directory per run, so that no state of an earlier run is
    // loaded back.
    let dir = format!("/tmp/dt-hybrid-{}", deepthought::object::fresh_id());
    let mut store = DeepThoughtVecStore::new(&dir).unwrap();
    store.configure_chunking(20, 5);
    let plans = store.plan_document("doc1", "The sky is blue. Grass is green.");
    assert_eq!(plans.len(), 2);

    let mut index = VecStore::open(&dir).unwrap();
    // Hand-made unit vectors standing in for the embedding collaborator:
    // the first chunk is about the sky, the second about grass.
    let vectors = [vec![1.0f32, 0.0, 0.0], vec![0.0f32, 1.0, 0.0]];
    for (plan, vector) in plans.iter().zip(vectors.iter()) {
        store.apply_chunk(plan);
        index
            .upsert(
                plan.id.clone(),
                vector.clone(),
                Metadata {
                    fields: std::collections::HashMap::new(),
                },
            )
            .unwrap();
        index.index_text(&plan.id, plan.text.clone()).unwrap();
    }

    // A "sky color" query vector close to the first chunk's vector.  The
    // index is asked for a generous k; the verified store then applies the
    // score ceiling and the caller's k.
    let neighbors = index
        .hybrid_query(HybridQuery {
            vector: vec![0.9f32, 0.1, 0.0],
            keywords: "sky".to_string(),
            filter: None,
            k: 10,
            alpha: 0.7,
        })
        .unwrap();
    assert!(!neighbors.is_empty());
    let raw = raw_hits(&neighbors);

    store.configure_query(1, 0.7f32.to_bits(), 0.5f32.to_bits());
    let live = vec![plans[0].id.clone(), plans[1].id.clone()];
    let results = store.query_neighbors(&raw);
    let result_ids: Vec<String> = results.iter().map(|n| n.id.clone()).collect();
    assert_eq!(result_ids, expected_ids(&raw, &live, 0.5, 1));
    for n in &results {
        assert!(f32::from_bits(n.score_bits) <= 0.5);
        assert!(n.id == plans[0].id || n.id == plans[1].id);
        // The snapshot carries the stored chunk text.
        let which = if n.id == plans[0].id { 0 } else { 1 };
        assert_eq!(n.text, plans[which].text);
    }

    // After a soft delete, the same raw hits never yield that id again.
    store.delete_record(&plans[0].id).unwrap();
    let live_after = vec![plans[1].id.clone()];
    let results = store.query_neighbors(&raw);
    assert!(results.iter().all(|n| n.id != plans[0].id));
    let result_ids: Vec<String> = results.iter().map(|n| n.id.clone()).collect();
    assert_eq!(result_ids, expected_ids(&raw, &live_after, 0.5, 1));
}
