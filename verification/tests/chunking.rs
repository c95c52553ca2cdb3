use deepthought::chunk::chunk_text;

#[test]
fn chunking_scenario_sky_grass() {
    // 32 characters, chunk size 20, overlap 5: ceil((32 - 5) / 15) = 2 chunks.
    let text = "The sky is blue. Grass is green.";
    assert_eq!(text.chars().count(), 32);
    let chunks = chunk_text(text, 20, 5);
    assert_eq!(chunks.len(), 2);
    assert_eq!(chunks[0], "The sky is blue. Gra");
    assert_eq!(chunks[1], ". Grass is green.");
    assert!(chunks[0].chars().count() <= 20);
    assert!(chunks[1].chars().count() <= 20);
}

#[test]
fn chunking_count_formula() {
    // n = 100, s = 10, o = 3: ceil((100 - 3) / 7) = 14 chunks.
    let text: String = std::iter::repeat('x').take(100).collect();
    let chunks = chunk_text(&text, 10, 3);
    assert_eq!(chunks.len(), 14);
    for c in &chunks {
        assert!(c.chars().count() <= 10);
    }
}

#[test]
fn chunking_consecutive_overlap_exact() {
    let text = "abcdefghijklmnopqrstuvwxyz";
    let chunks = chunk_text(text, 10, 4);
    // ceil((26 - 4) / 6) = 4 chunks, starting every 6 characters.
    assert_eq!(chunks.len(), 4);
    for w in chunks.windows(2) {
        let prev: Vec<char> = w[0].chars().collect();
        let next: Vec<char> = w[1].chars().collect();
        let tail: Vec<char> = prev[prev.len() - 4..].to_vec();
        let head: Vec<char> = next[..4].to_vec();
        assert_eq!(tail, head);
    }
}

#[test]
fn chunking_short_text_single_chunk() {
    let chunks = chunk_text("short", 20, 5);
    assert_eq!(chunks.len(), 1);
    assert_eq!(chunks[0], "short");
}

#[test]
fn chunking_empty_text_no_chunks() {
    let chunks = chunk_text("", 20, 5);
    assert_eq!(chunks.len(), 0);
}

#[test]
fn chunking_exact_boundary() {
    // n == s: exactly one chunk.
    let chunks = chunk_text("a".repeat(20).as_str(), 20, 5);
    assert_eq!(chunks.len(), 1);
    // n == s + 1: a second chunk appears.
    let chunks = chunk_text("a".repeat(21).as_str(), 20, 5);
    assert_eq!(chunks.len(), 2);
}
