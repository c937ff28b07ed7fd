//! The segmentation policy: chunking, padding growth, the mostly-speech
//! bypass, the silence rule, and the short-input rule.

use voice_input::segment::{segment_speech, VadProcessor, CHUNK_SIZE, PADDING_CHUNKS};

fn zeros(n: usize) -> Vec<u32> {
    vec![0.0f32.to_bits(); n]
}

/// A buffer of `chunks` chunks whose samples encode their chunk index,
/// so the filtered output shows exactly which chunks survived.
fn indexed_chunks(chunks: usize) -> Vec<u32> {
    let mut v = Vec::new();
    for c in 0..chunks {
        for _ in 0..CHUNK_SIZE {
            v.push(c as u32);
        }
    }
    v
}

#[test]
fn test_vad_creation() {
    let vad = VadProcessor::new();
    assert!(vad.is_ok());
}

#[test]
fn test_segmenter_applies_policy() {
    let vad = VadProcessor::new().unwrap();
    assert_eq!(vad.chunk_size, CHUNK_SIZE);
    assert_eq!(vad.padding_chunks, PADDING_CHUNKS);
    let input = zeros(CHUNK_SIZE * 10);
    let out = vad.extract_speech(&input, &vec![false; 10]);
    assert!(out.is_empty());
}

#[test]
fn test_short_input_returned_unchanged() {
    let input = zeros(CHUNK_SIZE - 1);
    let out = segment_speech(&input, &Vec::new());
    assert_eq!(out, input);
}

#[test]
fn test_no_speech_returns_empty() {
    // The silence rule: nothing classified as speech comes back empty.
    let input = zeros(CHUNK_SIZE * 10);
    let labels = vec![false; 10];
    let out = segment_speech(&input, &labels);
    assert!(out.is_empty());
}

#[test]
fn test_all_speech_returns_original() {
    // The mostly-speech bypass: every chunk classified speech keeps the
    // whole input, trailing partial chunk included.
    let mut input = indexed_chunks(10);
    input.push(999);
    let labels = vec![true; 10];
    let out = segment_speech(&input, &labels);
    assert_eq!(out, input);
}

#[test]
fn test_padding_grows_one_speech_chunk() {
    // One speech chunk in the middle of silence keeps its padding
    // window on both sides, in order.
    let chunks = 12;
    let input = indexed_chunks(chunks);
    let mut labels = vec![false; chunks];
    labels[6] = true;
    let out = segment_speech(&input, &labels);
    let kept: Vec<u32> = (6 - PADDING_CHUNKS as u32..=6 + PADDING_CHUNKS as u32)
        .flat_map(|c| std::iter::repeat(c).take(CHUNK_SIZE))
        .collect();
    assert_eq!(out, kept);
}

#[test]
fn test_padding_clipped_at_edges() {
    // A speech chunk at the very start pads only forward.
    let chunks = 10;
    let input = indexed_chunks(chunks);
    let mut labels = vec![false; chunks];
    labels[0] = true;
    let out = segment_speech(&input, &labels);
    assert_eq!(out.len(), (1 + PADDING_CHUNKS) * CHUNK_SIZE);
    assert_eq!(out[0], 0);
    assert_eq!(out[out.len() - 1], PADDING_CHUNKS as u32);
}

#[test]
fn test_bypass_boundary_exact() {
    // 20 chunks: one raw speech label in the middle pads to 7 speech
    // chunks (35%), far under the bypass; the filtered result is just
    // those chunks.  With 17 of 20 padded speech (85%) the bypass
    // triggers and the original comes back.
    let chunks = 20;
    let input = indexed_chunks(chunks);

    let mut sparse = vec![false; chunks];
    sparse[10] = true;
    let out = segment_speech(&input, &sparse);
    assert_eq!(out.len(), 7 * CHUNK_SIZE);

    let mut dense = vec![false; chunks];
    for c in 3..20 {
        dense[c] = true;
    }
    let out = segment_speech(&input, &dense);
    assert_eq!(out, input);
}

#[test]
fn test_trailing_partial_chunk_dropped_when_filtering() {
    // A trailing partial chunk is never classified; when filtering
    // keeps some chunks, the tail is not among them.
    let chunks = 12;
    let mut input = indexed_chunks(chunks);
    input.extend(std::iter::repeat(777u32).take(CHUNK_SIZE / 2));
    let mut labels = vec![false; chunks];
    labels[0] = true;
    let out = segment_speech(&input, &labels);
    assert!(!out.contains(&777));
    assert_eq!(out.len(), (1 + PADDING_CHUNKS) * CHUNK_SIZE);
}
