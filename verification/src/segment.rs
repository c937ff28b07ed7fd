//! Heuristic speech segmentation.
//!
//! The input is partitioned into fixed-size chunks; the host classifies
//! each complete chunk as speech or not (a voice-activity model, outside
//! this crate); this module then applies the verified policy: every
//! speech run grows by a fixed padding of chunks on both sides, and
//!
//! 1. input shorter than one chunk is returned unchanged,
//! 2. if more than 80% of the chunks are speech after padding, the
//!    original input is returned unfiltered,
//! 3. if no chunk is speech after padding, the result is empty,
//! 4. otherwise the padded speech chunks are concatenated in order.
//!
//! A trailing partial chunk is never classified and never part of a
//! filtered result, matching the chunk-wise classifier's view of the
//! audio.

use vstd::prelude::*;

verus! {

/// Samples per classification chunk: 512 samples at 16 kHz, about 32 ms.
pub const CHUNK_SIZE: usize = 512;

/// Chunks of padding added before and after each speech run.
pub const PADDING_CHUNKS: usize = 3;

/// Number of complete chunks in a buffer of `n` samples.
pub open spec fn spec_chunk_count(n: nat) -> nat {
    n / (CHUNK_SIZE as nat)
}

/// The `i`th complete chunk of `s`.
pub open spec fn spec_chunk(s: Seq<u32>, i: int) -> Seq<u32> {
    s.subrange(i * (CHUNK_SIZE as int), i * (CHUNK_SIZE as int) + (CHUNK_SIZE as int))
}

/// Whether chunk `i` is speech once each raw speech label has grown by
/// `PADDING_CHUNKS` chunks on both sides.
pub open spec fn spec_padded(labels: Seq<bool>, i: int) -> bool {
    exists|j: int|
        0 <= j < labels.len() && i - (PADDING_CHUNKS as int) <= j <= i + (PADDING_CHUNKS as int)
            && labels[j]
}

/// How many of the first `k` chunks are speech after padding.
pub open spec fn spec_padded_count_upto(labels: Seq<bool>, k: int) -> nat
    decreases k,
{
    if k <= 0 {
        0
    } else {
        spec_padded_count_upto(labels, k - 1) + (if spec_padded(labels, k - 1) {
            1nat
        } else {
            0nat
        })
    }
}

/// How many chunks are speech after padding.
pub open spec fn spec_padded_count(labels: Seq<bool>) -> nat {
    spec_padded_count_upto(labels, labels.len() as int)
}

/// The concatenation, in order, of the padded speech chunks among the
/// first `k` chunks of `s`.
pub open spec fn spec_speech_concat_upto(s: Seq<u32>, labels: Seq<bool>, k: int) -> Seq<u32>
    decreases k,
{
    if k <= 0 {
        Seq::empty()
    } else {
        spec_speech_concat_upto(s, labels, k - 1) + (if spec_padded(labels, k - 1) {
            spec_chunk(s, k - 1)
        } else {
            Seq::empty()
        })
    }
}

/// The concatenation, in order, of all padded speech chunks of `s`.
pub open spec fn spec_speech_concat(s: Seq<u32>, labels: Seq<bool>) -> Seq<u32> {
    spec_speech_concat_upto(s, labels, labels.len() as int)
}

/// The whole segmentation policy over a buffer and its chunk labels.
pub open spec fn spec_extract(s: Seq<u32>, labels: Seq<bool>) -> Seq<u32> {
    if s.len() < CHUNK_SIZE as nat {
        s
    } else if 5 * spec_padded_count(labels) > 4 * labels.len() {
        s
    } else {
        spec_speech_concat(s, labels)
    }
}

/// Apply the segmentation policy: `labels` holds one raw classification
/// per complete chunk of `samples`.
pub fn segment_speech(samples: &Vec<u32>, labels: &Vec<bool>) -> (out: Vec<u32>)
    requires
        labels@.len() == spec_chunk_count(samples@.len()),
    ensures
        out@ == spec_extract(samples@, labels@),
{
    if samples.len() < CHUNK_SIZE {
        return samples.clone();
    }
    let _n: usize = samples.len();
    assert(samples@.len() <= usize::MAX);
    let total: usize = labels.len();

    // Grow each speech label into its padding window.
    let mut padded: Vec<bool> = Vec::new();
    let mut i: usize = 0;
    while i < total
        invariant
            i <= total,
            total == labels@.len(),
            padded@.len() == i,
            forall|k: int| 0 <= k < i ==> padded@[k] == spec_padded(labels@, k),
        decreases total - i,
    {
        let lo: usize = if i >= PADDING_CHUNKS {
            i - PADDING_CHUNKS
        } else {
            0
        };
        let hi: usize = if total - 1 - i > PADDING_CHUNKS {
            i + PADDING_CHUNKS
        } else {
            total - 1
        };
        let mut any: bool = false;
        let mut j: usize = lo;
        while j <= hi
            invariant
                lo <= j <= hi + 1,
                hi < total,
                total == labels@.len(),
                lo == if i >= PADDING_CHUNKS { i - PADDING_CHUNKS } else { 0 },
                hi == if total - 1 - i > PADDING_CHUNKS { i + PADDING_CHUNKS } else { (total - 1) as int },
                any == exists|k: int| lo <= k < j && labels@[k],
            decreases hi + 1 - j,
        {
            if labels[j] {
                any = true;
            }
            j = j + 1;
        }
        proof {
            assert(any == spec_padded(labels@, i as int)) by {
                if any {
                    let k = choose|k: int| lo <= k < j && labels@[k];
                    assert(0 <= k < labels@.len() && i - (PADDING_CHUNKS as int) <= k <= i + (
                    PADDING_CHUNKS as int) && labels@[k]);
                }
                if spec_padded(labels@, i as int) {
                    let k = choose|k: int|
                        0 <= k < labels@.len() && i - (PADDING_CHUNKS as int) <= k <= i + (
                        PADDING_CHUNKS as int) && labels@[k];
                    assert(lo <= k < j);
                }
            }
        }
        padded.push(any);
        i = i + 1;
    }

    // Count the padded speech chunks for the mostly-speech bypass.
    let mut speech: u64 = 0;
    let mut c: usize = 0;
    while c < total
        invariant
            c <= total,
            total == labels@.len(),
            padded@.len() == total,
            forall|k: int| 0 <= k < total ==> padded@[k] == spec_padded(labels@, k),
            speech == spec_padded_count_upto(labels@, c as int),
            speech <= c,
        decreases total - c,
    {
        if padded[c] {
            speech = speech + 1;
        }
        c = c + 1;
    }

    // More than 80% speech: keep the original to avoid over-trimming.
    if 5 * speech > 4 * (total as u64) {
        return samples.clone();
    }

    // Concatenate the padded speech chunks in order.
    let mut out: Vec<u32> = Vec::new();
    let mut k: usize = 0;
    while k < total
        invariant
            k <= total,
            total == labels@.len(),
            padded@.len() == total,
            total == spec_chunk_count(samples@.len()),
            samples@.len() >= CHUNK_SIZE,
            samples@.len() <= usize::MAX,
            forall|t: int| 0 <= t < total ==> padded@[t] == spec_padded(labels@, t),
            out@ == spec_speech_concat_upto(samples@, labels@, k as int),
        decreases total - k,
    {
        if padded[k] {
            proof {
                assert((k + 1) * (CHUNK_SIZE as int) <= total * (CHUNK_SIZE as int)) by (
                nonlinear_arith)
                    requires
                        k + 1 <= total,
                        CHUNK_SIZE > 0,
                ;
                assert(total * (CHUNK_SIZE as int) <= samples@.len()) by (nonlinear_arith)
                    requires
                        total == samples@.len() / (CHUNK_SIZE as nat),
                        CHUNK_SIZE > 0,
                ;
            }
            let base: usize = k * CHUNK_SIZE;
            let mut t: usize = 0;
            while t < CHUNK_SIZE
                invariant
                    t <= CHUNK_SIZE,
                    base == k * CHUNK_SIZE,
                    base + CHUNK_SIZE <= samples@.len(),
                    out@ == spec_speech_concat_upto(samples@, labels@, k as int) + spec_chunk(
                        samples@,
                        k as int,
                    ).take(t as int),
                decreases CHUNK_SIZE - t,
            {
                out.push(samples[base + t]);
                proof {
                    assert(out@ =~= spec_speech_concat_upto(samples@, labels@, k as int)
                        + spec_chunk(samples@, k as int).take(t + 1));
                }
                t = t + 1;
            }
            proof {
                assert(spec_chunk(samples@, k as int).take(CHUNK_SIZE as int) =~= spec_chunk(
                    samples@,
                    k as int,
                ));
                assert(out@ =~= spec_speech_concat_upto(samples@, labels@, k as int + 1));
            }
        } else {
            proof {
                assert(out@ =~= spec_speech_concat_upto(samples@, labels@, k as int + 1));
            }
        }
        k = k + 1;
    }
    proof {
        assert(out@ == spec_extract(samples@, labels@));
    }
    out
}

/// The speech segmenter: a fixed chunk size and padding width around
/// the verified filtering policy.  The chunk-wise classification itself
/// is a voice-activity model the host runs; its labels come in as plain
/// booleans.
pub struct VadProcessor {
    pub chunk_size: usize,
    pub padding_chunks: usize,
}

impl VadProcessor {
    /// A segmenter with the fixed design constants.
    pub fn new() -> (r: Result<VadProcessor, String>)
        ensures
            r matches Ok(v) && v.chunk_size == CHUNK_SIZE && v.padding_chunks == PADDING_CHUNKS,
    {
        Ok(VadProcessor { chunk_size: CHUNK_SIZE, padding_chunks: PADDING_CHUNKS })
    }

    /// Extract the speech of `audio_data` under the host's chunk
    /// labels: the segmentation policy, applied.
    pub fn extract_speech(&self, audio_data: &Vec<u32>, labels: &Vec<bool>) -> (out: Vec<u32>)
        requires
            labels@.len() == spec_chunk_count(audio_data@.len()),
        ensures
            out@ == spec_extract(audio_data@, labels@),
    {
        segment_speech(audio_data, labels)
    }
}

/// When every chunk is classified speech (and there is at least one
/// chunk), segmentation returns the input unchanged: the mostly-speech
/// bypass.
pub proof fn lemma_extract_all_speech(s: Seq<u32>, labels: Seq<bool>)
    requires
        s.len() >= CHUNK_SIZE as nat,
        labels.len() == spec_chunk_count(s.len()),
        forall|i: int| 0 <= i < labels.len() ==> labels[i],
    ensures
        spec_extract(s, labels) == s,
{
    assert(labels.len() >= 1) by {
        assert(s.len() / (CHUNK_SIZE as nat) >= 1) by (nonlinear_arith)
            requires
                s.len() >= CHUNK_SIZE as nat,
                CHUNK_SIZE > 0,
        ;
    }
    lemma_padded_count_all(labels, labels.len() as int);
    assert(5 * spec_padded_count(labels) > 4 * labels.len());
}

proof fn lemma_padded_count_all(labels: Seq<bool>, k: int)
    requires
        0 <= k <= labels.len(),
        forall|i: int| 0 <= i < labels.len() ==> labels[i],
    ensures
        spec_padded_count_upto(labels, k) == k,
    decreases k,
{
    if k > 0 {
        lemma_padded_count_all(labels, k - 1);
        assert(spec_padded(labels, k - 1)) by {
            assert(labels[k - 1]);
        }
    }
}

/// When no chunk is classified speech (and the input is at least one
/// chunk long), segmentation returns the empty sequence: the silence
/// rule.
pub proof fn lemma_extract_no_speech(s: Seq<u32>, labels: Seq<bool>)
    requires
        s.len() >= CHUNK_SIZE as nat,
        labels.len() == spec_chunk_count(s.len()),
        forall|i: int| 0 <= i < labels.len() ==> !labels[i],
    ensures
        spec_extract(s, labels) == Seq::<u32>::empty(),
{
    lemma_padded_count_none(s, labels, labels.len() as int);
    assert(spec_padded_count(labels) == 0);
    assert(spec_speech_concat_upto(s, labels, labels.len() as int) =~= Seq::<u32>::empty());
}

proof fn lemma_padded_count_none(s: Seq<u32>, labels: Seq<bool>, k: int)
    requires
        0 <= k <= labels.len(),
        forall|i: int| 0 <= i < labels.len() ==> !labels[i],
    ensures
        spec_padded_count_upto(labels, k) == 0,
        spec_speech_concat_upto(s, labels, k) =~= Seq::<u32>::empty(),
    decreases k,
{
    if k > 0 {
        lemma_padded_count_none(s, labels, k - 1);
        assert(!spec_padded(labels, k - 1));
    }
}

} // verus!
