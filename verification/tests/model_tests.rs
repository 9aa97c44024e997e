use cpu_rec_rs::model::CorpusStats;

fn sample_model(data: &[u8], centi: usize) -> CorpusStats {
    CorpusStats::new("sample".to_string(), &data.to_vec(), centi)
}

#[test]
fn counts_small_buffer() {
    let m = sample_model(&[1, 2, 1, 2], 0);
    // bigrams: (1,2) at 0 and 2, (2,1) at 1
    assert_eq!(m.bigram_count(0x0102), 2);
    assert_eq!(m.bigram_count(0x0201), 1);
    assert_eq!(m.bigram_count(0x0202), 0);
    assert_eq!(m.distinct_bigrams(), 2);
    // trigrams: (1,2,1) at 0, (2,1,2) at 1
    assert_eq!(m.trigram_count(0x010201), 1);
    assert_eq!(m.trigram_count(0x020102), 1);
    assert_eq!(m.trigram_count(0x010101), 0);
    assert_eq!(m.distinct_trigrams(), 2);
    assert_eq!(m.data_len(), 4);
    assert_eq!(m.arch, "sample".to_string());
}

#[test]
fn pairs_in_first_seen_order() {
    let m = sample_model(&[1, 2, 1, 2], 3);
    assert_eq!(m.bigram_pairs().as_slice(), &[(0x0102u32, 2usize), (0x0201u32, 1usize)]);
    assert_eq!(
        m.trigram_pairs().as_slice(),
        &[(0x010201u32, 1usize), (0x020102u32, 1usize)]
    );
    assert_eq!(m.smoothing(), 3);
}

#[test]
fn counts_empty_and_tiny_buffers() {
    let empty = sample_model(&[], 0);
    assert_eq!(empty.distinct_bigrams(), 0);
    assert_eq!(empty.distinct_trigrams(), 0);
    assert_eq!(empty.data_len(), 0);

    let one = sample_model(&[0xAB], 1);
    assert_eq!(one.distinct_bigrams(), 0);
    assert_eq!(one.distinct_trigrams(), 0);

    let two = sample_model(&[0xAB, 0xCD], 1);
    assert_eq!(two.bigram_count(0xABCD), 1);
    assert_eq!(two.distinct_bigrams(), 1);
    assert_eq!(two.distinct_trigrams(), 0);
}

#[test]
fn reference_validity() {
    // positive smoothing always gives positive normalizers
    assert!(sample_model(&[], 1).valid_reference());
    assert!(sample_model(&[1, 2, 3, 4], 1).valid_reference());
    // zero smoothing: only a buffer with at least one trigram window
    // carries full distributions
    assert!(!sample_model(&[], 0).valid_reference());
    assert!(!sample_model(&[1, 2], 0).valid_reference());
    assert!(sample_model(&[1, 2, 3], 0).valid_reference());
}

/// The scaled smoothed counts of the observed bigrams plus the scaled
/// floor mass of the unseen ones equal the scaled normalizer exactly, for
/// any buffer and any smoothing constant.
#[test]
fn normalization_exact_integers() {
    let data: Vec<u8> = (0u16..300).map(|i| (i % 251) as u8).collect();
    for centi in [0usize, 1, 7, 100] {
        let m = CorpusStats::new("n".to_string(), &data, centi);
        let windows2 = (data.len() - 1) as u64;
        let windows3 = (data.len() - 2) as u64;
        let c = centi as u64;

        let d2 = m.distinct_bigrams() as u64;
        let mass2: u64 = m.bigram_pairs().iter().map(|&(_, n)| 100 * n as u64 + c).sum();
        assert_eq!(mass2 + c * (65536 - d2), c * 65536 + 100 * windows2);

        let d3 = m.distinct_trigrams() as u64;
        let mass3: u64 = m.trigram_pairs().iter().map(|&(_, n)| 100 * n as u64 + c).sum();
        assert_eq!(mass3 + c * (16777216 - d3), c * 16777216 + 100 * windows3);
    }
}

/// The same normalization, read back as frequencies: stored frequencies
/// plus the floor frequency of every unseen n-gram sum to one.
#[test]
fn normalization_frequencies_sum_to_one() {
    let data: Vec<u8> = (0u16..500).map(|i| (i * 37 % 256) as u8).collect();
    let m = CorpusStats::new("n".to_string(), &data, 1);
    let k = 0.01f64;

    let w2 = (data.len() - 1) as f64;
    let q2 = k * 65536.0 + w2;
    let sum2: f64 = m
        .bigram_pairs()
        .iter()
        .map(|&(_, c)| (c as f64 + k) / q2)
        .sum();
    let total2 = sum2 + (k / q2) * (65536.0 - m.distinct_bigrams() as f64);
    assert!((total2 - 1.0).abs() < 1e-6);

    let w3 = (data.len() - 2) as f64;
    let q3 = k * 16777216.0 + w3;
    let sum3: f64 = m
        .trigram_pairs()
        .iter()
        .map(|&(_, c)| (c as f64 + k) / q3)
        .sum();
    let total3 = sum3 + (k / q3) * (16777216.0 - m.distinct_trigrams() as f64);
    assert!((total3 - 1.0).abs() < 1e-6);
}
