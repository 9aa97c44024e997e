//! Smoothed byte n-gram frequency models.
//!
//! A `CorpusStats` records, for one labeled byte buffer, the occurrence
//! count of every observed bigram and trigram, together with an additive
//! smoothing constant expressed in hundredths. The smoothed frequency of an
//! n-gram with count `c` is `(100*c + centi) / (100*Q)` and the floor
//! frequency of an unseen n-gram is `centi / (100*Q)`, where the normalizer
//! `100*Q == centi * 256^n + 100 * windows` spreads the smoothing mass over
//! the whole `256^n` alphabet. Keeping exact integer counts instead of the
//! quotients lets everything about the model be stated and proved exactly;
//! the caller performs the divisions when it needs numeric frequencies.

use vstd::prelude::*;

use crate::ngram::{
    count_ngrams, count_sum, distinct_keys, gram_count, key_total, lemma_key_total_absent,
    lemma_key_total_at, window_count,
};

verus! {

/// Number of distinct bigram keys.
pub const BIGRAM_SPACE: u64 = 65536;

/// Number of distinct trigram keys.
pub const TRIGRAM_SPACE: u64 = 16777216;

/// Byte n-gram statistics of one labeled buffer.
pub struct CorpusStats {
    /// Architecture name of the buffer the model was built from, or a
    /// transient identifier for a sample under classification.
    pub arch: String,
    bigrams: Vec<(u32, usize)>,
    trigrams: Vec<(u32, usize)>,
    base_count_centi: usize,
    data_len: usize,
    source: Ghost<Seq<u8>>,
}

impl CorpusStats {
    /// The architecture label, as a sequence of characters.
    pub closed spec fn arch_view(&self) -> Seq<char> {
        self.arch@
    }

    /// The buffer the model was built from.
    pub closed spec fn source(&self) -> Seq<u8> {
        self.source@
    }

    /// The smoothing constant, in hundredths.
    pub closed spec fn smoothing_centi(&self) -> int {
        self.base_count_centi as int
    }

    /// The stored (key, count) bigram entries, in first-seen order.
    pub closed spec fn bigram_entries(&self) -> Seq<(u32, usize)> {
        self.bigrams@
    }

    /// The stored (key, count) trigram entries, in first-seen order.
    pub closed spec fn trigram_entries(&self) -> Seq<(u32, usize)> {
        self.trigrams@
    }

    /// The model is exactly the n-gram statistics of its source buffer.
    pub closed spec fn wf(&self) -> bool {
        &&& self.data_len == self.source@.len()
        &&& distinct_keys(self.bigrams@)
        &&& distinct_keys(self.trigrams@)
        &&& (forall|key: int| key_total(self.bigrams@, key) == gram_count(self.source@, 2, key))
        &&& (forall|key: int| key_total(self.trigrams@, key) == gram_count(self.source@, 3, key))
        &&& count_sum(self.bigrams@) == window_count(self.source@.len() as int, 2)
        &&& count_sum(self.trigrams@) == window_count(self.source@.len() as int, 3)
    }

    /// Builds the model of `data`: every bigram and trigram of the buffer is
    /// counted, and the smoothing constant (in hundredths) is recorded for
    /// the frequency computations of the caller. Reference models are built
    /// with a positive smoothing constant, samples under classification with
    /// zero.
    pub fn new(arch: String, data: &Vec<u8>, base_count_centi: usize) -> (r: CorpusStats)
        ensures
            r.wf(),
            r.arch_view() == arch@,
            r.source() == data@,
            r.smoothing_centi() == base_count_centi,
    {
        let bigrams = count_ngrams(data, 2);
        let trigrams = count_ngrams(data, 3);
        CorpusStats {
            arch,
            bigrams,
            trigrams,
            base_count_centi,
            data_len: data.len(),
            source: Ghost(data@),
        }
    }

    /// Length of the source buffer.
    pub fn data_len(&self) -> (n: usize)
        requires
            self.wf(),
        ensures
            n == self.source().len(),
    {
        self.data_len
    }

    /// The smoothing constant, in hundredths.
    pub fn smoothing(&self) -> (k: usize)
        ensures
            k == self.smoothing_centi(),
    {
        self.base_count_centi
    }

    /// The observed bigrams with their counts, in first-seen order.
    pub fn bigram_pairs(&self) -> (r: &Vec<(u32, usize)>)
        ensures
            r@ == self.bigram_entries(),
    {
        &self.bigrams
    }

    /// The observed trigrams with their counts, in first-seen order.
    pub fn trigram_pairs(&self) -> (r: &Vec<(u32, usize)>)
        ensures
            r@ == self.trigram_entries(),
    {
        &self.trigrams
    }

    /// Number of distinct bigrams observed in the source buffer.
    pub fn distinct_bigrams(&self) -> (n: usize)
        ensures
            n == self.bigram_entries().len(),
    {
        self.bigrams.len()
    }

    /// Number of distinct trigrams observed in the source buffer.
    pub fn distinct_trigrams(&self) -> (n: usize)
        ensures
            n == self.trigram_entries().len(),
    {
        self.trigrams.len()
    }

    /// Whether the model may stand as a divergence denominator: both of
    /// its normalizers must be positive. With zero smoothing, a buffer too
    /// short to hold a trigram window carries an empty distribution that
    /// no divergence can be measured against; such a model must be
    /// rejected as a reference at construction time.
    pub fn valid_reference(&self) -> (r: bool)
        requires
            self.wf(),
        ensures
            r == (self.smoothing_centi() > 0 || self.source().len() >= 3),
    {
        self.base_count_centi > 0 || self.data_len >= 3
    }

    /// Number of occurrences of the packed bigram `key` in the source buffer.
    pub fn bigram_count(&self, key: u32) -> (c: usize)
        requires
            self.wf(),
        ensures
            c == gram_count(self.source(), 2, key as int),
    {
        match crate::ngram::find_key(&self.bigrams, key) {
            Some(i) => {
                proof {
                    lemma_key_total_at(self.bigrams@, i as int);
                }
                self.bigrams[i].1
            },
            None => {
                proof {
                    lemma_key_total_absent(self.bigrams@, key as int);
                }
                0
            },
        }
    }

    /// Number of occurrences of the packed trigram `key` in the source buffer.
    pub fn trigram_count(&self, key: u32) -> (c: usize)
        requires
            self.wf(),
        ensures
            c == gram_count(self.source(), 3, key as int),
    {
        match crate::ngram::find_key(&self.trigrams, key) {
            Some(i) => {
                proof {
                    lemma_key_total_at(self.trigrams@, i as int);
                }
                self.trigrams[i].1
            },
            None => {
                proof {
                    lemma_key_total_absent(self.trigrams@, key as int);
                }
                0
            },
        }
    }
}

/// Sum over the entries of the scaled smoothed count `100*c + centi`.
pub open spec fn scaled_mass(s: Seq<(u32, usize)>, centi: int) -> int
    decreases s.len(),
{
    if s.len() == 0 {
        0
    } else {
        scaled_mass(s.drop_last(), centi) + 100 * (s.last().1 as int) + centi
    }
}

proof fn lemma_scaled_mass(s: Seq<(u32, usize)>, centi: int)
    ensures
        scaled_mass(s, centi) == 100 * count_sum(s) + centi * s.len(),
    decreases s.len(),
{
    if s.len() > 0 {
        lemma_scaled_mass(s.drop_last(), centi);
        assert(centi * s.len() == centi * (s.len() - 1) + centi) by (nonlinear_arith);
    }
}

/// Normalization of the bigram frequencies: the scaled smoothed counts of
/// the observed bigrams, plus the scaled floor mass of every unobserved
/// bigram, add up exactly to the scaled normalizer. Dividing through by the
/// normalizer, the stored frequencies plus the floor frequency of the
/// `65536 - distinct` unseen bigrams sum to exactly one.
pub proof fn lemma_bigram_normalization(s: &CorpusStats)
    requires
        s.wf(),
    ensures
        scaled_mass(s.bigram_entries(), s.smoothing_centi()) + s.smoothing_centi() * (
        BIGRAM_SPACE - s.bigram_entries().len()) == s.smoothing_centi() * BIGRAM_SPACE + 100
            * window_count(s.source().len() as int, 2),
{
    lemma_scaled_mass(s.bigram_entries(), s.smoothing_centi());
    let centi = s.smoothing_centi();
    let d = s.bigram_entries().len() as int;
    assert(centi * d + centi * (BIGRAM_SPACE - d) == centi * BIGRAM_SPACE) by (nonlinear_arith);
}

/// Normalization of the trigram frequencies, over the `16777216`-slot
/// trigram alphabet; see `lemma_bigram_normalization`.
pub proof fn lemma_trigram_normalization(s: &CorpusStats)
    requires
        s.wf(),
    ensures
        scaled_mass(s.trigram_entries(), s.smoothing_centi()) + s.smoothing_centi() * (
        TRIGRAM_SPACE - s.trigram_entries().len()) == s.smoothing_centi() * TRIGRAM_SPACE + 100
            * window_count(s.source().len() as int, 3),
{
    lemma_scaled_mass(s.trigram_entries(), s.smoothing_centi());
    let centi = s.smoothing_centi();
    let d = s.trigram_entries().len() as int;
    assert(centi * d + centi * (TRIGRAM_SPACE - d) == centi * TRIGRAM_SPACE) by (nonlinear_arith);
}

} // verus!
