//! Ranking and disambiguation policy.
//!
//! Divergence values are handled here as *order codes*: `u32` keys that
//! compare exactly as the underlying divergence values do, with larger
//! codes meaning larger divergence and any non-finite divergence mapped to
//! the largest codes. The caller, which owns the divergence arithmetic,
//! produces one code per computed divergence; this module ranks the
//! reference architectures by those codes and applies the agreement,
//! sentinel and override gates to produce a single architecture guess or no
//! match.

use vstd::prelude::*;
use vstd::string::StrSliceExecFns;

verus! {

/// Reserved marker: a reference label starting with this character denotes
/// a non-architecture corpus entry and is never reported as a match.
pub const SENTINEL_MARKER: char = '_';

/// Order code of the override threshold for the `OCaml` label: the code of
/// a bigram divergence of exactly one.
pub const OCAML_DIV_LIMIT: u32 = 0xBF800000;

/// Order code of the override threshold for the `IA-64` and `xmox_xs2a`
/// labels: the code of a bigram divergence of exactly three.
pub const HIGH_DIV_LIMIT: u32 = 0xC0400000;

/// Bigram and trigram divergence order codes of one sample against one
/// reference model.
#[derive(Clone, Copy)]
pub struct Divergences {
    pub bigrams: u32,
    pub trigrams: u32,
}

/// One entry of a divergence ranking: a reference architecture and the
/// order code of the sample's divergence from it.
pub struct KlRes {
    pub arch: String,
    pub div: u32,
}

/// The label starts with the reserved non-architecture marker.
pub open spec fn starts_with_sentinel(arch: Seq<char>) -> bool {
    arch.len() > 0 && arch[0] == SENTINEL_MARKER
}

/// The final heuristics on the two best-ranked entries: `arch2` and `div2`
/// come from the best bigram entry, `arch3` from the best trigram entry.
/// No match is reported when the two rankings disagree, when the agreed
/// label is a sentinel entry, or when a known false-positive label exceeds
/// its divergence threshold.
pub open spec fn spec_determine(arch2: Seq<char>, div2: u32, arch3: Seq<char>) -> Option<
    Seq<char>,
> {
    if arch2 != arch3 || starts_with_sentinel(arch2) {
        None
    } else if (arch2 == "OCaml"@ && div2 > OCAML_DIV_LIMIT) || (arch2 == "xmox_xs2a"@ && div2
        > HIGH_DIV_LIMIT) || (arch2 == "IA-64"@ && div2 > HIGH_DIV_LIMIT) {
        None
    } else {
        Some(arch2)
    }
}

/// Applies the agreement, sentinel and override gates to the best bigram
/// entry `r2` and the best trigram entry `r3`.
pub fn determine(r2: &KlRes, r3: &KlRes) -> (r: Option<String>)
    ensures
        (r is Some) == (spec_determine(r2.arch@, r2.div, r3.arch@) is Some),
        r matches Some(a) ==> spec_determine(r2.arch@, r2.div, r3.arch@) == Some(a@),
{
    if !(r2.arch == r3.arch) {
        return None;
    }
    let a = r2.arch.as_str();
    if a.unicode_len() > 0 && a.get_char(0) == SENTINEL_MARKER {
        return None;
    }
    let over_ocaml = r2.arch == "OCaml".to_owned() && r2.div > OCAML_DIV_LIMIT;
    let over_xmox = r2.arch == "xmox_xs2a".to_owned() && r2.div > HIGH_DIV_LIMIT;
    let over_ia64 = r2.arch == "IA-64".to_owned() && r2.div > HIGH_DIV_LIMIT;
    if over_ocaml || over_xmox || over_ia64 {
        return None;
    }
    Some(r2.arch.clone())
}

/// Divergence order codes of one sample against one reference
/// architecture, as handed to `predict`.
pub struct ArchDivergences {
    pub arch: String,
    pub divs: Divergences,
}

/// First index of `s` holding the minimal bigram divergence code: the
/// best-matching reference of the bigram ranking, earliest entry on ties.
pub open spec fn best_bigram_index(s: Seq<ArchDivergences>) -> int
    decreases s.len(),
{
    if s.len() <= 1 {
        0
    } else {
        let b = best_bigram_index(s.drop_last());
        if s.last().divs.bigrams < s[b].divs.bigrams {
            s.len() - 1
        } else {
            b
        }
    }
}

/// First index of `s` holding the minimal trigram divergence code.
pub open spec fn best_trigram_index(s: Seq<ArchDivergences>) -> int
    decreases s.len(),
{
    if s.len() <= 1 {
        0
    } else {
        let b = best_trigram_index(s.drop_last());
        if s.last().divs.trigrams < s[b].divs.trigrams {
            s.len() - 1
        } else {
            b
        }
    }
}

/// The architecture guess `predict` owes for the rankings in `s`.
pub open spec fn spec_predict(s: Seq<ArchDivergences>) -> Option<Seq<char>> {
    let b2 = best_bigram_index(s);
    let b3 = best_trigram_index(s);
    spec_determine(s[b2].arch@, s[b2].divs.bigrams, s[b3].arch@)
}

pub proof fn lemma_best_bigram_index_in_range(s: Seq<ArchDivergences>)
    requires
        s.len() > 0,
    ensures
        0 <= best_bigram_index(s) < s.len(),
    decreases s.len(),
{
    if s.len() > 1 {
        lemma_best_bigram_index_in_range(s.drop_last());
    }
}

pub proof fn lemma_best_trigram_index_in_range(s: Seq<ArchDivergences>)
    requires
        s.len() > 0,
    ensures
        0 <= best_trigram_index(s) < s.len(),
    decreases s.len(),
{
    if s.len() > 1 {
        lemma_best_trigram_index_in_range(s.drop_last());
    }
}

/// The best bigram entry really is the top of the ascending bigram
/// ranking: no entry has a smaller divergence code, and no earlier entry
/// has an equal one (ties keep the first reference).
pub proof fn lemma_best_bigram_index_minimal(s: Seq<ArchDivergences>)
    requires
        s.len() > 0,
    ensures
        forall|j: int|
            0 <= j < s.len() ==> s[best_bigram_index(s)].divs.bigrams <= #[trigger] s[j].divs.bigrams,
        forall|j: int|
            0 <= j < best_bigram_index(s) ==> #[trigger] s[j].divs.bigrams > s[best_bigram_index(
                s,
            )].divs.bigrams,
    decreases s.len(),
{
    lemma_best_bigram_index_in_range(s);
    if s.len() > 1 {
        lemma_best_bigram_index_in_range(s.drop_last());
        lemma_best_bigram_index_minimal(s.drop_last());
        assert(forall|j: int| 0 <= j < s.len() - 1 ==> s.drop_last()[j] == s[j]);
        assert(s.last() == s[s.len() - 1]);
    }
}

/// The best trigram entry really is the top of the ascending trigram
/// ranking; see `lemma_best_bigram_index_minimal`.
pub proof fn lemma_best_trigram_index_minimal(s: Seq<ArchDivergences>)
    requires
        s.len() > 0,
    ensures
        forall|j: int|
            0 <= j < s.len() ==> s[best_trigram_index(s)].divs.trigrams <= #[trigger] s[j].divs.trigrams,
        forall|j: int|
            0 <= j < best_trigram_index(s) ==> #[trigger] s[j].divs.trigrams > s[best_trigram_index(
                s,
            )].divs.trigrams,
    decreases s.len(),
{
    lemma_best_trigram_index_in_range(s);
    if s.len() > 1 {
        lemma_best_trigram_index_in_range(s.drop_last());
        lemma_best_trigram_index_minimal(s.drop_last());
        assert(forall|j: int| 0 <= j < s.len() - 1 ==> s.drop_last()[j] == s[j]);
        assert(s.last() == s[s.len() - 1]);
    }
}

/// Ranks every reference by its bigram and by its trigram divergence code,
/// takes the best entry of each ranking, and applies the final heuristics:
/// the returned label, if any, is the agreed best-matching architecture.
pub fn predict(results: &Vec<ArchDivergences>) -> (r: Option<String>)
    requires
        results@.len() > 0,
    ensures
        (r is Some) == (spec_predict(results@) is Some),
        r matches Some(a) ==> spec_predict(results@) == Some(a@),
{
    let n = results.len();
    let mut b2: usize = 0;
    let mut i: usize = 1;
    while i < n
        invariant
            n == results@.len(),
            1 <= i <= n,
            b2 < i,
            b2 == best_bigram_index(results@.take(i as int)),
        decreases n - i,
    {
        proof {
            assert(results@.take(i + 1).drop_last() =~= results@.take(i as int));
            lemma_best_bigram_index_in_range(results@.take(i as int));
            assert(results@.take(i + 1).last() == results@[i as int]);
            assert(forall|j: int|
                0 <= j < i ==> results@.take(i + 1)[j] == results@.take(i as int)[j]);
        }
        if results[i].divs.bigrams < results[b2].divs.bigrams {
            b2 = i;
        }
        i += 1;
    }
    let mut b3: usize = 0;
    let mut k: usize = 1;
    while k < n
        invariant
            n == results@.len(),
            1 <= k <= n,
            b3 < k,
            b3 == best_trigram_index(results@.take(k as int)),
        decreases n - k,
    {
        proof {
            assert(results@.take(k + 1).drop_last() =~= results@.take(k as int));
            lemma_best_trigram_index_in_range(results@.take(k as int));
            assert(results@.take(k + 1).last() == results@[k as int]);
            assert(forall|j: int|
                0 <= j < k ==> results@.take(k + 1)[j] == results@.take(k as int)[j]);
        }
        if results[k].divs.trigrams < results[b3].divs.trigrams {
            b3 = k;
        }
        k += 1;
    }
    proof {
        assert(results@.take(n as int) =~= results@);
    }
    let r2 = KlRes { arch: results[b2].arch.clone(), div: results[b2].divs.bigrams };
    let r3 = KlRes { arch: results[b3].arch.clone(), div: results[b3].divs.trigrams };
    determine(&r2, &r3)
}

/// Agreement gate: whenever the best bigram label and the best trigram
/// label differ, no match is reported, whatever the divergences are.
pub proof fn lemma_agreement_gate(s: Seq<ArchDivergences>)
    requires
        s.len() > 0,
        s[best_bigram_index(s)].arch@ != s[best_trigram_index(s)].arch@,
    ensures
        spec_predict(s) is None,
{
}

/// Sentinel gate: a reference label beginning with the reserved marker
/// character is never returned, even when it is the best-ranked candidate
/// of both rankings.
pub proof fn lemma_sentinel_gate(s: Seq<ArchDivergences>)
    requires
        s.len() > 0,
        starts_with_sentinel(s[best_bigram_index(s)].arch@),
    ensures
        spec_predict(s) is None,
{
}

/// Override gate: the `OCaml` label with a bigram divergence code above its
/// threshold, and the `IA-64` label with a bigram divergence code above its
/// (higher) threshold, are never returned, even when agreed and not a
/// sentinel.
pub proof fn lemma_override_gate(s: Seq<ArchDivergences>)
    requires
        s.len() > 0,
        (s[best_bigram_index(s)].arch@ == "OCaml"@ && s[best_bigram_index(s)].divs.bigrams
            > OCAML_DIV_LIMIT) || (s[best_bigram_index(s)].arch@ == "IA-64"@ && s[best_bigram_index(
            s,
        )].divs.bigrams > HIGH_DIV_LIMIT),
    ensures
        spec_predict(s) is None,
{
}

} // verus!
