//! Byte n-gram counting.
//!
//! An n-gram is a contiguous run of `n` bytes of a buffer, packed into a
//! single integer key (high byte first). Observed n-grams and their
//! occurrence counts are kept as an association list in first-seen order,
//! with each key appearing at most once.

use vstd::prelude::*;

verus! {

/// Packed key of the `n`-gram of `data` starting at `start`.
pub open spec fn gram_key(data: Seq<u8>, start: int, n: int) -> int
    decreases n,
{
    if n <= 0 {
        0
    } else {
        gram_key(data, start, n - 1) * 256 + data[start + n - 1]
    }
}

/// Number of `n`-gram windows that fit in a buffer of `len` bytes.
pub open spec fn window_count(len: int, n: int) -> int {
    if len >= n {
        len - n + 1
    } else {
        0
    }
}

/// Number of `n`-gram windows starting before `m` whose key is `key`.
pub open spec fn gram_count_upto(data: Seq<u8>, n: int, m: int, key: int) -> int
    decreases m,
{
    if m <= 0 {
        0
    } else {
        gram_count_upto(data, n, m - 1, key) + if gram_key(data, m - 1, n) == key {
            1int
        } else {
            0int
        }
    }
}

/// Number of occurrences of the `n`-gram `key` in `data`.
pub open spec fn gram_count(data: Seq<u8>, n: int, key: int) -> int {
    gram_count_upto(data, n, window_count(data.len() as int, n), key)
}

/// 256 to the power `n`: the size of the `n`-gram alphabet.
pub open spec fn pow256(n: int) -> int
    decreases n,
{
    if n <= 0 {
        1
    } else {
        256 * pow256(n - 1)
    }
}

/// Total count recorded for `key` in the association list `s`.
pub open spec fn key_total(s: Seq<(u32, usize)>, key: int) -> int
    decreases s.len(),
{
    if s.len() == 0 {
        0
    } else {
        key_total(s.drop_last(), key) + if s.last().0 as int == key {
            s.last().1 as int
        } else {
            0int
        }
    }
}

/// Sum of all counts recorded in the association list `s`.
pub open spec fn count_sum(s: Seq<(u32, usize)>) -> int
    decreases s.len(),
{
    if s.len() == 0 {
        0
    } else {
        count_sum(s.drop_last()) + s.last().1 as int
    }
}

/// Every key appears at most once in `s`.
pub open spec fn distinct_keys(s: Seq<(u32, usize)>) -> bool {
    forall|i: int, j: int| 0 <= i < j < s.len() ==> s[i].0 != s[j].0
}

pub proof fn lemma_key_total_absent(s: Seq<(u32, usize)>, key: int)
    requires
        forall|i: int| 0 <= i < s.len() ==> s[i].0 as int != key,
    ensures
        key_total(s, key) == 0,
    decreases s.len(),
{
    if s.len() > 0 {
        assert(forall|i: int| 0 <= i < s.drop_last().len() ==> s.drop_last()[i] == s[i]);
        lemma_key_total_absent(s.drop_last(), key);
    }
}

pub proof fn lemma_key_total_at(s: Seq<(u32, usize)>, i: int)
    requires
        distinct_keys(s),
        0 <= i < s.len(),
    ensures
        key_total(s, s[i].0 as int) == s[i].1 as int,
    decreases s.len(),
{
    if i == s.len() - 1 {
        assert(forall|j: int| 0 <= j < s.drop_last().len() ==> s.drop_last()[j] == s[j]);
        lemma_key_total_absent(s.drop_last(), s[i].0 as int);
    } else {
        assert(forall|j: int| 0 <= j < s.drop_last().len() ==> s.drop_last()[j] == s[j]);
        lemma_key_total_at(s.drop_last(), i);
    }
}

pub proof fn lemma_count_sum_nonneg(s: Seq<(u32, usize)>)
    ensures
        count_sum(s) >= 0,
    decreases s.len(),
{
    if s.len() > 0 {
        lemma_count_sum_nonneg(s.drop_last());
    }
}

pub proof fn lemma_count_sum_at(s: Seq<(u32, usize)>, i: int)
    requires
        0 <= i < s.len(),
    ensures
        (s[i].1 as int) <= count_sum(s),
    decreases s.len(),
{
    if i == s.len() - 1 {
        lemma_count_sum_nonneg(s.drop_last());
    } else {
        assert(forall|j: int| 0 <= j < s.drop_last().len() ==> s.drop_last()[j] == s[j]);
        lemma_count_sum_at(s.drop_last(), i);
    }
}

pub proof fn lemma_update_count(s: Seq<(u32, usize)>, i: int, c: usize)
    requires
        0 <= i < s.len(),
    ensures
        forall|key: int|
            key_total(s.update(i, (s[i].0, c)), key) == key_total(s, key) + (if s[i].0 as int
                == key {
                c as int - s[i].1 as int
            } else {
                0int
            }),
        count_sum(s.update(i, (s[i].0, c))) == count_sum(s) + c as int - s[i].1 as int,
    decreases s.len(),
{
    let s2 = s.update(i, (s[i].0, c));
    if i == s.len() - 1 {
        assert(s2.drop_last() =~= s.drop_last());
        assert(s2.last() == (s[i].0, c));
        assert forall|key: int|
            key_total(s2, key) == key_total(s, key) + (if s[i].0 as int == key {
                c as int - s[i].1 as int
            } else {
                0int
            }) by {
            assert(key_total(s2, key) == key_total(s2.drop_last(), key) + if s2.last().0 as int
                == key {
                s2.last().1 as int
            } else {
                0int
            });
            assert(key_total(s, key) == key_total(s.drop_last(), key) + if s.last().0 as int
                == key {
                s.last().1 as int
            } else {
                0int
            });
        }
    } else {
        assert(s.drop_last()[i] == s[i]);
        lemma_update_count(s.drop_last(), i, c);
        assert(s2.drop_last() =~= s.drop_last().update(i, (s[i].0, c)));
        assert(s2.last() == s.last());
        assert forall|key: int|
            key_total(s2, key) == key_total(s, key) + (if s[i].0 as int == key {
                c as int - s[i].1 as int
            } else {
                0int
            }) by {
            assert(key_total(s2, key) == key_total(s2.drop_last(), key) + if s2.last().0 as int
                == key {
                s2.last().1 as int
            } else {
                0int
            });
            assert(key_total(s, key) == key_total(s.drop_last(), key) + if s.last().0 as int
                == key {
                s.last().1 as int
            } else {
                0int
            });
        }
    }
}

pub proof fn lemma_push_count(s: Seq<(u32, usize)>, e: (u32, usize))
    ensures
        forall|key: int|
            key_total(s.push(e), key) == key_total(s, key) + (if e.0 as int == key {
                e.1 as int
            } else {
                0int
            }),
        count_sum(s.push(e)) == count_sum(s) + e.1 as int,
{
    assert(s.push(e).drop_last() =~= s);
    assert(s.push(e).last() == e);
}

/// First index of `key` in `v`, if `key` was recorded at all.
pub(crate) fn find_key(v: &Vec<(u32, usize)>, key: u32) -> (r: Option<usize>)
    ensures
        match r {
            Some(i) => i < v@.len() && v@[i as int].0 == key,
            None => forall|i: int| 0 <= i < v@.len() ==> v@[i].0 != key,
        },
{
    let mut i: usize = 0;
    while i < v.len()
        invariant
            i <= v@.len(),
            forall|j: int| 0 <= j < i ==> v@[j].0 != key,
        decreases v@.len() - i,
    {
        if v[i].0 == key {
            return Some(i);
        }
        i += 1;
    }
    None
}

/// Counts every `n`-gram of `data`: the returned association list maps each
/// observed key to its number of occurrences, in first-seen order, and the
/// counts sum to the number of `n`-gram windows of the buffer.
pub fn count_ngrams(data: &Vec<u8>, n: usize) -> (r: Vec<(u32, usize)>)
    requires
        1 <= n <= 3,
    ensures
        distinct_keys(r@),
        forall|key: int| key_total(r@, key) == gram_count(data@, n as int, key),
        count_sum(r@) == window_count(data@.len() as int, n as int),
{
    let mut r: Vec<(u32, usize)> = Vec::new();
    if data.len() < n {
        assert(forall|key: int| key_total(r@, key) == 0);
        return r;
    }
    let dlen: usize = data.len();
    let windows: usize = dlen - n + 1;
    let mut start: usize = 0;
    while start < windows
        invariant
            1 <= n <= 3,
            dlen == data@.len(),
            data@.len() >= n,
            windows == data@.len() - n + 1,
            start <= windows,
            distinct_keys(r@),
            forall|key: int| key_total(r@, key) == gram_count_upto(data@, n as int, start as int, key),
            count_sum(r@) == start,
        decreases windows - start,
    {
        let ghost r_old = r@;
        let mut key: u32 = 0;
        let mut j: usize = 0;
        while j < n
            invariant
                j <= n,
                n <= 3,
                dlen == data@.len(),
                start + n <= data@.len(),
                key as int == gram_key(data@, start as int, j as int),
                (key as int) < pow256(j as int),
            decreases n - j,
        {
            proof {
                assert(pow256(0) == 1);
                assert(pow256(1) == 256);
                assert(pow256(2) == 65536);
                assert(pow256(3) == 16777216);
                assert(pow256(j as int) <= 65536);
            }
            key = key * 256 + data[start + j] as u32;
            j += 1;
        }
        match find_key(&r, key) {
            Some(i) => {
                proof {
                    lemma_count_sum_at(r@, i as int);
                }
                let c = r[i].1;
                proof {
                    lemma_update_count(r@, i as int, (c + 1) as usize);
                }
                r[i] = (key, c + 1);
            },
            None => {
                proof {
                    lemma_push_count(r@, (key, 1));
                    lemma_key_total_absent(r@, key as int);
                }
                r.push((key, 1));
            },
        }
        proof {
            assert(forall|k2: int|
                gram_count_upto(data@, n as int, start + 1, k2) == gram_count_upto(
                    data@,
                    n as int,
                    start as int,
                    k2,
                ) + if gram_key(data@, start as int, n as int) == k2 {
                    1int
                } else {
                    0int
                });
        }
        start += 1;
    }
    r
}

} // verus!
