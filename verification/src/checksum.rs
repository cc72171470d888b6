use vstd::prelude::*;

use crate::tables::{alphanum_char_at, alphanum_rank, is_alphanum_char, weight_at};

verus! {

/// The weighted sum over the ranks of the first `n` characters of a
/// payload, each rank multiplied by its positional weight.
pub open spec fn weighted_sum(s: Seq<char>, n: int) -> int
    decreases n,
{
    if n <= 0 {
        0
    } else {
        weighted_sum(s, n - 1) + alphanum_rank(s[n - 1]) * weight_at(n - 1)
    }
}

/// A rankable checksum payload: seventeen characters, all members of
/// the alphanumeric alphabet.
pub open spec fn payload_ranked(s: Seq<char>) -> bool {
    s.len() == 17 && forall|i: int| 0 <= i < 17 ==> is_alphanum_char(#[trigger] s[i])
}

/// The rank of the checksum character for a payload: the weighted sum
/// modulo 31, subtracted from 31 unless the remainder is zero.
pub open spec fn checksum_rank_of(s: Seq<char>) -> int {
    let r = weighted_sum(s, 17) % 31;
    if r == 0 {
        0
    } else {
        31 - r
    }
}

/// The checksum character for a payload.
pub open spec fn checksum_char_of(s: Seq<char>) -> char {
    alphanum_char_at(checksum_rank_of(s))
}

/// The weighted sum over the first `n` characters reads nothing beyond
/// them: two payloads that agree there have the same sum.
pub proof fn lemma_weighted_sum_congruent(s: Seq<char>, t: Seq<char>, n: int)
    requires
        forall|j: int| 0 <= j < n ==> s[j] == t[j],
    ensures
        weighted_sum(s, n) == weighted_sum(t, n),
    decreases n,
{
    if n > 0 {
        lemma_weighted_sum_congruent(s, t, n - 1);
    }
}

/// Replacing the character at one position shifts the weighted sum by
/// the rank difference times that position's weight.
pub proof fn lemma_weighted_sum_update(s: Seq<char>, i: int, c: char, n: int)
    requires
        0 <= i < n,
        n <= s.len(),
    ensures
        weighted_sum(s.update(i, c), n) == weighted_sum(s, n) + (alphanum_rank(c) - alphanum_rank(
            s[i],
        )) * weight_at(i),
    decreases n,
{
    let a = alphanum_rank(c);
    let b = alphanum_rank(s[i]);
    let w = weight_at(i);
    if n - 1 == i {
        lemma_weighted_sum_congruent(s.update(i, c), s, n - 1);
        assert((a - b) * w == a * w - b * w) by (nonlinear_arith);
    } else {
        lemma_weighted_sum_update(s, i, c, n - 1);
    }
}

/// The weighted sum of a rankable prefix is never negative.
pub proof fn lemma_weighted_sum_nonneg(s: Seq<char>, n: int)
    requires
        forall|j: int| 0 <= j < n ==> alphanum_rank(#[trigger] s[j]) >= 0,
    ensures
        weighted_sum(s, n) >= 0,
    decreases n,
{
    if n > 0 {
        lemma_weighted_sum_nonneg(s, n - 1);
        let r = alphanum_rank(s[n - 1]);
        let w = weight_at(n - 1);
        assert(r * w >= 0) by (nonlinear_arith)
            requires
                r >= 0,
                w >= 0,
        ;
    }
}

} // verus!
