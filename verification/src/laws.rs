use vstd::prelude::*;
use vstd::arithmetic::div_mod::{lemma_fundamental_div_mod, lemma_mod_bound};

use crate::category::{
    code02_at_spec, code02_code_spec, code02_count_spec, code02_from_spec, code02_parent_spec,
    lemma_code02_at_parent, lemma_code02_char, lemma_code02_roundtrip,
    lemma_code02_variant_indexed,
};
use crate::checksum::{
    checksum_char_of, checksum_rank_of, lemma_weighted_sum_nonneg, lemma_weighted_sum_update,
    payload_ranked, weighted_sum,
};
use crate::segments::{code01_code_spec, code01_from_spec, lemma_code01_roundtrip, Code01};
use crate::tables::{
    alphanum_rank, is_alphanum_char, is_numeric_char, lemma_rank_of_char_at, weight_at,
};
use crate::usci::{valid_segments, valid_usci_seq, UsciCode};

verus! {

/// Round trip: the serialization of every well-formed identifier is a
/// valid identifier string, and parsing it recovers exactly the same
/// segments. Together with the contract of `UsciCode::from_str`, this
/// pins `from_str` on `get_code` output to an identical identifier.
pub proof fn lemma_round_trip(u: UsciCode)
    requires
        u.wf(),
    ensures
        valid_usci_seq(u.serial()),
        code01_from_spec(u.serial()[0]) == Some(u.code01),
        code02_from_spec(u.code01, u.serial()[1]) == Some(u.code02),
        u.serial().subrange(2, 8) == u.code03.code@,
        u.serial().subrange(8, 17) == u.code04.code@,
        u.serial()[17] == u.code05.code,
{
    let s = u.serial();
    lemma_code01_roundtrip(u.code01);
    lemma_code02_roundtrip(u.code02);
    assert(s[0] == code01_code_spec(u.code01));
    assert(s[1] == code02_code_spec(u.code02));
    assert forall|i: int| 2 <= i < 8 implies is_numeric_char(#[trigger] s[i]) by {
        assert(s[i] == u.code03.code@[i - 2]);
    }
    assert forall|i: int| 8 <= i < 17 implies is_alphanum_char(#[trigger] s[i]) by {
        assert(s[i] == u.code04.code@[i - 8]);
    }
    assert(s.subrange(0, 17) =~= u.payload());
    assert(s.subrange(2, 8) =~= u.code03.code@);
    assert(s.subrange(8, 17) =~= u.code04.code@);
}

/// Checksum determinism: the checksum is a pure function of the
/// payload, so any two results that meet the contract of
/// `UsciCode::calculate_code05` on equal segment values are equal.
pub proof fn lemma_checksum_deterministic(p: Seq<char>, r1: char, r2: char)
    requires
        r1 == checksum_char_of(p),
        r2 == checksum_char_of(p),
    ensures
        r1 == r2,
{
}

/// Dependent-enumeration closure: under every authority, a character is
/// accepted by category parsing exactly when the category table that
/// the random constructor draws from contains a value carrying that
/// character; and every table entry stays within its authority.
pub proof fn lemma_category_closure(p: Code01, ch: char)
    ensures
        (code02_from_spec(p, ch) is Some) <==> exists|i: int|
            0 <= i < code02_count_spec(p) && code02_code_spec(#[trigger] code02_at_spec(p, i))
                == ch,
        forall|i: int|
            0 <= i < code02_count_spec(p) ==> code02_parent_spec(
                #[trigger] code02_at_spec(p, i),
            ) == p,
{
    if code02_from_spec(p, ch) is Some {
        let c = code02_from_spec(p, ch).unwrap();
        lemma_code02_char(p, ch);
        lemma_code02_variant_indexed(c);
        let i = choose|i: int|
            0 <= i < code02_count_spec(p) && c == #[trigger] code02_at_spec(p, i);
        assert(code02_code_spec(code02_at_spec(p, i)) == ch);
    }
    if exists|i: int|
        0 <= i < code02_count_spec(p) && code02_code_spec(#[trigger] code02_at_spec(p, i)) == ch {
        let i = choose|i: int|
            0 <= i < code02_count_spec(p) && code02_code_spec(#[trigger] code02_at_spec(p, i))
                == ch;
        let c = code02_at_spec(p, i);
        lemma_code02_at_parent(p, i);
        lemma_code02_roundtrip(c);
    }
    assert forall|i: int| 0 <= i < code02_count_spec(p) implies code02_parent_spec(
        #[trigger] code02_at_spec(p, i),
    ) == p by {
        lemma_code02_at_parent(p, i);
    }
}

/// Every checksum weight is coprime with 31: a rank shift at one
/// position, scaled by that position's weight, is never a multiple
/// of 31.
#[verifier::rlimit(100)]
proof fn lemma_shifted_sum_mod_differs(a: int, d: int, i: int)
    requires
        a >= 0,
        a + d * weight_at(i) >= 0,
        0 <= i < 17,
        -30 <= d <= 30,
        d != 0,
    ensures
        (a + d * weight_at(i)) % 31 != a % 31,
{
    let w = weight_at(i);
    let b = a + d * w;
    assert(1 <= w <= 30);
    if a % 31 == b % 31 {
        lemma_fundamental_div_mod(a, 31);
        lemma_fundamental_div_mod(b, 31);
        let q = b / 31 - a / 31;
        assert(d * w == 31 * q);
        assert(-900 <= d * w <= 900) by (nonlinear_arith)
            requires
                -30 <= d <= 30,
                1 <= w <= 30,
        ;
        assert(-29 <= q <= 29);
        if i == 0 {
            assert(d * 1 == 31 * q);
            assert(false);
        } else if i == 1 {
            assert(d * 3 == 31 * q);
            assert(false);
        } else if i == 2 {
            assert(d * 9 == 31 * q);
            assert(false);
        } else if i == 3 {
            assert(d * 27 == 31 * q);
            assert(false);
        } else if i == 4 {
            assert(d * 19 == 31 * q);
            assert(false);
        } else if i == 5 {
            assert(d * 26 == 31 * q);
            assert(false);
        } else if i == 6 {
            assert(d * 16 == 31 * q);
            assert(false);
        } else if i == 7 {
            assert(d * 17 == 31 * q);
            assert(false);
        } else if i == 8 {
            assert(d * 20 == 31 * q);
            assert(false);
        } else if i == 9 {
            assert(d * 29 == 31 * q);
            assert(false);
        } else if i == 10 {
            assert(d * 25 == 31 * q);
            assert(false);
        } else if i == 11 {
            assert(d * 13 == 31 * q);
            assert(false);
        } else if i == 12 {
            assert(d * 8 == 31 * q);
            assert(false);
        } else if i == 13 {
            assert(d * 24 == 31 * q);
            assert(false);
        } else if i == 14 {
            assert(d * 10 == 31 * q);
            assert(false);
        } else if i == 15 {
            assert(d * 30 == 31 * q);
            assert(false);
        } else {
            assert(d * 28 == 31 * q);
            assert(false);
        }
    }
}

/// Checksum sensitivity over the payload: replacing any single payload
/// character of a rankable payload by a different alphabet character
/// always changes the checksum character.
pub proof fn lemma_checksum_sensitive(s: Seq<char>, i: int, c: char)
    requires
        payload_ranked(s),
        0 <= i < 17,
        is_alphanum_char(c),
        c != s[i],
    ensures
        checksum_char_of(s.update(i, c)) != checksum_char_of(s),
{
    let t = s.update(i, c);
    let a = weighted_sum(s, 17);
    let b = weighted_sum(t, 17);
    let d = alphanum_rank(c) - alphanum_rank(s[i]);
    lemma_weighted_sum_update(s, i, c, 17);
    assert(d != 0);
    assert(-30 <= d <= 30);
    lemma_weighted_sum_nonneg(s, 17);
    assert forall|j: int| 0 <= j < 17 implies alphanum_rank(#[trigger] t[j]) >= 0 by {
        if j != i {
            assert(t[j] == s[j]);
        }
    }
    lemma_weighted_sum_nonneg(t, 17);
    lemma_shifted_sum_mod_differs(a, d, i);
    lemma_mod_bound(a, 31);
    lemma_mod_bound(b, 31);
    let fa = checksum_rank_of(s);
    let fb = checksum_rank_of(t);
    assert(fa != fb);
    lemma_rank_of_char_at(fa);
    lemma_rank_of_char_at(fb);
}

/// The checksum is not degenerate: every rankable payload admits a
/// single-character flip that changes the checksum character.
pub proof fn lemma_checksum_not_degenerate(s: Seq<char>)
    requires
        payload_ranked(s),
    ensures
        exists|i: int, c: char|
            0 <= i < 17 && is_alphanum_char(c) && c != s[i] && checksum_char_of(
                #[trigger] s.update(i, c),
            ) != checksum_char_of(s),
{
    let c: char = if s[16] == '0' {
        '1'
    } else {
        '0'
    };
    lemma_checksum_sensitive(s, 16, c);
    assert(checksum_char_of(s.update(16, c)) != checksum_char_of(s));
}

/// Checksum guard on the final character: changing only the 18th
/// character of a valid identifier string leaves the segments valid but
/// always breaks the checksum comparison, so parsing such a string must
/// report a checksum mismatch.
pub proof fn lemma_final_char_guard(s: Seq<char>, c: char)
    requires
        valid_usci_seq(s),
        c != s[17],
    ensures
        valid_segments(s.update(17, c)),
        s.update(17, c)[17] != checksum_char_of(s.update(17, c).subrange(0, 17)),
        !valid_usci_seq(s.update(17, c)),
{
    let t = s.update(17, c);
    assert(t.subrange(0, 17) =~= s.subrange(0, 17));
    assert(t[0] == s[0]);
    assert(t[1] == s[1]);
    assert forall|i: int| 2 <= i < 8 implies is_numeric_char(#[trigger] t[i]) by {
        assert(t[i] == s[i]);
    }
    assert forall|i: int| 8 <= i < 17 implies is_alphanum_char(#[trigger] t[i]) by {
        assert(t[i] == s[i]);
    }
}

} // verus!
