use vstd::prelude::*;

verus! {

/// A character of the 10-character numeric alphabet: the decimal digits.
pub open spec fn is_numeric_char(c: char) -> bool {
    '0' <= c && c <= '9'
}

/// Zero-based rank of a character within the 31-character alphanumeric
/// alphabet {0-9, A-H, J-N, P-R, T, U, W-Y} (the uppercase letters
/// I, O, S, V and Z are excluded to avoid visual ambiguity); -1 for any
/// character outside the alphabet. The alphabet is in strictly
/// increasing character-code order, so the rank doubles as the
/// character's index in it.
pub open spec fn alphanum_rank(c: char) -> int {
    if '0' <= c && c <= '9' {
        c as int - '0' as int
    } else if 'A' <= c && c <= 'H' {
        10 + (c as int - 'A' as int)
    } else if 'J' <= c && c <= 'N' {
        18 + (c as int - 'J' as int)
    } else if 'P' <= c && c <= 'R' {
        23 + (c as int - 'P' as int)
    } else if c == 'T' {
        26
    } else if c == 'U' {
        27
    } else if 'W' <= c && c <= 'Y' {
        28 + (c as int - 'W' as int)
    } else {
        -1
    }
}

/// Membership in the 31-character alphanumeric alphabet.
pub open spec fn is_alphanum_char(c: char) -> bool {
    alphanum_rank(c) >= 0
}

/// The alphanumeric alphabet as a function from rank to character.
pub open spec fn alphanum_char_at(r: int) -> char {
    if r == 0 { '0' }
    else if r == 1 { '1' }
    else if r == 2 { '2' }
    else if r == 3 { '3' }
    else if r == 4 { '4' }
    else if r == 5 { '5' }
    else if r == 6 { '6' }
    else if r == 7 { '7' }
    else if r == 8 { '8' }
    else if r == 9 { '9' }
    else if r == 10 { 'A' }
    else if r == 11 { 'B' }
    else if r == 12 { 'C' }
    else if r == 13 { 'D' }
    else if r == 14 { 'E' }
    else if r == 15 { 'F' }
    else if r == 16 { 'G' }
    else if r == 17 { 'H' }
    else if r == 18 { 'J' }
    else if r == 19 { 'K' }
    else if r == 20 { 'L' }
    else if r == 21 { 'M' }
    else if r == 22 { 'N' }
    else if r == 23 { 'P' }
    else if r == 24 { 'Q' }
    else if r == 25 { 'R' }
    else if r == 26 { 'T' }
    else if r == 27 { 'U' }
    else if r == 28 { 'W' }
    else if r == 29 { 'X' }
    else if r == 30 { 'Y' }
    else { '0' }
}

/// The 17 weights applied, position by position, to the ranks of the
/// seventeen payload characters of an identifier.
pub open spec fn weight_at(i: int) -> int {
    if i == 0 { 1 }
    else if i == 1 { 3 }
    else if i == 2 { 9 }
    else if i == 3 { 27 }
    else if i == 4 { 19 }
    else if i == 5 { 26 }
    else if i == 6 { 16 }
    else if i == 7 { 17 }
    else if i == 8 { 20 }
    else if i == 9 { 29 }
    else if i == 10 { 25 }
    else if i == 11 { 13 }
    else if i == 12 { 8 }
    else if i == 13 { 24 }
    else if i == 14 { 10 }
    else if i == 15 { 30 }
    else if i == 16 { 28 }
    else { 0 }
}

/// Exec membership test for the numeric alphabet.
pub fn numeric_char(c: char) -> (r: bool)
    ensures
        r == is_numeric_char(c),
{
    '0' <= c && c <= '9'
}

/// Exec rank lookup in the alphanumeric alphabet: `Some` of the rank for
/// a member, `None` for any other character.
pub fn alphanum_rank_of(c: char) -> (r: Option<usize>)
    ensures
        match r {
            Some(k) => k == alphanum_rank(c) && k < 31,
            None => alphanum_rank(c) == -1,
        },
{
    if '0' <= c && c <= '9' {
        Some((c as usize) - ('0' as usize))
    } else if 'A' <= c && c <= 'H' {
        Some(10 + (c as usize) - ('A' as usize))
    } else if 'J' <= c && c <= 'N' {
        Some(18 + (c as usize) - ('J' as usize))
    } else if 'P' <= c && c <= 'R' {
        Some(23 + (c as usize) - ('P' as usize))
    } else if c == 'T' {
        Some(26)
    } else if c == 'U' {
        Some(27)
    } else if 'W' <= c && c <= 'Y' {
        Some(28 + (c as usize) - ('W' as usize))
    } else {
        None
    }
}

/// Exec lookup of the alphabet character at a given rank.
pub fn alphanum_char_of(r: usize) -> (c: char)
    requires
        r < 31,
    ensures
        c == alphanum_char_at(r as int),
{
    if r == 0 { '0' }
    else if r == 1 { '1' }
    else if r == 2 { '2' }
    else if r == 3 { '3' }
    else if r == 4 { '4' }
    else if r == 5 { '5' }
    else if r == 6 { '6' }
    else if r == 7 { '7' }
    else if r == 8 { '8' }
    else if r == 9 { '9' }
    else if r == 10 { 'A' }
    else if r == 11 { 'B' }
    else if r == 12 { 'C' }
    else if r == 13 { 'D' }
    else if r == 14 { 'E' }
    else if r == 15 { 'F' }
    else if r == 16 { 'G' }
    else if r == 17 { 'H' }
    else if r == 18 { 'J' }
    else if r == 19 { 'K' }
    else if r == 20 { 'L' }
    else if r == 21 { 'M' }
    else if r == 22 { 'N' }
    else if r == 23 { 'P' }
    else if r == 24 { 'Q' }
    else if r == 25 { 'R' }
    else if r == 26 { 'T' }
    else if r == 27 { 'U' }
    else if r == 28 { 'W' }
    else if r == 29 { 'X' }
    else { 'Y' }
}

/// Exec lookup of the checksum weight for a payload position.
pub fn weight_of(i: usize) -> (w: usize)
    requires
        i < 17,
    ensures
        w == weight_at(i as int),
{
    if i == 0 { 1 }
    else if i == 1 { 3 }
    else if i == 2 { 9 }
    else if i == 3 { 27 }
    else if i == 4 { 19 }
    else if i == 5 { 26 }
    else if i == 6 { 16 }
    else if i == 7 { 17 }
    else if i == 8 { 20 }
    else if i == 9 { 29 }
    else if i == 10 { 25 }
    else if i == 11 { 13 }
    else if i == 12 { 8 }
    else if i == 13 { 24 }
    else if i == 14 { 10 }
    else if i == 15 { 30 }
    else { 28 }
}

/// Ranking inverts indexing: the character at each rank ranks back to it.
pub proof fn lemma_rank_of_char_at(r: int)
    requires
        0 <= r < 31,
    ensures
        alphanum_rank(alphanum_char_at(r)) == r,
{
}

/// Every numeric character belongs to the alphanumeric alphabet, ranked
/// at its digit value.
pub proof fn lemma_numeric_is_alphanum(c: char)
    requires
        is_numeric_char(c),
    ensures
        0 <= alphanum_rank(c) <= 9,
{
}

} // verus!
