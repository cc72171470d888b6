use vstd::prelude::*;
use vstd::string::{StringExecFns, StrSliceExecFns};

use crate::category::{
    code02_code_spec, code02_from_spec, code02_parent_spec, lemma_code02_char,
    lemma_code02_code_numeric, Code02,
};
use crate::checksum::{checksum_char_of, checksum_rank_of, payload_ranked, weighted_sum};
use crate::common::{char_string, push_char, UsciError};
use crate::segments::{
    code01_code_spec, code01_from_spec, lemma_code01_char, lemma_code01_code_alphanum, Code01,
    Code03, Code04, Code05,
};
use crate::tables::{
    alphanum_char_of, alphanum_rank, alphanum_rank_of, is_alphanum_char, is_numeric_char,
    lemma_numeric_is_alphanum, weight_at, weight_of,
};

verus! {

/// The whole identifier: the five segments, of which the fifth is
/// derived from the other four and never independently chosen.
#[derive(Debug)]
pub struct UsciCode {
    pub code01: Code01,
    pub code02: Code02,
    pub code03: Code03,
    pub code04: Code04,
    pub code05: Code05,
}

/// The seventeen-character checksum payload formed by segments 1-4.
pub open spec fn payload_of(c1: Code01, c2: Code02, s3: Seq<char>, s4: Seq<char>) -> Seq<char> {
    seq![code01_code_spec(c1), code02_code_spec(c2)] + s3 + s4
}

/// Validity of the segment part of an 18-character candidate: each of
/// segments 1-4 passes its own validation.
pub open spec fn valid_segments(s: Seq<char>) -> bool {
    &&& s.len() == 18
    &&& code01_from_spec(s[0]) is Some
    &&& code02_from_spec(code01_from_spec(s[0]).unwrap(), s[1]) is Some
    &&& forall|i: int| 2 <= i < 8 ==> is_numeric_char(#[trigger] s[i])
    &&& forall|i: int| 8 <= i < 17 ==> is_alphanum_char(#[trigger] s[i])
}

/// A fully valid identifier string: valid segments and a checksum
/// character consistent with them.
pub open spec fn valid_usci_seq(s: Seq<char>) -> bool {
    valid_segments(s) && s[17] == checksum_char_of(s.subrange(0, 17))
}

/// Segments that pass their own validation always yield a rankable
/// checksum payload, so checksum computation cannot fail on them.
pub proof fn lemma_payload_ranked(c1: Code01, c2: Code02, s3: Seq<char>, s4: Seq<char>)
    requires
        s3.len() == 6,
        forall|i: int| 0 <= i < s3.len() ==> is_numeric_char(#[trigger] s3[i]),
        s4.len() == 9,
        forall|i: int| 0 <= i < s4.len() ==> is_alphanum_char(#[trigger] s4[i]),
    ensures
        payload_ranked(payload_of(c1, c2, s3, s4)),
{
    let p = payload_of(c1, c2, s3, s4);
    lemma_code01_code_alphanum(c1);
    lemma_code02_code_numeric(c2);
    lemma_numeric_is_alphanum(code02_code_spec(c2));
    assert forall|i: int| 0 <= i < 17 implies is_alphanum_char(#[trigger] p[i]) by {
        if 2 <= i < 8 {
            assert(p[i] == s3[i - 2]);
            lemma_numeric_is_alphanum(s3[i - 2]);
        } else if 8 <= i {
            assert(p[i] == s4[i - 8]);
        }
    }
}

impl UsciCode {
    /// The checksum payload of this identifier.
    pub open spec fn payload(&self) -> Seq<char> {
        payload_of(self.code01, self.code02, self.code03.code@, self.code04.code@)
    }

    /// The canonical 18-character serialization.
    pub open spec fn serial(&self) -> Seq<char> {
        self.payload().push(self.code05.code)
    }

    /// The core invariant: segments 3 and 4 are well-formed, the
    /// category belongs to the authority, and the checksum character is
    /// the one computed from the other four segments.
    pub open spec fn wf(&self) -> bool {
        &&& self.code03.wf()
        &&& self.code04.wf()
        &&& code02_parent_spec(self.code02) == self.code01
        &&& self.code05.code == checksum_char_of(self.payload())
    }

    /// The weighted contribution of one payload character: its rank in
    /// the alphanumeric alphabet times the weight of its position.
    pub fn calculate_char_weight(ch: char, index: usize) -> (r: Result<usize, UsciError>)
        requires
            index < 17,
        ensures
            match r {
                Ok(w) => is_alphanum_char(ch) && w == alphanum_rank(ch) * weight_at(index as int)
                    && w <= 900,
                Err(e) => !is_alphanum_char(ch) && e matches UsciError::ChecksumInputInvalid,
            },
    {
        match alphanum_rank_of(ch) {
            Some(k) => {
                let w = weight_of(index);
                proof {
                    assert(k * w <= 900) by (nonlinear_arith)
                        requires
                            0 <= k <= 30,
                            0 <= w <= 30,
                    ;
                }
                Ok(k * w)
            },
            None => Err(UsciError::ChecksumInputInvalid),
        }
    }

    /// The payload character at a given position.
    fn payload_char(
        code01: &Code01,
        code02: &Code02,
        code03: &Code03,
        code04: &Code04,
        i: usize,
    ) -> (c: char)
        requires
            i < 17,
            code03.code@.len() == 6,
            code04.code@.len() == 9,
        ensures
            c == payload_of(*code01, *code02, code03.code@, code04.code@)[i as int],
    {
        if i == 0 {
            code01.get_code()
        } else if i == 1 {
            code02.get_code()
        } else if i < 8 {
            code03.code.as_str().get_char(i - 2)
        } else {
            code04.code.as_str().get_char(i - 8)
        }
    }

    /// Computes the checksum character of segments 1-4: the weighted
    /// sum of the seventeen payload ranks modulo 31, mapped through the
    /// zero-or-complement rule onto the alphanumeric alphabet. Fails
    /// only when some payload character cannot be ranked, which cannot
    /// happen for segments built by their own constructors.
    pub fn calculate_code05(
        code01: &Code01,
        code02: &Code02,
        code03: &Code03,
        code04: &Code04,
    ) -> (r: Result<char, UsciError>)
        requires
            code03.code@.len() == 6,
            code04.code@.len() == 9,
        ensures
            ({
                let p = payload_of(*code01, *code02, code03.code@, code04.code@);
                match r {
                    Ok(c) => payload_ranked(p) && c == checksum_char_of(p),
                    Err(e) => !payload_ranked(p) && e matches UsciError::ChecksumInputInvalid,
                }
            }),
    {
        let ghost p = payload_of(*code01, *code02, code03.code@, code04.code@);
        let mut sum: usize = 0;
        let mut i: usize = 0;
        while i < 17
            invariant
                i <= 17,
                code03.code@.len() == 6,
                code04.code@.len() == 9,
                p == payload_of(*code01, *code02, code03.code@, code04.code@),
                sum == weighted_sum(p, i as int),
                sum <= 900 * i,
                forall|j: int| 0 <= j < i ==> is_alphanum_char(#[trigger] p[j]),
            decreases 17 - i,
        {
            let c = Self::payload_char(code01, code02, code03, code04, i);
            match Self::calculate_char_weight(c, i) {
                Ok(w) => {
                    sum = sum + w;
                },
                Err(e) => {
                    return Err(e);
                },
            }
            i += 1;
        }
        let rem = sum % 31;
        let rank = if rem == 0 {
            0
        } else {
            31 - rem
        };
        proof {
            assert(rank as int == checksum_rank_of(p));
        }
        Ok(alphanum_char_of(rank))
    }

    /// Draws a fresh well-formed identifier: an authority, a category
    /// under it, a region code and an organization code, with the
    /// checksum computed from them.
    pub fn from_random(rng: &mut rand::rngs::ThreadRng) -> (u: UsciCode)
        ensures
            u.wf(),
    {
        let code01 = Code01::from_random(rng);
        let code02 = Code02::from_random(&code01, rng);
        let code03 = Code03::from_random(rng);
        let code04 = Code04::from_random(rng);
        proof {
            lemma_payload_ranked(code01, code02, code03.code@, code04.code@);
        }
        let code05_ch = match Self::calculate_code05(&code01, &code02, &code03, &code04) {
            Ok(c) => c,
            Err(_) => {
                proof {
                    assert(false);
                }
                '0'
            },
        };
        UsciCode { code01, code02, code03, code04, code05: Code05 { code: code05_ch } }
    }

    /// The canonical 18-character textual form of this identifier.
    pub fn get_code(&self) -> (s: String)
        ensures
            s@ == self.serial(),
    {
        let mut s = String::new();
        push_char(&mut s, self.code01.get_code());
        push_char(&mut s, self.code02.get_code());
        s.append(self.code03.code.as_str());
        s.append(self.code04.code.as_str());
        push_char(&mut s, self.code05.code);
        proof {
            assert(s@ =~= self.serial());
        }
        s
    }

    /// Parses an 18-character candidate: validates segments 1-4 against
    /// their alphabets and the dependent enumeration, recomputes the
    /// checksum from them and compares it with the final character.
    /// Succeeds exactly on valid identifier strings, and reports for
    /// every rejected input which rule it broke first.
    pub fn from_str(code_str: &str) -> (r: Result<UsciCode, UsciError>)
        ensures
            ({
                let s = code_str@;
                &&& (r is Ok <==> valid_usci_seq(s))
                &&& match r {
                    Ok(u) => {
                        &&& u.wf()
                        &&& Some(u.code01) == code01_from_spec(s[0])
                        &&& Some(u.code02) == code02_from_spec(u.code01, s[1])
                        &&& u.code03.code@ == s.subrange(2, 8)
                        &&& u.code04.code@ == s.subrange(8, 17)
                        &&& u.code05.code == s[17]
                        &&& u.serial() == s
                    },
                    Err(e) => match e {
                        UsciError::WrongLength(n) => s.len() != 18 && n == s.len(),
                        UsciError::InvalidSegment(seg, raw, parent) => {
                            &&& s.len() == 18
                            &&& (seg == 1 || seg == 2 || seg == 3 || seg == 4)
                            &&& (seg == 1 ==> code01_from_spec(s[0]) is None && raw@ == seq![s[0]]
                                && parent is None)
                            &&& (seg == 2 ==> code01_from_spec(s[0]) is Some && code02_from_spec(
                                code01_from_spec(s[0]).unwrap(),
                                s[1],
                            ) is None && raw@ == seq![s[1]] && parent == Some(s[0]))
                            &&& (seg == 3 ==> code01_from_spec(s[0]) is Some && code02_from_spec(
                                code01_from_spec(s[0]).unwrap(),
                                s[1],
                            ) is Some && !(forall|i: int|
                                2 <= i < 8 ==> is_numeric_char(#[trigger] s[i])) && raw@
                                == s.subrange(2, 8) && parent is None)
                            &&& (seg == 4 ==> code01_from_spec(s[0]) is Some && code02_from_spec(
                                code01_from_spec(s[0]).unwrap(),
                                s[1],
                            ) is Some && (forall|i: int|
                                2 <= i < 8 ==> is_numeric_char(#[trigger] s[i])) && !(forall|
                                i: int,
                            |
                                8 <= i < 17 ==> is_alphanum_char(#[trigger] s[i])) && raw@
                                == s.subrange(8, 17) && parent is None)
                        },
                        UsciError::ChecksumMismatch(expected, actual) => valid_segments(s)
                            && expected == checksum_char_of(s.subrange(0, 17)) && actual == s[17]
                            && actual != expected,
                        UsciError::ChecksumInputInvalid => false,
                    },
                }
            }),
    {
        let ghost s = code_str@;
        let n = code_str.unicode_len();
        if n != 18 {
            return Err(UsciError::WrongLength(n));
        }
        let c1 = code_str.get_char(0);
        let code01 = match Code01::from_char(c1) {
            Ok(v) => v,
            Err(e) => {
                return Err(e);
            },
        };
        let c2 = code_str.get_char(1);
        let code02 = match Code02::from_char(&code01, c2) {
            Ok(v) => v,
            Err(e) => {
                proof {
                    lemma_code01_char(s[0]);
                }
                return Err(e);
            },
        };
        let s3 = code_str.substring_char(2, 8);
        let code03 = match Code03::new(s3) {
            Ok(v) => v,
            Err(e) => {
                proof {
                    if forall|i: int| 2 <= i < 8 ==> is_numeric_char(#[trigger] s[i]) {
                        assert forall|j: int| 0 <= j < s3@.len() implies is_numeric_char(
                            #[trigger] s3@[j],
                        ) by {
                            assert(s3@[j] == s[j + 2]);
                        }
                    }
                }
                return Err(e);
            },
        };
        let s4 = code_str.substring_char(8, 17);
        let code04 = match Code04::new(s4) {
            Ok(v) => v,
            Err(e) => {
                proof {
                    assert forall|i: int| 2 <= i < 8 implies is_numeric_char(#[trigger] s[i]) by {
                        assert(s[i] == code03.code@[i - 2]);
                    }
                    if forall|i: int| 8 <= i < 17 ==> is_alphanum_char(#[trigger] s[i]) {
                        assert forall|j: int| 0 <= j < s4@.len() implies is_alphanum_char(
                            #[trigger] s4@[j],
                        ) by {
                            assert(s4@[j] == s[j + 8]);
                        }
                    }
                }
                return Err(e);
            },
        };
        proof {
            lemma_payload_ranked(code01, code02, code03.code@, code04.code@);
        }
        let code05_ch = match Self::calculate_code05(&code01, &code02, &code03, &code04) {
            Ok(c) => c,
            Err(_) => {
                proof {
                    assert(false);
                }
                '0'
            },
        };
        let c18 = code_str.get_char(17);
        proof {
            lemma_code01_char(s[0]);
            lemma_code02_char(code01, s[1]);
            assert(payload_of(code01, code02, code03.code@, code04.code@) =~= s.subrange(0, 17));
            assert forall|i: int| 2 <= i < 8 implies is_numeric_char(#[trigger] s[i]) by {
                assert(s[i] == code03.code@[i - 2]);
            }
            assert forall|i: int| 8 <= i < 17 implies is_alphanum_char(#[trigger] s[i]) by {
                assert(s[i] == code04.code@[i - 8]);
            }
        }
        if code05_ch != c18 {
            return Err(UsciError::ChecksumMismatch(code05_ch, c18));
        }
        let u = UsciCode { code01, code02, code03, code04, code05: Code05 { code: c18 } };
        proof {
            assert(u.serial() =~= s);
        }
        Ok(u)
    }

    /// The five segments as (code, label) pairs for display: the
    /// authority and the category carry their per-value category
    /// labels, the remaining segments their segment-type names.
    pub fn describe(&self) -> (r: Vec<(String, String)>)
        ensures
            r@.len() == 5,
            r@[0].0@ == seq![code01_code_spec(self.code01)],
            r@[0].1@ == crate::segments::code01_label_spec(self.code01),
            r@[1].0@ == seq![code02_code_spec(self.code02)],
            r@[1].1@ == crate::category::code02_label_spec(self.code02),
            r@[2].0@ == self.code03.code@,
            r@[2].1@ == "登记管理机关行政区划码"@,
            r@[3].0@ == self.code04.code@,
            r@[3].1@ == "组织机构代码"@,
            r@[4].0@ == seq![self.code05.code],
            r@[4].1@ == "校验码"@,
    {
        let mut r: Vec<(String, String)> = Vec::new();
        r.push((char_string(self.code01.get_code()), self.code01.get_type().to_owned()));
        r.push((char_string(self.code02.get_code()), self.code02.get_type().to_owned()));
        r.push((self.code03.to_string(), Code03::code_type().to_owned()));
        r.push((self.code04.to_string(), Code04::code_type().to_owned()));
        r.push((self.code05.to_string(), Code05::code_type().to_owned()));
        r
    }
}

/// Generates one identifier and hands back its canonical textual form:
/// always a valid 18-character identifier string.
pub fn generate_one(rng: &mut rand::rngs::ThreadRng) -> (s: String)
    ensures
        valid_usci_seq(s@),
{
    let u = UsciCode::from_random(rng);
    proof {
        crate::laws::lemma_round_trip(u);
    }
    u.get_code()
}

} // verus!
