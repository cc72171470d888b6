use vstd::prelude::*;
use vstd::string::StrSliceExecFns;

use crate::common::{char_string, push_char, UsciError};
use crate::rng::random_usize;
use crate::tables::{
    alphanum_char_at, alphanum_char_of, alphanum_rank, is_alphanum_char, is_numeric_char,
    numeric_char,
};

verus! {

/// Segment 1 — Authority: the registering department, a closed
/// enumeration of twelve values, each coded by one character.
#[derive(Debug, Clone, Copy, PartialEq, Eq, Structural)]
pub enum Code01 {
    C01,
    C02,
    C03,
    C04,
    C05,
    C06,
    C07,
    C08,
    C09,
    C0A,
    C0N,
    C0Y,
}

/// The code character of an authority value.
pub open spec fn code01_code_spec(c: Code01) -> char {
    match c {
        Code01::C01 => '1',
        Code01::C02 => '2',
        Code01::C03 => '3',
        Code01::C04 => '4',
        Code01::C05 => '5',
        Code01::C06 => '6',
        Code01::C07 => '7',
        Code01::C08 => '8',
        Code01::C09 => '9',
        Code01::C0A => 'A',
        Code01::C0N => 'N',
        Code01::C0Y => 'Y',
    }
}

/// The authority value coded by a character, if any.
pub open spec fn code01_from_spec(ch: char) -> Option<Code01> {
    if ch == '1' { Some(Code01::C01) }
    else if ch == '2' { Some(Code01::C02) }
    else if ch == '3' { Some(Code01::C03) }
    else if ch == '4' { Some(Code01::C04) }
    else if ch == '5' { Some(Code01::C05) }
    else if ch == '6' { Some(Code01::C06) }
    else if ch == '7' { Some(Code01::C07) }
    else if ch == '8' { Some(Code01::C08) }
    else if ch == '9' { Some(Code01::C09) }
    else if ch == 'A' { Some(Code01::C0A) }
    else if ch == 'N' { Some(Code01::C0N) }
    else if ch == 'Y' { Some(Code01::C0Y) }
    else { None }
}

/// The authority table as a function from index to value, used by the
/// random constructor.
pub open spec fn code01_at_spec(i: int) -> Code01 {
    if i == 0 { Code01::C01 }
    else if i == 1 { Code01::C02 }
    else if i == 2 { Code01::C03 }
    else if i == 3 { Code01::C04 }
    else if i == 4 { Code01::C05 }
    else if i == 5 { Code01::C06 }
    else if i == 6 { Code01::C07 }
    else if i == 7 { Code01::C08 }
    else if i == 8 { Code01::C09 }
    else if i == 9 { Code01::C0A }
    else if i == 10 { Code01::C0N }
    else { Code01::C0Y }
}

/// The human-readable category label of an authority value.
pub open spec fn code01_label_spec(c: Code01) -> Seq<char> {
    match c {
        Code01::C01 => "机构编制"@,
        Code01::C02 => "外交"@,
        Code01::C03 => "司法行政"@,
        Code01::C04 => "文化"@,
        Code01::C05 => "民政"@,
        Code01::C06 => "旅游"@,
        Code01::C07 => "宗教"@,
        Code01::C08 => "工会"@,
        Code01::C09 => "工商"@,
        Code01::C0A => "中央军委改革和编制办公室"@,
        Code01::C0N => "农业"@,
        Code01::C0Y => "其他"@,
    }
}

impl Code01 {
    /// The label of the whole segment.
    pub fn code_type() -> (s: &'static str)
        ensures
            s@ == "登记管理部门"@,
    {
        "登记管理部门"
    }

    /// The code character of this value.
    pub fn get_code(&self) -> (c: char)
        ensures
            c == code01_code_spec(*self),
    {
        match self {
            Code01::C01 => '1',
            Code01::C02 => '2',
            Code01::C03 => '3',
            Code01::C04 => '4',
            Code01::C05 => '5',
            Code01::C06 => '6',
            Code01::C07 => '7',
            Code01::C08 => '8',
            Code01::C09 => '9',
            Code01::C0A => 'A',
            Code01::C0N => 'N',
            Code01::C0Y => 'Y',
        }
    }

    /// The human-readable category label of this value.
    pub fn get_type(&self) -> (s: &'static str)
        ensures
            s@ == code01_label_spec(*self),
    {
        match self {
            Code01::C01 => "机构编制",
            Code01::C02 => "外交",
            Code01::C03 => "司法行政",
            Code01::C04 => "文化",
            Code01::C05 => "民政",
            Code01::C06 => "旅游",
            Code01::C07 => "宗教",
            Code01::C08 => "工会",
            Code01::C09 => "工商",
            Code01::C0A => "中央军委改革和编制办公室",
            Code01::C0N => "农业",
            Code01::C0Y => "其他",
        }
    }

    /// Parses an authority from its code character: succeeds exactly on
    /// the twelve enumerated characters.
    pub fn from_char(ch: char) -> (r: Result<Code01, UsciError>)
        ensures
            match r {
                Ok(c) => code01_from_spec(ch) == Some(c),
                Err(e) => {
                    &&& code01_from_spec(ch) is None
                    &&& e matches UsciError::InvalidSegment(seg, raw, parent) && seg == 1
                        && raw@ == seq![ch] && parent is None
                },
            },
    {
        match ch {
            '1' => Ok(Code01::C01),
            '2' => Ok(Code01::C02),
            '3' => Ok(Code01::C03),
            '4' => Ok(Code01::C04),
            '5' => Ok(Code01::C05),
            '6' => Ok(Code01::C06),
            '7' => Ok(Code01::C07),
            '8' => Ok(Code01::C08),
            '9' => Ok(Code01::C09),
            'A' => Ok(Code01::C0A),
            'N' => Ok(Code01::C0N),
            'Y' => Ok(Code01::C0Y),
            _ => Err(UsciError::InvalidSegment(1, char_string(ch), None)),
        }
    }

    /// The authority at a given index of the table.
    pub fn from_index(i: usize) -> (c: Code01)
        requires
            i < 12,
        ensures
            c == code01_at_spec(i as int),
    {
        if i == 0 { Code01::C01 }
        else if i == 1 { Code01::C02 }
        else if i == 2 { Code01::C03 }
        else if i == 3 { Code01::C04 }
        else if i == 4 { Code01::C05 }
        else if i == 5 { Code01::C06 }
        else if i == 6 { Code01::C07 }
        else if i == 7 { Code01::C08 }
        else if i == 8 { Code01::C09 }
        else if i == 9 { Code01::C0A }
        else if i == 10 { Code01::C0N }
        else { Code01::C0Y }
    }

    /// Draws an authority by reducing one random word modulo the table
    /// size; the slight bias of the modulo reduction is accepted.
    pub fn from_random(rng: &mut rand::rngs::ThreadRng) -> (c: Code01)
        ensures
            exists|i: int| 0 <= i < 12 && c == #[trigger] code01_at_spec(i),
    {
        let i = random_usize(rng) % 12;
        let c = Code01::from_index(i);
        proof {
            assert(0 <= (i as int) && (i as int) < 12 && c == code01_at_spec(i as int));
        }
        c
    }
}

/// Parsing inverts serialization for the authority segment.
pub proof fn lemma_code01_roundtrip(c: Code01)
    ensures
        code01_from_spec(code01_code_spec(c)) == Some(c),
{
}

/// A successfully parsed authority serializes back to the parsed
/// character.
pub proof fn lemma_code01_char(ch: char)
    ensures
        code01_from_spec(ch) matches Some(c) ==> code01_code_spec(c) == ch,
{
}

/// Every authority code character belongs to the alphanumeric alphabet.
pub proof fn lemma_code01_code_alphanum(c: Code01)
    ensures
        is_alphanum_char(code01_code_spec(c)),
{
}

/// Segment 3 — Region Code: exactly six characters, all from the
/// numeric alphabet.
#[derive(Debug)]
pub struct Code03 {
    pub code: String,
}

impl Code03 {
    /// Well-formedness: exactly six characters, each a decimal digit.
    pub open spec fn wf(&self) -> bool {
        self.code@.len() == 6 && forall|i: int|
            0 <= i < self.code@.len() ==> is_numeric_char(#[trigger] self.code@[i])
    }

    /// The label of the whole segment.
    pub fn code_type() -> (s: &'static str)
        ensures
            s@ == "登记管理机关行政区划码"@,
    {
        "登记管理机关行政区划码"
    }

    /// Validates a region code: succeeds exactly on six-character
    /// strings of decimal digits, and keeps the text as given.
    pub fn new(code: &str) -> (r: Result<Code03, UsciError>)
        ensures
            match r {
                Ok(c3) => c3.code@ == code@ && c3.wf(),
                Err(e) => {
                    &&& !(code@.len() == 6 && forall|i: int|
                        0 <= i < code@.len() ==> is_numeric_char(#[trigger] code@[i]))
                    &&& e matches UsciError::InvalidSegment(seg, raw, parent) && seg == 3
                        && raw@ == code@ && parent is None
                },
            },
    {
        let n = code.unicode_len();
        if n != 6 {
            return Err(UsciError::InvalidSegment(3, code.to_owned(), None));
        }
        let mut i: usize = 0;
        while i < 6
            invariant
                code@.len() == 6,
                i <= 6,
                forall|j: int| 0 <= j < i ==> is_numeric_char(#[trigger] code@[j]),
            decreases 6 - i,
        {
            let ch = code.get_char(i);
            if !numeric_char(ch) {
                return Err(UsciError::InvalidSegment(3, code.to_owned(), None));
            }
            i += 1;
        }
        Ok(Code03 { code: code.to_owned() })
    }

    /// Exec membership test for the numeric alphabet.
    pub fn is_valid_char(ch: char) -> (r: bool)
        ensures
            r == is_numeric_char(ch),
    {
        numeric_char(ch)
    }

    /// Draws a well-formed region code: six independent draws from the
    /// numeric alphabet.
    pub fn from_random(rng: &mut rand::rngs::ThreadRng) -> (c3: Code03)
        ensures
            c3.wf(),
    {
        let mut s = String::new();
        let mut i: usize = 0;
        while i < 6
            invariant
                i <= 6,
                s@.len() == i,
                forall|j: int| 0 <= j < i ==> is_numeric_char(#[trigger] s@[j]),
            decreases 6 - i,
        {
            let idx = random_usize(rng) % 10;
            let ch = alphanum_char_of(idx);
            assert(is_numeric_char(alphanum_char_at(idx as int)));
            push_char(&mut s, ch);
            i += 1;
        }
        Code03 { code: s }
    }

    /// The raw text of this segment.
    pub fn to_string(&self) -> (s: String)
        ensures
            s@ == self.code@,
    {
        self.code.clone()
    }
}

/// Segment 4 — Organization Code: exactly nine characters, all from the
/// 31-character alphanumeric alphabet.
#[derive(Debug)]
pub struct Code04 {
    pub code: String,
}

impl Code04 {
    /// Well-formedness: exactly nine characters, each a member of the
    /// alphanumeric alphabet.
    pub open spec fn wf(&self) -> bool {
        self.code@.len() == 9 && forall|i: int|
            0 <= i < self.code@.len() ==> is_alphanum_char(#[trigger] self.code@[i])
    }

    /// The label of the whole segment.
    pub fn code_type() -> (s: &'static str)
        ensures
            s@ == "组织机构代码"@,
    {
        "组织机构代码"
    }

    /// Validates an organization code: succeeds exactly on
    /// nine-character strings over the alphanumeric alphabet, and keeps
    /// the text as given.
    pub fn new(code: &str) -> (r: Result<Code04, UsciError>)
        ensures
            match r {
                Ok(c4) => c4.code@ == code@ && c4.wf(),
                Err(e) => {
                    &&& !(code@.len() == 9 && forall|i: int|
                        0 <= i < code@.len() ==> is_alphanum_char(#[trigger] code@[i]))
                    &&& e matches UsciError::InvalidSegment(seg, raw, parent) && seg == 4
                        && raw@ == code@ && parent is None
                },
            },
    {
        let n = code.unicode_len();
        if n != 9 {
            return Err(UsciError::InvalidSegment(4, code.to_owned(), None));
        }
        let mut i: usize = 0;
        while i < 9
            invariant
                code@.len() == 9,
                i <= 9,
                forall|j: int| 0 <= j < i ==> is_alphanum_char(#[trigger] code@[j]),
            decreases 9 - i,
        {
            let ch = code.get_char(i);
            if !Code04::is_valid_char(ch) {
                return Err(UsciError::InvalidSegment(4, code.to_owned(), None));
            }
            i += 1;
        }
        Ok(Code04 { code: code.to_owned() })
    }

    /// Exec membership test for the alphanumeric alphabet.
    pub fn is_valid_char(ch: char) -> (r: bool)
        ensures
            r == is_alphanum_char(ch),
    {
        match crate::tables::alphanum_rank_of(ch) {
            Some(_) => true,
            None => false,
        }
    }

    /// Draws a well-formed organization code: nine independent draws
    /// from the alphanumeric alphabet.
    pub fn from_random(rng: &mut rand::rngs::ThreadRng) -> (c4: Code04)
        ensures
            c4.wf(),
    {
        let mut s = String::new();
        let mut i: usize = 0;
        while i < 9
            invariant
                i <= 9,
                s@.len() == i,
                forall|j: int| 0 <= j < i ==> is_alphanum_char(#[trigger] s@[j]),
            decreases 9 - i,
        {
            let idx = random_usize(rng) % 31;
            let ch = alphanum_char_of(idx);
            proof {
                crate::tables::lemma_rank_of_char_at(idx as int);
            }
            push_char(&mut s, ch);
            i += 1;
        }
        Code04 { code: s }
    }

    /// The raw text of this segment.
    pub fn to_string(&self) -> (s: String)
        ensures
            s@ == self.code@,
    {
        self.code.clone()
    }
}

/// Segment 5 — Checksum: a single character, derived from the other
/// four segments and never independently chosen.
#[derive(Debug)]
pub struct Code05 {
    pub code: char,
}

impl Code05 {
    /// The label of the whole segment.
    pub fn code_type() -> (s: &'static str)
        ensures
            s@ == "校验码"@,
    {
        "校验码"
    }

    /// The raw text of this segment.
    pub fn to_string(&self) -> (s: String)
        ensures
            s@ == seq![self.code],
    {
        char_string(self.code)
    }
}

} // verus!
