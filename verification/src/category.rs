use vstd::prelude::*;

use crate::common::{char_string, UsciError};
use crate::rng::random_usize;
use crate::segments::{code01_code_spec, Code01};
use crate::tables::is_numeric_char;

verus! {

/// Segment 2 — Category: the organization type. The set of valid values
/// is conditioned on the authority (Segment 1): each authority admits
/// its own disjoint subset of the variants below, every variant
/// belonging to exactly one authority.
#[derive(Debug, Clone, Copy, PartialEq, Eq, Structural)]
pub enum Code02 {
    D11,
    D12,
    D13,
    D19,
    E21,
    E29,
    F31,
    F32,
    F33,
    F34,
    F35,
    F39,
    G41,
    G49,
    H51,
    H52,
    H53,
    H59,
    I61,
    I62,
    I69,
    J71,
    J72,
    J79,
    K81,
    K89,
    L91,
    L92,
    L93,
    MA1,
    MA9,
    NN1,
    NN2,
    NN3,
    NN9,
    P01,
}

/// The code character of a category value.
pub open spec fn code02_code_spec(c: Code02) -> char {
    match c {
        Code02::D11 => '1',
        Code02::D12 => '2',
        Code02::D13 => '3',
        Code02::D19 => '9',
        Code02::E21 => '1',
        Code02::E29 => '9',
        Code02::F31 => '1',
        Code02::F32 => '2',
        Code02::F33 => '3',
        Code02::F34 => '4',
        Code02::F35 => '5',
        Code02::F39 => '9',
        Code02::G41 => '1',
        Code02::G49 => '9',
        Code02::H51 => '1',
        Code02::H52 => '2',
        Code02::H53 => '3',
        Code02::H59 => '9',
        Code02::I61 => '1',
        Code02::I62 => '2',
        Code02::I69 => '9',
        Code02::J71 => '1',
        Code02::J72 => '2',
        Code02::J79 => '9',
        Code02::K81 => '1',
        Code02::K89 => '9',
        Code02::L91 => '1',
        Code02::L92 => '2',
        Code02::L93 => '3',
        Code02::MA1 => '1',
        Code02::MA9 => '9',
        Code02::NN1 => '1',
        Code02::NN2 => '2',
        Code02::NN3 => '3',
        Code02::NN9 => '9',
        Code02::P01 => '1',
    }
}

/// The authority that each category value belongs to.
pub open spec fn code02_parent_spec(c: Code02) -> Code01 {
    match c {
        Code02::D11 => Code01::C01,
        Code02::D12 => Code01::C01,
        Code02::D13 => Code01::C01,
        Code02::D19 => Code01::C01,
        Code02::E21 => Code01::C02,
        Code02::E29 => Code01::C02,
        Code02::F31 => Code01::C03,
        Code02::F32 => Code01::C03,
        Code02::F33 => Code01::C03,
        Code02::F34 => Code01::C03,
        Code02::F35 => Code01::C03,
        Code02::F39 => Code01::C03,
        Code02::G41 => Code01::C04,
        Code02::G49 => Code01::C04,
        Code02::H51 => Code01::C05,
        Code02::H52 => Code01::C05,
        Code02::H53 => Code01::C05,
        Code02::H59 => Code01::C05,
        Code02::I61 => Code01::C06,
        Code02::I62 => Code01::C06,
        Code02::I69 => Code01::C06,
        Code02::J71 => Code01::C07,
        Code02::J72 => Code01::C07,
        Code02::J79 => Code01::C07,
        Code02::K81 => Code01::C08,
        Code02::K89 => Code01::C08,
        Code02::L91 => Code01::C09,
        Code02::L92 => Code01::C09,
        Code02::L93 => Code01::C09,
        Code02::MA1 => Code01::C0A,
        Code02::MA9 => Code01::C0A,
        Code02::NN1 => Code01::C0N,
        Code02::NN2 => Code01::C0N,
        Code02::NN3 => Code01::C0N,
        Code02::NN9 => Code01::C0N,
        Code02::P01 => Code01::C0Y,
    }
}

/// How many category values each authority admits.
pub open spec fn code02_count_spec(p: Code01) -> int {
    match p {
        Code01::C01 => 4,
        Code01::C02 => 2,
        Code01::C03 => 6,
        Code01::C04 => 2,
        Code01::C05 => 4,
        Code01::C06 => 3,
        Code01::C07 => 3,
        Code01::C08 => 2,
        Code01::C09 => 3,
        Code01::C0A => 2,
        Code01::C0N => 4,
        Code01::C0Y => 1,
    }
}

/// The per-authority category table as a function from index to value,
/// used by the random constructor.
pub open spec fn code02_at_spec(p: Code01, i: int) -> Code02 {
    match p {
        Code01::C01 => if i == 0 { Code02::D11 } else if i == 1 { Code02::D12 }
            else if i == 2 { Code02::D13 } else { Code02::D19 },
        Code01::C02 => if i == 0 { Code02::E21 } else { Code02::E29 },
        Code01::C03 => if i == 0 { Code02::F31 } else if i == 1 { Code02::F32 }
            else if i == 2 { Code02::F33 } else if i == 3 { Code02::F34 }
            else if i == 4 { Code02::F35 } else { Code02::F39 },
        Code01::C04 => if i == 0 { Code02::G41 } else { Code02::G49 },
        Code01::C05 => if i == 0 { Code02::H51 } else if i == 1 { Code02::H52 }
            else if i == 2 { Code02::H53 } else { Code02::H59 },
        Code01::C06 => if i == 0 { Code02::I61 } else if i == 1 { Code02::I62 }
            else { Code02::I69 },
        Code01::C07 => if i == 0 { Code02::J71 } else if i == 1 { Code02::J72 }
            else { Code02::J79 },
        Code01::C08 => if i == 0 { Code02::K81 } else { Code02::K89 },
        Code01::C09 => if i == 0 { Code02::L91 } else if i == 1 { Code02::L92 }
            else { Code02::L93 },
        Code01::C0A => if i == 0 { Code02::MA1 } else { Code02::MA9 },
        Code01::C0N => if i == 0 { Code02::NN1 } else if i == 1 { Code02::NN2 }
            else if i == 2 { Code02::NN3 } else { Code02::NN9 },
        Code01::C0Y => Code02::P01,
    }
}

/// The category value that a character codes under a given authority,
/// if any: the central lookup table of the dependent enumeration.
pub open spec fn code02_from_spec(p: Code01, ch: char) -> Option<Code02> {
    match p {
        Code01::C01 => if ch == '1' { Some(Code02::D11) } else if ch == '2' { Some(Code02::D12) }
            else if ch == '3' { Some(Code02::D13) } else if ch == '9' { Some(Code02::D19) }
            else { None },
        Code01::C02 => if ch == '1' { Some(Code02::E21) } else if ch == '9' { Some(Code02::E29) }
            else { None },
        Code01::C03 => if ch == '1' { Some(Code02::F31) } else if ch == '2' { Some(Code02::F32) }
            else if ch == '3' { Some(Code02::F33) } else if ch == '4' { Some(Code02::F34) }
            else if ch == '5' { Some(Code02::F35) } else if ch == '9' { Some(Code02::F39) }
            else { None },
        Code01::C04 => if ch == '1' { Some(Code02::G41) } else if ch == '9' { Some(Code02::G49) }
            else { None },
        Code01::C05 => if ch == '1' { Some(Code02::H51) } else if ch == '2' { Some(Code02::H52) }
            else if ch == '3' { Some(Code02::H53) } else if ch == '9' { Some(Code02::H59) }
            else { None },
        Code01::C06 => if ch == '1' { Some(Code02::I61) } else if ch == '2' { Some(Code02::I62) }
            else if ch == '9' { Some(Code02::I69) } else { None },
        Code01::C07 => if ch == '1' { Some(Code02::J71) } else if ch == '2' { Some(Code02::J72) }
            else if ch == '9' { Some(Code02::J79) } else { None },
        Code01::C08 => if ch == '1' { Some(Code02::K81) } else if ch == '9' { Some(Code02::K89) }
            else { None },
        Code01::C09 => if ch == '1' { Some(Code02::L91) } else if ch == '2' { Some(Code02::L92) }
            else if ch == '3' { Some(Code02::L93) } else { None },
        Code01::C0A => if ch == '1' { Some(Code02::MA1) } else if ch == '9' { Some(Code02::MA9) }
            else { None },
        Code01::C0N => if ch == '1' { Some(Code02::NN1) } else if ch == '2' { Some(Code02::NN2) }
            else if ch == '3' { Some(Code02::NN3) } else if ch == '9' { Some(Code02::NN9) }
            else { None },
        Code01::C0Y => if ch == '1' { Some(Code02::P01) } else { None },
    }
}

/// The human-readable category label of a category value.
pub open spec fn code02_label_spec(c: Code02) -> Seq<char> {
    match c {
        Code02::D11 => "机关"@,
        Code02::D12 => "事业单位"@,
        Code02::D13 => "编办直接管理机构编制的群众团体"@,
        Code02::D19 => "其他"@,
        Code02::E21 => "外国常驻新闻机构"@,
        Code02::E29 => "其他"@,
        Code02::F31 => "律师执业机构"@,
        Code02::F32 => "公证处"@,
        Code02::F33 => "基层法律服务所"@,
        Code02::F34 => "司法鉴定机构"@,
        Code02::F35 => "仲裁委员会"@,
        Code02::F39 => "其他"@,
        Code02::G41 => "外国在华文化中心"@,
        Code02::G49 => "其他"@,
        Code02::H51 => "社会团体"@,
        Code02::H52 => "民办非企业单位"@,
        Code02::H53 => "基金会"@,
        Code02::H59 => "其他"@,
        Code02::I61 => "外国旅游部门常驻代表机构"@,
        Code02::I62 => "港澳台地区旅游部门常驻内地(大陆)代表机构"@,
        Code02::I69 => "其他"@,
        Code02::J71 => "宗教活动场所"@,
        Code02::J72 => "宗教院校"@,
        Code02::J79 => "其他"@,
        Code02::K81 => "基层工会"@,
        Code02::K89 => "其他"@,
        Code02::L91 => "企业"@,
        Code02::L92 => "个体工商户"@,
        Code02::L93 => "农民专业合作社"@,
        Code02::MA1 => "军队事业单位"@,
        Code02::MA9 => "其他"@,
        Code02::NN1 => "组级集体经济组织"@,
        Code02::NN2 => "村级集体经济组织"@,
        Code02::NN3 => "乡镇级集体经济组织"@,
        Code02::NN9 => "其他"@,
        Code02::P01 => ""@,
    }
}

impl Code02 {
    /// The label of the whole segment.
    pub fn code_type() -> (s: &'static str)
        ensures
            s@ == "机构类别"@,
    {
        "机构类别"
    }

    /// The code character of this value.
    pub fn get_code(&self) -> (c: char)
        ensures
            c == code02_code_spec(*self),
    {
        match self {
            Code02::D11 => '1',
            Code02::D12 => '2',
            Code02::D13 => '3',
            Code02::D19 => '9',
            Code02::E21 => '1',
            Code02::E29 => '9',
            Code02::F31 => '1',
            Code02::F32 => '2',
            Code02::F33 => '3',
            Code02::F34 => '4',
            Code02::F35 => '5',
            Code02::F39 => '9',
            Code02::G41 => '1',
            Code02::G49 => '9',
            Code02::H51 => '1',
            Code02::H52 => '2',
            Code02::H53 => '3',
            Code02::H59 => '9',
            Code02::I61 => '1',
            Code02::I62 => '2',
            Code02::I69 => '9',
            Code02::J71 => '1',
            Code02::J72 => '2',
            Code02::J79 => '9',
            Code02::K81 => '1',
            Code02::K89 => '9',
            Code02::L91 => '1',
            Code02::L92 => '2',
            Code02::L93 => '3',
            Code02::MA1 => '1',
            Code02::MA9 => '9',
            Code02::NN1 => '1',
            Code02::NN2 => '2',
            Code02::NN3 => '3',
            Code02::NN9 => '9',
            Code02::P01 => '1',
        }
    }

    /// The human-readable category label of this value.
    pub fn get_type(&self) -> (s: &'static str)
        ensures
            s@ == code02_label_spec(*self),
    {
        match self {
            Code02::D11 => "机关",
            Code02::D12 => "事业单位",
            Code02::D13 => "编办直接管理机构编制的群众团体",
            Code02::D19 => "其他",
            Code02::E21 => "外国常驻新闻机构",
            Code02::E29 => "其他",
            Code02::F31 => "律师执业机构",
            Code02::F32 => "公证处",
            Code02::F33 => "基层法律服务所",
            Code02::F34 => "司法鉴定机构",
            Code02::F35 => "仲裁委员会",
            Code02::F39 => "其他",
            Code02::G41 => "外国在华文化中心",
            Code02::G49 => "其他",
            Code02::H51 => "社会团体",
            Code02::H52 => "民办非企业单位",
            Code02::H53 => "基金会",
            Code02::H59 => "其他",
            Code02::I61 => "外国旅游部门常驻代表机构",
            Code02::I62 => "港澳台地区旅游部门常驻内地(大陆)代表机构",
            Code02::I69 => "其他",
            Code02::J71 => "宗教活动场所",
            Code02::J72 => "宗教院校",
            Code02::J79 => "其他",
            Code02::K81 => "基层工会",
            Code02::K89 => "其他",
            Code02::L91 => "企业",
            Code02::L92 => "个体工商户",
            Code02::L93 => "农民专业合作社",
            Code02::MA1 => "军队事业单位",
            Code02::MA9 => "其他",
            Code02::NN1 => "组级集体经济组织",
            Code02::NN2 => "村级集体经济组织",
            Code02::NN3 => "乡镇级集体经济组织",
            Code02::NN9 => "其他",
            Code02::P01 => "",
        }
    }

    /// Parses a category from its code character under an already-known
    /// authority: succeeds exactly on the characters of that authority's
    /// permitted subset.
    pub fn from_char(code01: &Code01, ch: char) -> (r: Result<Code02, UsciError>)
        ensures
            match r {
                Ok(c) => code02_from_spec(*code01, ch) == Some(c),
                Err(e) => {
                    &&& code02_from_spec(*code01, ch) is None
                    &&& e matches UsciError::InvalidSegment(seg, raw, parent) && seg == 2
                        && raw@ == seq![ch] && parent == Some(code01_code_spec(*code01))
                },
            },
    {
        match code01 {
            Code01::C01 => {
                match ch {
                    '1' => Ok(Code02::D11),
                    '2' => Ok(Code02::D12),
                    '3' => Ok(Code02::D13),
                    '9' => Ok(Code02::D19),
                    _ => Err(Code02::invalid(code01, ch)),
                }
            },
            Code01::C02 => {
                match ch {
                    '1' => Ok(Code02::E21),
                    '9' => Ok(Code02::E29),
                    _ => Err(Code02::invalid(code01, ch)),
                }
            },
            Code01::C03 => {
                match ch {
                    '1' => Ok(Code02::F31),
                    '2' => Ok(Code02::F32),
                    '3' => Ok(Code02::F33),
                    '4' => Ok(Code02::F34),
                    '5' => Ok(Code02::F35),
                    '9' => Ok(Code02::F39),
                    _ => Err(Code02::invalid(code01, ch)),
                }
            },
            Code01::C04 => {
                match ch {
                    '1' => Ok(Code02::G41),
                    '9' => Ok(Code02::G49),
                    _ => Err(Code02::invalid(code01, ch)),
                }
            },
            Code01::C05 => {
                match ch {
                    '1' => Ok(Code02::H51),
                    '2' => Ok(Code02::H52),
                    '3' => Ok(Code02::H53),
                    '9' => Ok(Code02::H59),
                    _ => Err(Code02::invalid(code01, ch)),
                }
            },
            Code01::C06 => {
                match ch {
                    '1' => Ok(Code02::I61),
                    '2' => Ok(Code02::I62),
                    '9' => Ok(Code02::I69),
                    _ => Err(Code02::invalid(code01, ch)),
                }
            },
            Code01::C07 => {
                match ch {
                    '1' => Ok(Code02::J71),
                    '2' => Ok(Code02::J72),
                    '9' => Ok(Code02::J79),
                    _ => Err(Code02::invalid(code01, ch)),
                }
            },
            Code01::C08 => {
                match ch {
                    '1' => Ok(Code02::K81),
                    '9' => Ok(Code02::K89),
                    _ => Err(Code02::invalid(code01, ch)),
                }
            },
            Code01::C09 => {
                match ch {
                    '1' => Ok(Code02::L91),
                    '2' => Ok(Code02::L92),
                    '3' => Ok(Code02::L93),
                    _ => Err(Code02::invalid(code01, ch)),
                }
            },
            Code01::C0A => {
                match ch {
                    '1' => Ok(Code02::MA1),
                    '9' => Ok(Code02::MA9),
                    _ => Err(Code02::invalid(code01, ch)),
                }
            },
            Code01::C0N => {
                match ch {
                    '1' => Ok(Code02::NN1),
                    '2' => Ok(Code02::NN2),
                    '3' => Ok(Code02::NN3),
                    '9' => Ok(Code02::NN9),
                    _ => Err(Code02::invalid(code01, ch)),
                }
            },
            Code01::C0Y => {
                match ch {
                    '1' => Ok(Code02::P01),
                    _ => Err(Code02::invalid(code01, ch)),
                }
            },
        }
    }

    /// The error reported when a character is outside an authority's
    /// permitted subset.
    fn invalid(code01: &Code01, ch: char) -> (e: UsciError)
        ensures
            e matches UsciError::InvalidSegment(seg, raw, parent) && seg == 2 && raw@ == seq![ch]
                && parent == Some(code01_code_spec(*code01)),
    {
        UsciError::InvalidSegment(2, char_string(ch), Some(code01.get_code()))
    }

    /// The category at a given index of an authority's table.
    pub fn from_index(code01: &Code01, i: usize) -> (c: Code02)
        requires
            i < code02_count_spec(*code01),
        ensures
            c == code02_at_spec(*code01, i as int),
    {
        match code01 {
            Code01::C01 => {
                if i == 0 { Code02::D11 } else if i == 1 { Code02::D12 }
                else if i == 2 { Code02::D13 } else { Code02::D19 }
            },
            Code01::C02 => if i == 0 { Code02::E21 } else { Code02::E29 },
            Code01::C03 => {
                if i == 0 { Code02::F31 } else if i == 1 { Code02::F32 }
                else if i == 2 { Code02::F33 } else if i == 3 { Code02::F34 }
                else if i == 4 { Code02::F35 } else { Code02::F39 }
            },
            Code01::C04 => if i == 0 { Code02::G41 } else { Code02::G49 },
            Code01::C05 => {
                if i == 0 { Code02::H51 } else if i == 1 { Code02::H52 }
                else if i == 2 { Code02::H53 } else { Code02::H59 }
            },
            Code01::C06 => {
                if i == 0 { Code02::I61 } else if i == 1 { Code02::I62 } else { Code02::I69 }
            },
            Code01::C07 => {
                if i == 0 { Code02::J71 } else if i == 1 { Code02::J72 } else { Code02::J79 }
            },
            Code01::C08 => if i == 0 { Code02::K81 } else { Code02::K89 },
            Code01::C09 => {
                if i == 0 { Code02::L91 } else if i == 1 { Code02::L92 } else { Code02::L93 }
            },
            Code01::C0A => if i == 0 { Code02::MA1 } else { Code02::MA9 },
            Code01::C0N => {
                if i == 0 { Code02::NN1 } else if i == 1 { Code02::NN2 }
                else if i == 2 { Code02::NN3 } else { Code02::NN9 }
            },
            Code01::C0Y => Code02::P01,
        }
    }

    /// Draws a category over the subset permitted by the given
    /// authority, by reducing one random word modulo the subset size;
    /// the draw never leaves that subset.
    pub fn from_random(code01: &Code01, rng: &mut rand::rngs::ThreadRng) -> (c: Code02)
        ensures
            code02_parent_spec(c) == *code01,
            exists|i: int| 0 <= i < code02_count_spec(*code01) && c == #[trigger] code02_at_spec(
                *code01,
                i,
            ),
    {
        let count: usize = match code01 {
            Code01::C01 => 4,
            Code01::C02 => 2,
            Code01::C03 => 6,
            Code01::C04 => 2,
            Code01::C05 => 4,
            Code01::C06 => 3,
            Code01::C07 => 3,
            Code01::C08 => 2,
            Code01::C09 => 3,
            Code01::C0A => 2,
            Code01::C0N => 4,
            Code01::C0Y => 1,
        };
        let i = random_usize(rng) % count;
        let c = Code02::from_index(code01, i);
        proof {
            lemma_code02_at_parent(*code01, i as int);
            assert(0 <= (i as int) && (i as int) < code02_count_spec(*code01) && c
                == code02_at_spec(*code01, i as int));
        }
        c
    }
}

/// Parsing inverts serialization for the category segment: every value
/// is recovered from its own code character under its own authority.
pub proof fn lemma_code02_roundtrip(c: Code02)
    ensures
        code02_from_spec(code02_parent_spec(c), code02_code_spec(c)) == Some(c),
{
}

/// A successfully parsed category serializes back to the parsed
/// character, and belongs to the authority it was parsed under.
pub proof fn lemma_code02_char(p: Code01, ch: char)
    ensures
        code02_from_spec(p, ch) matches Some(c) ==> code02_code_spec(c) == ch
            && code02_parent_spec(c) == p,
{
}

/// Every category code character is a decimal digit.
pub proof fn lemma_code02_code_numeric(c: Code02)
    ensures
        is_numeric_char(code02_code_spec(c)),
{
}

/// Each authority's table stays within that authority's subset.
pub proof fn lemma_code02_at_parent(p: Code01, i: int)
    requires
        0 <= i < code02_count_spec(p),
    ensures
        code02_parent_spec(code02_at_spec(p, i)) == p,
{
}

/// Every category value stands at some index of its authority's table.
pub proof fn lemma_code02_variant_indexed(c: Code02)
    ensures
        exists|i: int|
            0 <= i < code02_count_spec(code02_parent_spec(c)) && c == #[trigger] code02_at_spec(
                code02_parent_spec(c),
                i,
            ),
{
    match c {
        Code02::D11 => assert(c == code02_at_spec(code02_parent_spec(c), 0)),
        Code02::D12 => assert(c == code02_at_spec(code02_parent_spec(c), 1)),
        Code02::D13 => assert(c == code02_at_spec(code02_parent_spec(c), 2)),
        Code02::D19 => assert(c == code02_at_spec(code02_parent_spec(c), 3)),
        Code02::E21 => assert(c == code02_at_spec(code02_parent_spec(c), 0)),
        Code02::E29 => assert(c == code02_at_spec(code02_parent_spec(c), 1)),
        Code02::F31 => assert(c == code02_at_spec(code02_parent_spec(c), 0)),
        Code02::F32 => assert(c == code02_at_spec(code02_parent_spec(c), 1)),
        Code02::F33 => assert(c == code02_at_spec(code02_parent_spec(c), 2)),
        Code02::F34 => assert(c == code02_at_spec(code02_parent_spec(c), 3)),
        Code02::F35 => assert(c == code02_at_spec(code02_parent_spec(c), 4)),
        Code02::F39 => assert(c == code02_at_spec(code02_parent_spec(c), 5)),
        Code02::G41 => assert(c == code02_at_spec(code02_parent_spec(c), 0)),
        Code02::G49 => assert(c == code02_at_spec(code02_parent_spec(c), 1)),
        Code02::H51 => assert(c == code02_at_spec(code02_parent_spec(c), 0)),
        Code02::H52 => assert(c == code02_at_spec(code02_parent_spec(c), 1)),
        Code02::H53 => assert(c == code02_at_spec(code02_parent_spec(c), 2)),
        Code02::H59 => assert(c == code02_at_spec(code02_parent_spec(c), 3)),
        Code02::I61 => assert(c == code02_at_spec(code02_parent_spec(c), 0)),
        Code02::I62 => assert(c == code02_at_spec(code02_parent_spec(c), 1)),
        Code02::I69 => assert(c == code02_at_spec(code02_parent_spec(c), 2)),
        Code02::J71 => assert(c == code02_at_spec(code02_parent_spec(c), 0)),
        Code02::J72 => assert(c == code02_at_spec(code02_parent_spec(c), 1)),
        Code02::J79 => assert(c == code02_at_spec(code02_parent_spec(c), 2)),
        Code02::K81 => assert(c == code02_at_spec(code02_parent_spec(c), 0)),
        Code02::K89 => assert(c == code02_at_spec(code02_parent_spec(c), 1)),
        Code02::L91 => assert(c == code02_at_spec(code02_parent_spec(c), 0)),
        Code02::L92 => assert(c == code02_at_spec(code02_parent_spec(c), 1)),
        Code02::L93 => assert(c == code02_at_spec(code02_parent_spec(c), 2)),
        Code02::MA1 => assert(c == code02_at_spec(code02_parent_spec(c), 0)),
        Code02::MA9 => assert(c == code02_at_spec(code02_parent_spec(c), 1)),
        Code02::NN1 => assert(c == code02_at_spec(code02_parent_spec(c), 0)),
        Code02::NN2 => assert(c == code02_at_spec(code02_parent_spec(c), 1)),
        Code02::NN3 => assert(c == code02_at_spec(code02_parent_spec(c), 2)),
        Code02::NN9 => assert(c == code02_at_spec(code02_parent_spec(c), 3)),
        Code02::P01 => assert(c == code02_at_spec(code02_parent_spec(c), 0)),
    }
}

} // verus!
