use usci::category::Code02;
use usci::common::UsciError;
use usci::segments::{Code01, Code03, Code04};
use usci::usci::{generate_one, UsciCode};

const ALPHANUM: [char; 31] = [
    '0', '1', '2', '3', '4', '5', '6', '7', '8', '9', 'A', 'B', 'C', 'D', 'E', 'F', 'G', 'H', 'J',
    'K', 'L', 'M', 'N', 'P', 'Q', 'R', 'T', 'U', 'W', 'X', 'Y',
];

const VALID: &str = "111100000000000XYH";

#[test]
fn concrete_vector_checksum() {
    let code01 = Code01::from_char('1').unwrap();
    let code02 = Code02::from_char(&code01, '1').unwrap();
    let code03 = Code03::new("110000").unwrap();
    let code04 = Code04::new("0000000XY").unwrap();
    let c5 = UsciCode::calculate_code05(&code01, &code02, &code03, &code04).unwrap();
    assert_eq!(c5, 'H');
}

#[test]
fn concrete_vector_round_trip() {
    let u = UsciCode::from_str(VALID).unwrap();
    assert_eq!(u.code01, Code01::C01);
    assert_eq!(u.code01.get_type(), "机构编制");
    assert_eq!(u.code02, Code02::D11);
    assert_eq!(u.code02.get_type(), "机关");
    assert_eq!(u.code03.to_string(), "110000");
    assert_eq!(u.code04.to_string(), "0000000XY");
    assert_eq!(u.code05.code, 'H');
    assert_eq!(u.get_code(), VALID);
}

#[test]
fn generated_codes_round_trip() {
    let mut rng = rand::thread_rng();
    for _ in 0..50 {
        let u = UsciCode::from_random(&mut rng);
        let text = u.get_code();
        assert_eq!(text.chars().count(), 18);
        let v = UsciCode::from_str(&text).unwrap();
        assert_eq!(u.code01, v.code01);
        assert_eq!(u.code02, v.code02);
        assert_eq!(u.code03.to_string(), v.code03.to_string());
        assert_eq!(u.code04.to_string(), v.code04.to_string());
        assert_eq!(u.code05.code, v.code05.code);
        assert_eq!(v.get_code(), text);
    }
}

#[test]
fn generate_one_yields_valid_text() {
    let mut rng = rand::thread_rng();
    for _ in 0..20 {
        let text = generate_one(&mut rng);
        assert_eq!(text.chars().count(), 18);
        assert!(UsciCode::from_str(&text).is_ok());
    }
}

#[test]
fn checksum_is_deterministic() {
    let code01 = Code01::from_char('N').unwrap();
    let code02 = Code02::from_char(&code01, '2').unwrap();
    let code03 = Code03::new("331001").unwrap();
    let code04 = Code04::new("MA2H25941").unwrap();
    let first = UsciCode::calculate_code05(&code01, &code02, &code03, &code04).unwrap();
    let second = UsciCode::calculate_code05(&code01, &code02, &code03, &code04).unwrap();
    assert_eq!(first, second);
}

#[test]
fn wrong_length_is_reported() {
    let seventeen = "11110000000000XYH";
    assert_eq!(seventeen.chars().count(), 17);
    assert_eq!(
        UsciCode::from_str(seventeen).unwrap_err(),
        UsciError::WrongLength(17)
    );
    let nineteen = "1111000000000000XYH";
    assert_eq!(nineteen.chars().count(), 19);
    assert_eq!(
        UsciCode::from_str(nineteen).unwrap_err(),
        UsciError::WrongLength(19)
    );
    assert_eq!(UsciCode::from_str("").unwrap_err(), UsciError::WrongLength(0));
}

#[test]
fn invalid_authority_is_reported() {
    assert_eq!(
        UsciCode::from_str("011100000000000XYH").unwrap_err(),
        UsciError::InvalidSegment(1, "0".to_string(), None)
    );
}

#[test]
fn invalid_category_carries_parent() {
    assert_eq!(
        UsciCode::from_str("141100000000000XYH").unwrap_err(),
        UsciError::InvalidSegment(2, "4".to_string(), Some('1'))
    );
}

#[test]
fn lowercase_region_code_is_rejected() {
    assert_eq!(
        UsciCode::from_str("11a100000000000XYH").unwrap_err(),
        UsciError::InvalidSegment(3, "a10000".to_string(), None)
    );
}

#[test]
fn excluded_letters_in_organization_code_are_rejected() {
    for bad in ['I', 'O', 'S', 'V', 'Z', 'x', 'y'] {
        let text: String = VALID
            .chars()
            .enumerate()
            .map(|(i, c)| if i == 15 { bad } else { c })
            .collect();
        let expected_raw: String = text.chars().skip(8).take(9).collect();
        assert_eq!(
            UsciCode::from_str(&text).unwrap_err(),
            UsciError::InvalidSegment(4, expected_raw, None)
        );
    }
}

#[test]
fn flipping_final_character_always_mismatches() {
    for c in ALPHANUM {
        if c == 'H' {
            continue;
        }
        let mut text: String = VALID.chars().take(17).collect();
        text.push(c);
        assert_eq!(
            UsciCode::from_str(&text).unwrap_err(),
            UsciError::ChecksumMismatch('H', c)
        );
    }
}

#[test]
fn flipping_a_payload_character_changes_the_checksum() {
    // Replace the 'Y' at payload position 16 by 'A': the expected
    // checksum moves from 'H' to 'K', so the old final character no
    // longer matches.
    assert_eq!(
        UsciCode::from_str("111100000000000XAH").unwrap_err(),
        UsciError::ChecksumMismatch('K', 'H')
    );
    let code01 = Code01::from_char('1').unwrap();
    let code02 = Code02::from_char(&code01, '1').unwrap();
    let code03 = Code03::new("110000").unwrap();
    let flipped = Code04::new("0000000XA").unwrap();
    let c5 = UsciCode::calculate_code05(&code01, &code02, &code03, &flipped).unwrap();
    assert_ne!(c5, 'H');
    assert_eq!(c5, 'K');
}

#[test]
fn char_weight_matches_rank_times_weight() {
    assert_eq!(UsciCode::calculate_char_weight('0', 0).unwrap(), 0);
    assert_eq!(UsciCode::calculate_char_weight('1', 0).unwrap(), 1);
    assert_eq!(UsciCode::calculate_char_weight('X', 15).unwrap(), 870);
    assert_eq!(UsciCode::calculate_char_weight('Y', 16).unwrap(), 840);
    assert_eq!(
        UsciCode::calculate_char_weight('I', 3).unwrap_err(),
        UsciError::ChecksumInputInvalid
    );
}

#[test]
fn describe_lists_codes_and_labels() {
    let u = UsciCode::from_str(VALID).unwrap();
    let pairs = u.describe();
    assert_eq!(pairs.len(), 5);
    assert_eq!(pairs[0], ("1".to_string(), "机构编制".to_string()));
    assert_eq!(pairs[1], ("1".to_string(), "机关".to_string()));
    assert_eq!(
        pairs[2],
        ("110000".to_string(), "登记管理机关行政区划码".to_string())
    );
    assert_eq!(
        pairs[3],
        ("0000000XY".to_string(), "组织机构代码".to_string())
    );
    assert_eq!(pairs[4], ("H".to_string(), "校验码".to_string()));
}

#[test]
fn segment_type_labels() {
    assert_eq!(Code01::code_type(), "登记管理部门");
    assert_eq!(Code02::code_type(), "机构类别");
    assert_eq!(Code03::code_type(), "登记管理机关行政区划码");
    assert_eq!(Code04::code_type(), "组织机构代码");
    assert_eq!(usci::segments::Code05::code_type(), "校验码");
}
