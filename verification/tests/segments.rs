use usci::category::Code02;
use usci::common::UsciError;
use usci::segments::{Code01, Code03, Code04};

const AUTHORITIES: [char; 12] = ['1', '2', '3', '4', '5', '6', '7', '8', '9', 'A', 'N', 'Y'];

fn permitted(parent: char) -> &'static [char] {
    match parent {
        '1' => &['1', '2', '3', '9'],
        '2' => &['1', '9'],
        '3' => &['1', '2', '3', '4', '5', '9'],
        '4' => &['1', '9'],
        '5' => &['1', '2', '3', '9'],
        '6' => &['1', '2', '9'],
        '7' => &['1', '2', '9'],
        '8' => &['1', '9'],
        '9' => &['1', '2', '3'],
        'A' => &['1', '9'],
        'N' => &['1', '2', '3', '9'],
        'Y' => &['1'],
        _ => unreachable!(),
    }
}

#[test]
fn authority_parse_accepts_exactly_its_alphabet() {
    for ch in AUTHORITIES {
        let c = Code01::from_char(ch).unwrap();
        assert_eq!(c.get_code(), ch);
    }
    for ch in ['0', 'B', 'I', 'Z', 'a', 'y', ' '] {
        assert_eq!(
            Code01::from_char(ch).unwrap_err(),
            UsciError::InvalidSegment(1, ch.to_string(), None)
        );
    }
}

#[test]
fn category_parse_accepts_exactly_the_parent_subset() {
    let mut candidates: Vec<char> = ('0'..='9').collect();
    candidates.extend('A'..='Z');
    candidates.extend('a'..='z');
    for parent_ch in AUTHORITIES {
        let parent = Code01::from_char(parent_ch).unwrap();
        let allowed = permitted(parent_ch);
        for &ch in candidates.iter() {
            match Code02::from_char(&parent, ch) {
                Ok(c) => {
                    assert!(allowed.contains(&ch));
                    assert_eq!(c.get_code(), ch);
                }
                Err(e) => {
                    assert!(!allowed.contains(&ch));
                    assert_eq!(
                        e,
                        UsciError::InvalidSegment(2, ch.to_string(), Some(parent_ch))
                    );
                }
            }
        }
    }
}

#[test]
fn category_random_reaches_the_whole_parent_subset() {
    let mut rng = rand::thread_rng();
    for parent_ch in AUTHORITIES {
        let parent = Code01::from_char(parent_ch).unwrap();
        let allowed = permitted(parent_ch);
        let mut seen: Vec<char> = Vec::new();
        for _ in 0..300 {
            let drawn = Code02::from_random(&parent, &mut rng);
            let code = drawn.get_code();
            assert!(allowed.contains(&code));
            assert!(Code02::from_char(&parent, code).is_ok());
            if !seen.contains(&code) {
                seen.push(code);
            }
        }
        assert_eq!(seen.len(), allowed.len());
    }
}

#[test]
fn category_code_serializes_to_accepted_character() {
    // The characters a category value serializes to are accepted back
    // under the same authority, including the single-character subsets.
    let diplomatic = Code01::from_char('2').unwrap();
    let other = Code02::from_char(&diplomatic, '9').unwrap();
    assert_eq!(other.get_code(), '9');
    assert_eq!(other.get_type(), "其他");
    let commerce = Code01::from_char('9').unwrap();
    let cooperative = Code02::from_char(&commerce, '3').unwrap();
    assert_eq!(cooperative.get_code(), '3');
    assert_eq!(cooperative.get_type(), "农民专业合作社");
}

#[test]
fn region_code_validation() {
    let ok = Code03::new("110000").unwrap();
    assert_eq!(ok.to_string(), "110000");
    assert_eq!(
        Code03::new("11000").unwrap_err(),
        UsciError::InvalidSegment(3, "11000".to_string(), None)
    );
    assert_eq!(
        Code03::new("1100000").unwrap_err(),
        UsciError::InvalidSegment(3, "1100000".to_string(), None)
    );
    assert_eq!(
        Code03::new("11000A").unwrap_err(),
        UsciError::InvalidSegment(3, "11000A".to_string(), None)
    );
    assert!(Code03::is_valid_char('0'));
    assert!(Code03::is_valid_char('9'));
    assert!(!Code03::is_valid_char('A'));
    assert!(!Code03::is_valid_char('a'));
}

#[test]
fn organization_code_validation() {
    let ok = Code04::new("MA2H25941").unwrap();
    assert_eq!(ok.to_string(), "MA2H25941");
    assert_eq!(
        Code04::new("MA2H2594").unwrap_err(),
        UsciError::InvalidSegment(4, "MA2H2594".to_string(), None)
    );
    assert_eq!(
        Code04::new("MA2H2594I").unwrap_err(),
        UsciError::InvalidSegment(4, "MA2H2594I".to_string(), None)
    );
    for ch in ['0', '9', 'A', 'H', 'J', 'N', 'P', 'R', 'T', 'U', 'W', 'Y'] {
        assert!(Code04::is_valid_char(ch));
    }
    for ch in ['I', 'O', 'S', 'V', 'Z', 'a', 'z', ' '] {
        assert!(!Code04::is_valid_char(ch));
    }
}

#[test]
fn random_segments_are_well_formed() {
    let mut rng = rand::thread_rng();
    for _ in 0..20 {
        let c3 = Code03::from_random(&mut rng);
        let text3 = c3.to_string();
        assert_eq!(text3.chars().count(), 6);
        assert!(text3.chars().all(Code03::is_valid_char));
        let c4 = Code04::from_random(&mut rng);
        let text4 = c4.to_string();
        assert_eq!(text4.chars().count(), 9);
        assert!(text4.chars().all(Code04::is_valid_char));
    }
}
