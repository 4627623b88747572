use password_policy::classes::{classify, has_class, ByteClass};
use password_policy::coverage::{coverage_policy, is_valid};
use password_policy::policy::evaluate;

#[test]
fn coverage_accepts_all_four_classes() {
    assert!(is_valid(b"paSsword$123"));
}

#[test]
fn coverage_needs_uppercase() {
    assert!(!is_valid(b"password$123"));
}

#[test]
fn coverage_needs_lowercase() {
    assert!(!is_valid(b"PASSWORD$123"));
}

#[test]
fn coverage_needs_a_digit() {
    assert!(!is_valid(b"paSsword$%@#"));
}

#[test]
fn coverage_needs_a_symbol() {
    assert!(!is_valid(b"paSsword123"));
}

#[test]
fn coverage_rejects_the_empty_password() {
    assert!(!is_valid(b""));
}

#[test]
fn coverage_has_no_length_rule() {
    assert!(is_valid(b"aA1$"));
    assert!(is_valid(b"pSwrd$12"));
    assert!(!is_valid(b"aA1"));
}

#[test]
fn coverage_counts_any_other_byte_as_symbol() {
    assert!(is_valid(b"aA1 "));
    assert!(is_valid(&[b'a', b'A', b'1', 0xff]));
    assert!(is_valid(&[0x00, b'z', b'Z', b'9']));
    assert!(is_valid(b"Password1234\n"));
    assert!(!is_valid(b"Password1234"));
}

#[test]
fn coverage_gives_a_verdict_on_arbitrary_bytes() {
    let all: Vec<u8> = (0u8..=255).collect();
    assert!(is_valid(&all));
    assert!(!is_valid(&[0xff; 64]));
    assert!(!is_valid(&[0xc3, 0x28, 0xa0, 0xa1]));
    for _ in 0..3 {
        assert!(is_valid(&all));
    }
}

#[test]
fn classes_have_exact_bounds() {
    assert_eq!(classify(b'A'), ByteClass::Upper);
    assert_eq!(classify(b'Z'), ByteClass::Upper);
    assert_eq!(classify(b'@'), ByteClass::Other);
    assert_eq!(classify(b'['), ByteClass::Other);
    assert_eq!(classify(b'a'), ByteClass::Lower);
    assert_eq!(classify(b'z'), ByteClass::Lower);
    assert_eq!(classify(b'`'), ByteClass::Other);
    assert_eq!(classify(b'{'), ByteClass::Other);
    assert_eq!(classify(b'0'), ByteClass::Digit);
    assert_eq!(classify(b'9'), ByteClass::Digit);
    assert_eq!(classify(b'/'), ByteClass::Other);
    assert_eq!(classify(b':'), ByteClass::Other);
    assert_eq!(classify(0), ByteClass::Other);
    assert_eq!(classify(0x80), ByteClass::Other);
    assert_eq!(classify(0xff), ByteClass::Other);
}

#[test]
fn every_byte_has_one_class() {
    let mut upper = 0;
    let mut lower = 0;
    let mut digit = 0;
    let mut other = 0;
    for b in 0u8..=255 {
        match classify(b) {
            ByteClass::Upper => upper += 1,
            ByteClass::Lower => lower += 1,
            ByteClass::Digit => digit += 1,
            ByteClass::Other => other += 1,
        }
    }
    assert_eq!((upper, lower, digit, other), (26, 26, 10, 194));
}

#[test]
fn has_class_finds_a_byte_anywhere() {
    assert!(has_class(b"abcX", ByteClass::Upper));
    assert!(has_class(b"Xabc", ByteClass::Upper));
    assert!(!has_class(b"abc", ByteClass::Upper));
    assert!(!has_class(b"", ByteClass::Other));
    assert!(has_class(b"ab cd", ByteClass::Other));
    assert!(has_class(b"ab7cd", ByteClass::Digit));
    assert!(!has_class(b"AB7", ByteClass::Lower));
}

#[test]
fn coverage_policy_agrees_with_the_one_pass_check() {
    let policy = coverage_policy();
    assert_eq!(policy.criteria().len(), 4);
    let all: Vec<u8> = (0u8..=255).collect();
    let samples: [&[u8]; 9] = [
        b"paSsword$123",
        b"password$123",
        b"PASSWORD$123",
        b"paSsword$%@#",
        b"paSsword123",
        b"",
        b"aA1$",
        &[0xff, b'a', b'A', b'1'],
        &all,
    ];
    for password in samples {
        assert_eq!(evaluate(password, &policy), is_valid(password));
    }
    assert!(evaluate(b"aA1$", &policy));
    assert!(!evaluate(b"aA1", &policy));
}
