use velox::encode_short_code;
use velox::generate_short_code;

#[test]
fn encode_small_values_exactly() {
    assert_eq!(encode_short_code(0), "0");
    assert_eq!(encode_short_code(9), "9");
    assert_eq!(encode_short_code(10), "A");
    assert_eq!(encode_short_code(35), "Z");
    assert_eq!(encode_short_code(36), "a");
    assert_eq!(encode_short_code(61), "z");
    assert_eq!(encode_short_code(62), "10");
    assert_eq!(encode_short_code(1337), "LZ");
    assert_eq!(encode_short_code(3843), "zz");
    assert_eq!(encode_short_code(3844), "100");
}

#[test]
fn encode_truncates_long_representations_to_eight() {
    assert_eq!(encode_short_code(u64::MAX), "LygHa16A");
    assert_eq!(encode_short_code(12345678901234567890), "EhzL6HwZ");
}

#[test]
fn generated_codes_are_short_and_base62() {
    for _ in 0..256 {
        let code = generate_short_code();
        assert!(!code.is_empty());
        assert!(code.len() <= 8);
        assert!(code.chars().all(|c| c.is_ascii_alphanumeric()));
    }
}
