use wmdash::text::pad_left;
use wmdash::text::pad_right;
use wmdash::text::u64_to_string;
use wmdash::text::zero_pad_left;

#[test]
fn decimal_rendering() {
    assert_eq!(u64_to_string(0), "0");
    assert_eq!(u64_to_string(7), "7");
    assert_eq!(u64_to_string(10), "10");
    assert_eq!(u64_to_string(907), "907");
    assert_eq!(u64_to_string(1000000), "1000000");
    assert_eq!(u64_to_string(u64::MAX), u64::MAX.to_string());
}

#[test]
fn padding() {
    assert_eq!(pad_right(&"ab".to_string(), 5), "ab   ");
    assert_eq!(pad_right(&"abcdef".to_string(), 5), "abcdef");
    assert_eq!(pad_left(&"ab".to_string(), 5), "   ab");
    assert_eq!(pad_left(&"abcdef".to_string(), 5), "abcdef");
    assert_eq!(zero_pad_left(&"7".to_string(), 3), "007");
    assert_eq!(zero_pad_left(&"1234".to_string(), 3), "1234");
    assert_eq!(pad_right(&"".to_string(), 3), "   ");
}
