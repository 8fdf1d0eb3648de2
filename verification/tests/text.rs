use minter::text::decimal_string;

#[test]
fn decimal_text_of_numbers() {
    assert_eq!(decimal_string(0), "0");
    assert_eq!(decimal_string(10), "10");
    assert_eq!(decimal_string(9_876_543_210), "9876543210");
    assert_eq!(decimal_string(u128::MAX), u128::MAX.to_string());
}
