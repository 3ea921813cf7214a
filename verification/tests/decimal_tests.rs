use todo_list::decimal::decimal_text;

#[test]
fn decimal_text_of_zero() {
    assert_eq!(decimal_text(0), "0");
}

#[test]
fn decimal_text_of_single_digits() {
    let expected = ["0", "1", "2", "3", "4", "5", "6", "7", "8", "9"];
    for (n, text) in expected.iter().enumerate() {
        assert_eq!(decimal_text(n), *text);
    }
}

#[test]
fn decimal_text_of_larger_numbers() {
    assert_eq!(decimal_text(10), "10");
    assert_eq!(decimal_text(42), "42");
    assert_eq!(decimal_text(100), "100");
    assert_eq!(decimal_text(1009), "1009");
    assert_eq!(decimal_text(9_876_543_210), "9876543210");
}

#[test]
fn decimal_text_agrees_with_std() {
    for n in 0..2000usize {
        assert_eq!(decimal_text(n), n.to_string());
    }
    assert_eq!(decimal_text(usize::MAX), usize::MAX.to_string());
}
