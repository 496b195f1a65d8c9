use mvdist::text::append_decimal;

#[test]
fn decimal_of_small_numbers() {
    for x in -1000..=1000 {
        assert_eq!(append_decimal(String::new(), x), format!("{}", x));
    }
}

#[test]
fn decimal_of_the_extremes() {
    assert_eq!(append_decimal(String::new(), i32::MAX), "2147483647");
    assert_eq!(append_decimal(String::new(), i32::MIN), "-2147483648");
    assert_eq!(append_decimal(String::new(), i32::MIN + 1), "-2147483647");
}

#[test]
fn decimal_of_powers_of_ten() {
    let mut x: i32 = 1;
    for _ in 0..9 {
        x *= 10;
        assert_eq!(append_decimal(String::new(), x), format!("{}", x));
        assert_eq!(append_decimal(String::new(), x - 1), format!("{}", x - 1));
        assert_eq!(append_decimal(String::new(), -x), format!("{}", -x));
    }
}

#[test]
fn decimal_is_appended_to_what_is_there() {
    assert_eq!(append_decimal(String::from("code "), 42), "code 42");
    assert_eq!(append_decimal(String::from("code "), -42), "code -42");
}
