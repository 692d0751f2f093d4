use cast_source::text::{starts_with, to_decimal};

#[test]
fn a_text_starts_with_its_own_beginning() {
    assert!(starts_with("https://example.com", "https://"));
    assert!(starts_with("https://", "https://"));
    assert!(starts_with("abc", ""));
    assert!(starts_with("", ""));
    assert!(starts_with("démo", "dé"));
}

#[test]
fn a_text_does_not_start_with_anything_else() {
    assert!(!starts_with("http://example.com", "https://"));
    assert!(!starts_with("https:/", "https://"));
    assert!(!starts_with("", "h"));
    assert!(!starts_with("Https://", "https://"));
    assert!(!starts_with("xhttps://", "https://"));
    assert!(!starts_with("demo", "dé"));
}

#[test]
fn numbers_are_written_in_decimal_without_leading_zeros() {
    assert_eq!(to_decimal(0), "0");
    assert_eq!(to_decimal(7), "7");
    assert_eq!(to_decimal(9), "9");
    assert_eq!(to_decimal(10), "10");
    assert_eq!(to_decimal(99), "99");
    assert_eq!(to_decimal(100), "100");
    assert_eq!(to_decimal(404), "404");
    assert_eq!(to_decimal(1000), "1000");
    assert_eq!(to_decimal(65535), "65535");
}

#[test]
fn decimal_agrees_with_the_standard_rendering() {
    let mut n: u16 = 0;
    loop {
        assert_eq!(to_decimal(n), format!("{}", n));
        if n == u16::MAX {
            break;
        }
        n += 1;
    }
}
