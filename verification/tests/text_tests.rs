use bang_web::text::{decimal_string, parse_u16, str_eq};

#[test]
fn parse_u16_reads_plain_digits() {
    assert_eq!(parse_u16("8080"), Some(8080));
    assert_eq!(parse_u16("0"), Some(0));
    assert_eq!(parse_u16("00042"), Some(42));
    assert_eq!(parse_u16("65535"), Some(65535));
}

#[test]
fn parse_u16_takes_a_plus_sign() {
    assert_eq!(parse_u16("+7"), Some(7));
    assert_eq!(parse_u16("+"), None);
    assert_eq!(parse_u16("++7"), None);
}

#[test]
fn parse_u16_refuses_what_std_refuses() {
    for text in ["", "-1", "-0", "65536", "99999999999", " 1", "1 ", "1a", "x", "１"] {
        assert_eq!(parse_u16(text), text.parse::<u16>().ok(), "{text}");
        assert_eq!(parse_u16(text), None, "{text}");
    }
}

#[test]
fn parse_u16_agrees_with_std_on_every_number() {
    for n in 0..=u16::MAX {
        let text = n.to_string();
        assert_eq!(parse_u16(&text), Some(n));
        assert_eq!(parse_u16(&format!("+{text}")), Some(n));
    }
    for n in 65536u32..70000 {
        assert_eq!(parse_u16(&n.to_string()), None);
    }
}

#[test]
fn decimal_string_writes_like_to_string() {
    assert_eq!(decimal_string(0), "0");
    assert_eq!(decimal_string(7), "7");
    assert_eq!(decimal_string(10), "10");
    assert_eq!(decimal_string(8080), "8080");
    assert_eq!(decimal_string(65535), "65535");
    for n in (0..=u16::MAX).step_by(97) {
        assert_eq!(decimal_string(n), n.to_string());
    }
}

#[test]
fn decimal_string_reads_back() {
    for n in [0u16, 1, 9, 10, 99, 100, 12345, 65535] {
        assert_eq!(parse_u16(&decimal_string(n)), Some(n));
    }
}

#[test]
fn str_eq_compares_characters() {
    assert!(str_eq("", ""));
    assert!(str_eq("Bang", "Bang"));
    assert!(!str_eq("Bang", "bang"));
    assert!(!str_eq("Bang", "Bang "));
    assert!(str_eq("héllo", "héllo"));
    assert!(!str_eq("héllo", "hello"));
}
