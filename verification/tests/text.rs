use netmic::text::{
    is_blank, is_off_switch, is_on_switch, parse_unsigned, str_equals, switch_default_off,
    switch_default_on, trim, u64_to_decimal,
};

#[test]
fn decimal_round_trip() {
    for n in [0_u64, 7, 10, 99, 1234, 43000, u64::MAX] {
        let s = u64_to_decimal(n);
        assert_eq!(s, n.to_string());
        assert_eq!(parse_unsigned(&s, u64::MAX), Some(n));
    }
}

#[test]
fn parse_follows_from_str() {
    for s in ["", "+", "-1", "12a", " 1", "1 ", "+7", "007", "18446744073709551615", "18446744073709551616", "65535", "65536", "０"] {
        assert_eq!(parse_unsigned(s, u64::MAX), s.parse::<u64>().ok(), "u64 {s:?}");
        assert_eq!(parse_unsigned(s, 65535).map(|v| v as u16), s.parse::<u16>().ok(), "u16 {s:?}");
    }
}

#[test]
fn trim_matches_std() {
    for s in ["", "  ", " a b ", "\t\n x\r", "\u{3000}y\u{a0}", "z"] {
        assert_eq!(trim(s), s.trim());
        assert_eq!(is_blank(s), s.trim().is_empty());
    }
}

#[test]
fn switches() {
    for s in ["1", "true", "on", "yes"] {
        assert!(is_on_switch(s));
        assert!(switch_default_off(Some(s)));
    }
    for s in ["0", "false", "off", "no"] {
        assert!(is_off_switch(s));
        assert!(!switch_default_on(Some(s)));
    }
    assert!(!switch_default_off(None));
    assert!(switch_default_on(None));
    assert!(!switch_default_off(Some("TRUE")));
    assert!(switch_default_on(Some("maybe")));
    assert!(str_equals("abc", "abc"));
    assert!(!str_equals("abc", "abd"));
}
