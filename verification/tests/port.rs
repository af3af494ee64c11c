use web_service::port::{parse_port, PortError};

#[test]
fn reads_plain_numbers() {
    assert_eq!(parse_port("8080"), Ok(8080));
    assert_eq!(parse_port("0"), Ok(0));
    assert_eq!(parse_port("1"), Ok(1));
    assert_eq!(parse_port("443"), Ok(443));
}

#[test]
fn reads_the_largest_port() {
    assert_eq!(parse_port("65535"), Ok(65535));
}

#[test]
fn rejects_the_number_after_the_largest_port() {
    assert_eq!(parse_port("65536"), Err(PortError::TooLarge));
    assert_eq!(parse_port("70000"), Err(PortError::TooLarge));
    assert_eq!(parse_port("99999999999999999999999999"), Err(PortError::TooLarge));
}

#[test]
fn accepts_a_leading_plus() {
    assert_eq!(parse_port("+80"), Ok(80));
    assert_eq!(parse_port("+0"), Ok(0));
    assert_eq!(parse_port("+65535"), Ok(65535));
}

#[test]
fn accepts_leading_zeros() {
    assert_eq!(parse_port("00080"), Ok(80));
    assert_eq!(parse_port("000000000000000000000065535"), Ok(65535));
}

#[test]
fn rejects_the_empty_text() {
    assert_eq!(parse_port(""), Err(PortError::Empty));
}

#[test]
fn rejects_a_sign_alone() {
    assert_eq!(parse_port("+"), Err(PortError::InvalidDigit));
    assert_eq!(parse_port("-"), Err(PortError::InvalidDigit));
}

#[test]
fn rejects_a_minus_sign() {
    assert_eq!(parse_port("-1"), Err(PortError::InvalidDigit));
    assert_eq!(parse_port("-0"), Err(PortError::InvalidDigit));
}

#[test]
fn rejects_other_characters() {
    assert_eq!(parse_port("80a"), Err(PortError::InvalidDigit));
    assert_eq!(parse_port("a80"), Err(PortError::InvalidDigit));
    assert_eq!(parse_port(" 80"), Err(PortError::InvalidDigit));
    assert_eq!(parse_port("80 "), Err(PortError::InvalidDigit));
    assert_eq!(parse_port("8_080"), Err(PortError::InvalidDigit));
    assert_eq!(parse_port("++80"), Err(PortError::InvalidDigit));
    assert_eq!(parse_port("8.0"), Err(PortError::InvalidDigit));
    assert_eq!(parse_port("0x50"), Err(PortError::InvalidDigit));
}

#[test]
fn rejects_digits_of_other_scripts() {
    assert_eq!(parse_port("\u{668}\u{660}"), Err(PortError::InvalidDigit));
    assert_eq!(parse_port("\u{ff18}\u{ff10}"), Err(PortError::InvalidDigit));
    assert_eq!(parse_port("80\u{e9}"), Err(PortError::InvalidDigit));
}

#[test]
fn first_failure_from_the_left_decides() {
    // The value is exceeded at the fifth digit, before the letter is met.
    assert_eq!(parse_port("99999x"), Err(PortError::TooLarge));
    // The letter is met while the digits before it still fit.
    assert_eq!(parse_port("6553x"), Err(PortError::InvalidDigit));
    assert_eq!(parse_port("65535x"), Err(PortError::InvalidDigit));
    assert_eq!(parse_port("65536x"), Err(PortError::TooLarge));
    assert_eq!(parse_port("x99999"), Err(PortError::InvalidDigit));
}

#[test]
fn diagnostics_have_their_texts() {
    assert_eq!(PortError::Empty.message(), "cannot parse integer from empty string");
    assert_eq!(PortError::InvalidDigit.message(), "invalid digit found in string");
    assert_eq!(PortError::TooLarge.message(), "number too large to fit in target type");
}

#[test]
fn agrees_with_the_standard_parser() {
    let texts = vec![
        "", "0", "1", "9", "10", "80", "8080", "65535", "65536", "65540", "99999", "100000",
        "+", "-", "+1", "-1", "+0", "-0", "++1", "+-1", "1+", "00000", "000001", "0000065535",
        "0000065536", "655350", "6553a", "65535a", "65536a", "a", "a65536", " 1", "1 ", "1_0",
        "1e3", "\u{663}", "\u{ff11}", "4294967296", "18446744073709551616", "+65535", "+65536", "12x45",
        "\u{0}", "1\u{0}", "\n", "80\n",
    ];
    for text in texts {
        let expected = text.parse::<u16>();
        let got = parse_port(text);
        match (&got, &expected) {
            (Ok(a), Ok(b)) => assert_eq!(a, b, "value for {:?}", text),
            (Err(e), Err(f)) => assert_eq!(e.message(), f.to_string(), "diagnostic for {:?}", text),
            _ => panic!("disagreement on {:?}: {:?} against {:?}", text, got, expected),
        }
    }
}

#[test]
fn agrees_with_the_standard_parser_on_every_number_up_to_seventy_thousand() {
    let mut n: u32 = 0;
    while n <= 70000 {
        let text = n.to_string();
        let expected = text.parse::<u16>();
        let got = parse_port(&text);
        match (got, expected) {
            (Ok(a), Ok(b)) => assert_eq!(a, b),
            (Err(e), Err(f)) => assert_eq!(e.message(), f.to_string()),
            _ => panic!("disagreement on {}", text),
        }
        n += 7;
    }
}
