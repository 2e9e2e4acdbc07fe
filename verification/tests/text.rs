use spt::text::parse_u16;

#[test]
fn decimal_numbers() {
    assert_eq!(parse_u16("0"), Some(0));
    assert_eq!(parse_u16("7"), Some(7));
    assert_eq!(parse_u16("+7"), Some(7));
    assert_eq!(parse_u16("007"), Some(7));
    assert_eq!(parse_u16("65535"), Some(65535));
    assert_eq!(parse_u16("000000000000000000065535"), Some(65535));
    assert_eq!(parse_u16("10000"), Some(10000));
    assert_eq!(parse_u16("65536"), None);
    assert_eq!(parse_u16("99999999999999999999"), None);
    assert_eq!(parse_u16(""), None);
    assert_eq!(parse_u16("+"), None);
    assert_eq!(parse_u16("-1"), None);
    assert_eq!(parse_u16("-0"), None);
    assert_eq!(parse_u16("++1"), None);
    assert_eq!(parse_u16(" 1"), None);
    assert_eq!(parse_u16("1 "), None);
    assert_eq!(parse_u16("1_0"), None);
    assert_eq!(parse_u16("1a"), None);
    assert_eq!(parse_u16("１"), None);
    assert_eq!(parse_u16("1é"), None);
}

#[test]
fn decimal_numbers_agree_with_std() {
    let texts = ["0", "12", "+12", "65535", "65536", "", "+", "-3", "3x", " 3", "0003", "٣"];
    for text in texts {
        assert_eq!(parse_u16(text), text.parse::<u16>().ok(), "for {:?}", text);
    }
}
