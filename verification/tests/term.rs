use verband::term::parse_years;

#[test]
fn plain_digits_are_a_term() {
    assert_eq!(parse_years("30"), Some(30));
    assert_eq!(parse_years("0"), Some(0));
    assert_eq!(parse_years("1"), Some(1));
    assert_eq!(parse_years("10"), Some(10));
    assert_eq!(parse_years("4294967295"), Some(u32::MAX));
}

#[test]
fn a_leading_plus_is_allowed() {
    assert_eq!(parse_years("+30"), Some(30));
    assert_eq!(parse_years("+0"), Some(0));
    assert_eq!(parse_years("+4294967295"), Some(u32::MAX));
}

#[test]
fn leading_zeros_do_not_count() {
    assert_eq!(parse_years("007"), Some(7));
    assert_eq!(parse_years("+00000000000000000000000000000030"), Some(30));
    assert_eq!(parse_years("0000000000004294967295"), Some(u32::MAX));
    assert_eq!(parse_years("0000000000004294967296"), None);
}

#[test]
fn a_term_over_32_bits_is_none() {
    assert_eq!(parse_years("4294967296"), None);
    assert_eq!(parse_years("4294967300"), None);
    assert_eq!(parse_years("42949672950"), None);
    assert_eq!(parse_years("99999999999999999999999999999999999999"), None);
}

#[test]
fn text_without_digits_is_none() {
    assert_eq!(parse_years(""), None);
    assert_eq!(parse_years("+"), None);
    assert_eq!(parse_years("-"), None);
    assert_eq!(parse_years("years"), None);
}

#[test]
fn anything_but_digits_is_none() {
    for text in [
        "-1", "-0", "+-3", "++3", "3+", "3.5", "30.0", "3e1", " 30", "30 ", "3 0", "30\n",
        "0x1e", "3_0", "thirty", "\u{ff13}\u{ff10}", "3\u{660}", "\u{e9}", "+\u{1f600}",
    ] {
        assert_eq!(parse_years(text), None, "{:?}", text);
    }
}

#[test]
fn terms_are_read_as_the_standard_library_reads_them() {
    let texts = [
        "", "+", "-", "0", "+0", "-0", "1", "12", "30", "+30", "-30", "030", "3 0", " 30",
        "30 ", "3.0", "3e0", "4294967294", "4294967295", "4294967296", "+4294967295",
        "+4294967296", "18446744073709551616", "00000000001", "a", "1a", "a1", "\u{0663}",
        "1\u{0}", "\u{0}1", "/", ":", "09", "9:", "+/",
    ];
    for text in texts {
        assert_eq!(parse_years(text), text.parse::<u32>().ok(), "{:?}", text);
    }
}
