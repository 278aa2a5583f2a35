use eth_wallet_generator::matcher::{
    clean_matches, clean_ratio_ppm, criterion_matches, prefix_matches, Criterion, PPM,
};

#[test]
fn prefix_match_is_case_insensitive() {
    let address = "0x1337abcabcabcabcabcabcabcabcabcabcabcabc";
    assert!(prefix_matches(address, "0x1337"));
    assert!(prefix_matches(address, "0X1337"));
    assert!(prefix_matches(&address.to_uppercase(), "0x1337"));
}

#[test]
fn prefix_match_is_anchored() {
    let address = "0xabc1337abcabcabcabcabcabcabcabcabcabcab";
    assert!(!prefix_matches(address, "0x1337"));
    assert!(!prefix_matches(address, "1337"));
}

#[test]
fn prefix_match_edge_lengths() {
    assert!(prefix_matches("0xabc", ""));
    assert!(prefix_matches("", ""));
    assert!(!prefix_matches("0x", "0x1337"));
    assert!(prefix_matches("0x1337", "0x1337"));
}

#[test]
fn clean_ratio_all_digits_is_one() {
    let address = format!("0x{}", "1".repeat(40));
    assert_eq!(clean_ratio_ppm(&address), PPM);
    assert!(clean_matches(&address, PPM));
}

#[test]
fn clean_ratio_even_split_is_half() {
    let address = format!("0x{}{}", "1".repeat(20), "a".repeat(20));
    assert_eq!(clean_ratio_ppm(&address), PPM / 2);
    assert!(clean_matches(&address, PPM / 2));
    assert!(!clean_matches(&address, PPM / 2 + 1));
}

#[test]
fn clean_ratio_empty_is_zero() {
    assert_eq!(clean_ratio_ppm(""), 0);
    assert!(!clean_matches("", 920000));
    assert!(clean_matches("", 0));
}

#[test]
fn clean_ratio_strips_one_leading_marker() {
    // Without the 0x marker all four characters count; with it only the body.
    assert_eq!(clean_ratio_ppm("1111"), PPM);
    assert_eq!(clean_ratio_ppm("0x1111"), PPM);
    // The marker is stripped once, not repeatedly: the body of "0x0x11" is
    // "0x11", three digits and one letter out of four characters.
    assert_eq!(clean_ratio_ppm("0x0x11"), PPM / 4 * 3);
}

#[test]
fn clean_threshold_at_default() {
    // 37 digits out of 40: ratio 0.925, above the default 0.92.
    let address = format!("0x{}{}", "1".repeat(37), "abc");
    assert!(clean_matches(&address, 920000));
    // 36 digits out of 40: ratio 0.9, below the default.
    let address = format!("0x{}{}", "1".repeat(36), "abcd");
    assert!(!clean_matches(&address, 920000));
}

#[test]
fn criterion_selects_policy() {
    let address = "0x1337000000000000000000000000000000000000";
    let by_prefix = Criterion::Prefix(String::from("0X1337"));
    assert!(criterion_matches(&by_prefix, address));
    let other_prefix = Criterion::Prefix(String::from("0xdead"));
    assert!(!criterion_matches(&other_prefix, address));
    let by_ratio = Criterion::CleanRatio(PPM);
    assert!(criterion_matches(&by_ratio, address));
}
