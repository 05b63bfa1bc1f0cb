use rust_streamer::address::is_valid_ipv4;

#[test]
fn accepts_dotted_quads() {
    assert!(is_valid_ipv4("10.0.0.5"));
    assert!(is_valid_ipv4("0.0.0.0"));
    assert!(is_valid_ipv4("255.255.255.255"));
    assert!(is_valid_ipv4("192.168.1.20"));
}

#[test]
fn rejects_out_of_range_octets() {
    assert!(!is_valid_ipv4("256.0.0.1"));
    assert!(!is_valid_ipv4("1.2.3.999"));
    assert!(!is_valid_ipv4("1.2.3.1000"));
}

#[test]
fn rejects_wrong_field_counts() {
    assert!(!is_valid_ipv4(""));
    assert!(!is_valid_ipv4("1.2.3"));
    assert!(!is_valid_ipv4("1.2.3.4.5"));
    assert!(!is_valid_ipv4("1..2.3"));
    assert!(!is_valid_ipv4("1.2.3.4."));
    assert!(!is_valid_ipv4(".1.2.3"));
}

#[test]
fn rejects_leading_zeros_and_other_characters() {
    assert!(!is_valid_ipv4("01.2.3.4"));
    assert!(!is_valid_ipv4("a.b.c.d"));
    assert!(!is_valid_ipv4("1.2.3.4 "));
    assert!(!is_valid_ipv4("-1.2.3.4"));
    assert!(!is_valid_ipv4("localhost"));
}
