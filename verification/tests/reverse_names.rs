use dnslr::reverse::parse_reverse_name;
use dnslr::types::DomainName;
use dnslr::types::IpAddress;

fn name_of(parts: &[&str]) -> DomainName {
    DomainName {
        labels: parts.iter().map(|p| p.as_bytes().to_vec()).collect(),
        fqdn: true,
    }
}

#[test]
fn parses_full_ipv4() {
    let n = name_of(&["1", "2", "0", "192", "in-addr", "arpa"]);
    assert_eq!(parse_reverse_name(&n), Some(IpAddress::V4(0xC0000201)));
}

#[test]
fn parses_partial_ipv4_as_network_address() {
    let n = name_of(&["2", "0", "192", "in-addr", "arpa"]);
    assert_eq!(parse_reverse_name(&n), Some(IpAddress::V4(0xC0000200)));
}

#[test]
fn parses_bare_in_addr_arpa_as_zero() {
    let n = name_of(&["in-addr", "arpa"]);
    assert_eq!(parse_reverse_name(&n), Some(IpAddress::V4(0)));
}

#[test]
fn parses_octet_with_leading_zero() {
    let n = name_of(&["01", "2", "0", "192", "in-addr", "arpa"]);
    assert_eq!(parse_reverse_name(&n), Some(IpAddress::V4(0xC0000201)));
}

#[test]
fn ignores_ascii_case_of_fixed_labels() {
    let n = name_of(&["1", "2", "0", "192", "IN-ADDR", "ARPA"]);
    assert_eq!(parse_reverse_name(&n), Some(IpAddress::V4(0xC0000201)));
}

#[test]
fn rejects_octet_over_255() {
    let n = name_of(&["256", "2", "0", "192", "in-addr", "arpa"]);
    assert_eq!(parse_reverse_name(&n), None);
}

#[test]
fn rejects_non_digit_octet() {
    let n = name_of(&["1x", "2", "0", "192", "in-addr", "arpa"]);
    assert_eq!(parse_reverse_name(&n), None);
}

#[test]
fn rejects_four_digit_octet() {
    let n = name_of(&["0001", "2", "0", "192", "in-addr", "arpa"]);
    assert_eq!(parse_reverse_name(&n), None);
}

#[test]
fn rejects_five_octet_labels() {
    let n = name_of(&["9", "1", "2", "0", "192", "in-addr", "arpa"]);
    assert_eq!(parse_reverse_name(&n), None);
}

#[test]
fn rejects_name_that_is_not_fully_qualified() {
    let mut n = name_of(&["1", "2", "0", "192", "in-addr", "arpa"]);
    n.fqdn = false;
    assert_eq!(parse_reverse_name(&n), None);
}

#[test]
fn rejects_plain_forward_name() {
    let n = name_of(&["www", "example", "com"]);
    assert_eq!(parse_reverse_name(&n), None);
}

#[test]
fn rejects_missing_arpa_suffix() {
    let n = name_of(&["1", "2", "0", "192", "in-addr", "example"]);
    assert_eq!(parse_reverse_name(&n), None);
}

#[test]
fn rejects_unknown_arpa_family() {
    let n = name_of(&["1", "2", "0", "192", "ip9", "arpa"]);
    assert_eq!(parse_reverse_name(&n), None);
}

#[test]
fn parses_ipv6_loopback() {
    let mut parts: Vec<&str> = vec!["1"];
    for _ in 0..31 {
        parts.push("0");
    }
    parts.push("ip6");
    parts.push("arpa");
    let n = name_of(&parts);
    assert_eq!(parse_reverse_name(&n), Some(IpAddress::V6(1)));
}

#[test]
fn parses_full_ipv6() {
    let parts: Vec<&str> = vec![
        "b", "a", "9", "8", "7", "6", "5", "0", "0", "0", "0", "0", "0", "0", "0", "0", "0", "0",
        "0", "0", "0", "0", "0", "0", "8", "b", "d", "0", "1", "0", "0", "2", "ip6", "arpa",
    ];
    let n = name_of(&parts);
    assert_eq!(
        parse_reverse_name(&n),
        Some(IpAddress::V6(0x20010db8_00000000_00000000_056789ab_u128))
    );
}

#[test]
fn parses_partial_ipv6_as_network_address() {
    let n = name_of(&["8", "b", "d", "0", "1", "0", "0", "2", "ip6", "arpa"]);
    assert_eq!(
        parse_reverse_name(&n),
        Some(IpAddress::V6(0x20010db8_u128 << 96))
    );
}

#[test]
fn parses_ipv6_uppercase_nibbles() {
    let mut parts: Vec<&str> = vec!["F"];
    for _ in 0..31 {
        parts.push("0");
    }
    parts.push("IP6");
    parts.push("arpa");
    let n = name_of(&parts);
    assert_eq!(parse_reverse_name(&n), Some(IpAddress::V6(0xF)));
}

#[test]
fn rejects_ipv6_label_of_two_digits() {
    let n = name_of(&["ab", "ip6", "arpa"]);
    assert_eq!(parse_reverse_name(&n), None);
}

#[test]
fn rejects_ipv6_with_too_many_labels() {
    let mut parts: Vec<&str> = Vec::new();
    for _ in 0..33 {
        parts.push("0");
    }
    parts.push("ip6");
    parts.push("arpa");
    let n = name_of(&parts);
    assert_eq!(parse_reverse_name(&n), None);
}
