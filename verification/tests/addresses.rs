use latmon::addr::{parse_ipv4, HostAddress};

fn addr(o0: u8, o1: u8, o2: u8, o3: u8) -> HostAddress {
    HostAddress { o0, o1, o2, o3 }
}

#[test]
fn parses_the_monitored_hosts() {
    assert_eq!(parse_ipv4("20.236.44.162"), Some(addr(20, 236, 44, 162)));
    assert_eq!(parse_ipv4("142.250.75.142"), Some(addr(142, 250, 75, 142)));
    assert_eq!(parse_ipv4("13.226.2.72"), Some(addr(13, 226, 2, 72)));
}

#[test]
fn parses_boundary_addresses() {
    assert_eq!(parse_ipv4("0.0.0.0"), Some(addr(0, 0, 0, 0)));
    assert_eq!(parse_ipv4("255.255.255.255"), Some(addr(255, 255, 255, 255)));
    assert_eq!(parse_ipv4("1.10.100.250"), Some(addr(1, 10, 100, 250)));
}

#[test]
fn rejects_wrong_shape() {
    assert_eq!(parse_ipv4(""), None);
    assert_eq!(parse_ipv4("1.2.3"), None);
    assert_eq!(parse_ipv4("1.2.3.4.5"), None);
    assert_eq!(parse_ipv4("1.2.3."), None);
    assert_eq!(parse_ipv4(".1.2.3"), None);
    assert_eq!(parse_ipv4("1..2.3"), None);
    assert_eq!(parse_ipv4("localhost"), None);
    assert_eq!(parse_ipv4("a.b.c.d"), None);
}

#[test]
fn rejects_bad_octets() {
    assert_eq!(parse_ipv4("256.1.1.1"), None);
    assert_eq!(parse_ipv4("1.1.1.999"), None);
    assert_eq!(parse_ipv4("01.2.3.4"), None);
    assert_eq!(parse_ipv4("1.2.3.00"), None);
    assert_eq!(parse_ipv4("1.2.3.1234"), None);
    assert_eq!(parse_ipv4("1.2.3.-4"), None);
    assert_eq!(parse_ipv4("1.2. 3.4"), None);
}
