use reaper::port::{extract_port, port_label};

#[test]
fn port_of_a_listening_wildcard_socket() {
    assert_eq!(port_label("*:8080 (LISTEN)"), "8080");
    assert_eq!(extract_port("*:8080 (LISTEN)"), 8080);
}

#[test]
fn port_without_the_listen_marker() {
    assert_eq!(port_label("127.0.0.1:443"), "443");
    assert_eq!(extract_port("127.0.0.1:443"), 443);
}

#[test]
fn port_of_a_name_without_colon_is_the_name() {
    assert_eq!(port_label("localhost"), "localhost");
    assert_eq!(extract_port("localhost"), 0);
}

#[test]
fn port_of_an_ipv6_socket() {
    assert_eq!(port_label("[::1]:631 (LISTEN)"), "631");
    assert_eq!(extract_port("[::1]:631 (LISTEN)"), 631);
}

#[test]
fn port_too_large_for_32_bits_is_zero() {
    assert_eq!(extract_port("*:4294967295"), 4294967295);
    assert_eq!(extract_port("*:4294967296"), 0);
}

#[test]
fn port_of_an_empty_name_is_zero() {
    assert_eq!(port_label(""), "");
    assert_eq!(extract_port(""), 0);
}

#[test]
fn port_with_a_plus_sign_reads_as_a_number() {
    assert_eq!(extract_port("*:+80"), 80);
    assert_eq!(extract_port("*:-80"), 0);
}
