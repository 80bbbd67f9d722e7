use msnchat_rs::netparse::{parse_server_address, validate_server_address};

fn run(input: Option<&[u8]>, buf_len: usize) -> (u8, i32, Vec<u8>) {
    let owned = input.map(|s| s.to_vec());
    let mut out = vec![0xAAu8; buf_len];
    let (ok, port) = validate_server_address(owned.as_ref(), &mut out);
    (ok, port, out)
}

#[test]
fn space_separated_host_and_port() {
    let (ok, port, out) = run(Some(b"example.com 6667"), 32);
    assert_eq!(ok, 1);
    assert_eq!(port, 6667);
    assert_eq!(&out[0..11], b"example.com");
    assert_eq!(out[11], 0);
}

#[test]
fn colon_separated_host_and_port() {
    let (ok, port, out) = run(Some(b"example.com:6667"), 32);
    assert_eq!(ok, 1);
    assert_eq!(port, 6667);
    assert_eq!(&out[0..11], b"example.com");
    assert_eq!(out[11], 0);
}

#[test]
fn null_input_falls_back_to_default_host() {
    let (ok, port, out) = run(None, 32);
    assert_eq!(ok, 1);
    assert_eq!(port, 6667);
    assert_eq!(&out[0..12], b"dir.irc7.com");
    assert_eq!(out[12], 0);
}

#[test]
fn empty_input_falls_back_to_default_host() {
    let (ok, port, out) = run(Some(b""), 32);
    assert_eq!(ok, 1);
    assert_eq!(port, 6667);
    assert_eq!(&out[0..12], b"dir.irc7.com");
    assert_eq!(out[12], 0);
}

#[test]
fn short_buffer_truncates_and_never_overflows() {
    // The channel-server buffer is 16 bytes: 15 characters plus terminator.
    let (ok, port, out) = run(Some(b"averylonghostname.example.com:6667"), 16);
    assert_eq!(ok, 1);
    assert_eq!(port, 6667);
    assert_eq!(out.len(), 16);
    assert_eq!(&out[..], &b"averylonghostname.example.com"[0..16]);
}

#[test]
fn host_without_port_gets_fallback_port() {
    let (ok, port, out) = run(Some(b"irc.example.org"), 32);
    assert_eq!(ok, 1);
    assert_eq!(port, 6667);
    assert_eq!(&out[0..15], b"irc.example.org");
}

#[test]
fn explicit_zero_port_gets_fallback_port() {
    let (ok, port, _) = run(Some(b"example.com:0"), 32);
    assert_eq!(ok, 1);
    assert_eq!(port, 6667);
}

#[test]
fn explicit_port_is_kept() {
    let (ok, port, _) = run(Some(b"example.com:7000"), 32);
    assert_eq!(ok, 1);
    assert_eq!(port, 7000);
}

#[test]
fn dotted_decimal_host() {
    let (ok, port, out) = run(Some(b"127.0.0.1:6667"), 32);
    assert_eq!(ok, 1);
    assert_eq!(port, 6667);
    assert_eq!(&out[0..9], b"127.0.0.1");
}

#[test]
fn bare_v6_literal_is_a_host_not_a_port() {
    let (ok, port, out) = run(Some(b"::1"), 32);
    assert_eq!(ok, 1);
    assert_eq!(port, 6667);
    assert_eq!(&out[0..3], b"::1");
    assert_eq!(out[3], 0);
}

#[test]
fn bracketed_v6_literal_with_port() {
    let (ok, port, out) = run(Some(b"[2001:db8::1]:7000"), 32);
    assert_eq!(ok, 1);
    assert_eq!(port, 7000);
    assert_eq!(&out[0..11], b"2001:db8::1");
    assert_eq!(out[11], 0);
}

#[test]
fn rejected_inputs_leave_buffer_untouched() {
    for bad in [
        &b"exa mple.com"[..],        // space becomes a colon inside the name
        b"host:",                    // empty port
        b"host:65536",               // port out of range
        b"host:123456",              // port literal too long
        b"host:12a",                 // non-digit in port
        b":6667",                    // empty host
        b"bad_host:6667",            // invalid host byte
        b"[::1",                     // unterminated bracket
        b"[::1]x",                   // junk after bracket
        b"[]:6667",                  // empty bracketed host
    ] {
        let (ok, port, out) = run(Some(bad), 16);
        assert_eq!(ok, 0, "input should be rejected: {:?}", bad);
        assert_eq!(port, 0);
        assert_eq!(out, vec![0xAA; 16]);
    }
}

#[test]
fn dotted_decimal_leading_zeros_are_canonicalized() {
    let (ok, port, out) = run(Some(b"127.000.000.001 6667"), 32);
    assert_eq!(ok, 1);
    assert_eq!(port, 6667);
    assert_eq!(&out[0..9], b"127.0.0.1");
    assert_eq!(out[9], 0);

    let (ok, _, out) = run(Some(b"192.168.001.010:7000"), 32);
    assert_eq!(ok, 1);
    assert_eq!(&out[0..12], b"192.168.1.10");
    assert_eq!(out[12], 0);

    let (ok, _, out) = run(Some(b"00.0.000.0"), 32);
    assert_eq!(ok, 1);
    assert_eq!(&out[0..7], b"0.0.0.0");
    assert_eq!(out[7], 0);
}

#[test]
fn non_quad_hosts_are_written_as_given() {
    // an out-of-range part makes this a (strange) name, not a quad
    let (ok, _, out) = run(Some(b"1.2.3.444:80"), 32);
    assert_eq!(ok, 1);
    assert_eq!(&out[0..9], b"1.2.3.444");
    assert_eq!(out[9], 0);

    let (ok, _, out) = run(Some(b"dir.irc7.com"), 32);
    assert_eq!(ok, 1);
    assert_eq!(&out[0..12], b"dir.irc7.com");
}

#[test]
fn highest_port_is_accepted() {
    let (ok, port, _) = run(Some(b"example.com:65535"), 32);
    assert_eq!(ok, 1);
    assert_eq!(port, 65535);
}

#[test]
fn bracketed_v6_literal_without_port() {
    let (ok, port, out) = run(Some(b"[::1]"), 32);
    assert_eq!(ok, 1);
    assert_eq!(port, 6667);
    assert_eq!(&out[0..3], b"::1");
    assert_eq!(out[3], 0);
}

#[test]
fn parse_returns_host_and_port() {
    let r = parse_server_address(&b"example.com 6667".to_vec());
    let (host, port) = r.expect("should parse");
    assert_eq!(host, b"example.com".to_vec());
    assert_eq!(port, 6667);
    assert!(parse_server_address(&b"nonsense..but-valid-bytes".to_vec()).is_some());
    assert!(parse_server_address(&b"two:colons:here".to_vec()).is_none());
}
