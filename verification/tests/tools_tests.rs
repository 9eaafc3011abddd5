use hustoa_vm::ipv6::Ipv6Address;
use hustoa_vm::tools::{
    effective_command, gen_mac_address_qemu, gen_rand_postfix, generate_eui64_from_mac, parse_mac,
    qemu_mac_from_bytes, next_port_attempt, version_has_osinfo, CommandLine, MacError,
};

fn prefix(text: &str) -> Ipv6Address {
    Ipv6Address::parse(text).unwrap()
}

#[test]
fn test_gen_mac_address_qemu_format() {
    let mac = gen_mac_address_qemu();
    assert!(mac.starts_with("52:54:00:"), "MAC should start with 52:54:00:");
    let parts: Vec<&str> = mac.split(':').collect();
    assert_eq!(parts.len(), 6, "MAC should have 6 octets");
    for part in &parts {
        assert_eq!(part.len(), 2, "Each octet should be 2 characters");
        u8::from_str_radix(part, 16).expect("Each octet should be valid hex");
    }
}

#[test]
fn test_gen_mac_address_qemu_uniqueness() {
    let mac1 = gen_mac_address_qemu();
    let mac2 = gen_mac_address_qemu();
    assert_ne!(mac1, mac2, "Generated MAC addresses should be unique");
}

#[test]
fn test_generate_eui64_from_mac_valid() {
    let mac = "52:54:00:12:34:56";
    let ipv6_prefix = prefix("2001:db8::");
    let result = generate_eui64_from_mac(mac, ipv6_prefix);
    assert!(result.is_ok(), "EUI-64 generation should succeed");
    let ipv6 = result.unwrap();
    assert_eq!(ipv6.segments()[0], 0x2001, "IPv6 prefix should be preserved");
    assert_eq!(ipv6.segments()[1], 0x0db8, "IPv6 prefix should be preserved");
}

#[test]
fn test_generate_eui64_from_mac_invalid_format() {
    let mac = "invalid-mac";
    let ipv6_prefix = prefix("2001:db8::");
    let result = generate_eui64_from_mac(mac, ipv6_prefix);
    assert!(result.is_err(), "Invalid MAC format should return error");
}

#[test]
fn test_generate_eui64_from_mac_wrong_length() {
    let mac = "52:54:00:12:34";
    let ipv6_prefix = prefix("2001:db8::");
    let result = generate_eui64_from_mac(mac, ipv6_prefix);
    assert!(result.is_err(), "MAC with wrong length should return error");
}

#[test]
fn test_gen_rand_postfix_length() {
    let postfix = gen_rand_postfix();
    assert_eq!(postfix.len(), 8, "Random postfix should be 8 characters (4 bytes in hex)");
}

#[test]
fn test_gen_rand_postfix_uniqueness() {
    let postfix1 = gen_rand_postfix();
    let postfix2 = gen_rand_postfix();
    assert_ne!(postfix1, postfix2, "Random postfixes should be unique");
}

#[test]
fn test_gen_rand_postfix_is_hex() {
    let postfix = gen_rand_postfix();
    u32::from_str_radix(&postfix, 16).expect("Postfix should be valid hex");
}

#[test]
fn test_mac_address_consistency() {
    for _ in 0..100 {
        let mac = gen_mac_address_qemu();
        assert!(mac.starts_with("52:54:00:"), "MAC should always start with 52:54:00:");
        let parts: Vec<&str> = mac.split(':').collect();
        assert_eq!(parts.len(), 6, "MAC should always have 6 octets");
    }
}

#[test]
fn test_ipv6_prefix_preservation() {
    let test_cases = vec![
        ("52:54:00:12:34:56", "2001:db8::"),
        ("52:54:00:aa:bb:cc", "fd00::"),
        ("52:54:00:ff:ff:ff", "fe80::"),
    ];

    for (mac, text) in test_cases {
        let ipv6_prefix = prefix(text);
        let result = generate_eui64_from_mac(mac, ipv6_prefix).unwrap();
        let prefix_bytes = ipv6_prefix.segments();
        let result_bytes = result.segments();
        assert_eq!(result_bytes[0], prefix_bytes[0], "First segment should match prefix");
        assert_eq!(result_bytes[1], prefix_bytes[1], "Second segment should match prefix");
    }
}

#[test]
fn test_eui64_bit_flip() {
    let mac = "52:54:00:12:34:56";
    let ipv6_prefix = prefix("fe80::");
    let result = generate_eui64_from_mac(mac, ipv6_prefix).unwrap();
    let segments = result.segments();
    assert_eq!(segments[0], 0xfe80, "Should be link-local prefix");
}

#[test]
fn test_random_postfix_entropy() {
    let mut postfixes = std::collections::HashSet::new();
    for _ in 0..1000 {
        let postfix = gen_rand_postfix();
        postfixes.insert(postfix);
    }
    assert!(postfixes.len() > 950, "Should have high entropy in random postfixes");
}

#[test]
fn eui64_exact_address() {
    let result = generate_eui64_from_mac("52:54:00:12:34:56", prefix("fe80::")).unwrap();
    assert_eq!(result.segments(), [0xfe80, 0, 0, 0, 0x5054, 0x00ff, 0xfe12, 0x3456]);
    assert_eq!(result.to_text(), "fe80::5054:ff:fe12:3456");
    let other = generate_eui64_from_mac("02:00:5E:10:00:FF", prefix("2001:db8:1:2::")).unwrap();
    assert_eq!(other.segments(), [0x2001, 0x0db8, 1, 2, 0x0000, 0x5eff, 0xfe10, 0x00ff]);
}

#[test]
fn mac_parsing_errors() {
    assert_eq!(parse_mac("52:54:00:12:34:56"), Ok(vec![0x52, 0x54, 0x00, 0x12, 0x34, 0x56]));
    assert_eq!(parse_mac("+52:54:0:12:34:056"), Ok(vec![0x52, 0x54, 0x00, 0x12, 0x34, 0x56]));
    assert_eq!(parse_mac(""), Err(MacError::InvalidFormat));
    assert_eq!(parse_mac("52:54:00:12:34:"), Err(MacError::InvalidFormat));
    assert_eq!(parse_mac("52:54:00:12:34:100"), Err(MacError::InvalidFormat));
    assert_eq!(parse_mac("52:54:00:12:34:-1"), Err(MacError::InvalidFormat));
    assert_eq!(parse_mac("52:54:00:12:34:+"), Err(MacError::InvalidFormat));
    assert_eq!(parse_mac("52:54:00:12:34:5g"), Err(MacError::InvalidFormat));
    assert_eq!(parse_mac("52:54:00:12:34:56:78"), Err(MacError::WrongLength));
    assert_eq!(parse_mac("52"), Err(MacError::WrongLength));
    // a bad field wins over a wrong count
    assert_eq!(parse_mac("zz:54"), Err(MacError::InvalidFormat));
    assert!(generate_eui64_from_mac("zz", prefix("::")).is_err());
}

#[test]
fn mac_from_bytes_text() {
    assert_eq!(qemu_mac_from_bytes(0, 0xab, 0x0f), "52:54:00:00:ab:0f");
    // a generated address always parses back
    let mac = gen_mac_address_qemu();
    let bytes = parse_mac(&mac).unwrap();
    assert_eq!(&bytes[0..3], &[0x52, 0x54, 0x00]);
}

#[test]
fn port_candidates_in_range() {
    for attempt in 0..100 {
        let p = next_port_attempt(attempt).unwrap();
        assert!(p >= 20000 && p < 30000);
    }
    assert_eq!(next_port_attempt(100), None);
    assert_eq!(next_port_attempt(u32::MAX), None);
}

#[test]
fn dry_run_echoes() {
    let cmd = CommandLine { program: "virsh".to_string(), args: vec!["list".to_string()] };
    let run = effective_command(cmd, true);
    assert_eq!(run.program, "echo");
    assert!(run.args.is_empty());
    let cmd = CommandLine { program: "virsh".to_string(), args: vec!["list".to_string()] };
    let run = effective_command(cmd, false);
    assert_eq!(run.program, "virsh");
    assert_eq!(run.args, vec!["list".to_string()]);
}

#[test]
fn virt_install_version_check() {
    assert_eq!(version_has_osinfo("4.1.0\n"), Some(true));
    assert_eq!(version_has_osinfo("3.0.0"), Some(true));
    assert_eq!(version_has_osinfo("2.2.1\n"), Some(false));
    assert_eq!(version_has_osinfo("3.0.0-rc1"), Some(false));
    assert_eq!(version_has_osinfo("not a version"), None);
}
