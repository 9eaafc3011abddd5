use hustoa_vm::cmd::v6pool::{
    CmdAdd, CmdDelete, CmdDeleteByName, CmdFlush, CmdGenerateNetDefine, CmdList, CmdPurge,
    NetDefineError,
};
use hustoa_vm::config::{CommonConfig, HustoaVmConfig, Ipv6Config};
use hustoa_vm::ipv6::Ipv6Address;

#[test]
fn test_cmd_list_exists() {
    let _cmd = CmdList;
}

#[test]
fn test_cmd_flush_exists() {
    let _cmd = CmdFlush;
}

#[test]
fn test_cmd_purge_exists() {
    let _cmd = CmdPurge;
}

#[test]
fn test_cmd_add_has_fields() {
    let addr = Ipv6Address::parse("2001:db8::1").unwrap();
    let domain = "test.com".to_string();
    let cmd = CmdAdd { addr, domain: domain.clone() };
    assert_eq!(cmd.addr, addr);
    assert_eq!(cmd.domain, domain);
}

#[test]
fn test_cmd_delete_has_field() {
    let addr = Ipv6Address::parse("2001:db8::1").unwrap();
    let cmd = CmdDelete { addr };
    assert_eq!(cmd.addr, addr);
}

#[test]
fn test_cmd_delete_by_name_has_field() {
    let name = "testvm".to_string();
    let cmd = CmdDeleteByName { name: name.clone() };
    assert_eq!(cmd.name, name);
}

#[test]
fn test_cmd_generate_net_define_defaults() {
    let cmd = CmdGenerateNetDefine {
        name: "hustoa-netv6".to_string(),
        iface: "virbr6".to_string(),
    };
    assert_eq!(cmd.name, "hustoa-netv6");
    assert_eq!(cmd.iface, "virbr6");
}

#[test]
fn test_cmd_generate_net_define_custom() {
    let cmd = CmdGenerateNetDefine {
        name: "custom-net".to_string(),
        iface: "custom-br".to_string(),
    };
    assert_eq!(cmd.name, "custom-net");
    assert_eq!(cmd.iface, "custom-br");
}

#[test]
fn test_ipv6_addr_parsing() {
    let test_cases = vec!["2001:db8::1", "fd00::100", "fe80::1", "::1"];
    for addr_str in test_cases {
        let addr = Ipv6Address::parse(addr_str);
        assert!(addr.is_some(), "Should parse IPv6 address: {}", addr_str);
    }
}

#[test]
fn test_ipv6_addr_invalid_parsing() {
    let test_cases = vec!["invalid", "192.168.1.1", ""];
    for addr_str in test_cases {
        let addr = Ipv6Address::parse(addr_str);
        assert!(addr.is_none(), "Should fail to parse invalid IPv6: {}", addr_str);
    }
}

fn config(ipv6: bool) -> HustoaVmConfig {
    HustoaVmConfig {
        common: CommonConfig::from_options(None, None, None, None, None, None),
        ipv6conf: if ipv6 {
            Some(Ipv6Config {
                libvirt_interface_v6: "virbr1".to_string(),
                ipv6_bridge_mac: "52:54:00:48:8b:aa".to_string(),
                ipv6_prefix: Ipv6Address::parse("2001:250:4000:511d::").unwrap(),
                wan_interface: "eth0".to_string(),
            })
        } else {
            None
        },
    }
}

#[test]
fn net_define_xml_text() {
    let cmd = CmdGenerateNetDefine { name: "n6".to_string(), iface: "br6".to_string() };
    let addr = Ipv6Address::parse("2001:db8::5054:ff:fe12:3456").unwrap();
    let xml = cmd.net_define_xml(&"52:54:00:12:34:56".to_string(), &addr);
    assert_eq!(
        xml,
        "<network>\n<name>n6</name>\n<forward mode='open'/>\n<bridge name='br6' stp='on' delay='0'/>\n<mac address='52:54:00:12:34:56'/>\n<domain name='n6' localOnly='yes'/>\n<ip family='ipv6' address='2001:db8::5054:ff:fe12:3456' prefix='64'>\n</ip>\n</network>"
    );
}

#[test]
fn net_define_requires_ipv6_config() {
    let cmd = CmdGenerateNetDefine { name: "n6".to_string(), iface: "br6".to_string() };
    assert_eq!(cmd.generate(&config(false)), Err(NetDefineError::NoIpv6Config));
    let xml = cmd.generate(&config(true)).unwrap();
    assert!(xml.contains("<mac address='52:54:00:"));
    assert!(xml.contains("address='2001:250:4000:511d:5054:ff:fe"));
}
