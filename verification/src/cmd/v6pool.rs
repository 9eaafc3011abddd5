//! The `v6-pool` subcommands.

use vstd::prelude::*;
use crate::config::HustoaVmConfig;
use crate::ipv6::{Ipv6Address, ipv6_text, ipv6_to_string};
use crate::text::{owned, push_str};
use crate::tools::{
    gen_mac_address_qemu, generate_eui64_from_mac, qemu_mac_text, lemma_qemu_mac_parses,
    eui64_segments,
};

verus! {

/// `v6-pool list`: prints the pool.
#[derive(Debug)]
pub struct CmdList;

/// `v6-pool flush`: re-creates the routing of every address.
#[derive(Debug)]
pub struct CmdFlush;

/// `v6-pool purge`: drops the entries of domains libvirt no longer has.
#[derive(Debug)]
pub struct CmdPurge;

/// `v6-pool add`: adds an address for a domain.
#[derive(Debug)]
pub struct CmdAdd {
    pub addr: Ipv6Address,
    pub domain: String,
}

/// `v6-pool delete`: removes an address.
#[derive(Debug)]
pub struct CmdDelete {
    pub addr: Ipv6Address,
}

/// `v6-pool delete-by-name`: removes the addresses of a domain.
#[derive(Debug)]
pub struct CmdDeleteByName {
    pub name: String,
}

/// `v6-pool gen-v6-net-xml`: writes a libvirt network definition for IPv6.
#[derive(Debug)]
pub struct CmdGenerateNetDefine {
    /// Name of the libvirt network.
    pub name: String,
    /// Name of the bridge interface.
    pub iface: String,
}

/// Why no network definition was written.
#[derive(Clone, Copy, Debug, PartialEq, Eq, Structural)]
pub enum NetDefineError {
    /// The configuration has no IPv6 section.
    NoIpv6Config,
}

/// The libvirt network definition of an open-forward IPv6 network with the
/// given name, bridge, bridge MAC and bridge address (a /64).
pub open spec fn net_define_xml_spec(name: Seq<char>, iface: Seq<char>, mac: Seq<char>, addr: Seq<char>) -> Seq<char> {
    "<network>\n<name>"@ + name + "</name>\n<forward mode='open'/>\n<bridge name='"@ + iface
        + "' stp='on' delay='0'/>\n<mac address='"@ + mac + "'/>\n<domain name='"@ + name
        + "' localOnly='yes'/>\n<ip family='ipv6' address='"@ + addr
        + "' prefix='64'>\n</ip>\n</network>"@
}

impl CmdGenerateNetDefine {
    /// The network definition for a bridge MAC address and bridge address.
    pub fn net_define_xml(&self, mac: &String, addr: &Ipv6Address) -> (r: String)
        ensures
            r@ == net_define_xml_spec(self.name@, self.iface@, mac@, ipv6_text(addr@)),
    {
        let v6addr = ipv6_to_string(addr);
        let mut x = owned("<network>\n<name>");
        push_str(&mut x, self.name.as_str());
        push_str(&mut x, "</name>\n<forward mode='open'/>\n<bridge name='");
        push_str(&mut x, self.iface.as_str());
        push_str(&mut x, "' stp='on' delay='0'/>\n<mac address='");
        push_str(&mut x, mac.as_str());
        push_str(&mut x, "'/>\n<domain name='");
        push_str(&mut x, self.name.as_str());
        push_str(&mut x, "' localOnly='yes'/>\n<ip family='ipv6' address='");
        push_str(&mut x, v6addr.as_str());
        push_str(&mut x, "' prefix='64'>\n</ip>\n</network>");
        x
    }

    /// The network definition with a random QEMU-range bridge MAC address and
    /// the bridge address its EUI-64 gives under the configured prefix;
    /// refused where the configuration has no IPv6 section.
    pub fn generate(&self, config: &HustoaVmConfig) -> (r: Result<String, NetDefineError>)
        ensures
            match config.ipv6conf {
                None => r == Err::<String, NetDefineError>(NetDefineError::NoIpv6Config),
                Some(c) => exists|m: Seq<u8>|
                    m.len() == 3 && (r matches Ok(x) && x@ == net_define_xml_spec(
                        self.name@,
                        self.iface@,
                        #[trigger] qemu_mac_text(m),
                        ipv6_text(eui64_segments(c.ipv6_prefix@, seq![0x52u8, 0x54u8, 0x00u8, m[0], m[1], m[2]])),
                    )),
            },
    {
        let mac = gen_mac_address_qemu();
        let ipv6conf = match &config.ipv6conf {
            Some(c) => c,
            None => return Err(NetDefineError::NoIpv6Config),
        };
        let ghost m = choose|m: Seq<u8>| m.len() == 3 && mac@ == qemu_mac_text(m);
        proof {
            lemma_qemu_mac_parses(m);
        }
        match generate_eui64_from_mac(mac.as_str(), ipv6conf.ipv6_prefix) {
            Ok(addr) => Ok(self.net_define_xml(&mac, &addr)),
            Err(_) => {
                assert(false);
                Err(NetDefineError::NoIpv6Config)
            },
        }
    }
}

} // verus!
