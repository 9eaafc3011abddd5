//! Settings of the tool, as read from its configuration file.

use vstd::prelude::*;
use crate::ipv6::Ipv6Address;

verus! {

/// Settings that every command uses.
#[derive(Debug)]
pub struct CommonConfig {
    /// Directory of the machines' disk images.
    pub libvirt_storage: String,
    /// Directory where libvirt saves machine states.
    pub libvirt_save: String,
    /// Name of the libvirt network that serves DHCP.
    pub libvirt_network: String,
    /// Disk size of a new machine, in GiB.
    pub default_disk_size: usize,
    /// Number of virtual CPUs of a new machine.
    pub default_vcpus: usize,
    /// Memory size of a new machine, in GiB.
    pub default_memory_size: usize,
}

/// Settings of the IPv6 network, present only where IPv6 is used.
#[derive(Debug)]
pub struct Ipv6Config {
    /// Libvirt interface of the IPv6-only network.
    pub libvirt_interface_v6: String,
    /// MAC address of that interface's bridge.
    pub ipv6_bridge_mac: String,
    /// Prefix of the host's IPv6 subnet.
    pub ipv6_prefix: Ipv6Address,
    /// Outbound interface of the host.
    pub wan_interface: String,
}

/// The whole configuration file.
#[derive(Debug)]
pub struct HustoaVmConfig {
    pub common: CommonConfig,
    pub ipv6conf: Option<Ipv6Config>,
}

/// Default directory of disk images.
pub fn default_libvirt_storage() -> (r: String)
    ensures
        r@ == "/var/lib/libvirt/images"@,
{
    String::from_str("/var/lib/libvirt/images")
}

/// Default directory of saved machine states.
pub fn default_libvirt_save() -> (r: String)
    ensures
        r@ == "/var/lib/libvirt/qemu/save"@,
{
    String::from_str("/var/lib/libvirt/qemu/save")
}

/// Default libvirt network.
pub fn default_libvirt_network() -> (r: String)
    ensures
        r@ == "default"@,
{
    String::from_str("default")
}

/// Default disk size, in GiB.
pub fn default_disk_size() -> (r: usize)
    ensures
        r == 80,
{
    80
}

/// Default number of virtual CPUs.
pub fn default_vcpus() -> (r: usize)
    ensures
        r == 16,
{
    16
}

/// Default memory size, in GiB.
pub fn default_memory_size() -> (r: usize)
    ensures
        r == 16,
{
    16
}

impl CommonConfig {
    /// The `[common]` section, each setting the one given or, where none is
    /// given, its default.
    pub fn from_options(
        libvirt_storage: Option<String>,
        libvirt_save: Option<String>,
        libvirt_network: Option<String>,
        default_disk_size: Option<usize>,
        default_vcpus: Option<usize>,
        default_memory_size: Option<usize>,
    ) -> (r: CommonConfig)
        ensures
            r.libvirt_storage@ == (match libvirt_storage {
                Some(s) => s@,
                None => "/var/lib/libvirt/images"@,
            }),
            r.libvirt_save@ == (match libvirt_save {
                Some(s) => s@,
                None => "/var/lib/libvirt/qemu/save"@,
            }),
            r.libvirt_network@ == (match libvirt_network {
                Some(s) => s@,
                None => "default"@,
            }),
            r.default_disk_size == (match default_disk_size {
                Some(n) => n,
                None => 80,
            }),
            r.default_vcpus == (match default_vcpus {
                Some(n) => n,
                None => 16,
            }),
            r.default_memory_size == (match default_memory_size {
                Some(n) => n,
                None => 16,
            }),
    {
        CommonConfig {
            libvirt_storage: match libvirt_storage {
                Some(s) => s,
                None => default_libvirt_storage(),
            },
            libvirt_save: match libvirt_save {
                Some(s) => s,
                None => default_libvirt_save(),
            },
            libvirt_network: match libvirt_network {
                Some(s) => s,
                None => default_libvirt_network(),
            },
            default_disk_size: match default_disk_size {
                Some(n) => n,
                None => self::default_disk_size(),
            },
            default_vcpus: match default_vcpus {
                Some(n) => n,
                None => self::default_vcpus(),
            },
            default_memory_size: match default_memory_size {
                Some(n) => n,
                None => self::default_memory_size(),
            },
        }
    }
}

} // verus!
