//! Verified core of a small libvirt virtual machine maintenance tool:
//! MAC and EUI-64 address handling, the IPv6 address pool, distribution
//! metadata and the plans that the command line front end carries out.

pub mod text;
pub mod ipv6;
pub mod tools;
pub mod config;
pub mod v6pool;
pub mod vmlist;
pub mod dhcp;
pub mod distro_info;
pub mod cmd;
