//! Creating a machine: its names, paths and addresses, and the files and
//! commands that install it.

use vstd::prelude::*;
use crate::config::HustoaVmConfig;
use crate::v6pool::{V6Pool, PoolError, pool_insert, flush_commands};
use crate::ipv6::{Ipv6Address, ipv6_text, ipv6_to_string};
use crate::text::{chars_of, owned, push_str, push_char, string_from_chars, str_eq, u64_to_decimal, decimal_text};
use crate::tools::{
    CommandLine, MacError, commands_view, generate_eui64_from_mac, gen_rand_postfix, gen_mac_address_qemu,
    mac_bytes, eui64_segments, hex_encode, qemu_mac_text, lemma_qemu_mac_parses,
};
use crate::distro_info::{
    UserDataConfig, UserDataView, AptView, APTConfig, apt_sources, apt_view, make_apt_config,
    make_user_data, user_data, arch_codename, get_arch_codename,
};

verus! {

/// The arguments of `create`.
#[derive(Debug)]
pub struct SubCmdCreate {
    /// Name of the machine.
    pub name: String,
    /// Name of the machine's default user; the machine's name where absent.
    pub user: Option<String>,
    /// Path of the SSH public key file.
    pub ssh_pubkey: String,
    /// Distribution name.
    pub distro: String,
    /// Distribution version; the distribution's default where absent.
    pub distro_version: Option<String>,
    /// Disk size, in GiB.
    pub disk_size: u64,
    /// Memory size, in GiB.
    pub memory: u64,
    /// Number of virtual CPUs.
    pub vcpus: usize,
}

/// The IPv6 side of a new machine.
#[derive(Debug)]
pub struct Ipv6Info {
    pub v6_interface: String,
    pub v6_net_mac: String,
    pub v6_gateway: Ipv6Address,
    pub v6_addr: Ipv6Address,
}

/// Everything decided about a new machine before it is installed.
#[derive(Debug)]
pub struct NewVmInfo {
    pub vm_name: String,
    pub user_name: String,
    pub host_name: String,
    pub distro: String,
    pub distro_version: String,
    pub ssh_pubkey: String,
    pub virt_inst_osinfo: String,
    pub interface: String,
    pub disk_path: String,
    pub seed_path: String,
    pub ipv6info: Option<Ipv6Info>,
}

/// The IPv6 side as plain values.
pub struct Ipv6InfoView {
    pub v6_interface: Seq<char>,
    pub v6_net_mac: Seq<char>,
    pub v6_gateway: Seq<u16>,
    pub v6_addr: Seq<u16>,
}

/// A new machine as plain values.
pub struct NewVmInfoView {
    pub vm_name: Seq<char>,
    pub user_name: Seq<char>,
    pub host_name: Seq<char>,
    pub distro: Seq<char>,
    pub distro_version: Seq<char>,
    pub ssh_pubkey: Seq<char>,
    pub virt_inst_osinfo: Seq<char>,
    pub interface: Seq<char>,
    pub disk_path: Seq<char>,
    pub seed_path: Seq<char>,
    pub ipv6info: Option<Ipv6InfoView>,
}

impl View for NewVmInfo {
    type V = NewVmInfoView;

    open spec fn view(&self) -> NewVmInfoView {
        NewVmInfoView {
            vm_name: self.vm_name@,
            user_name: self.user_name@,
            host_name: self.host_name@,
            distro: self.distro@,
            distro_version: self.distro_version@,
            ssh_pubkey: self.ssh_pubkey@,
            virt_inst_osinfo: self.virt_inst_osinfo@,
            interface: self.interface@,
            disk_path: self.disk_path@,
            seed_path: self.seed_path@,
            ipv6info: match self.ipv6info {
                Some(i) => Some(
                    Ipv6InfoView {
                        v6_interface: i.v6_interface@,
                        v6_net_mac: i.v6_net_mac@,
                        v6_gateway: i.v6_gateway@,
                        v6_addr: i.v6_addr@,
                    },
                ),
                None => None,
            },
        }
    }
}

/// The file name that the outside crate `filenamify` makes of a text.
pub uninterp spec fn filenamify_text(input: Seq<char>) -> Seq<char>;

/// Makes a text safe as a file name (`filenamify::filenamify`). Its result is
/// named `filenamify_text` of the input; nothing more of it is stated.
#[verifier::external_body]
fn safe_filename(input: &str) -> (r: String)
    ensures
        r@ == filenamify_text(input@),
{
    filenamify::filenamify(input)
}

/// A text with every space replaced by an underscore.
pub open spec fn spaces_to_underscores(s: Seq<char>) -> Seq<char> {
    s.map_values(|c: char| if c == ' ' { '_' } else { c })
}

/// Replaces every space of a text by an underscore.
pub fn replace_spaces(s: &str) -> (r: String)
    ensures
        r@ == spaces_to_underscores(s@),
{
    let chars = chars_of(s);
    let mut out: Vec<char> = Vec::new();
    let mut i: usize = 0;
    while i < chars.len()
        invariant
            chars@ == s@,
            i <= chars.len(),
            out@ == spaces_to_underscores(s@.take(i as int)),
        decreases chars.len() - i,
    {
        let c = chars[i];
        out.push(if c == ' ' { '_' } else { c });
        assert(spaces_to_underscores(s@.take(i + 1)) =~= spaces_to_underscores(s@.take(i as int)).push(
            if c == ' ' { '_' } else { c },
        ));
        i = i + 1;
    }
    assert(s@.take(chars.len() as int) =~= s@);
    string_from_chars(&out)
}

/// `base` joined with `name` as `PathBuf::join` does on Unix: an absolute
/// `name` replaces `base`; else one `/` separates them unless `base` is empty
/// or already ends in `/`.
pub open spec fn path_join(base: Seq<char>, name: Seq<char>) -> Seq<char> {
    if name.len() > 0 && name[0] == '/' {
        name
    } else if base.len() == 0 || base.last() == '/' {
        base + name
    } else {
        base + seq!['/'] + name
    }
}

/// Joins a path and a name.
pub fn join_path(base: &str, name: &str) -> (r: String)
    ensures
        r@ == path_join(base@, name@),
{
    let b = chars_of(base);
    let n = chars_of(name);
    if n.len() > 0 && n[0] == '/' {
        return owned(name);
    }
    let mut r = owned(base);
    if !(b.len() == 0 || b[b.len() - 1] == '/') {
        push_char(&mut r, '/');
    }
    push_str(&mut r, name);
    assert(r@ =~= path_join(base@, name@));
    r
}

/// The version used where none is given: `noble` for Ubuntu, `bookworm` for
/// Debian, empty for anything else.
pub open spec fn default_distro_version(distro: Seq<char>) -> Seq<char> {
    if distro == "ubuntu"@ {
        "noble"@
    } else if distro == "debian"@ {
        "bookworm"@
    } else {
        Seq::empty()
    }
}

/// The `virt-install --osinfo` value: `ubuntu-stable-latest` for Ubuntu,
/// `debian<version>` for Debian, `linux2022` for anything else.
pub open spec fn virt_inst_osinfo(distro: Seq<char>, version: Seq<char>) -> Seq<char> {
    if distro == "ubuntu"@ {
        "ubuntu-stable-latest"@
    } else if distro == "debian"@ {
        "debian"@ + version
    } else {
        "linux2022"@
    }
}

/// The `virt-install --osinfo` value of a distribution version.
pub fn get_virt_inst_osinfo(distro: &String, distro_version: &String) -> (r: String)
    ensures
        r@ == virt_inst_osinfo(distro@, distro_version@),
{
    if str_eq(distro.as_str(), "ubuntu") {
        owned("ubuntu-stable-latest")
    } else if str_eq(distro.as_str(), "debian") {
        let mut r = owned("debian");
        push_str(&mut r, distro_version.as_str());
        r
    } else {
        owned("linux2022")
    }
}

/// The link-local prefix `fe80::`.
pub open spec fn link_local_prefix() -> Seq<u16> {
    seq![0xfe80u16, 0, 0, 0, 0, 0, 0, 0]
}

/// What `gen_new_vm_info` decides, given the random suffix and MAC address it
/// drew: names built from the sanitised machine name, the distribution and the
/// suffix; image paths under the storage directory; and, where IPv6 is
/// configured, the gateway (EUI-64 of the bridge MAC under `fe80::`) and the
/// address (EUI-64 of the drawn MAC under the configured prefix).
pub open spec fn new_vm_info_spec(
    args: &SubCmdCreate,
    config: &HustoaVmConfig,
    ssh_pubkey: Seq<char>,
    postfix: Seq<char>,
    mac: Seq<char>,
) -> Result<NewVmInfoView, MacError> {
    let safe = spaces_to_underscores(filenamify_text(args.name@));
    let vm_name = "hustoa-vm-"@ + safe + "-"@ + args.distro@ + "-"@ + postfix;
    let host_name = safe + "-"@ + args.distro@ + "-"@ + postfix;
    let version = match args.distro_version {
        Some(v) => v@,
        None => default_distro_version(args.distro@),
    };
    let base = NewVmInfoView {
        vm_name,
        user_name: match args.user {
            Some(u) => u@,
            None => args.name@,
        },
        host_name,
        distro: args.distro@,
        distro_version: version,
        ssh_pubkey,
        virt_inst_osinfo: virt_inst_osinfo(args.distro@, version),
        interface: config.common.libvirt_network@,
        disk_path: path_join(config.common.libvirt_storage@, vm_name + ".img"@),
        seed_path: path_join(config.common.libvirt_storage@, "seed-"@ + vm_name + ".img"@),
        ipv6info: None,
    };
    match config.ipv6conf {
        None => Ok(base),
        Some(c) => match mac_bytes(c.ipv6_bridge_mac@) {
            Err(e) => Err(e),
            Ok(gw) => match mac_bytes(mac) {
                Err(e) => Err(e),
                Ok(m) => Ok(
                    NewVmInfoView {
                        ipv6info: Some(
                            Ipv6InfoView {
                                v6_interface: c.libvirt_interface_v6@,
                                v6_net_mac: mac,
                                v6_gateway: eui64_segments(link_local_prefix(), gw),
                                v6_addr: eui64_segments(c.ipv6_prefix@, m),
                            },
                        ),
                        ..base
                    },
                ),
            },
        },
    }
}

impl NewVmInfo {
    /// Decides the names, paths and addresses of a new machine from the
    /// arguments, the configuration, the public key's text, a random suffix
    /// and a random MAC address.
    pub fn assemble(
        args: &SubCmdCreate,
        config: &HustoaVmConfig,
        ssh_pubkey: String,
        rand_postfix: &String,
        mac: &String,
    ) -> (r: Result<NewVmInfo, MacError>)
        ensures
            match new_vm_info_spec(args, config, ssh_pubkey@, rand_postfix@, mac@) {
                Ok(v) => r matches Ok(info) && info@ == v,
                Err(e) => r matches Err(e2) && e2 == e,
            },
    {
        let safe_name = safe_filename(args.name.as_str());
        let name_strip_space = replace_spaces(safe_name.as_str());
        let mut vm_name = owned("hustoa-vm-");
        push_str(&mut vm_name, name_strip_space.as_str());
        push_str(&mut vm_name, "-");
        push_str(&mut vm_name, args.distro.as_str());
        push_str(&mut vm_name, "-");
        push_str(&mut vm_name, rand_postfix.as_str());
        let user_name = match &args.user {
            Some(u) => u.clone(),
            None => args.name.clone(),
        };
        let mut host_name = name_strip_space.clone();
        push_str(&mut host_name, "-");
        push_str(&mut host_name, args.distro.as_str());
        push_str(&mut host_name, "-");
        push_str(&mut host_name, rand_postfix.as_str());
        let distro = args.distro.clone();
        let distro_version = match &args.distro_version {
            Some(v) => v.clone(),
            None => if str_eq(distro.as_str(), "ubuntu") {
                owned("noble")
            } else if str_eq(distro.as_str(), "debian") {
                owned("bookworm")
            } else {
                String::new()
            },
        };
        let virt_inst_osinfo = get_virt_inst_osinfo(&distro, &distro_version);
        let mut disk_name = vm_name.clone();
        push_str(&mut disk_name, ".img");
        let disk_path = join_path(config.common.libvirt_storage.as_str(), disk_name.as_str());
        let mut seed_name = owned("seed-");
        push_str(&mut seed_name, vm_name.as_str());
        push_str(&mut seed_name, ".img");
        let seed_path = join_path(config.common.libvirt_storage.as_str(), seed_name.as_str());
        let interface = config.common.libvirt_network.clone();
        let ipv6info = match &config.ipv6conf {
            None => None,
            Some(ipv6conf) => {
                let gateway = generate_eui64_from_mac(
                    ipv6conf.ipv6_bridge_mac.as_str(),
                    Ipv6Address::new([0xfe80, 0, 0, 0, 0, 0, 0, 0]),
                );
                let v6_gateway = match gateway {
                    Ok(g) => g,
                    Err(e) => return Err(e),
                };
                let v6_addr = match generate_eui64_from_mac(mac.as_str(), ipv6conf.ipv6_prefix) {
                    Ok(a) => a,
                    Err(e) => return Err(e),
                };
                Some(
                    Ipv6Info {
                        v6_interface: ipv6conf.libvirt_interface_v6.clone(),
                        v6_net_mac: mac.clone(),
                        v6_gateway,
                        v6_addr,
                    },
                )
            },
        };
        let r = NewVmInfo {
            vm_name,
            user_name,
            host_name,
            distro,
            distro_version,
            ssh_pubkey,
            virt_inst_osinfo,
            interface,
            disk_path,
            seed_path,
            ipv6info,
        };
        proof {
            let ghost safe = spaces_to_underscores(filenamify_text(args.name@));
            assert(r@.vm_name =~= "hustoa-vm-"@ + safe + "-"@ + args.distro@ + "-"@ + rand_postfix@);
            assert(r@.host_name =~= safe + "-"@ + args.distro@ + "-"@ + rand_postfix@);
            assert(seed_name@ =~= "seed-"@ + r@.vm_name + ".img"@);
            assert(link_local_prefix() =~= seq![0xfe80u16, 0, 0, 0, 0, 0, 0, 0]);
        }
        Ok(r)
    }

    /// Decides a new machine as `assemble` does, drawing the name suffix
    /// (eight hexadecimal digits) and the MAC address (`52:54:00:xx:xx:xx`)
    /// at random. It fails only where the bridge MAC address of the
    /// configuration does not parse.
    pub fn gen_new_vm_info(args: &SubCmdCreate, config: &HustoaVmConfig, ssh_pubkey: String) -> (r:
        Result<NewVmInfo, MacError>)
        ensures
            exists|b: Seq<u8>, m: Seq<u8>|
                b.len() == 4 && m.len() == 3 && match #[trigger] new_vm_info_spec(
                    args,
                    config,
                    ssh_pubkey@,
                    hex_encode(b),
                    #[trigger] qemu_mac_text(m),
                ) {
                    Ok(v) => r matches Ok(info) && info@ == v,
                    Err(e) => r matches Err(e2) && e2 == e,
                },
            r is Err ==> (config.ipv6conf matches Some(c) && mac_bytes(c.ipv6_bridge_mac@) is Err),
    {
        let rand_postfix = gen_rand_postfix();
        let mac = gen_mac_address_qemu();
        let ghost b = choose|b: Seq<u8>| b.len() == 4 && rand_postfix@ == hex_encode(b);
        let ghost m = choose|m: Seq<u8>| m.len() == 3 && mac@ == qemu_mac_text(m);
        proof {
            lemma_qemu_mac_parses(m);
        }
        NewVmInfo::assemble(args, config, ssh_pubkey, &rand_postfix, &mac)
    }
}


/// Why a machine's disk could not be prepared.
#[derive(Clone, Copy, Debug, PartialEq, Eq, Structural)]
pub enum CreateError {
    /// No image is known for the distribution and version.
    NoDownloadLink,
}

/// The Ubuntu cloud image of `version` for the host architecture `arch`,
/// none where the architecture has no images.
pub fn get_download_link_ubuntu(version: &String, arch: &str) -> (r: Option<String>)
    ensures
        match arch_codename(arch@) {
            Some(code) => r matches Some(l) && l@ == crate::distro_info::ubuntu::ubuntu_link(version@, code),
            None => r is None,
        },
{
    let code = match get_arch_codename(arch) {
        Some(c) => c,
        None => return None,
    };
    let mut link = owned("https://mirrors.ustc.edu.cn/ubuntu-cloud-images/");
    push_str(&mut link, version.as_str());
    push_str(&mut link, "/current/");
    push_str(&mut link, version.as_str());
    push_str(&mut link, "-server-cloudimg-");
    push_str(&mut link, code.as_str());
    push_str(&mut link, ".img");
    Some(link)
}

/// Arch Linux images are not downloaded by `create`.
pub fn get_download_link_archlinux(version: &String) -> (r: Option<String>)
    ensures
        r is None,
{
    None
}

/// The image to download for a distribution version: Ubuntu's cloud image,
/// none for Arch Linux or an unknown distribution. Debian's link is not
/// written yet, so Debian is not accepted.
pub fn get_download_link(distro: &String, version: &String, arch: &str) -> (r: Option<String>)
    requires
        distro@ != "debian"@,
    ensures
        if distro@ == "ubuntu"@ {
            match arch_codename(arch@) {
                Some(code) => r matches Some(l) && l@ == crate::distro_info::ubuntu::ubuntu_link(version@, code),
                None => r is None,
            }
        } else {
            r is None
        },
{
    if str_eq(distro.as_str(), "ubuntu") {
        get_download_link_ubuntu(version, arch)
    } else if str_eq(distro.as_str(), "archlinux") {
        get_download_link_archlinux(version)
    } else {
        None
    }
}

/// An owned list of string slices.
fn owned_all(v: &Vec<&str>) -> (r: Vec<String>)
    ensures
        r.deep_view() == v@.map_values(|s: &str| s@),
{
    let mut r: Vec<String> = Vec::new();
    let mut i: usize = 0;
    while i < v.len()
        invariant
            i <= v.len(),
            r.deep_view() == v@.map_values(|s: &str| s@).take(i as int),
        decreases v.len() - i,
    {
        let ghost before = r.deep_view();
        r.push(owned(v[i]));
        assert(r.deep_view() =~= before.push(v@[i as int]@));
        assert(v@.map_values(|s: &str| s@).take(i + 1) =~= v@.map_values(|s: &str| s@).take(
            i as int,
        ).push(v@[i as int]@));
        i = i + 1;
    }
    assert(v@.map_values(|s: &str| s@).take(v.len() as int) =~= v@.map_values(|s: &str| s@));
    r
}

/// The command that downloads the image to the disk path, and the one that
/// resizes it to the requested size in GiB.
pub open spec fn disk_commands_spec(disk_path: Seq<char>, link: Seq<char>, disk_size: u64) -> (
    (Seq<char>, Seq<Seq<char>>),
    (Seq<char>, Seq<Seq<char>>),
) {
    (
        ("wget"@, seq!["-O"@, disk_path, link]),
        ("qemu-img"@, seq!["resize"@, disk_path, decimal_text(disk_size as nat) + "G"@]),
    )
}

/// The `virt-install` arguments of a new machine.
pub open spec fn install_args_spec(info: NewVmInfoView, memory: u64, vcpus: usize, has_osinfo: bool) -> Seq<
    Seq<char>,
> {
    let base = seq![
        "--connect"@,
        "qemu:///system"@,
        "--import"@,
        "--memory"@,
        decimal_text(memory as nat * 1024),
        "--vcpus"@,
        decimal_text(vcpus as nat),
        "--graphic"@,
        "none"@,
        "--name"@,
        info.vm_name,
        "--disk"@,
        info.disk_path,
        "--cdrom"@,
        info.seed_path,
        "--network"@,
        "bridge="@ + info.interface,
    ];
    let with_v6 = match info.ipv6info {
        Some(i) => base + seq!["--network"@, "bridge="@ + i.v6_interface + ",mac="@ + i.v6_net_mac],
        None => base,
    };
    if has_osinfo {
        with_v6 + seq!["--osinfo"@, info.virt_inst_osinfo]
    } else {
        with_v6
    }
}

/// The package sources that `create` gives a distribution's machines.
pub open spec fn create_apt(distro: Seq<char>) -> Option<AptView> {
    if distro == "ubuntu"@ {
        Some(apt_sources("http://mirrors.hust.edu.cn/ubuntu"@, "http://security.ubuntu.com/ubuntu"@))
    } else if distro == "debian"@ {
        Some(apt_sources("http://mirrors.hust.edu.cn/debian"@, "https://security.debian.org/debian-security"@))
    } else {
        None
    }
}

/// The package sources of a new Ubuntu machine.
pub fn gen_package_manager_config_ubuntu(vminfo: &NewVmInfo) -> (r: Option<APTConfig>)
    ensures
        apt_view(r) == Some(apt_sources("http://mirrors.hust.edu.cn/ubuntu"@, "http://security.ubuntu.com/ubuntu"@)),
{
    Some(make_apt_config("http://mirrors.hust.edu.cn/ubuntu", "http://security.ubuntu.com/ubuntu"))
}

/// The package sources of a new Debian machine.
pub fn gen_package_manager_config_debian(vminfo: &NewVmInfo) -> (r: Option<APTConfig>)
    ensures
        apt_view(r) == Some(
            apt_sources("http://mirrors.hust.edu.cn/debian"@, "https://security.debian.org/debian-security"@),
        ),
{
    Some(make_apt_config("http://mirrors.hust.edu.cn/debian", "https://security.debian.org/debian-security"))
}

/// The package sources of a new machine, by its distribution.
pub fn gen_package_manager_config(vminfo: &NewVmInfo) -> (r: Option<APTConfig>)
    ensures
        apt_view(r) == create_apt(vminfo@.distro),
{
    if str_eq(vminfo.distro.as_str(), "ubuntu") {
        gen_package_manager_config_ubuntu(vminfo)
    } else if str_eq(vminfo.distro.as_str(), "debian") {
        gen_package_manager_config_debian(vminfo)
    } else {
        None
    }
}

/// The cloud-init user data of a new machine: its user with its key, and the
/// package sources of its distribution.
pub fn gen_user_data_config(vminfo: &NewVmInfo) -> (r: UserDataConfig)
    ensures
        r@ == user_data(vminfo@.user_name, vminfo@.ssh_pubkey, create_apt(vminfo@.distro), None, None, None),
{
    let apt = gen_package_manager_config(vminfo);
    make_user_data(&vminfo.user_name, &vminfo.ssh_pubkey, apt, None, None, None)
}

/// The cloud-init meta data of a new machine.
#[derive(Debug)]
pub struct MetaDataConfig {
    pub instance_id: String,
    pub local_hostname: String,
}

/// The cloud-init meta data: the machine name as instance id, and its host name.
pub fn gen_meta_data_config(vminfo: &NewVmInfo) -> (r: MetaDataConfig)
    ensures
        r.instance_id@ == vminfo@.vm_name,
        r.local_hostname@ == vminfo@.host_name,
{
    MetaDataConfig { instance_id: vminfo.vm_name.clone(), local_hostname: vminfo.host_name.clone() }
}

/// The network settings of one interface.
#[derive(Debug)]
pub struct EthernetConfig {
    pub dhcp4: bool,
    pub dhcp6: bool,
    pub addresses: Option<Vec<String>>,
    pub gateway6: Option<Ipv6Address>,
}

/// The interfaces of a new machine.
#[derive(Debug)]
pub struct Ethernets {
    pub enp1s0: EthernetConfig,
    pub enp2s0: Option<EthernetConfig>,
}

/// The `network` section.
#[derive(Debug)]
pub struct Network {
    pub ethernets: Ethernets,
    pub version: u8,
}

/// The cloud-init network configuration of a new machine.
#[derive(Debug)]
pub struct NetworkConfig {
    pub network: Network,
}

/// An interface as plain values: DHCPv4, DHCPv6, addresses, IPv6 gateway.
pub type EthernetView = (bool, bool, Option<Seq<Seq<char>>>, Option<Seq<u16>>);

pub open spec fn ethernet_view(e: EthernetConfig) -> EthernetView {
    (
        e.dhcp4,
        e.dhcp6,
        match e.addresses {
            Some(a) => Some(a.deep_view()),
            None => None,
        },
        match e.gateway6 {
            Some(g) => Some(g@),
            None => None,
        },
    )
}

/// The network configuration: version 2; the first interface on DHCPv4; the
/// second, where IPv6 is configured, with the machine's address as a /64 and
/// the gateway, without DHCP.
pub fn gen_network_config(vminfo: &NewVmInfo) -> (r: NetworkConfig)
    ensures
        r.network.version == 2,
        ethernet_view(r.network.ethernets.enp1s0) == (true, false, None::<Seq<Seq<char>>>, None::<Seq<u16>>),
        match vminfo@.ipv6info {
            Some(i) => r.network.ethernets.enp2s0 matches Some(e) && ethernet_view(e) == (
                false,
                false,
                Some(seq![ipv6_text(i.v6_addr) + "/64"@]),
                Some(i.v6_gateway),
            ),
            None => r.network.ethernets.enp2s0 is None,
        },
{
    let enp2s0_config = match &vminfo.ipv6info {
        Some(ipv6info) => {
            let mut v6addr = ipv6_to_string(&ipv6info.v6_addr);
            push_str(&mut v6addr, "/64");
            let addresses = vec![v6addr];
            assert(addresses.deep_view() =~= seq![ipv6_text(ipv6info.v6_addr@) + "/64"@]);
            Some(
                EthernetConfig {
                    dhcp4: false,
                    dhcp6: false,
                    addresses: Some(addresses),
                    gateway6: Some(ipv6info.v6_gateway),
                },
            )
        },
        None => None,
    };
    NetworkConfig {
        network: Network {
            version: 2,
            ethernets: Ethernets {
                enp1s0: EthernetConfig { dhcp4: true, dhcp6: false, addresses: None, gateway6: None },
                enp2s0: enp2s0_config,
            },
        },
    }
}

/// Where the three cloud-init files of a machine are written: user data,
/// meta data and network configuration, under `/tmp`.
pub open spec fn cloud_init_paths_spec(vm_name: Seq<char>) -> (Seq<char>, Seq<char>, Seq<char>) {
    (
        "/tmp/userdata-"@ + vm_name + ".yaml"@,
        "/tmp/metadata-"@ + vm_name + ".yaml"@,
        "/tmp/network-"@ + vm_name + ".yaml"@,
    )
}

impl NewVmInfo {
    /// Registers the machine's IPv6 address in the pool under the machine's
    /// name, where IPv6 is configured, and gives the commands that then
    /// refresh the NDP proxy entries and routes of the whole pool. A refused
    /// registration leaves the pool as it was and gives no commands.
    pub fn add_ndp_proxy(&self, pool: &mut V6Pool, config: &HustoaVmConfig) -> (r: Result<Vec<CommandLine>, PoolError>)
        ensures
            match self@.ipv6info {
                None => final(pool)@ == old(pool)@ && (r matches Ok(c) && c@.len() == 0),
                Some(i) => {
                    let (p, outcome) = pool_insert(old(pool)@, i.v6_addr, self@.vm_name);
                    &&& final(pool)@ == p
                    &&& match outcome {
                        Ok(_) => r matches Ok(c) && commands_view(c@) == (match config.ipv6conf {
                            Some(cf) => flush_commands(p, cf.wan_interface@, cf.libvirt_interface_v6@),
                            None => Seq::empty(),
                        }),
                        Err(e) => r == Err::<Vec<CommandLine>, PoolError>(e),
                    }
                },
            },
    {
        match &self.ipv6info {
            None => Ok(Vec::new()),
            Some(info) => match pool.insert(&info.v6_addr, &self.vm_name) {
                Ok(()) => Ok(pool.flush(config)),
                Err(e) => Err(e),
            },
        }
    }

    /// The commands that fetch the distribution image and resize it, or a
    /// refusal where no image is known.
    pub fn disk_commands(&self, args: &SubCmdCreate, arch: &str) -> (r: Result<(CommandLine, CommandLine), CreateError>)
        requires
            args.distro@ != "debian"@,
        ensures
            match (if args.distro@ == "ubuntu"@ {
                match arch_codename(arch@) {
                    Some(code) => Some(crate::distro_info::ubuntu::ubuntu_link(self@.distro_version, code)),
                    None => None,
                }
            } else {
                None
            }) {
                Some(link) => r matches Ok((w, q)) && (w@, q@) == disk_commands_spec(
                    self@.disk_path,
                    link,
                    args.disk_size,
                ),
                None => r == Err::<(CommandLine, CommandLine), CreateError>(CreateError::NoDownloadLink),
            },
    {
        let link = match get_download_link(&args.distro, &self.distro_version, arch) {
            Some(l) => l,
            None => return Err(CreateError::NoDownloadLink),
        };
        let wget_args = vec![owned("-O"), self.disk_path.clone(), link];
        let mut size = u64_to_decimal(args.disk_size);
        push_str(&mut size, "G");
        let resize_args = vec![owned("resize"), self.disk_path.clone(), size];
        let wget = CommandLine { program: owned("wget"), args: wget_args };
        let resize = CommandLine { program: owned("qemu-img"), args: resize_args };
        assert(wget.args.deep_view() =~= seq!["-O"@, self@.disk_path, link@]);
        assert(resize.args.deep_view() =~= seq!["resize"@, self@.disk_path, decimal_text(args.disk_size as nat) + "G"@]);
        Ok((wget, resize))
    }

    /// The paths of the three cloud-init files.
    pub fn cloud_init_paths(&self) -> (r: (String, String, String))
        ensures
            (r.0@, r.1@, r.2@) == cloud_init_paths_spec(self@.vm_name),
    {
        (
            crate::text::concat3("/tmp/userdata-", self.vm_name.as_str(), ".yaml"),
            crate::text::concat3("/tmp/metadata-", self.vm_name.as_str(), ".yaml"),
            crate::text::concat3("/tmp/network-", self.vm_name.as_str(), ".yaml"),
        )
    }

    /// The `cloud-localds` command that builds the seed image from the three
    /// cloud-init files.
    pub fn cloud_localds_command(&self) -> (r: CommandLine)
        ensures
            r@ == ("cloud-localds"@, seq![
                "-N"@,
                cloud_init_paths_spec(self@.vm_name).2,
                "-d"@,
                "qcow2"@,
                self@.seed_path,
                cloud_init_paths_spec(self@.vm_name).0,
                cloud_init_paths_spec(self@.vm_name).1,
            ]),
    {
        let (userdata, metadata, network) = self.cloud_init_paths();
        let args = vec![
            owned("-N"),
            network,
            owned("-d"),
            owned("qcow2"),
            self.seed_path.clone(),
            userdata,
            metadata,
        ];
        let r = CommandLine { program: owned("cloud-localds"), args };
        assert(r.args.deep_view() =~= seq![
            "-N"@,
            cloud_init_paths_spec(self@.vm_name).2,
            "-d"@,
            "qcow2"@,
            self@.seed_path,
            cloud_init_paths_spec(self@.vm_name).0,
            cloud_init_paths_spec(self@.vm_name).1,
        ]);
        r
    }

    /// The `virt-install` command that installs the machine: memory in MiB,
    /// the virtual CPUs, the disk and seed images, the bridge, the IPv6
    /// bridge with the machine's MAC where IPv6 is configured, and the OS
    /// name where `virt-install` knows `--osinfo`.
    pub fn install_command(&self, args: &SubCmdCreate, has_osinfo: bool) -> (r: CommandLine)
        requires
            args.memory * 1024 <= u64::MAX,
        ensures
            r@ == ("virt-install"@, install_args_spec(self@, args.memory, args.vcpus, has_osinfo)),
    {
        let memory_in_mb = u64_to_decimal(args.memory * 1024);
        let vcpus = u64_to_decimal(args.vcpus as u64);
        let mut network_conf1 = owned("bridge=");
        push_str(&mut network_conf1, self.interface.as_str());
        let mut params: Vec<String> = vec![
            owned("--connect"),
            owned("qemu:///system"),
            owned("--import"),
            owned("--memory"),
            memory_in_mb,
            owned("--vcpus"),
            vcpus,
            owned("--graphic"),
            owned("none"),
            owned("--name"),
            self.vm_name.clone(),
            owned("--disk"),
            self.disk_path.clone(),
            owned("--cdrom"),
            self.seed_path.clone(),
            owned("--network"),
            network_conf1,
        ];
        let ghost base = params.deep_view();
        assert(base =~= seq![
            "--connect"@,
            "qemu:///system"@,
            "--import"@,
            "--memory"@,
            decimal_text(args.memory as nat * 1024),
            "--vcpus"@,
            decimal_text(args.vcpus as nat),
            "--graphic"@,
            "none"@,
            "--name"@,
            self@.vm_name,
            "--disk"@,
            self@.disk_path,
            "--cdrom"@,
            self@.seed_path,
            "--network"@,
            "bridge="@ + self@.interface,
        ]);
        if let Some(ipv6info) = &self.ipv6info {
            let mut network_conf2 = owned("bridge=");
            push_str(&mut network_conf2, ipv6info.v6_interface.as_str());
            push_str(&mut network_conf2, ",mac=");
            push_str(&mut network_conf2, ipv6info.v6_net_mac.as_str());
            params.push(owned("--network"));
            params.push(network_conf2);
            assert(params.deep_view() =~= base + seq![
                "--network"@,
                "bridge="@ + ipv6info.v6_interface@ + ",mac="@ + ipv6info.v6_net_mac@,
            ]);
        }
        let ghost with_v6 = params.deep_view();
        if has_osinfo {
            params.push(owned("--osinfo"));
            params.push(self.virt_inst_osinfo.clone());
            assert(params.deep_view() =~= with_v6 + seq!["--osinfo"@, self@.virt_inst_osinfo]);
        }
        CommandLine { program: owned("virt-install"), args: params }
    }
}

/// The `virt-install` arguments: seventeen fixed ones (memory given in MiB,
/// the machine's name, disk, seed image and bridge), then the IPv6 bridge
/// with the machine's MAC address where IPv6 is configured, and last
/// `--osinfo` with the machine's OS name whenever `virt-install` knows that
/// option, whether or not IPv6 is configured.
pub proof fn law_install_args(info: NewVmInfoView, memory: u64, vcpus: usize, has_osinfo: bool)
    ensures
        ({
            let a = install_args_spec(info, memory, vcpus, has_osinfo);
            let n6: int = if info.ipv6info is Some { 2 } else { 0 };
            &&& a.len() == 17 + n6 + (if has_osinfo { 2int } else { 0int })
            &&& a[3] == "--memory"@ && a[4] == decimal_text(memory as nat * 1024)
            &&& a[5] == "--vcpus"@ && a[6] == decimal_text(vcpus as nat)
            &&& a[9] == "--name"@ && a[10] == info.vm_name
            &&& a[15] == "--network"@ && a[16] == "bridge="@ + info.interface
            &&& has_osinfo ==> (a[a.len() - 2] == "--osinfo"@ && a[a.len() - 1] == info.virt_inst_osinfo)
            &&& (info.ipv6info matches Some(i) ==> (a[17] == "--network"@ && a[18] == "bridge="@
                + i.v6_interface + ",mac="@ + i.v6_net_mac))
        }),
{
}

} // verus!
