use hustoa_vm::cmd::create::{
    gen_meta_data_config, gen_network_config, gen_package_manager_config, gen_user_data_config,
    get_download_link, get_virt_inst_osinfo, join_path, replace_spaces, CreateError, NewVmInfo, SubCmdCreate,
};
use hustoa_vm::cmd::install_hook::SubCmdInstallHook;
use hustoa_vm::cmd::restore_all::SubCmdRestoreAll;
use hustoa_vm::cmd::save_all::{list_running_command, SubCmdSaveAll};
use hustoa_vm::cmd::self_update::{SelfUpdateError, SubCmdSelfUpdate};
use hustoa_vm::config::{CommonConfig, HustoaVmConfig, Ipv6Config};
use hustoa_vm::ipv6::Ipv6Address;
use hustoa_vm::text::{i64_to_decimal, nonempty_lines_of, u64_to_decimal};
use hustoa_vm::tools::MacError;
use hustoa_vm::v6pool::{PoolError, V6Pool};

fn args(name: &str, distro: &str, version: Option<&str>) -> SubCmdCreate {
    SubCmdCreate {
        name: name.to_string(),
        user: None,
        ssh_pubkey: "/home/u/.ssh/id.pub".to_string(),
        distro: distro.to_string(),
        distro_version: version.map(|v| v.to_string()),
        disk_size: 80,
        memory: 16,
        vcpus: 4,
    }
}

fn config(ipv6: bool) -> HustoaVmConfig {
    HustoaVmConfig {
        common: CommonConfig::from_options(None, None, Some("br0".to_string()), None, None, None),
        ipv6conf: if ipv6 {
            Some(Ipv6Config {
                libvirt_interface_v6: "br6".to_string(),
                ipv6_bridge_mac: "52:54:00:12:34:56".to_string(),
                ipv6_prefix: Ipv6Address::new([0x2001, 0xdb8, 0, 1, 0, 0, 0, 0]),
                wan_interface: "eth0".to_string(),
            })
        } else {
            None
        },
    }
}

fn assembled(ipv6: bool) -> NewVmInfo {
    NewVmInfo::assemble(
        &args("alice", "ubuntu", None),
        &config(ipv6),
        "ssh-ed25519 KEY alice@host".to_string(),
        &"0a1b2c3d".to_string(),
        &"52:54:00:ab:cd:ef".to_string(),
    )
    .unwrap()
}

#[test]
fn assemble_names_and_paths() {
    let info = assembled(false);
    assert_eq!(info.vm_name, "hustoa-vm-alice-ubuntu-0a1b2c3d");
    assert_eq!(info.host_name, "alice-ubuntu-0a1b2c3d");
    assert_eq!(info.user_name, "alice");
    assert_eq!(info.distro_version, "noble");
    assert_eq!(info.virt_inst_osinfo, "ubuntu-stable-latest");
    assert_eq!(info.interface, "br0");
    assert_eq!(info.disk_path, "/var/lib/libvirt/images/hustoa-vm-alice-ubuntu-0a1b2c3d.img");
    assert_eq!(info.seed_path, "/var/lib/libvirt/images/seed-hustoa-vm-alice-ubuntu-0a1b2c3d.img");
    assert!(info.ipv6info.is_none());
}

#[test]
fn assemble_replaces_spaces_in_names() {
    let info = NewVmInfo::assemble(
        &args("bob smith", "debian", None),
        &config(false),
        String::new(),
        &"00000000".to_string(),
        &"52:54:00:00:00:01".to_string(),
    )
    .unwrap();
    assert_eq!(info.vm_name, "hustoa-vm-bob_smith-debian-00000000");
    assert_eq!(info.distro_version, "bookworm");
    assert_eq!(info.virt_inst_osinfo, "debianbookworm");
    assert_eq!(info.user_name, "bob smith");
}

#[test]
fn assemble_ipv6_addresses() {
    let info = assembled(true);
    let v6 = info.ipv6info.unwrap();
    assert_eq!(v6.v6_interface, "br6");
    assert_eq!(v6.v6_net_mac, "52:54:00:ab:cd:ef");
    assert_eq!(v6.v6_gateway.segments, [0xfe80, 0, 0, 0, 0x5054, 0x00ff, 0xfe12, 0x3456]);
    assert_eq!(v6.v6_addr.segments, [0x2001, 0xdb8, 0, 1, 0x5054, 0x00ff, 0xfeab, 0xcdef]);
}

#[test]
fn assemble_fails_on_bad_bridge_mac() {
    let mut c = config(true);
    if let Some(v6) = c.ipv6conf.as_mut() {
        v6.ipv6_bridge_mac = "52:54:00".to_string();
    }
    let r = NewVmInfo::assemble(
        &args("a", "ubuntu", None),
        &c,
        String::new(),
        &"00000000".to_string(),
        &"52:54:00:00:00:01".to_string(),
    );
    assert_eq!(r.err(), Some(MacError::WrongLength));
}

#[test]
fn gen_new_vm_info_draws_suffix_and_mac() {
    let info = NewVmInfo::gen_new_vm_info(&args("carol", "archlinux", Some("rolling")), &config(true), String::new())
        .unwrap();
    let suffix = info.vm_name.strip_prefix("hustoa-vm-carol-archlinux-").unwrap();
    assert_eq!(suffix.len(), 8);
    assert!(suffix.chars().all(|c| c.is_ascii_hexdigit()));
    assert_eq!(info.virt_inst_osinfo, "linux2022");
    let v6 = info.ipv6info.unwrap();
    assert!(v6.v6_net_mac.starts_with("52:54:00:"));
}

#[test]
fn disk_commands_for_ubuntu() {
    let info = assembled(false);
    let (wget, resize) = info.disk_commands(&args("alice", "ubuntu", None), "x86_64").unwrap();
    assert_eq!(wget.program, "wget");
    assert_eq!(
        wget.args,
        vec![
            "-O".to_string(),
            info.disk_path.clone(),
            "https://mirrors.ustc.edu.cn/ubuntu-cloud-images/noble/current/noble-server-cloudimg-amd64.img".to_string(),
        ]
    );
    assert_eq!(resize.program, "qemu-img");
    assert_eq!(resize.args, vec!["resize".to_string(), info.disk_path.clone(), "80G".to_string()]);
}

#[test]
fn disk_commands_refused_without_image() {
    let info = assembled(false);
    assert_eq!(info.disk_commands(&args("alice", "archlinux", None), "x86_64").err(), Some(CreateError::NoDownloadLink));
    assert_eq!(info.disk_commands(&args("alice", "ubuntu", None), "riscv64").err(), Some(CreateError::NoDownloadLink));
}

#[test]
fn download_links() {
    assert_eq!(
        get_download_link(&"ubuntu".to_string(), &"jammy".to_string(), "aarch64").unwrap(),
        "https://mirrors.ustc.edu.cn/ubuntu-cloud-images/jammy/current/jammy-server-cloudimg-arm64.img"
    );
    assert!(get_download_link(&"archlinux".to_string(), &"rolling".to_string(), "x86_64").is_none());
    assert!(get_download_link(&"gentoo".to_string(), &"x".to_string(), "x86_64").is_none());
}

#[test]
fn install_command_arguments() {
    let info = assembled(true);
    let cmd = info.install_command(&args("alice", "ubuntu", None), true);
    assert_eq!(cmd.program, "virt-install");
    let expected: Vec<String> = vec![
        "--connect", "qemu:///system", "--import", "--memory", "16384", "--vcpus", "4", "--graphic", "none",
        "--name", "hustoa-vm-alice-ubuntu-0a1b2c3d",
        "--disk", "/var/lib/libvirt/images/hustoa-vm-alice-ubuntu-0a1b2c3d.img",
        "--cdrom", "/var/lib/libvirt/images/seed-hustoa-vm-alice-ubuntu-0a1b2c3d.img",
        "--network", "bridge=br0", "--network", "bridge=br6,mac=52:54:00:ab:cd:ef",
        "--osinfo", "ubuntu-stable-latest",
    ]
    .into_iter()
    .map(|s| s.to_string())
    .collect();
    assert_eq!(cmd.args, expected);
    let without = assembled(false).install_command(&args("alice", "ubuntu", None), false);
    assert_eq!(without.args.len(), 17);
    assert_eq!(without.args[16], "bridge=br0");
}

#[test]
fn cloud_init_files_and_seed_command() {
    let info = assembled(false);
    let (user, meta, net) = info.cloud_init_paths();
    assert_eq!(user, "/tmp/userdata-hustoa-vm-alice-ubuntu-0a1b2c3d.yaml");
    assert_eq!(meta, "/tmp/metadata-hustoa-vm-alice-ubuntu-0a1b2c3d.yaml");
    assert_eq!(net, "/tmp/network-hustoa-vm-alice-ubuntu-0a1b2c3d.yaml");
    let seed = info.cloud_localds_command();
    assert_eq!(seed.program, "cloud-localds");
    assert_eq!(
        seed.args,
        vec!["-N".to_string(), net, "-d".to_string(), "qcow2".to_string(), info.seed_path.clone(), user, meta]
    );
}

#[test]
fn user_meta_and_network_config() {
    let info = assembled(true);
    let user = gen_user_data_config(&info);
    assert_eq!(user.system_info.default_user.name, "alice");
    assert_eq!(user.system_info.default_user.ssh_authorized_keys, vec!["ssh-ed25519 KEY alice@host".to_string()]);
    let apt = user.apt.unwrap();
    assert_eq!(apt.primary[0].uri, "http://mirrors.hust.edu.cn/ubuntu");
    assert_eq!(apt.security[0].uri, "http://security.ubuntu.com/ubuntu");
    assert!(user.runcmd.is_none());
    let meta = gen_meta_data_config(&info);
    assert_eq!(meta.instance_id, info.vm_name);
    assert_eq!(meta.local_hostname, info.host_name);
    let net = gen_network_config(&info);
    assert_eq!(net.network.version, 2);
    assert!(net.network.ethernets.enp1s0.dhcp4);
    let e2 = net.network.ethernets.enp2s0.unwrap();
    assert!(!e2.dhcp4 && !e2.dhcp6);
    assert_eq!(e2.addresses.unwrap(), vec!["2001:db8:0:1:5054:ff:feab:cdef/64".to_string()]);
    assert_eq!(e2.gateway6.unwrap().segments, [0xfe80, 0, 0, 0, 0x5054, 0x00ff, 0xfe12, 0x3456]);
    assert!(gen_network_config(&assembled(false)).network.ethernets.enp2s0.is_none());
}

#[test]
fn package_sources_by_distribution() {
    let mut info = assembled(false);
    info.distro = "debian".to_string();
    let apt = gen_package_manager_config(&info).unwrap();
    assert_eq!(apt.primary[0].uri, "http://mirrors.hust.edu.cn/debian");
    assert_eq!(apt.security[0].uri, "https://security.debian.org/debian-security");
    info.distro = "archlinux".to_string();
    assert!(gen_package_manager_config(&info).is_none());
}

#[test]
fn path_and_name_helpers() {
    assert_eq!(join_path("/var/lib", "x.img"), "/var/lib/x.img");
    assert_eq!(join_path("/var/lib/", "x.img"), "/var/lib/x.img");
    assert_eq!(join_path("", "x.img"), "x.img");
    assert_eq!(join_path("/var/lib", "/abs"), "/abs");
    assert_eq!(replace_spaces("a b  c"), "a_b__c");
    assert_eq!(get_virt_inst_osinfo(&"debian".to_string(), &"12".to_string()), "debian12");
    assert_eq!(get_virt_inst_osinfo(&"fedora".to_string(), &"40".to_string()), "linux2022");
}

#[test]
fn self_update_plan_for_arch() {
    let cmd = SubCmdSelfUpdate { arch: None };
    let plan = cmd.plan("x86_64", "/tmp/upd").unwrap();
    assert_eq!(
        plan.url,
        "https://github.com/hust-open-atom-club/hustoa-vm/releases/latest/download/hustoa-vm-x86_64-unknown-linux-musl.tar.gz"
    );
    assert_eq!(plan.download.args, vec!["-O".to_string(), "/tmp/upd/hustoa-vm.tar.gz".to_string(), plan.url.clone()]);
    assert_eq!(plan.extract.program, "tar");
    assert_eq!(plan.extract.args, vec!["-xzf", "/tmp/upd/hustoa-vm.tar.gz", "-C", "/tmp/upd"]);
    assert_eq!(plan.extracted_bin, "/tmp/upd/hustoa-vm");
    assert_eq!(plan.target_path, "/usr/local/bin/hustoa-vm");
    let arm = SubCmdSelfUpdate { arch: Some("aarch64".to_string()) }.plan("x86_64", "/t").unwrap();
    assert!(arm.url.ends_with("hustoa-vm-aarch64-unknown-linux-musl.tar.gz"));
    match (SubCmdSelfUpdate { arch: Some("mips".to_string()) }).plan("x86_64", "/t") {
        Err(SelfUpdateError::UnsupportedArch(a)) => assert_eq!(a, "mips"),
        _ => panic!("mips has no release"),
    }
}

#[test]
fn save_and_restore_commands() {
    assert_eq!(list_running_command().args, vec!["list", "--name"]);
    let cmds = SubCmdSaveAll { dryrun: false }.save_commands("vm-a\n\nvm-b\r\n", "/var/save");
    assert_eq!(cmds.len(), 2);
    assert_eq!(cmds[0].program, "virsh");
    assert_eq!(cmds[0].args, vec!["save", "vm-a", "/var/save/vm-a"]);
    assert_eq!(cmds[1].args, vec!["save", "vm-b", "/var/save/vm-b"]);
    let restore = SubCmdRestoreAll { dryrun: true }.restore_command("/var/save/vm-a");
    assert_eq!(restore.args, vec!["restore", "/var/save/vm-a"]);
}

#[test]
fn hook_install_paths() {
    let h = SubCmdInstallHook {};
    assert_eq!(h.hook_path(), "/etc/libvirt/hooks/qemu");
    assert_eq!(h.backup_path(), "/etc/libvirt/hooks/qemu.bak");
    assert!(h.wrapper_script().contains("exec /usr/local/bin/hustoa-vm hook \"$@\""));
}

#[test]
fn decimal_and_line_helpers() {
    assert_eq!(u64_to_decimal(0), "0");
    assert_eq!(u64_to_decimal(18446744073709551615), "18446744073709551615");
    assert_eq!(i64_to_decimal(-9223372036854775808), "-9223372036854775808");
    assert_eq!(i64_to_decimal(42), "42");
    assert_eq!(nonempty_lines_of("a\r\n\nb\nc"), vec!["a", "b", "c"]);
    assert!(nonempty_lines_of("").is_empty());
}

#[test]
fn ndp_proxy_registers_address_under_machine_name() {
    let info = assembled(true);
    let mut pool = V6Pool::new();
    let cmds = info.add_ndp_proxy(&mut pool, &config(true)).unwrap();
    assert_eq!(pool.pool.len(), 1);
    assert_eq!(pool.pool[0].domain, "hustoa-vm-alice-ubuntu-0a1b2c3d");
    assert_eq!(pool.pool[0].addr.segments, [0x2001, 0xdb8, 0, 1, 0x5054, 0x00ff, 0xfeab, 0xcdef]);
    assert_eq!(cmds.len(), 4);
    assert_eq!(
        cmds[0].args,
        vec!["-6", "neigh", "del", "proxy", "2001:db8:0:1:5054:ff:feab:cdef", "dev", "eth0"]
    );
    assert_eq!(cmds[3].args, vec!["-6", "route", "add", "2001:db8:0:1:5054:ff:feab:cdef", "dev", "br6"]);
    let mut other = assembled(true);
    other.vm_name = "another".to_string();
    assert_eq!(other.add_ndp_proxy(&mut pool, &config(true)).err(), Some(PoolError::SameAddrDifferentDomain));
    assert_eq!(pool.pool.len(), 1);
    let mut empty = V6Pool::new();
    assert!(assembled(false).add_ndp_proxy(&mut empty, &config(false)).unwrap().is_empty());
    assert!(empty.pool.is_empty());
}

#[test]
fn machine_names_are_made_safe_file_names() {
    let info = NewVmInfo::assemble(
        &args("web/db:1", "ubuntu", Some("jammy")),
        &config(false),
        String::new(),
        &"deadbeef".to_string(),
        &"52:54:00:00:00:01".to_string(),
    )
    .unwrap();
    assert_eq!(info.vm_name, "hustoa-vm-web_db_1-ubuntu-deadbeef");
    assert_eq!(info.host_name, "web_db_1-ubuntu-deadbeef");
    assert_eq!(info.user_name, "web/db:1");
    assert_eq!(info.distro_version, "jammy");
}

#[test]
fn user_option_names_the_default_user() {
    let mut a = args("sophie", "ubuntu", None);
    a.user = Some("admin".to_string());
    let info = NewVmInfo::assemble(
        &a,
        &config(false),
        String::new(),
        &"00000000".to_string(),
        &"52:54:00:00:00:01".to_string(),
    )
    .unwrap();
    assert_eq!(info.user_name, "admin");
    assert_eq!(info.vm_name, "hustoa-vm-sophie-ubuntu-00000000");
    assert_eq!(gen_user_data_config(&info).system_info.default_user.name, "admin");
}
