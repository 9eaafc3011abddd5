use hustoa_vm::distro_info::archlinux::ArchlinuxInfo;
use hustoa_vm::distro_info::{
    cloud_config_document, distro_version, get_arch_codename, get_distro, get_version, AnyDistro, Distro,
    DistroError,
};

const ARCH: &str = "x86_64";

#[test]
fn test_archlinux_info_name() {
    let arch = ArchlinuxInfo::new();
    assert_eq!(arch.name(), "archlinux");
}

#[test]
fn test_archlinux_latest_version() {
    let arch = ArchlinuxInfo::new();
    assert_eq!(arch.latest_version(), "rolling");
}

#[test]
fn test_archlinux_check_version() {
    let arch = ArchlinuxInfo::new();
    let result = arch.check_version(&"rolling".to_string());
    assert!(result.is_ok(), "ArchLinux version check should succeed");
    assert_eq!(result.unwrap(), "rolling");
}

#[test]
fn test_archlinux_check_version_any() {
    let arch = ArchlinuxInfo::new();
    let versions = vec!["rolling", "latest", "2024.01"];
    for version in &versions {
        let result = arch.check_version(&version.to_string());
        assert!(result.is_ok(), "Version check should succeed for {}", version);
    }
}

#[test]
fn test_archlinux_get_download_link() {
    let arch = ArchlinuxInfo::new();
    let result = arch.get_download_link(&"rolling".to_string(), ARCH);
    assert!(result.is_ok(), "Should get download link");
    let link = result.unwrap();
    assert!(link.contains("archlinux"), "Link should contain archlinux");
    assert!(link.contains("cloudimg"), "Link should contain cloudimg");
}

#[test]
fn test_archlinux_get_osinfo_conf() {
    let arch = ArchlinuxInfo::new();
    let result = arch.get_osinfo_conf(&"rolling".to_string());
    assert!(result.is_ok(), "Should get osinfo conf");
    assert_eq!(result.unwrap(), "archlinux");
}

#[test]
fn test_archlinux_download_link_format() {
    let arch = ArchlinuxInfo::new();
    let result = arch.get_download_link(&"rolling".to_string(), ARCH);
    assert!(result.is_ok(), "Should get download link");
    let link = result.unwrap();
    assert!(link.starts_with("https://"), "Link should start with https://");
    assert!(link.ends_with(".qcow2"), "Link should end with .qcow2");
}

#[test]
fn archlinux_user_data_sets_mirror_and_sshd() {
    let arch = ArchlinuxInfo::new();
    let user = "testuser".to_string();
    let pubkey = "ssh-rsa AAAAB test@host".to_string();
    let data = arch.gen_cloud_user_data(&"rolling".to_string(), &user, &pubkey, ARCH);
    assert_eq!(data.system_info.default_user.name, user);
    assert_eq!(data.system_info.default_user.ssh_authorized_keys, vec![pubkey]);
    assert_eq!(data.system_info.default_user.sudo, "ALL=(ALL) NOPASSWD:ALL");
    assert_eq!(data.system_info.default_user.shell, "/bin/bash");
    assert!(data.apt.is_none());
    let runcmd = data.runcmd.unwrap();
    assert_eq!(runcmd.len(), 4);
    assert_eq!(
        runcmd[0],
        "echo 'Server = http://mirrors.hust.edu.cn/archlinux/$repo/os/$arch' > /etc/pacman.d/mirrorlist"
    );
    assert_eq!(runcmd[1], "pacman -Sy");
    assert_eq!(runcmd[2], "systemctl enable sshd");
    assert_eq!(runcmd[3], "systemctl start sshd");
    assert_eq!(data.cloud_config_modules.unwrap(), vec!["runcmd".to_string()]);
    assert_eq!(data.cloud_final_modules.unwrap(), vec!["scripts-user".to_string()]);
}

#[test]
fn test_debian_info_name() {
    let ubuntu_info = get_distro("ubuntu").unwrap();
    let debian_info = get_distro("debian").unwrap();
    assert_eq!(debian_info.name(), "debian");
    assert_ne!(debian_info.name(), ubuntu_info.name());
}

#[test]
fn test_debian_latest_version() {
    let debian_info = get_distro("debian").unwrap();
    let latest = debian_info.latest_version();
    assert!(!latest.is_empty(), "Latest version should not be empty");
}

#[test]
fn test_debian_check_version_valid() {
    let debian_info = get_distro("debian").unwrap();
    let valid_versions = vec!["12", "bookworm", "11", "bullseye"];
    for version in &valid_versions {
        let result = debian_info.check_version(&version.to_string());
        if result.is_ok() {
            assert!(!result.unwrap().is_empty());
        }
    }
}

#[test]
fn test_debian_check_version_invalid() {
    let debian_info = get_distro("debian").unwrap();
    let result = debian_info.check_version(&"99.99".to_string());
    assert!(result.is_err(), "Invalid version should return error");
}

#[test]
fn test_debian_get_osinfo_conf() {
    let debian_info = get_distro("debian").unwrap();
    let result = debian_info.get_osinfo_conf(&"12".to_string());
    assert!(result.is_ok(), "Should get osinfo conf for Debian 12");
    let osinfo = result.unwrap();
    assert!(!osinfo.is_empty(), "osinfo conf should not be empty");
}

#[test]
fn test_get_arch_codename_x86_64() {
    let arch = get_arch_codename("x86_64");
    assert_eq!(arch, Some("amd64".to_string()));
}

#[test]
fn test_get_arch_codename_aarch64() {
    let arch = get_arch_codename("aarch64");
    assert_eq!(arch, Some("arm64".to_string()));
}

#[test]
fn arch_codename_unknown_architecture() {
    assert_eq!(get_arch_codename("riscv64"), None);
}

#[test]
fn debian_versions_resolve_by_number_and_name() {
    let debian_info = get_distro("debian").unwrap();
    assert_eq!(debian_info.check_version(&"12".to_string()).unwrap(), "bookworm");
    assert_eq!(debian_info.check_version(&"bullseye".to_string()).unwrap(), "bullseye");
    assert_eq!(debian_info.get_osinfo_conf(&"bookworm".to_string()).unwrap(), "debian12");
    assert_eq!(debian_info.latest_version(), "bookworm");
}

#[test]
fn debian_download_link() {
    let debian_info = get_distro("debian").unwrap();
    assert_eq!(
        debian_info.get_download_link(&"12".to_string(), "x86_64").unwrap(),
        "https://cloud.debian.org/images/cloud/bookworm/latest/debian-12-generic-amd64.qcow2"
    );
    assert_eq!(
        debian_info.get_download_link(&"bullseye".to_string(), "aarch64").unwrap(),
        "https://cloud.debian.org/images/cloud/bullseye/latest/debian-11-generic-arm64.qcow2"
    );
    assert_eq!(
        debian_info.get_download_link(&"99".to_string(), "x86_64").unwrap_err(),
        DistroError::VersionNotFound("99".to_string())
    );
    assert_eq!(
        debian_info.get_download_link(&"12".to_string(), "mips").unwrap_err(),
        DistroError::UnsupportedArch
    );
}

#[test]
fn debian_user_data_uses_hust_mirror() {
    let debian_info = get_distro("debian").unwrap();
    let data = debian_info.gen_cloud_user_data(
        &"12".to_string(),
        &"u".to_string(),
        &"k".to_string(),
        "x86_64",
    );
    let apt = data.apt.unwrap();
    assert_eq!(apt.primary.len(), 1);
    assert_eq!(apt.primary[0].uri, "http://mirrors.hust.edu.cn/debian");
    assert_eq!(apt.primary[0].arches, vec!["default".to_string()]);
    assert_eq!(apt.security[0].uri, "http://security.debian.org/debian");
    assert!(data.runcmd.is_none());
}

#[test]
fn test_get_distro_ubuntu() {
    let distro = get_distro("ubuntu");
    assert!(distro.is_ok(), "Should get Ubuntu distro");
    let ubuntu = distro.unwrap();
    assert_eq!(ubuntu.name(), "ubuntu");
}

#[test]
fn test_get_distro_debian() {
    let distro = get_distro("debian");
    assert!(distro.is_ok(), "Should get Debian distro");
    let debian = distro.unwrap();
    assert_eq!(debian.name(), "debian");
}

#[test]
fn test_get_distro_archlinux() {
    let distro = get_distro("archlinux");
    assert!(distro.is_ok(), "Should get ArchLinux distro");
    let arch = distro.unwrap();
    assert_eq!(arch.name(), "archlinux");
}

#[test]
fn test_get_distro_unsupported() {
    let distro = get_distro("fedora");
    assert!(distro.is_err(), "Should error on unsupported distro");
}

#[test]
fn get_distro_unsupported_error_kind() {
    assert_eq!(get_distro("fedora").err(), Some(DistroError::UnsupportedDistro));
    assert_eq!(get_distro("").err(), Some(DistroError::UnsupportedDistro));
    assert!(matches!(get_distro("archlinux"), Ok(AnyDistro::Archlinux(_))));
}

#[test]
fn test_distro_info_list_not_empty() {
    assert!(!distro_version().distro.is_empty(), "Distro list should not be empty");
}

#[test]
fn test_ubuntu_in_distro_list() {
    let ubuntu_found = distro_version().distro.iter().any(|d| d.name == "ubuntu");
    assert!(ubuntu_found, "Ubuntu should be in distro list");
}

#[test]
fn test_debian_in_distro_list() {
    let debian_found = distro_version().distro.iter().any(|d| d.name == "debian");
    assert!(debian_found, "Debian should be in distro list");
}

#[test]
fn test_all_distros_have_latest_version() {
    for distro in &distro_version().distro {
        assert!(!distro.latest_version.is_empty(), "{} should have latest_version", distro.name);
    }
}

#[test]
fn test_all_distros_have_versions() {
    for distro in &distro_version().distro {
        assert!(!distro.versions.is_empty(), "{} should have versions", distro.name);
    }
}

#[test]
fn test_all_versions_have_name() {
    for distro in &distro_version().distro {
        for version in &distro.versions {
            assert!(!version.name.is_empty(), "Version should have a name");
        }
    }
}

#[test]
fn test_ubuntu_versions_have_osinfo() {
    let list = distro_version();
    let ubuntu = list.distro.iter().find(|d| d.name == "ubuntu").unwrap();
    for version in &ubuntu.versions {
        assert!(!version.osinfo_conf.is_empty(), "Ubuntu version {} should have osinfo_conf", version.name);
    }
}

#[test]
fn test_debian_versions_have_osinfo() {
    let list = distro_version();
    let debian = list.distro.iter().find(|d| d.name == "debian").unwrap();
    for version in &debian.versions {
        assert!(!version.osinfo_conf.is_empty(), "Debian version {} should have osinfo_conf", version.name);
    }
}

#[test]
fn test_get_version_valid() {
    let list = distro_version();
    let ubuntu = list.distro.iter().find(|d| d.name == "ubuntu").unwrap();
    let version = get_version(ubuntu, &"22.04".to_string());
    assert!(version.is_ok(), "Should find valid version");
}

#[test]
fn test_get_version_by_alias() {
    let list = distro_version();
    let ubuntu = list.distro.iter().find(|d| d.name == "ubuntu").unwrap();
    let version = get_version(ubuntu, &"jammy".to_string());
    assert!(version.is_ok(), "Should find version by alias");
    // When using alias, the returned name is the canonical name
    assert!(version.unwrap().alias.contains(&"22.04".to_string()), "Version should have 22.04 as alias");
}

#[test]
fn test_get_version_invalid() {
    let list = distro_version();
    let ubuntu = list.distro.iter().find(|d| d.name == "ubuntu").unwrap();
    let version = get_version(ubuntu, &"99.99".to_string());
    assert!(version.is_err(), "Should error on invalid version");
}

#[test]
fn get_ubuntu_info() {
    let ubuntu = match get_distro("ubuntu").unwrap() {
        AnyDistro::Ubuntu(u) => u,
        _ => panic!("ubuntu is not Ubuntu"),
    };
    assert_eq!(ubuntu.latest_version(), "noble");
    assert_eq!(ubuntu.get_osinfo_conf(&"focal".to_string()).unwrap(), "ubuntufocal");
    println!("{}", ubuntu.get_download_link(&"24.04".to_string(), ARCH).unwrap());
}

#[test]
fn ubuntu_download_link_and_sources() {
    let ubuntu = get_distro("ubuntu").unwrap();
    assert_eq!(
        ubuntu.get_download_link(&"24.04".to_string(), "x86_64").unwrap(),
        "https://mirrors.ustc.edu.cn/ubuntu-cloud-images/noble/current/noble-server-cloudimg-amd64.img"
    );
    assert_eq!(ubuntu.check_version(&"22.04".to_string()).unwrap(), "jammy");
    let x86 = ubuntu.gen_cloud_user_data(&"noble".to_string(), &"u".to_string(), &"k".to_string(), "x86_64");
    assert_eq!(x86.apt.unwrap().primary[0].uri, "http://mirrors.hust.edu.cn/ubuntu");
    let arm = ubuntu.gen_cloud_user_data(&"noble".to_string(), &"u".to_string(), &"k".to_string(), "aarch64");
    assert_eq!(arm.apt.unwrap().security[0].uri, "http://ports.ubuntu.com/ubuntu-ports");
    let other = ubuntu.gen_cloud_user_data(&"noble".to_string(), &"u".to_string(), &"k".to_string(), "riscv64");
    assert!(other.apt.is_none());
}

fn arch_user_data() -> hustoa_vm::distro_info::UserDataConfig {
    let arch = ArchlinuxInfo::new();
    let user = "testuser".to_string();
    let pubkey = "ssh-rsa AAAAB test@host".to_string();
    let version = "rolling".to_string();
    arch.gen_cloud_user_data(&version, &user, &pubkey, ARCH)
}

#[test]
fn test_archlinux_gen_cloud_user_data() {
    let data = arch_user_data();
    let document = cloud_config_document("system_info: {}\n");
    assert!(document.starts_with("#cloud-config\n"), "Should start with cloud-config");
    assert_eq!(data.system_info.default_user.name, "testuser");
    assert!(data
        .system_info
        .default_user
        .ssh_authorized_keys
        .contains(&"ssh-rsa AAAAB test@host".to_string()));
}

#[test]
fn test_archlinux_userdata_has_pacman_commands() {
    let runcmd = arch_user_data().runcmd.unwrap();
    assert!(runcmd.iter().any(|c| c.contains("pacman")), "Should have pacman commands");
    assert!(runcmd.iter().any(|c| c.contains("mirrors.hust.edu.cn")), "Should use HUST mirrors");
}

#[test]
fn test_archlinux_userdata_has_sshd_commands() {
    let runcmd = arch_user_data().runcmd.unwrap();
    assert!(runcmd.iter().any(|c| c.contains("sshd")), "Should have sshd commands");
    assert!(runcmd.iter().any(|c| c.contains("systemctl")), "Should have systemctl commands");
}

#[test]
fn test_archlinux_userdata_has_runcmd() {
    let data = arch_user_data();
    assert!(data.runcmd.is_some(), "Should have runcmd section");
    assert!(data.cloud_config_modules.unwrap().contains(&"runcmd".to_string()));
}

#[test]
fn test_archlinux_userdata_has_sudo() {
    let data = arch_user_data();
    assert!(data.system_info.default_user.sudo.contains("NOPASSWD"), "Should have sudo without password");
}

fn debian_user_data() -> hustoa_vm::distro_info::UserDataConfig {
    let debian_info = get_distro("debian").unwrap();
    let user = "testuser".to_string();
    let pubkey = "ssh-rsa AAAAB test@host".to_string();
    let version = "12".to_string();
    assert!(debian_info.check_version(&version).is_ok());
    debian_info.gen_cloud_user_data(&version, &user, &pubkey, ARCH)
}

#[test]
fn test_debian_gen_cloud_user_data() {
    let data = debian_user_data();
    let document = cloud_config_document("apt: {}\n");
    assert!(document.starts_with("#cloud-config\n"), "Should start with cloud-config");
    assert_eq!(data.system_info.default_user.name, "testuser");
    assert_eq!(
        data.system_info.default_user.ssh_authorized_keys,
        vec!["ssh-rsa AAAAB test@host".to_string()]
    );
}

#[test]
fn test_debian_userdata_has_sudo() {
    let data = debian_user_data();
    assert!(data.system_info.default_user.sudo.contains("NOPASSWD"), "Should have sudo without password");
}

#[test]
fn test_debian_userdata_has_shell() {
    let data = debian_user_data();
    assert_eq!(data.system_info.default_user.shell, "/bin/bash", "Should have bash shell");
}

#[test]
fn cloud_config_document_prefixes_header() {
    assert_eq!(cloud_config_document("a: 1\n"), "#cloud-config\na: 1\n");
    assert_eq!(cloud_config_document(""), "#cloud-config\n");
}

#[test]
fn refusal_messages_name_the_missing_version() {
    let debian_info = get_distro("debian").unwrap();
    let e = debian_info.check_version(&"13".to_string()).unwrap_err();
    assert_eq!(e, DistroError::VersionNotFound("13".to_string()));
    assert_eq!(e.message(), "Cannot found version 13");
    let ubuntu_info = get_distro("ubuntu").unwrap();
    let u = ubuntu_info.get_osinfo_conf(&"16.04".to_string()).unwrap_err();
    assert_eq!(u, DistroError::UnknownVersion);
    assert_eq!(u.message(), "Cannot found version");
    assert_eq!(get_distro("fedora").err().unwrap().message(), "Unsupported distro");
    assert_eq!(DistroError::UnsupportedArch.message(), "unsupport arch");
    let info = &distro_version().distro[1];
    assert_eq!(get_version(info, &"sid".to_string()).unwrap_err(), DistroError::VersionNotFound("sid".to_string()));
}
