//! Arch Linux: one rolling version and a fixed image.

use vstd::prelude::*;
use crate::text::owned;
use super::{Distro, DistroError, DistroErrorView, UserDataConfig, UserDataView, make_user_data, user_data, text_result, strings_view};

verus! {

/// Arch Linux, which has a single rolling version.
#[derive(Debug)]
pub struct ArchlinuxInfo;

/// The commands that set the package mirror and start the SSH server.
pub open spec fn archlinux_runcmd() -> Seq<Seq<char>> {
    seq![
        "echo 'Server = http://mirrors.hust.edu.cn/archlinux/$repo/os/$arch' > /etc/pacman.d/mirrorlist"@,
        "pacman -Sy"@,
        "systemctl enable sshd"@,
        "systemctl start sshd"@,
    ]
}

impl ArchlinuxInfo {
    pub fn new() -> (r: ArchlinuxInfo) {
        ArchlinuxInfo
    }

    pub open spec fn spec_name(&self) -> Seq<char> {
        "archlinux"@
    }

    pub open spec fn spec_check_version(&self, v: Seq<char>) -> Result<Seq<char>, DistroErrorView> {
        Ok("rolling"@)
    }

    pub open spec fn spec_latest_version(&self) -> Seq<char> {
        "rolling"@
    }

    pub open spec fn spec_download_link(&self, v: Seq<char>, arch: Seq<char>) -> Result<Seq<char>, DistroErrorView> {
        Ok("https://mirrors.hust.edu.cn/archlinux/images/latest/Arch-Linux-x86_64-cloudimg.qcow2"@)
    }

    pub open spec fn spec_osinfo_conf(&self, v: Seq<char>) -> Result<Seq<char>, DistroErrorView> {
        Ok("archlinux"@)
    }

    pub open spec fn spec_user_data(
        &self,
        v: Seq<char>,
        user: Seq<char>,
        pubkey: Seq<char>,
        arch: Seq<char>,
    ) -> UserDataView {
        user_data(
            user,
            pubkey,
            None,
            Some(archlinux_runcmd()),
            Some(seq!["runcmd"@]),
            Some(seq!["scripts-user"@]),
        )
    }
}

impl Distro for ArchlinuxInfo {
    fn name(&self) -> (r: String)
        ensures
            r@ == self.spec_name(),
    {
        owned("archlinux")
    }

    fn check_version(&self, version: &String) -> (r: Result<String, DistroError>)
        ensures
            text_result(r) == self.spec_check_version(version@),
    {
        Ok(owned("rolling"))
    }

    fn latest_version(&self) -> (r: String)
        ensures
            r@ == self.spec_latest_version(),
    {
        owned("rolling")
    }

    fn get_download_link(&self, version: &String, arch: &str) -> (r: Result<String, DistroError>)
        ensures
            text_result(r) == self.spec_download_link(version@, arch@),
    {
        Ok(owned("https://mirrors.hust.edu.cn/archlinux/images/latest/Arch-Linux-x86_64-cloudimg.qcow2"))
    }

    fn get_osinfo_conf(&self, version: &String) -> (r: Result<String, DistroError>)
        ensures
            text_result(r) == self.spec_osinfo_conf(version@),
    {
        Ok(owned("archlinux"))
    }

    fn gen_cloud_user_data(&self, version: &String, user: &String, pubkey: &String, arch: &str) -> (r:
        UserDataConfig)
        ensures
            r@ == self.spec_user_data(version@, user@, pubkey@, arch@),
    {
        let runcmd = vec![
            owned("echo 'Server = http://mirrors.hust.edu.cn/archlinux/$repo/os/$arch' > /etc/pacman.d/mirrorlist"),
            owned("pacman -Sy"),
            owned("systemctl enable sshd"),
            owned("systemctl start sshd"),
        ];
        let modules = vec![owned("runcmd")];
        let final_modules = vec![owned("scripts-user")];
        assert(runcmd.deep_view() =~= archlinux_runcmd());
        assert(modules.deep_view() =~= seq!["runcmd"@]);
        assert(final_modules.deep_view() =~= seq!["scripts-user"@]);
        make_user_data(user, pubkey, None, Some(runcmd), Some(modules), Some(final_modules))
    }
}

} // verus!
