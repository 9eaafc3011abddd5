//! Ubuntu: versions from the table, images from the USTC mirror.

use vstd::prelude::*;
use crate::text::{owned, push_str, str_eq};
use super::{
    Distro, DistroError, DistroErrorView, DistroInfo, DistroView, VersionInfo, UserDataConfig, UserDataView,
    AptView, APTConfig, make_user_data, user_data, text_result, get_version, find_version,
    checked_version, version_osinfo, arch_codename, get_arch_codename, apt_sources,
    make_apt_config, apt_view,
};

verus! {

/// Ubuntu, described by its entry of the distribution table.
#[derive(Debug)]
pub struct UbuntuInfo {
    info: DistroInfo,
}

/// The image address of an Ubuntu version for an image architecture.
pub open spec fn ubuntu_link(name: Seq<char>, code: Seq<char>) -> Seq<char> {
    "https://mirrors.ustc.edu.cn/ubuntu-cloud-images/"@ + name + "/current/"@ + name
        + "-server-cloudimg-"@ + code + ".img"@
}

/// The APT sources of Ubuntu machines, by host architecture.
pub open spec fn ubuntu_apt(arch: Seq<char>) -> Option<AptView> {
    if arch == "x86_64"@ {
        Some(apt_sources("http://mirrors.hust.edu.cn/ubuntu"@, "http://security.ubuntu.com/ubuntu"@))
    } else if arch == "aarch64"@ {
        Some(apt_sources("http://mirrors.ustc.edu.cn/ubuntu-ports"@, "http://ports.ubuntu.com/ubuntu-ports"@))
    } else {
        None
    }
}

impl UbuntuInfo {
    #[verifier::type_invariant]
    spec fn has_versions(&self) -> bool {
        self.info@.versions.len() > 0
    }

    /// The table entry this describes.
    pub closed spec fn info(&self) -> DistroView {
        self.info@
    }

    pub fn new(info: &DistroInfo) -> (r: UbuntuInfo)
        requires
            info@.versions.len() > 0,
        ensures
            r.info() == info@,
    {
        UbuntuInfo { info: info.duplicate() }
    }

    pub open spec fn spec_name(&self) -> Seq<char> {
        "ubuntu"@
    }

    pub open spec fn spec_check_version(&self, v: Seq<char>) -> Result<Seq<char>, DistroErrorView> {
        checked_version(self.info().versions, v, DistroErrorView::UnknownVersion)
    }

    /// The first (newest) version of the list.
    pub open spec fn spec_latest_version(&self) -> Seq<char> {
        self.info().versions[0].name
    }

    pub open spec fn spec_download_link(&self, v: Seq<char>, arch: Seq<char>) -> Result<Seq<char>, DistroErrorView> {
        match find_version(self.info().versions, v) {
            None => Err(DistroErrorView::UnknownVersion),
            Some(x) => match arch_codename(arch) {
                None => Err(DistroErrorView::UnsupportedArch),
                Some(code) => Ok(ubuntu_link(x.name, code)),
            },
        }
    }

    pub open spec fn spec_osinfo_conf(&self, v: Seq<char>) -> Result<Seq<char>, DistroErrorView> {
        version_osinfo(self.info().versions, v, DistroErrorView::UnknownVersion)
    }

    pub open spec fn spec_user_data(
        &self,
        v: Seq<char>,
        user: Seq<char>,
        pubkey: Seq<char>,
        arch: Seq<char>,
    ) -> UserDataView {
        user_data(user, pubkey, ubuntu_apt(arch), None, None, None)
    }

    /// Looks a version up by name or alias; the first match wins.
    pub fn get_version(&self, version: &String) -> (r: Result<VersionInfo, DistroError>)
        ensures
            match find_version(self.info().versions, version@) {
                Some(x) => r matches Ok(v) && v@ == x,
                None => r matches Err(DistroError::UnknownVersion),
            },
    {
        match get_version(&self.info, version) {
            Ok(v) => Ok(v),
            Err(_) => Err(DistroError::UnknownVersion),
        }
    }

    /// The APT sources of Ubuntu machines for the host architecture `arch`.
    pub fn gen_package_manager_config(&self, arch: &str) -> (r: Option<APTConfig>)
        ensures
            apt_view(r) == ubuntu_apt(arch@),
    {
        if str_eq(arch, "x86_64") {
            Some(make_apt_config("http://mirrors.hust.edu.cn/ubuntu", "http://security.ubuntu.com/ubuntu"))
        } else if str_eq(arch, "aarch64") {
            Some(make_apt_config("http://mirrors.ustc.edu.cn/ubuntu-ports", "http://ports.ubuntu.com/ubuntu-ports"))
        } else {
            None
        }
    }
}

impl Distro for UbuntuInfo {
    fn name(&self) -> (r: String)
        ensures
            r@ == self.spec_name(),
    {
        owned("ubuntu")
    }

    fn check_version(&self, version: &String) -> (r: Result<String, DistroError>)
        ensures
            text_result(r) == self.spec_check_version(version@),
    {
        match self.get_version(version) {
            Ok(item) => Ok(item.name),
            Err(e) => Err(e),
        }
    }

    fn latest_version(&self) -> (r: String)
        ensures
            r@ == self.spec_latest_version(),
    {
        proof {
            use_type_invariant(self);
        }
        self.info.versions[0].name.clone()
    }

    fn get_download_link(&self, version: &String, arch: &str) -> (r: Result<String, DistroError>)
        ensures
            text_result(r) == self.spec_download_link(version@, arch@),
    {
        let item = match self.get_version(version) {
            Ok(item) => item,
            Err(e) => return Err(e),
        };
        let code = match get_arch_codename(arch) {
            Some(code) => code,
            None => return Err(DistroError::UnsupportedArch),
        };
        let mut link = owned("https://mirrors.ustc.edu.cn/ubuntu-cloud-images/");
        push_str(&mut link, item.name.as_str());
        push_str(&mut link, "/current/");
        push_str(&mut link, item.name.as_str());
        push_str(&mut link, "-server-cloudimg-");
        push_str(&mut link, code.as_str());
        push_str(&mut link, ".img");
        Ok(link)
    }

    fn get_osinfo_conf(&self, version: &String) -> (r: Result<String, DistroError>)
        ensures
            text_result(r) == self.spec_osinfo_conf(version@),
    {
        match self.get_version(version) {
            Ok(item) => Ok(item.osinfo_conf),
            Err(e) => Err(e),
        }
    }

    fn gen_cloud_user_data(&self, version: &String, user: &String, pubkey: &String, arch: &str) -> (r:
        UserDataConfig)
        ensures
            r@ == self.spec_user_data(version@, user@, pubkey@, arch@),
    {
        let apt = self.gen_package_manager_config(arch);
        make_user_data(user, pubkey, apt, None, None, None)
    }
}

/// `s` ends with `suffix`.
pub open spec fn ends_with(s: Seq<char>, suffix: Seq<char>) -> bool {
    s.len() >= suffix.len() && s.subrange(s.len() - suffix.len(), s.len() as int) == suffix
}

/// Ubuntu machines of an aarch64 host take their packages from ports
/// archives (both sources end in `ubuntu-ports`), those of an x86_64 host
/// from the main archive (neither source is a ports archive); other hosts
/// get no sources. Each list has one source, for the default architectures.
pub proof fn law_ubuntu_apt_archive(arch: Seq<char>)
    ensures
        arch == "aarch64"@ ==> (ubuntu_apt(arch) matches Some(a) && a.0.len() == 1 && a.1.len() == 1
            && ends_with(a.0[0].1, "ubuntu-ports"@) && ends_with(a.1[0].1, "ubuntu-ports"@)),
        arch == "x86_64"@ ==> (ubuntu_apt(arch) matches Some(a) && a.0.len() == 1 && a.1.len() == 1
            && !ends_with(a.0[0].1, "-ports"@) && !ends_with(a.1[0].1, "-ports"@)),
        arch != "aarch64"@ && arch != "x86_64"@ ==> ubuntu_apt(arch) is None,
        ubuntu_apt(arch) matches Some(a) ==> a.0[0].0 == seq!["default"@] && a.1[0].0 == seq!["default"@],
{
    reveal_strlit("aarch64");
    reveal_strlit("x86_64");
    reveal_strlit("ubuntu-ports");
    reveal_strlit("-ports");
    reveal_strlit("http://mirrors.ustc.edu.cn/ubuntu-ports");
    reveal_strlit("http://ports.ubuntu.com/ubuntu-ports");
    reveal_strlit("http://mirrors.hust.edu.cn/ubuntu");
    reveal_strlit("http://security.ubuntu.com/ubuntu");
    if arch == "aarch64"@ {
        assert("aarch64"@[0] != "x86_64"@[0]);
        let p = "http://mirrors.ustc.edu.cn/ubuntu-ports"@;
        let s = "http://ports.ubuntu.com/ubuntu-ports"@;
        assert(p.subrange(p.len() - 12, p.len() as int) =~= "ubuntu-ports"@);
        assert(s.subrange(s.len() - 12, s.len() as int) =~= "ubuntu-ports"@);
    }
    if arch == "x86_64"@ {
        let p = "http://mirrors.hust.edu.cn/ubuntu"@;
        let s = "http://security.ubuntu.com/ubuntu"@;
        assert(p.subrange(p.len() - 6, p.len() as int)[5] != "-ports"@[5]);
        assert(s.subrange(s.len() - 6, s.len() as int)[5] != "-ports"@[5]);
    }
}

} // verus!
