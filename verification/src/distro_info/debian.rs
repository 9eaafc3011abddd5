//! Debian: versions from the table, images from cloud.debian.org.

use vstd::prelude::*;
use crate::text::{owned, push_str};
use super::{
    Distro, DistroError, DistroErrorView, DistroInfo, DistroView, UserDataConfig, UserDataView, make_user_data,
    user_data, text_result, get_version, find_version, lemma_find_version_member, checked_version,
    version_osinfo, arch_codename, get_arch_codename, apt_sources, make_apt_config,
    every_version_has_alias,
};

verus! {

/// Debian, described by its entry of the distribution table.
#[derive(Debug)]
pub struct DebianInfo {
    info: DistroInfo,
}

/// The image address of a Debian version for an image architecture.
pub open spec fn debian_link(name: Seq<char>, number: Seq<char>, code: Seq<char>) -> Seq<char> {
    "https://cloud.debian.org/images/cloud/"@ + name + "/latest/debian-"@ + number + "-generic-"@
        + code + ".qcow2"@
}

impl DebianInfo {
    #[verifier::type_invariant]
    spec fn aliases_present(&self) -> bool {
        every_version_has_alias(self.info@)
    }

    /// The table entry this describes.
    pub closed spec fn info(&self) -> DistroView {
        self.info@
    }

    pub fn new(info: &DistroInfo) -> (r: DebianInfo)
        requires
            every_version_has_alias(info@),
        ensures
            r.info() == info@,
    {
        DebianInfo { info: info.duplicate() }
    }

    pub open spec fn spec_name(&self) -> Seq<char> {
        "debian"@
    }

    pub open spec fn spec_check_version(&self, v: Seq<char>) -> Result<Seq<char>, DistroErrorView> {
        checked_version(self.info().versions, v, DistroErrorView::VersionNotFound(v))
    }

    pub open spec fn spec_latest_version(&self) -> Seq<char> {
        self.info().latest_version
    }

    pub open spec fn spec_download_link(&self, v: Seq<char>, arch: Seq<char>) -> Result<Seq<char>, DistroErrorView> {
        match find_version(self.info().versions, v) {
            None => Err(DistroErrorView::VersionNotFound(v)),
            Some(x) => match arch_codename(arch) {
                None => Err(DistroErrorView::UnsupportedArch),
                Some(code) => Ok(debian_link(x.name, x.alias[0], code)),
            },
        }
    }

    pub open spec fn spec_osinfo_conf(&self, v: Seq<char>) -> Result<Seq<char>, DistroErrorView> {
        version_osinfo(self.info().versions, v, DistroErrorView::VersionNotFound(v))
    }

    pub open spec fn spec_user_data(
        &self,
        v: Seq<char>,
        user: Seq<char>,
        pubkey: Seq<char>,
        arch: Seq<char>,
    ) -> UserDataView {
        user_data(
            user,
            pubkey,
            Some(apt_sources("http://mirrors.hust.edu.cn/debian"@, "http://security.debian.org/debian"@)),
            None,
            None,
            None,
        )
    }
}

impl Distro for DebianInfo {
    fn name(&self) -> (r: String)
        ensures
            r@ == self.spec_name(),
    {
        owned("debian")
    }

    fn check_version(&self, version: &String) -> (r: Result<String, DistroError>)
        ensures
            text_result(r) == self.spec_check_version(version@),
    {
        match get_version(&self.info, version) {
            Ok(item) => Ok(item.name),
            Err(e) => Err(e),
        }
    }

    fn latest_version(&self) -> (r: String)
        ensures
            r@ == self.spec_latest_version(),
    {
        self.info.latest_version.clone()
    }

    fn get_download_link(&self, version: &String, arch: &str) -> (r: Result<String, DistroError>)
        ensures
            text_result(r) == self.spec_download_link(version@, arch@),
    {
        proof {
            use_type_invariant(self);
        }
        let item = match get_version(&self.info, version) {
            Ok(item) => item,
            Err(e) => return Err(e),
        };
        proof {
            lemma_find_version_member(self.info@.versions, version@, 0);
        }
        let code = match get_arch_codename(arch) {
            Some(code) => code,
            None => return Err(DistroError::UnsupportedArch),
        };
        let mut link = owned("https://cloud.debian.org/images/cloud/");
        push_str(&mut link, item.name.as_str());
        push_str(&mut link, "/latest/debian-");
        push_str(&mut link, item.alias[0].as_str());
        push_str(&mut link, "-generic-");
        push_str(&mut link, code.as_str());
        push_str(&mut link, ".qcow2");
        assert(item.alias.deep_view()[0] == item.alias@[0]@);
        Ok(link)
    }

    fn get_osinfo_conf(&self, version: &String) -> (r: Result<String, DistroError>)
        ensures
            text_result(r) == self.spec_osinfo_conf(version@),
    {
        match get_version(&self.info, version) {
            Ok(item) => Ok(item.osinfo_conf),
            Err(e) => Err(e),
        }
    }

    fn gen_cloud_user_data(&self, version: &String, user: &String, pubkey: &String, arch: &str) -> (r:
        UserDataConfig)
        ensures
            r@ == self.spec_user_data(version@, user@, pubkey@, arch@),
    {
        let apt = self.gen_package_manager_config();
        make_user_data(user, pubkey, apt, None, None, None)
    }
}

impl DebianInfo {
    /// The APT sources of Debian machines: the HUST mirror and Debian's
    /// security archive.
    pub fn gen_package_manager_config(&self) -> (r: Option<super::APTConfig>)
        ensures
            super::apt_view(r) == Some(
                apt_sources("http://mirrors.hust.edu.cn/debian"@, "http://security.debian.org/debian"@),
            ),
    {
        Some(make_apt_config("http://mirrors.hust.edu.cn/debian", "http://security.debian.org/debian"))
    }
}

} // verus!
