//! What the tool knows of each supported distribution: its versions, where its
//! cloud images are, and the cloud-init user data its machines get.

pub mod ubuntu;
pub mod debian;
pub mod archlinux;

use vstd::prelude::*;
use crate::text::{owned, str_eq};
use ubuntu::UbuntuInfo;
use debian::DebianInfo;
use archlinux::ArchlinuxInfo;

verus! {

/// One version of a distribution.
#[derive(Debug)]
pub struct VersionInfo {
    /// Canonical name (code name).
    pub name: String,
    /// Other names of the version (version numbers).
    pub alias: Vec<String>,
    /// The `virt-install --osinfo` value for it.
    pub osinfo_conf: String,
}

/// A distribution and its versions, newest first.
#[derive(Debug)]
pub struct DistroInfo {
    pub name: String,
    pub latest_version: String,
    pub versions: Vec<VersionInfo>,
}

/// Every supported distribution.
#[derive(Debug)]
pub struct DistroInfoList {
    pub distro: Vec<DistroInfo>,
}

/// A version as plain values.
pub struct VersionView {
    pub name: Seq<char>,
    pub alias: Seq<Seq<char>>,
    pub osinfo_conf: Seq<char>,
}

/// A distribution as plain values.
pub struct DistroView {
    pub name: Seq<char>,
    pub latest_version: Seq<char>,
    pub versions: Seq<VersionView>,
}

impl View for VersionInfo {
    type V = VersionView;

    open spec fn view(&self) -> VersionView {
        VersionView { name: self.name@, alias: self.alias.deep_view(), osinfo_conf: self.osinfo_conf@ }
    }
}

pub open spec fn versions_view(v: Seq<VersionInfo>) -> Seq<VersionView> {
    v.map_values(|x: VersionInfo| x@)
}

impl View for DistroInfo {
    type V = DistroView;

    open spec fn view(&self) -> DistroView {
        DistroView {
            name: self.name@,
            latest_version: self.latest_version@,
            versions: versions_view(self.versions@),
        }
    }
}

pub open spec fn distros_view(v: Seq<DistroInfo>) -> Seq<DistroView> {
    v.map_values(|x: DistroInfo| x@)
}

impl View for DistroInfoList {
    type V = Seq<DistroView>;

    open spec fn view(&self) -> Seq<DistroView> {
        distros_view(self.distro@)
    }
}

/// Why a distribution request was refused.
#[derive(Clone, Debug, PartialEq, Eq)]
pub enum DistroError {
    /// The distribution is not supported.
    UnsupportedDistro,
    /// The distribution table has no version of this name or alias.
    VersionNotFound(String),
    /// Ubuntu has no version of the name or alias asked for.
    UnknownVersion,
    /// The host architecture has no images.
    UnsupportedArch,
}

/// A refusal as plain values.
pub enum DistroErrorView {
    UnsupportedDistro,
    VersionNotFound(Seq<char>),
    UnknownVersion,
    UnsupportedArch,
}

impl View for DistroError {
    type V = DistroErrorView;

    open spec fn view(&self) -> DistroErrorView {
        match self {
            DistroError::UnsupportedDistro => DistroErrorView::UnsupportedDistro,
            DistroError::VersionNotFound(v) => DistroErrorView::VersionNotFound(v@),
            DistroError::UnknownVersion => DistroErrorView::UnknownVersion,
            DistroError::UnsupportedArch => DistroErrorView::UnsupportedArch,
        }
    }
}

/// The message that tells a user of a refusal.
pub open spec fn error_message(e: DistroErrorView) -> Seq<char> {
    match e {
        DistroErrorView::UnsupportedDistro => "Unsupported distro"@,
        DistroErrorView::VersionNotFound(v) => "Cannot found version "@ + v,
        DistroErrorView::UnknownVersion => "Cannot found version"@,
        DistroErrorView::UnsupportedArch => "unsupport arch"@,
    }
}

impl DistroError {
    /// The message that tells a user of the refusal; a missing version of
    /// the table is named in it.
    pub fn message(&self) -> (r: String)
        ensures
            r@ == error_message(self@),
    {
        match self {
            DistroError::UnsupportedDistro => owned("Unsupported distro"),
            DistroError::VersionNotFound(v) => {
                let mut m = owned("Cannot found version ");
                m.append(v.as_str());
                m
            },
            DistroError::UnknownVersion => owned("Cannot found version"),
            DistroError::UnsupportedArch => owned("unsupport arch"),
        }
    }
}

/// A textual result as plain values.
pub open spec fn text_result(r: Result<String, DistroError>) -> Result<Seq<char>, DistroErrorView> {
    match r {
        Ok(s) => Ok(s@),
        Err(e) => Err(e@),
    }
}

pub open spec fn version_entry(name: Seq<char>, alias: Seq<Seq<char>>, osinfo_conf: Seq<char>) -> VersionView {
    VersionView { name, alias, osinfo_conf }
}

/// The supported distributions and their versions.
pub open spec fn distro_table() -> Seq<DistroView> {
    seq![
        DistroView {
            name: "ubuntu"@,
            latest_version: "noble"@,
            versions: seq![
                version_entry("noble"@, seq!["24.04"@], "ubuntu-stable-latest"@),
                version_entry("jammy"@, seq!["22.04"@], "ubuntujammy"@),
                version_entry("focal"@, seq!["20.04"@], "ubuntufocal"@),
                version_entry("bionic"@, seq!["18.04"@], "ubuntubionic"@),
            ],
        },
        DistroView {
            name: "debian"@,
            latest_version: "bookworm"@,
            versions: seq![
                version_entry("bookworm"@, seq!["12"@], "debian12"@),
                version_entry("bullseye"@, seq!["11"@], "debian11"@),
            ],
        },
        DistroView {
            name: "archlinux"@,
            latest_version: "rolling"@,
            versions: seq![version_entry("rolling"@, Seq::empty(), "archlinux"@)],
        },
    ]
}

fn make_version(name: &str, alias: Vec<String>, osinfo_conf: &str) -> (r: VersionInfo)
    ensures
        r@ == version_entry(name@, alias.deep_view(), osinfo_conf@),
{
    VersionInfo { name: owned(name), alias, osinfo_conf: owned(osinfo_conf) }
}

fn one_alias(a: &str) -> (r: Vec<String>)
    ensures
        r.deep_view() == seq![a@],
{
    let r = vec![owned(a)];
    assert(r.deep_view() =~= seq![a@]);
    r
}

/// The supported distributions and their versions.
pub fn distro_version() -> (r: DistroInfoList)
    ensures
        r@ == distro_table(),
{
    let ubuntu = DistroInfo {
        name: owned("ubuntu"),
        latest_version: owned("noble"),
        versions: vec![
            make_version("noble", one_alias("24.04"), "ubuntu-stable-latest"),
            make_version("jammy", one_alias("22.04"), "ubuntujammy"),
            make_version("focal", one_alias("20.04"), "ubuntufocal"),
            make_version("bionic", one_alias("18.04"), "ubuntubionic"),
        ],
    };
    assert(ubuntu@.versions =~= distro_table()[0].versions);
    let debian = DistroInfo {
        name: owned("debian"),
        latest_version: owned("bookworm"),
        versions: vec![
            make_version("bookworm", one_alias("12"), "debian12"),
            make_version("bullseye", one_alias("11"), "debian11"),
        ],
    };
    assert(debian@.versions =~= distro_table()[1].versions);
    let no_alias: Vec<String> = Vec::new();
    assert(no_alias.deep_view() =~= Seq::<Seq<char>>::empty());
    let archlinux = DistroInfo {
        name: owned("archlinux"),
        latest_version: owned("rolling"),
        versions: vec![make_version("rolling", no_alias, "archlinux")],
    };
    assert(archlinux@.versions =~= distro_table()[2].versions);
    let r = DistroInfoList { distro: vec![ubuntu, debian, archlinux] };
    assert(r@ =~= distro_table());
    r
}


/// The first version, from index `i` on, named `v` or having `v` as an alias.
pub open spec fn find_version_from(vs: Seq<VersionView>, v: Seq<char>, i: int) -> Option<VersionView>
    decreases vs.len() - i,
{
    if i < 0 || i >= vs.len() {
        None
    } else if vs[i].name == v || vs[i].alias.contains(v) {
        Some(vs[i])
    } else {
        find_version_from(vs, v, i + 1)
    }
}

/// The first version named `v` or having `v` as an alias.
pub open spec fn find_version(vs: Seq<VersionView>, v: Seq<char>) -> Option<VersionView> {
    find_version_from(vs, v, 0)
}

/// Whether `v` holds a string equal to `s`.
pub fn strings_contain(v: &Vec<String>, s: &String) -> (r: bool)
    ensures
        r == v.deep_view().contains(s@),
{
    let mut i: usize = 0;
    while i < v.len()
        invariant
            i <= v.len(),
            forall|j: int| 0 <= j < i ==> v.deep_view()[j] != s@,
        decreases v.len() - i,
    {
        assert(v.deep_view()[i as int] == v@[i as int]@);
        if v[i] == *s {
            assert(v.deep_view()[i as int] == s@);
            return true;
        }
        i = i + 1;
    }
    false
}

/// Copies a list of strings.
pub fn copy_strings(v: &Vec<String>) -> (r: Vec<String>)
    ensures
        r.deep_view() == v.deep_view(),
{
    let mut r: Vec<String> = Vec::new();
    let mut i: usize = 0;
    while i < v.len()
        invariant
            i <= v.len(),
            r.deep_view() == v.deep_view().take(i as int),
        decreases v.len() - i,
    {
        let ghost before = r.deep_view();
        r.push(v[i].clone());
        assert(r.deep_view() =~= before.push(v@[i as int]@));
        assert(v.deep_view().take(i + 1) =~= v.deep_view().take(i as int).push(v@[i as int]@));
        i = i + 1;
    }
    assert(v.deep_view().take(v.len() as int) =~= v.deep_view());
    r
}

impl VersionInfo {
    /// A copy of the version.
    pub fn duplicate(&self) -> (r: VersionInfo)
        ensures
            r@ == self@,
    {
        VersionInfo {
            name: self.name.clone(),
            alias: copy_strings(&self.alias),
            osinfo_conf: self.osinfo_conf.clone(),
        }
    }
}

impl DistroInfo {
    /// A copy of the distribution.
    pub fn duplicate(&self) -> (r: DistroInfo)
        ensures
            r@ == self@,
    {
        let mut versions: Vec<VersionInfo> = Vec::new();
        let mut i: usize = 0;
        while i < self.versions.len()
            invariant
                i <= self.versions.len(),
                versions_view(versions@) == versions_view(self.versions@).take(i as int),
            decreases self.versions.len() - i,
        {
            let ghost before = versions@;
            let v = self.versions[i].duplicate();
            versions.push(v);
            assert(versions_view(versions@) =~= versions_view(before).push(v@));
            assert(versions_view(self.versions@).take(i + 1) =~= versions_view(self.versions@).take(
                i as int,
            ).push(self.versions@[i as int]@));
            i = i + 1;
        }
        assert(versions_view(self.versions@).take(self.versions.len() as int) =~= versions_view(
            self.versions@,
        ));
        DistroInfo {
            name: self.name.clone(),
            latest_version: self.latest_version.clone(),
            versions,
        }
    }
}

/// Looks a version of `info` up by name or alias; the first match wins.
pub fn get_version(info: &DistroInfo, version: &String) -> (r: Result<VersionInfo, DistroError>)
    ensures
        match find_version(info@.versions, version@) {
            Some(x) => r matches Ok(v) && v@ == x,
            None => r matches Err(e) && e@ == DistroErrorView::VersionNotFound(version@),
        },
{
    let ghost vs = info@.versions;
    let mut i: usize = 0;
    while i < info.versions.len()
        invariant
            vs == info@.versions,
            i <= info.versions.len(),
            find_version(vs, version@) == find_version_from(vs, version@, i as int),
        decreases info.versions.len() - i,
    {
        let item = &info.versions[i];
        assert(vs[i as int] == item@);
        if item.name == *version || strings_contain(&item.alias, version) {
            return Ok(item.duplicate());
        }
        i = i + 1;
    }
    Err(DistroError::VersionNotFound(version.clone()))
}

/// The user that cloud-init creates.
#[derive(Debug)]
pub struct DefaultUser {
    pub name: String,
    pub ssh_authorized_keys: Vec<String>,
    pub sudo: String,
    pub shell: String,
}

/// The `system_info` section of the user data.
#[derive(Debug)]
pub struct SystemInfo {
    pub default_user: DefaultUser,
}

/// One package source.
#[derive(Debug)]
pub struct SourceConfig {
    pub arches: Vec<String>,
    pub uri: String,
}

/// The package sources of APT.
#[derive(Debug)]
pub struct APTConfig {
    pub primary: Vec<SourceConfig>,
    pub security: Vec<SourceConfig>,
}

/// The cloud-init user data of a new machine; absent sections are left out
/// when it is written.
#[derive(Debug)]
pub struct UserDataConfig {
    pub system_info: SystemInfo,
    pub apt: Option<APTConfig>,
    pub runcmd: Option<Vec<String>>,
    pub cloud_config_modules: Option<Vec<String>>,
    pub cloud_final_modules: Option<Vec<String>>,
}

/// A package source as plain values: architectures and URI.
pub type SourceView = (Seq<Seq<char>>, Seq<char>);

/// APT sources as plain values: primary and security.
pub type AptView = (Seq<SourceView>, Seq<SourceView>);

/// User data as plain values.
pub struct UserDataView {
    pub user_name: Seq<char>,
    pub ssh_authorized_keys: Seq<Seq<char>>,
    pub sudo: Seq<char>,
    pub shell: Seq<char>,
    pub apt: Option<AptView>,
    pub runcmd: Option<Seq<Seq<char>>>,
    pub cloud_config_modules: Option<Seq<Seq<char>>>,
    pub cloud_final_modules: Option<Seq<Seq<char>>>,
}

pub open spec fn sources_view(v: Seq<SourceConfig>) -> Seq<SourceView> {
    v.map_values(|s: SourceConfig| (s.arches.deep_view(), s.uri@))
}

pub open spec fn apt_view(a: Option<APTConfig>) -> Option<AptView> {
    match a {
        Some(c) => Some((sources_view(c.primary@), sources_view(c.security@))),
        None => None,
    }
}

pub open spec fn strings_view(v: Option<Vec<String>>) -> Option<Seq<Seq<char>>> {
    match v {
        Some(l) => Some(l.deep_view()),
        None => None,
    }
}

impl View for UserDataConfig {
    type V = UserDataView;

    open spec fn view(&self) -> UserDataView {
        UserDataView {
            user_name: self.system_info.default_user.name@,
            ssh_authorized_keys: self.system_info.default_user.ssh_authorized_keys.deep_view(),
            sudo: self.system_info.default_user.sudo@,
            shell: self.system_info.default_user.shell@,
            apt: apt_view(self.apt),
            runcmd: strings_view(self.runcmd),
            cloud_config_modules: strings_view(self.cloud_config_modules),
            cloud_final_modules: strings_view(self.cloud_final_modules),
        }
    }
}

/// The user data every distribution gives: the user, its one key,
/// password-less sudo and bash, with the given extra sections.
pub open spec fn user_data(
    user: Seq<char>,
    pubkey: Seq<char>,
    apt: Option<AptView>,
    runcmd: Option<Seq<Seq<char>>>,
    cloud_config_modules: Option<Seq<Seq<char>>>,
    cloud_final_modules: Option<Seq<Seq<char>>>,
) -> UserDataView {
    UserDataView {
        user_name: user,
        ssh_authorized_keys: seq![pubkey],
        sudo: "ALL=(ALL) NOPASSWD:ALL"@,
        shell: "/bin/bash"@,
        apt,
        runcmd,
        cloud_config_modules,
        cloud_final_modules,
    }
}

/// The APT configuration with one primary and one security source, both for
/// the `default` architectures.
pub open spec fn apt_sources(primary: Seq<char>, security: Seq<char>) -> AptView {
    (seq![(seq!["default"@], primary)], seq![(seq!["default"@], security)])
}

/// Builds the APT configuration with one primary and one security source.
pub fn make_apt_config(primary: &str, security: &str) -> (r: APTConfig)
    ensures
        apt_view(Some(r)) == Some(apt_sources(primary@, security@)),
{
    let p = SourceConfig { arches: vec![owned("default")], uri: owned(primary) };
    let s = SourceConfig { arches: vec![owned("default")], uri: owned(security) };
    assert(p.arches.deep_view() =~= seq!["default"@]);
    assert(s.arches.deep_view() =~= seq!["default"@]);
    let r = APTConfig { primary: vec![p], security: vec![s] };
    assert(sources_view(r.primary@) =~= seq![(seq!["default"@], primary@)]);
    assert(sources_view(r.security@) =~= seq![(seq!["default"@], security@)]);
    r
}

/// Builds the user data for `user` with key `pubkey` and the given sections.
pub fn make_user_data(
    user: &String,
    pubkey: &String,
    apt: Option<APTConfig>,
    runcmd: Option<Vec<String>>,
    cloud_config_modules: Option<Vec<String>>,
    cloud_final_modules: Option<Vec<String>>,
) -> (r: UserDataConfig)
    ensures
        r@ == user_data(
            user@,
            pubkey@,
            apt_view(apt),
            strings_view(runcmd),
            strings_view(cloud_config_modules),
            strings_view(cloud_final_modules),
        ),
{
    let keys = vec![pubkey.clone()];
    assert(keys.deep_view() =~= seq![pubkey@]);
    UserDataConfig {
        system_info: SystemInfo {
            default_user: DefaultUser {
                name: user.clone(),
                ssh_authorized_keys: keys,
                sudo: owned("ALL=(ALL) NOPASSWD:ALL"),
                shell: owned("/bin/bash"),
            },
        },
        apt,
        runcmd,
        cloud_config_modules,
        cloud_final_modules,
    }
}

/// The cloud-init user data document: the `#cloud-config` header line,
/// then the YAML text of the configuration.
pub fn cloud_config_document(yaml: &str) -> (r: String)
    ensures
        r@ == "#cloud-config\n"@ + yaml@,
{
    let mut r = owned("#cloud-config\n");
    r.append(yaml);
    r
}

/// The image architecture name of a host architecture.
pub open spec fn arch_codename(arch: Seq<char>) -> Option<Seq<char>> {
    if arch == "x86_64"@ {
        Some("amd64"@)
    } else if arch == "aarch64"@ {
        Some("arm64"@)
    } else {
        None
    }
}

/// The image architecture name of a host architecture (`amd64` for `x86_64`,
/// `arm64` for `aarch64`), none for any other.
pub fn get_arch_codename(arch: &str) -> (r: Option<String>)
    ensures
        match arch_codename(arch@) {
            Some(c) => r matches Some(s) && s@ == c,
            None => r is None,
        },
{
    if str_eq(arch, "x86_64") {
        Some(owned("amd64"))
    } else if str_eq(arch, "aarch64") {
        Some(owned("arm64"))
    } else {
        None
    }
}


/// A version found by `find_version_from` is one of the versions.
pub proof fn lemma_find_version_member(vs: Seq<VersionView>, v: Seq<char>, i: int)
    requires
        find_version_from(vs, v, i) is Some,
    ensures
        exists|k: int| 0 <= k < vs.len() && vs[k] == find_version_from(vs, v, i)->0,
    decreases vs.len() - i,
{
    if 0 <= i < vs.len() && !(vs[i].name == v || vs[i].alias.contains(v)) {
        lemma_find_version_member(vs, v, i + 1);
    }
}

/// The name of the version that `v` names, as a check of it; the refusal
/// `miss` where none does.
pub open spec fn checked_version(vs: Seq<VersionView>, v: Seq<char>, miss: DistroErrorView) -> Result<
    Seq<char>,
    DistroErrorView,
> {
    match find_version(vs, v) {
        Some(x) => Ok(x.name),
        None => Err(miss),
    }
}

/// The `virt-install` OS name of the version that `v` names; the refusal
/// `miss` where none does.
pub open spec fn version_osinfo(vs: Seq<VersionView>, v: Seq<char>, miss: DistroErrorView) -> Result<
    Seq<char>,
    DistroErrorView,
> {
    match find_version(vs, v) {
        Some(x) => Ok(x.osinfo_conf),
        None => Err(miss),
    }
}

/// The operations every supported distribution offers.
pub trait Distro {
    /// The distribution's name.
    fn name(&self) -> String;

    /// The canonical name of a version given by name or alias.
    fn check_version(&self, version: &String) -> Result<String, DistroError>;

    /// The newest version.
    fn latest_version(&self) -> String;

    /// Where the cloud image of a version is, for the host architecture `arch`.
    fn get_download_link(&self, version: &String, arch: &str) -> Result<String, DistroError>;

    /// The `virt-install --osinfo` value of a version.
    fn get_osinfo_conf(&self, version: &String) -> Result<String, DistroError>;

    /// The cloud-init user data of a new machine, for the host architecture `arch`.
    fn gen_cloud_user_data(&self, version: &String, user: &String, pubkey: &String, arch: &str) -> UserDataConfig;
}

/// One of the supported distributions.
pub enum AnyDistro {
    Ubuntu(UbuntuInfo),
    Debian(DebianInfo),
    Archlinux(ArchlinuxInfo),
}

impl AnyDistro {
    pub open spec fn spec_name(&self) -> Seq<char> {
        match self {
            AnyDistro::Ubuntu(d) => d.spec_name(),
            AnyDistro::Debian(d) => d.spec_name(),
            AnyDistro::Archlinux(d) => d.spec_name(),
        }
    }

    pub open spec fn spec_check_version(&self, v: Seq<char>) -> Result<Seq<char>, DistroErrorView> {
        match self {
            AnyDistro::Ubuntu(d) => d.spec_check_version(v),
            AnyDistro::Debian(d) => d.spec_check_version(v),
            AnyDistro::Archlinux(d) => d.spec_check_version(v),
        }
    }

    pub open spec fn spec_latest_version(&self) -> Seq<char> {
        match self {
            AnyDistro::Ubuntu(d) => d.spec_latest_version(),
            AnyDistro::Debian(d) => d.spec_latest_version(),
            AnyDistro::Archlinux(d) => d.spec_latest_version(),
        }
    }

    pub open spec fn spec_download_link(&self, v: Seq<char>, arch: Seq<char>) -> Result<Seq<char>, DistroErrorView> {
        match self {
            AnyDistro::Ubuntu(d) => d.spec_download_link(v, arch),
            AnyDistro::Debian(d) => d.spec_download_link(v, arch),
            AnyDistro::Archlinux(d) => d.spec_download_link(v, arch),
        }
    }

    pub open spec fn spec_osinfo_conf(&self, v: Seq<char>) -> Result<Seq<char>, DistroErrorView> {
        match self {
            AnyDistro::Ubuntu(d) => d.spec_osinfo_conf(v),
            AnyDistro::Debian(d) => d.spec_osinfo_conf(v),
            AnyDistro::Archlinux(d) => d.spec_osinfo_conf(v),
        }
    }

    pub open spec fn spec_user_data(
        &self,
        v: Seq<char>,
        user: Seq<char>,
        pubkey: Seq<char>,
        arch: Seq<char>,
    ) -> UserDataView {
        match self {
            AnyDistro::Ubuntu(d) => d.spec_user_data(v, user, pubkey, arch),
            AnyDistro::Debian(d) => d.spec_user_data(v, user, pubkey, arch),
            AnyDistro::Archlinux(d) => d.spec_user_data(v, user, pubkey, arch),
        }
    }
}

impl Distro for AnyDistro {
    fn name(&self) -> (r: String)
        ensures
            r@ == self.spec_name(),
    {
        match self {
            AnyDistro::Ubuntu(d) => d.name(),
            AnyDistro::Debian(d) => d.name(),
            AnyDistro::Archlinux(d) => d.name(),
        }
    }

    fn check_version(&self, version: &String) -> (r: Result<String, DistroError>)
        ensures
            text_result(r) == self.spec_check_version(version@),
    {
        match self {
            AnyDistro::Ubuntu(d) => d.check_version(version),
            AnyDistro::Debian(d) => d.check_version(version),
            AnyDistro::Archlinux(d) => d.check_version(version),
        }
    }

    fn latest_version(&self) -> (r: String)
        ensures
            r@ == self.spec_latest_version(),
    {
        match self {
            AnyDistro::Ubuntu(d) => d.latest_version(),
            AnyDistro::Debian(d) => d.latest_version(),
            AnyDistro::Archlinux(d) => d.latest_version(),
        }
    }

    fn get_download_link(&self, version: &String, arch: &str) -> (r: Result<String, DistroError>)
        ensures
            text_result(r) == self.spec_download_link(version@, arch@),
    {
        match self {
            AnyDistro::Ubuntu(d) => d.get_download_link(version, arch),
            AnyDistro::Debian(d) => d.get_download_link(version, arch),
            AnyDistro::Archlinux(d) => d.get_download_link(version, arch),
        }
    }

    fn get_osinfo_conf(&self, version: &String) -> (r: Result<String, DistroError>)
        ensures
            text_result(r) == self.spec_osinfo_conf(version@),
    {
        match self {
            AnyDistro::Ubuntu(d) => d.get_osinfo_conf(version),
            AnyDistro::Debian(d) => d.get_osinfo_conf(version),
            AnyDistro::Archlinux(d) => d.get_osinfo_conf(version),
        }
    }

    fn gen_cloud_user_data(&self, version: &String, user: &String, pubkey: &String, arch: &str) -> (r:
        UserDataConfig)
        ensures
            r@ == self.spec_user_data(version@, user@, pubkey@, arch@),
    {
        match self {
            AnyDistro::Ubuntu(d) => d.gen_cloud_user_data(version, user, pubkey, arch),
            AnyDistro::Debian(d) => d.gen_cloud_user_data(version, user, pubkey, arch),
            AnyDistro::Archlinux(d) => d.gen_cloud_user_data(version, user, pubkey, arch),
        }
    }
}

/// The first distribution, from index `i` on, named `name`.
pub open spec fn find_distro_from(t: Seq<DistroView>, name: Seq<char>, i: int) -> Option<DistroView>
    decreases t.len() - i,
{
    if i < 0 || i >= t.len() {
        None
    } else if t[i].name == name {
        Some(t[i])
    } else {
        find_distro_from(t, name, i + 1)
    }
}

/// The index of the first distribution of `table` named `name`.
fn find_distro_index(table: &DistroInfoList, name: &str) -> (r: Option<usize>)
    ensures
        match r {
            Some(k) => k < table@.len() && find_distro_from(table@, name@, 0) == Some(table@[k as int]),
            None => find_distro_from(table@, name@, 0) is None,
        },
{
    let ghost t = table@;
    let mut i: usize = 0;
    while i < table.distro.len()
        invariant
            table@ == t,
            i <= table.distro.len(),
            find_distro_from(t, name@, 0) == find_distro_from(t, name@, i as int),
        decreases table.distro.len() - i,
    {
        assert(t[i as int] == table.distro@[i as int]@);
        if str_eq(table.distro[i].name.as_str(), name) {
            return Some(i);
        }
        i = i + 1;
    }
    None
}

/// Every version has at least one alias.
pub open spec fn every_version_has_alias(d: DistroView) -> bool {
    forall|i: int| 0 <= i < d.versions.len() ==> (#[trigger] d.versions[i]).alias.len() > 0
}

/// The supported distribution named `name`: refused unless the table lists
/// it and it is one of `ubuntu`, `debian` and `archlinux`.
pub fn get_distro(name: &str) -> (r: Result<AnyDistro, DistroError>)
    ensures
        match find_distro_from(distro_table(), name@, 0) {
            None => r matches Err(DistroError::UnsupportedDistro),
            Some(info) => if name@ == "ubuntu"@ {
                r matches Ok(AnyDistro::Ubuntu(u)) && u.info() == info
            } else if name@ == "debian"@ {
                r matches Ok(AnyDistro::Debian(d)) && d.info() == info
            } else if name@ == "archlinux"@ {
                r matches Ok(AnyDistro::Archlinux(_))
            } else {
                r matches Err(DistroError::UnsupportedDistro)
            },
        },
{
    let table = distro_version();
    let ghost t = distro_table();
    let k = match find_distro_index(&table, name) {
        None => return Err(DistroError::UnsupportedDistro),
        Some(k) => k,
    };
    let info = &table.distro[k];
    proof {
        reveal_strlit("ubuntu");
        reveal_strlit("debian");
        reveal_strlit("archlinux");
    }
    if str_eq(name, "ubuntu") {
        assert(find_distro_from(t, name@, 0) == Some(t[0]));
        assert(info@ == t[0]);
        Ok(AnyDistro::Ubuntu(UbuntuInfo::new(info)))
    } else if str_eq(name, "debian") {
        assert("ubuntu"@[0] != "debian"@[0]);
        assert(t[0].name != name@);
        assert(find_distro_from(t, name@, 1) == Some(t[1]));
        assert(find_distro_from(t, name@, 0) == Some(t[1]));
        assert(info@ == t[1]);
        assert(every_version_has_alias(info@));
        Ok(AnyDistro::Debian(DebianInfo::new(info)))
    } else if str_eq(name, "archlinux") {
        Ok(AnyDistro::Archlinux(ArchlinuxInfo::new()))
    } else {
        Err(DistroError::UnsupportedDistro)
    }
}

} // verus!
