//! `self-update`: which release archive to fetch and where it goes.

use vstd::prelude::*;
use crate::text::{owned, push_str, str_eq};
use crate::tools::CommandLine;
use crate::cmd::create::{path_join, join_path};

verus! {

/// The arguments of `self-update`.
#[derive(Debug)]
pub struct SubCmdSelfUpdate {
    /// Architecture to fetch (`aarch64` or `x86_64`) in place of the host's.
    pub arch: Option<String>,
}

/// Why no update was fetched.
#[derive(Debug)]
pub enum SelfUpdateError {
    /// No release is built for this architecture.
    UnsupportedArch(String),
}

/// The release archive of an architecture.
pub open spec fn release_filename(arch: Seq<char>) -> Option<Seq<char>> {
    if arch == "aarch64"@ {
        Some("hustoa-vm-aarch64-unknown-linux-musl.tar.gz"@)
    } else if arch == "x86_64"@ {
        Some("hustoa-vm-x86_64-unknown-linux-musl.tar.gz"@)
    } else {
        None
    }
}

/// Where the newest release archive of a file name is downloaded from.
pub open spec fn release_url(filename: Seq<char>) -> Seq<char> {
    "https://github.com/hust-open-atom-club/hustoa-vm/releases/latest/download/"@ + filename
}

/// The work of an update: download the archive, unpack it, check that the
/// binary is there and copy it to its installed place.
#[derive(Debug)]
pub struct SelfUpdatePlan {
    pub url: String,
    pub download: CommandLine,
    pub extract: CommandLine,
    pub extracted_bin: String,
    pub target_path: String,
}

impl SubCmdSelfUpdate {
    /// The architecture to update for: the one asked for, else the host's.
    pub open spec fn chosen_arch(&self, host_arch: Seq<char>) -> Seq<char> {
        match self.arch {
            Some(a) => a@,
            None => host_arch,
        }
    }

    /// The update's work, with its files under the directory `tmp_dir`;
    /// refused for an architecture without releases.
    pub fn plan(&self, host_arch: &str, tmp_dir: &str) -> (r: Result<SelfUpdatePlan, SelfUpdateError>)
        ensures
            match release_filename(self.chosen_arch(host_arch@)) {
                None => r matches Err(SelfUpdateError::UnsupportedArch(a)) && a@ == self.chosen_arch(host_arch@),
                Some(f) => r matches Ok(p) && {
                    let ghost tar = path_join(tmp_dir@, "hustoa-vm.tar.gz"@);
                    &&& p.url@ == release_url(f)
                    &&& p.download@ == ("wget"@, seq!["-O"@, tar, release_url(f)])
                    &&& p.extract@ == ("tar"@, seq!["-xzf"@, tar, "-C"@, tmp_dir@])
                    &&& p.extracted_bin@ == path_join(tmp_dir@, "hustoa-vm"@)
                    &&& p.target_path@ == "/usr/local/bin/hustoa-vm"@
                },
            },
    {
        let arch = match &self.arch {
            Some(a) => a.clone(),
            None => owned(host_arch),
        };
        let filename = if str_eq(arch.as_str(), "aarch64") {
            "hustoa-vm-aarch64-unknown-linux-musl.tar.gz"
        } else if str_eq(arch.as_str(), "x86_64") {
            "hustoa-vm-x86_64-unknown-linux-musl.tar.gz"
        } else {
            return Err(SelfUpdateError::UnsupportedArch(arch));
        };
        let mut url = owned("https://github.com/hust-open-atom-club/hustoa-vm/releases/latest/download/");
        push_str(&mut url, filename);
        let tar_path = join_path(tmp_dir, "hustoa-vm.tar.gz");
        let download = CommandLine {
            program: owned("wget"),
            args: vec![owned("-O"), tar_path.clone(), url.clone()],
        };
        let extract = CommandLine {
            program: owned("tar"),
            args: vec![owned("-xzf"), tar_path, owned("-C"), owned(tmp_dir)],
        };
        let ghost tar = path_join(tmp_dir@, "hustoa-vm.tar.gz"@);
        assert(download.args.deep_view() =~= seq!["-O"@, tar, url@]);
        assert(extract.args.deep_view() =~= seq!["-xzf"@, tar, "-C"@, tmp_dir@]);
        Ok(SelfUpdatePlan {
            url,
            download,
            extract,
            extracted_bin: join_path(tmp_dir, "hustoa-vm"),
            target_path: owned("/usr/local/bin/hustoa-vm"),
        })
    }
}

/// The release fetched is the one built for the architecture asked for with
/// `--arch`, else for the host's: its file is
/// `hustoa-vm-<arch>-unknown-linux-musl.tar.gz`, and only aarch64 and x86_64
/// have releases.
pub proof fn law_release_for_arch(cmd: SubCmdSelfUpdate, host: Seq<char>)
    ensures
        ({
            let a = match cmd.arch {
                Some(x) => x@,
                None => host,
            };
            release_filename(cmd.chosen_arch(host)) == (if a == "aarch64"@ || a == "x86_64"@ {
                Some("hustoa-vm-"@ + a + "-unknown-linux-musl.tar.gz"@)
            } else {
                None::<Seq<char>>
            })
        }),
{
    reveal_strlit("aarch64");
    reveal_strlit("x86_64");
    reveal_strlit("hustoa-vm-");
    reveal_strlit("-unknown-linux-musl.tar.gz");
    reveal_strlit("hustoa-vm-aarch64-unknown-linux-musl.tar.gz");
    reveal_strlit("hustoa-vm-x86_64-unknown-linux-musl.tar.gz");
    assert("hustoa-vm-"@ + "aarch64"@ + "-unknown-linux-musl.tar.gz"@ =~= "hustoa-vm-aarch64-unknown-linux-musl.tar.gz"@);
    assert("hustoa-vm-"@ + "x86_64"@ + "-unknown-linux-musl.tar.gz"@ =~= "hustoa-vm-x86_64-unknown-linux-musl.tar.gz"@);
}

} // verus!
