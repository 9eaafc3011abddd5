//! `install-hook`: the libvirt hook script that calls this tool.

use vstd::prelude::*;
use crate::text::owned;

verus! {

/// The arguments of `install-hook` (none).
#[derive(Debug)]
pub struct SubCmdInstallHook {}

/// Where libvirt looks for its QEMU hook.
pub open spec fn hook_path_spec() -> Seq<char> {
    "/etc/libvirt/hooks/qemu"@
}

/// The script installed as the hook: it hands its arguments to `hustoa-vm hook`.
pub open spec fn hook_wrapper_spec() -> Seq<char> {
    "#!/bin/sh\n# Wrapper to delegate to hustoa-vm hook subcommand\nexec /usr/local/bin/hustoa-vm hook \"$@\"\n"@
}

impl SubCmdInstallHook {
    /// Where the hook goes.
    pub fn hook_path(&self) -> (r: String)
        ensures
            r@ == hook_path_spec(),
    {
        owned("/etc/libvirt/hooks/qemu")
    }

    /// Where an existing hook is kept (its extension replaced by `bak`).
    pub fn backup_path(&self) -> (r: String)
        ensures
            r@ == "/etc/libvirt/hooks/qemu.bak"@,
    {
        owned("/etc/libvirt/hooks/qemu.bak")
    }

    /// The hook script.
    pub fn wrapper_script(&self) -> (r: String)
        ensures
            r@ == hook_wrapper_spec(),
    {
        owned("#!/bin/sh\n# Wrapper to delegate to hustoa-vm hook subcommand\nexec /usr/local/bin/hustoa-vm hook \"$@\"\n")
    }
}

} // verus!
